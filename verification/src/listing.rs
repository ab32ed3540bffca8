//! Cinema listings and the category filter applied to them.

use vstd::prelude::*;

verus! {

/// One screening entry from a cinema's published calendar: the title as
/// the cinema displays it and the label of the repertory series it is
/// shown under.
#[derive(Debug, PartialEq, Eq)]
pub struct ListingRecord {
    pub name: String,
    pub show_category: String,
}

/// A listing qualifies when its category label is one of the allowed
/// labels. Membership is by exact text: categories are configuration, not
/// free-form titles.
pub open spec fn category_allowed(listing: ListingRecord, allowed: Seq<String>) -> bool {
    exists|i: int| 0 <= i < allowed.len() && #[trigger] allowed[i]@ == listing.show_category@
}

/// The listings whose category is allowed, in their input order.
pub open spec fn qualifying_listings(listings: Seq<ListingRecord>, allowed: Seq<String>) -> Seq<
    ListingRecord,
>
    decreases listings.len(),
{
    if listings.len() == 0 {
        Seq::empty()
    } else {
        let rest = qualifying_listings(listings.drop_first(), allowed);
        if category_allowed(listings.first(), allowed) {
            seq![listings.first()] + rest
        } else {
            rest
        }
    }
}

/// Whether some allowed label equals the given one, by exact text.
fn label_in(allowed: &Vec<String>, label: &String) -> (r: bool)
    ensures
        r == exists|i: int| 0 <= i < allowed@.len() && #[trigger] allowed@[i]@ == label@,
{
    let mut i: usize = 0;
    while i < allowed.len()
        invariant
            0 <= i <= allowed@.len(),
            forall|j: int| 0 <= j < i ==> #[trigger] allowed@[j]@ != label@,
        decreases allowed@.len() - i,
    {
        if allowed[i] == *label {
            return true;
        }
        i += 1;
    }
    false
}

/// Keeps the listings shown under one of the allowed category labels,
/// dropping the rest and preserving order.
pub fn filter_by_category(listings: Vec<ListingRecord>, allowed: &Vec<String>) -> (r: Vec<
    ListingRecord,
>)
    ensures
        r@ == qualifying_listings(listings@, allowed@),
{
    let ghost orig = listings@;
    let mut rest = listings;
    let mut out: Vec<ListingRecord> = Vec::new();
    while rest.len() > 0
        invariant
            qualifying_listings(orig, allowed@) =~= out@ + qualifying_listings(rest@, allowed@),
        decreases rest.len(),
    {
        let ghost rest_before = rest@;
        let l = rest.remove(0);
        let keep = label_in(allowed, &l.show_category);
        proof {
            assert(rest_before.first() == l);
            assert(rest_before.drop_first() =~= rest@);
        }
        if keep {
            out.push(l);
        }
    }
    proof {
        assert(out@ =~= qualifying_listings(orig, allowed@));
    }
    out
}

} // verus!
