//! The add/skip decision the orchestrator takes for each listing.
//!
//! For one listing, the decision depends only on the search term and on
//! the candidates the media server returned for it: skip when there is
//! nothing to add, hand over to manual disambiguation when several
//! candidates qualify, and add when exactly one untracked candidate
//! matches. Nothing else flows in, so the same inputs always yield the
//! same decision.

use vstd::prelude::*;

use crate::listing::ListingRecord;
use crate::matching::MatchOutcome;
use crate::matching::find_matches;
use crate::matching::matching_candidates;
use crate::search_result::SearchResult;

verus! {

/// Why a listing was skipped. Each reason is reported differently: an
/// empty search reply is not the same news as a reply in which nothing
/// matched.
#[derive(Debug, Clone, Copy, PartialEq, Eq, Structural)]
pub enum SkipReason {
    NoSearchResults,
    NoExactTitleMatch,
    AlreadyTracked,
}

impl SkipReason {
    /// The reason as reports phrase it.
    pub open spec fn message_view(self) -> Seq<char> {
        match self {
            SkipReason::NoSearchResults => "no search results"@,
            SkipReason::NoExactTitleMatch => "no exact title match"@,
            SkipReason::AlreadyTracked => "already tracked"@,
        }
    }

    /// The reason as reports phrase it.
    pub fn message(&self) -> (r: String)
        ensures
            r@ == self.message_view(),
    {
        match self {
            SkipReason::NoSearchResults => "no search results".to_owned(),
            SkipReason::NoExactTitleMatch => "no exact title match".to_owned(),
            SkipReason::AlreadyTracked => "already tracked".to_owned(),
        }
    }
}

/// The outcome for one listing: leave it alone (with the reason), surface
/// several qualifying candidates for manual resolution, or add the one
/// qualifying candidate.
#[derive(Debug, PartialEq, Eq)]
pub enum Decision {
    Skip(SkipReason),
    NeedsDisambiguation(Vec<SearchResult>),
    Add(SearchResult),
}

/// What the decision for a term and its search results must be:
/// - an empty search reply is skipped as "no search results";
/// - a reply in which no candidate matches is skipped as "no exact title
///   match";
/// - one matching candidate is added, unless the server already tracks
///   it, which is skipped as "already tracked";
/// - several matching candidates are surfaced for disambiguation, never
///   guessed among.
pub open spec fn is_decision_for(d: Decision, term: Seq<char>, results: Seq<SearchResult>) -> bool {
    let m = matching_candidates(term, results);
    if results.len() == 0 {
        d == Decision::Skip(SkipReason::NoSearchResults)
    } else if m.len() == 0 {
        d == Decision::Skip(SkipReason::NoExactTitleMatch)
    } else if m.len() == 1 {
        if m[0].is_already_tracked() {
            d == Decision::Skip(SkipReason::AlreadyTracked)
        } else {
            d == Decision::Add(m[0])
        }
    } else {
        d matches Decision::NeedsDisambiguation(v) && v@ == m
    }
}

/// Decides what to do for one listing, given the candidates the media
/// server returned when searched for the listing's title.
pub fn decide(term: &str, results: Vec<SearchResult>) -> (d: Decision)
    ensures
        is_decision_for(d, term@, results@),
{
    if results.len() == 0 {
        return Decision::Skip(SkipReason::NoSearchResults);
    }
    match find_matches(term, results) {
        MatchOutcome::NoMatch => Decision::Skip(SkipReason::NoExactTitleMatch),
        MatchOutcome::Matches(mut v) => {
            if v.len() == 1 {
                let c = v.remove(0);
                if c.already_tracked() {
                    Decision::Skip(SkipReason::AlreadyTracked)
                } else {
                    Decision::Add(c)
                }
            } else {
                Decision::NeedsDisambiguation(v)
            }
        },
    }
}

/// Two decisions agree when they pick the same outcome for the listing:
/// equal skip reasons, the same candidate to add, or disambiguation lists
/// holding the same candidates in the same order.
pub open spec fn same_decision(a: Decision, b: Decision) -> bool {
    match (a, b) {
        (Decision::Skip(r1), Decision::Skip(r2)) => r1 == r2,
        (Decision::NeedsDisambiguation(v1), Decision::NeedsDisambiguation(v2)) => v1@ == v2@,
        (Decision::Add(c1), Decision::Add(c2)) => c1 == c2,
        _ => false,
    }
}

/// The decision is a function of the term and the search results alone:
/// any two decisions taken for the same inputs agree.
pub proof fn lemma_decision_deterministic(
    term: Seq<char>,
    results: Seq<SearchResult>,
    d1: Decision,
    d2: Decision,
)
    requires
        is_decision_for(d1, term, results),
        is_decision_for(d2, term, results),
    ensures
        same_decision(d1, d2),
{
}

/// The per-listing report the orchestrator produces: the listing's title
/// and what was decided for it.
#[derive(Debug, PartialEq, Eq)]
pub struct Outcome {
    pub title: String,
    pub decision: Decision,
}

/// What a batch report must say: one outcome per listing, in order, each
/// carrying the listing's title and the decision its own term and search
/// results demand.
pub open spec fn outcomes_for(
    batch: Seq<(ListingRecord, Vec<SearchResult>)>,
    r: Seq<Outcome>,
) -> bool {
    &&& r.len() == batch.len()
    &&& forall|i: int|
        0 <= i < batch.len() ==> (#[trigger] r[i]).title == batch[i].0.name && is_decision_for(
            r[i].decision,
            batch[i].0.name@,
            batch[i].1@,
        )
}

/// Decides every listing of a batch, pairing each with the candidates the
/// media server returned for its title. Listings are handled one at a
/// time and independently; no state is carried from one to the next.
pub fn decide_all(batch: Vec<(ListingRecord, Vec<SearchResult>)>) -> (r: Vec<Outcome>)
    ensures
        outcomes_for(batch@, r@),
{
    let ghost orig = batch@;
    let mut rest = batch;
    let mut out: Vec<Outcome> = Vec::new();
    while rest.len() > 0
        invariant
            out@.len() + rest@.len() == orig.len(),
            forall|i: int|
                0 <= i < rest@.len() ==> #[trigger] rest@[i] == orig[out@.len() + i],
            forall|i: int|
                0 <= i < out@.len() ==> (#[trigger] out@[i]).title == orig[i].0.name
                    && is_decision_for(out@[i].decision, orig[i].0.name@, orig[i].1@),
        decreases rest.len(),
    {
        let (listing, results) = rest.remove(0);
        let decision = decide(listing.name.as_str(), results);
        out.push(Outcome { title: listing.name, decision });
    }
    out
}

/// Running the batch twice against an unchanged catalog and unchanged
/// listings yields the same decision set: reports of the same batch agree
/// listing by listing.
pub proof fn lemma_outcomes_idempotent(
    batch: Seq<(ListingRecord, Vec<SearchResult>)>,
    r1: Seq<Outcome>,
    r2: Seq<Outcome>,
)
    requires
        outcomes_for(batch, r1),
        outcomes_for(batch, r2),
    ensures
        r1.len() == r2.len(),
        forall|i: int|
            0 <= i < r1.len() ==> (#[trigger] r1[i]).title == r2[i].title && same_decision(
                r1[i].decision,
                r2[i].decision,
            ),
{
    assert forall|i: int|
        0 <= i < r1.len() implies (#[trigger] r1[i]).title == r2[i].title && same_decision(
        r1[i].decision,
        r2[i].decision,
    ) by {
        lemma_decision_deterministic(batch[i].0.name@, batch[i].1@, r1[i].decision, r2[i].decision);
    }
}

} // verus!
