//! The match selector: which of the media server's search results count as
//! a match for a cinema listing's title.
//!
//! Matching is exact after case normalization and nothing else: no
//! trimming, no punctuation stripping, no fuzzy comparison. A candidate
//! matches when its canonical title or any of its alternative titles equals
//! the search term once both sides are lowercased.

use vstd::prelude::*;

use crate::search_result::SearchResult;

verus! {

/// The lowercase form of a string: what Unicode simple case mapping turns
/// each of its characters into.
pub uninterp spec fn lower_of(s: Seq<char>) -> Seq<char>;

/// Relies on str::to_lowercase: the result depends on the input characters
/// alone.
#[verifier::external_body]
fn lowercase(s: &str) -> (r: String)
    ensures
        r@ == lower_of(s@),
{
    s.to_lowercase()
}

/// A candidate matches an already-lowercased term when its canonical title
/// or one of its alternative titles lowercases to that term.
pub open spec fn title_matches(term_lower: Seq<char>, c: SearchResult) -> bool {
    ||| lower_of(c.title@) == term_lower
    ||| exists|i: int|
        0 <= i < c.alternate_titles@.len() && #[trigger] lower_of(c.alternate_titles@[i].title@)
            == term_lower
}

/// A candidate matches a term when their lowercase forms agree on the
/// canonical title or on some alternative title.
pub open spec fn is_match(term: Seq<char>, c: SearchResult) -> bool {
    title_matches(lower_of(term), c)
}

/// The candidates that match the term, in the order the input gives them.
pub open spec fn matching_candidates(term: Seq<char>, candidates: Seq<SearchResult>) -> Seq<
    SearchResult,
>
    decreases candidates.len(),
{
    if candidates.len() == 0 {
        Seq::empty()
    } else {
        let rest = matching_candidates(term, candidates.drop_first());
        if is_match(term, candidates.first()) {
            seq![candidates.first()] + rest
        } else {
            rest
        }
    }
}

/// A candidate whose canonical title is exactly the search term always
/// matches it: equal strings lowercase alike, and matching asks no more
/// than equality after lowercasing.
pub proof fn lemma_exact_title_matches(term: Seq<char>, c: SearchResult)
    requires
        c.title@ == term,
    ensures
        is_match(term, c),
{
}

/// Some candidate matches the term exactly when the selector's result is
/// non-empty: matching finds a candidate if and only if one qualifies.
pub proof fn lemma_match_nonempty_iff_some_match(term: Seq<char>, candidates: Seq<SearchResult>)
    ensures
        matching_candidates(term, candidates).len() > 0 <==> exists|i: int|
            0 <= i < candidates.len() && is_match(term, #[trigger] candidates[i]),
    decreases candidates.len(),
{
    if candidates.len() > 0 {
        let rest = candidates.drop_first();
        lemma_match_nonempty_iff_some_match(term, rest);
        if matching_candidates(term, candidates).len() > 0 {
            if !is_match(term, candidates.first()) {
                let i = choose|i: int| 0 <= i < rest.len() && is_match(term, #[trigger] rest[i]);
                assert(candidates[i + 1] == rest[i]);
            }
        }
        if exists|i: int| 0 <= i < candidates.len() && is_match(term, #[trigger] candidates[i]) {
            let i = choose|i: int|
                0 <= i < candidates.len() && is_match(term, #[trigger] candidates[i]);
            if i > 0 {
                assert(rest[i - 1] == candidates[i]);
            }
        }
    }
}

/// Every candidate the selector returns satisfies the match predicate: a
/// non-empty match set holds qualifying candidates only.
pub proof fn lemma_matching_candidates_all_match(term: Seq<char>, candidates: Seq<SearchResult>)
    ensures
        forall|j: int|
            0 <= j < matching_candidates(term, candidates).len() ==> is_match(
                term,
                #[trigger] matching_candidates(term, candidates)[j],
            ),
    decreases candidates.len(),
{
    if candidates.len() > 0 {
        let rest = candidates.drop_first();
        lemma_matching_candidates_all_match(term, rest);
        let m = matching_candidates(term, candidates);
        let mr = matching_candidates(term, rest);
        if is_match(term, candidates.first()) {
            assert forall|j: int| 0 <= j < m.len() implies is_match(term, m[j]) by {
                if j == 0 {
                    assert(m[j] == candidates.first());
                } else {
                    assert(m[j] == mr[j - 1]);
                }
            }
        }
    }
}

/// Matching keeps the input order: the matches of one candidate list
/// followed by another are the matches of the first followed by the
/// matches of the second.
pub proof fn lemma_match_distributes_over_concat(
    term: Seq<char>,
    left: Seq<SearchResult>,
    right: Seq<SearchResult>,
)
    ensures
        matching_candidates(term, left + right) =~= matching_candidates(term, left)
            + matching_candidates(term, right),
    decreases left.len(),
{
    if left.len() == 0 {
        assert(left + right =~= right);
    } else {
        lemma_match_distributes_over_concat(term, left.drop_first(), right);
        assert((left + right).first() == left.first());
        assert((left + right).drop_first() =~= left.drop_first() + right);
    }
}

/// An empty candidate list yields no match, exactly as a candidate list
/// with no qualifying entry does: the two are indistinguishable here.
pub proof fn lemma_no_candidates_no_match(term: Seq<char>)
    ensures
        matching_candidates(term, Seq::<SearchResult>::empty()).len() == 0,
{
}

/// The result of matching one search term against a list of candidates:
/// either no candidate qualifies, or the non-empty list of those that do.
/// "No match" is a value of its own, distinct from an empty search result,
/// because callers report the two differently.
#[derive(Debug, PartialEq, Eq)]
pub enum MatchOutcome {
    NoMatch,
    Matches(Vec<SearchResult>),
}

/// Whether the candidate's canonical or alternative titles, lowercased,
/// equal the already-lowercased term.
pub fn candidate_matches(c: &SearchResult, term_lower: &String) -> (r: bool)
    ensures
        r == title_matches(term_lower@, *c),
{
    let canonical = lowercase(c.title.as_str());
    if canonical == *term_lower {
        return true;
    }
    let mut i: usize = 0;
    while i < c.alternate_titles.len()
        invariant
            0 <= i <= c.alternate_titles@.len(),
            forall|j: int|
                0 <= j < i ==> #[trigger] lower_of(c.alternate_titles@[j].title@) != term_lower@,
        decreases c.alternate_titles@.len() - i,
    {
        let alt = lowercase(c.alternate_titles[i].title.as_str());
        if alt == *term_lower {
            return true;
        }
        i += 1;
    }
    false
}

/// Filters the candidates down to those that match the term.
///
/// The outcome is `NoMatch` exactly when no candidate qualifies — an empty
/// candidate list included — and otherwise the qualifying candidates in
/// their input order, duplicates kept.
pub fn find_matches(term: &str, candidates: Vec<SearchResult>) -> (r: MatchOutcome)
    ensures
        r is NoMatch <==> matching_candidates(term@, candidates@).len() == 0,
        r matches MatchOutcome::Matches(v) ==> v@ == matching_candidates(term@, candidates@),
{
    let term_lower = lowercase(term);
    let ghost orig = candidates@;
    let mut rest = candidates;
    let mut out: Vec<SearchResult> = Vec::new();
    while rest.len() > 0
        invariant
            term_lower@ == lower_of(term@),
            matching_candidates(term@, orig) =~= out@ + matching_candidates(term@, rest@),
        decreases rest.len(),
    {
        let ghost rest_before = rest@;
        let c = rest.remove(0);
        let m = candidate_matches(&c, &term_lower);
        proof {
            assert(rest_before.first() == c);
            assert(rest_before.drop_first() =~= rest@);
        }
        if m {
            out.push(c);
        }
    }
    proof {
        assert(matching_candidates(term@, rest@) =~= Seq::empty());
        assert(out@ =~= matching_candidates(term@, orig));
    }
    if out.len() == 0 {
        MatchOutcome::NoMatch
    } else {
        MatchOutcome::Matches(out)
    }
}

} // verus!
