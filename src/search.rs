//! Search terms for filtering users and projects by substring.
use vstd::prelude::*;

verus! {

/// The SQL `LIKE` pattern that matches any text containing `term`: the term
/// between two `%` wildcards, taken as it is.
pub open spec fn spec_like_pattern(term: Seq<char>) -> Seq<char> {
    seq!['%'] + term + seq!['%']
}

/// Builds the `LIKE` pattern for a substring search on `term`.
pub fn like_pattern(term: &str) -> (r: String)
    ensures
        r@ == spec_like_pattern(term@),
{
    let wildcard = "%";
    proof {
        reveal_strlit("%");
    }
    let mut r = String::from_str(wildcard);
    r.append(term);
    r.append(wildcard);
    assert(r@ =~= spec_like_pattern(term@));
    r
}

} // verus!
