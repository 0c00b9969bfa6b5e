//! First-match search, the one lookup rule that every table of the layer uses.
use vstd::prelude::*;

verus! {

/// The index of the first element at or after `start` that satisfies `p`,
/// or the length of `s` when there is none.
pub open spec fn first_where<A>(s: Seq<A>, p: spec_fn(A) -> bool, start: int) -> int
    decreases s.len() - start,
{
    if start < 0 || start >= s.len() {
        s.len() as int
    } else if p(s[start]) {
        start
    } else {
        first_where(s, p, start + 1)
    }
}

/// What the first match is: in range, or the length; when in range it
/// satisfies `p`; nothing between `start` and it does.
pub proof fn lemma_first_where<A>(s: Seq<A>, p: spec_fn(A) -> bool, start: int)
    requires
        0 <= start,
    ensures
        start <= first_where(s, p, start) <= s.len() || (start > s.len() && first_where(s, p, start) == s.len()),
        first_where(s, p, start) < s.len() ==> p(s[first_where(s, p, start)]),
        forall|j: int| start <= j < first_where(s, p, start) ==> !p(#[trigger] s[j]),
    decreases s.len() - start,
{
    if start < s.len() && !p(s[start]) {
        lemma_first_where(s, p, start + 1);
    }
}

} // verus!
