//! Searching a sequence for its first element of a kind.

use vstd::prelude::*;

verus! {

/// The lowest index at which `s` holds an element that satisfies `p`, or
/// the length of `s` if no element does.
pub open spec fn first_index<A>(s: Seq<A>, p: spec_fn(A) -> bool) -> nat
    decreases s.len(),
{
    if s.len() == 0 {
        0
    } else if p(s[0]) {
        0
    } else {
        1 + first_index(s.drop_first(), p)
    }
}

/// The first element of `s` that satisfies `p`.
pub open spec fn find_first<A>(s: Seq<A>, p: spec_fn(A) -> bool) -> Option<A> {
    let i = first_index(s, p);
    if i < s.len() {
        Some(s[i as int])
    } else {
        None
    }
}

/// The first index is in range, satisfies `p` if there is such an element,
/// and no earlier element does.
pub proof fn lemma_first_index<A>(s: Seq<A>, p: spec_fn(A) -> bool)
    ensures
        first_index(s, p) <= s.len(),
        first_index(s, p) < s.len() ==> p(s[first_index(s, p) as int]),
        forall|j: int| 0 <= j < first_index(s, p) ==> !p(#[trigger] s[j]),
    decreases s.len(),
{
    if s.len() > 0 && !p(s[0]) {
        let rest = s.drop_first();
        lemma_first_index(rest, p);
        assert forall|j: int| 0 <= j < first_index(s, p) implies !p(#[trigger] s[j]) by {
            if j > 0 {
                assert(s[j] == rest[j - 1]);
            }
        }
    }
}

/// An index whose element satisfies `p`, with no earlier such element, is
/// the first index; so is the length, if no element satisfies `p`.
pub proof fn lemma_first_index_is<A>(s: Seq<A>, p: spec_fn(A) -> bool, i: int)
    requires
        0 <= i <= s.len(),
        i < s.len() ==> p(s[i]),
        forall|j: int| 0 <= j < i ==> !p(#[trigger] s[j]),
    ensures
        first_index(s, p) == i,
{
    lemma_first_index(s, p);
    let k = first_index(s, p) as int;
    if k < i {
        assert(!p(s[k]));
    }
}

} // verus!
