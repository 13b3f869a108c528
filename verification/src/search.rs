//! The first element of a sequence that satisfies a predicate.

use vstd::prelude::*;

verus! {

/// `i` is the least index of `s` whose element satisfies `p`.
pub open spec fn is_first_where<T>(s: Seq<T>, p: spec_fn(T) -> bool, i: int) -> bool {
    &&& 0 <= i < s.len()
    &&& p(s[i])
    &&& forall|j: int| 0 <= j < i ==> !#[trigger] p(s[j])
}

/// The least index of `s` whose element satisfies `p`, if there is one.
pub open spec fn first_where<T>(s: Seq<T>, p: spec_fn(T) -> bool) -> Option<int> {
    if exists|i: int| is_first_where(s, p, i) {
        Some(choose|i: int| is_first_where(s, p, i))
    } else {
        None
    }
}

/// An index that is the least one with a satisfying element is the one that
/// `first_where` names.
pub proof fn lemma_first_where_found<T>(s: Seq<T>, p: spec_fn(T) -> bool, i: int)
    requires
        is_first_where(s, p, i),
    ensures
        first_where(s, p) == Some(i),
{
    let k = choose|k: int| is_first_where(s, p, k);
    assert(k == i) by {
        if k < i {
            assert(!p(s[k]));
        } else if i < k {
            assert(!p(s[i]));
        }
    }
}

/// Where no element satisfies `p`, `first_where` names none.
pub proof fn lemma_first_where_absent<T>(s: Seq<T>, p: spec_fn(T) -> bool)
    requires
        forall|j: int| 0 <= j < s.len() ==> !#[trigger] p(s[j]),
    ensures
        first_where(s, p) is None,
{
}

/// Below any index with a satisfying element there is a least one.
proof fn lemma_least_exists<T>(s: Seq<T>, p: spec_fn(T) -> bool, k: int)
    requires
        0 <= k < s.len(),
        p(s[k]),
    ensures
        exists|i: int| i <= k && #[trigger] is_first_where(s, p, i),
    decreases k,
{
    if forall|j: int| 0 <= j < k ==> !#[trigger] p(s[j]) {
        assert(is_first_where(s, p, k));
    } else {
        let j = choose|j: int| 0 <= j < k && #[trigger] p(s[j]);
        lemma_least_exists(s, p, j);
    }
}

/// `first_where` names the least index with a satisfying element, and names
/// none only where no element satisfies `p`.
pub proof fn lemma_first_where<T>(s: Seq<T>, p: spec_fn(T) -> bool)
    ensures
        first_where(s, p) matches Some(i) ==> is_first_where(s, p, i),
        first_where(s, p) is None ==> forall|j: int| 0 <= j < s.len() ==> !#[trigger] p(s[j]),
{
    if first_where(s, p) is None {
        assert forall|j: int| 0 <= j < s.len() implies !#[trigger] p(s[j]) by {
            if p(s[j]) {
                lemma_least_exists(s, p, j);
            }
        }
    }
}

} // verus!
