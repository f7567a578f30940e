//! First-match search over sequences.

use vstd::prelude::*;

verus! {

/// Index of the first element satisfying `p`.
pub open spec fn first_match<T>(s: Seq<T>, p: spec_fn(T) -> bool) -> Option<int>
    decreases s.len(),
{
    if s.len() == 0 {
        None
    } else if p(s[0]) {
        Some(0)
    } else {
        match first_match(s.drop_first(), p) {
            Some(i) => Some(i + 1),
            None => None,
        }
    }
}

/// `first_match` finds the least index satisfying the predicate, or none when no element does.
pub proof fn lemma_first_match<T>(s: Seq<T>, p: spec_fn(T) -> bool)
    ensures
        match first_match(s, p) {
            Some(i) => 0 <= i < s.len() && p(s[i]) && forall|j: int| 0 <= j < i ==> !p(#[trigger] s[j]),
            None => forall|j: int| 0 <= j < s.len() ==> !p(#[trigger] s[j]),
        },
    decreases s.len(),
{
    if s.len() > 0 {
        lemma_first_match(s.drop_first(), p);
        if !p(s[0]) {
            match first_match(s.drop_first(), p) {
                Some(i) => {
                    assert forall|j: int| 0 <= j < i + 1 implies !p(#[trigger] s[j]) by {
                        if j > 0 {
                            assert(s[j] == s.drop_first()[j - 1]);
                        }
                    }
                },
                None => {
                    assert forall|j: int| 0 <= j < s.len() implies !p(#[trigger] s[j]) by {
                        if j > 0 {
                            assert(s[j] == s.drop_first()[j - 1]);
                        }
                    }
                },
            }
        }
    }
}

/// Characterization used by loops: if `i` satisfies `p` and nothing before it does, it is the first match.
pub proof fn lemma_first_match_at<T>(s: Seq<T>, p: spec_fn(T) -> bool, i: int)
    requires
        0 <= i < s.len(),
        p(s[i]),
        forall|j: int| 0 <= j < i ==> !p(#[trigger] s[j]),
    ensures
        first_match(s, p) == Some(i),
{
    lemma_first_match(s, p);
    match first_match(s, p) {
        Some(k) => {
            if k < i {
                assert(!p(s[k]));
            }
            if k > i {
                assert(!p(s[i]));
            }
        },
        None => {
            assert(!p(s[i]));
        },
    }
}

/// If no element satisfies `p`, there is no first match.
pub proof fn lemma_first_match_none<T>(s: Seq<T>, p: spec_fn(T) -> bool)
    requires
        forall|j: int| 0 <= j < s.len() ==> !p(#[trigger] s[j]),
    ensures
        first_match(s, p) is None,
{
    lemma_first_match(s, p);
    if let Some(k) = first_match(s, p) {
        assert(!p(s[k]));
    }
}

} // verus!
