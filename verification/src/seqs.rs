//! Searching sequences.

use vstd::prelude::*;

verus! {

/// Index of the first element that satisfies `pred`.
pub open spec fn first_index<A>(s: Seq<A>, pred: spec_fn(A) -> bool) -> Option<int>
    decreases s.len(),
{
    if s.len() == 0 {
        None
    } else {
        match first_index(s.drop_last(), pred) {
            Some(k) => Some(k),
            None => if pred(s.last()) {
                Some(s.len() - 1)
            } else {
                None
            },
        }
    }
}

/// A found index lies inside the sequence, satisfies the predicate, and no
/// earlier element does; when none is found, no element does.
pub proof fn lemma_first_index<A>(s: Seq<A>, pred: spec_fn(A) -> bool)
    ensures
        first_index(s, pred) matches Some(k) ==> 0 <= k < s.len() && pred(s[k])
            && forall|j: int| 0 <= j < k ==> !pred(#[trigger] s[j]),
        first_index(s, pred) is None ==> forall|j: int| 0 <= j < s.len() ==> !pred(#[trigger] s[j]),
    decreases s.len(),
{
    if s.len() > 0 {
        let prefix = s.drop_last();
        lemma_first_index(prefix, pred);
        assert forall|j: int| 0 <= j < s.len() - 1 implies #[trigger] prefix[j] == s[j] by {}
        match first_index(prefix, pred) {
            Some(k) => {
                assert(prefix[k] == s[k]);
                assert forall|j: int| 0 <= j < k implies !pred(#[trigger] s[j]) by {
                    assert(prefix[j] == s[j]);
                }
            },
            None => {
                assert forall|j: int| 0 <= j < s.len() - 1 implies !pred(#[trigger] s[j]) by {
                    assert(prefix[j] == s[j]);
                }
            },
        }
    }
}

/// The first index in a prefix is the first index in the whole sequence.
pub proof fn lemma_first_index_prefix<A>(s: Seq<A>, pred: spec_fn(A) -> bool, n: int)
    requires
        0 <= n <= s.len(),
        first_index(s.take(n), pred) is Some,
    ensures
        first_index(s, pred) == first_index(s.take(n), pred),
    decreases s.len() - n,
{
    if n < s.len() {
        assert(s.take(n + 1).drop_last() =~= s.take(n));
        lemma_first_index_prefix(s, pred, n + 1);
    } else {
        assert(s.take(n) =~= s);
    }
}

/// One more step of a search that has found nothing yet.
pub proof fn lemma_first_index_step<A>(s: Seq<A>, pred: spec_fn(A) -> bool, n: int)
    requires
        0 <= n < s.len(),
        first_index(s.take(n), pred) is None,
    ensures
        pred(s[n]) ==> first_index(s, pred) == Some(n),
        !pred(s[n]) ==> first_index(s.take(n + 1), pred) is None,
{
    assert(s.take(n + 1).drop_last() =~= s.take(n));
    if pred(s[n]) {
        lemma_first_index_prefix(s, pred, n + 1);
    }
}

/// Whether two sequences share no element.
pub open spec fn disjoint<A>(a: Seq<A>, b: Seq<A>) -> bool {
    forall|i: int, j: int| 0 <= i < a.len() && 0 <= j < b.len() ==> a[i] != b[j]
}

/// Two sequences without duplicates that share no element concatenate to a
/// sequence without duplicates.
pub proof fn lemma_concat_no_duplicates<A>(a: Seq<A>, b: Seq<A>)
    requires
        a.no_duplicates(),
        b.no_duplicates(),
        disjoint(a, b),
    ensures
        (a + b).no_duplicates(),
{
    let c = a + b;
    assert forall|i: int, j: int| 0 <= i < c.len() && 0 <= j < c.len() && i != j implies c[i] != c[j] by {
        if i < a.len() && j >= a.len() {
            assert(c[j] == b[j - a.len()]);
        } else if j < a.len() && i >= a.len() {
            assert(c[i] == b[i - a.len()]);
        } else if i >= a.len() && j >= a.len() {
            assert(c[i] == b[i - a.len()] && c[j] == b[j - a.len()]);
        }
    }
}

} // verus!
