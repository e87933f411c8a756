//! Sums of the values of a finite map, and how they change under updates.

use vstd::prelude::*;

verus! {

/// The sum of all values of `m` (0 for a map whose domain is infinite).
pub open spec fn value_sum<K>(m: Map<K, i128>) -> int
    decreases m.dom().len(),
{
    if !m.dom().finite() || m.dom().is_empty() {
        0
    } else {
        let k = m.dom().choose();
        m[k] + value_sum(m.remove(k))
    }
}

/// The value stored under `k`, 0 when there is none.
pub open spec fn value_or_zero<K>(m: Map<K, i128>, k: K) -> int {
    if m.contains_key(k) {
        m[k] as int
    } else {
        0
    }
}

/// Every value of `m` is at least zero.
pub open spec fn all_nonneg<K>(m: Map<K, i128>) -> bool {
    forall|k: K| #[trigger] m.contains_key(k) ==> m[k] >= 0
}

/// Taking one entry out of the sum, whichever entry it is.
pub proof fn lemma_sum_remove<K>(m: Map<K, i128>, k: K)
    requires
        m.dom().finite(),
        m.contains_key(k),
    ensures
        value_sum(m) == m[k] + value_sum(m.remove(k)),
    decreases m.dom().len(),
{
    let c = m.dom().choose();
    if c != k {
        lemma_sum_remove(m.remove(c), k);
        lemma_sum_remove(m.remove(k), c);
        assert(m.remove(c).remove(k) =~= m.remove(k).remove(c));
    }
}

/// Writing `v` under `k` replaces the old value (or 0) by `v` in the sum.
pub proof fn lemma_sum_insert<K>(m: Map<K, i128>, k: K, v: i128)
    requires
        m.dom().finite(),
    ensures
        value_sum(m.insert(k, v)) == value_sum(m) - value_or_zero(m, k) + v,
{
    let m2 = m.insert(k, v);
    lemma_sum_remove(m2, k);
    assert(m2.remove(k) =~= m.remove(k));
    if m.contains_key(k) {
        lemma_sum_remove(m, k);
    } else {
        assert(m.remove(k) =~= m);
    }
}

/// A sum of values that are all at least zero is at least zero.
pub proof fn lemma_sum_nonneg<K>(m: Map<K, i128>)
    requires
        m.dom().finite(),
        all_nonneg(m),
    ensures
        value_sum(m) >= 0,
    decreases m.dom().len(),
{
    if !m.dom().is_empty() {
        let k = m.dom().choose();
        lemma_sum_nonneg(m.remove(k));
    }
}

/// With values at least zero, each value is at most the sum.
pub proof fn lemma_value_le_sum<K>(m: Map<K, i128>, k: K)
    requires
        m.dom().finite(),
        all_nonneg(m),
    ensures
        value_or_zero(m, k) <= value_sum(m),
{
    lemma_sum_nonneg(m);
    if m.contains_key(k) {
        lemma_sum_remove(m, k);
        lemma_sum_nonneg(m.remove(k));
    }
}

/// The empty map sums to zero.
pub proof fn lemma_sum_empty<K>()
    ensures
        value_sum(Map::<K, i128>::empty()) == 0,
{
    assert(Map::<K, i128>::empty().dom() =~= Set::empty());
}

} // verus!
