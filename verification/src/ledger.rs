//! The sum of the powers of a finite family of commodities.

use vstd::prelude::*;
use crate::power::{CommodityPowerSet, PowerSize, PowerSum};

verus! {

/// The powers of the commodities of `m`, added up.
pub open spec fn power_sum<K>(m: Map<K, CommodityPowerSet>) -> nat
    decreases m.dom().len(),
    when m.dom().finite()
    via power_sum_decreases::<K>
{
    if m.dom().len() == 0 {
        0
    } else {
        let k = m.dom().choose();
        m[k].total_of() as nat + power_sum(m.remove(k))
    }
}

#[via_fn]
proof fn power_sum_decreases<K>(m: Map<K, CommodityPowerSet>) {
    if m.dom().len() != 0 {
        let k = m.dom().choose();
        assert(m.dom().contains(k)) by {
            if m.dom() =~= Set::<K>::empty() {
                assert(m.dom().len() == 0);
            }
        }
        assert(m.remove(k).dom() =~= m.dom().remove(k));
    }
}

/// The commodities of `m` that are not on the black list `slashed`.
pub open spec fn live<K>(m: Map<K, CommodityPowerSet>, slashed: Set<K>) -> Map<
    K,
    CommodityPowerSet,
> {
    m.remove_keys(slashed)
}

/// The sum does not depend on which commodity is counted first.
pub proof fn lemma_sum_remove<K>(m: Map<K, CommodityPowerSet>, k: K)
    requires
        m.dom().finite(),
        m.dom().contains(k),
    ensures
        power_sum(m) == m[k].total_of() as nat + power_sum(m.remove(k)),
    decreases m.dom().len(),
{
    assert(m.dom().len() != 0) by {
        if m.dom().len() == 0 {
            assert(m.dom() =~= Set::<K>::empty());
        }
    }
    let c = m.dom().choose();
    assert(m.dom().contains(c));
    if c != k {
        let mc = m.remove(c);
        let mk = m.remove(k);
        assert(mc.dom() =~= m.dom().remove(c));
        assert(mk.dom() =~= m.dom().remove(k));
        lemma_sum_remove(mc, k);
        lemma_sum_remove(mk, c);
        assert(mc.remove(k) =~= mk.remove(c));
    }
}

/// Storing one commodity changes the sum by the difference of its powers.
pub proof fn lemma_sum_insert<K>(m: Map<K, CommodityPowerSet>, k: K, v: CommodityPowerSet)
    requires
        m.dom().finite(),
    ensures
        m.insert(k, v).dom().finite(),
        m.dom().contains(k) ==> power_sum(m.insert(k, v)) + m[k].total_of() == power_sum(m)
            + v.total_of(),
        !m.dom().contains(k) ==> power_sum(m.insert(k, v)) == power_sum(m) + v.total_of(),
        m.dom().contains(k) ==> power_sum(m) >= m[k].total_of(),
{
    let after = m.insert(k, v);
    lemma_sum_remove(after, k);
    assert(after.remove(k) =~= m.remove(k));
    if m.dom().contains(k) {
        lemma_sum_remove(m, k);
    } else {
        assert(m.remove(k) =~= m);
    }
}

/// Taking one commodity out lowers the sum by its power.
pub proof fn lemma_sum_without<K>(m: Map<K, CommodityPowerSet>, k: K)
    requires
        m.dom().finite(),
    ensures
        m.remove(k).dom().finite(),
        m.dom().contains(k) ==> power_sum(m.remove(k)) + m[k].total_of() == power_sum(m),
        !m.dom().contains(k) ==> power_sum(m.remove(k)) == power_sum(m),
{
    if m.dom().contains(k) {
        lemma_sum_remove(m, k);
    } else {
        assert(m.remove(k) =~= m);
    }
}

/// No sum exceeds the largest power times the number of commodities.
pub proof fn lemma_sum_bound<K>(m: Map<K, CommodityPowerSet>)
    requires
        m.dom().finite(),
    ensures
        power_sum(m) <= m.dom().len() * PowerSize::MAX,
    decreases m.dom().len(),
{
    if m.dom().len() != 0 {
        let k = m.dom().choose();
        assert(m.dom().contains(k)) by {
            if m.dom() =~= Set::<K>::empty() {
                assert(m.dom().len() == 0);
            }
        }
        assert(m.remove(k).dom() =~= m.dom().remove(k));
        lemma_sum_bound(m.remove(k));
        assert((m.dom().len() - 1) * PowerSize::MAX + PowerSize::MAX == m.dom().len()
            * PowerSize::MAX) by (nonlinear_arith);
    }
}

/// The live commodities are finitely many, no more than all commodities.
pub proof fn lemma_live_finite<K>(m: Map<K, CommodityPowerSet>, slashed: Set<K>)
    requires
        m.dom().finite(),
    ensures
        live(m, slashed).dom().finite(),
        live(m, slashed).dom().len() <= m.dom().len(),
{
    assert(live(m, slashed).dom() =~= m.dom().difference(slashed));
    vstd::set_lib::lemma_len_difference(m.dom(), slashed);
}

} // verus!
