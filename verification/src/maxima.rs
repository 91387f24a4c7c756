//! Running maxima: the largest value seen so far in each dimension, against
//! which a raw value becomes a ratio.

use vstd::prelude::*;
use crate::math::{ratio_parts, Ratio};
use crate::power::PowerSize;

verus! {

/// The larger of two powers.
pub open spec fn larger(a: PowerSize, b: PowerSize) -> PowerSize {
    if a > b {
        a
    } else {
        b
    }
}

/// The maximum after the values of `values` were seen in turn, starting
/// from `start`.
pub open spec fn running_max(start: PowerSize, values: Seq<PowerSize>) -> PowerSize
    decreases values.len(),
{
    if values.len() == 0 {
        start
    } else {
        larger(running_max(start, values.drop_last()), values.last())
    }
}

/// Takes `rate` into the maximum `max`. Returns the maximum that now holds
/// and the ratio of `rate` to it: a value that sets a record has ratio one,
/// and the value zero has ratio zero.
pub fn update_max(rate: PowerSize, max: PowerSize) -> (updated: (PowerSize, Ratio))
    ensures
        updated.0 == larger(rate, max),
        updated.0 >= max,
        updated.1@ == ratio_parts(rate as nat, updated.0 as nat),
{
    let new_max: PowerSize = if rate > max {
        rate
    } else {
        max
    };
    (new_max, Ratio::of(rate, new_max))
}

/// The stored maximum never falls: after any further values it is at least
/// what it was, and it is at least every value seen.
pub proof fn lemma_running_max_monotonic(start: PowerSize, values: Seq<PowerSize>, seen: int)
    requires
        0 <= seen <= values.len(),
    ensures
        running_max(start, values.take(seen)) <= running_max(start, values),
        start <= running_max(start, values),
        forall|i: int| 0 <= i < values.len() ==> values[i] <= running_max(start, values),
    decreases values.len(),
{
    if values.len() == 0 {
        assert(values.take(seen) =~= values);
    } else {
        let front = values.drop_last();
        if seen == values.len() {
            assert(values.take(seen) =~= values);
            lemma_running_max_monotonic(start, front, 0);
        } else {
            lemma_running_max_monotonic(start, front, seen);
            assert(front.take(seen) =~= values.take(seen));
        }
        assert forall|i: int| 0 <= i < values.len() implies values[i] <= running_max(
            start,
            values,
        ) by {
            if i < front.len() {
                assert(front[i] == values[i]);
            }
        }
    }
}

/// The largest rates that publish documents of one application declared.
#[derive(Clone, Copy, Debug, Default, PartialEq, Eq, Structural)]
pub struct KPProductPublishRateMax {
    pub para_issue_rate: PowerSize,
    pub self_issue_rate: PowerSize,
}

/// The largest rates that identify documents of one application declared.
#[derive(Clone, Copy, Debug, Default, PartialEq, Eq, Structural)]
pub struct KPProductIdentifyRateMax {
    pub ident_rate: PowerSize,
    pub ident_consistence: PowerSize,
}

/// The largest rates that try documents of one application declared.
#[derive(Clone, Copy, Debug, Default, PartialEq, Eq, Structural)]
pub struct KPProductTryRateMax {
    pub offset_rate: PowerSize,
    pub true_rate: PowerSize,
}

/// The largest counts that choose documents of one application declared.
#[derive(Clone, Copy, Debug, Default, PartialEq, Eq, Structural)]
pub struct KPProductChooseDataMax {
    pub sell_count: PowerSize,
    pub try_count: PowerSize,
}

/// The largest counts that model-create documents of one application
/// declared.
#[derive(Clone, Copy, Debug, Default, PartialEq, Eq, Structural)]
pub struct KPModelCreateDataMax {
    pub producer_count: PowerSize,
    pub product_count: PowerSize,
}

/// The largest comment figures of one document, or of one account, within
/// an application.
#[derive(Clone, Copy, Debug, Default, PartialEq, Eq, Structural)]
pub struct CommentMaxRecord {
    pub max_count: PowerSize,
    pub max_fee: PowerSize,
    pub max_positive: PowerSize,
    /// The largest fee per comment.
    pub max_unit_fee: PowerSize,
}

impl View for CommentMaxRecord {
    type V = CommentMaxRecord;

    open spec fn view(&self) -> CommentMaxRecord {
        *self
    }
}

impl CommentMaxRecord {
    /// The record after the four figures were taken in.
    pub open spec fn raised(
        self,
        count: PowerSize,
        fees: PowerSize,
        positive: PowerSize,
        unit_fee: PowerSize,
    ) -> CommentMaxRecord {
        CommentMaxRecord {
            max_count: larger(count, self.max_count),
            max_fee: larger(fees, self.max_fee),
            max_positive: larger(positive, self.max_positive),
            max_unit_fee: larger(unit_fee, self.max_unit_fee),
        }
    }

    /// No figure of `self` is below that of `earlier`.
    pub open spec fn at_least(self, earlier: CommentMaxRecord) -> bool {
        &&& self.max_count >= earlier.max_count
        &&& self.max_fee >= earlier.max_fee
        &&& self.max_positive >= earlier.max_positive
        &&& self.max_unit_fee >= earlier.max_unit_fee
    }

    /// The four ratios of the figures to this record: count, fee, fee per
    /// comment, positive count.
    pub open spec fn rates(
        self,
        count: PowerSize,
        fee: PowerSize,
        positive: PowerSize,
        unit_fee: PowerSize,
    ) -> (nat, nat, nat, nat) {
        (
            ratio_parts(count as nat, self.max_count as nat),
            ratio_parts(fee as nat, self.max_fee as nat),
            ratio_parts(unit_fee as nat, self.max_unit_fee as nat),
            ratio_parts(positive as nat, self.max_positive as nat),
        )
    }
}

/// Takes four comment figures into `max`. Returns whether any maximum rose.
pub fn update_comment_max(
    max: &mut CommentMaxRecord,
    count: PowerSize,
    fees: PowerSize,
    positive: PowerSize,
    unit_fee: PowerSize,
) -> (is_updated: bool)
    ensures
        *final(max) == old(max).raised(count, fees, positive, unit_fee),
        final(max).at_least(*old(max)),
        is_updated == (*final(max) != *old(max)),
{
    let mut is_updated = false;
    if count > max.max_count {
        max.max_count = count;
        is_updated = true;
    }
    if fees > max.max_fee {
        max.max_fee = fees;
        is_updated = true;
    }
    if positive > max.max_positive {
        max.max_positive = positive;
        is_updated = true;
    }
    if unit_fee > max.max_unit_fee {
        max.max_unit_fee = unit_fee;
        is_updated = true;
    }
    is_updated
}

/// The ratios of four comment figures to the maxima of `max`, each capped
/// at one, and zero where the maximum is zero.
pub fn compute_comment_action_rate(
    max: &CommentMaxRecord,
    count: PowerSize,
    fee: PowerSize,
    positive: PowerSize,
    unit_fee: PowerSize,
) -> (rates: (Ratio, Ratio, Ratio, Ratio))
    ensures
        (rates.0@, rates.1@, rates.2@, rates.3@) == max.rates(count, fee, positive, unit_fee),
{
    let count_rate = Ratio::of(count, max.max_count);
    let cost_rate = Ratio::of(fee, max.max_fee);
    let unit_cost_rate = Ratio::of(unit_fee, max.max_unit_fee);
    let positive_rate = Ratio::of(positive, max.max_positive);
    (count_rate, cost_rate, unit_cost_rate, positive_rate)
}

} // verus!
