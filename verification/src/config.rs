//! The weights and limits that an engine is made with, and the power
//! formulas that depend on them.

use vstd::prelude::*;
use crate::math::{
    attend_power_of, compute_attend_power_with, compute_content_power, content_power_of, Ratio,
    RATIO_SCALE,
};
use crate::power::PowerSize;
use crate::types::CommentTrend;

verus! {

/// Every weight is a percentage.
#[derive(Clone, Copy, Debug)]
pub struct Config {
    /// The five top weights: one for each dimension of power.
    pub top_weight_product_publish: u8,
    pub top_weight_document_identify: u8,
    pub top_weight_document_try: u8,
    pub top_weight_account_attend: u8,
    pub top_weight_account_stake: u8,
    /// How a document's power divides into its three parts.
    pub document_power_weight_attend: u8,
    pub document_power_weight_content: u8,
    pub document_power_weight_judge: u8,
    /// How attend power divides among the four comment figures.
    pub comment_power_weight_count: u8,
    pub comment_power_weight_cost: u8,
    pub comment_power_weight_per_cost: u8,
    pub comment_power_weight_positive: u8,
    pub comment_power_weight: u8,
    /// How content power divides between the two rates of each kind.
    pub document_publish_weight_params_rate: u8,
    pub document_publish_weight_params_self_rate: u8,
    pub document_identify_weight_params_rate: u8,
    pub document_identify_weight_check_rate: u8,
    pub document_try_weight_bias_rate: u8,
    pub document_try_weight_true_rate: u8,
    pub document_choose_weight_sell_count: u8,
    pub document_choose_weight_try_count: u8,
    pub document_model_weight_producer_count: u8,
    pub document_model_weight_product_count: u8,
    /// The weights of choose and model-create documents.
    pub document_cm_power_weight_attend: u8,
    pub document_cm_power_weight_content: u8,
    pub document_cm_power_weight_judge: u8,
    pub comment_cm_power_weight_count: u8,
    pub comment_cm_power_weight_cost: u8,
    pub comment_cm_power_weight_per_cost: u8,
    pub comment_cm_power_weight_positive: u8,
    pub cm_power_account_attend: u8,
    /// The number of places on a leader board.
    pub app_leader_board_max_pos: u32,
    /// The length of a model income cycle and of its two busy stages, in
    /// blocks.
    pub model_income_cycle_period: u64,
    pub model_income_collecting_period: u64,
    pub model_income_rewarding_period: u64,
}

/// The top weight of a document that has none of its own.
pub const FULL_WEIGHT: u8 = 100;

/// The judgement that two trend flags add up to, in parts of `RATIO_SCALE`:
/// a fixed table over the pairs of flags, the same whichever of the
/// two holds which flag.
pub open spec fn trend_power(expert: CommentTrend, platform: CommentTrend) -> nat {
    match (expert, platform) {
        (CommentTrend::Empty, CommentTrend::Empty) => 1_000_000_000,
        (CommentTrend::Negative, CommentTrend::Negative) => 0,
        (CommentTrend::Positive, CommentTrend::Positive) => 375_000_000,
        (CommentTrend::Positive, CommentTrend::Negative) => 250_000_000,
        (CommentTrend::Negative, CommentTrend::Positive) => 250_000_000,
        (CommentTrend::Empty, CommentTrend::Negative) => 500_000_000,
        (CommentTrend::Negative, CommentTrend::Empty) => 500_000_000,
        (CommentTrend::Empty, CommentTrend::Positive) => 750_000_000,
        (CommentTrend::Positive, CommentTrend::Empty) => 750_000_000,
    }
}

/// Looks `trend_power` up.
pub fn compute_trend_power(expert: CommentTrend, platform: CommentTrend) -> (power: Ratio)
    ensures
        power@ == trend_power(expert, platform),
{
    let parts: u64 = match (expert, platform) {
        (CommentTrend::Empty, CommentTrend::Empty) => 1_000_000_000,
        (CommentTrend::Negative, CommentTrend::Negative) => 0,
        (CommentTrend::Positive, CommentTrend::Positive) => 375_000_000,
        (CommentTrend::Positive, CommentTrend::Negative) => 250_000_000,
        (CommentTrend::Negative, CommentTrend::Positive) => 250_000_000,
        (CommentTrend::Empty, CommentTrend::Negative) => 500_000_000,
        (CommentTrend::Negative, CommentTrend::Empty) => 500_000_000,
        (CommentTrend::Empty, CommentTrend::Positive) => 750_000_000,
        (CommentTrend::Positive, CommentTrend::Empty) => 750_000_000,
    };
    assert(RATIO_SCALE == 1_000_000_000);
    Ratio::from_parts(parts)
}

impl Config {
    /// The four weights of the comment figures: count, fee, fee per
    /// comment, positive count.
    pub open spec fn comment_weights(&self) -> (u8, u8, u8, u8) {
        (
            self.comment_power_weight_count,
            self.comment_power_weight_cost,
            self.comment_power_weight_per_cost,
            self.comment_power_weight_positive,
        )
    }

    /// The content power of a publish document whose two rates stand in
    /// the given ratios to the largest rates seen.
    pub fn compute_publish_product_content_power(
        &self,
        para_issue_rate: Ratio,
        self_issue_rate: Ratio,
    ) -> (power: PowerSize)
        ensures
            power == content_power_of(
                para_issue_rate@,
                self.document_publish_weight_params_rate,
                self_issue_rate@,
                self.document_publish_weight_params_self_rate,
                self.document_power_weight_content,
                self.top_weight_product_publish,
            ),
    {
        compute_content_power(
            para_issue_rate,
            self.document_publish_weight_params_rate,
            self_issue_rate,
            self.document_publish_weight_params_self_rate,
            self.document_power_weight_content,
            self.top_weight_product_publish,
        )
    }

    /// The content power of an identify document.
    pub fn compute_identify_content_power(
        &self,
        ident_rate: Ratio,
        ident_consistence: Ratio,
    ) -> (power:
        PowerSize)
        ensures
            power == content_power_of(
                ident_rate@,
                self.document_identify_weight_params_rate,
                ident_consistence@,
                self.document_identify_weight_check_rate,
                self.document_power_weight_content,
                self.top_weight_document_identify,
            ),
    {
        compute_content_power(
            ident_rate,
            self.document_identify_weight_params_rate,
            ident_consistence,
            self.document_identify_weight_check_rate,
            self.document_power_weight_content,
            self.top_weight_document_identify,
        )
    }

    /// The content power of a try document.
    pub fn compute_try_content_power(&self, offset_rate: Ratio, true_rate: Ratio) -> (power:
        PowerSize)
        ensures
            power == content_power_of(
                offset_rate@,
                self.document_try_weight_bias_rate,
                true_rate@,
                self.document_try_weight_true_rate,
                self.document_power_weight_content,
                self.top_weight_document_try,
            ),
    {
        compute_content_power(
            offset_rate,
            self.document_try_weight_bias_rate,
            true_rate,
            self.document_try_weight_true_rate,
            self.document_power_weight_content,
            self.top_weight_document_try,
        )
    }

    /// The content power of a choose document, which has no top weight.
    pub fn compute_choose_content_power(
        &self,
        sell_count_rate: Ratio,
        try_count_rate: Ratio,
    ) -> (power:
        PowerSize)
        ensures
            power == content_power_of(
                sell_count_rate@,
                self.document_choose_weight_sell_count,
                try_count_rate@,
                self.document_choose_weight_try_count,
                self.document_cm_power_weight_content,
                FULL_WEIGHT,
            ),
    {
        compute_content_power(
            sell_count_rate,
            self.document_choose_weight_sell_count,
            try_count_rate,
            self.document_choose_weight_try_count,
            self.document_cm_power_weight_content,
            FULL_WEIGHT,
        )
    }

    /// The content power of a model-create document, which has no top
    /// weight.
    pub fn compute_model_content_power(
        &self,
        producer_count_rate: Ratio,
        product_count_rate: Ratio,
    ) -> (power: PowerSize)
        ensures
            power == content_power_of(
                producer_count_rate@,
                self.document_model_weight_producer_count,
                product_count_rate@,
                self.document_model_weight_product_count,
                self.document_cm_power_weight_content,
                FULL_WEIGHT,
            ),
    {
        compute_content_power(
            producer_count_rate,
            self.document_model_weight_producer_count,
            product_count_rate,
            self.document_model_weight_product_count,
            self.document_cm_power_weight_content,
            FULL_WEIGHT,
        )
    }

    /// The attend power of four comment ratios under two further weights.
    pub fn compute_attend_power(
        &self,
        rates: (Ratio, Ratio, Ratio, Ratio),
        second_weight: u8,
        top_weight: u8,
    ) -> (power: PowerSize)
        ensures
            power == attend_power_of(
                (rates.0@, rates.1@, rates.2@, rates.3@),
                self.comment_weights(),
                second_weight,
                top_weight,
            ),
    {
        compute_attend_power_with(
            rates,
            (
                self.comment_power_weight_count,
                self.comment_power_weight_cost,
                self.comment_power_weight_per_cost,
                self.comment_power_weight_positive,
            ),
            second_weight,
            top_weight,
        )
    }
}

} // verus!
