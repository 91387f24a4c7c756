//! The stages of a model income cycle.

use vstd::prelude::*;
use vstd::std_specs::convert::FromSpecImpl;
use crate::config::Config;
use crate::power::clamp_power;
use crate::state::Module;

verus! {

/// The stage of a model income cycle.
#[derive(Clone, Copy, Debug, PartialEq, Eq, Structural)]
pub enum ModelIncomeStage {
    NORMAL,
    COLLECTING,
    REWARDING,
}

/// The code of a stage: 0 for normal, 1 for collecting, 2 for rewarding.
pub open spec fn stage_code(stage: ModelIncomeStage) -> u8 {
    match stage {
        ModelIncomeStage::NORMAL => 0,
        ModelIncomeStage::COLLECTING => 1,
        ModelIncomeStage::REWARDING => 2,
    }
}

impl From<ModelIncomeStage> for u8 {
    fn from(orig: ModelIncomeStage) -> (code: u8) {
        match orig {
            ModelIncomeStage::NORMAL => 0,
            ModelIncomeStage::COLLECTING => 1,
            ModelIncomeStage::REWARDING => 2,
        }
    }
}

impl FromSpecImpl<ModelIncomeStage> for u8 {
    open spec fn obeys_from_spec() -> bool {
        true
    }

    open spec fn from_spec(orig: ModelIncomeStage) -> u8 {
        stage_code(orig)
    }
}

/// The stage of the cycle at some block, by its code, and the number of
/// blocks that the stage still lasts.
#[derive(Clone, Copy, Debug, PartialEq, Eq, Structural)]
pub struct ModelIncomeCurrentStage {
    pub stage: u8,
    pub left: u64,
}

impl Config {
    /// The number of the cycle that `block` lies in.
    pub open spec fn cycle_index_of(self, block: u64) -> nat {
        (block / self.model_income_cycle_period) as nat
    }

    /// The stage at `block` and the blocks that are left of it. The first
    /// cycle is all normal. Every later cycle starts with the collecting
    /// stage, goes on with the rewarding stage and is normal for the rest.
    /// The blocks that are left stop at the largest number.
    pub open spec fn stage_of(self, block: u64) -> (ModelIncomeStage, u64) {
        let cycle = self.model_income_cycle_period;
        let collecting = self.model_income_collecting_period;
        let rewarding = self.model_income_rewarding_period;
        let progress = block % cycle;
        if block / cycle == 0 {
            (ModelIncomeStage::NORMAL, (cycle - block) as u64)
        } else if progress < collecting {
            (ModelIncomeStage::COLLECTING, (collecting - progress) as u64)
        } else if progress < collecting + rewarding {
            (ModelIncomeStage::REWARDING, clamp_power((collecting + rewarding - progress) as nat))
        } else {
            (ModelIncomeStage::NORMAL, (cycle - progress) as u64)
        }
    }

    /// The number of the cycle that `block` lies in.
    pub fn model_income_cycle_index(&self, block: u64) -> (index: u64)
        requires
            self.model_income_cycle_period > 0,
        ensures
            index == self.cycle_index_of(block),
    {
        block / self.model_income_cycle_period
    }

    /// The stage at `block` and the blocks that are left of it.
    pub fn model_income_stage(&self, block: u64) -> (stage: (ModelIncomeStage, u64))
        requires
            self.model_income_cycle_period > 0,
        ensures
            stage == self.stage_of(block),
    {
        let cycle_index: u64 = self.model_income_cycle_index(block);
        let cycle_blocks: u64 = self.model_income_cycle_period;
        if cycle_index == 0 {
            assert(block < cycle_blocks) by (nonlinear_arith)
                requires
                    block / cycle_blocks == 0,
                    cycle_blocks > 0,
            ;
            return (ModelIncomeStage::NORMAL, cycle_blocks - block);
        }
        let collecting: u64 = self.model_income_collecting_period;
        let rewarding_blocks: u64 = self.model_income_rewarding_period;
        let progress: u64 = block % cycle_blocks;
        if progress < collecting {
            (ModelIncomeStage::COLLECTING, collecting - progress)
        } else if (progress as u128) < collecting as u128 + rewarding_blocks as u128 {
            let left: u128 = collecting as u128 + rewarding_blocks as u128 - progress as u128;
            if left > u64::MAX as u128 {
                (ModelIncomeStage::REWARDING, u64::MAX)
            } else {
                (ModelIncomeStage::REWARDING, left as u64)
            }
        } else {
            (ModelIncomeStage::NORMAL, cycle_blocks - progress)
        }
    }
}

impl Module {
    /// The stage of the model income cycle at `block`.
    pub fn model_income_current_stage(&self, block: u64) -> (current: ModelIncomeCurrentStage)
        requires
            self.wf(),
            self@.config.model_income_cycle_period > 0,
        ensures
            current.stage == stage_code(self@.config.stage_of(block).0),
            current.left == self@.config.stage_of(block).1,
    {
        let stage = self.config.model_income_stage(block);
        ModelIncomeCurrentStage { stage: u8::from(stage.0), left: stage.1 }
    }
}

} // verus!
