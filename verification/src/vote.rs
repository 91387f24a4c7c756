//! What an account's power is worth in a vote.

use vstd::prelude::*;
use crate::math::FLOAT_COMPUTE_PRECISION;
use crate::power::{clamp_power, PowerSize};
use crate::state::Module;

verus! {

/// Whether `root` is the whole part of the square root of `n`.
pub open spec fn is_square_root(n: nat, root: nat) -> bool {
    root * root <= n < (root + 1) * (root + 1)
}

/// The whole part of the square root of `n`.
pub open spec fn sqrt_floor(n: nat) -> nat {
    choose|root: nat| is_square_root(n, root)
}

/// A number has one whole square root.
pub proof fn lemma_square_root_unique(n: nat, a: nat, b: nat)
    requires
        is_square_root(n, a),
        is_square_root(n, b),
    ensures
        a == b,
{
    if a < b {
        assert((a + 1) * (a + 1) <= b * b) by (nonlinear_arith)
            requires
                a + 1 <= b,
        ;
    } else if b < a {
        assert((b + 1) * (b + 1) <= a * a) by (nonlinear_arith)
            requires
                b + 1 <= a,
        ;
    }
}

/// The whole part of the square root of `n`.
pub fn integer_sqrt(n: u64) -> (root: u64)
    ensures
        is_square_root(n as nat, root as nat),
        root == sqrt_floor(n as nat),
        root <= 0xffff_ffff,
{
    let mut lo: u64 = 0;
    let mut hi: u64 = 0x1_0000_0000;
    assert(0x1_0000_0000u64 * 0x1_0000_0000u64 > n) by (nonlinear_arith)
        requires
            n <= 0xffff_ffff_ffff_ffff,
    ;
    while hi - lo > 1
        invariant
            lo < hi <= 0x1_0000_0000,
            lo * lo <= n,
            hi * hi > n,
        decreases hi - lo,
    {
        let mid: u64 = lo + (hi - lo) / 2;
        assert(mid * mid <= 0xffff_ffff * 0xffff_ffff) by (nonlinear_arith)
            requires
                mid <= 0xffff_ffff,
        ;
        if mid * mid <= n {
            lo = mid;
        } else {
            hi = mid;
        }
    }
    assert(hi == lo + 1);
    proof {
        assert(is_square_root(n as nat, lo as nat));
        lemma_square_root_unique(n as nat, lo as nat, sqrt_floor(n as nat));
    }
    lo
}

/// The factor that a power gives to a stake, in hundredths of a percent: a
/// tenth for no power, the power itself up to `FLOAT_COMPUTE_PRECISION`,
/// and beyond that a hundred times the whole part of the power's square
/// root.
pub open spec fn power_ratio_of(power: PowerSize) -> nat {
    if power == 0 {
        1000
    } else if power <= FLOAT_COMPUTE_PRECISION {
        power as nat
    } else {
        sqrt_floor(power as nat) * 100
    }
}

/// Computes the factor of `power`.
pub fn power_ratio(power: PowerSize) -> (ratio: u64)
    ensures
        ratio == power_ratio_of(power),
        ratio <= 429_496_729_500,
{
    if power == 0 {
        1000
    } else if power <= FLOAT_COMPUTE_PRECISION {
        power
    } else {
        integer_sqrt(power) * 100
    }
}

/// The stake `stake` under the factor `ratio`: `stake * ratio / 10000`,
/// truncated, stopping at the largest value.
pub open spec fn stake_under(stake: u64, ratio: nat) -> u64 {
    clamp_power((stake as nat * ratio) / (FLOAT_COMPUTE_PRECISION as nat))
}

/// Applies a factor to a stake.
pub fn apply_power_ratio(stake: u64, ratio: u64) -> (vote: u64)
    ensures
        vote == stake_under(stake, ratio as nat),
{
    assert(stake * ratio <= 0xffff_ffff_ffff_ffff * 0xffff_ffff_ffff_ffff) by (nonlinear_arith)
        requires
            stake <= 0xffff_ffff_ffff_ffff,
            ratio <= 0xffff_ffff_ffff_ffff,
    ;
    let adjusted: u128 = (stake as u128) * (ratio as u128) / (FLOAT_COMPUTE_PRECISION as u128);
    if adjusted > u64::MAX as u128 {
        u64::MAX
    } else {
        adjusted as u64
    }
}

/// Something that says what an account's stake counts in a vote.
pub trait PowerVote {
    /// Whether the question may be asked.
    spec fn vote_ready(&self) -> bool;

    /// The power that the factor of `account` follows from.
    spec fn vote_power(&self, account: Seq<u8>) -> PowerSize;

    /// The factor of an account, in hundredths of a percent.
    fn account_power_ratio(&self, account: &Vec<u8>) -> (ratio: u64)
        requires
            self.vote_ready(),
        ensures
            ratio == power_ratio_of(self.vote_power(account@)),
    ;
}

impl PowerVote for Module {
    open(crate) spec fn vote_ready(&self) -> bool {
        self.wf()
    }

    open(crate) spec fn vote_power(&self, account: Seq<u8>) -> PowerSize {
        self@.account(account).power
    }

    fn account_power_ratio(&self, account: &Vec<u8>) -> (ratio: u64) {
        self.kp_account_power_ratio(account)
    }
}

impl Module {
    /// The factor that the miner power of `account` gives to its stake, in
    /// hundredths of a percent.
    pub fn kp_account_power_ratio(&self, account: &Vec<u8>) -> (ratio: u64)
        requires
            self.wf(),
        ensures
            ratio == power_ratio_of(self@.account(account@).power),
    {
        power_ratio(self.stored_account(account).power)
    }

    /// What the stake `stake` of `account` counts in a vote.
    pub fn kp_staking_to_vote(&self, account: &Vec<u8>, stake: u64) -> (vote: u64)
        requires
            self.wf(),
        ensures
            vote == stake_under(stake, power_ratio_of(self@.account(account@).power)),
    {
        let ratio: u64 = self.kp_account_power_ratio(account);
        apply_power_ratio(stake, ratio)
    }
}

} // verus!
