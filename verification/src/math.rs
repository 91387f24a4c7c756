//! Fixed-point power math.
//!
//! A ratio in `[0, 1]` is held as a whole number of billionths, and every
//! power formula is one exact integer quotient, truncated toward zero once.

use vstd::prelude::*;

verus! {

/// Power units that the ratio `1` yields before any percentage weight.
pub const FLOAT_COMPUTE_PRECISION: u64 = 10000;

/// A percentage weight `w` stands for `w / RATIO_DIV`.
pub const RATIO_DIV: u64 = 100;

/// Parts that make up the ratio `1`.
pub const RATIO_SCALE: u64 = 1_000_000_000;

/// The smaller of two natural numbers.
pub open spec fn min_nat(a: nat, b: nat) -> nat {
    if a <= b {
        a
    } else {
        b
    }
}

/// `value / max` in parts of `RATIO_SCALE`, truncated, capped at one; zero
/// when `max` is zero.
pub open spec fn ratio_parts(value: nat, max: nat) -> nat {
    if max == 0 {
        0
    } else {
        (min_nat(value, max) * RATIO_SCALE as nat) / max
    }
}

/// A ratio between zero and one, in billionths.
#[derive(Clone, Copy, Debug)]
pub struct Ratio {
    parts: u64,
}

impl View for Ratio {
    type V = nat;

    /// The ratio in parts of `RATIO_SCALE`, never more than `RATIO_SCALE`.
    closed spec fn view(&self) -> nat {
        min_nat(self.parts as nat, RATIO_SCALE as nat)
    }
}

impl Ratio {
    /// Every ratio is at most one.
    pub proof fn lemma_at_most_one(self)
        ensures
            self@ <= RATIO_SCALE,
    {
    }

    /// The ratio `0`.
    pub fn zero() -> (r: Ratio)
        ensures
            r@ == 0,
    {
        Ratio { parts: 0 }
    }

    /// The ratio `1`.
    pub fn one() -> (r: Ratio)
        ensures
            r@ == RATIO_SCALE,
    {
        Ratio { parts: RATIO_SCALE }
    }

    /// The ratio of `parts` billionths, capped at one.
    pub fn from_parts(parts: u64) -> (r: Ratio)
        ensures
            r@ == min_nat(parts as nat, RATIO_SCALE as nat),
    {
        Ratio { parts }
    }

    /// The ratio in billionths.
    pub fn parts(&self) -> (p: u64)
        ensures
            p == self@,
            p <= RATIO_SCALE,
    {
        if self.parts <= RATIO_SCALE {
            self.parts
        } else {
            RATIO_SCALE
        }
    }

    /// `value / max`, capped at one; the ratio `0` when `max` is zero.
    pub fn of(value: u64, max: u64) -> (r: Ratio)
        ensures
            r@ == ratio_parts(value as nat, max as nat),
    {
        if max == 0 {
            return Ratio { parts: 0 };
        }
        let top: u64 = if value <= max {
            value
        } else {
            max
        };
        assert(top as nat == min_nat(value as nat, max as nat));
        assert(top * RATIO_SCALE <= max * RATIO_SCALE) by (nonlinear_arith)
            requires
                top <= max,
        ;
        assert(max * RATIO_SCALE <= 0xffff_ffff_ffff_ffff * 1_000_000_000) by (nonlinear_arith)
            requires
                max <= 0xffff_ffff_ffff_ffff,
                RATIO_SCALE == 1_000_000_000,
        ;
        let scaled: u128 = (top as u128) * (RATIO_SCALE as u128);
        let quotient: u128 = scaled / (max as u128);
        assert(quotient <= RATIO_SCALE) by (nonlinear_arith)
            requires
                quotient == scaled / (max as u128),
                scaled <= max * RATIO_SCALE,
                max > 0,
        ;
        Ratio { parts: quotient as u64 }
    }
}

/// The power of a document's content:
/// `(ratio_a * weight_a% + ratio_b * weight_b%) * content_weight% * top_weight%`
/// of `FLOAT_COMPUTE_PRECISION`, with the ratios in parts of `RATIO_SCALE`.
pub open spec fn content_power_of(
    ratio_a: nat,
    weight_a: u8,
    ratio_b: nat,
    weight_b: u8,
    content_weight: u8,
    top_weight: u8,
) -> nat {
    ((ratio_a * weight_a as nat + ratio_b * weight_b as nat) * content_weight as nat
        * top_weight as nat * FLOAT_COMPUTE_PRECISION as nat) / (RATIO_SCALE as nat * 1_000_000)
}

/// The power of taking part in comments:
/// `(sum of ratio_i * weight_i%) * second_weight% * top_weight%` of
/// `FLOAT_COMPUTE_PRECISION`.
pub open spec fn attend_power_of(
    rates: (nat, nat, nat, nat),
    weights: (u8, u8, u8, u8),
    second_weight: u8,
    top_weight: u8,
) -> nat {
    ((rates.0 * weights.0 as nat + rates.1 * weights.1 as nat + rates.2 * weights.2 as nat
        + rates.3 * weights.3 as nat) * second_weight as nat * top_weight as nat
        * FLOAT_COMPUTE_PRECISION as nat) / (RATIO_SCALE as nat * 1_000_000)
}

/// The power of a judgement: `origin * document_weight% * top_weight%` of
/// `FLOAT_COMPUTE_PRECISION`.
pub open spec fn judge_power_of(origin: nat, top_weight: u8, document_weight: u8) -> nat {
    (origin * document_weight as nat * top_weight as nat * FLOAT_COMPUTE_PRECISION as nat) / (
    RATIO_SCALE as nat * 10_000)
}

/// A ratio as power units with no weight applied: `ratio` of
/// `FLOAT_COMPUTE_PRECISION`.
pub open spec fn plain_power_of(ratio: nat) -> nat {
    (ratio * FLOAT_COMPUTE_PRECISION as nat) / (RATIO_SCALE as nat)
}

/// Computes `content_power_of`.
pub fn compute_content_power(
    ratio_a: Ratio,
    weight_a: u8,
    ratio_b: Ratio,
    weight_b: u8,
    content_weight: u8,
    top_weight: u8,
) -> (power: u64)
    ensures
        power == content_power_of(ratio_a@, weight_a, ratio_b@, weight_b, content_weight, top_weight),
        power <= 331_627,
{
    let a: u128 = ratio_a.parts() as u128;
    let b: u128 = ratio_b.parts() as u128;
    let wa: u128 = weight_a as u128;
    let wb: u128 = weight_b as u128;
    let cw: u128 = content_weight as u128;
    let tw: u128 = top_weight as u128;
    assert(a * wa <= 255_000_000_000) by (nonlinear_arith)
        requires
            a <= 1_000_000_000,
            wa <= 255,
    ;
    assert(b * wb <= 255_000_000_000) by (nonlinear_arith)
        requires
            b <= 1_000_000_000,
            wb <= 255,
    ;
    let sum: u128 = a * wa + b * wb;
    let power: u128 = weigh(sum, cw, tw);
    power as u64
}

/// `sum * w1 * w2 * FLOAT_COMPUTE_PRECISION / (RATIO_SCALE * 1_000_000)`.
fn weigh(sum: u128, w1: u128, w2: u128) -> (power: u128)
    requires
        sum <= 1_020_000_000_000,
        w1 <= 255,
        w2 <= 255,
    ensures
        power == (sum * w1 * w2 * FLOAT_COMPUTE_PRECISION as int) / (RATIO_SCALE as int * 1_000_000),
        power * 1_000_000_000_000_000 <= sum * 650_250_000,
{
    assert(sum * w1 <= 260_100_000_000_000) by (nonlinear_arith)
        requires
            sum <= 1_020_000_000_000,
            w1 <= 255,
    ;
    let s1: u128 = sum * w1;
    assert(s1 * w2 <= 66_325_500_000_000_000) by (nonlinear_arith)
        requires
            s1 <= 260_100_000_000_000,
            w2 <= 255,
    ;
    let s2: u128 = s1 * w2;
    let s3: u128 = s2 * (FLOAT_COMPUTE_PRECISION as u128);
    let power: u128 = s3 / 1_000_000_000_000_000;
    assert(RATIO_SCALE as int * 1_000_000 == 1_000_000_000_000_000);
    assert(s3 == sum * w1 * w2 * FLOAT_COMPUTE_PRECISION as int);
    assert(s3 <= sum * 650_250_000) by (nonlinear_arith)
        requires
            s3 == sum * w1 * w2 * 10000,
            w1 <= 255,
            w2 <= 255,
    ;
    power
}

/// Computes `attend_power_of`.
pub fn compute_attend_power_with(
    rates: (Ratio, Ratio, Ratio, Ratio),
    weights: (u8, u8, u8, u8),
    second_weight: u8,
    top_weight: u8,
) -> (power: u64)
    ensures
        power == attend_power_of(
            (rates.0@, rates.1@, rates.2@, rates.3@),
            weights,
            second_weight,
            top_weight,
        ),
        power <= 663_255,
{
    let r0: u128 = rates.0.parts() as u128;
    let r1: u128 = rates.1.parts() as u128;
    let r2: u128 = rates.2.parts() as u128;
    let r3: u128 = rates.3.parts() as u128;
    let w0: u128 = weights.0 as u128;
    let w1: u128 = weights.1 as u128;
    let w2: u128 = weights.2 as u128;
    let w3: u128 = weights.3 as u128;
    assert(r0 * w0 <= 255_000_000_000) by (nonlinear_arith)
        requires
            r0 <= 1_000_000_000,
            w0 <= 255,
    ;
    assert(r1 * w1 <= 255_000_000_000) by (nonlinear_arith)
        requires
            r1 <= 1_000_000_000,
            w1 <= 255,
    ;
    assert(r2 * w2 <= 255_000_000_000) by (nonlinear_arith)
        requires
            r2 <= 1_000_000_000,
            w2 <= 255,
    ;
    assert(r3 * w3 <= 255_000_000_000) by (nonlinear_arith)
        requires
            r3 <= 1_000_000_000,
            w3 <= 255,
    ;
    let sum: u128 = r0 * w0 + r1 * w1 + r2 * w2 + r3 * w3;
    let power: u128 = weigh(sum, second_weight as u128, top_weight as u128);
    power as u64
}

/// Computes `judge_power_of`.
pub fn compute_judge_power(origin_power: Ratio, top_weight: u8, document_weight: u8) -> (power: u64)
    ensures
        power == judge_power_of(origin_power@, top_weight, document_weight),
        power <= 65_025,
{
    let o: u128 = origin_power.parts() as u128;
    let dw: u128 = document_weight as u128;
    let tw: u128 = top_weight as u128;
    assert(o * dw <= 255_000_000_000) by (nonlinear_arith)
        requires
            o <= 1_000_000_000,
            dw <= 255,
    ;
    let s1: u128 = o * dw;
    assert(s1 * tw <= 65_025_000_000_000) by (nonlinear_arith)
        requires
            s1 <= 255_000_000_000,
            tw <= 255,
    ;
    let s2: u128 = s1 * tw;
    let s3: u128 = s2 * (FLOAT_COMPUTE_PRECISION as u128);
    let power: u128 = s3 / 10_000_000_000_000;
    assert(RATIO_SCALE as nat * 10_000 == 10_000_000_000_000);
    assert(s3 == o * dw * tw * FLOAT_COMPUTE_PRECISION as nat);
    power as u64
}

/// Computes `plain_power_of`.
pub fn compute_plain_power(ratio: Ratio) -> (power: u64)
    ensures
        power == plain_power_of(ratio@),
        power <= FLOAT_COMPUTE_PRECISION,
{
    let o: u64 = ratio.parts();
    let power: u64 = o * FLOAT_COMPUTE_PRECISION / RATIO_SCALE;
    power
}

/// The weights of a power formula commute: exchanging the two outer
/// weights leaves the content power unchanged.
pub proof fn lemma_content_power_weights_commute(
    ratio_a: nat,
    weight_a: u8,
    ratio_b: nat,
    weight_b: u8,
    content_weight: u8,
    top_weight: u8,
)
    ensures
        content_power_of(ratio_a, weight_a, ratio_b, weight_b, content_weight, top_weight)
            == content_power_of(ratio_a, weight_a, ratio_b, weight_b, top_weight, content_weight),
        content_power_of(ratio_a, weight_a, ratio_b, weight_b, content_weight, top_weight)
            == content_power_of(ratio_b, weight_b, ratio_a, weight_a, content_weight, top_weight),
{
    let s = ratio_a * weight_a as nat + ratio_b * weight_b as nat;
    assert(s * content_weight as nat * top_weight as nat == s * top_weight as nat
        * content_weight as nat) by (nonlinear_arith);
}

/// Exchanging the two outer weights leaves the attend power unchanged.
pub proof fn lemma_attend_power_weights_commute(
    rates: (nat, nat, nat, nat),
    weights: (u8, u8, u8, u8),
    second_weight: u8,
    top_weight: u8,
)
    ensures
        attend_power_of(rates, weights, second_weight, top_weight) == attend_power_of(
            rates,
            weights,
            top_weight,
            second_weight,
        ),
{
    let s = rates.0 * weights.0 as nat + rates.1 * weights.1 as nat + rates.2 * weights.2 as nat
        + rates.3 * weights.3 as nat;
    assert(s * second_weight as nat * top_weight as nat == s * top_weight as nat
        * second_weight as nat) by (nonlinear_arith);
}

/// Exchanging the two weights leaves the judge power unchanged.
pub proof fn lemma_judge_power_weights_commute(origin: nat, top_weight: u8, document_weight: u8)
    ensures
        judge_power_of(origin, top_weight, document_weight) == judge_power_of(
            origin,
            document_weight,
            top_weight,
        ),
{
    assert(origin * document_weight as nat * top_weight as nat == origin * top_weight as nat
        * document_weight as nat) by (nonlinear_arith);
}

} // verus!
