//! The leader board lottery: a draw among those who commented on the
//! documents of the leading commodities, reproducible from its seed.

use rand_chacha::rand_core::{RngCore, SeedableRng};
use rand_chacha::ChaChaRng;
use vstd::arithmetic::div_mod::{
    lemma_div_denominator, lemma_fundamental_div_mod, lemma_fundamental_div_mod_converse,
    lemma_mod_bound,
};
use vstd::prelude::*;
use crate::bytes::bytes_clone;
use crate::leaderboard::{LeaderBoard, LeaderView};
use crate::math::min_nat;
use crate::maxima::CommentMaxRecord;
use crate::power::PowerSize;
use crate::records::{
    CommentWeightData, CommentWeightView, IdList, LeaderBoardItem, LeaderBoardResult,
    LeaderBoardResultView, RecordKey,
};
use crate::state::{lookup, Module, StateView};
use crate::table::ScopedId;

verus! {

/// The word at place `index` of the ChaCha20 stream that `seed` keys.
pub uninterp spec fn chacha_stream_word(seed: Seq<u8>, index: nat) -> u32;

/// The number of words that a ChaCha20 stream yields before the counter of
/// its blocks would run over: `2^68 - 64`.
pub const STREAM_END: u128 = 0xF_FFFF_FFFF_FFFF_FFC0;

/// Calls `ChaChaRng::from_seed`, `ChaChaRng::set_word_pos` and
/// `RngCore::next_u32` of `rand_chacha`. The word that comes back depends
/// on `seed` and `index` alone; below `STREAM_END` it is the one that a
/// generator made from `seed` yields after `index` earlier calls of
/// `next_u32`. From `STREAM_END` on the generator would add to a block
/// counter that is full, so those places are left out.
#[verifier::external_body]
fn chacha_word(seed: &[u8; 32], index: u128) -> (word: u32)
    requires
        index < STREAM_END,
    ensures
        word == chacha_stream_word(seed@, index as nat),
{
    let mut rng = ChaChaRng::from_seed(*seed);
    rng.set_word_pos(index);
    rng.next_u32()
}

/// The largest draw: draws range from zero to this.
pub const DRAW_MAX: usize = 100;

/// The seed that `random` gives: its first 32 bytes, filled up with zeros.
pub open spec fn seed_of(random: Seq<u8>) -> Seq<u8> {
    Seq::new(
        32,
        |i: int|
            if i < random.len() {
                random[i]
            } else {
                0u8
            },
    )
}

/// Makes a seed of 32 bytes from a random value of any length.
pub fn seed_from_random(random: &Vec<u8>) -> (seed: [u8; 32])
    ensures
        seed@ == seed_of(random@),
{
    let mut seed: [u8; 32] = [0u8; 32];
    let mut i: usize = 0;
    while i < 32 && i < random.len()
        invariant
            i <= 32,
            i <= random@.len(),
            forall|j: int| 0 <= j < i ==> seed@[j] == random@[j],
            forall|j: int| i <= j < 32 ==> seed@[j] == 0u8,
        decreases 32 - i,
    {
        seed[i] = random[i];
        i += 1;
    }
    assert(seed@ =~= seed_of(random@));
    seed
}

/// A number between zero and `max` that the word `word` picks.
pub open spec fn picked(word: u32, max: nat) -> nat {
    (word as nat) % (max + 1)
}

/// Picks a number between zero and `max` with the drawn word `word`.
pub fn pick_usize(word: u32, max: usize) -> (pick: usize)
    requires
        max < u32::MAX,
    ensures
        pick == picked(word, max as nat),
        pick <= max,
{
    (word % (max as u32 + 1)) as usize
}

/// Picks an item of `items` with the drawn word `word`; `None` if and only
/// if there is no item.
pub fn pick_item<T>(word: u32, items: &Vec<T>) -> (item: Option<&T>)
    requires
        items.len() <= u32::MAX,
    ensures
        item is None == (items@.len() == 0),
        item is Some ==> *item.unwrap() == items@[picked(word, (items@.len() - 1) as nat) as int],
{
    if items.len() == 0 {
        None
    } else {
        Some(&items[pick_usize(word, items.len() - 1)])
    }
}

/// A value that is held against `max`: the value capped at `max`, or zero
/// where `max` is zero.
pub open spec fn held(value: PowerSize, max: PowerSize) -> nat {
    if max == 0 {
        0
    } else {
        min_nat(value as nat, max as nat)
    }
}

/// What a value is held against: `max`, or one where `max` is zero, so
/// that the term of the value drops out.
pub open spec fn against(max: PowerSize) -> nat {
    if max == 0 {
        1
    } else {
        max as nat
    }
}

/// The weight of a comment in the draw, between 0 and 96: the whole part
/// of `88 * fee / max_fee + 8 * position / max_count`, of half of it for a
/// comment on a publish document. It is one exact quotient, cut off once.
/// Fee and position are capped at their maxima; a term whose maximum is
/// zero is left out.
pub open spec fn hit_weight(
    comment: CommentWeightView,
    max: CommentMaxRecord,
    is_pub: bool,
) -> nat {
    (88 * held(comment.cash_cost, max.max_fee) * against(max.max_count) + 8 * held(
        comment.position,
        max.max_count,
    ) * against(max.max_fee)) / (against(max.max_fee) * against(max.max_count) * (if is_pub {
        2nat
    } else {
        1nat
    }))
}

/// The sum of two fractions, cut off, by the whole parts and the
/// remainders of the two: `(a / f + b / c) / k` is the sum of the two
/// whole quotients, and one more where the two remainders make up a whole,
/// divided by `k`.
pub proof fn lemma_weight_by_parts(a: nat, f: nat, b: nat, c: nat, k: nat)
    requires
        f > 0,
        c > 0,
        k > 0,
    ensures
        (a * c + b * f) / (f * c * k) == ((a / f) + (b / c) + (if (a % f) * c + (b % c) * f >= f
            * c {
            1nat
        } else {
            0nat
        })) / k,
{
    let q1 = (a / f) as int;
    let r1 = (a % f) as int;
    let q2 = (b / c) as int;
    let r2 = (b % c) as int;
    let d = (f * c) as int;
    let n = (a * c + b * f) as int;
    lemma_fundamental_div_mod(a as int, f as int);
    lemma_fundamental_div_mod(b as int, c as int);
    lemma_mod_bound(a as int, f as int);
    lemma_mod_bound(b as int, c as int);
    let rest = r1 * c + r2 * f;
    assert(d > 0) by (nonlinear_arith)
        requires
            d == f * c,
            f > 0,
            c > 0,
    ;
    assert(n == (q1 + q2) * d + rest) by (nonlinear_arith)
        requires
            n == a * c + b * f,
            a == f * q1 + r1,
            b == c * q2 + r2,
            d == f * c,
            rest == r1 * c + r2 * f,
    ;
    assert(0 <= rest < 2 * d) by (nonlinear_arith)
        requires
            rest == r1 * c + r2 * f,
            d == f * c,
            0 <= r1 < f,
            0 <= r2 < c,
    ;
    let carry: int = if rest >= d {
        1
    } else {
        0
    };
    assert(n == (q1 + q2 + carry) * d + (rest - carry * d)) by (nonlinear_arith)
        requires
            n == (q1 + q2) * d + rest,
    ;
    lemma_fundamental_div_mod_converse(n, d, q1 + q2 + carry, rest - carry * d);
    assert(0 <= n) by (nonlinear_arith)
        requires
            n == a * c + b * f,
    ;
    lemma_div_denominator(n, d, k as int);
}

/// Whether a comment of weight `weight` wins against the drawn word: the
/// word picks a number between 0 and 100, and the weight must exceed it.
pub open spec fn is_hit(weight: nat, word: u32) -> bool {
    weight > picked(word, DRAW_MAX as nat)
}

/// Computes `hit_weight`.
pub fn compute_hit_weight(
    comment: &CommentWeightData,
    max: &CommentMaxRecord,
    is_pub: bool,
) -> (weight: usize)
    ensures
        weight == hit_weight(comment@, *max, is_pub),
        weight <= 96,
{
    let fee_max: u128 = if max.max_fee == 0 {
        1
    } else {
        max.max_fee as u128
    };
    let fee: u128 = if max.max_fee == 0 {
        0
    } else if comment.cash_cost <= max.max_fee {
        comment.cash_cost as u128
    } else {
        max.max_fee as u128
    };
    let count_max: u128 = if max.max_count == 0 {
        1
    } else {
        max.max_count as u128
    };
    let position: u128 = if max.max_count == 0 {
        0
    } else if comment.position <= max.max_count {
        comment.position as u128
    } else {
        max.max_count as u128
    };
    let halves: u128 = if is_pub {
        2
    } else {
        1
    };
    assert(fee == held(comment@.cash_cost, max.max_fee) && fee_max == against(max.max_fee));
    assert(position == held(comment@.position, max.max_count) && count_max == against(
        max.max_count,
    ));
    let a: u128 = 88 * fee;
    let b: u128 = 8 * position;
    let q1: u128 = a / fee_max;
    let r1: u128 = a % fee_max;
    let q2: u128 = b / count_max;
    let r2: u128 = b % count_max;
    proof {
        lemma_weight_by_parts(a as nat, fee_max as nat, b as nat, count_max as nat, halves as nat);
        lemma_mod_bound(a as int, fee_max as int);
        lemma_mod_bound(b as int, count_max as int);
        lemma_fundamental_div_mod(a as int, fee_max as int);
        lemma_fundamental_div_mod(b as int, count_max as int);
        assert(q1 <= 88) by (nonlinear_arith)
            requires
                q1 == a / fee_max,
                a == 88 * fee,
                fee <= fee_max,
                fee_max > 0,
        ;
        assert(q2 <= 8) by (nonlinear_arith)
            requires
                q2 == b / count_max,
                b == 8 * position,
                position <= count_max,
                count_max > 0,
        ;
        assert(r1 * count_max <= 0xffff_ffff_ffff_ffff * 0xffff_ffff_ffff_ffff) by (nonlinear_arith)
            requires
                r1 < fee_max,
                fee_max <= 0xffff_ffff_ffff_ffff,
                count_max <= 0xffff_ffff_ffff_ffff,
        ;
        assert(fee_max * (count_max - r2) <= 0xffff_ffff_ffff_ffff * 0xffff_ffff_ffff_ffff)
            by (nonlinear_arith)
            requires
                r2 < count_max,
                fee_max <= 0xffff_ffff_ffff_ffff,
                count_max <= 0xffff_ffff_ffff_ffff,
        ;
        assert((r1 * count_max >= fee_max * (count_max - r2)) == (r1 * count_max + r2 * fee_max
            >= fee_max * count_max)) by (nonlinear_arith);
        assert(a as nat * count_max as nat + b as nat * fee_max as nat == 88 * held(
            comment@.cash_cost,
            max.max_fee,
        ) * against(max.max_count) + 8 * held(comment@.position, max.max_count) * against(
            max.max_fee,
        )) by (nonlinear_arith)
            requires
                a == 88 * fee,
                b == 8 * position,
                fee == held(comment@.cash_cost, max.max_fee),
                fee_max == against(max.max_fee),
                position == held(comment@.position, max.max_count),
                count_max == against(max.max_count),
        ;
    }
    let carry: u128 = if r1 * count_max >= fee_max * (count_max - r2) {
        1
    } else {
        0
    };
    proof {
        // where the remainders make up a whole, one of the quotients is
        // short of its largest value
        if carry == 1 {
            if q1 == 88 {
                assert(r1 == 0) by (nonlinear_arith)
                    requires
                        q1 == 88,
                        a == 88 * fee,
                        fee <= fee_max,
                        a == fee_max * q1 + r1,
                        0 <= r1,
                ;
            }
            if q2 == 8 {
                assert(r2 == 0) by (nonlinear_arith)
                    requires
                        q2 == 8,
                        b == 8 * position,
                        position <= count_max,
                        b == count_max * q2 + r2,
                        0 <= r2,
                ;
            }
            if q1 == 88 && q2 == 8 {
                assert(r1 * count_max + r2 * fee_max == 0) by (nonlinear_arith)
                    requires
                        r1 == 0,
                        r2 == 0,
                ;
                assert(fee_max * count_max > 0) by (nonlinear_arith)
                    requires
                        fee_max > 0,
                        count_max > 0,
                ;
            }
        }
    }
    let weight: u128 = (q1 + q2 + carry) / halves;
    weight as usize
}

/// Whether a comment of weight `weight` wins against the drawn word.
pub fn hits(weight: usize, word: u32) -> (hit: bool)
    ensures
        hit == is_hit(weight as nat, word),
{
    weight > pick_usize(word, DRAW_MAX)
}

/// Whether a comment of weight `weight` wins with the word at place
/// `place` of the stream of `seed`. A comment whose place lies beyond the
/// end of the stream does not win.
pub open spec fn wins_at(weight: nat, seed: Seq<u8>, place: nat) -> bool {
    place < STREAM_END && is_hit(weight, chacha_stream_word(seed, place))
}

/// The accounts that win among the first `upto` comments of `pool`, in the
/// order of the comments, when the draw of the first comment is the word
/// at place `first` of the stream of `seed`.
pub open spec fn pool_winners(
    pool: Seq<CommentWeightView>,
    upto: nat,
    max: CommentMaxRecord,
    is_pub: bool,
    seed: Seq<u8>,
    first: nat,
) -> Seq<Seq<u8>>
    decreases upto,
{
    if upto == 0 {
        Seq::empty()
    } else {
        let earlier = pool_winners(pool, (upto - 1) as nat, max, is_pub, seed, first);
        let comment = pool[upto - 1];
        if wins_at(hit_weight(comment, max, is_pub), seed, (first + upto - 1) as nat) {
            earlier.push(comment.account)
        } else {
            earlier
        }
    }
}

/// How far a draw has come: the winners so far, the number of words
/// drawn, and the publish documents whose pools were walked.
pub struct LotteryRun {
    pub winners: Seq<Seq<u8>>,
    pub draws: nat,
    pub visited: Set<Seq<u8>>,
}

/// The number of leading places that take part in a draw: all
/// commodities if there are at most five; else a fifth of them, but no
/// more than the board has places by its configuration. Never more than
/// the places that are taken.
pub open spec fn selection_count(total: u32, max_pos: u32, places: nat) -> nat {
    let wanted: nat = if total <= 5 {
        total as nat
    } else if (max_pos as nat) < (total as nat * 20 / 100) {
        max_pos as nat
    } else {
        total as nat * 20 / 100
    };
    if wanted <= places {
        wanted
    } else {
        places
    }
}

/// Computes `selection_count`.
pub fn compute_selection_count(total: u32, max_pos: u32, places: usize) -> (count: usize)
    ensures
        count == selection_count(total, max_pos, places as nat),
        count <= places,
        count <= u32::MAX,
{
    let wanted: u64 = if total <= 5 {
        total as u64
    } else {
        let fifth: u64 = total as u64 * 20 / 100;
        if (max_pos as u64) < fifth {
            max_pos as u64
        } else {
            fifth
        }
    };
    if wanted <= places as u64 {
        wanted as usize
    } else {
        places
    }
}

impl StateView {
    /// The pool of a document; empty where none is stored.
    pub open spec fn pool_of(self, app_id: u32, doc_id: Seq<u8>) -> Seq<CommentWeightView> {
        lookup(self.comment_pools, (app_id, doc_id), Seq::empty())
    }

    /// The run after the pool of one document was walked.
    pub open spec fn run_after_pool(
        self,
        run: LotteryRun,
        app_id: u32,
        doc_id: Seq<u8>,
        is_pub: bool,
        seed: Seq<u8>,
    ) -> LotteryRun {
        let pool = self.pool_of(app_id, doc_id);
        LotteryRun {
            winners: run.winners + pool_winners(
                pool,
                pool.len(),
                self.app(app_id).comment_max_per_doc,
                is_pub,
                seed,
                run.draws,
            ),
            draws: run.draws + pool.len(),
            visited: run.visited,
        }
    }

    /// The run after an identify or a try document was walked, and after
    /// it the publish document behind it, unless that one was walked
    /// before in this draw.
    pub open spec fn run_after_document(
        self,
        run: LotteryRun,
        app_id: u32,
        doc_id: Seq<u8>,
        seed: Seq<u8>,
    ) -> LotteryRun {
        let own = self.run_after_pool(run, app_id, doc_id, false, seed);
        let publish = lookup(
            self.product_index,
            (app_id, self.document((app_id, doc_id)).product_id),
            Seq::empty(),
        );
        if own.visited.contains(publish) {
            own
        } else {
            let walked = self.run_after_pool(own, app_id, publish, true, seed);
            LotteryRun { visited: walked.visited.insert(publish), ..walked }
        }
    }

    /// The run after the documents of one commodity were walked: its
    /// identify document, then its try document, as far as it has them.
    pub open spec fn run_after_commodity(
        self,
        run: LotteryRun,
        app_id: u32,
        cart_id: Seq<u8>,
        seed: Seq<u8>,
    ) -> LotteryRun {
        let key = (app_id, cart_id);
        let identified = if self.cart_identify_index.dom().contains(key) {
            self.run_after_document(run, app_id, self.cart_identify_index[key], seed)
        } else {
            run
        };
        if self.cart_try_index.dom().contains(key) {
            self.run_after_document(identified, app_id, self.cart_try_index[key], seed)
        } else {
            identified
        }
    }

    /// The run after the first `upto` leaders were walked.
    pub open spec fn run_after_leaders(
        self,
        app_id: u32,
        leaders: Seq<LeaderView>,
        upto: nat,
        seed: Seq<u8>,
    ) -> LotteryRun
        decreases upto,
    {
        if upto == 0 {
            LotteryRun { winners: Seq::empty(), draws: 0, visited: Set::empty() }
        } else {
            self.run_after_commodity(
                self.run_after_leaders(app_id, leaders, (upto - 1) as nat, seed),
                app_id,
                leaders[upto - 1].cart_id,
                seed,
            )
        }
    }

    /// The number of commodities that count for the board of
    /// `(app_id, model_id)`: those of the model, or those of the whole
    /// application where the model is empty.
    pub open spec fn board_total(self, app_id: u32, model_id: Seq<u8>) -> u32 {
        if model_id.len() == 0 {
            self.app(app_id).commodity_count
        } else {
            lookup(self.app_model_commodity_count, (app_id, model_id), 0u32)
        }
    }

    /// The leaders that take part in a draw over the board of
    /// `(app_id, model_id)`.
    pub open spec fn lottery_leaders(self, app_id: u32, model_id: Seq<u8>) -> Seq<LeaderView> {
        let board = self.board((app_id, model_id));
        board.take(
            selection_count(
                self.board_total(app_id, model_id),
                self.config.app_leader_board_max_pos,
                board.len(),
            ) as int,
        )
    }

    /// The record that a draw over the board of `(app_id, model_id)` with
    /// the seed `seed` leaves: the leaders and the winners. It is a
    /// function of the state and the seed.
    pub open spec fn lottery_result(
        self,
        app_id: u32,
        model_id: Seq<u8>,
        seed: Seq<u8>,
    ) -> LeaderBoardResultView {
        let leaders = self.lottery_leaders(app_id, model_id);
        LeaderBoardResultView {
            accounts: self.run_after_leaders(app_id, leaders, leaders.len(), seed).winners,
            board: leaders,
        }
    }

    /// The state after a draw at block `block`. Nothing changes where the
    /// board is empty or no commodity counts for it; else the record of the
    /// draw is stored under `(app_id, block, model_id)`, the block is noted
    /// as the time of the board's last draw, and the key of the record
    /// joins the sequence of keys.
    pub open spec fn lottery_drawn(
        self,
        block: u64,
        app_id: u32,
        model_id: Seq<u8>,
        seed: Seq<u8>,
    ) -> StateView {
        if self.board((app_id, model_id)).len() == 0 || self.board_total(app_id, model_id) == 0 {
            self
        } else {
            StateView {
                leader_board_records: self.leader_board_records.insert(
                    (app_id, block, model_id),
                    self.lottery_result(app_id, model_id, seed),
                ),
                leader_board_last_time: self.leader_board_last_time.insert(
                    (app_id, model_id),
                    block,
                ),
                leader_board_sequence_keys: self.leader_board_sequence_keys.push(
                    (app_id, block, model_id),
                ),
                ..self
            }
        }
    }
}

impl StateView {
    /// Whether two states agree in all that a draw reads.
    pub open spec fn same_draw_inputs(self, other: StateView) -> bool {
        &&& self.config == other.config
        &&& self.apps == other.apps
        &&& self.documents == other.documents
        &&& self.comment_pools == other.comment_pools
        &&& self.product_index == other.product_index
        &&& self.cart_identify_index == other.cart_identify_index
        &&& self.cart_try_index == other.cart_try_index
        &&& self.leader_boards == other.leader_boards
        &&& self.app_model_commodity_count == other.app_model_commodity_count
    }

    /// A walk over leaders comes out the same in two states that agree in
    /// what a draw reads.
    pub proof fn lemma_run_reads_inputs_only(
        self,
        other: StateView,
        app_id: u32,
        leaders: Seq<LeaderView>,
        upto: nat,
        seed: Seq<u8>,
    )
        requires
            self.same_draw_inputs(other),
        ensures
            self.run_after_leaders(app_id, leaders, upto, seed) == other.run_after_leaders(
                app_id,
                leaders,
                upto,
                seed,
            ),
        decreases upto,
    {
        if upto > 0 {
            self.lemma_run_reads_inputs_only(other, app_id, leaders, (upto - 1) as nat, seed);
        }
    }

    /// Reproducible draws: with the same seed and the same inputs a draw
    /// yields the same leaders and the same winners; in particular a draw
    /// that is held again right after a draw repeats its record.
    pub proof fn lemma_lottery_reproducible(
        self,
        other: StateView,
        block: u64,
        app_id: u32,
        model_id: Seq<u8>,
        seed: Seq<u8>,
    )
        requires
            self.same_draw_inputs(other),
        ensures
            self.lottery_result(app_id, model_id, seed) == other.lottery_result(
                app_id,
                model_id,
                seed,
            ),
            self.lottery_drawn(block, app_id, model_id, seed).lottery_result(
                app_id,
                model_id,
                seed,
            ) == self.lottery_result(app_id, model_id, seed),
    {
        let leaders = self.lottery_leaders(app_id, model_id);
        self.lemma_run_reads_inputs_only(other, app_id, leaders, leaders.len(), seed);
        let drawn = self.lottery_drawn(block, app_id, model_id, seed);
        self.lemma_run_reads_inputs_only(drawn, app_id, leaders, leaders.len(), seed);
    }
}

/// A draw under way.
struct Draw {
    draws: u128,
    records: IdList,
    visited: IdList,
}

impl Draw {
    spec fn run(&self) -> LotteryRun {
        LotteryRun {
            winners: self.records@,
            draws: self.draws as nat,
            visited: self.visited@.to_set(),
        }
    }
}

impl Module {
    /// Walks the pool of one document.
    fn attend_lottery(
        &self,
        app_id: u32,
        doc_id: &Vec<u8>,
        is_pub: bool,
        seed: &[u8; 32],
        max: &CommentMaxRecord,
        draw: Draw,
    ) -> (after: Draw)
        requires
            self.wf(),
            *max == self@.app(app_id).comment_max_per_doc,
            draw.draws <= 0x20_0000_0000_0000_0000_0000_0000,
        ensures
            after.run() == self@.run_after_pool(draw.run(), app_id, doc_id@, is_pub, seed@),
            after.draws <= draw.draws + 0x1_0000_0000_0000_0000,
            after.visited@ == draw.visited@,
    {
        let key = ScopedId::new(app_id, doc_id);
        match self.comment_pools.get(&key) {
            None => {
                proof {
                    let pool = self@.pool_of(app_id, doc_id@);
                    assert(pool.len() == 0);
                    assert(draw.records@ + pool_winners(
                        pool,
                        0,
                        *max,
                        is_pub,
                        seed@,
                        draw.draws as nat,
                    ) =~= draw.records@);
                }
                draw
            },
            Some(pool) => {
                let ghost start = draw.draws as nat;
                let ghost won = draw.records@;
                let mut draws: u128 = draw.draws;
                let mut records = draw.records;
                let visited = draw.visited;
                let mut i: usize = 0;
                proof {
                    assert(won + pool_winners(pool@, 0, *max, is_pub, seed@, start) =~= won);
                }
                while i < pool.len()
                    invariant
                        i <= pool@.len(),
                        draws == start + i,
                        start <= 0x20_0000_0000_0000_0000_0000_0000,
                        records@ == won + pool_winners(pool@, i as nat, *max, is_pub, seed@, start),
                    decreases pool@.len() - i,
                {
                    let comment_data = pool.get(i);
                    let weight: usize = compute_hit_weight(comment_data, max, is_pub);
                    let wins = if draws < STREAM_END {
                        hits(weight, chacha_word(seed, draws))
                    } else {
                        false
                    };
                    if wins {
                        records.push(bytes_clone(&comment_data.account));
                    }
                    draws = draws + 1;
                    i += 1;
                    proof {
                        let later = pool_winners(pool@, i as nat, *max, is_pub, seed@, start);
                        let before = pool_winners(pool@, (i - 1) as nat, *max, is_pub, seed@, start);
                        if wins {
                            assert(later == before.push(comment_data@.account));
                            assert(records@ =~= won + later);
                        } else {
                            assert(later == before);
                        }
                    }
                }
                Draw { draws, records, visited }
            },
        }
    }

    /// Walks an identify or a try document and the publish document behind
    /// it.
    fn walk_document(
        &self,
        app_id: u32,
        doc_id: &Vec<u8>,
        seed: &[u8; 32],
        max: &CommentMaxRecord,
        draw: Draw,
    ) -> (after: Draw)
        requires
            self.wf(),
            *max == self@.app(app_id).comment_max_per_doc,
            draw.draws <= 0x10_0000_0000_0000_0000_0000_0000,
        ensures
            after.run() == self@.run_after_document(draw.run(), app_id, doc_id@, seed@),
            after.draws <= draw.draws + 0x2_0000_0000_0000_0000,
    {
        let own = self.attend_lottery(app_id, doc_id, false, seed, max, draw);
        let pub_doc_id = self.get_pub_docid_from_doc(app_id, doc_id);
        if own.visited.contains(&pub_doc_id) {
            own
        } else {
            let walked = self.attend_lottery(app_id, &pub_doc_id, true, seed, max, own);
            let mut visited = walked.visited;
            let ghost seen = visited@;
            visited.push(pub_doc_id);
            proof {
                assert(visited@.to_set() =~= seen.to_set().insert(pub_doc_id@)) by {
                    assert forall|id: Seq<u8>| visited@.to_set().contains(id) implies seen.to_set().insert(
                        pub_doc_id@,
                    ).contains(id) by {
                        let k = choose|k: int| 0 <= k < visited@.len() && visited@[k] == id;
                        if k < seen.len() {
                            assert(seen[k] == id);
                        }
                    }
                    assert forall|id: Seq<u8>|
                        seen.to_set().insert(pub_doc_id@).contains(
                            id,
                        ) implies visited@.to_set().contains(id) by {
                        if id == pub_doc_id@ {
                            assert(visited@[seen.len() as int] == id);
                        } else {
                            let k = choose|k: int| 0 <= k < seen.len() && seen[k] == id;
                            assert(visited@[k] == id);
                        }
                    }
                }
            }
            Draw { draws: walked.draws, records: walked.records, visited }
        }
    }

    /// Walks the documents of one commodity.
    fn walk_commodity(
        &self,
        app_id: u32,
        cart_id: &Vec<u8>,
        seed: &[u8; 32],
        max: &CommentMaxRecord,
        draw: Draw,
    ) -> (after: Draw)
        requires
            self.wf(),
            *max == self@.app(app_id).comment_max_per_doc,
            draw.draws <= 0x8_0000_0000_0000_0000_0000_0000,
        ensures
            after.run() == self@.run_after_commodity(draw.run(), app_id, cart_id@, seed@),
            after.draws <= draw.draws + 0x4_0000_0000_0000_0000,
    {
        let key = ScopedId::new(app_id, cart_id);
        let identified = match self.cart_identify_index.get(&key) {
            Some(doc_id) => self.walk_document(app_id, doc_id, seed, max, draw),
            None => draw,
        };
        match self.cart_try_index.get(&key) {
            Some(doc_id) => self.walk_document(app_id, doc_id, seed, max, identified),
            None => identified,
        }
    }

    /// The number of commodities that count for a board.
    pub fn board_commodity_count(&self, app_id: u32, model_id: &Vec<u8>) -> (total: u32)
        requires
            self.wf(),
        ensures
            total == self@.board_total(app_id, model_id@),
    {
        if model_id.len() == 0 {
            self.stored_app(app_id).commodity_count
        } else {
            match self.app_model_commodity_count.get(&ScopedId::new(app_id, model_id)) {
                Some(count) => *count,
                None => 0,
            }
        }
    }

    /// Draws over the leaders of a board with the seed `seed`.
    fn draw_over(
        &self,
        board: &LeaderBoard,
        app_id: u32,
        model_id: &Vec<u8>,
        seed: &[u8; 32],
    ) -> (result:
        LeaderBoardResult)
        requires
            self.wf(),
            board@ == self@.board((app_id, model_id@)),
        ensures
            result@ == self@.lottery_result(app_id, model_id@, seed@),
    {
        let total: u32 = self.board_commodity_count(app_id, model_id);
        let count: usize = compute_selection_count(
            total,
            self.config.app_leader_board_max_pos,
            board.len(),
        );
        let max = self.stored_app(app_id).comment_max_per_doc;
        let ghost leaders = board@.take(count as int);
        let mut draw = Draw { draws: 0, records: IdList::new(), visited: IdList::new() };
        let mut leader_rpc_data: Vec<LeaderBoardItem> = Vec::new();
        let mut index: usize = 0;
        proof {
            assert(draw.visited@.to_set() =~= Set::<Seq<u8>>::empty());
        }
        while index < count
            invariant
                self.wf(),
                max == self@.app(app_id).comment_max_per_doc,
                index <= count <= board@.len(),
                count <= u32::MAX,
                leaders == board@.take(count as int),
                draw.draws <= index * 0x4_0000_0000_0000_0000,
                draw.run() == self@.run_after_leaders(app_id, leaders, index as nat, seed@),
                leader_rpc_data@.len() == index,
                forall|j: int| 0 <= j < index ==> (#[trigger] leader_rpc_data@[j])@ == leaders[j],
            decreases count - index,
        {
            let board_item = board.get(index);
            draw = self.walk_commodity(app_id, &board_item.cart_id, seed, &max, draw);
            leader_rpc_data.push(board_item.to_item());
            index += 1;
        }
        let accounts = draw.records.to_vec();
        let result = LeaderBoardResult { accounts, board: leader_rpc_data };
        proof {
            assert(result@.board =~= leaders);
            assert(result@.accounts =~= draw.records@);
        }
        result
    }

    /// Holds a draw over the board of `(app_id, model_id)` at block
    /// `block`, with the seed `seed`.
    pub fn leader_board_lottery(
        &mut self,
        block: u64,
        app_id: u32,
        model_id: &Vec<u8>,
        seed: &[u8; 32],
    )
        requires
            old(self).wf(),
        ensures
            final(self).wf(),
            final(self)@ == old(self)@.lottery_drawn(block, app_id, model_id@, seed@),
    {
        let ghost before = self@;
        let board_key = ScopedId::new(app_id, model_id);
        let result: LeaderBoardResult = match self.leader_boards.get(&board_key) {
            None => {
                return ;
            },
            Some(board) => {
                if board.len() == 0 {
                    return ;
                }
                let total: u32 = self.board_commodity_count(app_id, model_id);
                if total == 0 {
                    return ;
                }
                self.draw_over(board, app_id, model_id, seed)
            },
        };
        self.leader_board_records.insert(
            RecordKey { app_id, block, model_id: bytes_clone(model_id) },
            result,
        );
        self.leader_board_last_time.insert(board_key, block);
        self.leader_board_sequence_keys.push(
            RecordKey { app_id, block, model_id: bytes_clone(model_id) },
        );
        proof {
            before.lemma_same_powers_consistent(self@);
            assert(self@.leader_board_sequence_keys =~= before.leader_board_sequence_keys.push(
                (app_id, block, model_id@),
            ));
        }
    }
}

} // verus!
