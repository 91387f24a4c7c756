//! The commodity power aggregator: the powers of each commodity, the total
//! over all of them, the leader boards that rank them, and slashing.

use vstd::prelude::*;
use crate::bytes::bytes_clone;
use crate::leaderboard::{
    distinct_carts, lemma_remove_keeps_order, lemma_upsert_keeps_order, lemma_upserted_members,
    lemma_without_cart_members, on_board, rank_of, ranked, upserted, without_cart,
    CommodityLeaderBoardData, LeaderBoard, LeaderView,
};
use crate::ledger::{lemma_live_finite, lemma_sum_bound, lemma_sum_insert, lemma_sum_without, live};
use crate::power::{clamp_power, power_add, power_sub, CommodityPowerSet, PowerSize, PowerSum};
use crate::records::{AccountRecord, AppAccountRecord};
use crate::state::{minus, Module, StateView};
use crate::table::ScopedId;
use crate::types::AccountStatistics;

verus! {

/// `n + 1`, stopping at the largest value.
pub open spec fn next_count(n: u32) -> u32 {
    if n == u32::MAX {
        n
    } else {
        (n + 1) as u32
    }
}

/// `a + b`, stopping at the largest value.
pub open spec fn clamp_sum(a: u64, b: u64) -> u64 {
    clamp_power((a + b) as nat)
}

impl StateView {
    /// The state after `entry` was put up on the board of `(app_id, model_id)`.
    pub open spec fn board_updated(
        self,
        app_id: u32,
        model_id: Seq<u8>,
        entry: LeaderView,
    ) -> StateView {
        StateView {
            leader_boards: self.leader_boards.insert(
                (app_id, model_id),
                upserted(
                    self.board((app_id, model_id)),
                    entry,
                    self.config.app_leader_board_max_pos as nat,
                ),
            ),
            ..self
        }
    }

    /// The state after a commodity was to be put up on the board of
    /// `(app_id, model_id)`: a slashed commodity is not put up and nothing
    /// changes; for any other see `board_updated`.
    pub open spec fn board_put_up(
        self,
        app_id: u32,
        model_id: Seq<u8>,
        entry: LeaderView,
    ) -> StateView {
        if self.is_slashed((app_id, entry.cart_id)) {
            self
        } else {
            self.board_updated(app_id, model_id, entry)
        }
    }

    /// The state after the place of `cart_id` on the board of
    /// `(app_id, model_id)` was taken away, if it held one.
    pub open spec fn board_item_removed(
        self,
        app_id: u32,
        model_id: Seq<u8>,
        cart_id: Seq<u8>,
    ) -> StateView {
        if on_board(self.board((app_id, model_id)), cart_id) {
            StateView {
                leader_boards: self.leader_boards.insert(
                    (app_id, model_id),
                    without_cart(self.board((app_id, model_id)), cart_id),
                ),
                ..self
            }
        } else {
            self
        }
    }

    /// The state after the powers of a commodity were set to `set`: nothing
    /// changes for a slashed commodity; else the total power moves by the
    /// difference, and the commodity is put up with its new power on the
    /// board of its model and on the board of its application.
    pub open spec fn purchase_power_updated(
        self,
        app_id: u32,
        model_id: Seq<u8>,
        cart_id: Seq<u8>,
        owner: Seq<u8>,
        set: CommodityPowerSet,
    ) -> StateView {
        let key = (app_id, cart_id);
        if self.is_slashed(key) {
            self
        } else {
            let entry = LeaderView { cart_id, power: set.total_of(), owner };
            self.powers_stored(key, set).board_updated(app_id, model_id, entry).board_updated(
                app_id,
                Seq::empty(),
                entry,
            )
        }
    }

    /// The state after the powers of a commodity were stored and the total
    /// power moved by the difference between what they add up to and what
    /// the stored powers added up to.
    pub open spec fn powers_stored(self, key: (u32, Seq<u8>), set: CommodityPowerSet) -> StateView {
        StateView {
            total_power: (if self.purchase_powers.dom().contains(key) {
                minus(self.total_power, self.purchase_powers[key].total_of() as nat)
            } else {
                self.total_power
            }) + set.total_of() as nat,
            purchase_powers: self.purchase_powers.insert(key, set),
            ..self
        }
    }

    /// The state after the powers of a commodity were zeroed: its power
    /// leaves the total, its five parts are zero, and it is on the black
    /// list. The boards are as they were.
    pub open spec fn purchase_power_cleared(self, key: (u32, Seq<u8>)) -> StateView {
        StateView {
            total_power: if self.purchase_powers.dom().contains(key) {
                minus(self.total_power, self.purchase_powers[key].total_of() as nat)
            } else {
                self.total_power
            },
            purchase_powers: self.purchase_powers.insert(key, CommodityPowerSet::zero()),
            purchase_black_list: self.purchase_black_list.insert(key, true),
            ..self
        }
    }

    /// The record of an account after a commodity of power `power` was
    /// slashed from it.
    pub open spec fn account_slashed(record: AccountRecord, power: PowerSize) -> AccountRecord {
        AccountRecord {
            power: if record.power >= power {
                (record.power - power) as PowerSize
            } else {
                0
            },
            statistics: AccountStatistics {
                slash_commodity_num: next_count(record.statistics.slash_commodity_num),
                slash_kp_total: clamp_sum(record.statistics.slash_kp_total, power),
                ..record.statistics
            },
        }
    }

    /// The accumulated power of an owner without the three documents of a
    /// commodity with the powers `set`.
    pub open spec fn accumulation_slashed(
        record: AppAccountRecord,
        set: CommodityPowerSet,
    ) -> AppAccountRecord {
        AppAccountRecord {
            accumulation: record.accumulation.less(set.publish).less(set.identify).less(
                set.try_power,
            ),
            ..record
        }
    }

    /// The state after the powers of a commodity were zeroed and, if it
    /// had power, the same amount left the miner power of `owner`, which
    /// stops at zero, and the powers of its three documents left the
    /// accumulated power of `owner`. The boards are as they were.
    pub open spec fn power_slashed(self, key: (u32, Seq<u8>), owner: Seq<u8>) -> StateView {
        let power = self.commodity_power(key);
        let cleared = self.purchase_power_cleared(key);
        if power > 0 {
            StateView {
                accounts: cleared.accounts.insert(
                    owner,
                    Self::account_slashed(cleared.account(owner), power),
                ),
                app_accounts: cleared.app_accounts.insert(
                    (key.0, owner),
                    Self::accumulation_slashed(
                        cleared.app_account((key.0, owner)),
                        self.power_set(key),
                    ),
                ),
                ..cleared
            }
        } else {
            cleared
        }
    }

    /// The state after `cart_id` left every leader board of the
    /// application `app_id`.
    pub open spec fn boards_without(self, app_id: u32, cart_id: Seq<u8>) -> StateView {
        StateView {
            leader_boards: Map::new(
                |key: (u32, Seq<u8>)| self.leader_boards.dom().contains(key),
                |key: (u32, Seq<u8>)|
                    if key.0 == app_id {
                        without_cart(self.leader_boards[key], cart_id)
                    } else {
                        self.leader_boards[key]
                    },
            ),
            ..self
        }
    }

    /// The state after a commodity was cleared: it leaves every leader
    /// board of its application, its power leaves the total, its five
    /// parts are zero, and it is on the black list.
    pub open spec fn commodity_cleared(self, app_id: u32, cart_id: Seq<u8>) -> StateView {
        self.boards_without(app_id, cart_id).purchase_power_cleared((app_id, cart_id))
    }

    /// The state after a commodity was slashed: it is cleared, and if it
    /// had power, the same amount leaves the miner power of `owner`, which
    /// stops at zero, and the powers of its documents leave the accumulated
    /// power of `owner`, so that they do not come back into the miner
    /// power.
    pub open spec fn commodity_slashed(
        self,
        app_id: u32,
        cart_id: Seq<u8>,
        owner: Seq<u8>,
    ) -> StateView {
        self.boards_without(app_id, cart_id).power_slashed((app_id, cart_id), owner)
    }

    /// Putting up an entry of a commodity that was not slashed keeps a
    /// state consistent.
    pub proof fn lemma_board_updated(self, app_id: u32, model_id: Seq<u8>, entry: LeaderView)
        requires
            self.consistent(),
            !self.is_slashed((app_id, entry.cart_id)),
        ensures
            self.board_updated(app_id, model_id, entry).consistent(),
    {
        let key = (app_id, model_id);
        let after = self.board_updated(app_id, model_id, entry);
        if self.leader_boards.dom().contains(key) {
            assert(ranked_within(self, key));
        }
        lemma_upsert_keeps_order(self.board(key), entry, self.config.app_leader_board_max_pos as nat);
        lemma_upserted_members(self.board(key), entry, self.config.app_leader_board_max_pos as nat);
        assert forall|k: (u32, Seq<u8>), i: int|
            after.leader_boards.dom().contains(k) && 0 <= i < after.leader_boards[k].len() implies !after.is_slashed(
            (k.0, (#[trigger] after.leader_boards[k][i]).cart_id),
        ) by {
            if k == key {
                let place = after.leader_boards[k][i];
                if place != entry {
                    let board = self.board(key);
                    let j = rank_of(board, place.cart_id);
                    assert(self.leader_boards.dom().contains(key)) by {
                        if !self.leader_boards.dom().contains(key) {
                            assert(board.len() == 0);
                        }
                    }
                    assert(!self.is_slashed((key.0, self.leader_boards[key][j].cart_id)));
                }
            } else {
                assert(!self.is_slashed((k.0, self.leader_boards[k][i].cart_id)));
            }
        }
        assert forall|k: (u32, Seq<u8>)| #[trigger] after.leader_boards.dom().contains(k) implies {
            &&& ranked(after.leader_boards[k])
            &&& distinct_carts(after.leader_boards[k])
            &&& after.leader_boards[k].len() <= after.config.app_leader_board_max_pos
        } by {
            if k != key {
                assert(self.leader_boards.dom().contains(k));
            }
        }
    }

    /// Taking a place away keeps a state consistent.
    pub proof fn lemma_board_item_removed(self, app_id: u32, model_id: Seq<u8>, cart_id: Seq<u8>)
        requires
            self.consistent(),
        ensures
            self.board_item_removed(app_id, model_id, cart_id).consistent(),
            !on_board(self.board_item_removed(app_id, model_id, cart_id).board((app_id, model_id)), cart_id),
    {
        let key = (app_id, model_id);
        let after = self.board_item_removed(app_id, model_id, cart_id);
        if on_board(self.board(key), cart_id) {
            assert(self.leader_boards.dom().contains(key)) by {
                if !self.leader_boards.dom().contains(key) {
                    assert(self.board(key).len() == 0);
                }
            }
            assert(ranked_within(self, key));
            let board = self.board(key);
            let at = rank_of(board, cart_id);
            lemma_remove_keeps_order(board, at);
            lemma_without_cart_members(board, cart_id);
            assert forall|k: (u32, Seq<u8>), i: int|
                after.leader_boards.dom().contains(k) && 0 <= i < after.leader_boards[k].len() implies !after.is_slashed(
                (k.0, (#[trigger] after.leader_boards[k][i]).cart_id),
            ) by {
                if k == key {
                    let place = after.leader_boards[k][i];
                    let j = rank_of(board, place.cart_id);
                    assert(!self.is_slashed((key.0, self.leader_boards[key][j].cart_id)));
                } else {
                    assert(!self.is_slashed((k.0, self.leader_boards[k][i].cart_id)));
                }
            }
            assert forall|k: (u32, Seq<u8>)| #[trigger] after.leader_boards.dom().contains(k) implies {
                &&& ranked(after.leader_boards[k])
                &&& distinct_carts(after.leader_boards[k])
                &&& after.leader_boards[k].len() <= after.config.app_leader_board_max_pos
            } by {
                if k != key {
                    assert(self.leader_boards.dom().contains(k));
                }
            }
        }
    }

    /// Total-power invariant, first half: setting the powers of a commodity
    /// keeps the total equal to the sum over the commodities that were not
    /// slashed.
    pub proof fn lemma_purchase_power_updated(
        self,
        app_id: u32,
        model_id: Seq<u8>,
        cart_id: Seq<u8>,
        owner: Seq<u8>,
        set: CommodityPowerSet,
    )
        requires
            self.consistent(),
        ensures
            self.purchase_power_updated(app_id, model_id, cart_id, owner, set).consistent(),
    {
        let key = (app_id, cart_id);
        if !self.is_slashed(key) {
            let mid = self.powers_stored(key, set);
            self.lemma_powers_stored(key, set);
            let entry = LeaderView { cart_id, power: set.total_of(), owner };
            mid.lemma_board_updated(app_id, model_id, entry);
            mid.board_updated(app_id, model_id, entry).lemma_board_updated(
                app_id,
                Seq::empty(),
                entry,
            );
        }
    }

    /// Storing the powers of a commodity that was not slashed keeps the
    /// state consistent.
    pub proof fn lemma_powers_stored(self, key: (u32, Seq<u8>), set: CommodityPowerSet)
        requires
            self.consistent(),
            !self.is_slashed(key),
        ensures
            self.powers_stored(key, set).consistent(),
            self.purchase_powers.dom().contains(key) ==> self.total_power
                >= self.purchase_powers[key].total_of(),
            self.powers_stored(key, set).total_power <= (self.purchase_powers.dom().len() + 1)
                * PowerSize::MAX,
    {
        let slashed = self.purchase_black_list.dom();
        let before = live(self.purchase_powers, slashed);
        let after = self.powers_stored(key, set);
        lemma_live_finite(self.purchase_powers, slashed);
        lemma_sum_insert(before, key, set);
        assert(live(after.purchase_powers, slashed) =~= before.insert(key, set));
        assert(before.dom().contains(key) == self.purchase_powers.dom().contains(key));
        lemma_sum_bound(before.insert(key, set));
        lemma_live_finite(after.purchase_powers, slashed);
        assert(after.purchase_powers.dom() =~= self.purchase_powers.dom().insert(key));
        assert(before.insert(key, set).dom().len() <= self.purchase_powers.dom().len() + 1);
        assert(before.insert(key, set).dom().len() * PowerSize::MAX <= (
        self.purchase_powers.dom().len() + 1) * PowerSize::MAX) by (nonlinear_arith)
            requires
                before.insert(key, set).dom().len() <= self.purchase_powers.dom().len() + 1,
        ;
    }

    /// Zeroing the powers of a commodity that holds no place on a board
    /// keeps the total equal to the sum over the commodities that were not
    /// slashed; `lemma_commodity_cleared` is the whole step.
    proof fn lemma_purchase_power_cleared(self, key: (u32, Seq<u8>))
        requires
            self.consistent(),
            self.off_boards(key.0, key.1),
        ensures
            self.purchase_power_cleared(key).consistent(),
            self.purchase_powers.dom().contains(key) ==> self.total_power
                >= self.purchase_powers[key].total_of(),
    {
        let slashed = self.purchase_black_list.dom();
        let before = live(self.purchase_powers, slashed);
        let after = self.purchase_power_cleared(key);
        lemma_live_finite(self.purchase_powers, slashed);
        lemma_sum_without(before, key);
        assert(live(after.purchase_powers, after.purchase_black_list.dom()) =~= before.remove(key));
        if self.purchase_powers.dom().contains(key) && slashed.contains(key) {
            assert(self.purchase_powers[key].total_of() == 0);
        }
        assert forall|k: (u32, Seq<u8>)|
            after.purchase_black_list.dom().contains(k) && #[trigger]
            after.purchase_powers.dom().contains(k) implies after.purchase_powers[k].total_of()
            == 0 by {
            if k != key {
                assert(self.purchase_powers.dom().contains(k));
            }
        }
        assert forall|k: (u32, Seq<u8>), i: int|
            after.leader_boards.dom().contains(k) && 0 <= i < after.leader_boards[k].len() implies !after.is_slashed(
            (k.0, (#[trigger] after.leader_boards[k][i]).cart_id),
        ) by {
            let place = self.leader_boards[k][i];
            assert(!self.is_slashed((k.0, place.cart_id)));
            if (k.0, place.cart_id) == key {
                assert(self.board((k.0, k.1)) == self.leader_boards[k]);
                assert(!on_board(self.board((key.0, k.1)), key.1));
            }
        }
    }

    /// Zeroing the powers of a commodity that holds no place on a board and
    /// taking them from its owner keeps a state consistent;
    /// `lemma_commodity_slashed` is the whole step.
    proof fn lemma_power_slashed(self, key: (u32, Seq<u8>), owner: Seq<u8>)
        requires
            self.consistent(),
            self.off_boards(key.0, key.1),
        ensures
            self.power_slashed(key, owner).consistent(),
    {
        self.lemma_purchase_power_cleared(key);
    }

    /// Taking a commodity off every board of its application keeps a
    /// state consistent, and afterwards the commodity holds no place on any
    /// board of the application.
    pub proof fn lemma_boards_without(self, app_id: u32, cart_id: Seq<u8>)
        requires
            self.consistent(),
        ensures
            self.boards_without(app_id, cart_id).consistent(),
            self.boards_without(app_id, cart_id).off_boards(app_id, cart_id),
    {
        let after = self.boards_without(app_id, cart_id);
        assert forall|k: (u32, Seq<u8>), i: int|
            after.leader_boards.dom().contains(k) && 0 <= i < after.leader_boards[k].len() implies !after.is_slashed(
            (k.0, (#[trigger] after.leader_boards[k][i]).cart_id),
        ) by {
            if k.0 == app_id {
                let board = self.leader_boards[k];
                lemma_without_cart_members(board, cart_id);
                let place = after.leader_boards[k][i];
                let j = rank_of(board, place.cart_id);
                assert(!self.is_slashed((k.0, self.leader_boards[k][j].cart_id)));
            } else {
                assert(!self.is_slashed((k.0, self.leader_boards[k][i].cart_id)));
            }
        }
        assert forall|k: (u32, Seq<u8>)| #[trigger] after.leader_boards.dom().contains(k) implies {
            &&& ranked(after.leader_boards[k])
            &&& distinct_carts(after.leader_boards[k])
            &&& after.leader_boards[k].len() <= after.config.app_leader_board_max_pos
            &&& k.0 == app_id ==> !on_board(after.leader_boards[k], cart_id)
        } by {
            assert(self.leader_boards.dom().contains(k));
            if k.0 == app_id && on_board(self.leader_boards[k], cart_id) {
                lemma_remove_keeps_order(self.leader_boards[k], rank_of(self.leader_boards[k], cart_id));
            }
        }
        assert forall|model_id: Seq<u8>|
            !on_board(#[trigger] after.board((app_id, model_id)), cart_id) by {
            if after.leader_boards.dom().contains((app_id, model_id)) {
                assert(!on_board(after.leader_boards[(app_id, model_id)], cart_id));
            } else {
                assert(after.board((app_id, model_id)).len() == 0);
            }
        }
    }

    /// Capacity bound: putting any commodity up keeps a state consistent,
    /// so the board stays within the configured number of places; where a
    /// place had to go, it is the last one after the entry took its rank.
    pub proof fn lemma_board_put_up(self, app_id: u32, model_id: Seq<u8>, entry: LeaderView)
        requires
            self.consistent(),
        ensures
            self.board_put_up(app_id, model_id, entry).consistent(),
            self.board_put_up(app_id, model_id, entry).board((app_id, model_id)).len()
                <= self.config.app_leader_board_max_pos,
    {
        let key = (app_id, model_id);
        if self.leader_boards.dom().contains(key) {
            assert(ranked_within(self, key));
        }
        if !self.is_slashed((app_id, entry.cart_id)) {
            self.lemma_board_updated(app_id, model_id, entry);
            let after = self.board_updated(app_id, model_id, entry);
            assert(after.leader_boards.dom().contains(key));
            assert(after.board(key) == after.leader_boards[key]);
        } else if !self.leader_boards.dom().contains(key) {
            assert(self.board(key).len() == 0);
        }
    }

    /// Total-power invariant, second half: clearing a commodity keeps the
    /// total equal to the sum over the commodities that were not slashed.
    /// The total power falls by exactly the power that the commodity had,
    /// unless it was slashed before, when nothing is left to take. The commodity has no
    /// power left, is on the black list and holds no place on a board of
    /// its application; no other commodity is touched.
    pub proof fn lemma_commodity_cleared(self, app_id: u32, cart_id: Seq<u8>)
        requires
            self.consistent(),
        ensures
            ({
                let key = (app_id, cart_id);
                let after = self.commodity_cleared(app_id, cart_id);
                &&& after.consistent()
                &&& after.total_power + self.commodity_power(key) == self.total_power
                &&& self.is_slashed(key) ==> after.total_power == self.total_power
                &&& after.power_set(key) == CommodityPowerSet::zero()
                &&& after.is_slashed(key)
                &&& after.off_boards(app_id, cart_id)
                &&& forall|other: (u32, Seq<u8>)|
                    other != key ==> after.is_slashed(other) == self.is_slashed(other) && (
                    #[trigger] after.purchase_powers.dom().contains(other))
                        == self.purchase_powers.dom().contains(other) && after.power_set(other)
                        == self.power_set(other)
            }),
    {
        let key = (app_id, cart_id);
        self.lemma_boards_without(app_id, cart_id);
        let off = self.boards_without(app_id, cart_id);
        off.lemma_purchase_power_cleared(key);
        let after = self.commodity_cleared(app_id, cart_id);
        assert forall|model_id: Seq<u8>|
            !on_board(#[trigger] after.board((app_id, model_id)), cart_id) by {
            assert(after.board((app_id, model_id)) == off.board((app_id, model_id)));
        }
        if !self.purchase_powers.dom().contains(key) {
            assert(self.commodity_power(key) == 0);
        } else if self.is_slashed(key) {
            assert(self.purchase_powers[key].total_of() == 0);
        }
    }

    /// Slashing a commodity keeps a state consistent.
    pub proof fn lemma_commodity_slashed(self, app_id: u32, cart_id: Seq<u8>, owner: Seq<u8>)
        requires
            self.consistent(),
        ensures
            self.commodity_slashed(app_id, cart_id, owner).consistent(),
    {
        self.lemma_boards_without(app_id, cart_id);
        self.boards_without(app_id, cart_id).lemma_power_slashed((app_id, cart_id), owner);
    }

    /// What slashing takes: the total power falls by exactly the power
    /// that the commodity had, the miner power of the owner falls by the
    /// same amount or to zero, the commodity has no power left, is on the
    /// black list, and holds no place on any board of its application.
    pub proof fn lemma_slash_takes_power(self, app_id: u32, cart_id: Seq<u8>, owner: Seq<u8>)
        requires
            self.consistent(),
        ensures
            ({
                let after = self.commodity_slashed(app_id, cart_id, owner);
                let power = self.commodity_power((app_id, cart_id));
                &&& after.total_power + power == self.total_power
                &&& after.account(owner).power == minus(
                    self.account(owner).power as nat,
                    power as nat,
                )
                &&& after.commodity_power((app_id, cart_id)) == 0
                &&& after.is_slashed((app_id, cart_id))
                &&& after.off_boards(app_id, cart_id)
            }),
    {
        let key = (app_id, cart_id);
        self.lemma_boards_without(app_id, cart_id);
        let cleared = self.boards_without(app_id, cart_id);
        cleared.lemma_purchase_power_cleared(key);
        let after = self.commodity_slashed(app_id, cart_id, owner);
        assert forall|model_id: Seq<u8>|
            !on_board(#[trigger] after.board((app_id, model_id)), cart_id) by {
            assert(after.board((app_id, model_id)) == cleared.board((app_id, model_id)));
        }
        if !self.purchase_powers.dom().contains(key) {
            assert(self.commodity_power(key) == 0);
        }
    }

    /// Slash idempotence: slashing a commodity a second time changes
    /// nothing.
    pub proof fn lemma_slash_idempotent(self, app_id: u32, cart_id: Seq<u8>, owner: Seq<u8>)
        requires
            self.consistent(),
        ensures
            self.commodity_slashed(app_id, cart_id, owner).commodity_slashed(
                app_id,
                cart_id,
                owner,
            ) == self.commodity_slashed(app_id, cart_id, owner),
    {
        let key = (app_id, cart_id);
        let once = self.commodity_slashed(app_id, cart_id, owner);
        self.lemma_slash_takes_power(app_id, cart_id, owner);
        self.lemma_commodity_slashed(app_id, cart_id, owner);
        self.lemma_boards_without(app_id, cart_id);
        assert(once.purchase_powers.dom().contains(key));
        assert(once.purchase_powers[key] == CommodityPowerSet::zero());
        let off = once.boards_without(app_id, cart_id);
        assert(off.leader_boards =~= once.leader_boards) by {
            assert forall|k: (u32, Seq<u8>)| #[trigger]
                once.leader_boards.dom().contains(k) implies off.leader_boards[k]
                == once.leader_boards[k] by {
                if k.0 == app_id {
                    assert(once.leader_boards[k] == once.board((app_id, k.1)));
                    assert(!on_board(once.board((app_id, k.1)), cart_id));
                }
            }
        }
        assert(off == once);
        let again = off.power_slashed(key, owner);
        assert(again.purchase_powers =~= once.purchase_powers);
        assert(again.purchase_black_list =~= once.purchase_black_list);
        assert(again == once);
    }
}

/// The board of `key` is stored and meets the board invariant.
pub open spec fn ranked_within(s: StateView, key: (u32, Seq<u8>)) -> bool {
    &&& s.leader_boards.dom().contains(key)
    &&& ranked(s.leader_boards[key])
    &&& distinct_carts(s.leader_boards[key])
    &&& s.leader_boards[key].len() <= s.config.app_leader_board_max_pos
}

impl Module {
    /// The power of a commodity; zero where none is stored.
    pub fn get_purchase_power(&self, app_id: u32, cart_id: &Vec<u8>) -> (power: PowerSize)
        requires
            self.wf(),
        ensures
            power == self@.commodity_power((app_id, cart_id@)),
    {
        let key = ScopedId::new(app_id, cart_id);
        match self.purchase_powers.get(&key) {
            Some(set) => set.total(),
            None => 0,
        }
    }

    /// Whether a commodity was slashed.
    pub fn is_slashed(&self, app_id: u32, cart_id: &Vec<u8>) -> (slashed: bool)
        requires
            self.wf(),
        ensures
            slashed == self@.is_slashed((app_id, cart_id@)),
    {
        self.purchase_black_list.contains_key(&ScopedId::new(app_id, cart_id))
    }

    /// The place and the entry of a commodity on the board of
    /// `(app_id, model_id)`, if it holds one.
    pub fn get_leader_item(&self, app_id: u32, model_id: &Vec<u8>, cart_id: &Vec<u8>) -> (found:
        Option<(usize, CommodityLeaderBoardData)>)
        requires
            self.wf(),
        ensures
            found is Some == on_board(self@.board((app_id, model_id@)), cart_id@),
            found is Some ==> found.unwrap().0 == rank_of(
                self@.board((app_id, model_id@)),
                cart_id@,
            ) && found.unwrap().1@ == self@.board((app_id, model_id@))[found.unwrap().0 as int],
    {
        let key = ScopedId::new(app_id, model_id);
        match self.leader_boards.get(&key) {
            Some(board) => {
                assert(ranked_within(self@, key@));
                board.get_leader_item(cart_id)
            },
            None => {
                assert(self@.board(key@).len() == 0);
                None
            },
        }
    }

    /// Puts a commodity up on the board of `(app_id, model_id)` with the
    /// power `power`, unless the commodity is slashed. Returns `Some(0)`
    /// where the commodity was put up and `None` where it is slashed.
    pub fn update_realtime_power_leader_boards(
        &mut self,
        app_id: u32,
        model_id: &Vec<u8>,
        cart_id: &Vec<u8>,
        power: PowerSize,
        owner: &Vec<u8>,
    ) -> (done: Option<u32>)
        requires
            old(self).wf(),
        ensures
            final(self).wf(),
            final(self)@ == old(self)@.board_put_up(
                app_id,
                model_id@,
                LeaderView { cart_id: cart_id@, power, owner: owner@ },
            ),
            final(self)@.board((app_id, model_id@)).len()
                <= final(self)@.config.app_leader_board_max_pos,
            done == (if old(self)@.is_slashed((app_id, cart_id@)) {
                None
            } else {
                Some(0u32)
            }),
    {
        let ghost before = self@;
        let ghost entry = LeaderView { cart_id: cart_id@, power, owner: owner@ };
        proof {
            before.lemma_board_put_up(app_id, model_id@, entry);
        }
        if self.purchase_black_list.contains_key(&ScopedId::new(app_id, cart_id)) {
            return None;
        }
        let key = ScopedId::new(app_id, model_id);
        let mut board = match self.leader_boards.remove(&key) {
            Some(board) => {
                assert(ranked_within(before, key@));
                board
            },
            None => LeaderBoard::new(),
        };
        let board_item = CommodityLeaderBoardData {
            cart_id: bytes_clone(cart_id),
            power,
            owner: bytes_clone(owner),
        };
        board.upsert(board_item, self.config.app_leader_board_max_pos);
        self.leader_boards.insert(key, board);
        proof {
            before.lemma_board_updated(app_id, model_id@, entry);
            assert(self@.leader_boards =~= before.board_updated(
                app_id,
                model_id@,
                entry,
            ).leader_boards);
        }
        Some(0)
    }

    /// Takes a commodity off the board of `(app_id, model_id)`. Returns
    /// `Some(0)` if it held a place and `None` if it held none.
    pub fn remove_leader_board_item(
        &mut self,
        app_id: u32,
        model_id: &Vec<u8>,
        cart_id: &Vec<u8>,
    ) -> (done:
        Option<u32>)
        requires
            old(self).wf(),
        ensures
            final(self).wf(),
            final(self)@ == old(self)@.board_item_removed(app_id, model_id@, cart_id@),
            done == (if on_board(old(self)@.board((app_id, model_id@)), cart_id@) {
                Some(0u32)
            } else {
                None
            }),
    {
        let ghost before = self@;
        let key = ScopedId::new(app_id, model_id);
        match self.leader_boards.remove(&key) {
            Some(board) => {
                assert(ranked_within(before, key@));
                let mut board = board;
                let removed = board.remove(cart_id);
                self.leader_boards.insert(key, board);
                proof {
                    before.lemma_board_item_removed(app_id, model_id@, cart_id@);
                    assert(self@.leader_boards =~= before.board_item_removed(
                        app_id,
                        model_id@,
                        cart_id@,
                    ).leader_boards);
                }
                if removed {
                    Some(0)
                } else {
                    None
                }
            },
            None => {
                proof {
                    assert(before.board(key@).len() == 0);
                    assert(self@.leader_boards =~= before.leader_boards);
                }
                None
            },
        }
    }

    /// Sets the powers of a commodity and brings the total power and the
    /// leader boards up to date.
    pub fn update_purchase_power(
        &mut self,
        power_set: &CommodityPowerSet,
        app_id: u32,
        model_id: &Vec<u8>,
        cart_id: &Vec<u8>,
        owner: &Vec<u8>,
    )
        requires
            old(self).wf(),
        ensures
            final(self).wf(),
            final(self)@ == old(self)@.purchase_power_updated(
                app_id,
                model_id@,
                cart_id@,
                owner@,
                *power_set,
            ),
    {
        let ghost before = self@;
        let key = ScopedId::new(app_id, cart_id);
        if self.purchase_black_list.contains_key(&key) {
            return ;
        }
        proof {
            before.lemma_powers_stored(key@, *power_set);
            before.lemma_purchase_power_updated(app_id, model_id@, cart_id@, owner@, *power_set);
            self.purchase_powers.lemma_finite();
            assert((self.purchase_powers.len() + 1) * PowerSize::MAX <= 0x1_0000_0000_0000_0000
                * 0xffff_ffff_ffff_ffff) by (nonlinear_arith)
                requires
                    self.purchase_powers.len() <= 0xffff_ffff_ffff_ffff,
                    PowerSize::MAX == 0xffff_ffff_ffff_ffff,
            ;
        }
        let power: PowerSize = power_set.total();
        let mut total_power: u128 = self.total_power;
        match self.purchase_powers.get(&key) {
            Some(org_power_set) => {
                let org_power: u128 = org_power_set.total() as u128;
                if total_power >= org_power {
                    total_power = total_power - org_power;
                } else {
                    total_power = 0;
                }
            },
            None => {},
        }
        total_power = total_power + power as u128;
        self.total_power = total_power;
        self.purchase_powers.insert(key, *power_set);
        assert(self@ == before.powers_stored((app_id, cart_id@), *power_set));
        let _ = self.update_realtime_power_leader_boards(app_id, model_id, cart_id, power, owner);
        let app_board: Vec<u8> = Vec::new();
        let _ = self.update_realtime_power_leader_boards(app_id, &app_board, cart_id, power, owner);
    }

    /// Takes a commodity off every leader board of its application.
    fn take_off_boards(&mut self, app_id: u32, cart_id: &Vec<u8>)
        requires
            old(self).wf(),
        ensures
            final(self).wf(),
            final(self)@ == old(self)@.boards_without(app_id, cart_id@),
    {
        let ghost before = self@;
        let keys = self.leader_boards.key_list();
        let mut i: usize = 0;
        while i < keys.len()
            invariant
                self.wf(),
                i <= keys@.len(),
                forall|j: int| 0 <= j < keys@.len() ==> before.leader_boards.dom().contains(
                    #[trigger] keys@[j]@,
                ),
                forall|a: int, b: int|
                    0 <= a < b < keys@.len() ==> #[trigger] keys@[a]@ != #[trigger] keys@[b]@,
                self@ == (StateView { leader_boards: self@.leader_boards, ..before }),
                self@.leader_boards.dom() =~= before.leader_boards.dom(),
                forall|j: int|
                    0 <= j < i ==> self@.leader_boards[#[trigger] keys@[j]@]
                        == before.boards_without(app_id, cart_id@).leader_boards[keys@[j]@],
                forall|j: int|
                    i <= j < keys@.len() ==> self@.leader_boards[#[trigger] keys@[j]@]
                        == before.leader_boards[keys@[j]@],
            decreases keys@.len() - i,
        {
            let ghost now = self@;
            if keys[i].app_id == app_id {
                let _ = self.remove_leader_board_item(app_id, &keys[i].id, cart_id);
            }
            proof {
                let key = keys@[i as int]@;
                assert(now.leader_boards.dom().contains(key));
                assert(self@.leader_boards.dom() =~= now.leader_boards.dom());
                assert forall|j: int| 0 <= j < keys@.len() && j != i implies self@.leader_boards[#[trigger] keys@[j]@]
                    == now.leader_boards[keys@[j]@] by {
                    if j < i {
                        assert(keys@[j]@ != keys@[i as int]@);
                    } else {
                        assert(keys@[i as int]@ != keys@[j]@);
                    }
                }
            }
            i += 1;
        }
        proof {
            let wanted = before.boards_without(app_id, cart_id@);
            assert(self@.leader_boards =~= wanted.leader_boards) by {
                assert forall|k: (u32, Seq<u8>)| #[trigger]
                    wanted.leader_boards.dom().contains(k) implies self@.leader_boards[k]
                    == wanted.leader_boards[k] by {
                    let j = choose|j: int| 0 <= j < keys@.len() && #[trigger] keys@[j]@ == k;
                    assert(self@.leader_boards[keys@[j]@] == wanted.leader_boards[keys@[j]@]);
                }
            }
            assert(self@ == wanted);
            before.lemma_boards_without(app_id, cart_id@);
        }
    }

    /// Clears a commodity: takes it off every leader board of its
    /// application, takes its power from the total power, zeroes its five
    /// parts and puts it on the black list.
    pub fn clear_purchase_power(&mut self, app_id: u32, cart_id: &Vec<u8>)
        requires
            old(self).wf(),
        ensures
            final(self).wf(),
            final(self)@ == old(self)@.commodity_cleared(app_id, cart_id@),
            final(self)@.total_power + old(self)@.commodity_power((app_id, cart_id@)) == old(
                self,
            )@.total_power,
            final(self)@.power_set((app_id, cart_id@)) == CommodityPowerSet::zero(),
            final(self)@.is_slashed((app_id, cart_id@)),
            final(self)@.off_boards(app_id, cart_id@),
    {
        let ghost before = self@;
        proof {
            before.lemma_commodity_cleared(app_id, cart_id@);
            before.lemma_boards_without(app_id, cart_id@);
        }
        self.take_off_boards(app_id, cart_id);
        let ghost off = self@;
        let key = ScopedId::new(app_id, cart_id);
        proof {
            off.lemma_purchase_power_cleared(key@);
        }
        match self.purchase_powers.get(&key) {
            Some(org_power_set) => {
                let org_power: u128 = org_power_set.total() as u128;
                if self.total_power >= org_power {
                    self.total_power = self.total_power - org_power;
                } else {
                    self.total_power = 0;
                }
            },
            None => {},
        }
        let list_key = ScopedId::new(app_id, cart_id);
        self.purchase_powers.insert(key, CommodityPowerSet::empty());
        self.purchase_black_list.insert(list_key, true);
    }

    /// Slashes a commodity: clears it, takes the power that it had from the
    /// miner power of `power_owner`, which stops at zero, and takes the
    /// powers of its documents from the accumulated power of `power_owner`.
    pub fn slash_power(&mut self, app_id: u32, cart_id: &Vec<u8>, power_owner: &Vec<u8>)
        requires
            old(self).wf(),
        ensures
            final(self).wf(),
            final(self)@ == old(self)@.commodity_slashed(app_id, cart_id@, power_owner@),
            final(self)@.total_power + old(self)@.commodity_power((app_id, cart_id@)) == old(
                self,
            )@.total_power,
            final(self)@.account(power_owner@).power == minus(
                old(self)@.account(power_owner@).power as nat,
                old(self)@.commodity_power((app_id, cart_id@)) as nat,
            ),
            final(self)@.commodity_power((app_id, cart_id@)) == 0,
            final(self)@.is_slashed((app_id, cart_id@)),
            final(self)@.off_boards(app_id, cart_id@),
    {
        let ghost before = self@;
        proof {
            before.lemma_commodity_slashed(app_id, cart_id@, power_owner@);
            before.lemma_slash_takes_power(app_id, cart_id@, power_owner@);
        }
        let cart_power: PowerSize = self.get_purchase_power(app_id, cart_id);
        let set = match self.purchase_powers.get(&ScopedId::new(app_id, cart_id)) {
            Some(set) => *set,
            None => CommodityPowerSet::empty(),
        };
        self.clear_purchase_power(app_id, cart_id);
        if cart_power > 0 {
            let mut record: AccountRecord = match self.accounts.get(power_owner) {
                Some(record) => *record,
                None => AccountRecord::new(),
            };
            record.power = power_sub(record.power, cart_power);
            record.statistics.slash_commodity_num = record.statistics.slash_commodity_num.saturating_add(
                1,
            );
            record.statistics.slash_kp_total = power_add(record.statistics.slash_kp_total, cart_power);
            self.accounts.insert(bytes_clone(power_owner), record);
            let owner_key = ScopedId::new(app_id, power_owner);
            let mut owned: AppAccountRecord = match self.app_accounts.get(&owner_key) {
                Some(owned) => *owned,
                None => AppAccountRecord::new(),
            };
            owned.accumulation = owned.accumulation.without(&set.publish).without(
                &set.identify,
            ).without(&set.try_power);
            self.app_accounts.insert(owner_key, owned);
        }
    }

    /// The model under which a product was published.
    pub fn get_model_id_from_product(&self, app_id: u32, product_id: &Vec<u8>) -> (model_id: Option<
        Vec<u8>,
    >)
        requires
            self.wf(),
        ensures
            model_id is Some == self@.model_of_product(app_id, product_id@) is Some,
            model_id is Some ==> model_id.unwrap()@ == self@.model_of_product(
                app_id,
                product_id@,
            ).unwrap(),
    {
        let publish_key = ScopedId::new(app_id, product_id);
        match self.product_index.get(&publish_key) {
            None => None,
            Some(publish_doc_id) => {
                let publish_doc_key = ScopedId::new(app_id, publish_doc_id);
                match self.documents.get(&publish_doc_key) {
                    None => None,
                    Some(publish_doc) => Some(bytes_clone(&publish_doc.model_id)),
                }
            },
        }
    }
}

} // verus!
