//! The queries: reads of what the engine keeps.

use vstd::prelude::*;
use crate::bytes::bytes_clone;
use crate::commodity_type::CommodityTypeData;
use crate::leaderboard::{CommodityLeaderBoardData, LeaderView};
use crate::power::{PowerSize, PowerSum};
use crate::records::{
    CommentWeightData, CommentWeightView, LeaderBoardResult, LeaderBoardResultView, RecordKey,
};
use crate::state::{lookup, Module};
use crate::table::ScopedId;
use crate::types::DocumentPowerInfo;

verus! {

impl Module {
    /// The power of all commodities that were not slashed.
    pub fn kp_total_power(&self) -> (power: u128)
        requires
            self.wf(),
        ensures
            power == self@.total_power,
    {
        self.total_power
    }

    /// The miner power of an account.
    pub fn kp_account_power(&self, account: Vec<u8>) -> (power: PowerSize)
        requires
            self.wf(),
        ensures
            power == self@.account(account@).power,
    {
        self.stored_account(&account).power
    }

    /// The miner power of the account that a public key stands for; key
    /// and account are the same bytes.
    pub fn kp_auth_account_power(&self, account: Vec<u8>) -> (power: PowerSize)
        requires
            self.wf(),
        ensures
            power == self@.account(account@).power,
    {
        self.kp_account_power(account)
    }

    /// The power of a commodity.
    pub fn kp_commodity_power(&self, app_id: u32, cart_id: Vec<u8>) -> (power: PowerSize)
        requires
            self.wf(),
        ensures
            power == self@.commodity_power((app_id, cart_id@)),
    {
        self.get_purchase_power(app_id, &cart_id)
    }

    /// Whether powers are stored for a commodity.
    pub fn kp_is_commodity_power_exist(&self, app_id: u32, cart_id: Vec<u8>) -> (exists: bool)
        requires
            self.wf(),
        ensures
            exists == self@.purchase_powers.dom().contains((app_id, cart_id@)),
    {
        self.purchase_powers.contains_key(&ScopedId::new(app_id, &cart_id))
    }

    /// The kind and the power of a document; for an unknown document the
    /// kind of the blank document and no power.
    pub fn kp_document_power(&self, app_id: u32, document_id: Vec<u8>) -> (info: DocumentPowerInfo)
        requires
            self.wf(),
        ensures
            info.doc_type == self@.document((app_id, document_id@)).document_type,
            info.power == self@.document_power((app_id, document_id@)).total_of(),
    {
        let power: PowerSize = self.stored_document_power(app_id, &document_id).total();
        let doc = self.stored_document(app_id, &document_id);
        DocumentPowerInfo { doc_type: doc.document_type, power }
    }

    /// The attend power of an account within an application.
    pub fn kp_account_attend_power(&self, app_id: u32, account: Vec<u8>) -> (power: PowerSize)
        requires
            self.wf(),
        ensures
            power == self@.app_account((app_id, account@)).attend_power,
    {
        self.stored_app_account(app_id, &account).attend_power
    }

    /// The kinds of commodity, in the order of their identifiers.
    pub fn kp_get_commodity_types(&self) -> (kinds: Vec<CommodityTypeData>)
        requires
            self.wf(),
        ensures
            kinds@.len() == self@.commodity_types.len(),
            forall|i: int|
                0 <= i < kinds@.len() ==> (#[trigger] kinds@[i])@ == self@.commodity_types[i],
    {
        self.commodity_types.list()
    }

    /// The leader board of `(app_id, model_id)`, the strongest first; the
    /// board of the whole application where the model is empty.
    pub fn leader_board(&self, app_id: u32, model_id: &Vec<u8>) -> (entries: Vec<
        CommodityLeaderBoardData,
    >)
        requires
            self.wf(),
        ensures
            entries@.len() == self@.board((app_id, model_id@)).len(),
            forall|i: int|
                0 <= i < entries@.len() ==> (#[trigger] entries@[i])@ == self@.board(
                    (app_id, model_id@),
                )[i],
    {
        match self.leader_boards.get(&ScopedId::new(app_id, model_id)) {
            Some(board) => board.to_vec(),
            None => {
                assert(self@.board((app_id, model_id@)) =~= Seq::<LeaderView>::empty());
                Vec::new()
            },
        }
    }

    /// The block of the last draw over the board of `(app_id, model_id)`;
    /// zero if there was none.
    pub fn app_leader_board_last_time(&self, app_id: u32, model_id: &Vec<u8>) -> (block: u64)
        requires
            self.wf(),
        ensures
            block == lookup(self@.leader_board_last_time, (app_id, model_id@), 0u64),
    {
        match self.leader_board_last_time.get(&ScopedId::new(app_id, model_id)) {
            Some(block) => *block,
            None => 0,
        }
    }

    /// The keys of the records of all draws, in the order of the draws.
    pub fn app_leader_board_sequence_keys(&self) -> (keys: Vec<RecordKey>)
        requires
            self.wf(),
        ensures
            keys@.len() == self@.leader_board_sequence_keys.len(),
            forall|i: int|
                0 <= i < keys@.len() ==> (#[trigger] keys@[i])@
                    == self@.leader_board_sequence_keys[i],
    {
        let mut keys: Vec<RecordKey> = Vec::new();
        let mut i: usize = 0;
        while i < self.leader_board_sequence_keys.len()
            invariant
                i <= self.leader_board_sequence_keys@.len(),
                self@.leader_board_sequence_keys.len() == self.leader_board_sequence_keys@.len(),
                keys@.len() == i,
                forall|j: int|
                    0 <= j < i ==> (#[trigger] keys@[j])@ == self@.leader_board_sequence_keys[j],
            decreases self.leader_board_sequence_keys@.len() - i,
        {
            keys.push(
                RecordKey {
                    app_id: self.leader_board_sequence_keys[i].app_id,
                    block: self.leader_board_sequence_keys[i].block,
                    model_id: bytes_clone(&self.leader_board_sequence_keys[i].model_id),
                },
            );
            i += 1;
        }
        keys
    }

    /// The comments of a document, oldest first.
    pub fn document_comments_account_pool(&self, app_id: u32, document_id: &Vec<u8>) -> (pool:
        Vec<CommentWeightData>)
        requires
            self.wf(),
        ensures
            pool@.len() == self@.pool_of(app_id, document_id@).len(),
            forall|i: int|
                0 <= i < pool@.len() ==> (#[trigger] pool@[i])@ == self@.pool_of(
                    app_id,
                    document_id@,
                )[i],
    {
        match self.comment_pools.get(&ScopedId::new(app_id, document_id)) {
            Some(pool) => pool.to_vec(),
            None => {
                assert(self@.pool_of(app_id, document_id@) =~= Seq::<CommentWeightView>::empty());
                Vec::new()
            },
        }
    }

    /// The miscellaneous power of a choose or model-create document; zero
    /// where none is stored.
    pub fn kp_misc_document_power(&self, app_id: u32, document_id: &Vec<u8>) -> (power: PowerSize)
        requires
            self.wf(),
        ensures
            power == lookup(self@.misc_document_powers, (app_id, document_id@), 0u64),
    {
        match self.misc_document_powers.get(&ScopedId::new(app_id, document_id)) {
            Some(power) => *power,
            None => 0,
        }
    }

    /// The documents that an account owns within an application, in the
    /// order of their creation.
    pub fn account_document_set(&self, app_id: u32, account: &Vec<u8>) -> (ids: Vec<Vec<u8>>)
        requires
            self.wf(),
        ensures
            ids@.len() == lookup(
                self@.account_document_set,
                (app_id, account@),
                Seq::empty(),
            ).len(),
            forall|i: int|
                0 <= i < ids@.len() ==> (#[trigger] ids@[i])@ == lookup(
                    self@.account_document_set,
                    (app_id, account@),
                    Seq::empty(),
                )[i],
    {
        match self.account_document_set.get(&ScopedId::new(app_id, account)) {
            Some(ids) => ids.to_vec(),
            None => Vec::new(),
        }
    }

    /// The carts that an account owns within an application, in the order
    /// in which they were counted.
    pub fn account_commodity_set(&self, app_id: u32, account: &Vec<u8>) -> (ids: Vec<Vec<u8>>)
        requires
            self.wf(),
        ensures
            ids@.len() == lookup(
                self@.account_commodity_set,
                (app_id, account@),
                Seq::empty(),
            ).len(),
            forall|i: int|
                0 <= i < ids@.len() ==> (#[trigger] ids@[i])@ == lookup(
                    self@.account_commodity_set,
                    (app_id, account@),
                    Seq::empty(),
                )[i],
    {
        match self.account_commodity_set.get(&ScopedId::new(app_id, account)) {
            Some(ids) => ids.to_vec(),
            None => Vec::new(),
        }
    }

    /// The record of the draw that was held at block `block` over the board
    /// of `(app_id, model_id)`; the blank record if there was none.
    pub fn leader_board_result(&self, block: u32, app_id: u32, model_id: Vec<u8>) -> (result:
        LeaderBoardResult)
        requires
            self.wf(),
        ensures
            result@ == lookup(
                self@.leader_board_records,
                (app_id, block as u64, model_id@),
                LeaderBoardResultView::blank(),
            ),
    {
        let key = RecordKey { app_id, block: block as u64, model_id };
        match self.leader_board_records.get(&key) {
            Some(result) => result.duplicate(),
            None => LeaderBoardResult::new(),
        }
    }
}

} // verus!
