//! The records that the engine keeps per application, per account and per
//! leader board draw.

use vstd::prelude::*;
use crate::bytes::{bytes_clone, bytes_eq};
use crate::leaderboard::{CommodityLeaderBoardData, LeaderView};
use crate::maxima::{
    CommentMaxRecord, KPModelCreateDataMax, KPProductChooseDataMax, KPProductIdentifyRateMax,
    KPProductPublishRateMax, KPProductTryRateMax,
};
use crate::power::{DocumentPower, PowerSize};
use crate::table::Key;
use crate::types::{AccountStatistics, KPCommentAccountRecord};

verus! {

/// What is kept for one application: its running maxima and the number of
/// its commodities.
#[derive(Clone, Copy, Debug, Default, PartialEq, Eq, Structural)]
pub struct AppRecord {
    pub publish_max: KPProductPublishRateMax,
    pub identify_max: KPProductIdentifyRateMax,
    pub try_max: KPProductTryRateMax,
    pub choose_max: KPProductChooseDataMax,
    pub model_create_max: KPModelCreateDataMax,
    pub comment_max_per_doc: CommentMaxRecord,
    pub comment_max_per_account: CommentMaxRecord,
    pub commodity_count: u32,
    /// The number of models that the application may have; zero for no
    /// limit.
    pub model_total_config: u32,
    /// The number of models that the application has.
    pub model_count: u32,
}

impl View for AppRecord {
    type V = AppRecord;

    open spec fn view(&self) -> AppRecord {
        *self
    }
}

impl AppRecord {
    /// The record of an application of which nothing is known yet.
    pub open spec fn blank() -> AppRecord {
        AppRecord {
            publish_max: KPProductPublishRateMax { para_issue_rate: 0, self_issue_rate: 0 },
            identify_max: KPProductIdentifyRateMax { ident_rate: 0, ident_consistence: 0 },
            try_max: KPProductTryRateMax { offset_rate: 0, true_rate: 0 },
            choose_max: KPProductChooseDataMax { sell_count: 0, try_count: 0 },
            model_create_max: KPModelCreateDataMax { producer_count: 0, product_count: 0 },
            comment_max_per_doc: CommentMaxRecord {
                max_count: 0,
                max_fee: 0,
                max_positive: 0,
                max_unit_fee: 0,
            },
            comment_max_per_account: CommentMaxRecord {
                max_count: 0,
                max_fee: 0,
                max_positive: 0,
                max_unit_fee: 0,
            },
            commodity_count: 0,
            model_total_config: 0,
            model_count: 0,
        }
    }

    /// The record of an application of which nothing is known yet.
    pub fn new() -> (record: AppRecord)
        ensures
            record == AppRecord::blank(),
    {
        AppRecord {
            publish_max: KPProductPublishRateMax { para_issue_rate: 0, self_issue_rate: 0 },
            identify_max: KPProductIdentifyRateMax { ident_rate: 0, ident_consistence: 0 },
            try_max: KPProductTryRateMax { offset_rate: 0, true_rate: 0 },
            choose_max: KPProductChooseDataMax { sell_count: 0, try_count: 0 },
            model_create_max: KPModelCreateDataMax { producer_count: 0, product_count: 0 },
            comment_max_per_doc: CommentMaxRecord {
                max_count: 0,
                max_fee: 0,
                max_positive: 0,
                max_unit_fee: 0,
            },
            comment_max_per_account: CommentMaxRecord {
                max_count: 0,
                max_fee: 0,
                max_positive: 0,
                max_unit_fee: 0,
            },
            commodity_count: 0,
            model_total_config: 0,
            model_count: 0,
        }
    }

    /// No maximum of `self` is below that of `earlier`.
    pub open spec fn maxima_at_least(self, earlier: AppRecord) -> bool {
        &&& self.publish_max.para_issue_rate >= earlier.publish_max.para_issue_rate
        &&& self.publish_max.self_issue_rate >= earlier.publish_max.self_issue_rate
        &&& self.identify_max.ident_rate >= earlier.identify_max.ident_rate
        &&& self.identify_max.ident_consistence >= earlier.identify_max.ident_consistence
        &&& self.try_max.offset_rate >= earlier.try_max.offset_rate
        &&& self.try_max.true_rate >= earlier.try_max.true_rate
        &&& self.choose_max.sell_count >= earlier.choose_max.sell_count
        &&& self.choose_max.try_count >= earlier.choose_max.try_count
        &&& self.model_create_max.producer_count >= earlier.model_create_max.producer_count
        &&& self.model_create_max.product_count >= earlier.model_create_max.product_count
        &&& self.comment_max_per_doc.at_least(earlier.comment_max_per_doc)
        &&& self.comment_max_per_account.at_least(earlier.comment_max_per_account)
    }
}

/// What is kept for one account within one application.
#[derive(Clone, Copy, Debug, Default, PartialEq, Eq, Structural)]
pub struct AppAccountRecord {
    /// What the account has done in comments.
    pub comment: KPCommentAccountRecord,
    /// The attend power that its comments have earned it.
    pub attend_power: PowerSize,
    /// The powers of the documents that it owns, added up.
    pub accumulation: DocumentPower,
}

impl View for AppAccountRecord {
    type V = AppAccountRecord;

    open spec fn view(&self) -> AppAccountRecord {
        *self
    }
}

impl AppAccountRecord {
    /// The record of an account that has done nothing.
    pub open spec fn blank() -> AppAccountRecord {
        AppAccountRecord {
            comment: KPCommentAccountRecord { count: 0, fees: 0, positive_count: 0 },
            attend_power: 0,
            accumulation: DocumentPower { attend: 0, content: 0, judge: 0 },
        }
    }

    /// The record of an account that has done nothing.
    pub fn new() -> (record: AppAccountRecord)
        ensures
            record == AppAccountRecord::blank(),
    {
        AppAccountRecord {
            comment: KPCommentAccountRecord { count: 0, fees: 0, positive_count: 0 },
            attend_power: 0,
            accumulation: DocumentPower { attend: 0, content: 0, judge: 0 },
        }
    }
}

/// What is kept for one account over all applications.
#[derive(Clone, Copy, Debug, Default, PartialEq, Eq, Structural)]
pub struct AccountRecord {
    /// The account's miner power.
    pub power: PowerSize,
    pub statistics: AccountStatistics,
}

impl View for AccountRecord {
    type V = AccountRecord;

    open spec fn view(&self) -> AccountRecord {
        *self
    }
}

impl AccountRecord {
    /// The record of an account that has done nothing.
    pub open spec fn blank() -> AccountRecord {
        AccountRecord {
            power: 0,
            statistics: AccountStatistics {
                create_commodity_num: 0,
                slash_commodity_num: 0,
                slash_kp_total: 0,
                comment_num: 0,
                comment_cost_total: 0,
                comment_cost_max: 0,
                comment_positive_trend_num: 0,
                comment_negative_trend_num: 0,
            },
        }
    }

    /// The record of an account that has done nothing.
    pub fn new() -> (record: AccountRecord)
        ensures
            record == AccountRecord::blank(),
    {
        AccountRecord {
            power: 0,
            statistics: AccountStatistics {
                create_commodity_num: 0,
                slash_commodity_num: 0,
                slash_kp_total: 0,
                comment_num: 0,
                comment_cost_total: 0,
                comment_cost_max: 0,
                comment_positive_trend_num: 0,
                comment_negative_trend_num: 0,
            },
        }
    }
}

/// A list of identifiers, in the order in which they were added.
#[derive(Clone, Debug, Default)]
pub struct IdList {
    ids: Vec<Vec<u8>>,
}

impl View for IdList {
    type V = Seq<Seq<u8>>;

    closed spec fn view(&self) -> Seq<Seq<u8>> {
        self.ids@.map_values(|id: Vec<u8>| id@)
    }
}

impl IdList {
    /// An empty list.
    pub fn new() -> (list: IdList)
        ensures
            list@ == Seq::<Seq<u8>>::empty(),
    {
        let list = IdList { ids: Vec::new() };
        assert(list@ =~= Seq::<Seq<u8>>::empty());
        list
    }

    /// The number of identifiers.
    pub fn len(&self) -> (n: usize)
        ensures
            n == self@.len(),
    {
        self.ids.len()
    }

    /// The identifier at place `i`.
    pub fn get(&self, i: usize) -> (id: &Vec<u8>)
        requires
            i < self@.len(),
        ensures
            id@ == self@[i as int],
    {
        &self.ids[i]
    }

    /// Adds `id` at the end.
    pub fn push(&mut self, id: Vec<u8>)
        ensures
            final(self)@ == old(self)@.push(id@),
    {
        let ghost before = self@;
        self.ids.push(id);
        assert(self@ =~= before.push(id@));
    }

    /// Whether `id` is in the list.
    pub fn contains(&self, id: &Vec<u8>) -> (found: bool)
        ensures
            found == self@.contains(id@),
    {
        let mut i: usize = 0;
        while i < self.ids.len()
            invariant
                i <= self.ids@.len(),
                self@.len() == self.ids@.len(),
                forall|j: int| 0 <= j < i ==> self@[j] != id@,
            decreases self.ids@.len() - i,
        {
            if bytes_eq(&self.ids[i], id) {
                assert(self@[i as int] == id@);
                return true;
            }
            i += 1;
        }
        false
    }

    /// The identifiers as plain byte strings.
    pub fn to_vec(&self) -> (ids: Vec<Vec<u8>>)
        ensures
            ids@.len() == self@.len(),
            forall|i: int| 0 <= i < ids@.len() ==> (#[trigger] ids@[i])@ == self@[i],
    {
        let mut ids: Vec<Vec<u8>> = Vec::new();
        let mut i: usize = 0;
        while i < self.ids.len()
            invariant
                i <= self.ids@.len(),
                self@.len() == self.ids@.len(),
                ids@.len() == i,
                forall|j: int| 0 <= j < i ==> (#[trigger] ids@[j])@ == self@[j],
            decreases self.ids@.len() - i,
        {
            ids.push(bytes_clone(&self.ids[i]));
            i += 1;
        }
        ids
    }
}

/// One comment in the pool of a document: who wrote it, which comment of
/// the document it was, and what it cost.
#[derive(Clone, Debug, Default)]
pub struct CommentWeightData {
    pub account: Vec<u8>,
    pub position: u64,
    pub cash_cost: PowerSize,
}

/// The model of a comment in a pool.
pub struct CommentWeightView {
    pub account: Seq<u8>,
    pub position: u64,
    pub cash_cost: PowerSize,
}

impl View for CommentWeightData {
    type V = CommentWeightView;

    open spec fn view(&self) -> CommentWeightView {
        CommentWeightView {
            account: self.account@,
            position: self.position,
            cash_cost: self.cash_cost,
        }
    }
}

/// The comments of one document, oldest first.
#[derive(Clone, Debug, Default)]
pub struct CommentPool {
    items: Vec<CommentWeightData>,
}

impl View for CommentPool {
    type V = Seq<CommentWeightView>;

    closed spec fn view(&self) -> Seq<CommentWeightView> {
        self.items@.map_values(|c: CommentWeightData| c@)
    }
}

impl CommentPool {
    /// A pool without comments.
    pub fn new() -> (pool: CommentPool)
        ensures
            pool@ == Seq::<CommentWeightView>::empty(),
    {
        let pool = CommentPool { items: Vec::new() };
        assert(pool@ =~= Seq::<CommentWeightView>::empty());
        pool
    }

    /// The number of comments.
    pub fn len(&self) -> (n: usize)
        ensures
            n == self@.len(),
    {
        self.items.len()
    }

    /// The comment at place `i`.
    pub fn get(&self, i: usize) -> (item: &CommentWeightData)
        requires
            i < self@.len(),
        ensures
            item@ == self@[i as int],
    {
        &self.items[i]
    }

    /// Copies of the comments, oldest first.
    pub fn to_vec(&self) -> (items: Vec<CommentWeightData>)
        ensures
            items@.len() == self@.len(),
            forall|i: int| 0 <= i < items@.len() ==> (#[trigger] items@[i])@ == self@[i],
    {
        let mut items: Vec<CommentWeightData> = Vec::new();
        let mut i: usize = 0;
        while i < self.items.len()
            invariant
                i <= self.items@.len(),
                self@.len() == self.items@.len(),
                items@.len() == i,
                forall|j: int| 0 <= j < i ==> (#[trigger] items@[j])@ == self@[j],
            decreases self.items@.len() - i,
        {
            items.push(
                CommentWeightData {
                    account: bytes_clone(&self.items[i].account),
                    position: self.items[i].position,
                    cash_cost: self.items[i].cash_cost,
                },
            );
            i += 1;
        }
        items
    }

    /// Adds `item` at the end.
    pub fn push(&mut self, item: CommentWeightData)
        ensures
            final(self)@ == old(self)@.push(item@),
    {
        let ghost before = self@;
        self.items.push(item);
        assert(self@ =~= before.push(item@));
    }
}

/// A place on a leader board as a draw records it.
#[derive(Clone, Debug, Default)]
pub struct LeaderBoardItem {
    pub cart_id: Vec<u8>,
    pub power: PowerSize,
    pub owner: Vec<u8>,
}

impl View for LeaderBoardItem {
    type V = LeaderView;

    open spec fn view(&self) -> LeaderView {
        LeaderView { cart_id: self.cart_id@, power: self.power, owner: self.owner@ }
    }
}

/// What a draw over a leader board left: the places that took part and the
/// accounts that won.
#[derive(Clone, Debug, Default)]
pub struct LeaderBoardResult {
    pub accounts: Vec<Vec<u8>>,
    pub board: Vec<LeaderBoardItem>,
}

/// The model of the record of a draw.
pub struct LeaderBoardResultView {
    pub accounts: Seq<Seq<u8>>,
    pub board: Seq<LeaderView>,
}

impl View for LeaderBoardResult {
    type V = LeaderBoardResultView;

    open spec fn view(&self) -> LeaderBoardResultView {
        LeaderBoardResultView {
            accounts: self.accounts@.map_values(|a: Vec<u8>| a@),
            board: self.board@.map_values(|i: LeaderBoardItem| i@),
        }
    }
}

impl LeaderBoardResultView {
    /// The record of a draw that never took place.
    pub open spec fn blank() -> LeaderBoardResultView {
        LeaderBoardResultView { accounts: Seq::empty(), board: Seq::empty() }
    }
}

impl LeaderBoardResult {
    /// The record of a draw that never took place.
    pub fn new() -> (result: LeaderBoardResult)
        ensures
            result@ == LeaderBoardResultView::blank(),
    {
        let result = LeaderBoardResult { accounts: Vec::new(), board: Vec::new() };
        assert(result@.accounts =~= Seq::<Seq<u8>>::empty());
        assert(result@.board =~= Seq::<LeaderView>::empty());
        result
    }

    /// A copy with the same model.
    pub fn duplicate(&self) -> (copy: LeaderBoardResult)
        ensures
            copy@ == self@,
    {
        let mut accounts: Vec<Vec<u8>> = Vec::new();
        let mut i: usize = 0;
        while i < self.accounts.len()
            invariant
                i <= self.accounts@.len(),
                accounts@.len() == i,
                forall|j: int| 0 <= j < i ==> accounts@[j]@ == self.accounts@[j]@,
            decreases self.accounts@.len() - i,
        {
            accounts.push(bytes_clone(&self.accounts[i]));
            i += 1;
        }
        let mut board: Vec<LeaderBoardItem> = Vec::new();
        let mut k: usize = 0;
        while k < self.board.len()
            invariant
                k <= self.board@.len(),
                board@.len() == k,
                forall|j: int| 0 <= j < k ==> board@[j]@ == self.board@[j]@,
            decreases self.board@.len() - k,
        {
            board.push(
                LeaderBoardItem {
                    cart_id: bytes_clone(&self.board[k].cart_id),
                    power: self.board[k].power,
                    owner: bytes_clone(&self.board[k].owner),
                },
            );
            k += 1;
        }
        let copy = LeaderBoardResult { accounts, board };
        assert(copy@.accounts =~= self@.accounts);
        assert(copy@.board =~= self@.board);
        copy
    }
}

impl CommodityLeaderBoardData {
    /// The entry as a draw records it.
    pub fn to_item(&self) -> (item: LeaderBoardItem)
        ensures
            item@ == self@,
    {
        LeaderBoardItem {
            cart_id: bytes_clone(&self.cart_id),
            power: self.power,
            owner: bytes_clone(&self.owner),
        }
    }
}

/// What names the record of a draw: the application, the block of the
/// draw, and the model (empty for the board of the whole application).
#[derive(Clone, Debug, Default)]
pub struct RecordKey {
    pub app_id: u32,
    pub block: u64,
    pub model_id: Vec<u8>,
}

impl View for RecordKey {
    type V = (u32, u64, Seq<u8>);

    open spec fn view(&self) -> (u32, u64, Seq<u8>) {
        (self.app_id, self.block, self.model_id@)
    }
}

impl Key for RecordKey {
    fn same(&self, other: &Self) -> (same: bool) {
        self.app_id == other.app_id && self.block == other.block && bytes_eq(
            &self.model_id,
            &other.model_id,
        )
    }

    fn duplicate(&self) -> (copy: Self) {
        RecordKey {
            app_id: self.app_id,
            block: self.block,
            model_id: bytes_clone(&self.model_id),
        }
    }
}

} // verus!
