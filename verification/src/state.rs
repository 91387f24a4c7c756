//! The state of the engine and its mathematical model.

use vstd::prelude::*;
use crate::commodity_type::{types_in_order, CommodityTypes};
use crate::config::Config;
use crate::leaderboard::{distinct_carts, on_board, ranked, LeaderBoard, LeaderView};
use crate::ledger::{live, power_sum};
use crate::maxima::CommentMaxRecord;
use crate::power::{CommodityPowerSet, DocumentPower, PowerSize, PowerSum};
use crate::records::{
    AccountRecord, AppAccountRecord, AppRecord, CommentPool, CommentWeightView, IdList,
    LeaderBoardResult, LeaderBoardResultView, RecordKey,
};
use crate::table::{ScopedId, Table};
use crate::types::{
    CommentView, DocumentView, KPCommentData, KPDocumentData, KPModelData, ModelView,
};

verus! {

/// The value of `m` at `k`, or `default` where `m` has none.
pub open spec fn lookup<K, V>(m: Map<K, V>, k: K, default: V) -> V {
    if m.dom().contains(k) {
        m[k]
    } else {
        default
    }
}

/// `a - b`, or zero where `b` is the larger.
pub open spec fn minus(a: nat, b: nat) -> nat {
    if a >= b {
        (a - b) as nat
    } else {
        0
    }
}

/// The model of the engine: every table as a map from its key.
pub struct StateView {
    pub config: Config,
    /// The power of all commodities that were not slashed.
    pub total_power: nat,
    /// By application.
    pub apps: Map<u32, AppRecord>,
    /// By account.
    pub accounts: Map<Seq<u8>, AccountRecord>,
    /// By application and account.
    pub app_accounts: Map<(u32, Seq<u8>), AppAccountRecord>,
    pub account_commodity_set: Map<(u32, Seq<u8>), Seq<Seq<u8>>>,
    pub account_document_set: Map<(u32, Seq<u8>), Seq<Seq<u8>>>,
    /// By application and document.
    pub documents: Map<(u32, Seq<u8>), DocumentView>,
    pub document_powers: Map<(u32, Seq<u8>), DocumentPower>,
    pub comment_power_base: Map<(u32, Seq<u8>), CommentMaxRecord>,
    pub comment_pools: Map<(u32, Seq<u8>), Seq<CommentWeightView>>,
    pub misc_document_powers: Map<(u32, Seq<u8>), PowerSize>,
    /// By application and product: the publish document of the product.
    pub product_index: Map<(u32, Seq<u8>), Seq<u8>>,
    /// By application and cart: the identify and the try document of the
    /// cart, its powers, and whether it was slashed.
    pub cart_identify_index: Map<(u32, Seq<u8>), Seq<u8>>,
    pub cart_try_index: Map<(u32, Seq<u8>), Seq<u8>>,
    pub purchase_powers: Map<(u32, Seq<u8>), CommodityPowerSet>,
    pub purchase_black_list: Map<(u32, Seq<u8>), bool>,
    /// By application and model.
    pub models: Map<(u32, Seq<u8>), ModelView>,
    pub leader_boards: Map<(u32, Seq<u8>), Seq<LeaderView>>,
    pub app_model_commodity_count: Map<(u32, Seq<u8>), u32>,
    pub leader_board_last_time: Map<(u32, Seq<u8>), u64>,
    /// By application and comment.
    pub comments: Map<(u32, Seq<u8>), CommentView>,
    /// By application, block and model.
    pub leader_board_records: Map<(u32, u64, Seq<u8>), LeaderBoardResultView>,
    pub leader_board_sequence_keys: Seq<(u32, u64, Seq<u8>)>,
    /// The kinds of commodity, in the order of their identifiers.
    pub commodity_types: Seq<(u32, Seq<u8>)>,
    /// By application and kind of commodity: whether a model was made for
    /// the kind.
    pub model_first_type_benefit: Map<(u32, u32), bool>,
}

impl StateView {
    /// The state of an engine to which nothing was submitted.
    pub open spec fn empty(config: Config) -> StateView {
        StateView {
            config,
            total_power: 0,
            apps: Map::empty(),
            accounts: Map::empty(),
            app_accounts: Map::empty(),
            account_commodity_set: Map::empty(),
            account_document_set: Map::empty(),
            documents: Map::empty(),
            document_powers: Map::empty(),
            comment_power_base: Map::empty(),
            comment_pools: Map::empty(),
            misc_document_powers: Map::empty(),
            product_index: Map::empty(),
            cart_identify_index: Map::empty(),
            cart_try_index: Map::empty(),
            purchase_powers: Map::empty(),
            purchase_black_list: Map::empty(),
            models: Map::empty(),
            leader_boards: Map::empty(),
            app_model_commodity_count: Map::empty(),
            leader_board_last_time: Map::empty(),
            comments: Map::empty(),
            leader_board_records: Map::empty(),
            leader_board_sequence_keys: Seq::empty(),
            commodity_types: Seq::empty(),
            model_first_type_benefit: Map::empty(),
        }
    }

    /// Whether the commodity was slashed.
    pub open spec fn is_slashed(self, key: (u32, Seq<u8>)) -> bool {
        self.purchase_black_list.dom().contains(key)
    }

    /// The powers of a commodity; zero where none are stored.
    pub open spec fn power_set(self, key: (u32, Seq<u8>)) -> CommodityPowerSet {
        lookup(self.purchase_powers, key, CommodityPowerSet::zero())
    }

    /// The power of a commodity.
    pub open spec fn commodity_power(self, key: (u32, Seq<u8>)) -> PowerSize {
        self.power_set(key).total_of()
    }

    /// The leader board of a scope; empty where none is stored.
    pub open spec fn board(self, key: (u32, Seq<u8>)) -> Seq<LeaderView> {
        lookup(self.leader_boards, key, Seq::empty())
    }

    /// The record of an application.
    pub open spec fn app(self, app_id: u32) -> AppRecord {
        lookup(self.apps, app_id, AppRecord::blank())
    }

    /// The record of an account within an application.
    pub open spec fn app_account(self, key: (u32, Seq<u8>)) -> AppAccountRecord {
        lookup(self.app_accounts, key, AppAccountRecord::blank())
    }

    /// The record of an account.
    pub open spec fn account(self, account: Seq<u8>) -> AccountRecord {
        lookup(self.accounts, account, AccountRecord::blank())
    }

    /// The stored document, or the blank document.
    pub open spec fn document(self, key: (u32, Seq<u8>)) -> DocumentView {
        lookup(self.documents, key, DocumentView::blank())
    }

    /// The stored power of a document, or no power.
    pub open spec fn document_power(self, key: (u32, Seq<u8>)) -> DocumentPower {
        lookup(self.document_powers, key, DocumentPower { attend: 0, content: 0, judge: 0 })
    }

    /// The model under which a product was published: that of its publish
    /// document, if the product and the document are known.
    pub open spec fn model_of_product(self, app_id: u32, product_id: Seq<u8>) -> Option<Seq<u8>> {
        if !self.product_index.dom().contains((app_id, product_id)) {
            None
        } else if !self.documents.dom().contains((app_id, self.product_index[(app_id, product_id)])) {
            None
        } else {
            Some(self.documents[(app_id, self.product_index[(app_id, product_id)])].model_id)
        }
    }

    /// Every leader board is in order, without repeats and within the
    /// configured number of places.
    pub open spec fn boards_in_order(self) -> bool {
        forall|key: (u32, Seq<u8>)| #[trigger]
            self.leader_boards.dom().contains(key) ==> {
                &&& ranked(self.leader_boards[key])
                &&& distinct_carts(self.leader_boards[key])
                &&& self.leader_boards[key].len() <= self.config.app_leader_board_max_pos
            }
    }

    /// The total power is the sum of the powers of the commodities that
    /// were not slashed, and a slashed commodity has no power.
    pub open spec fn powers_add_up(self) -> bool {
        &&& self.purchase_powers.dom().finite()
        &&& self.total_power == power_sum(
            live(self.purchase_powers, self.purchase_black_list.dom()),
        )
        &&& forall|key: (u32, Seq<u8>)|
            self.purchase_black_list.dom().contains(key) && #[trigger]
            self.purchase_powers.dom().contains(key) ==> self.purchase_powers[key].total_of() == 0
    }

    /// No slashed commodity holds a place on a leader board of its
    /// application.
    pub open spec fn slashed_off_boards(self) -> bool {
        forall|key: (u32, Seq<u8>), i: int|
            self.leader_boards.dom().contains(key) && 0 <= i < self.leader_boards[key].len()
                ==> !self.is_slashed((key.0, (#[trigger] self.leader_boards[key][i]).cart_id))
    }

    /// No place on a leader board of the application `app_id` is held by
    /// `cart_id`.
    pub open spec fn off_boards(self, app_id: u32, cart_id: Seq<u8>) -> bool {
        forall|model_id: Seq<u8>| !on_board(#[trigger] self.board((app_id, model_id)), cart_id)
    }

    /// What holds of every state that the engine reaches.
    pub open spec fn consistent(self) -> bool {
        &&& self.boards_in_order()
        &&& self.powers_add_up()
        &&& self.slashed_off_boards()
        &&& types_in_order(self.commodity_types)
    }
}

/// The engine: all that was submitted so far and the powers that follow
/// from it.
pub struct Module {
    pub(crate) config: Config,
    pub(crate) total_power: u128,
    pub(crate) apps: Table<u32, AppRecord>,
    pub(crate) accounts: Table<Vec<u8>, AccountRecord>,
    pub(crate) app_accounts: Table<ScopedId, AppAccountRecord>,
    pub(crate) account_commodity_set: Table<ScopedId, IdList>,
    pub(crate) account_document_set: Table<ScopedId, IdList>,
    pub(crate) documents: Table<ScopedId, KPDocumentData>,
    pub(crate) document_powers: Table<ScopedId, DocumentPower>,
    pub(crate) comment_power_base: Table<ScopedId, CommentMaxRecord>,
    pub(crate) comment_pools: Table<ScopedId, CommentPool>,
    pub(crate) misc_document_powers: Table<ScopedId, PowerSize>,
    pub(crate) product_index: Table<ScopedId, Vec<u8>>,
    pub(crate) cart_identify_index: Table<ScopedId, Vec<u8>>,
    pub(crate) cart_try_index: Table<ScopedId, Vec<u8>>,
    pub(crate) purchase_powers: Table<ScopedId, CommodityPowerSet>,
    pub(crate) purchase_black_list: Table<ScopedId, bool>,
    pub(crate) models: Table<ScopedId, KPModelData>,
    pub(crate) leader_boards: Table<ScopedId, LeaderBoard>,
    pub(crate) app_model_commodity_count: Table<ScopedId, u32>,
    pub(crate) leader_board_last_time: Table<ScopedId, u64>,
    pub(crate) comments: Table<ScopedId, KPCommentData>,
    pub(crate) leader_board_records: Table<RecordKey, LeaderBoardResult>,
    pub(crate) leader_board_sequence_keys: Vec<RecordKey>,
    pub(crate) commodity_types: CommodityTypes,
    pub(crate) model_first_type_benefit: Table<(u32, u32), bool>,
}

impl View for Module {
    type V = StateView;

    open(crate) spec fn view(&self) -> StateView {
        StateView {
            config: self.config,
            total_power: self.total_power as nat,
            apps: self.apps@,
            accounts: self.accounts@,
            app_accounts: self.app_accounts@,
            account_commodity_set: self.account_commodity_set@,
            account_document_set: self.account_document_set@,
            documents: self.documents@,
            document_powers: self.document_powers@,
            comment_power_base: self.comment_power_base@,
            comment_pools: self.comment_pools@,
            misc_document_powers: self.misc_document_powers@,
            product_index: self.product_index@,
            cart_identify_index: self.cart_identify_index@,
            cart_try_index: self.cart_try_index@,
            purchase_powers: self.purchase_powers@,
            purchase_black_list: self.purchase_black_list@,
            models: self.models@,
            leader_boards: self.leader_boards@,
            app_model_commodity_count: self.app_model_commodity_count@,
            leader_board_last_time: self.leader_board_last_time@,
            comments: self.comments@,
            leader_board_records: self.leader_board_records@,
            leader_board_sequence_keys: self.leader_board_sequence_keys@.map_values(
                |k: RecordKey| k@,
            ),
            commodity_types: self.commodity_types@,
            model_first_type_benefit: self.model_first_type_benefit@,
        }
    }
}

impl Module {
    /// Every table is a map.
    pub open(crate) spec fn tables_wf(&self) -> bool {
        &&& self.apps.wf()
        &&& self.accounts.wf()
        &&& self.app_accounts.wf()
        &&& self.account_commodity_set.wf()
        &&& self.account_document_set.wf()
        &&& self.documents.wf()
        &&& self.document_powers.wf()
        &&& self.comment_power_base.wf()
        &&& self.comment_pools.wf()
        &&& self.misc_document_powers.wf()
        &&& self.product_index.wf()
        &&& self.cart_identify_index.wf()
        &&& self.cart_try_index.wf()
        &&& self.purchase_powers.wf()
        &&& self.purchase_black_list.wf()
        &&& self.models.wf()
        &&& self.leader_boards.wf()
        &&& self.app_model_commodity_count.wf()
        &&& self.leader_board_last_time.wf()
        &&& self.comments.wf()
        &&& self.leader_board_records.wf()
        &&& self.model_first_type_benefit.wf()
    }

    /// The engine is well formed: its tables are maps and its model is
    /// consistent.
    pub open(crate) spec fn wf(&self) -> bool {
        self.tables_wf() && self@.consistent()
    }

    /// An engine to which nothing was submitted.
    pub fn new(config: Config) -> (engine: Module)
        ensures
            engine.wf(),
            engine@ == StateView::empty(config),
    {
        let engine = Module {
            config,
            total_power: 0,
            apps: Table::new(),
            accounts: Table::new(),
            app_accounts: Table::new(),
            account_commodity_set: Table::new(),
            account_document_set: Table::new(),
            documents: Table::new(),
            document_powers: Table::new(),
            comment_power_base: Table::new(),
            comment_pools: Table::new(),
            misc_document_powers: Table::new(),
            product_index: Table::new(),
            cart_identify_index: Table::new(),
            cart_try_index: Table::new(),
            purchase_powers: Table::new(),
            purchase_black_list: Table::new(),
            models: Table::new(),
            leader_boards: Table::new(),
            app_model_commodity_count: Table::new(),
            leader_board_last_time: Table::new(),
            comments: Table::new(),
            leader_board_records: Table::new(),
            leader_board_sequence_keys: Vec::new(),
            commodity_types: CommodityTypes::new(),
            model_first_type_benefit: Table::new(),
        };
        proof {
            let m = engine@.purchase_powers;
            assert(live(m, engine@.purchase_black_list.dom()) =~= m);
            assert(m.dom() =~= Set::<(u32, Seq<u8>)>::empty());
            assert(m.dom().len() == 0);
            assert(power_sum(m) == 0);
            assert(engine@.leader_board_sequence_keys =~= Seq::<(u32, u64, Seq<u8>)>::empty());
        }
        engine
    }

    /// The configuration that the engine was made with.
    pub fn config(&self) -> (config: Config)
        ensures
            config == self@.config,
    {
        self.config
    }
}

} // verus!
