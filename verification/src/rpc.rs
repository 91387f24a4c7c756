//! The query surface for remote callers: a handle on an engine that
//! answers the power queries.

use std::marker::PhantomData;
use std::sync::Arc;
use vstd::prelude::*;
use vstd::std_specs::convert::FromSpecImpl;
use crate::leaderboard::LeaderView;
use crate::bytes::bytes_clone;
use crate::power::PowerSize;
use crate::records::{LeaderBoardResult, LeaderBoardResultView};
use crate::state::{lookup, Module};

verus! {

/// What names a commodity in a query.
#[derive(Clone, Debug, Default)]
pub struct QueryCommodityPowerParams {
    pub app_id: u32,
    pub cart_id: Vec<u8>,
}

/// What names the record of a draw in a query.
#[derive(Clone, Debug, Default)]
pub struct QueryLeaderBoardParams {
    pub app_id: u32,
    pub model_id: Vec<u8>,
    pub block: u32,
}

/// A place on a leader board as a query reports it.
#[derive(Clone, Debug, Default)]
pub struct LeaderBoardItemRPC {
    pub cart_id: Vec<u8>,
    pub power: PowerSize,
    pub owner: Vec<u8>,
}

impl View for LeaderBoardItemRPC {
    type V = LeaderView;

    open spec fn view(&self) -> LeaderView {
        LeaderView { cart_id: self.cart_id@, power: self.power, owner: self.owner@ }
    }
}

/// The record of a draw as a query reports it.
#[derive(Clone, Debug, Default)]
pub struct LeaderBoardResultRPC {
    pub accounts: Vec<Vec<u8>>,
    pub board: Vec<LeaderBoardItemRPC>,
}

impl View for LeaderBoardResultRPC {
    type V = LeaderBoardResultView;

    open spec fn view(&self) -> LeaderBoardResultView {
        LeaderBoardResultView {
            accounts: self.accounts@.map_values(|a: Vec<u8>| a@),
            board: self.board@.map_values(|i: LeaderBoardItemRPC| i@),
        }
    }
}

/// Why a query failed.
#[derive(Clone, Copy, Debug, PartialEq, Eq, Structural)]
pub enum Error {
    /// The query could not be read.
    DecodeError,
    /// The engine could not be asked.
    RuntimeError,
}

/// The number that stands for an error.
pub open spec fn error_code(e: Error) -> i64 {
    match e {
        Error::RuntimeError => 1,
        Error::DecodeError => 2,
    }
}

impl From<Error> for i64 {
    fn from(e: Error) -> (code: i64) {
        match e {
            Error::RuntimeError => 1,
            Error::DecodeError => 2,
        }
    }
}

impl FromSpecImpl<Error> for i64 {
    open spec fn obeys_from_spec() -> bool {
        true
    }

    open spec fn from_spec(e: Error) -> i64 {
        error_code(e)
    }
}

/// A handle that answers queries from the client `C`; `M` marks the kind
/// of block that the caller counts in.
pub struct Kp<C, M> {
    client: Arc<C>,
    _marker: PhantomData<M>,
}

impl<C, M> Kp<C, M> {
    /// The client that the handle asks.
    pub closed spec fn client(&self) -> C {
        *self.client
    }

    /// A handle on `client`.
    pub fn new(client: Arc<C>) -> (kp: Self)
        ensures
            kp.client() == *client,
    {
        Kp { client, _marker: PhantomData }
    }
}

impl<M> Kp<Module, M> {
    /// The power of all commodities that were not slashed.
    pub fn total_power(&self) -> (power: u128)
        requires
            self.client().wf(),
        ensures
            power == self.client()@.total_power,
    {
        self.client.kp_total_power()
    }

    /// The miner power of an account.
    pub fn account_power(&self, account: Vec<u8>) -> (power: PowerSize)
        requires
            self.client().wf(),
        ensures
            power == self.client()@.account(account@).power,
    {
        self.client.kp_auth_account_power(account)
    }

    /// The power of a commodity.
    pub fn commodity_power(&self, query: QueryCommodityPowerParams) -> (power: PowerSize)
        requires
            self.client().wf(),
        ensures
            power == self.client()@.commodity_power((query.app_id, query.cart_id@)),
    {
        let QueryCommodityPowerParams { app_id, cart_id } = query;
        self.client.kp_commodity_power(app_id, cart_id)
    }

    /// Whether powers are stored for a commodity.
    pub fn is_commodity_power_exist(&self, query: QueryCommodityPowerParams) -> (exists: bool)
        requires
            self.client().wf(),
        ensures
            exists == self.client()@.purchase_powers.dom().contains(
                (query.app_id, query.cart_id@),
            ),
    {
        let QueryCommodityPowerParams { app_id, cart_id } = query;
        self.client.kp_is_commodity_power_exist(app_id, cart_id)
    }

    /// The record of a draw; the blank record if there was none.
    pub fn leader_board_result(&self, query: QueryLeaderBoardParams) -> (result:
        LeaderBoardResultRPC)
        requires
            self.client().wf(),
        ensures
            result@ == lookup(
                self.client()@.leader_board_records,
                (query.app_id, query.block as u64, query.model_id@),
                LeaderBoardResultView::blank(),
            ),
    {
        let QueryLeaderBoardParams { app_id, model_id, block } = query;
        let record: LeaderBoardResult = self.client.leader_board_result(block, app_id, model_id);
        let LeaderBoardResult { accounts, board } = record;
        let ghost places = board@;
        let mut items: Vec<LeaderBoardItemRPC> = Vec::new();
        let mut i: usize = 0;
        let n: usize = board.len();
        while i < n
            invariant
                i <= n,
                n == places.len(),
                board@ == places,
                items@.len() == i,
                forall|j: int| 0 <= j < i ==> (#[trigger] items@[j])@ == places[j]@,
            decreases n - i,
        {
            items.push(
                LeaderBoardItemRPC {
                    cart_id: bytes_clone(&board[i].cart_id),
                    power: board[i].power,
                    owner: bytes_clone(&board[i].owner),
                },
            );
            i += 1;
        }
        let result = LeaderBoardResultRPC { accounts, board: items };
        proof {
            assert(result@.board =~= record@.board);
        }
        result
    }
}

} // verus!
