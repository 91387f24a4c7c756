//! Knowledge power: a deterministic reputation score for the accounts of a
//! marketplace, computed from the documents and comments that they submit.
//!
//! The engine ([`Module`]) takes submissions in, keeps the power of every
//! document, commodity and account, ranks the commodities on leader
//! boards, holds reproducible draws over them, and slashes commodities.
//! Its mathematical model is [`StateView`]; every operation of the engine
//! is stated as a function of that model.

pub mod bytes;
pub mod comment;
pub mod commodity;
pub mod commodity_type;
pub mod config;
pub mod dispatch;
pub mod document;
pub mod income;
pub mod laws;
pub mod leaderboard;
pub mod ledger;
pub mod lottery;
pub mod math;
pub mod maxima;
pub mod model;
pub mod power;
pub mod query;
pub mod records;
pub mod rpc;
pub mod signature;
pub mod state;
pub mod table;
pub mod types;
pub mod vote;

pub use commodity_type::CommodityTypeData;
pub use config::Config;
pub use dispatch::{
    Authority, ClientParamsCreateChooseDoc, ClientParamsCreateIdentifyDoc,
    ClientParamsCreateModelDoc, ClientParamsCreatePublishDoc, ClientParamsCreateTryDoc, KpError,
};
pub use income::{ModelIncomeCurrentStage, ModelIncomeStage};
pub use leaderboard::{CommodityLeaderBoardData, LeaderBoard, LeaderBoardIndex};
pub use maxima::{
    CommentMaxRecord, KPModelCreateDataMax, KPProductChooseDataMax, KPProductIdentifyRateMax,
    KPProductPublishRateMax, KPProductTryRateMax,
};
pub use model::{AuthParamsCreateModel, ClientParamsCreateModel};
pub use power::{CommodityPowerSet, DocumentPower, PowerSize, PowerSum};
pub use records::{CommentWeightData, LeaderBoardItem, LeaderBoardResult};
pub use rpc::{
    Error, Kp, LeaderBoardItemRPC, LeaderBoardResultRPC, QueryCommodityPowerParams,
    QueryLeaderBoardParams,
};
pub use signature::{verify_sign, Signed};
pub use state::{Module, StateView};
pub use types::{
    AccountStatistics, CommentData, CommentTrend, DocumentPowerInfo, DocumentSpecificData,
    DocumentType, KPCommentAccountRecord, KPCommentData, KPDocumentData, KPModelCreateData,
    KPModelData, KPProductChooseData, KPProductIdentifyData, KPProductPublishData,
    KPProductTryData, ModelDisputeType, ModelStatus,
};
pub use vote::PowerVote;
