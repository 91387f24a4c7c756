//! Documents, comments, models and the tags that classify them.

use vstd::prelude::*;
use vstd::std_specs::convert::FromSpecImpl;
use crate::bytes::bytes_clone;
use crate::power::PowerSize;

verus! {

/// Whether a model takes part in the market.
#[derive(Clone, Copy, Debug, PartialEq, Eq, Structural)]
pub enum ModelStatus {
    ENABLED,
    DISABLED,
}

impl Default for ModelStatus {
    fn default() -> (status: ModelStatus)
        ensures
            status == ModelStatus::ENABLED,
    {
        ModelStatus::ENABLED
    }
}

impl From<u8> for ModelStatus {
    fn from(orig: u8) -> (status: ModelStatus) {
        match orig {
            0 => ModelStatus::ENABLED,
            1 => ModelStatus::DISABLED,
            _ => ModelStatus::ENABLED,
        }
    }
}

impl FromSpecImpl<u8> for ModelStatus {
    open spec fn obeys_from_spec() -> bool {
        true
    }

    open spec fn from_spec(orig: u8) -> ModelStatus {
        if orig == 1 {
            ModelStatus::DISABLED
        } else {
            ModelStatus::ENABLED
        }
    }
}

/// The kind of a document.
#[derive(Clone, Copy, Debug, PartialEq, Eq, Structural)]
pub enum DocumentType {
    ProductPublish,
    ProductIdentify,
    ProductTry,
    ProductChoose,
    ModelCreate,
    Unknown,
}

impl Default for DocumentType {
    fn default() -> (kind: DocumentType)
        ensures
            kind == DocumentType::ProductPublish,
    {
        DocumentType::ProductPublish
    }
}

impl From<u8> for DocumentType {
    fn from(orig: u8) -> (kind: DocumentType) {
        match orig {
            0 => DocumentType::ProductPublish,
            1 => DocumentType::ProductIdentify,
            2 => DocumentType::ProductTry,
            3 => DocumentType::ProductChoose,
            4 => DocumentType::ModelCreate,
            _ => DocumentType::Unknown,
        }
    }
}

impl FromSpecImpl<u8> for DocumentType {
    open spec fn obeys_from_spec() -> bool {
        true
    }

    open spec fn from_spec(orig: u8) -> DocumentType {
        if orig == 0 {
            DocumentType::ProductPublish
        } else if orig == 1 {
            DocumentType::ProductIdentify
        } else if orig == 2 {
            DocumentType::ProductTry
        } else if orig == 3 {
            DocumentType::ProductChoose
        } else if orig == 4 {
            DocumentType::ModelCreate
        } else {
            DocumentType::Unknown
        }
    }
}

impl From<DocumentType> for u8 {
    fn from(orig: DocumentType) -> (code: u8) {
        match orig {
            DocumentType::ProductPublish => 0,
            DocumentType::ProductIdentify => 1,
            DocumentType::ProductTry => 2,
            DocumentType::ProductChoose => 3,
            DocumentType::ModelCreate => 4,
            DocumentType::Unknown => 5,
        }
    }
}

impl FromSpecImpl<DocumentType> for u8 {
    open spec fn obeys_from_spec() -> bool {
        true
    }

    open spec fn from_spec(orig: DocumentType) -> u8 {
        match orig {
            DocumentType::ProductPublish => 0,
            DocumentType::ProductIdentify => 1,
            DocumentType::ProductTry => 2,
            DocumentType::ProductChoose => 3,
            DocumentType::ModelCreate => 4,
            DocumentType::Unknown => 5,
        }
    }
}

/// How grave a dispute over a model is.
#[derive(Clone, Copy, Debug, PartialEq, Eq, Structural)]
pub enum ModelDisputeType {
    NoneIntendNormal,
    IntendNormal,
    Serious,
}

impl Default for ModelDisputeType {
    fn default() -> (kind: ModelDisputeType)
        ensures
            kind == ModelDisputeType::NoneIntendNormal,
    {
        ModelDisputeType::NoneIntendNormal
    }
}

/// The verdict of a comment, or of the first expert or platform member to judge a document.
#[derive(Clone, Copy, Debug, PartialEq, Eq, Structural)]
pub enum CommentTrend {
    Positive,
    Negative,
    Empty,
}

impl Default for CommentTrend {
    fn default() -> (trend: CommentTrend)
        ensures
            trend == CommentTrend::Empty,
    {
        CommentTrend::Empty
    }
}

/// The trend that the code of a comment stands for: `0` is positive, `1`
/// is negative, and any other code is no verdict.
pub open spec fn trend_of_code(code: u8) -> CommentTrend {
    if code == 0 {
        CommentTrend::Positive
    } else if code == 1 {
        CommentTrend::Negative
    } else {
        CommentTrend::Empty
    }
}

impl From<u8> for CommentTrend {
    fn from(orig: u8) -> (trend: CommentTrend) {
        match orig {
            0 => CommentTrend::Positive,
            1 => CommentTrend::Negative,
            _ => CommentTrend::Empty,
        }
    }
}

impl FromSpecImpl<u8> for CommentTrend {
    open spec fn obeys_from_spec() -> bool {
        true
    }

    open spec fn from_spec(orig: u8) -> CommentTrend {
        trend_of_code(orig)
    }
}

/// What a publish document declares.
#[derive(Clone, Copy, Debug, Default, PartialEq, Eq, Structural)]
pub struct KPProductPublishData {
    pub para_issue_rate: PowerSize,
    pub self_issue_rate: PowerSize,
}

/// What an identify document declares.
#[derive(Clone, Debug, Default)]
pub struct KPProductIdentifyData {
    pub goods_price: PowerSize,
    pub ident_rate: PowerSize,
    pub ident_consistence: PowerSize,
    pub cart_id: Vec<u8>,
}

/// What a try document declares.
#[derive(Clone, Debug, Default)]
pub struct KPProductTryData {
    pub goods_price: PowerSize,
    pub offset_rate: PowerSize,
    pub true_rate: PowerSize,
    pub cart_id: Vec<u8>,
}

/// What a choose document declares.
#[derive(Clone, Copy, Debug, Default, PartialEq, Eq, Structural)]
pub struct KPProductChooseData {
    pub sell_count: PowerSize,
    pub try_count: PowerSize,
}

/// What a model-create document declares.
#[derive(Clone, Copy, Debug, Default, PartialEq, Eq, Structural)]
pub struct KPModelCreateData {
    pub producer_count: PowerSize,
    pub product_count: PowerSize,
}

/// The payload of a document, by kind.
#[derive(Clone, Debug)]
pub enum DocumentSpecificData {
    ProductPublish(KPProductPublishData),
    ProductIdentify(KPProductIdentifyData),
    ProductTry(KPProductTryData),
    ProductChoose(KPProductChooseData),
    ModelCreate(KPModelCreateData),
}

/// The model of a document's payload. Identify and try payloads name the
/// cart that couples them.
pub enum DocumentDataView {
    ProductPublish { para_issue_rate: PowerSize, self_issue_rate: PowerSize },
    ProductIdentify {
        goods_price: PowerSize,
        ident_rate: PowerSize,
        ident_consistence: PowerSize,
        cart_id: Seq<u8>,
    },
    ProductTry {
        goods_price: PowerSize,
        offset_rate: PowerSize,
        true_rate: PowerSize,
        cart_id: Seq<u8>,
    },
    ProductChoose { sell_count: PowerSize, try_count: PowerSize },
    ModelCreate { producer_count: PowerSize, product_count: PowerSize },
}

impl View for DocumentSpecificData {
    type V = DocumentDataView;

    open spec fn view(&self) -> DocumentDataView {
        match self {
            DocumentSpecificData::ProductPublish(d) => DocumentDataView::ProductPublish {
                para_issue_rate: d.para_issue_rate,
                self_issue_rate: d.self_issue_rate,
            },
            DocumentSpecificData::ProductIdentify(d) => DocumentDataView::ProductIdentify {
                goods_price: d.goods_price,
                ident_rate: d.ident_rate,
                ident_consistence: d.ident_consistence,
                cart_id: d.cart_id@,
            },
            DocumentSpecificData::ProductTry(d) => DocumentDataView::ProductTry {
                goods_price: d.goods_price,
                offset_rate: d.offset_rate,
                true_rate: d.true_rate,
                cart_id: d.cart_id@,
            },
            DocumentSpecificData::ProductChoose(d) => DocumentDataView::ProductChoose {
                sell_count: d.sell_count,
                try_count: d.try_count,
            },
            DocumentSpecificData::ModelCreate(d) => DocumentDataView::ModelCreate {
                producer_count: d.producer_count,
                product_count: d.product_count,
            },
        }
    }
}

impl Default for DocumentSpecificData {
    fn default() -> (data: DocumentSpecificData)
        ensures
            data@ == (DocumentDataView::ProductPublish { para_issue_rate: 0, self_issue_rate: 0 }),
    {
        DocumentSpecificData::ProductPublish(
            KPProductPublishData { para_issue_rate: 0, self_issue_rate: 0 },
        )
    }
}

impl DocumentSpecificData {
    /// A copy with the same model.
    pub fn duplicate(&self) -> (copy: DocumentSpecificData)
        ensures
            copy@ == self@,
    {
        match self {
            DocumentSpecificData::ProductPublish(d) => DocumentSpecificData::ProductPublish(*d),
            DocumentSpecificData::ProductIdentify(d) => DocumentSpecificData::ProductIdentify(
                KPProductIdentifyData {
                    goods_price: d.goods_price,
                    ident_rate: d.ident_rate,
                    ident_consistence: d.ident_consistence,
                    cart_id: bytes_clone(&d.cart_id),
                },
            ),
            DocumentSpecificData::ProductTry(d) => DocumentSpecificData::ProductTry(
                KPProductTryData {
                    goods_price: d.goods_price,
                    offset_rate: d.offset_rate,
                    true_rate: d.true_rate,
                    cart_id: bytes_clone(&d.cart_id),
                },
            ),
            DocumentSpecificData::ProductChoose(d) => DocumentSpecificData::ProductChoose(*d),
            DocumentSpecificData::ModelCreate(d) => DocumentSpecificData::ModelCreate(*d),
        }
    }
}

/// A document as the ledger keeps it.
#[derive(Clone, Debug)]
pub struct KPDocumentData {
    pub app_id: u32,
    pub document_id: Vec<u8>,
    pub model_id: Vec<u8>,
    pub product_id: Vec<u8>,
    pub content_hash: Vec<u8>,
    pub sender: Vec<u8>,
    pub owner: Vec<u8>,
    pub document_type: DocumentType,
    pub document_data: DocumentSpecificData,
    pub comment_count: PowerSize,
    pub comment_total_fee: PowerSize,
    pub comment_positive_count: PowerSize,
    pub expert_trend: CommentTrend,
    pub platform_trend: CommentTrend,
}

/// The model of a document.
pub struct DocumentView {
    pub app_id: u32,
    pub document_id: Seq<u8>,
    pub model_id: Seq<u8>,
    pub product_id: Seq<u8>,
    pub content_hash: Seq<u8>,
    pub sender: Seq<u8>,
    pub owner: Seq<u8>,
    pub document_type: DocumentType,
    pub document_data: DocumentDataView,
    pub comment_count: PowerSize,
    pub comment_total_fee: PowerSize,
    pub comment_positive_count: PowerSize,
    pub expert_trend: CommentTrend,
    pub platform_trend: CommentTrend,
}

impl View for KPDocumentData {
    type V = DocumentView;

    open spec fn view(&self) -> DocumentView {
        DocumentView {
            app_id: self.app_id,
            document_id: self.document_id@,
            model_id: self.model_id@,
            product_id: self.product_id@,
            content_hash: self.content_hash@,
            sender: self.sender@,
            owner: self.owner@,
            document_type: self.document_type,
            document_data: self.document_data@,
            comment_count: self.comment_count,
            comment_total_fee: self.comment_total_fee,
            comment_positive_count: self.comment_positive_count,
            expert_trend: self.expert_trend,
            platform_trend: self.platform_trend,
        }
    }
}

impl Default for KPDocumentData {
    fn default() -> (doc: KPDocumentData)
        ensures
            doc@ == DocumentView::blank(),
    {
        KPDocumentData {
            app_id: 0,
            document_id: Vec::new(),
            model_id: Vec::new(),
            product_id: Vec::new(),
            content_hash: Vec::new(),
            sender: Vec::new(),
            owner: Vec::new(),
            document_type: DocumentType::ProductPublish,
            document_data: DocumentSpecificData::ProductPublish(
                KPProductPublishData { para_issue_rate: 0, self_issue_rate: 0 },
            ),
            comment_count: 0,
            comment_total_fee: 0,
            comment_positive_count: 0,
            expert_trend: CommentTrend::Empty,
            platform_trend: CommentTrend::Empty,
        }
    }
}

impl DocumentView {
    /// The document that stands for "none": what a lookup of an unknown
    /// document yields.
    pub open spec fn blank() -> DocumentView {
        DocumentView {
            app_id: 0,
            document_id: Seq::empty(),
            model_id: Seq::empty(),
            product_id: Seq::empty(),
            content_hash: Seq::empty(),
            sender: Seq::empty(),
            owner: Seq::empty(),
            document_type: DocumentType::ProductPublish,
            document_data: DocumentDataView::ProductPublish {
                para_issue_rate: 0,
                self_issue_rate: 0,
            },
            comment_count: 0,
            comment_total_fee: 0,
            comment_positive_count: 0,
            expert_trend: CommentTrend::Empty,
            platform_trend: CommentTrend::Empty,
        }
    }
}

impl KPDocumentData {
    /// A copy with the same model.
    pub fn duplicate(&self) -> (copy: KPDocumentData)
        ensures
            copy@ == self@,
    {
        KPDocumentData {
            app_id: self.app_id,
            document_id: bytes_clone(&self.document_id),
            model_id: bytes_clone(&self.model_id),
            product_id: bytes_clone(&self.product_id),
            content_hash: bytes_clone(&self.content_hash),
            sender: bytes_clone(&self.sender),
            owner: bytes_clone(&self.owner),
            document_type: self.document_type,
            document_data: self.document_data.duplicate(),
            comment_count: self.comment_count,
            comment_total_fee: self.comment_total_fee,
            comment_positive_count: self.comment_positive_count,
            expert_trend: self.expert_trend,
            platform_trend: self.platform_trend,
        }
    }
}

/// A comment as submitted.
#[derive(Clone, Debug, Default)]
pub struct CommentData {
    pub app_id: u32,
    pub document_id: Vec<u8>,
    pub comment_id: Vec<u8>,
    pub comment_hash: Vec<u8>,
    pub comment_fee: PowerSize,
    pub comment_trend: u8,
}

/// A comment as the ledger keeps it.
#[derive(Clone, Debug, Default)]
pub struct KPCommentData {
    pub app_id: u32,
    pub document_id: Vec<u8>,
    pub comment_id: Vec<u8>,
    pub comment_hash: Vec<u8>,
    pub comment_fee: PowerSize,
    pub comment_trend: u8,
    pub sender: Vec<u8>,
    pub owner: Vec<u8>,
}

/// The model of a comment.
pub struct CommentView {
    pub app_id: u32,
    pub document_id: Seq<u8>,
    pub comment_id: Seq<u8>,
    pub comment_hash: Seq<u8>,
    pub comment_fee: PowerSize,
    pub comment_trend: u8,
    pub sender: Seq<u8>,
    pub owner: Seq<u8>,
}

impl View for KPCommentData {
    type V = CommentView;

    open spec fn view(&self) -> CommentView {
        CommentView {
            app_id: self.app_id,
            document_id: self.document_id@,
            comment_id: self.comment_id@,
            comment_hash: self.comment_hash@,
            comment_fee: self.comment_fee,
            comment_trend: self.comment_trend,
            sender: self.sender@,
            owner: self.owner@,
        }
    }
}

/// A model as the ledger keeps it.
#[derive(Clone, Debug)]
pub struct KPModelData {
    pub app_id: u32,
    pub model_id: Vec<u8>,
    pub expert_id: Vec<u8>,
    pub status: ModelStatus,
    pub commodity_name: Vec<u8>,
    pub commodity_type: u32,
    pub content_hash: Vec<u8>,
    pub sender: Vec<u8>,
    pub owner: Vec<u8>,
}

/// The model of a model record.
pub struct ModelView {
    pub app_id: u32,
    pub model_id: Seq<u8>,
    pub expert_id: Seq<u8>,
    pub status: ModelStatus,
    pub commodity_name: Seq<u8>,
    pub commodity_type: u32,
    pub content_hash: Seq<u8>,
    pub sender: Seq<u8>,
    pub owner: Seq<u8>,
}

impl View for KPModelData {
    type V = ModelView;

    open spec fn view(&self) -> ModelView {
        ModelView {
            app_id: self.app_id,
            model_id: self.model_id@,
            expert_id: self.expert_id@,
            status: self.status,
            commodity_name: self.commodity_name@,
            commodity_type: self.commodity_type,
            content_hash: self.content_hash@,
            sender: self.sender@,
            owner: self.owner@,
        }
    }
}

/// What one account has done in comments within one application.
#[derive(Clone, Copy, Debug, Default, PartialEq, Eq, Structural)]
pub struct KPCommentAccountRecord {
    pub count: PowerSize,
    pub fees: PowerSize,
    pub positive_count: PowerSize,
}

impl View for KPCommentAccountRecord {
    type V = KPCommentAccountRecord;

    open spec fn view(&self) -> KPCommentAccountRecord {
        *self
    }
}

/// What an account has done over all applications.
#[derive(Clone, Copy, Debug, Default, PartialEq, Eq, Structural)]
pub struct AccountStatistics {
    pub create_commodity_num: u32,
    pub slash_commodity_num: u32,
    pub slash_kp_total: u64,
    pub comment_num: u32,
    pub comment_cost_total: u64,
    pub comment_cost_max: u64,
    pub comment_positive_trend_num: u32,
    pub comment_negative_trend_num: u32,
}

impl View for AccountStatistics {
    type V = AccountStatistics;

    open spec fn view(&self) -> AccountStatistics {
        *self
    }
}

/// A document's kind and power, as a query reports them.
#[derive(Clone, Copy, Debug, PartialEq, Eq, Structural)]
pub struct DocumentPowerInfo {
    pub doc_type: DocumentType,
    pub power: PowerSize,
}

} // verus!
