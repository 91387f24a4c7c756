//! The comment power engine: what a comment does to its document, to its
//! writer, and to the owner of the document.

use vstd::prelude::*;
use crate::bytes::bytes_clone;
use crate::commodity::{clamp_sum, next_count};
use crate::config::{compute_trend_power, trend_power, Config, FULL_WEIGHT};
use crate::math::{attend_power_of, compute_plain_power, plain_power_of};
use crate::maxima::{compute_comment_action_rate, update_comment_max, CommentMaxRecord};
use crate::power::{power_add, CommodityPowerSet, PowerSize, PowerSum};
use crate::records::{
    AccountRecord, AppAccountRecord, AppRecord, CommentPool, CommentWeightData, CommentWeightView,
    IdList,
};
use crate::state::{lookup, Module, StateView};
use crate::table::ScopedId;
use crate::types::{
    trend_of_code, AccountStatistics, CommentTrend, CommentView, DocumentDataView,
    DocumentSpecificData, DocumentType, DocumentView, KPCommentAccountRecord, KPCommentData,
    KPDocumentData,
};

verus! {

/// The fee per comment; zero where there is no comment.
pub open spec fn unit_fee(fees: PowerSize, count: PowerSize) -> PowerSize {
    if count == 0 {
        0
    } else {
        fees / count
    }
}

/// The comment figures of a document after a comment with the fee `fee`
/// and the verdict `code`.
pub open spec fn document_commented(doc: DocumentView, fee: PowerSize, code: u8) -> DocumentView {
    DocumentView {
        comment_count: clamp_sum(doc.comment_count, 1),
        comment_total_fee: clamp_sum(doc.comment_total_fee, fee),
        comment_positive_count: if code == 0 {
            clamp_sum(doc.comment_positive_count, 1)
        } else {
            doc.comment_positive_count
        },
        ..doc
    }
}

/// The comment figures of an account after a comment with the fee `fee`
/// and the verdict `code`.
pub open spec fn account_commented(
    record: KPCommentAccountRecord,
    fee: PowerSize,
    code: u8,
) -> KPCommentAccountRecord {
    KPCommentAccountRecord {
        count: clamp_sum(record.count, 1),
        fees: clamp_sum(record.fees, fee),
        positive_count: if code == 0 {
            clamp_sum(record.positive_count, 1)
        } else {
            record.positive_count
        },
    }
}

/// The statistics of an account after a comment.
pub open spec fn statistics_commented(
    statistics: AccountStatistics,
    fee: PowerSize,
    code: u8,
) -> AccountStatistics {
    AccountStatistics {
        comment_num: next_count(statistics.comment_num),
        comment_cost_total: clamp_sum(statistics.comment_cost_total, fee),
        comment_positive_trend_num: if code == 0 {
            next_count(statistics.comment_positive_trend_num)
        } else {
            statistics.comment_positive_trend_num
        },
        comment_negative_trend_num: if code == 0 {
            statistics.comment_negative_trend_num
        } else {
            next_count(statistics.comment_negative_trend_num)
        },
        comment_cost_max: if fee > statistics.comment_cost_max {
            fee
        } else {
            statistics.comment_cost_max
        },
        ..statistics
    }
}

/// The three weights that the kind of the commented document decides: the
/// top weight of the writer's attend power, the weight of the document's
/// attend power, and the top weight of the document.
pub open spec fn attend_weights_for(config: Config, kind: DocumentType) -> (u8, u8, u8) {
    match kind {
        DocumentType::ProductPublish => (
            config.top_weight_account_attend,
            config.document_power_weight_attend,
            config.top_weight_product_publish,
        ),
        DocumentType::ProductIdentify => (
            config.top_weight_account_attend,
            config.document_power_weight_attend,
            config.top_weight_document_identify,
        ),
        DocumentType::ProductTry => (
            config.top_weight_account_attend,
            config.document_power_weight_attend,
            config.top_weight_document_try,
        ),
        DocumentType::ProductChoose => (
            config.cm_power_account_attend,
            config.document_cm_power_weight_attend,
            FULL_WEIGHT,
        ),
        DocumentType::ModelCreate => (
            config.cm_power_account_attend,
            config.document_cm_power_weight_attend,
            FULL_WEIGHT,
        ),
        DocumentType::Unknown => (0, 0, 0),
    }
}

/// Whether the comment sets the expert flag of `doc`: the flag is still
/// empty and the writer is an expert of the document's model.
pub open spec fn expert_fires(doc: DocumentView, is_expert: bool) -> bool {
    doc.expert_trend == CommentTrend::Empty && is_expert
}

/// Whether the comment sets the platform flag of `doc`.
pub open spec fn platform_fires(doc: DocumentView, is_platform: bool) -> bool {
    doc.platform_trend == CommentTrend::Empty && is_platform
}

/// The document after a comment with the verdict `code` set the trend flags
/// that it may set. A flag is set once: a flag that is not empty stays.
pub open spec fn document_judged(
    doc: DocumentView,
    code: u8,
    is_expert: bool,
    is_platform: bool,
) -> DocumentView {
    DocumentView {
        expert_trend: if expert_fires(doc, is_expert) {
            trend_of_code(code)
        } else {
            doc.expert_trend
        },
        platform_trend: if platform_fires(doc, is_platform) {
            trend_of_code(code)
        } else {
            doc.platform_trend
        },
        ..doc
    }
}

/// The judge power that a comment brings: zero where it sets no flag, else
/// the judgement of the two flags after the last flag was set.
pub open spec fn judge_power_on_comment(
    doc: DocumentView,
    code: u8,
    is_expert: bool,
    is_platform: bool,
) -> nat {
    let judged = document_judged(doc, code, is_expert, is_platform);
    if platform_fires(doc, is_platform) {
        plain_power_of(trend_power(judged.expert_trend, judged.platform_trend))
    } else if expert_fires(doc, is_expert) {
        plain_power_of(trend_power(judged.expert_trend, doc.platform_trend))
    } else {
        0
    }
}

impl StateView {
    /// The state after the comment was added to the pool of the document
    /// `doc`, at the position that the document's comment count gives.
    pub open spec fn comment_pooled(self, comment: CommentView, doc: DocumentView) -> StateView {
        let key = (doc.app_id, doc.document_id);
        StateView {
            comment_pools: self.comment_pools.insert(
                key,
                lookup(self.comment_pools, key, Seq::empty()).push(
                    CommentWeightView {
                        account: comment.sender,
                        position: doc.comment_count,
                        cash_cost: comment.comment_fee,
                    },
                ),
            ),
            ..self
        }
    }

    /// The commented document with the comment counted.
    pub open spec fn commented_document(self, comment: CommentView) -> DocumentView {
        document_commented(
            self.document((comment.app_id, comment.document_id)),
            comment.comment_fee,
            comment.comment_trend,
        )
    }

    /// The comment figures of the writer with the comment counted.
    pub open spec fn commented_account(self, comment: CommentView) -> KPCommentAccountRecord {
        account_commented(
            self.app_account((comment.app_id, comment.sender)).comment,
            comment.comment_fee,
            comment.comment_trend,
        )
    }

    /// The maxima over the accounts of the application after the writer's
    /// figures were taken in.
    pub open spec fn account_max_after(self, comment: CommentView) -> CommentMaxRecord {
        let account = self.commented_account(comment);
        self.app(comment.app_id).comment_max_per_account.raised(
            account.count,
            account.fees,
            account.positive_count,
            unit_fee(account.fees, account.count),
        )
    }

    /// The maxima over the documents of the application after the
    /// document's figures were taken in.
    pub open spec fn doc_max_after(self, comment: CommentView) -> CommentMaxRecord {
        let doc = self.commented_document(comment);
        self.app(comment.app_id).comment_max_per_doc.raised(
            doc.comment_count,
            doc.comment_total_fee,
            doc.comment_positive_count,
            unit_fee(doc.comment_total_fee, doc.comment_count),
        )
    }

    /// The base that the attend power of the commented document is held
    /// against: the maxima as they were after the document's first
    /// comment.
    pub open spec fn compare_base(self, comment: CommentView) -> CommentMaxRecord {
        lookup(
            self.comment_power_base,
            (comment.app_id, comment.document_id),
            self.doc_max_after(comment),
        )
    }

    /// The attend power of the writer after the comment: the writer's
    /// figures against the live maxima over the accounts.
    pub open spec fn writer_attend_power(self, comment: CommentView) -> nat {
        let account = self.commented_account(comment);
        attend_power_of(
            self.account_max_after(comment).rates(
                account.count,
                account.fees,
                account.positive_count,
                unit_fee(account.fees, account.count),
            ),
            self.config.comment_weights(),
            FULL_WEIGHT,
            attend_weights_for(self.config, self.commented_document(comment).document_type).0,
        )
    }

    /// The attend power of the commented document after the comment: the
    /// document's figures against its frozen base.
    pub open spec fn document_attend_power(self, comment: CommentView) -> nat {
        let doc = self.commented_document(comment);
        let weights = attend_weights_for(self.config, doc.document_type);
        attend_power_of(
            self.compare_base(comment).rates(
                doc.comment_count,
                doc.comment_total_fee,
                doc.comment_positive_count,
                unit_fee(doc.comment_total_fee, doc.comment_count),
            ),
            self.config.comment_weights(),
            weights.1,
            weights.2,
        )
    }

    /// The commented document with the comment counted and the trend
    /// flags set that the comment may set.
    pub open spec fn judged_document(
        self,
        comment: CommentView,
        is_expert: bool,
        is_platform: bool,
    ) -> DocumentView {
        document_judged(
            self.commented_document(comment),
            comment.comment_trend,
            is_expert,
            is_platform,
        )
    }

    /// The state after the figures of a comment were recorded: the
    /// document and the writer count the comment, the maxima of the
    /// application take both in, the writer has a new attend power, and
    /// the document has its base.
    pub open spec fn comment_recorded(
        self,
        comment: CommentView,
        is_expert: bool,
        is_platform: bool,
    ) -> StateView {
        let doc_key = (comment.app_id, comment.document_id);
        let writer_key = (comment.app_id, comment.sender);
        StateView {
            documents: self.documents.insert(
                doc_key,
                self.judged_document(comment, is_expert, is_platform),
            ),
            app_accounts: self.app_accounts.insert(
                writer_key,
                AppAccountRecord {
                    comment: self.commented_account(comment),
                    attend_power: self.writer_attend_power(comment) as PowerSize,
                    ..self.app_account(writer_key)
                },
            ),
            apps: self.apps.insert(
                comment.app_id,
                AppRecord {
                    comment_max_per_account: self.account_max_after(comment),
                    comment_max_per_doc: self.doc_max_after(comment),
                    ..self.app(comment.app_id)
                },
            ),
            comment_power_base: self.comment_power_base.insert(doc_key, self.compare_base(comment)),
            ..self
        }
    }

    /// The state after the statistics of the writer counted the comment.
    pub open spec fn comment_counted(self, comment: CommentView) -> StateView {
        StateView {
            accounts: self.accounts.insert(
                comment.sender,
                AccountRecord {
                    statistics: statistics_commented(
                        self.account(comment.sender).statistics,
                        comment.comment_fee,
                        comment.comment_trend,
                    ),
                    ..self.account(comment.sender)
                },
            ),
            ..self
        }
    }

    /// The state after a comment was processed. `is_expert` says whether
    /// the writer is an expert of the document's model, `is_platform`
    /// whether the writer is a platform member of the application.
    ///
    /// The document and the writer count the comment. The writer's figures
    /// go into the live maxima of the application and give the writer's
    /// attend power. The document's figures go into the maxima too, but
    /// its attend power is held against the base that was frozen at the
    /// document's first comment. The comment may set the document's trend
    /// flags, which gives judge power. The document's power, its commodity
    /// and its owner follow; the comment joins the document's pool; the
    /// writer's statistics count it.
    pub open spec fn comment_power_processed(
        self,
        comment: CommentView,
        is_expert: bool,
        is_platform: bool,
    ) -> StateView {
        let judged = self.judged_document(comment, is_expert, is_platform);
        self.comment_recorded(comment, is_expert, is_platform).document_power_updated(
            judged,
            self.document_attend_power(comment) as PowerSize,
            judge_power_on_comment(
                self.commented_document(comment),
                comment.comment_trend,
                is_expert,
                is_platform,
            ) as PowerSize,
        ).comment_pooled(comment, judged).comment_counted(comment)
    }

    /// The state after the attend power of the owner of the identify or
    /// try document `doc` was taken into the commodity of cart `cart_id`,
    /// and the owner's miner power was set to the owner's accumulated
    /// power. Where the commodity is slashed or the model of the product
    /// cannot be found, nothing changes: a slashed commodity adds nothing
    /// to its owner's power.
    pub open spec fn owner_power_applied(self, doc: DocumentView, cart_id: Seq<u8>) -> StateView {
        let cart_key = (doc.app_id, cart_id);
        let owner_key = (doc.app_id, doc.owner);
        let model = self.model_of_product(doc.app_id, doc.product_id);
        if self.is_slashed(cart_key) || model is None {
            self
        } else {
            let updated = self.purchase_power_updated(
                doc.app_id,
                model.unwrap(),
                cart_id,
                doc.owner,
                CommodityPowerSet {
                    owner_attend: self.app_account(owner_key).attend_power,
                    ..self.power_set(cart_key)
                },
            );
            StateView {
                accounts: updated.accounts.insert(
                    doc.owner,
                    AccountRecord {
                        power: updated.app_account(owner_key).accumulation.total_of(),
                        ..updated.account(doc.owner)
                    },
                ),
                ..updated
            }
        }
    }

    /// The state after the commodity behind `doc` was brought up to date.
    /// A publish document has no commodity. For an identify or a try
    /// document see `owner_power_applied`. For a choose or a model-create
    /// document the sum of the owner's attend power and the document's own
    /// power is stored as the document's miscellaneous power.
    pub open spec fn commodity_power_processed(self, doc: DocumentView) -> StateView {
        match doc.document_data {
            DocumentDataView::ProductPublish { .. } => self,
            DocumentDataView::ProductIdentify { cart_id, .. } => self.owner_power_applied(
                doc,
                cart_id,
            ),
            DocumentDataView::ProductTry { cart_id, .. } => self.owner_power_applied(doc, cart_id),
            _ => StateView {
                misc_document_powers: self.misc_document_powers.insert(
                    (doc.app_id, doc.document_id),
                    clamp_sum(
                        self.app_account((doc.app_id, doc.owner)).attend_power,
                        self.document_power((doc.app_id, doc.document_id)).total_of(),
                    ),
                ),
                ..self
            },
        }
    }

    /// The state after a new commodity was counted: for its application,
    /// for its model, and for its owner, under whom the cart is listed.
    pub open spec fn commodity_counted(
        self,
        app_id: u32,
        model_id: Seq<u8>,
        cart_id: Seq<u8>,
        owner: Seq<u8>,
    ) -> StateView {
        let owner_key = (app_id, owner);
        StateView {
            apps: self.apps.insert(
                app_id,
                AppRecord {
                    commodity_count: next_count(self.app(app_id).commodity_count),
                    ..self.app(app_id)
                },
            ),
            app_model_commodity_count: self.app_model_commodity_count.insert(
                (app_id, model_id),
                next_count(lookup(self.app_model_commodity_count, (app_id, model_id), 0u32)),
            ),
            accounts: self.accounts.insert(
                owner,
                AccountRecord {
                    statistics: AccountStatistics {
                        create_commodity_num: next_count(
                            self.account(owner).statistics.create_commodity_num,
                        ),
                        ..self.account(owner).statistics
                    },
                    ..self.account(owner)
                },
            ),
            account_commodity_set: self.account_commodity_set.insert(
                owner_key,
                lookup(self.account_commodity_set, owner_key, Seq::empty()).push(cart_id),
            ),
            ..self
        }
    }

    /// The state after a document of the kind `doc_type` was created for
    /// the cart: the commodity is counted when the cart has no document of
    /// the other coupled kind yet; other kinds count nothing.
    pub open spec fn commodity_count_increased(
        self,
        app_id: u32,
        model_id: Seq<u8>,
        cart_id: Seq<u8>,
        doc_type: DocumentType,
        owner: Seq<u8>,
    ) -> StateView {
        let known = match doc_type {
            DocumentType::ProductTry => self.cart_identify_index.dom().contains((app_id, cart_id)),
            DocumentType::ProductIdentify => self.cart_try_index.dom().contains((app_id, cart_id)),
            _ => true,
        };
        if known {
            self
        } else {
            self.commodity_counted(app_id, model_id, cart_id, owner)
        }
    }

    /// Recording the figures of a comment keeps a state consistent, and no
    /// maximum of the application falls.
    pub proof fn lemma_comment_recorded(
        self,
        comment: CommentView,
        is_expert: bool,
        is_platform: bool,
    )
        requires
            self.consistent(),
        ensures
            self.comment_recorded(comment, is_expert, is_platform).consistent(),
            self.comment_recorded(comment, is_expert, is_platform).app(
                comment.app_id,
            ).maxima_at_least(self.app(comment.app_id)),
    {
        self.lemma_same_powers_consistent(self.comment_recorded(comment, is_expert, is_platform));
    }

    /// Processing a comment keeps a state consistent, and no maximum of the
    /// application falls.
    pub proof fn lemma_comment_power_processed(
        self,
        comment: CommentView,
        is_expert: bool,
        is_platform: bool,
    )
        requires
            self.consistent(),
        ensures
            self.comment_power_processed(comment, is_expert, is_platform).consistent(),
            self.comment_power_processed(comment, is_expert, is_platform).apps
                == self.comment_recorded(comment, is_expert, is_platform).apps,
            self.comment_power_processed(comment, is_expert, is_platform).app(
                comment.app_id,
            ).maxima_at_least(self.app(comment.app_id)),
    {
        self.lemma_comment_recorded(comment, is_expert, is_platform);
        let recorded = self.comment_recorded(comment, is_expert, is_platform);
        let judged = self.judged_document(comment, is_expert, is_platform);
        let attend = self.document_attend_power(comment) as PowerSize;
        let judge = judge_power_on_comment(
            self.commented_document(comment),
            comment.comment_trend,
            is_expert,
            is_platform,
        ) as PowerSize;
        recorded.lemma_document_power_updated(judged, attend, judge);
        recorded.lemma_document_power_updated_frame(judged, attend, judge);
        let powered = recorded.document_power_updated(judged, attend, judge);
        let pooled = powered.comment_pooled(comment, judged);
        powered.lemma_same_powers_consistent(pooled);
        pooled.lemma_same_powers_consistent(pooled.comment_counted(comment));
    }

    /// Bringing a commodity up to date keeps a state consistent.
    pub proof fn lemma_commodity_power_processed(self, doc: DocumentView)
        requires
            self.consistent(),
        ensures
            self.commodity_power_processed(doc).consistent(),
    {
        match doc.document_data {
            DocumentDataView::ProductIdentify { cart_id, .. } => {
                self.lemma_owner_power_applied(doc, cart_id);
            },
            DocumentDataView::ProductTry { cart_id, .. } => {
                self.lemma_owner_power_applied(doc, cart_id);
            },
            _ => {},
        }
    }

    proof fn lemma_owner_power_applied(self, doc: DocumentView, cart_id: Seq<u8>)
        requires
            self.consistent(),
        ensures
            self.owner_power_applied(doc, cart_id).consistent(),
    {
        let cart_key = (doc.app_id, cart_id);
        let owner_key = (doc.app_id, doc.owner);
        let model = self.model_of_product(doc.app_id, doc.product_id);
        if !self.is_slashed(cart_key) && model is Some {
            self.lemma_purchase_power_updated(
                doc.app_id,
                model.unwrap(),
                cart_id,
                doc.owner,
                CommodityPowerSet {
                    owner_attend: self.app_account(owner_key).attend_power,
                    ..self.power_set(cart_key)
                },
            );
        }
    }
}

/// The fee per comment.
pub fn compute_unit_fee(fees: PowerSize, count: PowerSize) -> (fee: PowerSize)
    ensures
        fee == unit_fee(fees, count),
{
    if count == 0 {
        0
    } else {
        fees / count
    }
}

/// `n + 1`, stopping at the largest value.
pub fn count_up(n: u32) -> (next: u32)
    ensures
        next == next_count(n),
{
    n.saturating_add(1)
}

impl Module {
    /// The record of an account.
    pub fn stored_account(&self, account: &Vec<u8>) -> (record: AccountRecord)
        requires
            self.wf(),
        ensures
            record == self@.account(account@),
    {
        match self.accounts.get(account) {
            Some(record) => *record,
            None => AccountRecord::new(),
        }
    }

    /// Adds the comment to the pool of the document `doc`.
    pub fn update_document_comment_pool(
        &mut self,
        new_comment: &KPCommentData,
        doc: &KPDocumentData,
    )
        requires
            old(self).wf(),
        ensures
            final(self).wf(),
            final(self)@ == old(self)@.comment_pooled(new_comment@, doc@),
    {
        let ghost before = self@;
        let key = ScopedId::new(doc.app_id, &doc.document_id);
        let mut pool = match self.comment_pools.remove(&key) {
            Some(pool) => pool,
            None => CommentPool::new(),
        };
        let pool_item = CommentWeightData {
            account: bytes_clone(&new_comment.sender),
            position: doc.comment_count,
            cash_cost: new_comment.comment_fee,
        };
        pool.push(pool_item);
        self.comment_pools.insert(key, pool);
        proof {
            before.lemma_same_powers_consistent(self@);
            assert(self@.comment_pools =~= before.comment_pooled(new_comment@, doc@).comment_pools);
        }
    }

    /// Processes a comment. `is_expert` says whether the writer is an
    /// expert of the commented document's model, `is_platform` whether the
    /// writer is a platform member of the application.
    pub fn process_comment_power(
        &mut self,
        comment: &KPCommentData,
        is_expert: bool,
        is_platform: bool,
    )
        requires
            old(self).wf(),
        ensures
            final(self).wf(),
            final(self)@ == old(self)@.comment_power_processed(comment@, is_expert, is_platform),
            final(self)@.app(comment@.app_id).maxima_at_least(old(self)@.app(comment@.app_id)),
    {
        let ghost before = self@;
        proof {
            before.lemma_comment_power_processed(comment@, is_expert, is_platform);
        }
        let doc_key = ScopedId::new(comment.app_id, &comment.document_id);
        let mut doc = match self.documents.get(&doc_key) {
            Some(doc) => doc.duplicate(),
            None => KPDocumentData::default(),
        };
        let mut writer = self.stored_app_account(comment.app_id, &comment.sender);
        let mut account = writer.comment;
        account.count = power_add(account.count, 1);
        account.fees = power_add(account.fees, comment.comment_fee);
        doc.comment_count = power_add(doc.comment_count, 1);
        doc.comment_total_fee = power_add(doc.comment_total_fee, comment.comment_fee);
        if comment.comment_trend == 0 {
            doc.comment_positive_count = power_add(doc.comment_positive_count, 1);
            account.positive_count = power_add(account.positive_count, 1);
        }
        let ghost counted = doc@;
        assert(counted == before.commented_document(comment@));
        assert(account == before.commented_account(comment@));
        let mut app = self.stored_app(comment.app_id);
        let mut account_comment_max = app.comment_max_per_account;
        let account_comment_unit_fee: PowerSize = compute_unit_fee(account.fees, account.count);
        let _ = update_comment_max(
            &mut account_comment_max,
            account.count,
            account.fees,
            account.positive_count,
            account_comment_unit_fee,
        );
        let (account_attend_weight, comment_power_weight, doc_comment_top_weight): (u8, u8, u8) =
            match doc.document_type {
            DocumentType::ProductPublish => (
                self.config.top_weight_account_attend,
                self.config.document_power_weight_attend,
                self.config.top_weight_product_publish,
            ),
            DocumentType::ProductIdentify => (
                self.config.top_weight_account_attend,
                self.config.document_power_weight_attend,
                self.config.top_weight_document_identify,
            ),
            DocumentType::ProductTry => (
                self.config.top_weight_account_attend,
                self.config.document_power_weight_attend,
                self.config.top_weight_document_try,
            ),
            DocumentType::ProductChoose => (
                self.config.cm_power_account_attend,
                self.config.document_cm_power_weight_attend,
                FULL_WEIGHT,
            ),
            DocumentType::ModelCreate => (
                self.config.cm_power_account_attend,
                self.config.document_cm_power_weight_attend,
                FULL_WEIGHT,
            ),
            DocumentType::Unknown => (0, 0, 0),
        };
        let account_comment_power: PowerSize = self.config.compute_attend_power(
            compute_comment_action_rate(
                &account_comment_max,
                account.count,
                account.fees,
                account.positive_count,
                account_comment_unit_fee,
            ),
            FULL_WEIGHT,
            account_attend_weight,
        );
        let mut doc_comment_max = app.comment_max_per_doc;
        let doc_comment_unit_fee: PowerSize = compute_unit_fee(
            doc.comment_total_fee,
            doc.comment_count,
        );
        let _ = update_comment_max(
            &mut doc_comment_max,
            doc.comment_count,
            doc.comment_total_fee,
            doc.comment_positive_count,
            doc_comment_unit_fee,
        );
        let compare_base: CommentMaxRecord = match self.comment_power_base.get(&doc_key) {
            Some(base) => *base,
            None => doc_comment_max,
        };
        let doc_comment_power: PowerSize = self.config.compute_attend_power(
            compute_comment_action_rate(
                &compare_base,
                doc.comment_count,
                doc.comment_total_fee,
                doc.comment_positive_count,
                doc_comment_unit_fee,
            ),
            comment_power_weight,
            doc_comment_top_weight,
        );
        let mut platform_comment_power: PowerSize = 0;
        if doc.expert_trend == CommentTrend::Empty && is_expert {
            doc.expert_trend = CommentTrend::from(comment.comment_trend);
            platform_comment_power =
            compute_plain_power(compute_trend_power(doc.expert_trend, doc.platform_trend));
        }
        if doc.platform_trend == CommentTrend::Empty && is_platform {
            doc.platform_trend = CommentTrend::from(comment.comment_trend);
            platform_comment_power =
            compute_plain_power(compute_trend_power(doc.expert_trend, doc.platform_trend));
        }
        assert(account_comment_max == before.account_max_after(comment@));
        assert(doc_comment_max == before.doc_max_after(comment@));
        assert(compare_base == before.compare_base(comment@));
        assert(account_comment_power == before.writer_attend_power(comment@));
        assert(doc_comment_power == before.document_attend_power(comment@));
        assert(doc@ == before.judged_document(comment@, is_expert, is_platform));
        assert(platform_comment_power == judge_power_on_comment(
            counted,
            comment.comment_trend,
            is_expert,
            is_platform,
        ));
        self.documents.insert(doc_key, doc.duplicate());
        writer.comment = account;
        writer.attend_power = account_comment_power;
        self.app_accounts.insert(ScopedId::new(comment.app_id, &comment.sender), writer);
        app.comment_max_per_account = account_comment_max;
        app.comment_max_per_doc = doc_comment_max;
        self.apps.insert(comment.app_id, app);
        self.comment_power_base.insert(
            ScopedId::new(comment.app_id, &comment.document_id),
            compare_base,
        );
        proof {
            before.lemma_same_powers_consistent(self@);
            assert(self@ == before.comment_recorded(comment@, is_expert, is_platform));
        }
        let _ = self.update_document_power(&doc, doc_comment_power, platform_comment_power);
        self.update_document_comment_pool(comment, &doc);
        let ghost powered = self@;
        let mut record = self.stored_account(&comment.sender);
        record.statistics.comment_num = count_up(record.statistics.comment_num);
        record.statistics.comment_cost_total =
        power_add(record.statistics.comment_cost_total, comment.comment_fee);
        if comment.comment_trend == 0 {
            record.statistics.comment_positive_trend_num =
            count_up(record.statistics.comment_positive_trend_num);
        } else {
            record.statistics.comment_negative_trend_num =
            count_up(record.statistics.comment_negative_trend_num);
        }
        if comment.comment_fee > record.statistics.comment_cost_max {
            record.statistics.comment_cost_max = comment.comment_fee;
        }
        self.accounts.insert(bytes_clone(&comment.sender), record);
        proof {
            powered.lemma_same_powers_consistent(self@);
        }
    }

    fn apply_owner_power(&mut self, doc: &KPDocumentData, cart_id: &Vec<u8>) -> (done: Option<u32>)
        requires
            old(self).wf(),
        ensures
            final(self).wf(),
            final(self)@ == old(self)@.owner_power_applied(doc@, cart_id@),
            done == (if old(self)@.is_slashed((doc@.app_id, cart_id@)) || old(
                self,
            )@.model_of_product(doc@.app_id, doc@.product_id) is None {
                None
            } else {
                Some(0u32)
            }),
    {
        let ghost before = self@;
        proof {
            before.lemma_owner_power_applied(doc@, cart_id@);
        }
        let owner_account_power: PowerSize = self.stored_app_account(
            doc.app_id,
            &doc.owner,
        ).attend_power;
        let commodity_key = ScopedId::new(doc.app_id, cart_id);
        if self.purchase_black_list.contains_key(&commodity_key) {
            return None;
        }
        let mut commodity_power = self.stored_power_set(doc.app_id, cart_id);
        commodity_power.owner_attend = owner_account_power;
        match self.get_model_id_from_product(doc.app_id, &doc.product_id) {
            None => {
                return None;
            },
            Some(model_id) => {
                self.update_purchase_power(
                    &commodity_power,
                    doc.app_id,
                    &model_id,
                    cart_id,
                    &doc.owner,
                );
            },
        }
        let ghost updated = self@;
        let doc_power = self.stored_app_account(doc.app_id, &doc.owner).accumulation;
        let mut record = self.stored_account(&doc.owner);
        record.power = doc_power.total();
        self.accounts.insert(bytes_clone(&doc.owner), record);
        proof {
            updated.lemma_same_powers_consistent(self@);
        }
        Some(0)
    }

    /// Brings the commodity behind `doc` up to date. Returns `None` where
    /// nothing was done: for a publish document, for a slashed commodity,
    /// and where the model of the product cannot be found.
    pub fn process_commodity_power(&mut self, doc: &KPDocumentData) -> (done: Option<u32>)
        requires
            old(self).wf(),
        ensures
            final(self).wf(),
            final(self)@ == old(self)@.commodity_power_processed(doc@),
            done == (if doc@.document_data is ProductPublish || old(self)@.commodity_closed(
                doc@,
            ) {
                None
            } else {
                Some(0u32)
            }),
    {
        let ghost before = self@;
        match &doc.document_data {
            DocumentSpecificData::ProductPublish(_) => None,
            DocumentSpecificData::ProductIdentify(data) => self.apply_owner_power(
                doc,
                &data.cart_id,
            ),
            DocumentSpecificData::ProductTry(data) => self.apply_owner_power(doc, &data.cart_id),
            _ => {
                let owner_account_power: PowerSize = self.stored_app_account(
                    doc.app_id,
                    &doc.owner,
                ).attend_power;
                let doc_power = self.stored_document_power(doc.app_id, &doc.document_id);
                self.misc_document_powers.insert(
                    ScopedId::new(doc.app_id, &doc.document_id),
                    power_add(owner_account_power, doc_power.total()),
                );
                proof {
                    before.lemma_same_powers_consistent(self@);
                }
                Some(0)
            },
        }
    }

    fn count_commodity(
        &mut self,
        app_id: u32,
        model_id: &Vec<u8>,
        cart_id: &Vec<u8>,
        owner_id: &Vec<u8>,
    )
        requires
            old(self).wf(),
        ensures
            final(self).wf(),
            final(self)@ == old(self)@.commodity_counted(app_id, model_id@, cart_id@, owner_id@),
    {
        let ghost before = self@;
        let mut app = self.stored_app(app_id);
        app.commodity_count = count_up(app.commodity_count);
        self.apps.insert(app_id, app);
        let model_key = ScopedId::new(app_id, model_id);
        let model_count: u32 = match self.app_model_commodity_count.get(&model_key) {
            Some(count) => *count,
            None => 0,
        };
        self.app_model_commodity_count.insert(model_key, count_up(model_count));
        proof {
            before.lemma_same_powers_consistent(self@);
        }
        let mut record = self.stored_account(owner_id);
        record.statistics.create_commodity_num = count_up(record.statistics.create_commodity_num);
        self.accounts.insert(bytes_clone(owner_id), record);
        let owner_key = ScopedId::new(app_id, owner_id);
        let mut owner_cart_ids = match self.account_commodity_set.remove(&owner_key) {
            Some(ids) => ids,
            None => IdList::new(),
        };
        owner_cart_ids.push(bytes_clone(cart_id));
        self.account_commodity_set.insert(owner_key, owner_cart_ids);
        proof {
            before.lemma_same_powers_consistent(self@);
            assert(self@.account_commodity_set =~= before.commodity_counted(
                app_id,
                model_id@,
                cart_id@,
                owner_id@,
            ).account_commodity_set);
        }
    }

    /// Counts the commodity of a freshly created identify or try document,
    /// unless the cart already has a document of the other kind.
    pub fn increase_commodity_count(
        &mut self,
        app_id: u32,
        model_id: &Vec<u8>,
        cart_id: &Vec<u8>,
        doc_type: DocumentType,
        owner_id: &Vec<u8>,
    )
        requires
            old(self).wf(),
        ensures
            final(self).wf(),
            final(self)@ == old(self)@.commodity_count_increased(
                app_id,
                model_id@,
                cart_id@,
                doc_type,
                owner_id@,
            ),
    {
        let key = ScopedId::new(app_id, cart_id);
        match doc_type {
            DocumentType::ProductTry => {
                if self.cart_identify_index.contains_key(&key) {
                    return ;
                }
                self.count_commodity(app_id, model_id, cart_id, owner_id);
            },
            DocumentType::ProductIdentify => {
                if self.cart_try_index.contains_key(&key) {
                    return ;
                }
                self.count_commodity(app_id, model_id, cart_id, owner_id);
            },
            _ => {},
        }
    }
}

} // verus!
