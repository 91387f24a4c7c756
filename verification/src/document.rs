//! The document power engine: what a document earns when it is created,
//! and how the powers of its commodity and of its owner follow.

use vstd::prelude::*;
use crate::bytes::bytes_clone;
use crate::config::{compute_trend_power, trend_power, Config, FULL_WEIGHT};
use crate::math::{compute_judge_power, content_power_of, judge_power_of, ratio_parts, Ratio};
use crate::maxima::{
    larger, update_max, KPModelCreateDataMax, KPProductChooseDataMax, KPProductIdentifyRateMax,
    KPProductPublishRateMax, KPProductTryRateMax,
};
use crate::power::{
    clamp_power, power_add, power_sub, CommodityPowerSet, DocumentPower, PowerSize,
};
use crate::records::{AppAccountRecord, AppRecord, IdList};
use crate::state::{lookup, Module, StateView};
use crate::table::ScopedId;
use crate::types::{DocumentDataView, DocumentSpecificData, DocumentView, KPDocumentData};

verus! {

/// The record of an application after a document with the payload `data`
/// was taken into its maxima.
pub open spec fn app_after_document(app: AppRecord, data: DocumentDataView) -> AppRecord {
    match data {
        DocumentDataView::ProductPublish { para_issue_rate, self_issue_rate } => AppRecord {
            publish_max: KPProductPublishRateMax {
                para_issue_rate: larger(para_issue_rate, app.publish_max.para_issue_rate),
                self_issue_rate: larger(self_issue_rate, app.publish_max.self_issue_rate),
            },
            ..app
        },
        DocumentDataView::ProductIdentify { ident_rate, ident_consistence, .. } => AppRecord {
            identify_max: KPProductIdentifyRateMax {
                ident_rate: larger(ident_rate, app.identify_max.ident_rate),
                ident_consistence: larger(ident_consistence, app.identify_max.ident_consistence),
            },
            ..app
        },
        DocumentDataView::ProductTry { offset_rate, true_rate, .. } => AppRecord {
            try_max: KPProductTryRateMax {
                offset_rate: larger(offset_rate, app.try_max.offset_rate),
                true_rate: larger(true_rate, app.try_max.true_rate),
            },
            ..app
        },
        DocumentDataView::ProductChoose { sell_count, try_count } => AppRecord {
            choose_max: KPProductChooseDataMax {
                sell_count: larger(sell_count, app.choose_max.sell_count),
                try_count: larger(try_count, app.choose_max.try_count),
            },
            ..app
        },
        DocumentDataView::ModelCreate { producer_count, product_count } => AppRecord {
            model_create_max: KPModelCreateDataMax {
                producer_count: larger(producer_count, app.model_create_max.producer_count),
                product_count: larger(product_count, app.model_create_max.product_count),
            },
            ..app
        },
    }
}

/// The content power of a document with the payload `data`, whose two
/// figures are held against the maxima of `app` after the document was
/// taken into them.
pub open spec fn content_power_for(config: Config, app: AppRecord, data: DocumentDataView) -> nat {
    let after = app_after_document(app, data);
    match data {
        DocumentDataView::ProductPublish { para_issue_rate, self_issue_rate } => content_power_of(
            ratio_parts(para_issue_rate as nat, after.publish_max.para_issue_rate as nat),
            config.document_publish_weight_params_rate,
            ratio_parts(self_issue_rate as nat, after.publish_max.self_issue_rate as nat),
            config.document_publish_weight_params_self_rate,
            config.document_power_weight_content,
            config.top_weight_product_publish,
        ),
        DocumentDataView::ProductIdentify { ident_rate, ident_consistence, .. } => content_power_of(
            ratio_parts(ident_rate as nat, after.identify_max.ident_rate as nat),
            config.document_identify_weight_params_rate,
            ratio_parts(ident_consistence as nat, after.identify_max.ident_consistence as nat),
            config.document_identify_weight_check_rate,
            config.document_power_weight_content,
            config.top_weight_document_identify,
        ),
        DocumentDataView::ProductTry { offset_rate, true_rate, .. } => content_power_of(
            ratio_parts(offset_rate as nat, after.try_max.offset_rate as nat),
            config.document_try_weight_bias_rate,
            ratio_parts(true_rate as nat, after.try_max.true_rate as nat),
            config.document_try_weight_true_rate,
            config.document_power_weight_content,
            config.top_weight_document_try,
        ),
        DocumentDataView::ProductChoose { sell_count, try_count } => content_power_of(
            ratio_parts(sell_count as nat, after.choose_max.sell_count as nat),
            config.document_choose_weight_sell_count,
            ratio_parts(try_count as nat, after.choose_max.try_count as nat),
            config.document_choose_weight_try_count,
            config.document_cm_power_weight_content,
            FULL_WEIGHT,
        ),
        DocumentDataView::ModelCreate { producer_count, product_count } => content_power_of(
            ratio_parts(producer_count as nat, after.model_create_max.producer_count as nat),
            config.document_model_weight_producer_count,
            ratio_parts(product_count as nat, after.model_create_max.product_count as nat),
            config.document_model_weight_product_count,
            config.document_cm_power_weight_content,
            FULL_WEIGHT,
        ),
    }
}

/// The judge power that a document starts with: the judgement of its two
/// trend flags under the judge weight and the top weight of its kind.
pub open spec fn initial_judge_power_for(config: Config, doc: DocumentView) -> nat {
    let origin = trend_power(doc.expert_trend, doc.platform_trend);
    match doc.document_data {
        DocumentDataView::ProductPublish { .. } => judge_power_of(
            origin,
            config.top_weight_product_publish,
            config.document_power_weight_judge,
        ),
        DocumentDataView::ProductIdentify { .. } => judge_power_of(
            origin,
            config.top_weight_document_identify,
            config.document_power_weight_judge,
        ),
        DocumentDataView::ProductTry { .. } => judge_power_of(
            origin,
            config.top_weight_document_try,
            config.document_power_weight_judge,
        ),
        DocumentDataView::ProductChoose { .. } => judge_power_of(
            origin,
            FULL_WEIGHT,
            config.document_cm_power_weight_judge,
        ),
        DocumentDataView::ModelCreate { .. } => judge_power_of(
            origin,
            FULL_WEIGHT,
            config.document_cm_power_weight_judge,
        ),
    }
}

/// One part of an owner's accumulated power after a document's part moved
/// from `old_part` to `new_part`: the old part leaves the sum, which stops
/// at zero, and the new part joins it. A `new_part` of zero leaves the sum
/// alone.
pub open spec fn part_replaced(
    sum: PowerSize,
    old_part: PowerSize,
    new_part: PowerSize,
) -> PowerSize {
    if new_part > 0 {
        clamp_power(
            ((if sum >= old_part {
                sum - old_part
            } else {
                0
            }) + new_part) as nat,
        )
    } else {
        sum
    }
}

/// One part of a document's power after a new value came in; a new value
/// of zero leaves it alone.
pub open spec fn part_set(old_part: PowerSize, new_part: PowerSize) -> PowerSize {
    if new_part > 0 {
        new_part
    } else {
        old_part
    }
}

/// The cart that couples an identify or a try document; other documents
/// have none.
pub open spec fn cart_of(doc: DocumentView) -> Option<Seq<u8>> {
    match doc.document_data {
        DocumentDataView::ProductIdentify { cart_id, .. } => Some(cart_id),
        DocumentDataView::ProductTry { cart_id, .. } => Some(cart_id),
        _ => None,
    }
}

impl StateView {
    /// Whether the commodity of the identify or try document `doc` is not
    /// slashed while the model of the document's product cannot be found.
    pub open spec fn coupling_blocked(self, doc: DocumentView) -> bool {
        cart_of(doc) is Some && !self.is_slashed((doc.app_id, cart_of(doc).unwrap()))
            && self.model_of_product(doc.app_id, doc.product_id) is None
    }

    /// Whether the commodity of the identify or try document `doc` takes
    /// nothing in: it is slashed, or the model of the document's product
    /// cannot be found.
    pub open spec fn commodity_closed(self, doc: DocumentView) -> bool {
        cart_of(doc) is Some && (self.is_slashed((doc.app_id, cart_of(doc).unwrap()))
            || self.model_of_product(doc.app_id, doc.product_id) is None)
    }

    /// The stored power of `doc` after it took new attend and judge parts;
    /// a part of zero leaves the stored part alone.
    pub open spec fn power_after_update(
        self,
        doc: DocumentView,
        attend_power: PowerSize,
        judge_power: PowerSize,
    ) -> DocumentPower {
        let org = self.document_power((doc.app_id, doc.document_id));
        DocumentPower {
            attend: part_set(org.attend, attend_power),
            content: org.content,
            judge: part_set(org.judge, judge_power),
        }
    }

    /// Whether the part that the commodity of `doc` holds for `doc` is the
    /// stored power of `doc`; true of a document that has no commodity.
    pub open spec fn part_is_document_power(self, doc: DocumentView) -> bool {
        let stored = self.document_power((doc.app_id, doc.document_id));
        match doc.document_data {
            DocumentDataView::ProductIdentify { cart_id, .. } => self.power_set(
                (doc.app_id, cart_id),
            ).identify == stored,
            DocumentDataView::ProductTry { cart_id, .. } => self.power_set(
                (doc.app_id, cart_id),
            ).try_power == stored,
            _ => true,
        }
    }

    /// The identifier of the publish document that stands behind `doc`.
    pub open spec fn publish_doc_of(self, doc: DocumentView) -> Seq<u8> {
        lookup(self.product_index, (doc.app_id, doc.product_id), Seq::empty())
    }

    /// The state after the power `new_power` of the freshly created
    /// identify or try document `doc` of cart `cart_id` was taken into its
    /// commodity and into the accumulated power of its owner.
    ///
    /// The publish document's power is folded in only while the cart has no
    /// document of the other kind. Where the commodity is slashed or the
    /// model of the product cannot be found, nothing changes.
    pub open spec fn coupled_power_added(
        self,
        doc: DocumentView,
        cart_id: Seq<u8>,
        is_identify: bool,
        new_power: DocumentPower,
    ) -> StateView {
        let key = (doc.app_id, cart_id);
        let need_publish = if is_identify {
            !self.cart_try_index.dom().contains(key)
        } else {
            !self.cart_identify_index.dom().contains(key)
        };
        let publish_power = if need_publish {
            self.document_power((doc.app_id, self.publish_doc_of(doc)))
        } else {
            DocumentPower { attend: 0, content: 0, judge: 0 }
        };
        let stored = self.power_set(key);
        let with_new = if is_identify {
            CommodityPowerSet { identify: new_power, ..stored }
        } else {
            CommodityPowerSet { try_power: new_power, ..stored }
        };
        let set = if need_publish {
            CommodityPowerSet { publish: publish_power, ..with_new }
        } else {
            with_new
        };
        let model = self.model_of_product(doc.app_id, doc.product_id);
        if self.is_slashed(key) || model is None {
            self
        } else {
            let updated = self.purchase_power_updated(
                doc.app_id,
                model.unwrap(),
                cart_id,
                doc.owner,
                set,
            );
            let owner_key = (doc.app_id, doc.owner);
            let record = updated.app_account(owner_key);
            StateView {
                app_accounts: updated.app_accounts.insert(
                    owner_key,
                    AppAccountRecord {
                        accumulation: record.accumulation.plus(new_power).plus(publish_power),
                        ..record
                    },
                ),
                ..updated
            }
        }
    }

    /// The state after the power of a freshly created document was taken
    /// into its commodity; only identify and try documents have one.
    pub open spec fn accumulation_added(
        self,
        doc: DocumentView,
        new_power: DocumentPower,
    ) -> StateView {
        match doc.document_data {
            DocumentDataView::ProductIdentify { cart_id, .. } => self.coupled_power_added(
                doc,
                cart_id,
                true,
                new_power,
            ),
            DocumentDataView::ProductTry { cart_id, .. } => self.coupled_power_added(
                doc,
                cart_id,
                false,
                new_power,
            ),
            _ => self,
        }
    }

    /// The state after the first power record of `doc` was stored.
    pub open spec fn document_power_inserted(
        self,
        doc: DocumentView,
        content_power: PowerSize,
        judge_power: PowerSize,
    ) -> StateView {
        let power = DocumentPower { attend: 0, content: content_power, judge: judge_power };
        (StateView {
            document_powers: self.document_powers.insert((doc.app_id, doc.document_id), power),
            ..self
        }).accumulation_added(doc, power)
    }

    /// The state after the freshly created document `doc` was assessed:
    /// the maxima of its application take its two figures in, its content
    /// and judge power are stored and taken into its commodity, and the
    /// document is listed under its owner.
    pub open spec fn content_power_processed(self, doc: DocumentView) -> StateView {
        let app = self.app(doc.app_id);
        let content = content_power_for(self.config, app, doc.document_data);
        let judge = initial_judge_power_for(self.config, doc);
        let assessed = (StateView {
            apps: self.apps.insert(doc.app_id, app_after_document(app, doc.document_data)),
            ..self
        }).document_power_inserted(doc, content as PowerSize, judge as PowerSize);
        let owner_key = (doc.app_id, doc.owner);
        StateView {
            account_document_set: assessed.account_document_set.insert(
                owner_key,
                lookup(assessed.account_document_set, owner_key, Seq::empty()).push(
                    doc.document_id,
                ),
            ),
            ..assessed
        }
    }

    /// The state after the stored power of a document took new attend and
    /// judge parts; a part of zero leaves the stored part alone.
    pub open spec fn own_power_updated(
        self,
        key: (u32, Seq<u8>),
        attend_power: PowerSize,
        judge_power: PowerSize,
    ) -> StateView {
        let org = self.document_power(key);
        StateView {
            document_powers: self.document_powers.insert(
                key,
                DocumentPower {
                    attend: part_set(org.attend, attend_power),
                    content: org.content,
                    judge: part_set(org.judge, judge_power),
                },
            ),
            ..self
        }
    }

    /// The state after the identify or try document `doc` of cart
    /// `cart_id` took new attend and judge parts; a part of zero leaves
    /// what is stored alone.
    ///
    /// For a slashed commodity only the stored power of the document
    /// follows. Where the commodity is not slashed and the model of the
    /// product cannot be found, nothing changes. Else the commodity's part
    /// for this document becomes the document's power after the update,
    /// the accumulated power of the owner exchanges the old parts for the
    /// new ones, and the stored power of the document follows.
    pub open spec fn coupled_power_updated(
        self,
        doc: DocumentView,
        cart_id: Seq<u8>,
        is_identify: bool,
        attend_power: PowerSize,
        judge_power: PowerSize,
    ) -> StateView {
        let key = (doc.app_id, doc.document_id);
        let cart_key = (doc.app_id, cart_id);
        let org = self.document_power(key);
        let model = self.model_of_product(doc.app_id, doc.product_id);
        if self.is_slashed(cart_key) {
            self.own_power_updated(key, attend_power, judge_power)
        } else if model is None {
            self
        } else {
            let stored = self.power_set(cart_key);
            let part = self.power_after_update(doc, attend_power, judge_power);
            let set = if is_identify {
                CommodityPowerSet { identify: part, ..stored }
            } else {
                CommodityPowerSet { try_power: part, ..stored }
            };
            let updated = self.purchase_power_updated(
                doc.app_id,
                model.unwrap(),
                cart_id,
                doc.owner,
                set,
            );
            let owner_key = (doc.app_id, doc.owner);
            let record = updated.app_account(owner_key);
            (StateView {
                app_accounts: updated.app_accounts.insert(
                    owner_key,
                    AppAccountRecord {
                        accumulation: DocumentPower {
                            attend: part_replaced(
                                record.accumulation.attend,
                                org.attend,
                                attend_power,
                            ),
                            content: record.accumulation.content,
                            judge: part_replaced(record.accumulation.judge, org.judge, judge_power),
                        },
                        ..record
                    },
                ),
                ..updated
            }).own_power_updated(key, attend_power, judge_power)
        }
    }

    /// The state after `doc` took new attend and judge parts.
    pub open spec fn document_power_updated(
        self,
        doc: DocumentView,
        attend_power: PowerSize,
        judge_power: PowerSize,
    ) -> StateView {
        match doc.document_data {
            DocumentDataView::ProductIdentify { cart_id, .. } => self.coupled_power_updated(
                doc,
                cart_id,
                true,
                attend_power,
                judge_power,
            ),
            DocumentDataView::ProductTry { cart_id, .. } => self.coupled_power_updated(
                doc,
                cart_id,
                false,
                attend_power,
                judge_power,
            ),
            _ => self.own_power_updated((doc.app_id, doc.document_id), attend_power, judge_power),
        }
    }

    /// A state that differs from a consistent one in neither the
    /// configuration, the total power, the commodities, the black list, the
    /// boards nor the kinds of commodity is consistent.
    pub proof fn lemma_same_powers_consistent(self, other: StateView)
        requires
            self.consistent(),
            other.config == self.config,
            other.total_power == self.total_power,
            other.purchase_powers == self.purchase_powers,
            other.purchase_black_list == self.purchase_black_list,
            other.leader_boards == self.leader_boards,
            other.commodity_types == self.commodity_types,
        ensures
            other.consistent(),
    {
    }

    /// Taking a new document's power in keeps a state consistent.
    pub proof fn lemma_accumulation_added(self, doc: DocumentView, new_power: DocumentPower)
        requires
            self.consistent(),
        ensures
            self.accumulation_added(doc, new_power).consistent(),
    {
        match doc.document_data {
            DocumentDataView::ProductIdentify { cart_id, .. } => {
                self.lemma_coupled_power_added(doc, cart_id, true, new_power);
            },
            DocumentDataView::ProductTry { cart_id, .. } => {
                self.lemma_coupled_power_added(doc, cart_id, false, new_power);
            },
            _ => {},
        }
    }

    proof fn lemma_coupled_power_added(
        self,
        doc: DocumentView,
        cart_id: Seq<u8>,
        is_identify: bool,
        new_power: DocumentPower,
    )
        requires
            self.consistent(),
        ensures
            self.coupled_power_added(doc, cart_id, is_identify, new_power).consistent(),
    {
        let key = (doc.app_id, cart_id);
        let model = self.model_of_product(doc.app_id, doc.product_id);
        if !self.is_slashed(key) && model is Some {
            let need_publish = if is_identify {
                !self.cart_try_index.dom().contains(key)
            } else {
                !self.cart_identify_index.dom().contains(key)
            };
            let publish_power = if need_publish {
                self.document_power((doc.app_id, self.publish_doc_of(doc)))
            } else {
                DocumentPower { attend: 0, content: 0, judge: 0 }
            };
            let stored = self.power_set(key);
            let with_new = if is_identify {
                CommodityPowerSet { identify: new_power, ..stored }
            } else {
                CommodityPowerSet { try_power: new_power, ..stored }
            };
            let set = if need_publish {
                CommodityPowerSet { publish: publish_power, ..with_new }
            } else {
                with_new
            };
            self.lemma_purchase_power_updated(doc.app_id, model.unwrap(), cart_id, doc.owner, set);
        }
    }

    /// Storing the first power record of a document keeps a state
    /// consistent.
    pub proof fn lemma_document_power_inserted(
        self,
        doc: DocumentView,
        content_power: PowerSize,
        judge_power: PowerSize,
    )
        requires
            self.consistent(),
        ensures
            self.document_power_inserted(doc, content_power, judge_power).consistent(),
    {
        let power = DocumentPower { attend: 0, content: content_power, judge: judge_power };
        let stored = StateView {
            document_powers: self.document_powers.insert((doc.app_id, doc.document_id), power),
            ..self
        };
        stored.lemma_accumulation_added(doc, power);
    }

    /// Assessing a new document keeps a state consistent, and no maximum of
    /// its application falls.
    pub proof fn lemma_content_power_processed(self, doc: DocumentView)
        requires
            self.consistent(),
        ensures
            self.content_power_processed(doc).consistent(),
            self.content_power_processed(doc).app(doc.app_id).maxima_at_least(self.app(doc.app_id)),
    {
        let app = self.app(doc.app_id);
        let content = content_power_for(self.config, app, doc.document_data);
        let judge = initial_judge_power_for(self.config, doc);
        let raised = StateView {
            apps: self.apps.insert(doc.app_id, app_after_document(app, doc.document_data)),
            ..self
        };
        raised.lemma_document_power_inserted(doc, content as PowerSize, judge as PowerSize);
        let assessed = raised.document_power_inserted(doc, content as PowerSize, judge as PowerSize);
        assert(assessed.apps == raised.apps) by {
            raised.lemma_document_power_inserted_frame(doc, content as PowerSize, judge as PowerSize);
        }
    }

    /// Storing the first power record of a document leaves the records of
    /// the applications alone.
    pub proof fn lemma_document_power_inserted_frame(
        self,
        doc: DocumentView,
        content_power: PowerSize,
        judge_power: PowerSize,
    )
        ensures
            self.document_power_inserted(doc, content_power, judge_power).apps == self.apps,
            self.document_power_inserted(doc, content_power, judge_power).config == self.config,
    {
    }

    /// New attend and judge parts of a document change neither the records
    /// of the applications, nor the black list, nor the documents, nor the
    /// bases.
    pub proof fn lemma_document_power_updated_frame(
        self,
        doc: DocumentView,
        attend_power: PowerSize,
        judge_power: PowerSize,
    )
        ensures
            self.document_power_updated(doc, attend_power, judge_power).apps == self.apps,
            self.document_power_updated(doc, attend_power, judge_power).purchase_black_list
                == self.purchase_black_list,
            self.document_power_updated(doc, attend_power, judge_power).documents
                == self.documents,
            self.document_power_updated(doc, attend_power, judge_power).comment_power_base
                == self.comment_power_base,
            self.document_power_updated(doc, attend_power, judge_power).config == self.config,
    {
    }

    /// New attend and judge parts of a document keep a state consistent.
    pub proof fn lemma_document_power_updated(
        self,
        doc: DocumentView,
        attend_power: PowerSize,
        judge_power: PowerSize,
    )
        requires
            self.consistent(),
        ensures
            self.document_power_updated(doc, attend_power, judge_power).consistent(),
    {
        match doc.document_data {
            DocumentDataView::ProductIdentify { cart_id, .. } => {
                self.lemma_coupled_power_updated(doc, cart_id, true, attend_power, judge_power);
            },
            DocumentDataView::ProductTry { cart_id, .. } => {
                self.lemma_coupled_power_updated(doc, cart_id, false, attend_power, judge_power);
            },
            _ => {},
        }
    }

    proof fn lemma_coupled_power_updated(
        self,
        doc: DocumentView,
        cart_id: Seq<u8>,
        is_identify: bool,
        attend_power: PowerSize,
        judge_power: PowerSize,
    )
        requires
            self.consistent(),
        ensures
            self.coupled_power_updated(
                doc,
                cart_id,
                is_identify,
                attend_power,
                judge_power,
            ).consistent(),
    {
        let cart_key = (doc.app_id, cart_id);
        let model = self.model_of_product(doc.app_id, doc.product_id);
        if !self.is_slashed(cart_key) && model is Some {
            let stored = self.power_set(cart_key);
            let part = self.power_after_update(doc, attend_power, judge_power);
            let set = if is_identify {
                CommodityPowerSet { identify: part, ..stored }
            } else {
                CommodityPowerSet { try_power: part, ..stored }
            };
            self.lemma_purchase_power_updated(doc.app_id, model.unwrap(), cart_id, doc.owner, set);
        }
    }

    /// No diverging document power: after an identify or a try document of
    /// a commodity that is not slashed took new parts, the commodity's part
    /// for the document is the stored power of the document.
    pub proof fn lemma_part_is_document_power(
        self,
        doc: DocumentView,
        cart_id: Seq<u8>,
        is_identify: bool,
        attend_power: PowerSize,
        judge_power: PowerSize,
    )
        requires
            !self.is_slashed((doc.app_id, cart_id)),
            self.model_of_product(doc.app_id, doc.product_id) is Some,
        ensures
            ({
                let after = self.coupled_power_updated(
                    doc,
                    cart_id,
                    is_identify,
                    attend_power,
                    judge_power,
                );
                let set = after.power_set((doc.app_id, cart_id));
                let stored = after.document_power((doc.app_id, doc.document_id));
                if is_identify {
                    set.identify == stored
                } else {
                    set.try_power == stored
                }
            }),
    {
    }
}

/// The judgement that the two trend flags of `doc` add up to.
pub fn compute_doc_trend_power(doc: &KPDocumentData) -> (power: Ratio)
    ensures
        power@ == trend_power(doc@.expert_trend, doc@.platform_trend),
{
    compute_trend_power(doc.expert_trend, doc.platform_trend)
}

impl Module {
    /// The stored power of a document, or no power.
    pub fn stored_document_power(
        &self,
        app_id: u32,
        document_id: &Vec<u8>,
    ) -> (power: DocumentPower)
        requires
            self.wf(),
        ensures
            power == self@.document_power((app_id, document_id@)),
    {
        let key = ScopedId::new(app_id, document_id);
        match self.document_powers.get(&key) {
            Some(power) => *power,
            None => DocumentPower::empty(),
        }
    }

    /// The stored powers of a commodity, or no power.
    pub fn stored_power_set(&self, app_id: u32, cart_id: &Vec<u8>) -> (set: CommodityPowerSet)
        requires
            self.wf(),
        ensures
            set == self@.power_set((app_id, cart_id@)),
    {
        let key = ScopedId::new(app_id, cart_id);
        match self.purchase_powers.get(&key) {
            Some(set) => *set,
            None => CommodityPowerSet::empty(),
        }
    }

    /// The record of an account within an application.
    pub fn stored_app_account(&self, app_id: u32, account: &Vec<u8>) -> (record: AppAccountRecord)
        requires
            self.wf(),
        ensures
            record == self@.app_account((app_id, account@)),
    {
        let key = ScopedId::new(app_id, account);
        match self.app_accounts.get(&key) {
            Some(record) => *record,
            None => AppAccountRecord::new(),
        }
    }

    /// The record of an application.
    pub fn stored_app(&self, app_id: u32) -> (record: AppRecord)
        requires
            self.wf(),
        ensures
            record == self@.app(app_id),
    {
        match self.apps.get(&app_id) {
            Some(record) => *record,
            None => AppRecord::new(),
        }
    }

    /// The identifier of the publish document that stands behind the
    /// document `doc_id`: that of the stored document's product, and the
    /// empty identifier where the product is unknown.
    pub fn get_pub_docid_from_doc(&self, app_id: u32, doc_id: &Vec<u8>) -> (publish_doc_id: Vec<u8>)
        requires
            self.wf(),
        ensures
            publish_doc_id@ == lookup(
                self@.product_index,
                (app_id, self@.document((app_id, doc_id@)).product_id),
                Seq::empty(),
            ),
    {
        let doc_key = ScopedId::new(app_id, doc_id);
        let product_key = match self.documents.get(&doc_key) {
            Some(doc) => ScopedId::new(app_id, &doc.product_id),
            None => {
                let nothing: Vec<u8> = Vec::new();
                ScopedId::new(app_id, &nothing)
            },
        };
        match self.product_index.get(&product_key) {
            Some(id) => bytes_clone(id),
            None => Vec::new(),
        }
    }

    fn add_coupled_power(
        &mut self,
        new_power: &DocumentPower,
        doc: &KPDocumentData,
        cart_id: &Vec<u8>,
        is_identify: bool,
    ) -> (done: Option<u32>)
        requires
            old(self).wf(),
        ensures
            final(self).wf(),
            final(self)@ == old(self)@.coupled_power_added(doc@, cart_id@, is_identify, *new_power),
            done == (if old(self)@.is_slashed((doc@.app_id, cart_id@)) || old(
                self,
            )@.model_of_product(doc@.app_id, doc@.product_id) is None {
                None
            } else {
                Some(0u32)
            }),
    {
        let ghost before = self@;
        proof {
            before.lemma_coupled_power_added(doc@, cart_id@, is_identify, *new_power);
        }
        let key = ScopedId::new(doc.app_id, cart_id);
        let is_need_add_publish = if is_identify {
            !self.cart_try_index.contains_key(&key)
        } else {
            !self.cart_identify_index.contains_key(&key)
        };
        let mut commodity_power = self.stored_power_set(doc.app_id, cart_id);
        if is_identify {
            commodity_power.identify = *new_power;
        } else {
            commodity_power.try_power = *new_power;
        }
        let mut publish_power = DocumentPower::empty();
        if is_need_add_publish {
            let publish_doc_key = ScopedId::new(doc.app_id, &doc.product_id);
            publish_power =
            match self.product_index.get(&publish_doc_key) {
                Some(publish_doc_id) => self.stored_document_power(doc.app_id, publish_doc_id),
                None => {
                    let nothing: Vec<u8> = Vec::new();
                    self.stored_document_power(doc.app_id, &nothing)
                },
            };
            commodity_power.publish = publish_power;
        }
        if self.purchase_black_list.contains_key(&key) {
            return None;
        }
        match self.get_model_id_from_product(doc.app_id, &doc.product_id) {
            None => {
                return None;
            },
            Some(model_id) => {
                self.update_purchase_power(
                    &commodity_power,
                    doc.app_id,
                    &model_id,
                    cart_id,
                    &doc.owner,
                );
            },
        }
        let ghost updated = self@;
        let owner_key = ScopedId::new(doc.app_id, &doc.owner);
        let mut record = self.stored_app_account(doc.app_id, &doc.owner);
        record.accumulation = &record.accumulation + new_power + publish_power;
        self.app_accounts.insert(owner_key, record);
        proof {
            updated.lemma_same_powers_consistent(self@);
        }
        Some(0)
    }

    /// Takes the power of the freshly created document `doc` into its
    /// commodity and into the accumulated power of its owner. Returns
    /// `None` where nothing was done: for a document that is neither an
    /// identify nor a try document, for a slashed commodity, and where the
    /// model of the product cannot be found.
    pub fn add_accumulation_document_power(
        &mut self,
        new_power: &DocumentPower,
        doc: &KPDocumentData,
    ) -> (done:
        Option<u32>)
        requires
            old(self).wf(),
        ensures
            final(self).wf(),
            final(self)@ == old(self)@.accumulation_added(doc@, *new_power),
            done == (if cart_of(doc@) is None || old(self)@.commodity_closed(doc@) {
                None
            } else {
                Some(0u32)
            }),
    {
        match &doc.document_data {
            DocumentSpecificData::ProductIdentify(data) => self.add_coupled_power(
                new_power,
                doc,
                &data.cart_id,
                true,
            ),
            DocumentSpecificData::ProductTry(data) => self.add_coupled_power(
                new_power,
                doc,
                &data.cart_id,
                false,
            ),
            _ => None,
        }
    }

    /// Stores the first power record of `doc` and takes it into the
    /// document's commodity.
    pub fn insert_document_power(
        &mut self,
        doc: &KPDocumentData,
        content_power: PowerSize,
        judge_power: PowerSize,
    )
        requires
            old(self).wf(),
        ensures
            final(self).wf(),
            final(self)@ == old(self)@.document_power_inserted(doc@, content_power, judge_power),
    {
        let ghost before = self@;
        let key = ScopedId::new(doc.app_id, &doc.document_id);
        let power = DocumentPower { attend: 0, content: content_power, judge: judge_power };
        self.document_powers.insert(key, power);
        proof {
            before.lemma_same_powers_consistent(self@);
        }
        let _ = self.add_accumulation_document_power(&power, doc);
    }

    /// Assesses the freshly created document `doc`.
    pub fn process_document_content_power(&mut self, doc: &KPDocumentData)
        requires
            old(self).wf(),
        ensures
            final(self).wf(),
            final(self)@ == old(self)@.content_power_processed(doc@),
            final(self)@.app(doc@.app_id).maxima_at_least(old(self)@.app(doc@.app_id)),
    {
        let ghost before = self@;
        proof {
            before.lemma_content_power_processed(doc@);
        }
        let mut app = self.stored_app(doc.app_id);
        let trend = compute_doc_trend_power(doc);
        let content_power: PowerSize;
        let initial_judge_power: PowerSize;
        match &doc.document_data {
            DocumentSpecificData::ProductPublish(data) => {
                let (para_max, para_issue_rate_p): (PowerSize, Ratio) = update_max(
                    data.para_issue_rate,
                    app.publish_max.para_issue_rate,
                );
                let (self_max, self_issue_rate_p): (PowerSize, Ratio) = update_max(
                    data.self_issue_rate,
                    app.publish_max.self_issue_rate,
                );
                app.publish_max =
                KPProductPublishRateMax { para_issue_rate: para_max, self_issue_rate: self_max };
                content_power =
                self.config.compute_publish_product_content_power(
                    para_issue_rate_p,
                    self_issue_rate_p,
                );
                initial_judge_power =
                compute_judge_power(
                    trend,
                    self.config.top_weight_product_publish,
                    self.config.document_power_weight_judge,
                );
            },
            DocumentSpecificData::ProductIdentify(data) => {
                let (rate_max, ident_rate_p): (PowerSize, Ratio) = update_max(
                    data.ident_rate,
                    app.identify_max.ident_rate,
                );
                let (consistence_max, ident_consistence_p): (PowerSize, Ratio) = update_max(
                    data.ident_consistence,
                    app.identify_max.ident_consistence,
                );
                app.identify_max =
                KPProductIdentifyRateMax {
                    ident_rate: rate_max,
                    ident_consistence: consistence_max,
                };
                content_power =
                self.config.compute_identify_content_power(ident_rate_p, ident_consistence_p);
                initial_judge_power =
                compute_judge_power(
                    trend,
                    self.config.top_weight_document_identify,
                    self.config.document_power_weight_judge,
                );
            },
            DocumentSpecificData::ProductTry(data) => {
                let (offset_max, offset_rate_p): (PowerSize, Ratio) = update_max(
                    data.offset_rate,
                    app.try_max.offset_rate,
                );
                let (true_max, true_rate_p): (PowerSize, Ratio) = update_max(
                    data.true_rate,
                    app.try_max.true_rate,
                );
                app.try_max = KPProductTryRateMax { offset_rate: offset_max, true_rate: true_max };
                content_power = self.config.compute_try_content_power(offset_rate_p, true_rate_p);
                initial_judge_power =
                compute_judge_power(
                    trend,
                    self.config.top_weight_document_try,
                    self.config.document_power_weight_judge,
                );
            },
            DocumentSpecificData::ProductChoose(data) => {
                let (sell_max, sell_count_p): (PowerSize, Ratio) = update_max(
                    data.sell_count,
                    app.choose_max.sell_count,
                );
                let (try_max, try_count_p): (PowerSize, Ratio) = update_max(
                    data.try_count,
                    app.choose_max.try_count,
                );
                app.choose_max = KPProductChooseDataMax { sell_count: sell_max, try_count: try_max };
                content_power = self.config.compute_choose_content_power(sell_count_p, try_count_p);
                initial_judge_power =
                compute_judge_power(trend, FULL_WEIGHT, self.config.document_cm_power_weight_judge);
            },
            DocumentSpecificData::ModelCreate(data) => {
                let (producer_max, producer_count_p): (PowerSize, Ratio) = update_max(
                    data.producer_count,
                    app.model_create_max.producer_count,
                );
                let (product_max, product_count_p): (PowerSize, Ratio) = update_max(
                    data.product_count,
                    app.model_create_max.product_count,
                );
                app.model_create_max =
                KPModelCreateDataMax { producer_count: producer_max, product_count: product_max };
                content_power =
                self.config.compute_model_content_power(producer_count_p, product_count_p);
                initial_judge_power =
                compute_judge_power(trend, FULL_WEIGHT, self.config.document_cm_power_weight_judge);
            },
        }
        assert(app == app_after_document(before.app(doc@.app_id), doc@.document_data));
        assert(content_power == content_power_for(
            before.config,
            before.app(doc@.app_id),
            doc@.document_data,
        ));
        assert(initial_judge_power == initial_judge_power_for(before.config, doc@));
        self.apps.insert(doc.app_id, app);
        proof {
            before.lemma_same_powers_consistent(self@);
        }
        self.insert_document_power(doc, content_power, initial_judge_power);
        let ghost assessed = self@;
        let owner_key = ScopedId::new(doc.app_id, &doc.owner);
        let mut owner_doc_ids = match self.account_document_set.remove(&owner_key) {
            Some(ids) => ids,
            None => IdList::new(),
        };
        owner_doc_ids.push(bytes_clone(&doc.document_id));
        self.account_document_set.insert(owner_key, owner_doc_ids);
        proof {
            assessed.lemma_same_powers_consistent(self@);
            assert(self@.account_document_set =~= before.content_power_processed(
                doc@,
            ).account_document_set);
        }
    }

    fn update_own_power(
        &mut self,
        app_id: u32,
        document_id: &Vec<u8>,
        attend_power: PowerSize,
        judge_power: PowerSize,
    )
        requires
            old(self).wf(),
        ensures
            final(self).wf(),
            final(self)@ == old(self)@.own_power_updated(
                (app_id, document_id@),
                attend_power,
                judge_power,
            ),
    {
        let ghost before = self@;
        let mut org_power = self.stored_document_power(app_id, document_id);
        if attend_power > 0 {
            org_power.attend = attend_power;
        }
        if judge_power > 0 {
            org_power.judge = judge_power;
        }
        self.document_powers.insert(ScopedId::new(app_id, document_id), org_power);
        proof {
            before.lemma_same_powers_consistent(self@);
        }
    }

    fn update_coupled_power(
        &mut self,
        doc: &KPDocumentData,
        cart_id: &Vec<u8>,
        is_identify: bool,
        attend_power: PowerSize,
        judge_power: PowerSize,
    ) -> (done: Option<u32>)
        requires
            old(self).wf(),
        ensures
            final(self).wf(),
            final(self)@ == old(self)@.coupled_power_updated(
                doc@,
                cart_id@,
                is_identify,
                attend_power,
                judge_power,
            ),
            done == (if !old(self)@.is_slashed((doc@.app_id, cart_id@)) && old(
                self,
            )@.model_of_product(doc@.app_id, doc@.product_id) is None {
                None
            } else {
                Some(0u32)
            }),
    {
        let ghost before = self@;
        proof {
            before.lemma_coupled_power_updated(doc@, cart_id@, is_identify, attend_power, judge_power);
        }
        let org_power = self.stored_document_power(doc.app_id, &doc.document_id);
        let commodity_key = ScopedId::new(doc.app_id, cart_id);
        if self.purchase_black_list.contains_key(&commodity_key) {
            self.update_own_power(doc.app_id, &doc.document_id, attend_power, judge_power);
            return Some(0);
        }
        let mut part = org_power;
        if attend_power > 0 {
            part.attend = attend_power;
        }
        if judge_power > 0 {
            part.judge = judge_power;
        }
        let mut commodity_power = self.stored_power_set(doc.app_id, cart_id);
        if is_identify {
            commodity_power.identify = part;
        } else {
            commodity_power.try_power = part;
        }
        match self.get_model_id_from_product(doc.app_id, &doc.product_id) {
            None => {
                return None;
            },
            Some(model_id) => {
                self.update_purchase_power(
                    &commodity_power,
                    doc.app_id,
                    &model_id,
                    cart_id,
                    &doc.owner,
                );
            },
        }
        let ghost updated = self@;
        let mut record = self.stored_app_account(doc.app_id, &doc.owner);
        if attend_power > 0 {
            record.accumulation.attend = power_sub(record.accumulation.attend, org_power.attend);
            record.accumulation.attend = power_add(record.accumulation.attend, attend_power);
        }
        if judge_power > 0 {
            record.accumulation.judge = power_sub(record.accumulation.judge, org_power.judge);
            record.accumulation.judge = power_add(record.accumulation.judge, judge_power);
        }
        self.app_accounts.insert(ScopedId::new(doc.app_id, &doc.owner), record);
        proof {
            updated.lemma_same_powers_consistent(self@);
        }
        self.update_own_power(doc.app_id, &doc.document_id, attend_power, judge_power);
        Some(0)
    }

    /// Gives `doc` new attend and judge parts and lets its commodity and
    /// its owner follow; the commodity's part for the document is then the
    /// document's stored power. Returns `None` where nothing was done
    /// because the model of the product cannot be found.
    pub fn update_document_power(
        &mut self,
        doc: &KPDocumentData,
        attend_power: PowerSize,
        judge_power: PowerSize,
    ) -> (done:
        Option<u32>)
        requires
            old(self).wf(),
        ensures
            final(self).wf(),
            final(self)@ == old(self)@.document_power_updated(doc@, attend_power, judge_power),
            !old(self)@.commodity_closed(doc@) ==> final(self)@.part_is_document_power(doc@),
            done == (if old(self)@.coupling_blocked(doc@) {
                None
            } else {
                Some(0u32)
            }),
    {
        proof {
            match doc@.document_data {
                DocumentDataView::ProductIdentify { cart_id, .. } => {
                    if !self@.commodity_closed(doc@) {
                        self@.lemma_part_is_document_power(
                            doc@,
                            cart_id,
                            true,
                            attend_power,
                            judge_power,
                        );
                    }
                },
                DocumentDataView::ProductTry { cart_id, .. } => {
                    if !self@.commodity_closed(doc@) {
                        self@.lemma_part_is_document_power(
                            doc@,
                            cart_id,
                            false,
                            attend_power,
                            judge_power,
                        );
                    }
                },
                _ => {},
            }
        }
        match &doc.document_data {
            DocumentSpecificData::ProductIdentify(data) => self.update_coupled_power(
                doc,
                &data.cart_id,
                true,
                attend_power,
                judge_power,
            ),
            DocumentSpecificData::ProductTry(data) => self.update_coupled_power(
                doc,
                &data.cart_id,
                false,
                attend_power,
                judge_power,
            ),
            _ => {
                self.update_own_power(doc.app_id, &doc.document_id, attend_power, judge_power);
                Some(0)
            },
        }
    }
}

} // verus!
