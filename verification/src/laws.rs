//! What holds of every state that submissions lead to: each operation of
//! the engine keeps a consistent state consistent, lets no running maximum
//! fall, takes no commodity off the black list, and changes no trend flag
//! that was set.

use vstd::prelude::*;
use crate::comment::judge_power_on_comment;
use crate::commodity_type::{lemma_type_rank, type_listed, type_rank};
use crate::config::Config;
use crate::dispatch::Authority;
use crate::ledger::{live, power_sum};
use crate::leaderboard::LeaderView;
use crate::power::{CommodityPowerSet, DocumentPower, PowerSize, PowerSum};
use crate::state::{Module, StateView};
use crate::types::{CommentTrend, CommentView, DocumentView, ModelView};

verus! {

/// A trend flag is written once: a flag that was set has not changed.
pub open spec fn flag_kept(before: CommentTrend, after: CommentTrend) -> bool {
    before != CommentTrend::Empty ==> after == before
}

impl StateView {
    /// No running maximum of any application is below what it was in
    /// `earlier`.
    pub open spec fn maxima_at_least(self, earlier: StateView) -> bool {
        forall|app_id: u32| #[trigger] self.app(app_id).maxima_at_least(earlier.app(app_id))
    }

    /// Every commodity that was slashed in `earlier` is slashed.
    pub open spec fn slashed_at_least(self, earlier: StateView) -> bool {
        forall|key: (u32, Seq<u8>)| earlier.is_slashed(key) ==> #[trigger] self.is_slashed(key)
    }

    /// Every document of `earlier` is stored, with the trend flags that
    /// were set in `earlier`.
    pub open spec fn trends_kept(self, earlier: StateView) -> bool {
        forall|key: (u32, Seq<u8>)| #[trigger]
            earlier.documents.dom().contains(key) ==> {
                &&& self.documents.dom().contains(key)
                &&& flag_kept(earlier.documents[key].expert_trend, self.documents[key].expert_trend)
                &&& flag_kept(
                    earlier.documents[key].platform_trend,
                    self.documents[key].platform_trend,
                )
            }
    }

    /// Every base that a document's attend power is held against is what
    /// it was in `earlier`: a base is frozen at the document's first
    /// comment.
    pub open spec fn bases_kept(self, earlier: StateView) -> bool {
        forall|key: (u32, Seq<u8>)| #[trigger]
            earlier.comment_power_base.dom().contains(key) ==> {
                &&& self.comment_power_base.dom().contains(key)
                &&& self.comment_power_base[key] == earlier.comment_power_base[key]
            }
    }

    /// What every operation keeps of the state `earlier` that it starts
    /// from.
    pub open spec fn follows(self, earlier: StateView) -> bool {
        &&& self.maxima_at_least(earlier)
        &&& self.slashed_at_least(earlier)
        &&& self.trends_kept(earlier)
        &&& self.bases_kept(earlier)
    }

    /// `follows` is reflexive and transitive, so that it holds from the
    /// first to the last state of any sequence of operations of which each
    /// one keeps it.
    pub proof fn lemma_follows_order(self, middle: StateView, earlier: StateView)
        requires
            self.follows(middle),
            middle.follows(earlier),
        ensures
            self.follows(earlier),
            self.follows(self),
    {
        assert forall|app_id: u32| #[trigger]
            self.app(app_id).maxima_at_least(earlier.app(app_id)) by {
            assert(self.app(app_id).maxima_at_least(middle.app(app_id)));
            assert(middle.app(app_id).maxima_at_least(earlier.app(app_id)));
        }
        assert forall|key: (u32, Seq<u8>)| earlier.is_slashed(key) implies #[trigger]
            self.is_slashed(key) by {
            assert(middle.is_slashed(key));
        }
        assert forall|key: (u32, Seq<u8>)| #[trigger]
            earlier.documents.dom().contains(key) implies {
            &&& self.documents.dom().contains(key)
            &&& flag_kept(earlier.documents[key].expert_trend, self.documents[key].expert_trend)
            &&& flag_kept(earlier.documents[key].platform_trend, self.documents[key].platform_trend)
        } by {
            assert(middle.documents.dom().contains(key));
        }
        assert forall|key: (u32, Seq<u8>)| #[trigger]
            earlier.comment_power_base.dom().contains(key) implies {
            &&& self.comment_power_base.dom().contains(key)
            &&& self.comment_power_base[key] == earlier.comment_power_base[key]
        } by {
            assert(middle.comment_power_base.dom().contains(key));
        }
    }

    /// A state with the same applications, black list, documents and bases
    /// follows.
    pub proof fn lemma_same_history(self, earlier: StateView)
        requires
            self.apps == earlier.apps,
            self.purchase_black_list == earlier.purchase_black_list,
            self.documents == earlier.documents,
            self.comment_power_base == earlier.comment_power_base,
        ensures
            self.follows(earlier),
    {
    }

    /// Assessing a document keeps a state consistent and follows.
    pub proof fn lemma_assessing_follows(self, doc: DocumentView)
        requires
            self.consistent(),
        ensures
            self.content_power_processed(doc).consistent(),
            self.content_power_processed(doc).follows(self),
            self.content_power_processed(doc).documents == self.documents,
    {
        let after = self.content_power_processed(doc);
        self.lemma_content_power_processed(doc);
        assert forall|app_id: u32| #[trigger]
            after.app(app_id).maxima_at_least(self.app(app_id)) by {
            if app_id != doc.app_id {
                assert(after.apps.dom().contains(app_id) == self.apps.dom().contains(app_id));
            }
        }
        assert(after.purchase_black_list == self.purchase_black_list);
        assert(after.comment_power_base == self.comment_power_base);
    }

    /// Bringing a commodity up to date keeps a state consistent and
    /// follows.
    pub proof fn lemma_commodity_processing_follows(self, doc: DocumentView)
        requires
            self.consistent(),
        ensures
            self.commodity_power_processed(doc).consistent(),
            self.commodity_power_processed(doc).follows(self),
            self.commodity_power_processed(doc).documents == self.documents,
    {
        self.lemma_commodity_power_processed(doc);
        let after = self.commodity_power_processed(doc);
        assert(after.apps == self.apps);
        assert(after.purchase_black_list == self.purchase_black_list);
        assert(after.comment_power_base == self.comment_power_base);
        after.lemma_same_history(self);
    }

    /// Creating a choose or a model-create document that is not stored yet
    /// keeps a state consistent and follows.
    pub proof fn lemma_document_created(self, doc: DocumentView)
        requires
            self.consistent(),
            !self.documents.dom().contains((doc.app_id, doc.document_id)),
        ensures
            self.document_created(doc).consistent(),
            self.document_created(doc).follows(self),
    {
        self.lemma_assessing_follows(doc);
        let assessed = self.content_power_processed(doc);
        assessed.lemma_commodity_processing_follows(doc);
        let processed = assessed.commodity_power_processed(doc);
        let created = processed.document_stored(doc);
        processed.lemma_same_powers_consistent(created);
        assert(created.follows(processed));
        created.lemma_follows_order(processed, assessed);
        created.lemma_follows_order(assessed, self);
    }

    /// Creating a publish document that is not stored yet keeps a state
    /// consistent and follows.
    pub proof fn lemma_publish_document_created(self, doc: DocumentView)
        requires
            self.consistent(),
            !self.documents.dom().contains((doc.app_id, doc.document_id)),
        ensures
            self.publish_document_created(doc).consistent(),
            self.publish_document_created(doc).follows(self),
    {
        self.lemma_document_created(doc);
        let created = self.document_created(doc);
        let published = self.publish_document_created(doc);
        created.lemma_same_powers_consistent(published);
        published.lemma_same_history(created);
        published.lemma_follows_order(created, self);
    }

    /// Creating an identify or a try document that is not stored yet keeps
    /// a state consistent and follows.
    pub proof fn lemma_coupled_document_created(
        self,
        doc: DocumentView,
        cart_id: Seq<u8>,
        is_identify: bool,
    )
        requires
            self.consistent(),
            !self.documents.dom().contains((doc.app_id, doc.document_id)),
        ensures
            self.coupled_document_created(doc, cart_id, is_identify).consistent(),
            self.coupled_document_created(doc, cart_id, is_identify).follows(self),
    {
        self.lemma_assessing_follows(doc);
        let assessed = self.content_power_processed(doc);
        assessed.lemma_commodity_processing_follows(doc);
        let processed = assessed.commodity_power_processed(doc);
        let indexed = if is_identify {
            StateView {
                cart_identify_index: processed.cart_identify_index.insert(
                    (doc.app_id, cart_id),
                    doc.document_id,
                ),
                ..processed
            }
        } else {
            StateView {
                cart_try_index: processed.cart_try_index.insert(
                    (doc.app_id, cart_id),
                    doc.document_id,
                ),
                ..processed
            }
        };
        let stored = indexed.document_stored(doc);
        processed.lemma_same_powers_consistent(stored);
        assert(stored.follows(processed));
        let counted = stored.commodity_count_increased(
            doc.app_id,
            doc.model_id,
            cart_id,
            doc.document_type,
            doc.owner,
        );
        stored.lemma_same_powers_consistent(counted);
        assert forall|app_id: u32| #[trigger]
            counted.app(app_id).maxima_at_least(stored.app(app_id)) by {
            if app_id != doc.app_id {
                assert(counted.apps.dom().contains(app_id) == stored.apps.dom().contains(
                    app_id,
                ));
            }
        }
        assert(counted.follows(stored));
        counted.lemma_follows_order(stored, processed);
        counted.lemma_follows_order(processed, assessed);
        counted.lemma_follows_order(assessed, self);
    }

    /// Processing a comment keeps a state consistent and follows.
    pub proof fn lemma_comment_processing_follows(
        self,
        comment: CommentView,
        is_expert: bool,
        is_platform: bool,
    )
        requires
            self.consistent(),
        ensures
            self.comment_power_processed(comment, is_expert, is_platform).consistent(),
            self.comment_power_processed(comment, is_expert, is_platform).follows(self),
    {
        self.lemma_comment_power_processed(comment, is_expert, is_platform);
        let recorded = self.comment_recorded(comment, is_expert, is_platform);
        self.lemma_comment_recorded_follows(comment, is_expert, is_platform);
        let judged = self.judged_document(comment, is_expert, is_platform);
        let attend = self.document_attend_power(comment) as PowerSize;
        let judge = judge_power_on_comment(
            self.commented_document(comment),
            comment.comment_trend,
            is_expert,
            is_platform,
        ) as PowerSize;
        recorded.lemma_document_power_updated_frame(judged, attend, judge);
        let powered = recorded.document_power_updated(judged, attend, judge);
        powered.lemma_same_history(recorded);
        let after = self.comment_power_processed(comment, is_expert, is_platform);
        assert(after == powered.comment_pooled(comment, judged).comment_counted(comment));
        after.lemma_same_history(powered);
        after.lemma_follows_order(powered, recorded);
        after.lemma_follows_order(recorded, self);
    }

    /// Recording the figures of a comment follows.
    pub proof fn lemma_comment_recorded_follows(
        self,
        comment: CommentView,
        is_expert: bool,
        is_platform: bool,
    )
        requires
            self.consistent(),
        ensures
            self.comment_recorded(comment, is_expert, is_platform).follows(self),
    {
        let after = self.comment_recorded(comment, is_expert, is_platform);
        self.lemma_comment_recorded(comment, is_expert, is_platform);
        assert forall|app_id: u32| #[trigger]
            after.app(app_id).maxima_at_least(self.app(app_id)) by {
            if app_id != comment.app_id {
                assert(after.apps.dom().contains(app_id) == self.apps.dom().contains(app_id));
            }
        }
        let doc_key = (comment.app_id, comment.document_id);
        assert forall|key: (u32, Seq<u8>)| #[trigger] self.documents.dom().contains(key) implies {
            &&& after.documents.dom().contains(key)
            &&& flag_kept(self.documents[key].expert_trend, after.documents[key].expert_trend)
            &&& flag_kept(self.documents[key].platform_trend, after.documents[key].platform_trend)
        } by {
            if key != doc_key {
                assert(after.documents[key] == self.documents[key]);
            }
        }
    }

    /// Creating a comment keeps a state consistent and follows.
    pub proof fn lemma_comment_created(
        self,
        comment: CommentView,
        is_expert: bool,
        is_platform: bool,
    )
        requires
            self.consistent(),
        ensures
            self.comment_created(comment, is_expert, is_platform).consistent(),
            self.comment_created(comment, is_expert, is_platform).follows(self),
    {
        self.lemma_comment_processing_follows(comment, is_expert, is_platform);
        let processed = self.comment_power_processed(comment, is_expert, is_platform);
        let doc = processed.document((comment.app_id, comment.document_id));
        processed.lemma_commodity_processing_follows(doc);
        let updated = processed.commodity_power_processed(doc);
        let created = self.comment_created(comment, is_expert, is_platform);
        updated.lemma_same_powers_consistent(created);
        created.lemma_same_history(updated);
        created.lemma_follows_order(updated, processed);
        created.lemma_follows_order(processed, self);
    }

    /// Slashed for good: a slashed commodity takes nothing in. Its powers
    /// cannot be set, it is not put up on a board, a new document of it
    /// adds nothing to its owner's accumulated power, the owner's attend
    /// power is not applied and the owner's miner power is not recomputed
    /// for it, and new parts of one of its documents reach only the stored
    /// power of that document.
    pub proof fn lemma_slashed_commodity_takes_nothing(
        self,
        doc: DocumentView,
        cart_id: Seq<u8>,
        is_identify: bool,
        model_id: Seq<u8>,
        set: CommodityPowerSet,
        new_power: DocumentPower,
        attend_power: PowerSize,
        judge_power: PowerSize,
    )
        requires
            self.is_slashed((doc.app_id, cart_id)),
        ensures
            self.purchase_power_updated(doc.app_id, model_id, cart_id, doc.owner, set) == self,
            self.board_put_up(
                doc.app_id,
                model_id,
                LeaderView { cart_id, power: set.total_of(), owner: doc.owner },
            ) == self,
            self.coupled_power_added(doc, cart_id, is_identify, new_power) == self,
            self.owner_power_applied(doc, cart_id) == self,
            self.coupled_power_updated(doc, cart_id, is_identify, attend_power, judge_power)
                == self.own_power_updated(
                (doc.app_id, doc.document_id),
                attend_power,
                judge_power,
            ),
    {
    }

    /// Slashing on a report keeps a state consistent, follows, and changes
    /// nothing when it is done a second time.
    pub proof fn lemma_commodity_slashed_on_report(
        self,
        app_id: u32,
        cart_id: Seq<u8>,
        comment_id: Seq<u8>,
    )
        requires
            self.consistent(),
        ensures
            self.commodity_slashed_on_report(app_id, cart_id, comment_id).consistent(),
            self.commodity_slashed_on_report(app_id, cart_id, comment_id).follows(self),
            self.commodity_slashed_on_report(
                app_id,
                cart_id,
                comment_id,
            ).commodity_slashed_on_report(app_id, cart_id, comment_id)
                == self.commodity_slashed_on_report(app_id, cart_id, comment_id),
    {
        let doc = self.documents[(app_id, self.comments[(app_id, comment_id)].document_id)];
        self.lemma_commodity_slashed(app_id, cart_id, doc.owner);
        self.lemma_slash_idempotent(app_id, cart_id, doc.owner);
        let once = self.commodity_slashed(app_id, cart_id, doc.owner);
        assert(once.documents == self.documents);
        assert(once.comments == self.comments);
        assert(once.apps == self.apps);
        assert(once.comment_power_base == self.comment_power_base);
    }

    /// A draw keeps a state consistent and follows.
    pub proof fn lemma_lottery_drawn(
        self,
        block: u64,
        app_id: u32,
        model_id: Seq<u8>,
        seed: Seq<u8>,
    )
        requires
            self.consistent(),
        ensures
            self.lottery_drawn(block, app_id, model_id, seed).consistent(),
            self.lottery_drawn(block, app_id, model_id, seed).follows(self),
    {
        self.lemma_same_powers_consistent(self.lottery_drawn(block, app_id, model_id, seed));
        self.lottery_drawn(block, app_id, model_id, seed).lemma_same_history(self);
    }

    /// Creating a model keeps a state consistent and follows.
    pub proof fn lemma_model_created(self, model: ModelView)
        requires
            self.consistent(),
        ensures
            self.model_created(model).consistent(),
            self.model_created(model).follows(self),
    {
        let after = self.model_created(model);
        self.lemma_same_powers_consistent(after);
        assert forall|app_id: u32| #[trigger]
            after.app(app_id).maxima_at_least(self.app(app_id)) by {
            if app_id != model.app_id {
                assert(after.apps.dom().contains(app_id) == self.apps.dom().contains(app_id));
            }
        }
    }

    /// Setting the number of models that an application may have keeps a
    /// state consistent and follows.
    pub proof fn lemma_app_model_total_set(self, app_id: u32, total: u32)
        requires
            self.consistent(),
        ensures
            self.app_model_total_set(app_id, total).consistent(),
            self.app_model_total_set(app_id, total).follows(self),
    {
        let after = self.app_model_total_set(app_id, total);
        self.lemma_same_powers_consistent(after);
        assert forall|a: u32| #[trigger] after.app(a).maxima_at_least(self.app(a)) by {
            if a != app_id {
                assert(after.apps.dom().contains(a) == self.apps.dom().contains(a));
            }
        }
    }

    /// Listing a new kind of commodity keeps a state consistent and
    /// follows.
    pub proof fn lemma_commodity_type_created(self, type_id: u32, type_desc: Seq<u8>)
        requires
            self.consistent(),
            !type_listed(self.commodity_types, type_id),
        ensures
            self.commodity_type_created(type_id, type_desc).consistent(),
            self.commodity_type_created(type_id, type_desc).follows(self),
    {
        let before = self.commodity_types;
        let after = self.commodity_type_created(type_id, type_desc);
        lemma_type_rank(before, type_id);
        let p = type_rank(before, type_id);
        assert forall|i: int, j: int| 0 <= i < j < after.commodity_types.len() implies after.commodity_types[i].0
            < after.commodity_types[j].0 by {
            if i == p {
                assert(after.commodity_types[j] == before[j - 1]);
                assert(before[j - 1].0 >= type_id);
            } else if j == p {
                assert(after.commodity_types[i] == before[i]);
            } else {
                let i0 = if i < p {
                    i
                } else {
                    i - 1
                };
                let j0 = if j < p {
                    j
                } else {
                    j - 1
                };
                assert(after.commodity_types[i] == before[i0]);
                assert(after.commodity_types[j] == before[j0]);
                assert(before[i0].0 < before[j0].0);
            }
        }
        after.lemma_same_history(self);
    }
}

/// A submission that reaches the engine with full authority.
pub enum Step {
    /// A kind of commodity is listed.
    CommodityType { type_id: u32, type_desc: Seq<u8> },
    /// The number of models that an application may have is set.
    ModelTotal { app_id: u32, total: u32 },
    /// A model is created.
    Model { model: ModelView },
    /// A publish document is created.
    Publish { doc: DocumentView },
    /// An identify document (`is_identify`) or a try document of a cart is
    /// created.
    Coupled { doc: DocumentView, cart_id: Seq<u8>, is_identify: bool },
    /// A choose document is created.
    Choose { doc: DocumentView },
    /// A model-create document is created.
    ModelDocument { doc: DocumentView },
    /// A comment is created.
    Comment { comment: CommentView, is_expert: bool, is_platform: bool },
    /// A commodity is slashed on the report of a comment.
    Slash { app_id: u32, cart_id: Seq<u8>, comment_id: Seq<u8> },
    /// A draw is held.
    Draw { block: u64, app_id: u32, model_id: Seq<u8>, seed: Seq<u8> },
}

/// The authority of a submission that passed every check outside the
/// engine.
pub open spec fn full_authority() -> Authority {
    Authority { user_signed: true, auth_signed: true, app_valid: true, app_key_valid: true }
}

impl StateView {
    /// Whether the engine takes the submission in.
    pub open spec fn accepts(self, step: Step) -> bool {
        match step {
            Step::CommodityType { type_id, .. } => !type_listed(self.commodity_types, type_id),
            Step::ModelTotal { .. } => true,
            Step::Model { model } => self.model_refusal(full_authority(), model) is None,
            Step::Publish { doc } => self.publish_refusal(full_authority(), doc) is None,
            Step::Coupled { doc, cart_id, is_identify } => self.coupled_refusal(
                full_authority(),
                doc.app_id,
                doc.document_id,
                doc.product_id,
                cart_id,
                is_identify,
            ) is None,
            Step::Choose { doc } => self.choose_refusal(full_authority(), doc) is None,
            Step::ModelDocument { doc } => self.model_document_refusal(full_authority(), doc)
                is None,
            Step::Comment { comment, .. } => self.comment_refusal(full_authority(), comment)
                is None,
            Step::Slash { app_id, comment_id, .. } => self.slash_refusal(true, app_id, comment_id)
                is None,
            Step::Draw { .. } => true,
        }
    }

    /// The state after the submission: what the engine makes of a
    /// submission that it takes in, and the same state after one that it
    /// turns away.
    pub open spec fn after(self, step: Step) -> StateView {
        if !self.accepts(step) {
            self
        } else {
            match step {
                Step::CommodityType { type_id, type_desc } => self.commodity_type_created(
                    type_id,
                    type_desc,
                ),
                Step::ModelTotal { app_id, total } => self.app_model_total_set(app_id, total),
                Step::Model { model } => self.model_created(model),
                Step::Publish { doc } => self.publish_document_created(doc),
                Step::Coupled { doc, cart_id, is_identify } => self.coupled_document_created(
                    doc,
                    cart_id,
                    is_identify,
                ),
                Step::Choose { doc } => self.document_created(doc),
                Step::ModelDocument { doc } => self.document_created(doc),
                Step::Comment { comment, is_expert, is_platform } => self.comment_created(
                    comment,
                    is_expert,
                    is_platform,
                ),
                Step::Slash { app_id, cart_id, comment_id } => self.commodity_slashed_on_report(
                    app_id,
                    cart_id,
                    comment_id,
                ),
                Step::Draw { block, app_id, model_id, seed } => self.lottery_drawn(
                    block,
                    app_id,
                    model_id,
                    seed,
                ),
            }
        }
    }

    /// The state after the submissions of `steps`, one after the other.
    pub open spec fn after_all(self, steps: Seq<Step>) -> StateView
        decreases steps.len(),
    {
        if steps.len() == 0 {
            self
        } else {
            self.after_all(steps.drop_last()).after(steps.last())
        }
    }

    /// One submission keeps a state consistent and follows.
    pub proof fn lemma_after(self, step: Step)
        requires
            self.consistent(),
        ensures
            self.after(step).consistent(),
            self.after(step).follows(self),
    {
        self.lemma_same_history(self);
        if self.accepts(step) {
            match step {
                Step::CommodityType { type_id, type_desc } => {
                    self.lemma_commodity_type_created(type_id, type_desc);
                },
                Step::ModelTotal { app_id, total } => {
                    self.lemma_app_model_total_set(app_id, total);
                },
                Step::Model { model } => {
                    self.lemma_model_created(model);
                },
                Step::Publish { doc } => {
                    self.lemma_publish_document_created(doc);
                },
                Step::Coupled { doc, cart_id, is_identify } => {
                    self.lemma_coupled_document_created(doc, cart_id, is_identify);
                },
                Step::Choose { doc } => {
                    self.lemma_document_created(doc);
                },
                Step::ModelDocument { doc } => {
                    self.lemma_document_created(doc);
                },
                Step::Comment { comment, is_expert, is_platform } => {
                    self.lemma_comment_created(comment, is_expert, is_platform);
                },
                Step::Slash { app_id, cart_id, comment_id } => {
                    self.lemma_commodity_slashed_on_report(app_id, cart_id, comment_id);
                },
                Step::Draw { block, app_id, model_id, seed } => {
                    self.lemma_lottery_drawn(block, app_id, model_id, seed);
                },
            }
        }
    }

    /// Every state that submissions lead to from a consistent state is
    /// consistent and follows: the total power is the sum of the powers of
    /// the commodities that were not slashed, every leader board is in
    /// order and within its capacity, no slashed commodity holds a place,
    /// no running maximum has fallen, no commodity has left the black list,
    /// and no trend flag or base that was set has changed.
    pub proof fn lemma_after_all(self, steps: Seq<Step>)
        requires
            self.consistent(),
        ensures
            self.after_all(steps).consistent(),
            self.after_all(steps).follows(self),
        decreases steps.len(),
    {
        if steps.len() == 0 {
            self.lemma_same_history(self);
        } else {
            self.lemma_after_all(steps.drop_last());
            let middle = self.after_all(steps.drop_last());
            middle.lemma_after(steps.last());
            self.after_all(steps).lemma_follows_order(middle, self);
        }
    }

    /// Every state that submissions lead to from the empty state is
    /// consistent.
    pub proof fn lemma_reachable_states_are_consistent(config: Config, steps: Seq<Step>)
        ensures
            StateView::empty(config).after_all(steps).consistent(),
    {
        let start = StateView::empty(config);
        assert(start.consistent()) by {
            let m = start.purchase_powers;
            assert(live(m, start.purchase_black_list.dom()) =~= m);
            assert(m.dom() =~= Set::<(u32, Seq<u8>)>::empty());
            assert(m.dom().len() == 0);
            assert(power_sum(m) == 0);
        }
        start.lemma_after_all(steps);
    }
}

impl Module {
    /// Total-power invariant: in every state that the engine reaches, the
    /// total power is the sum of the powers of the commodities that were
    /// not slashed, a slashed commodity has no power and holds no place on
    /// a leader board, and every leader board is in order, without repeats
    /// and within its capacity.
    pub proof fn lemma_engine_is_consistent(&self)
        requires
            self.wf(),
        ensures
            self@.consistent(),
            self@.powers_add_up(),
            self@.boards_in_order(),
            self@.slashed_off_boards(),
    {
    }
}

} // verus!
