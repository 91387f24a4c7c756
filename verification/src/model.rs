//! Models and the kinds of commodity that they are made for.

use vstd::prelude::*;
use crate::commodity::next_count;
use crate::commodity_type::{type_listed, type_rank};
use crate::comment::count_up;
use crate::dispatch::{Authority, KpError};
use crate::records::AppRecord;
use crate::state::{Module, StateView};
use crate::table::ScopedId;
use crate::types::{KPModelData, ModelStatus, ModelView};

verus! {

/// What a client submits to create a model.
#[derive(Clone, Debug, Default)]
pub struct ClientParamsCreateModel {
    pub app_id: u32,
    pub expert_id: Vec<u8>,
    pub commodity_name: Vec<u8>,
    pub commodity_type: u32,
    pub content_hash: Vec<u8>,
}

/// What the server of the application adds: the identifier of the model.
#[derive(Clone, Debug, Default)]
pub struct AuthParamsCreateModel {
    pub model_id: Vec<u8>,
}

/// The model that `who` submits for the account `owner`.
pub open spec fn model_of(
    client_params: ClientParamsCreateModel,
    auth_params: AuthParamsCreateModel,
    who: Seq<u8>,
    owner: Seq<u8>,
) -> ModelView {
    ModelView {
        app_id: client_params.app_id,
        model_id: auth_params.model_id@,
        expert_id: client_params.expert_id@,
        status: ModelStatus::ENABLED,
        commodity_name: client_params.commodity_name@,
        commodity_type: client_params.commodity_type,
        content_hash: client_params.content_hash@,
        sender: who,
        owner,
    }
}

impl StateView {
    /// The state after a kind of commodity was listed.
    pub open spec fn commodity_type_created(self, type_id: u32, type_desc: Seq<u8>) -> StateView {
        StateView {
            commodity_types: self.commodity_types.insert(
                type_rank(self.commodity_types, type_id),
                (type_id, type_desc),
            ),
            ..self
        }
    }

    /// The state after the number of models that an application may have
    /// was set.
    pub open spec fn app_model_total_set(self, app_id: u32, total: u32) -> StateView {
        StateView {
            apps: self.apps.insert(
                app_id,
                AppRecord { model_total_config: total, ..self.app(app_id) },
            ),
            ..self
        }
    }

    /// Why a model is turned away, if it is: for want of authority,
    /// because the model is known already, because its kind of commodity is
    /// not listed, or because the application has all the models that it
    /// may have.
    pub open spec fn model_refusal(
        self,
        authority: Authority,
        model: ModelView,
    ) -> Option<KpError> {
        if authority.refusal() is Some {
            authority.refusal()
        } else if self.models.dom().contains((model.app_id, model.model_id)) {
            Some(KpError::ModelAlreadyExisted)
        } else if !type_listed(self.commodity_types, model.commodity_type) {
            Some(KpError::ModelTypeInvalid)
        } else if self.app(model.app_id).model_total_config > 0 && self.app(
            model.app_id,
        ).model_count >= self.app(model.app_id).model_total_config {
            Some(KpError::ModelOverSizeLimit)
        } else {
            None
        }
    }

    /// Whether `model` is the first of its application for its kind of
    /// commodity.
    pub open spec fn is_first_of_type(self, model: ModelView) -> bool {
        !self.model_first_type_benefit.dom().contains((model.app_id, model.commodity_type))
    }

    /// The state after a model was created: it is stored and counted, and
    /// its kind of commodity is marked as taken for the application.
    pub open spec fn model_created(self, model: ModelView) -> StateView {
        StateView {
            models: self.models.insert((model.app_id, model.model_id), model),
            apps: self.apps.insert(
                model.app_id,
                AppRecord {
                    model_count: next_count(self.app(model.app_id).model_count),
                    ..self.app(model.app_id)
                },
            ),
            model_first_type_benefit: self.model_first_type_benefit.insert(
                (model.app_id, model.commodity_type),
                true,
            ),
            ..self
        }
    }
}

impl Module {
    /// Lists a kind of commodity. A kind whose identifier is listed
    /// already is turned away.
    pub fn create_commodity_type(&mut self, type_id: u32, type_desc: Vec<u8>) -> (result: Result<
        (),
        KpError,
    >)
        requires
            old(self).wf(),
        ensures
            final(self).wf(),
            result == (if type_listed(old(self)@.commodity_types, type_id) {
                Err::<(), KpError>(KpError::CommodityTypeExisted)
            } else {
                Ok(())
            }),
            final(self)@.follows(old(self)@),
            final(self)@ == (if result is Ok {
                old(self)@.commodity_type_created(type_id, type_desc@)
            } else {
                old(self)@
            }),
    {
        let ghost before = self@;
        proof {
            before.lemma_same_history(before);
            if !type_listed(before.commodity_types, type_id) {
                before.lemma_commodity_type_created(type_id, type_desc@);
            }
        }
        let added = self.commodity_types.insert(type_id, type_desc);
        proof {
            assert(self@.leader_boards == before.leader_boards);
            assert(self@.boards_in_order());
            assert(self@.powers_add_up());
        }
        if added {
            Ok(())
        } else {
            Err(KpError::CommodityTypeExisted)
        }
    }

    /// Sets the number of models that an application may have; zero lifts
    /// the limit.
    pub fn set_app_model_total(&mut self, app_id: u32, total: u32)
        requires
            old(self).wf(),
        ensures
            final(self).wf(),
            final(self)@.follows(old(self)@),
            final(self)@ == old(self)@.app_model_total_set(app_id, total),
    {
        let ghost before = self@;
        proof {
            before.lemma_app_model_total_set(app_id, total);
        }
        let mut app = self.stored_app(app_id);
        app.model_total_config = total;
        self.apps.insert(app_id, app);
        proof {
            before.lemma_same_powers_consistent(self@);
        }
    }

    /// Takes in a model that `who` submits for the account
    /// `app_user_account`. Returns whether the model is the first of its
    /// application for its kind of commodity.
    pub fn create_model(
        &mut self,
        who: Vec<u8>,
        client_params: ClientParamsCreateModel,
        auth_params: AuthParamsCreateModel,
        app_user_account: Vec<u8>,
        authority: Authority,
    ) -> (result: Result<bool, KpError>)
        requires
            old(self).wf(),
        ensures
            final(self).wf(),
            final(self)@.follows(old(self)@),
            match old(self)@.model_refusal(
                authority,
                model_of(client_params, auth_params, who@, app_user_account@),
            ) {
                Some(refusal) => result == Err::<bool, KpError>(refusal) && final(self)@ == old(
                    self,
                )@,
                None => result == Ok::<bool, KpError>(
                    old(self)@.is_first_of_type(
                        model_of(client_params, auth_params, who@, app_user_account@),
                    ),
                ) && final(self)@ == old(self)@.model_created(
                    model_of(client_params, auth_params, who@, app_user_account@),
                ),
            },
    {
        let ghost before = self@;
        proof {
            before.lemma_same_history(before);
            before.lemma_model_created(
                model_of(client_params, auth_params, who@, app_user_account@),
            );
        }
        match authority.check() {
            Some(refusal) => {
                return Err(refusal);
            },
            None => {},
        }
        let ClientParamsCreateModel { app_id, expert_id, commodity_name, commodity_type, content_hash } =
            client_params;
        let AuthParamsCreateModel { model_id } = auth_params;
        let key = ScopedId::new(app_id, &model_id);
        if self.models.contains_key(&key) {
            return Err(KpError::ModelAlreadyExisted);
        }
        if !self.commodity_types.contains(commodity_type) {
            return Err(KpError::ModelTypeInvalid);
        }
        let mut app = self.stored_app(app_id);
        if app.model_total_config > 0 && app.model_count >= app.model_total_config {
            return Err(KpError::ModelOverSizeLimit);
        }
        let model = KPModelData {
            app_id,
            model_id,
            expert_id,
            status: ModelStatus::ENABLED,
            commodity_name,
            commodity_type,
            content_hash,
            sender: who,
            owner: app_user_account,
        };
        self.models.insert(key, model);
        app.model_count = count_up(app.model_count);
        self.apps.insert(app_id, app);
        let type_key: (u32, u32) = (app_id, commodity_type);
        let should_transfer = !self.model_first_type_benefit.contains_key(&type_key);
        self.model_first_type_benefit.insert(type_key, true);
        proof {
            before.lemma_same_powers_consistent(self@);
        }
        Ok(should_transfer)
    }
}

} // verus!
