//! Submissions: the checks that a document or a comment has to pass, and
//! what the engine does with one that passes.

use vstd::prelude::*;
use crate::bytes::bytes_clone;
use crate::power::PowerSize;
use crate::state::{Module, StateView};
use crate::table::ScopedId;
use crate::types::{
    CommentData, CommentTrend, CommentView, DocumentDataView, DocumentSpecificData, DocumentType,
    DocumentView, KPCommentData, KPDocumentData, KPModelCreateData, KPProductChooseData,
    KPProductIdentifyData, KPProductPublishData, KPProductTryData,
};

verus! {

/// Why a submission was turned away.
#[derive(Clone, Copy, Debug, PartialEq, Eq, Structural)]
pub enum KpError {
    DocumentAlreadyExisted,
    ProductAlreadyExisted,
    CommentAlreadyExisted,
    ModelAlreadyExisted,
    ModelTypeInvalid,
    ModelNotFound,
    CommodityTypeExisted,
    ModelOverSizeLimit,
    CommentNotFound,
    DocumentNotFound,
    ProductNotFound,
    AppIdInvalid,
    DocumentIdentifyAlreadyExisted,
    DocumentTryAlreadyExisted,
    SignVerifyErrorUser,
    SignVerifyErrorAuth,
    AuthIdentityNotAppKey,
}

/// What was found out about a submission before it reached the engine:
/// whether the two signatures hold, and whether the application and the
/// key of its server are known.
#[derive(Clone, Copy, Debug, PartialEq, Eq, Structural)]
pub struct Authority {
    pub user_signed: bool,
    pub auth_signed: bool,
    pub app_valid: bool,
    pub app_key_valid: bool,
}

impl Authority {
    /// The first check that failed, if any: the user's signature, the
    /// server's signature, the application, the server's key.
    pub open spec fn refusal(self) -> Option<KpError> {
        if !self.user_signed {
            Some(KpError::SignVerifyErrorUser)
        } else if !self.auth_signed {
            Some(KpError::SignVerifyErrorAuth)
        } else if !self.app_valid {
            Some(KpError::AppIdInvalid)
        } else if !self.app_key_valid {
            Some(KpError::AuthIdentityNotAppKey)
        } else {
            None
        }
    }

    /// Finds `refusal`.
    pub fn check(&self) -> (refusal: Option<KpError>)
        ensures
            refusal == self.refusal(),
    {
        if !self.user_signed {
            Some(KpError::SignVerifyErrorUser)
        } else if !self.auth_signed {
            Some(KpError::SignVerifyErrorAuth)
        } else if !self.app_valid {
            Some(KpError::AppIdInvalid)
        } else if !self.app_key_valid {
            Some(KpError::AuthIdentityNotAppKey)
        } else {
            None
        }
    }
}

/// The `Ok` or `Err` that a refusal, or none, stands for.
pub open spec fn outcome(refusal: Option<KpError>) -> Result<(), KpError> {
    match refusal {
        Some(e) => Err(e),
        None => Ok(()),
    }
}

/// What a client submits to publish a product.
#[derive(Clone, Debug, Default)]
pub struct ClientParamsCreatePublishDoc {
    pub app_id: u32,
    pub document_id: Vec<u8>,
    pub model_id: Vec<u8>,
    pub product_id: Vec<u8>,
    pub content_hash: Vec<u8>,
    pub para_issue_rate: PowerSize,
    pub self_issue_rate: PowerSize,
}

/// What a client submits to identify a product.
#[derive(Clone, Debug, Default)]
pub struct ClientParamsCreateIdentifyDoc {
    pub app_id: u32,
    pub document_id: Vec<u8>,
    pub product_id: Vec<u8>,
    pub content_hash: Vec<u8>,
    pub goods_price: PowerSize,
    pub ident_rate: PowerSize,
    pub ident_consistence: PowerSize,
    pub cart_id: Vec<u8>,
}

/// What a client submits to report a trial of a product.
#[derive(Clone, Debug, Default)]
pub struct ClientParamsCreateTryDoc {
    pub app_id: u32,
    pub document_id: Vec<u8>,
    pub product_id: Vec<u8>,
    pub content_hash: Vec<u8>,
    pub goods_price: PowerSize,
    pub offset_rate: PowerSize,
    pub true_rate: PowerSize,
    pub cart_id: Vec<u8>,
}

/// What a client submits to report the choice of a product.
#[derive(Clone, Debug, Default)]
pub struct ClientParamsCreateChooseDoc {
    pub app_id: u32,
    pub document_id: Vec<u8>,
    pub model_id: Vec<u8>,
    pub product_id: Vec<u8>,
    pub content_hash: Vec<u8>,
    pub sell_count: PowerSize,
    pub try_count: PowerSize,
}

/// What a client submits to document the creation of a model.
#[derive(Clone, Debug, Default)]
pub struct ClientParamsCreateModelDoc {
    pub app_id: u32,
    pub document_id: Vec<u8>,
    pub model_id: Vec<u8>,
    pub product_id: Vec<u8>,
    pub content_hash: Vec<u8>,
    pub producer_count: PowerSize,
    pub product_count: PowerSize,
}

/// A fresh document: no comments yet, both trend flags empty.
pub open spec fn fresh_document(
    app_id: u32,
    document_id: Seq<u8>,
    model_id: Seq<u8>,
    product_id: Seq<u8>,
    content_hash: Seq<u8>,
    sender: Seq<u8>,
    owner: Seq<u8>,
    document_type: DocumentType,
    document_data: DocumentDataView,
) -> DocumentView {
    DocumentView {
        app_id,
        document_id,
        model_id,
        product_id,
        content_hash,
        sender,
        owner,
        document_type,
        document_data,
        comment_count: 0,
        comment_total_fee: 0,
        comment_positive_count: 0,
        expert_trend: CommentTrend::Empty,
        platform_trend: CommentTrend::Empty,
    }
}

/// The comment that `who` submits for the account `owner`.
pub open spec fn comment_of(data: CommentData, who: Seq<u8>, owner: Seq<u8>) -> CommentView {
    CommentView {
        app_id: data.app_id,
        document_id: data.document_id@,
        comment_id: data.comment_id@,
        comment_hash: data.comment_hash@,
        comment_fee: data.comment_fee,
        comment_trend: data.comment_trend,
        sender: who,
        owner,
    }
}

impl ClientParamsCreatePublishDoc {
    /// The document that `who` submits for the account `owner`.
    pub open spec fn document(self, who: Seq<u8>, owner: Seq<u8>) -> DocumentView {
        fresh_document(
            self.app_id,
            self.document_id@,
            self.model_id@,
            self.product_id@,
            self.content_hash@,
            who,
            owner,
            DocumentType::ProductPublish,
            DocumentDataView::ProductPublish {
                para_issue_rate: self.para_issue_rate,
                self_issue_rate: self.self_issue_rate,
            },
        )
    }
}

impl ClientParamsCreateIdentifyDoc {
    /// The document that `who` submits for the account `owner`, under the
    /// model `model_id`.
    pub open spec fn document(
        self,
        who: Seq<u8>,
        owner: Seq<u8>,
        model_id: Seq<u8>,
    ) -> DocumentView {
        fresh_document(
            self.app_id,
            self.document_id@,
            model_id,
            self.product_id@,
            self.content_hash@,
            who,
            owner,
            DocumentType::ProductIdentify,
            DocumentDataView::ProductIdentify {
                goods_price: self.goods_price,
                ident_rate: self.ident_rate,
                ident_consistence: self.ident_consistence,
                cart_id: self.cart_id@,
            },
        )
    }
}

impl ClientParamsCreateTryDoc {
    /// The document that `who` submits for the account `owner`, under the
    /// model `model_id`.
    pub open spec fn document(
        self,
        who: Seq<u8>,
        owner: Seq<u8>,
        model_id: Seq<u8>,
    ) -> DocumentView {
        fresh_document(
            self.app_id,
            self.document_id@,
            model_id,
            self.product_id@,
            self.content_hash@,
            who,
            owner,
            DocumentType::ProductTry,
            DocumentDataView::ProductTry {
                goods_price: self.goods_price,
                offset_rate: self.offset_rate,
                true_rate: self.true_rate,
                cart_id: self.cart_id@,
            },
        )
    }
}

impl ClientParamsCreateChooseDoc {
    /// The document that `who` submits for the account `owner`.
    pub open spec fn document(self, who: Seq<u8>, owner: Seq<u8>) -> DocumentView {
        fresh_document(
            self.app_id,
            self.document_id@,
            self.model_id@,
            self.product_id@,
            self.content_hash@,
            who,
            owner,
            DocumentType::ProductChoose,
            DocumentDataView::ProductChoose {
                sell_count: self.sell_count,
                try_count: self.try_count,
            },
        )
    }
}

impl ClientParamsCreateModelDoc {
    /// The document that `who` submits for the account `owner`.
    pub open spec fn document(self, who: Seq<u8>, owner: Seq<u8>) -> DocumentView {
        fresh_document(
            self.app_id,
            self.document_id@,
            self.model_id@,
            self.product_id@,
            self.content_hash@,
            who,
            owner,
            DocumentType::ModelCreate,
            DocumentDataView::ModelCreate {
                producer_count: self.producer_count,
                product_count: self.product_count,
            },
        )
    }
}

impl StateView {
    /// The state after the document was stored.
    pub open spec fn document_stored(self, doc: DocumentView) -> StateView {
        StateView { documents: self.documents.insert((doc.app_id, doc.document_id), doc), ..self }
    }

    /// The state after a document that passed its checks was assessed, its
    /// commodity brought up to date, and the document stored.
    pub open spec fn document_created(self, doc: DocumentView) -> StateView {
        self.content_power_processed(doc).commodity_power_processed(doc).document_stored(doc)
    }

    /// Why a publish document is turned away, if it is: for want of
    /// authority, because the document or the product is known already, or
    /// because the model is unknown.
    pub open spec fn publish_refusal(
        self,
        authority: Authority,
        doc: DocumentView,
    ) -> Option<KpError> {
        if authority.refusal() is Some {
            authority.refusal()
        } else if self.documents.dom().contains((doc.app_id, doc.document_id)) {
            Some(KpError::DocumentAlreadyExisted)
        } else if self.product_index.dom().contains((doc.app_id, doc.product_id)) {
            Some(KpError::ProductAlreadyExisted)
        } else if !self.models.dom().contains((doc.app_id, doc.model_id)) {
            Some(KpError::ModelNotFound)
        } else {
            None
        }
    }

    /// The state after a publish document was created: the product now
    /// points to it.
    pub open spec fn publish_document_created(self, doc: DocumentView) -> StateView {
        let created = self.document_created(doc);
        StateView {
            product_index: created.product_index.insert(
                (doc.app_id, doc.product_id),
                doc.document_id,
            ),
            ..created
        }
    }

    /// Why an identify document (`is_identify`) or a try document is
    /// turned away, if it is: for want of authority, because the document
    /// is known already, because the product is unknown, or because the
    /// cart has a document of this kind already.
    pub open spec fn coupled_refusal(
        self,
        authority: Authority,
        app_id: u32,
        document_id: Seq<u8>,
        product_id: Seq<u8>,
        cart_id: Seq<u8>,
        is_identify: bool,
    ) -> Option<KpError> {
        if authority.refusal() is Some {
            authority.refusal()
        } else if self.documents.dom().contains((app_id, document_id)) {
            Some(KpError::DocumentAlreadyExisted)
        } else if !self.product_index.dom().contains((app_id, product_id)) {
            Some(KpError::ProductNotFound)
        } else if is_identify && self.cart_identify_index.dom().contains((app_id, cart_id)) {
            Some(KpError::DocumentIdentifyAlreadyExisted)
        } else if !is_identify && self.cart_try_index.dom().contains((app_id, cart_id)) {
            Some(KpError::DocumentTryAlreadyExisted)
        } else {
            None
        }
    }

    /// The model of a product, or the empty model where it cannot be
    /// found.
    pub open spec fn model_or_none(self, app_id: u32, product_id: Seq<u8>) -> Seq<u8> {
        match self.model_of_product(app_id, product_id) {
            Some(model_id) => model_id,
            None => Seq::empty(),
        }
    }

    /// The state after an identify document (`is_identify`) or a try
    /// document of cart `cart_id` was created: the document is assessed
    /// and its commodity brought up to date, the cart points to the
    /// document, the document is stored, and the commodity is counted if
    /// it is new.
    pub open spec fn coupled_document_created(
        self,
        doc: DocumentView,
        cart_id: Seq<u8>,
        is_identify: bool,
    ) -> StateView {
        let processed = self.content_power_processed(doc).commodity_power_processed(doc);
        let indexed = if is_identify {
            StateView {
                cart_identify_index: processed.cart_identify_index.insert(
                    (doc.app_id, cart_id),
                    doc.document_id,
                ),
                ..processed
            }
        } else {
            StateView {
                cart_try_index: processed.cart_try_index.insert(
                    (doc.app_id, cart_id),
                    doc.document_id,
                ),
                ..processed
            }
        };
        indexed.document_stored(doc).commodity_count_increased(
            doc.app_id,
            doc.model_id,
            cart_id,
            doc.document_type,
            doc.owner,
        )
    }

    /// Why a choose document is turned away, if it is.
    pub open spec fn choose_refusal(
        self,
        authority: Authority,
        doc: DocumentView,
    ) -> Option<KpError> {
        if authority.refusal() is Some {
            authority.refusal()
        } else if self.documents.dom().contains((doc.app_id, doc.document_id)) {
            Some(KpError::DocumentAlreadyExisted)
        } else {
            None
        }
    }

    /// Why a model-create document is turned away, if it is.
    pub open spec fn model_document_refusal(
        self,
        authority: Authority,
        doc: DocumentView,
    ) -> Option<KpError> {
        if authority.refusal() is Some {
            authority.refusal()
        } else if self.documents.dom().contains((doc.app_id, doc.document_id)) {
            Some(KpError::DocumentAlreadyExisted)
        } else if !self.models.dom().contains((doc.app_id, doc.model_id)) {
            Some(KpError::ModelNotFound)
        } else {
            None
        }
    }

    /// Why a comment is turned away, if it is.
    pub open spec fn comment_refusal(
        self,
        authority: Authority,
        comment: CommentView,
    ) -> Option<KpError> {
        if authority.refusal() is Some {
            authority.refusal()
        } else if self.comments.dom().contains((comment.app_id, comment.comment_id)) {
            Some(KpError::CommentAlreadyExisted)
        } else {
            None
        }
    }

    /// The state after a comment that passed its checks was processed: the
    /// commodity of the commented document is brought up to date, and the
    /// comment is stored.
    pub open spec fn comment_created(
        self,
        comment: CommentView,
        is_expert: bool,
        is_platform: bool,
    ) -> StateView {
        let processed = self.comment_power_processed(comment, is_expert, is_platform);
        let doc = processed.document((comment.app_id, comment.document_id));
        let updated = processed.commodity_power_processed(doc);
        StateView {
            comments: updated.comments.insert((comment.app_id, comment.comment_id), comment),
            ..updated
        }
    }

    /// Why a slash is turned away, if it is: the application is unknown,
    /// the comment that reports the commodity is unknown, or the document
    /// of that comment is.
    pub open spec fn slash_refusal(
        self,
        app_valid: bool,
        app_id: u32,
        comment_id: Seq<u8>,
    ) -> Option<KpError> {
        if !app_valid {
            Some(KpError::AppIdInvalid)
        } else if !self.comments.dom().contains((app_id, comment_id)) {
            Some(KpError::CommentNotFound)
        } else if !self.documents.dom().contains(
            (app_id, self.comments[(app_id, comment_id)].document_id),
        ) {
            Some(KpError::DocumentNotFound)
        } else {
            None
        }
    }

    /// The state after the commodity `cart_id` was slashed on the report
    /// of the comment `comment_id`: the owner who pays is the owner of the
    /// commented document.
    pub open spec fn commodity_slashed_on_report(
        self,
        app_id: u32,
        cart_id: Seq<u8>,
        comment_id: Seq<u8>,
    ) -> StateView {
        let doc = self.documents[(app_id, self.comments[(app_id, comment_id)].document_id)];
        self.commodity_slashed(app_id, cart_id, doc.owner)
    }
}

impl Module {
    /// Stores a document under its identifier.
    fn store_document(&mut self, doc: KPDocumentData)
        requires
            old(self).wf(),
        ensures
            final(self).wf(),
            final(self)@ == old(self)@.document_stored(doc@),
    {
        let ghost before = self@;
        let key = ScopedId::new(doc.app_id, &doc.document_id);
        self.documents.insert(key, doc);
        proof {
            before.lemma_same_powers_consistent(self@);
        }
    }

    /// Creates a document that passed its checks: assesses it, brings its
    /// commodity up to date and stores it.
    fn create_document(&mut self, doc: KPDocumentData)
        requires
            old(self).wf(),
            !old(self)@.documents.dom().contains((doc@.app_id, doc@.document_id)),
        ensures
            final(self).wf(),
            final(self)@ == old(self)@.document_created(doc@),
            final(self)@.follows(old(self)@),
    {
        let ghost before = self@;
        self.process_document_content_power(&doc);
        let _ = self.process_commodity_power(&doc);
        let ghost view = doc@;
        self.store_document(doc);
        proof {
            before.lemma_document_created(view);
        }
    }

    /// Takes in a publish document that `who` submits for the account
    /// `app_user_account`.
    pub fn create_product_publish_document(
        &mut self,
        who: Vec<u8>,
        client_params: ClientParamsCreatePublishDoc,
        app_user_account: Vec<u8>,
        authority: Authority,
    ) -> (result: Result<(), KpError>)
        requires
            old(self).wf(),
        ensures
            final(self).wf(),
            result == outcome(
                old(self)@.publish_refusal(
                    authority,
                    client_params.document(who@, app_user_account@),
                ),
            ),
            final(self)@.follows(old(self)@),
            final(self)@ == (if result is Ok {
                old(self)@.publish_document_created(
                    client_params.document(who@, app_user_account@),
                )
            } else {
                old(self)@
            }),
    {
        let ghost before = self@;
        proof {
            before.lemma_same_history(before);
        }
        match authority.check() {
            Some(refusal) => {
                return Err(refusal);
            },
            None => {},
        }
        let ClientParamsCreatePublishDoc {
            app_id,
            document_id,
            model_id,
            product_id,
            content_hash,
            para_issue_rate,
            self_issue_rate,
        } = client_params;
        if self.documents.contains_key(&ScopedId::new(app_id, &document_id)) {
            return Err(KpError::DocumentAlreadyExisted);
        }
        let product_key = ScopedId::new(app_id, &product_id);
        if self.product_index.contains_key(&product_key) {
            return Err(KpError::ProductAlreadyExisted);
        }
        if !self.models.contains_key(&ScopedId::new(app_id, &model_id)) {
            return Err(KpError::ModelNotFound);
        }
        let index_entry = bytes_clone(&document_id);
        let doc = KPDocumentData {
            app_id,
            document_id,
            model_id,
            product_id,
            content_hash,
            sender: who,
            owner: app_user_account,
            document_type: DocumentType::ProductPublish,
            document_data: DocumentSpecificData::ProductPublish(
                KPProductPublishData { para_issue_rate, self_issue_rate },
            ),
            comment_count: 0,
            comment_total_fee: 0,
            comment_positive_count: 0,
            expert_trend: CommentTrend::Empty,
            platform_trend: CommentTrend::Empty,
        };
        let ghost view = doc@;
        self.create_document(doc);
        let ghost created = self@;
        self.product_index.insert(product_key, index_entry);
        proof {
            created.lemma_same_powers_consistent(self@);
            before.lemma_publish_document_created(view);
        }
        Ok(())
    }

    /// Creates an identify or a try document that passed its checks.
    fn create_coupled_document(&mut self, doc: KPDocumentData, cart_id: Vec<u8>, is_identify: bool)
        requires
            old(self).wf(),
            !old(self)@.documents.dom().contains((doc@.app_id, doc@.document_id)),
            doc@.document_type == (if is_identify {
                DocumentType::ProductIdentify
            } else {
                DocumentType::ProductTry
            }),
        ensures
            final(self).wf(),
            final(self)@ == old(self)@.coupled_document_created(doc@, cart_id@, is_identify),
            final(self)@.follows(old(self)@),
    {
        let ghost before = self@;
        let ghost view = doc@;
        self.process_document_content_power(&doc);
        let _ = self.process_commodity_power(&doc);
        let ghost processed = self@;
        let key = ScopedId::new(doc.app_id, &cart_id);
        if is_identify {
            self.cart_identify_index.insert(key, bytes_clone(&doc.document_id));
        } else {
            self.cart_try_index.insert(key, bytes_clone(&doc.document_id));
        }
        proof {
            processed.lemma_same_powers_consistent(self@);
        }
        let app_id: u32 = doc.app_id;
        let model_id = bytes_clone(&doc.model_id);
        let owner = bytes_clone(&doc.owner);
        let doc_type = doc.document_type;
        self.store_document(doc);
        self.increase_commodity_count(app_id, &model_id, &cart_id, doc_type, &owner);
        proof {
            before.lemma_coupled_document_created(view, cart_id@, is_identify);
        }
    }

    /// Takes in an identify document that `who` submits for the account
    /// `app_user_account`.
    pub fn create_product_identify_document(
        &mut self,
        who: Vec<u8>,
        client_params: ClientParamsCreateIdentifyDoc,
        app_user_account: Vec<u8>,
        authority: Authority,
    ) -> (result: Result<(), KpError>)
        requires
            old(self).wf(),
        ensures
            final(self).wf(),
            result == outcome(
                old(self)@.coupled_refusal(
                    authority,
                    client_params.app_id,
                    client_params.document_id@,
                    client_params.product_id@,
                    client_params.cart_id@,
                    true,
                ),
            ),
            final(self)@.follows(old(self)@),
            final(self)@ == (if result is Ok {
                old(self)@.coupled_document_created(
                    client_params.document(
                        who@,
                        app_user_account@,
                        old(self)@.model_or_none(client_params.app_id, client_params.product_id@),
                    ),
                    client_params.cart_id@,
                    true,
                )
            } else {
                old(self)@
            }),
    {
        let ghost before = self@;
        proof {
            before.lemma_same_history(before);
        }
        match authority.check() {
            Some(refusal) => {
                return Err(refusal);
            },
            None => {},
        }
        let ClientParamsCreateIdentifyDoc {
            app_id,
            document_id,
            product_id,
            content_hash,
            goods_price,
            ident_rate,
            ident_consistence,
            cart_id,
        } = client_params;
        if self.documents.contains_key(&ScopedId::new(app_id, &document_id)) {
            return Err(KpError::DocumentAlreadyExisted);
        }
        if !self.product_index.contains_key(&ScopedId::new(app_id, &product_id)) {
            return Err(KpError::ProductNotFound);
        }
        if self.cart_identify_index.contains_key(&ScopedId::new(app_id, &cart_id)) {
            return Err(KpError::DocumentIdentifyAlreadyExisted);
        }
        let model_id = match self.get_model_id_from_product(app_id, &product_id) {
            Some(model_id) => model_id,
            None => Vec::new(),
        };
        let doc = KPDocumentData {
            app_id,
            document_id,
            model_id,
            product_id,
            content_hash,
            sender: who,
            owner: app_user_account,
            document_type: DocumentType::ProductIdentify,
            document_data: DocumentSpecificData::ProductIdentify(
                KPProductIdentifyData {
                    goods_price,
                    ident_rate,
                    ident_consistence,
                    cart_id: bytes_clone(&cart_id),
                },
            ),
            comment_count: 0,
            comment_total_fee: 0,
            comment_positive_count: 0,
            expert_trend: CommentTrend::Empty,
            platform_trend: CommentTrend::Empty,
        };
        self.create_coupled_document(doc, cart_id, true);
        Ok(())
    }

    /// Takes in a try document that `who` submits for the account
    /// `app_user_account`.
    pub fn create_product_try_document(
        &mut self,
        who: Vec<u8>,
        client_params: ClientParamsCreateTryDoc,
        app_user_account: Vec<u8>,
        authority: Authority,
    ) -> (result: Result<(), KpError>)
        requires
            old(self).wf(),
        ensures
            final(self).wf(),
            result == outcome(
                old(self)@.coupled_refusal(
                    authority,
                    client_params.app_id,
                    client_params.document_id@,
                    client_params.product_id@,
                    client_params.cart_id@,
                    false,
                ),
            ),
            final(self)@.follows(old(self)@),
            final(self)@ == (if result is Ok {
                old(self)@.coupled_document_created(
                    client_params.document(
                        who@,
                        app_user_account@,
                        old(self)@.model_or_none(client_params.app_id, client_params.product_id@),
                    ),
                    client_params.cart_id@,
                    false,
                )
            } else {
                old(self)@
            }),
    {
        let ghost before = self@;
        proof {
            before.lemma_same_history(before);
        }
        match authority.check() {
            Some(refusal) => {
                return Err(refusal);
            },
            None => {},
        }
        let ClientParamsCreateTryDoc {
            app_id,
            document_id,
            product_id,
            content_hash,
            goods_price,
            offset_rate,
            true_rate,
            cart_id,
        } = client_params;
        if self.documents.contains_key(&ScopedId::new(app_id, &document_id)) {
            return Err(KpError::DocumentAlreadyExisted);
        }
        if !self.product_index.contains_key(&ScopedId::new(app_id, &product_id)) {
            return Err(KpError::ProductNotFound);
        }
        if self.cart_try_index.contains_key(&ScopedId::new(app_id, &cart_id)) {
            return Err(KpError::DocumentTryAlreadyExisted);
        }
        let model_id = match self.get_model_id_from_product(app_id, &product_id) {
            Some(model_id) => model_id,
            None => Vec::new(),
        };
        let doc = KPDocumentData {
            app_id,
            document_id,
            model_id,
            product_id,
            content_hash,
            sender: who,
            owner: app_user_account,
            document_type: DocumentType::ProductTry,
            document_data: DocumentSpecificData::ProductTry(
                KPProductTryData {
                    goods_price,
                    offset_rate,
                    true_rate,
                    cart_id: bytes_clone(&cart_id),
                },
            ),
            comment_count: 0,
            comment_total_fee: 0,
            comment_positive_count: 0,
            expert_trend: CommentTrend::Empty,
            platform_trend: CommentTrend::Empty,
        };
        self.create_coupled_document(doc, cart_id, false);
        Ok(())
    }

    /// Takes in a choose document that `who` submits for the account
    /// `app_user_account`.
    pub fn create_product_choose_document(
        &mut self,
        who: Vec<u8>,
        client_params: ClientParamsCreateChooseDoc,
        app_user_account: Vec<u8>,
        authority: Authority,
    ) -> (result: Result<(), KpError>)
        requires
            old(self).wf(),
        ensures
            final(self).wf(),
            result == outcome(
                old(self)@.choose_refusal(
                    authority,
                    client_params.document(who@, app_user_account@),
                ),
            ),
            final(self)@.follows(old(self)@),
            final(self)@ == (if result is Ok {
                old(self)@.document_created(client_params.document(who@, app_user_account@))
            } else {
                old(self)@
            }),
    {
        let ghost before = self@;
        proof {
            before.lemma_same_history(before);
        }
        match authority.check() {
            Some(refusal) => {
                return Err(refusal);
            },
            None => {},
        }
        let ClientParamsCreateChooseDoc {
            app_id,
            document_id,
            model_id,
            product_id,
            content_hash,
            sell_count,
            try_count,
        } = client_params;
        if self.documents.contains_key(&ScopedId::new(app_id, &document_id)) {
            return Err(KpError::DocumentAlreadyExisted);
        }
        let doc = KPDocumentData {
            app_id,
            document_id,
            model_id,
            product_id,
            content_hash,
            sender: who,
            owner: app_user_account,
            document_type: DocumentType::ProductChoose,
            document_data: DocumentSpecificData::ProductChoose(
                KPProductChooseData { sell_count, try_count },
            ),
            comment_count: 0,
            comment_total_fee: 0,
            comment_positive_count: 0,
            expert_trend: CommentTrend::Empty,
            platform_trend: CommentTrend::Empty,
        };
        self.create_document(doc);
        Ok(())
    }

    /// Takes in a model-create document that `who` submits for the account
    /// `app_user_account`.
    pub fn create_model_create_document(
        &mut self,
        who: Vec<u8>,
        client_params: ClientParamsCreateModelDoc,
        app_user_account: Vec<u8>,
        authority: Authority,
    ) -> (result: Result<(), KpError>)
        requires
            old(self).wf(),
        ensures
            final(self).wf(),
            result == outcome(
                old(self)@.model_document_refusal(
                    authority,
                    client_params.document(who@, app_user_account@),
                ),
            ),
            final(self)@.follows(old(self)@),
            final(self)@ == (if result is Ok {
                old(self)@.document_created(client_params.document(who@, app_user_account@))
            } else {
                old(self)@
            }),
    {
        let ghost before = self@;
        proof {
            before.lemma_same_history(before);
        }
        match authority.check() {
            Some(refusal) => {
                return Err(refusal);
            },
            None => {},
        }
        let ClientParamsCreateModelDoc {
            app_id,
            document_id,
            model_id,
            product_id,
            content_hash,
            producer_count,
            product_count,
        } = client_params;
        if self.documents.contains_key(&ScopedId::new(app_id, &document_id)) {
            return Err(KpError::DocumentAlreadyExisted);
        }
        if !self.models.contains_key(&ScopedId::new(app_id, &model_id)) {
            return Err(KpError::ModelNotFound);
        }
        let doc = KPDocumentData {
            app_id,
            document_id,
            model_id,
            product_id,
            content_hash,
            sender: who,
            owner: app_user_account,
            document_type: DocumentType::ModelCreate,
            document_data: DocumentSpecificData::ModelCreate(
                KPModelCreateData { producer_count, product_count },
            ),
            comment_count: 0,
            comment_total_fee: 0,
            comment_positive_count: 0,
            expert_trend: CommentTrend::Empty,
            platform_trend: CommentTrend::Empty,
        };
        self.create_document(doc);
        Ok(())
    }

    /// The stored document, or the blank document.
    pub fn stored_document(&self, app_id: u32, document_id: &Vec<u8>) -> (doc: KPDocumentData)
        requires
            self.wf(),
        ensures
            doc@ == self@.document((app_id, document_id@)),
    {
        match self.documents.get(&ScopedId::new(app_id, document_id)) {
            Some(doc) => doc.duplicate(),
            None => KPDocumentData::default(),
        }
    }

    /// Takes in a comment that `who` submits for the account
    /// `app_user_account`. `is_expert` says whether `who` is an expert of
    /// the commented document's model, `is_platform` whether `who` is a
    /// platform member of the application.
    pub fn create_comment(
        &mut self,
        who: Vec<u8>,
        comment_data: CommentData,
        app_user_account: Vec<u8>,
        authority: Authority,
        is_expert: bool,
        is_platform: bool,
    ) -> (result: Result<(), KpError>)
        requires
            old(self).wf(),
        ensures
            final(self).wf(),
            result == outcome(
                old(self)@.comment_refusal(
                    authority,
                    comment_of(comment_data, who@, app_user_account@),
                ),
            ),
            final(self)@.follows(old(self)@),
            final(self)@ == (if result is Ok {
                old(self)@.comment_created(
                    comment_of(comment_data, who@, app_user_account@),
                    is_expert,
                    is_platform,
                )
            } else {
                old(self)@
            }),
    {
        let ghost before = self@;
        proof {
            before.lemma_same_history(before);
        }
        match authority.check() {
            Some(refusal) => {
                return Err(refusal);
            },
            None => {},
        }
        let CommentData { app_id, document_id, comment_id, comment_hash, comment_fee, comment_trend } =
            comment_data;
        let key = ScopedId::new(app_id, &comment_id);
        if self.comments.contains_key(&key) {
            return Err(KpError::CommentAlreadyExisted);
        }
        let comment = KPCommentData {
            app_id,
            document_id,
            comment_id,
            comment_hash,
            comment_fee,
            comment_trend,
            sender: who,
            owner: app_user_account,
        };
        self.process_comment_power(&comment, is_expert, is_platform);
        let doc = self.stored_document(app_id, &comment.document_id);
        let _ = self.process_commodity_power(&doc);
        let ghost updated = self@;
        self.comments.insert(key, comment);
        proof {
            updated.lemma_same_powers_consistent(self@);
        }
        proof {
            before.lemma_comment_created(
                comment_of(comment_data, who@, app_user_account@),
                is_expert,
                is_platform,
            );
        }
        Ok(())
    }

    /// Slashes the commodity `cart_id` on the report of the comment
    /// `comment_id`. `app_valid` says whether the application is known.
    pub fn democracy_slash_commodity_power(
        &mut self,
        app_valid: bool,
        app_id: u32,
        cart_id: &Vec<u8>,
        comment_id: &Vec<u8>,
    ) -> (result: Result<(), KpError>)
        requires
            old(self).wf(),
        ensures
            final(self).wf(),
            result == outcome(old(self)@.slash_refusal(app_valid, app_id, comment_id@)),
            final(self)@.follows(old(self)@),
            final(self)@ == (if result is Ok {
                old(self)@.commodity_slashed_on_report(app_id, cart_id@, comment_id@)
            } else {
                old(self)@
            }),
    {
        let ghost before = self@;
        proof {
            before.lemma_same_history(before);
        }
        if !app_valid {
            return Err(KpError::AppIdInvalid);
        }
        let owner: Vec<u8> = match self.comments.get(&ScopedId::new(app_id, comment_id)) {
            None => {
                return Err(KpError::CommentNotFound);
            },
            Some(comment) => match self.documents.get(
                &ScopedId::new(app_id, &comment.document_id),
            ) {
                None => {
                    return Err(KpError::DocumentNotFound);
                },
                Some(doc) => bytes_clone(&doc.owner),
            },
        };
        self.slash_power(app_id, cart_id, &owner);
        proof {
            before.lemma_commodity_slashed_on_report(app_id, cart_id@, comment_id@);
        }
        Ok(())
    }

    /// Holds a draw over the board of `(app_id, model_id)` at block
    /// `block`. `app_valid` says whether the application is known.
    pub fn create_power_leader_board(
        &mut self,
        app_valid: bool,
        block: u64,
        app_id: u32,
        model_id: &Vec<u8>,
        seed: &[u8; 32],
    ) -> (result: Result<(), KpError>)
        requires
            old(self).wf(),
        ensures
            final(self).wf(),
            result == (if app_valid {
                Ok::<(), KpError>(())
            } else {
                Err(KpError::AppIdInvalid)
            }),
            final(self)@.follows(old(self)@),
            final(self)@ == (if app_valid {
                old(self)@.lottery_drawn(block, app_id, model_id@, seed@)
            } else {
                old(self)@
            }),
    {
        let ghost before = self@;
        proof {
            before.lemma_same_history(before);
        }
        if !app_valid {
            return Err(KpError::AppIdInvalid);
        }
        self.leader_board_lottery(block, app_id, model_id, seed);
        proof {
            before.lemma_lottery_drawn(block, app_id, model_id@, seed@);
        }
        Ok(())
    }
}

} // verus!
