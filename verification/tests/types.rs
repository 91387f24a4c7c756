use kp::rpc::Error;
use kp::{
    CommentTrend, DocumentSpecificData, DocumentType, KPDocumentData, ModelDisputeType,
    ModelIncomeStage, ModelStatus,
};

#[test]
fn codes_convert_to_tags() {
    assert_eq!(ModelStatus::from(0u8), ModelStatus::ENABLED);
    assert_eq!(ModelStatus::from(1u8), ModelStatus::DISABLED);
    assert_eq!(ModelStatus::from(9u8), ModelStatus::ENABLED);
    assert_eq!(DocumentType::from(0u8), DocumentType::ProductPublish);
    assert_eq!(DocumentType::from(1u8), DocumentType::ProductIdentify);
    assert_eq!(DocumentType::from(2u8), DocumentType::ProductTry);
    assert_eq!(DocumentType::from(3u8), DocumentType::ProductChoose);
    assert_eq!(DocumentType::from(4u8), DocumentType::ModelCreate);
    assert_eq!(DocumentType::from(5u8), DocumentType::Unknown);
    assert_eq!(DocumentType::from(200u8), DocumentType::Unknown);
    assert_eq!(CommentTrend::from(0u8), CommentTrend::Positive);
    assert_eq!(CommentTrend::from(1u8), CommentTrend::Negative);
    assert_eq!(CommentTrend::from(2u8), CommentTrend::Empty);
    assert_eq!(CommentTrend::from(255u8), CommentTrend::Empty);
}

#[test]
fn tags_convert_to_codes() {
    assert_eq!(u8::from(DocumentType::ProductPublish), 0);
    assert_eq!(u8::from(DocumentType::ProductIdentify), 1);
    assert_eq!(u8::from(DocumentType::ProductTry), 2);
    assert_eq!(u8::from(DocumentType::ProductChoose), 3);
    assert_eq!(u8::from(DocumentType::ModelCreate), 4);
    assert_eq!(u8::from(DocumentType::Unknown), 5);
    assert_eq!(u8::from(ModelIncomeStage::NORMAL), 0);
    assert_eq!(u8::from(ModelIncomeStage::COLLECTING), 1);
    assert_eq!(u8::from(ModelIncomeStage::REWARDING), 2);
    assert_eq!(i64::from(Error::RuntimeError), 1);
    assert_eq!(i64::from(Error::DecodeError), 2);
}

#[test]
fn defaults() {
    assert_eq!(ModelStatus::default(), ModelStatus::ENABLED);
    assert_eq!(DocumentType::default(), DocumentType::ProductPublish);
    assert_eq!(ModelDisputeType::default(), ModelDisputeType::NoneIntendNormal);
    assert_eq!(CommentTrend::default(), CommentTrend::Empty);
    let doc = KPDocumentData::default();
    assert_eq!(doc.app_id, 0);
    assert!(doc.document_id.is_empty());
    assert_eq!(doc.document_type, DocumentType::ProductPublish);
    assert_eq!(doc.expert_trend, CommentTrend::Empty);
    assert_eq!(doc.platform_trend, CommentTrend::Empty);
    assert!(matches!(DocumentSpecificData::default(), DocumentSpecificData::ProductPublish(d) if d.para_issue_rate == 0 && d.self_issue_rate == 0));
}
