use kp::{
    Authority, AuthParamsCreateModel, ClientParamsCreateChooseDoc, ClientParamsCreateIdentifyDoc,
    ClientParamsCreateModel, ClientParamsCreateModelDoc, ClientParamsCreatePublishDoc,
    ClientParamsCreateTryDoc, CommentData, Config, DocumentType, KpError, Module, PowerSum,
};

const APP: u32 = 7;

fn config() -> Config {
    Config {
        top_weight_product_publish: 15,
        top_weight_document_identify: 25,
        top_weight_document_try: 35,
        top_weight_account_attend: 10,
        top_weight_account_stake: 15,
        document_power_weight_attend: 40,
        document_power_weight_content: 30,
        document_power_weight_judge: 30,
        comment_power_weight_count: 35,
        comment_power_weight_cost: 40,
        comment_power_weight_per_cost: 20,
        comment_power_weight_positive: 5,
        comment_power_weight: 40,
        document_publish_weight_params_rate: 60,
        document_publish_weight_params_self_rate: 40,
        document_identify_weight_params_rate: 50,
        document_identify_weight_check_rate: 50,
        document_try_weight_bias_rate: 60,
        document_try_weight_true_rate: 40,
        document_choose_weight_sell_count: 50,
        document_choose_weight_try_count: 50,
        document_model_weight_producer_count: 20,
        document_model_weight_product_count: 80,
        document_cm_power_weight_attend: 40,
        document_cm_power_weight_content: 30,
        document_cm_power_weight_judge: 30,
        comment_cm_power_weight_count: 35,
        comment_cm_power_weight_cost: 40,
        comment_cm_power_weight_per_cost: 20,
        comment_cm_power_weight_positive: 5,
        cm_power_account_attend: 10,
        app_leader_board_max_pos: 30,
        model_income_cycle_period: 1000,
        model_income_collecting_period: 100,
        model_income_rewarding_period: 200,
    }
}

fn ok() -> Authority {
    Authority { user_signed: true, auth_signed: true, app_valid: true, app_key_valid: true }
}

fn b(s: &str) -> Vec<u8> {
    s.as_bytes().to_vec()
}

/// An engine with one kind of commodity and the model "m1".
fn engine() -> Module {
    let mut kp = Module::new(config());
    assert_eq!(kp.create_commodity_type(1, b("goods")), Ok(()));
    let created = kp.create_model(
        b("sender"),
        ClientParamsCreateModel {
            app_id: APP,
            expert_id: b("e1"),
            commodity_name: b("shoes"),
            commodity_type: 1,
            content_hash: b("h"),
        },
        AuthParamsCreateModel { model_id: b("m1") },
        b("creator"),
        ok(),
    );
    assert_eq!(created, Ok(true));
    kp
}

fn publish(kp: &mut Module, doc: &str, product: &str, owner: &str, para: u64, own: u64) -> Result<(), KpError> {
    kp.create_product_publish_document(
        b("sender"),
        ClientParamsCreatePublishDoc {
            app_id: APP,
            document_id: b(doc),
            model_id: b("m1"),
            product_id: b(product),
            content_hash: b("h"),
            para_issue_rate: para,
            self_issue_rate: own,
        },
        b(owner),
        ok(),
    )
}

fn identify(kp: &mut Module, doc: &str, product: &str, cart: &str, owner: &str, rate: u64, consistence: u64) -> Result<(), KpError> {
    kp.create_product_identify_document(
        b("sender"),
        ClientParamsCreateIdentifyDoc {
            app_id: APP,
            document_id: b(doc),
            product_id: b(product),
            content_hash: b("h"),
            goods_price: 100,
            ident_rate: rate,
            ident_consistence: consistence,
            cart_id: b(cart),
        },
        b(owner),
        ok(),
    )
}

fn try_doc(kp: &mut Module, doc: &str, product: &str, cart: &str, owner: &str, offset: u64, truth: u64) -> Result<(), KpError> {
    kp.create_product_try_document(
        b("sender"),
        ClientParamsCreateTryDoc {
            app_id: APP,
            document_id: b(doc),
            product_id: b(product),
            content_hash: b("h"),
            goods_price: 100,
            offset_rate: offset,
            true_rate: truth,
            cart_id: b(cart),
        },
        b(owner),
        ok(),
    )
}

fn comment(kp: &mut Module, id: &str, doc: &str, who: &str, fee: u64, trend: u8, expert: bool, platform: bool) -> Result<(), KpError> {
    kp.create_comment(
        b(who),
        CommentData {
            app_id: APP,
            document_id: b(doc),
            comment_id: b(id),
            comment_hash: b("h"),
            comment_fee: fee,
            comment_trend: trend,
        },
        b(who),
        ok(),
        expert,
        platform,
    )
}

#[test]
fn first_publish_document_has_content_power_450() {
    let mut kp = engine();
    assert_eq!(publish(&mut kp, "d1", "shoe", "alice", 32, 45), Ok(()));
    let power = kp.stored_document_power(APP, &b("d1"));
    assert_eq!(power.content, 450);
    assert_eq!(power.attend, 0);
    // both trend flags are empty: 10000 * 30% * 15%
    assert_eq!(power.judge, 450);
    let info = kp.kp_document_power(APP, b("d1"));
    assert_eq!(info.power, 900);
    assert_eq!(info.doc_type, DocumentType::ProductPublish);
    let app = kp.stored_app(APP);
    assert_eq!(app.publish_max.para_issue_rate, 32);
    assert_eq!(app.publish_max.self_issue_rate, 45);
    // a publish document has no commodity
    assert_eq!(kp.kp_total_power(), 0);
}

#[test]
fn second_publish_document_with_lower_rates_has_less_power() {
    let mut kp = engine();
    assert_eq!(publish(&mut kp, "d1", "shoe", "alice", 32, 45), Ok(()));
    assert_eq!(publish(&mut kp, "d2", "hat", "bob", 16, 30), Ok(()));
    let first = kp.stored_document_power(APP, &b("d1"));
    let second = kp.stored_document_power(APP, &b("d2"));
    assert_eq!(first.content, 450);
    // (0.5 * 60% + 0.666666666 * 40%) * 30% * 15% * 10000, truncated
    assert_eq!(second.content, 254);
    assert!(second.content < first.content);
    let app = kp.stored_app(APP);
    assert_eq!(app.publish_max.para_issue_rate, 32);
    assert_eq!(app.publish_max.self_issue_rate, 45);
}

#[test]
fn maxima_never_fall() {
    let mut kp = engine();
    let rates: [(u64, u64); 5] = [(10, 3), (4, 9), (11, 2), (0, 0), (7, 7)];
    let mut para: u64 = 0;
    let mut own: u64 = 0;
    for (i, (p, s)) in rates.iter().enumerate() {
        let doc = format!("d{}", i);
        let product = format!("item{}", i);
        assert_eq!(publish(&mut kp, &doc, &product, "alice", *p, *s), Ok(()));
        let app = kp.stored_app(APP);
        assert!(app.publish_max.para_issue_rate >= para);
        assert!(app.publish_max.self_issue_rate >= own);
        para = app.publish_max.para_issue_rate;
        own = app.publish_max.self_issue_rate;
    }
    assert_eq!(para, 11);
    assert_eq!(own, 9);
}

#[test]
fn identify_and_try_documents_of_one_cart_are_coupled() {
    let mut kp = engine();
    assert_eq!(publish(&mut kp, "pub", "shoe", "maker", 32, 45), Ok(()));
    assert_eq!(identify(&mut kp, "d1", "shoe", "c1", "alice", 50, 60), Ok(()));
    let publish_total = kp.kp_document_power(APP, b("pub")).power;
    let d1 = kp.kp_document_power(APP, b("d1")).power;
    // content (50% + 50%) * 30% * 25% = 750, judge 30% * 25% = 750
    assert_eq!(d1, 1500);
    assert_eq!(kp.kp_commodity_power(APP, b("c1")), publish_total + d1);
    assert_eq!(try_doc(&mut kp, "d2", "shoe", "c1", "alice", 5, 80), Ok(()));
    let d2 = kp.kp_document_power(APP, b("d2")).power;
    // content (60% + 40%) * 30% * 35% = 1050, judge 30% * 35% = 1050
    assert_eq!(d2, 2100);
    // both documents count, and the publish document counts once
    assert_eq!(kp.kp_commodity_power(APP, b("c1")), publish_total + d1 + d2);
    assert_eq!(kp.kp_total_power(), (publish_total + d1 + d2) as u128);
    assert!(kp.kp_is_commodity_power_exist(APP, b("c1")));
    assert!(!kp.kp_is_commodity_power_exist(APP, b("c2")));
    // one commodity was counted, not two
    assert_eq!(kp.stored_app(APP).commodity_count, 1);
    assert_eq!(kp.board_commodity_count(APP, &b("m1")), 1);
    assert_eq!(kp.stored_account(&b("alice")).statistics.create_commodity_num, 1);
}

#[test]
fn comments_accumulate_on_document_and_accounts() {
    let mut kp = engine();
    assert_eq!(publish(&mut kp, "pub", "shoe", "maker", 32, 45), Ok(()));
    assert_eq!(comment(&mut kp, "k1", "pub", "u1", 100, 0, false, false), Ok(()));
    assert_eq!(comment(&mut kp, "k2", "pub", "u2", 200, 1, false, false), Ok(()));
    assert_eq!(comment(&mut kp, "k3", "pub", "u3", 150, 0, false, false), Ok(()));
    let doc = kp.stored_document(APP, &b("pub"));
    assert_eq!(doc.comment_count, 3);
    assert_eq!(doc.comment_total_fee, 450);
    assert_eq!(doc.comment_positive_count, 2);
    let u1 = kp.stored_app_account(APP, &b("u1")).comment;
    assert_eq!((u1.count, u1.fees, u1.positive_count), (1, 100, 1));
    let u2 = kp.stored_app_account(APP, &b("u2")).comment;
    assert_eq!((u2.count, u2.fees, u2.positive_count), (1, 200, 0));
    let u3 = kp.stored_app_account(APP, &b("u3")).comment;
    assert_eq!((u3.count, u3.fees, u3.positive_count), (1, 150, 1));
    let s2 = kp.stored_account(&b("u2")).statistics;
    assert_eq!(s2.comment_num, 1);
    assert_eq!(s2.comment_cost_total, 200);
    assert_eq!(s2.comment_cost_max, 200);
    assert_eq!(s2.comment_negative_trend_num, 1);
    assert_eq!(s2.comment_positive_trend_num, 0);
    let max = kp.stored_app(APP);
    assert_eq!(max.comment_max_per_doc.max_count, 3);
    assert_eq!(max.comment_max_per_doc.max_fee, 450);
    assert_eq!(max.comment_max_per_doc.max_positive, 2);
    assert_eq!(max.comment_max_per_doc.max_unit_fee, 150);
    assert_eq!(max.comment_max_per_account.max_fee, 200);
}

#[test]
fn attend_power_of_first_comment() {
    let mut kp = engine();
    assert_eq!(publish(&mut kp, "pub", "shoe", "maker", 32, 45), Ok(()));
    assert_eq!(comment(&mut kp, "k1", "pub", "u1", 100, 0, false, false), Ok(()));
    // all four ratios are one: (35 + 40 + 20 + 5)% * 100% * 10% * 10000
    assert_eq!(kp.kp_account_attend_power(APP, b("u1")), 1000);
    // (35 + 40 + 20 + 5)% * 40% * 15% * 10000
    assert_eq!(kp.stored_document_power(APP, &b("pub")).attend, 600);
    assert_eq!(comment(&mut kp, "k2", "pub", "u2", 50, 1, false, false), Ok(()));
    // u2: count 1/1, fee 50/100, unit fee 50/100, positive 0/1
    // (35 + 20 + 10 + 0)% * 100% * 10% * 10000
    assert_eq!(kp.kp_account_attend_power(APP, b("u2")), 650);
    // the document is held against the base frozen at its first comment
    // (count 1, fee 100, unit fee 100, positive 1): count 2/1 and fee 150/100
    // are capped at one, the unit fee fell to 75/100
    // (35 + 40 + 15 + 5)% * 40% * 15% * 10000
    assert_eq!(kp.stored_document_power(APP, &b("pub")).attend, 570);
    let base = kp.stored_app(APP).comment_max_per_doc;
    assert_eq!((base.max_count, base.max_fee, base.max_unit_fee), (2, 150, 100));
}

#[test]
fn first_expert_and_platform_comments_set_the_trend_flags_once() {
    let mut kp = engine();
    assert_eq!(publish(&mut kp, "pub", "shoe", "maker", 32, 45), Ok(()));
    // an ordinary comment sets no flag and brings no judge power
    assert_eq!(comment(&mut kp, "k0", "pub", "u0", 10, 0, false, false), Ok(()));
    assert_eq!(kp.stored_document_power(APP, &b("pub")).judge, 450);
    // the first expert judges negative: (Negative, Empty) is worth 0.5
    assert_eq!(comment(&mut kp, "k1", "pub", "u1", 10, 1, true, false), Ok(()));
    let doc = kp.stored_document(APP, &b("pub"));
    assert_eq!(doc.expert_trend, kp::CommentTrend::Negative);
    assert_eq!(doc.platform_trend, kp::CommentTrend::Empty);
    assert_eq!(kp.stored_document_power(APP, &b("pub")).judge, 5000);
    // a second expert changes nothing
    assert_eq!(comment(&mut kp, "k2", "pub", "u2", 10, 0, true, false), Ok(()));
    assert_eq!(kp.stored_document(APP, &b("pub")).expert_trend, kp::CommentTrend::Negative);
    assert_eq!(kp.stored_document_power(APP, &b("pub")).judge, 5000);
    // the first platform member judges positive: one of each is worth 0.25
    assert_eq!(comment(&mut kp, "k3", "pub", "u3", 10, 0, false, true), Ok(()));
    assert_eq!(kp.stored_document(APP, &b("pub")).platform_trend, kp::CommentTrend::Positive);
    assert_eq!(kp.stored_document_power(APP, &b("pub")).judge, 2500);
}

#[test]
fn slashing_takes_the_power_of_a_commodity_away() {
    let mut kp = engine();
    assert_eq!(publish(&mut kp, "pub", "shoe", "maker", 32, 45), Ok(()));
    assert_eq!(identify(&mut kp, "d1", "shoe", "c1", "alice", 50, 60), Ok(()));
    assert_eq!(identify(&mut kp, "d2", "shoe", "c2", "bob", 40, 60), Ok(()));
    assert_eq!(comment(&mut kp, "k1", "d1", "carol", 10, 0, false, false), Ok(()));
    let p = kp.kp_commodity_power(APP, b("c1"));
    assert!(p > 0);
    let total = kp.kp_total_power();
    let alice = kp.kp_account_power(b("alice"));
    assert!(kp.get_leader_item(APP, &b("m1"), &b("c1")).is_some());
    assert!(kp.get_leader_item(APP, &Vec::new(), &b("c1")).is_some());
    assert!(!kp.is_slashed(APP, &b("c1")));
    assert_eq!(kp.democracy_slash_commodity_power(true, APP, &b("c1"), &b("k1")), Ok(()));
    assert!(kp.is_slashed(APP, &b("c1")));
    assert!(!kp.is_slashed(APP, &b("c2")));
    assert_eq!(kp.kp_total_power(), total - p as u128);
    assert_eq!(kp.kp_account_power(b("alice")), alice.saturating_sub(p));
    assert_eq!(kp.kp_commodity_power(APP, b("c1")), 0);
    assert!(kp.get_leader_item(APP, &b("m1"), &b("c1")).is_none());
    assert!(kp.get_leader_item(APP, &Vec::new(), &b("c1")).is_none());
    assert!(kp.get_leader_item(APP, &b("m1"), &b("c2")).is_some());
    let stats = kp.stored_account(&b("alice")).statistics;
    assert_eq!(stats.slash_commodity_num, 1);
    assert_eq!(stats.slash_kp_total, p);
    // a second slash changes nothing
    let total_after = kp.kp_total_power();
    let alice_after = kp.kp_account_power(b("alice"));
    assert_eq!(kp.democracy_slash_commodity_power(true, APP, &b("c1"), &b("k1")), Ok(()));
    assert_eq!(kp.kp_total_power(), total_after);
    assert_eq!(kp.kp_account_power(b("alice")), alice_after);
    assert_eq!(kp.stored_account(&b("alice")).statistics.slash_commodity_num, 1);
    // a slashed commodity earns nothing any more
    assert_eq!(comment(&mut kp, "k2", "d1", "dave", 500, 0, false, false), Ok(()));
    assert_eq!(kp.kp_commodity_power(APP, b("c1")), 0);
    assert_eq!(kp.kp_total_power(), total_after);
    assert!(kp.get_leader_item(APP, &b("m1"), &b("c1")).is_none());
}

#[test]
fn total_power_is_the_sum_of_the_commodity_powers() {
    let mut kp = engine();
    assert_eq!(publish(&mut kp, "pub", "shoe", "maker", 32, 45), Ok(()));
    let carts = ["c1", "c2", "c3", "c4"];
    for (i, cart) in carts.iter().enumerate() {
        let doc = format!("i{}", i);
        assert_eq!(identify(&mut kp, &doc, "shoe", cart, "alice", 10 + i as u64, 20), Ok(()));
        let id = format!("k{}", i);
        assert_eq!(comment(&mut kp, &id, &doc, "bob", 5 * i as u64, 0, i == 1, i == 2), Ok(()));
    }
    assert_eq!(try_doc(&mut kp, "t1", "shoe", "c2", "alice", 3, 4), Ok(()));
    assert_eq!(kp.democracy_slash_commodity_power(true, APP, &b("c3"), &b("k0")), Ok(()));
    let mut sum: u128 = 0;
    for cart in carts.iter() {
        sum += kp.kp_commodity_power(APP, b(cart)) as u128;
    }
    assert!(sum > 0);
    assert_eq!(kp.kp_total_power(), sum);
}

#[test]
fn submissions_are_turned_away_with_the_first_failing_check() {
    let mut kp = engine();
    let mut authority = ok();
    authority.user_signed = false;
    authority.app_valid = false;
    let params = ClientParamsCreatePublishDoc {
        app_id: APP,
        document_id: b("d1"),
        model_id: b("m1"),
        product_id: b("shoe"),
        content_hash: b("h"),
        para_issue_rate: 1,
        self_issue_rate: 1,
    };
    assert_eq!(
        kp.create_product_publish_document(b("s"), params.clone(), b("o"), authority),
        Err(KpError::SignVerifyErrorUser)
    );
    authority.user_signed = true;
    authority.auth_signed = false;
    assert_eq!(
        kp.create_product_publish_document(b("s"), params.clone(), b("o"), authority),
        Err(KpError::SignVerifyErrorAuth)
    );
    authority.auth_signed = true;
    assert_eq!(
        kp.create_product_publish_document(b("s"), params.clone(), b("o"), authority),
        Err(KpError::AppIdInvalid)
    );
    authority.app_valid = true;
    authority.app_key_valid = false;
    assert_eq!(
        kp.create_product_publish_document(b("s"), params.clone(), b("o"), authority),
        Err(KpError::AuthIdentityNotAppKey)
    );
    let mut unknown_model = params.clone();
    unknown_model.model_id = b("nope");
    assert_eq!(
        kp.create_product_publish_document(b("s"), unknown_model, b("o"), ok()),
        Err(KpError::ModelNotFound)
    );
    assert_eq!(kp.create_product_publish_document(b("s"), params.clone(), b("o"), ok()), Ok(()));
    assert_eq!(
        kp.create_product_publish_document(b("s"), params.clone(), b("o"), ok()),
        Err(KpError::DocumentAlreadyExisted)
    );
    let mut same_product = params.clone();
    same_product.document_id = b("d2");
    assert_eq!(
        kp.create_product_publish_document(b("s"), same_product, b("o"), ok()),
        Err(KpError::ProductAlreadyExisted)
    );
    // nothing was stored by the refused submissions
    assert_eq!(kp.stored_document(APP, &b("d2")).document_id, Vec::<u8>::new());
}

#[test]
fn coupled_documents_are_checked() {
    let mut kp = engine();
    assert_eq!(publish(&mut kp, "pub", "shoe", "maker", 32, 45), Ok(()));
    assert_eq!(identify(&mut kp, "d1", "glove", "c1", "alice", 1, 1), Err(KpError::ProductNotFound));
    assert_eq!(try_doc(&mut kp, "d1", "glove", "c1", "alice", 1, 1), Err(KpError::ProductNotFound));
    assert_eq!(identify(&mut kp, "d1", "shoe", "c1", "alice", 1, 1), Ok(()));
    assert_eq!(
        identify(&mut kp, "d1", "shoe", "c2", "alice", 1, 1),
        Err(KpError::DocumentAlreadyExisted)
    );
    assert_eq!(
        identify(&mut kp, "d2", "shoe", "c1", "alice", 1, 1),
        Err(KpError::DocumentIdentifyAlreadyExisted)
    );
    assert_eq!(try_doc(&mut kp, "t1", "shoe", "c1", "alice", 1, 1), Ok(()));
    assert_eq!(
        try_doc(&mut kp, "t2", "shoe", "c1", "alice", 1, 1),
        Err(KpError::DocumentTryAlreadyExisted)
    );
    assert_eq!(comment(&mut kp, "k1", "d1", "u", 1, 0, false, false), Ok(()));
    assert_eq!(
        comment(&mut kp, "k1", "d1", "u", 1, 0, false, false),
        Err(KpError::CommentAlreadyExisted)
    );
    assert_eq!(
        kp.democracy_slash_commodity_power(false, APP, &b("c1"), &b("k1")),
        Err(KpError::AppIdInvalid)
    );
    assert_eq!(
        kp.democracy_slash_commodity_power(true, APP, &b("c1"), &b("nope")),
        Err(KpError::CommentNotFound)
    );
}

#[test]
fn a_report_on_an_unknown_document_cannot_slash() {
    let mut kp = engine();
    // a comment on a document that was never created stores a blank document
    // under the blank key, not under the comment's document
    assert_eq!(comment(&mut kp, "k1", "ghost", "u", 1, 0, false, false), Ok(()));
    assert_eq!(kp.stored_document(APP, &b("ghost")).comment_count, 1);
    assert_eq!(kp.democracy_slash_commodity_power(true, APP, &b("c1"), &b("k1")), Ok(()));
    assert_eq!(kp.kp_total_power(), 0);
}

#[test]
fn models_are_checked() {
    let mut kp = Module::new(config());
    let client = ClientParamsCreateModel {
        app_id: APP,
        expert_id: b("e"),
        commodity_name: b("n"),
        commodity_type: 3,
        content_hash: b("h"),
    };
    let auth = AuthParamsCreateModel { model_id: b("m1") };
    assert_eq!(
        kp.create_model(b("s"), client.clone(), auth.clone(), b("o"), ok()),
        Err(KpError::ModelTypeInvalid)
    );
    assert_eq!(kp.create_commodity_type(3, b("three")), Ok(()));
    assert_eq!(kp.create_commodity_type(1, b("one")), Ok(()));
    assert_eq!(kp.create_commodity_type(2, b("two")), Ok(()));
    assert_eq!(kp.create_commodity_type(3, b("again")), Err(KpError::CommodityTypeExisted));
    let kinds = kp.kp_get_commodity_types();
    assert_eq!(kinds.iter().map(|k| k.type_id).collect::<Vec<u32>>(), vec![1, 2, 3]);
    assert_eq!(kinds[2].type_desc, b("three"));
    kp.set_app_model_total(APP, 2);
    assert_eq!(kp.create_model(b("s"), client.clone(), auth.clone(), b("o"), ok()), Ok(true));
    assert_eq!(
        kp.create_model(b("s"), client.clone(), auth.clone(), b("o"), ok()),
        Err(KpError::ModelAlreadyExisted)
    );
    let second = AuthParamsCreateModel { model_id: b("m2") };
    // the second model of the same kind is not the first of its kind
    assert_eq!(kp.create_model(b("s"), client.clone(), second, b("o"), ok()), Ok(false));
    let third = AuthParamsCreateModel { model_id: b("m3") };
    assert_eq!(
        kp.create_model(b("s"), client.clone(), third, b("o"), ok()),
        Err(KpError::ModelOverSizeLimit)
    );
    let doc = ClientParamsCreateModelDoc {
        app_id: APP,
        document_id: b("md"),
        model_id: b("m9"),
        product_id: b("scarf"),
        content_hash: b("h"),
        producer_count: 4,
        product_count: 8,
    };
    assert_eq!(
        kp.create_model_create_document(b("s"), doc.clone(), b("o"), ok()),
        Err(KpError::ModelNotFound)
    );
    let mut known = doc.clone();
    known.model_id = b("m1");
    assert_eq!(kp.create_model_create_document(b("s"), known, b("o"), ok()), Ok(()));
    // (20% + 80%) * 30% * 10000 content, 30% * 10000 judge
    let power = kp.stored_document_power(APP, &b("md"));
    assert_eq!((power.content, power.judge), (3000, 3000));
}

#[test]
fn choose_documents_earn_miscellaneous_power() {
    let mut kp = engine();
    let doc = ClientParamsCreateChooseDoc {
        app_id: APP,
        document_id: b("cd"),
        model_id: b("m1"),
        product_id: b("scarf"),
        content_hash: b("h"),
        sell_count: 10,
        try_count: 0,
    };
    assert_eq!(kp.create_product_choose_document(b("s"), doc.clone(), b("o"), ok()), Ok(()));
    assert_eq!(
        kp.create_product_choose_document(b("s"), doc, b("o"), ok()),
        Err(KpError::DocumentAlreadyExisted)
    );
    // sell count 10/10 at 50%, try count zero: 50% * 30% * 10000
    let power = kp.stored_document_power(APP, &b("cd"));
    assert_eq!((power.content, power.judge), (1500, 3000));
    assert_eq!(kp.kp_total_power(), 0);
}

#[test]
fn slashing_clears_every_board_of_the_application() {
    let mut kp = engine();
    let second = kp.create_model(
        b("sender"),
        ClientParamsCreateModel {
            app_id: APP,
            expert_id: b("e2"),
            commodity_name: b("hats"),
            commodity_type: 1,
            content_hash: b("h"),
        },
        AuthParamsCreateModel { model_id: b("m2") },
        b("creator"),
        ok(),
    );
    assert_eq!(second, Ok(false));
    assert_eq!(publish(&mut kp, "pub1", "shoe", "maker", 32, 45), Ok(()));
    let other = kp.create_product_publish_document(
        b("sender"),
        ClientParamsCreatePublishDoc {
            app_id: APP,
            document_id: b("pub2"),
            model_id: b("m2"),
            product_id: b("hat"),
            content_hash: b("h"),
            para_issue_rate: 3,
            self_issue_rate: 4,
        },
        b("maker"),
        ok(),
    );
    assert_eq!(other, Ok(()));
    // the identify document of the cart names a product of the first model,
    // its try document a product of the second
    assert_eq!(identify(&mut kp, "d1", "shoe", "c1", "alice", 50, 60), Ok(()));
    assert_eq!(try_doc(&mut kp, "t1", "hat", "c1", "alice", 5, 80), Ok(()));
    assert!(kp.get_leader_item(APP, &b("m1"), &b("c1")).is_some());
    assert!(kp.get_leader_item(APP, &b("m2"), &b("c1")).is_some());
    assert!(kp.get_leader_item(APP, &Vec::new(), &b("c1")).is_some());
    // the report comes in on a document of the second model
    assert_eq!(comment(&mut kp, "k1", "pub2", "carol", 10, 0, false, false), Ok(()));
    assert_eq!(kp.democracy_slash_commodity_power(true, APP, &b("c1"), &b("k1")), Ok(()));
    assert!(kp.get_leader_item(APP, &b("m1"), &b("c1")).is_none());
    assert!(kp.get_leader_item(APP, &b("m2"), &b("c1")).is_none());
    assert!(kp.get_leader_item(APP, &Vec::new(), &b("c1")).is_none());
    assert_eq!(kp.kp_total_power(), 0);
}

#[test]
fn boards_pools_and_indices_can_be_read() {
    let mut kp = engine();
    assert_eq!(publish(&mut kp, "pub", "shoe", "maker", 32, 45), Ok(()));
    assert_eq!(identify(&mut kp, "d1", "shoe", "c1", "alice", 50, 60), Ok(()));
    assert_eq!(identify(&mut kp, "d2", "shoe", "c2", "alice", 25, 60), Ok(()));
    assert_eq!(identify(&mut kp, "d3", "shoe", "c3", "bob", 50, 60), Ok(()));
    // c1: both rates at their maximum; c2: half of the first rate; c3 ties
    // with c1 and came later
    let model_board = kp.leader_board(APP, &b("m1"));
    let order: Vec<Vec<u8>> = model_board.iter().map(|e| e.cart_id.clone()).collect();
    assert_eq!(order, vec![b("c1"), b("c3"), b("c2")]);
    assert_eq!(model_board[0].power, model_board[1].power);
    assert!(model_board[1].power > model_board[2].power);
    assert_eq!(model_board[0].owner, b("alice"));
    assert_eq!(model_board[0].power, kp.kp_commodity_power(APP, b("c1")));
    let app_board = kp.leader_board(APP, &Vec::new());
    assert_eq!(app_board.len(), 3);
    assert!(kp.leader_board(APP, &b("m9")).is_empty());
    assert_eq!(kp.account_document_set(APP, &b("alice")), vec![b("d1"), b("d2")]);
    assert_eq!(kp.account_commodity_set(APP, &b("alice")), vec![b("c1"), b("c2")]);
    assert_eq!(kp.account_commodity_set(APP, &b("bob")), vec![b("c3")]);
    assert!(kp.account_commodity_set(APP, &b("carol")).is_empty());
    assert_eq!(comment(&mut kp, "k1", "d2", "carol", 7, 0, false, false), Ok(()));
    assert_eq!(comment(&mut kp, "k2", "d2", "dave", 9, 1, false, false), Ok(()));
    let pool = kp.document_comments_account_pool(APP, &b("d2"));
    assert_eq!(pool.len(), 2);
    assert_eq!((pool[0].account.clone(), pool[0].position, pool[0].cash_cost), (b("carol"), 1, 7));
    assert_eq!((pool[1].account.clone(), pool[1].position, pool[1].cash_cost), (b("dave"), 2, 9));
    assert!(kp.document_comments_account_pool(APP, &b("d1")).is_empty());
    // the comments raised the second cart above none of the others
    let after: Vec<Vec<u8>> = kp.leader_board(APP, &b("m1")).iter().map(|e| e.cart_id.clone()).collect();
    assert_eq!(after.len(), 3);
    assert_eq!(kp.app_leader_board_last_time(APP, &b("m1")), 0);
    assert!(kp.app_leader_board_sequence_keys().is_empty());
    let seed: [u8; 32] = [3; 32];
    assert_eq!(kp.create_power_leader_board(true, 42, APP, &b("m1"), &seed), Ok(()));
    assert_eq!(kp.create_power_leader_board(true, 43, APP, &Vec::new(), &seed), Ok(()));
    assert_eq!(kp.app_leader_board_last_time(APP, &b("m1")), 42);
    assert_eq!(kp.app_leader_board_last_time(APP, &Vec::new()), 43);
    let keys = kp.app_leader_board_sequence_keys();
    assert_eq!(keys.len(), 2);
    assert_eq!((keys[0].app_id, keys[0].block, keys[0].model_id.clone()), (APP, 42, b("m1")));
    assert_eq!((keys[1].app_id, keys[1].block, keys[1].model_id.clone()), (APP, 43, Vec::new()));
}

#[test]
fn comments_move_a_commodity_on_its_boards() {
    let mut kp = engine();
    assert_eq!(publish(&mut kp, "pub", "shoe", "maker", 32, 45), Ok(()));
    assert_eq!(identify(&mut kp, "d1", "shoe", "c1", "alice", 50, 60), Ok(()));
    assert_eq!(identify(&mut kp, "d2", "shoe", "c2", "bob", 50, 60), Ok(()));
    let first: Vec<Vec<u8>> = kp.leader_board(APP, &b("m1")).iter().map(|e| e.cart_id.clone()).collect();
    assert_eq!(first, vec![b("c1"), b("c2")]);
    // an ordinary comment on the second document brings attend power and
    // leaves the judge part alone
    let before = kp.kp_commodity_power(APP, b("c2"));
    assert_eq!(comment(&mut kp, "k1", "d2", "carol", 7, 0, false, false), Ok(()));
    let attend = kp.stored_document_power(APP, &b("d2")).attend;
    // (35 + 40 + 20 + 5)% * 40% * 25% * 10000
    assert_eq!(attend, 1000);
    let set = kp.stored_power_set(APP, &b("c2"));
    assert_eq!(set.identify.attend, 1000);
    assert_eq!(set.identify.judge, 750);
    assert_eq!(set.identify.content, 750);
    // the commodity holds the power of the document as it is stored
    assert_eq!(set.identify, kp.stored_document_power(APP, &b("d2")));
    assert_eq!(set.publish, kp.stored_document_power(APP, &b("pub")));
    assert_eq!(kp.kp_commodity_power(APP, b("c2")), before + 1000);
    let second: Vec<Vec<u8>> = kp.leader_board(APP, &b("m1")).iter().map(|e| e.cart_id.clone()).collect();
    assert_eq!(second, vec![b("c2"), b("c1")]);
    assert_eq!(kp.kp_total_power(), (kp.kp_commodity_power(APP, b("c1")) + kp.kp_commodity_power(APP, b("c2"))) as u128);
}

#[test]
fn miscellaneous_power_adds_the_owners_attend_power() {
    let mut kp = engine();
    assert_eq!(publish(&mut kp, "pub", "shoe", "maker", 32, 45), Ok(()));
    // the owner of the choose document earns attend power as a writer first
    assert_eq!(comment(&mut kp, "k1", "pub", "owner", 10, 0, false, false), Ok(()));
    assert_eq!(kp.kp_account_attend_power(APP, b("owner")), 1000);
    let doc = ClientParamsCreateChooseDoc {
        app_id: APP,
        document_id: b("cd"),
        model_id: b("m1"),
        product_id: b("shoe"),
        content_hash: b("h"),
        sell_count: 10,
        try_count: 5,
    };
    assert_eq!(kp.create_product_choose_document(b("s"), doc, b("owner"), ok()), Ok(()));
    // content (50% + 50%) * 30% * 10000 = 3000, judge 3000, attend power 1000
    assert_eq!(kp.kp_misc_document_power(APP, &b("cd")), 7000);
    assert_eq!(kp.kp_misc_document_power(APP, &b("pub")), 0);
}

#[test]
fn one_comment_may_set_both_trend_flags() {
    let mut kp = engine();
    assert_eq!(publish(&mut kp, "pub", "shoe", "maker", 32, 45), Ok(()));
    assert_eq!(comment(&mut kp, "k1", "pub", "u1", 10, 0, true, true), Ok(()));
    let doc = kp.stored_document(APP, &b("pub"));
    assert_eq!(doc.expert_trend, kp::CommentTrend::Positive);
    assert_eq!(doc.platform_trend, kp::CommentTrend::Positive);
    // both positive is worth 0.375
    assert_eq!(kp.stored_document_power(APP, &b("pub")).judge, 3750);
}

#[test]
fn a_verdict_that_is_neither_positive_nor_negative_leaves_the_flag_empty() {
    let mut kp = engine();
    assert_eq!(publish(&mut kp, "pub", "shoe", "maker", 32, 45), Ok(()));
    assert_eq!(comment(&mut kp, "k1", "pub", "u1", 10, 2, true, false), Ok(()));
    let doc = kp.stored_document(APP, &b("pub"));
    assert_eq!(doc.expert_trend, kp::CommentTrend::Empty);
    // the comment counted as an expert's: both flags empty is worth 1.0
    assert_eq!(kp.stored_document_power(APP, &b("pub")).judge, 10000);
    assert_eq!(doc.comment_positive_count, 0);
    assert_eq!(kp.stored_account(&b("u1")).statistics.comment_negative_trend_num, 1);
    // the flag is still to be set
    assert_eq!(comment(&mut kp, "k2", "pub", "u2", 10, 1, true, false), Ok(()));
    assert_eq!(kp.stored_document(APP, &b("pub")).expert_trend, kp::CommentTrend::Negative);
    assert_eq!(kp.stored_document_power(APP, &b("pub")).judge, 5000);
}

#[test]
fn sums_of_fees_stop_at_the_largest_value() {
    let mut kp = engine();
    assert_eq!(publish(&mut kp, "pub", "shoe", "maker", 32, 45), Ok(()));
    assert_eq!(comment(&mut kp, "k1", "pub", "u1", u64::MAX, 0, false, false), Ok(()));
    assert_eq!(comment(&mut kp, "k2", "pub", "u1", u64::MAX, 0, false, false), Ok(()));
    let doc = kp.stored_document(APP, &b("pub"));
    assert_eq!(doc.comment_count, 2);
    assert_eq!(doc.comment_total_fee, u64::MAX);
    let record = kp.stored_app_account(APP, &b("u1")).comment;
    assert_eq!((record.count, record.fees, record.positive_count), (2, u64::MAX, 2));
    assert_eq!(kp.stored_account(&b("u1")).statistics.comment_cost_total, u64::MAX);
}

#[test]
fn a_board_without_counted_commodities_is_not_drawn() {
    let mut kp = engine();
    kp.update_realtime_power_leader_boards(APP, &b("mx"), &b("c9"), 5, &b("owner"));
    assert_eq!(kp.leader_board(APP, &b("mx")).len(), 1);
    assert_eq!(kp.board_commodity_count(APP, &b("mx")), 0);
    let seed: [u8; 32] = [5; 32];
    assert_eq!(kp.create_power_leader_board(true, 9, APP, &b("mx"), &seed), Ok(()));
    assert!(kp.app_leader_board_sequence_keys().is_empty());
    assert_eq!(kp.app_leader_board_last_time(APP, &b("mx")), 0);
    assert!(kp.leader_board_result(9, APP, b("mx")).board.is_empty());
    assert_eq!(kp.remove_leader_board_item(APP, &b("mx"), &b("c9")), Some(0));
    assert_eq!(kp.remove_leader_board_item(APP, &b("mx"), &b("c9")), None);
    assert!(kp.leader_board(APP, &b("mx")).is_empty());
}

#[test]
fn documents_without_a_known_product_leave_their_commodity_alone() {
    let mut kp = engine();
    // the processing steps can be taken one by one
    let doc = kp::KPDocumentData {
        app_id: APP,
        document_id: b("d1"),
        model_id: b("m1"),
        product_id: b("unknown"),
        content_hash: b("h"),
        sender: b("s"),
        owner: b("alice"),
        document_type: DocumentType::ProductIdentify,
        document_data: kp::DocumentSpecificData::ProductIdentify(kp::KPProductIdentifyData {
            goods_price: 1,
            ident_rate: 5,
            ident_consistence: 5,
            cart_id: b("c1"),
        }),
        comment_count: 0,
        comment_total_fee: 0,
        comment_positive_count: 0,
        expert_trend: kp::CommentTrend::Empty,
        platform_trend: kp::CommentTrend::Empty,
    };
    kp.process_document_content_power(&doc);
    // the power of the document is stored, its commodity is not
    assert_eq!(kp.stored_document_power(APP, &b("d1")).content, 750);
    assert!(!kp.kp_is_commodity_power_exist(APP, b("c1")));
    assert_eq!(kp.kp_total_power(), 0);
    assert_eq!(kp.process_commodity_power(&doc), None);
    assert_eq!(kp.update_document_power(&doc, 5, 6), None);
    assert_eq!(kp.stored_document_power(APP, &b("d1")).attend, 0);
    assert_eq!(kp.get_model_id_from_product(APP, &b("unknown")), None);
    assert_eq!(kp.get_pub_docid_from_doc(APP, &b("d1")), Vec::<u8>::new());
    assert_eq!(kp.account_document_set(APP, &b("alice")), vec![b("d1")]);
}

#[test]
fn a_slashed_commodity_adds_nothing_to_its_owner() {
    let mut kp = engine();
    assert_eq!(publish(&mut kp, "pub", "shoe", "maker", 32, 45), Ok(()));
    assert_eq!(identify(&mut kp, "d1", "shoe", "c1", "alice", 50, 60), Ok(()));
    assert_eq!(identify(&mut kp, "d2", "shoe", "c2", "alice", 50, 60), Ok(()));
    assert_eq!(comment(&mut kp, "k1", "d1", "carol", 10, 0, false, false), Ok(()));
    let set = kp.stored_power_set(APP, &b("c1"));
    let p = kp.kp_commodity_power(APP, b("c1"));
    let miner = kp.kp_account_power(b("alice"));
    let accumulated = kp.stored_app_account(APP, &b("alice")).accumulation;
    assert_eq!(miner, accumulated.total());
    assert_eq!(kp.democracy_slash_commodity_power(true, APP, &b("c1"), &b("k1")), Ok(()));
    assert_eq!(kp.kp_account_power(b("alice")), miner - p);
    // the three documents of the cart left the accumulated power
    let left = kp.stored_app_account(APP, &b("alice")).accumulation;
    assert_eq!(left, accumulated.without(&set.publish).without(&set.identify).without(&set.try_power));
    assert_eq!(left.total(), miner - p);
    // a comment on a document of the slashed cart reaches the document only
    let slashed_miner = kp.kp_account_power(b("alice"));
    assert_eq!(comment(&mut kp, "k2", "d1", "dave", 500, 0, true, false), Ok(()));
    assert_eq!(kp.stored_document_power(APP, &b("d1")).judge, 7500);
    assert_eq!(kp.kp_account_power(b("alice")), slashed_miner);
    assert_eq!(kp.stored_app_account(APP, &b("alice")).accumulation, left);
    assert_eq!(kp.stored_power_set(APP, &b("c1")).identify, kp::DocumentPower::empty());
    assert_eq!(kp.process_commodity_power(&kp.stored_document(APP, &b("d1"))), None);
    assert_eq!(kp.kp_account_power(b("alice")), slashed_miner);
    // a try document for the slashed cart is stored but adds nothing
    assert_eq!(try_doc(&mut kp, "t1", "shoe", "c1", "alice", 5, 80), Ok(()));
    assert_eq!(kp.stored_document_power(APP, &b("t1")).content, 1050);
    assert_eq!(kp.stored_app_account(APP, &b("alice")).accumulation, left);
    assert_eq!(kp.kp_commodity_power(APP, b("c1")), 0);
    // a comment on the other cart of the owner brings back nothing of the
    // slashed cart: the miner power is the accumulated power without it
    assert_eq!(comment(&mut kp, "k3", "d2", "erin", 10, 0, false, false), Ok(()));
    let now = kp.stored_app_account(APP, &b("alice")).accumulation;
    assert_eq!(kp.kp_account_power(b("alice")), now.total());
    assert_eq!(now.content, left.content);
    assert_eq!(now.judge, left.judge);
    assert_eq!(now.attend, kp.stored_document_power(APP, &b("d2")).attend);
    assert_eq!(kp.kp_total_power(), kp.kp_commodity_power(APP, b("c2")) as u128);
}

#[test]
fn clearing_and_slashing_can_be_done_step_by_step() {
    let mut kp = engine();
    assert_eq!(publish(&mut kp, "pub", "shoe", "maker", 32, 45), Ok(()));
    assert_eq!(identify(&mut kp, "d1", "shoe", "c1", "alice", 50, 60), Ok(()));
    assert_eq!(identify(&mut kp, "d2", "shoe", "c2", "bob", 40, 60), Ok(()));
    let total = kp.kp_total_power();
    let p1 = kp.kp_commodity_power(APP, b("c1"));
    let p2 = kp.kp_commodity_power(APP, b("c2"));
    assert!(kp.get_leader_item(APP, &b("m1"), &b("c1")).is_some());
    // clearing takes the cart off the boards itself
    kp.clear_purchase_power(APP, &b("c1"));
    assert_eq!(kp.kp_total_power(), total - p1 as u128);
    assert_eq!(kp.stored_power_set(APP, &b("c1")), kp::CommodityPowerSet::empty());
    assert!(kp.is_slashed(APP, &b("c1")));
    assert!(kp.get_leader_item(APP, &b("m1"), &b("c1")).is_none());
    assert!(kp.get_leader_item(APP, &Vec::new(), &b("c1")).is_none());
    assert_eq!(kp.stored_power_set(APP, &b("c2")).identify, kp.stored_document_power(APP, &b("d2")));
    // clearing does not touch the owner; clearing again changes nothing
    let alice = kp.kp_account_power(b("alice"));
    kp.clear_purchase_power(APP, &b("c1"));
    assert_eq!(kp.kp_total_power(), total - p1 as u128);
    assert_eq!(kp.kp_account_power(b("alice")), alice);
    // slashing a ranked cart
    let bob = kp.kp_account_power(b("bob"));
    kp.slash_power(APP, &b("c2"), &b("bob"));
    assert_eq!(kp.kp_total_power(), 0);
    assert_eq!(kp.kp_account_power(b("bob")), bob.saturating_sub(p2));
    assert!(kp.leader_board(APP, &b("m1")).is_empty());
    assert!(kp.leader_board(APP, &Vec::new()).is_empty());
    // a cart that was never stored: it is on the black list with no power
    kp.slash_power(APP, &b("c9"), &b("bob"));
    assert!(kp.is_slashed(APP, &b("c9")));
    assert!(kp.kp_is_commodity_power_exist(APP, b("c9")));
    assert_eq!(kp.kp_total_power(), 0);
}

#[test]
fn a_slashed_commodity_is_not_put_up() {
    let mut kp = engine();
    assert_eq!(kp.update_realtime_power_leader_boards(APP, &b("m1"), &b("c1"), 5, &b("o")), Some(0));
    assert_eq!(kp.update_realtime_power_leader_boards(APP, &b("m1"), &b("c2"), 7, &b("o")), Some(0));
    kp.clear_purchase_power(APP, &b("c1"));
    assert_eq!(kp.leader_board(APP, &b("m1")).len(), 1);
    assert_eq!(kp.update_realtime_power_leader_boards(APP, &b("m1"), &b("c1"), 9, &b("o")), None);
    let board = kp.leader_board(APP, &b("m1"));
    assert_eq!(board.len(), 1);
    assert_eq!(board[0].cart_id, b("c2"));
    let set = kp::CommodityPowerSet { owner_attend: 3, ..kp::CommodityPowerSet::empty() };
    kp.update_purchase_power(&set, APP, &b("m1"), &b("c1"), &b("o"));
    assert_eq!(kp.kp_commodity_power(APP, b("c1")), 0);
    assert_eq!(kp.kp_total_power(), 0);
}

#[test]
fn boards_of_the_engine_stay_within_their_places() {
    let mut small = config();
    small.app_leader_board_max_pos = 2;
    let mut kp = Module::new(small);
    for i in 0..6u64 {
        let cart = format!("c{}", i);
        assert_eq!(kp.update_realtime_power_leader_boards(APP, &b("m1"), &b(&cart), i, &b("o")), Some(0));
        assert!(kp.leader_board(APP, &b("m1")).len() <= 2);
    }
    let board = kp.leader_board(APP, &b("m1"));
    // the weakest went each time
    assert_eq!((board[0].power, board[1].power), (5, 4));
}
