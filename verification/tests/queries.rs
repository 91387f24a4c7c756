use kp::vote::PowerVote;
use kp::{
    Authority, AuthParamsCreateModel, ClientParamsCreateIdentifyDoc, ClientParamsCreateModel,
    ClientParamsCreatePublishDoc, CommentData, Config, Kp, ModelIncomeStage, Module,
    QueryCommodityPowerParams, QueryLeaderBoardParams,
};
use std::sync::Arc;

const APP: u32 = 11;

fn config() -> Config {
    Config {
        top_weight_product_publish: 15,
        top_weight_document_identify: 25,
        top_weight_document_try: 35,
        top_weight_account_attend: 10,
        top_weight_account_stake: 15,
        document_power_weight_attend: 40,
        document_power_weight_content: 30,
        document_power_weight_judge: 30,
        comment_power_weight_count: 35,
        comment_power_weight_cost: 40,
        comment_power_weight_per_cost: 20,
        comment_power_weight_positive: 5,
        comment_power_weight: 40,
        document_publish_weight_params_rate: 60,
        document_publish_weight_params_self_rate: 40,
        document_identify_weight_params_rate: 50,
        document_identify_weight_check_rate: 50,
        document_try_weight_bias_rate: 60,
        document_try_weight_true_rate: 40,
        document_choose_weight_sell_count: 50,
        document_choose_weight_try_count: 50,
        document_model_weight_producer_count: 20,
        document_model_weight_product_count: 80,
        document_cm_power_weight_attend: 40,
        document_cm_power_weight_content: 30,
        document_cm_power_weight_judge: 30,
        comment_cm_power_weight_count: 35,
        comment_cm_power_weight_cost: 40,
        comment_cm_power_weight_per_cost: 20,
        comment_cm_power_weight_positive: 5,
        cm_power_account_attend: 10,
        app_leader_board_max_pos: 30,
        model_income_cycle_period: 1000,
        model_income_collecting_period: 100,
        model_income_rewarding_period: 200,
    }
}

fn ok() -> Authority {
    Authority { user_signed: true, auth_signed: true, app_valid: true, app_key_valid: true }
}

fn b(s: &str) -> Vec<u8> {
    s.as_bytes().to_vec()
}

fn market() -> Module {
    let mut kp = Module::new(config());
    assert_eq!(kp.create_commodity_type(1, b("goods")), Ok(()));
    let created = kp.create_model(
        b("s"),
        ClientParamsCreateModel {
            app_id: APP,
            expert_id: b("e"),
            commodity_name: b("n"),
            commodity_type: 1,
            content_hash: b("h"),
        },
        AuthParamsCreateModel { model_id: b("m1") },
        b("creator"),
        ok(),
    );
    assert_eq!(created, Ok(true));
    let published = kp.create_product_publish_document(
        b("s"),
        ClientParamsCreatePublishDoc {
            app_id: APP,
            document_id: b("pub"),
            model_id: b("m1"),
            product_id: b("shoe"),
            content_hash: b("h"),
            para_issue_rate: 10,
            self_issue_rate: 10,
        },
        b("maker"),
        ok(),
    );
    assert_eq!(published, Ok(()));
    let identified = kp.create_product_identify_document(
        b("s"),
        ClientParamsCreateIdentifyDoc {
            app_id: APP,
            document_id: b("i1"),
            product_id: b("shoe"),
            content_hash: b("h"),
            goods_price: 1,
            ident_rate: 10,
            ident_consistence: 10,
            cart_id: b("c1"),
        },
        b("alice"),
        ok(),
    );
    assert_eq!(identified, Ok(()));
    let commented = kp.create_comment(
        b("bob"),
        CommentData {
            app_id: APP,
            document_id: b("i1"),
            comment_id: b("k1"),
            comment_hash: b("h"),
            comment_fee: 10,
            comment_trend: 0,
        },
        b("bob"),
        ok(),
        false,
        false,
    );
    assert_eq!(commented, Ok(()));
    kp
}

#[test]
fn handle_answers_from_its_engine() {
    let mut engine = market();
    let seed: [u8; 32] = [4; 32];
    assert_eq!(engine.create_power_leader_board(true, 12, APP, &b("m1"), &seed), Ok(()));
    let total = engine.kp_total_power();
    let alice = engine.kp_account_power(b("alice"));
    let cart = engine.kp_commodity_power(APP, b("c1"));
    let record = engine.leader_board_result(12, APP, b("m1"));
    assert!(total > 0);
    assert_eq!(total, cart as u128);
    let handle: Kp<Module, u32> = Kp::new(Arc::new(engine));
    assert_eq!(handle.total_power(), total);
    assert_eq!(handle.account_power(b("alice")), alice);
    assert_eq!(handle.account_power(b("nobody")), 0);
    assert_eq!(
        handle.commodity_power(QueryCommodityPowerParams { app_id: APP, cart_id: b("c1") }),
        cart
    );
    assert!(handle
        .is_commodity_power_exist(QueryCommodityPowerParams { app_id: APP, cart_id: b("c1") }));
    assert!(!handle
        .is_commodity_power_exist(QueryCommodityPowerParams { app_id: APP + 1, cart_id: b("c1") }));
    let reported = handle.leader_board_result(QueryLeaderBoardParams {
        app_id: APP,
        model_id: b("m1"),
        block: 12,
    });
    assert_eq!(reported.accounts, record.accounts);
    assert_eq!(reported.board.len(), 1);
    assert_eq!(reported.board[0].cart_id, b("c1"));
    assert_eq!(reported.board[0].power, cart);
    assert_eq!(reported.board[0].owner, b("alice"));
    let missing = handle.leader_board_result(QueryLeaderBoardParams {
        app_id: APP,
        model_id: b("m1"),
        block: 13,
    });
    assert!(missing.board.is_empty() && missing.accounts.is_empty());
}

#[test]
fn account_power_is_the_accumulated_power_of_the_owner() {
    let kp = market();
    let doc = kp.stored_document_power(APP, &b("i1"));
    let publish = kp.stored_document_power(APP, &b("pub"));
    let record = kp.stored_app_account(APP, &b("alice"));
    // content is accumulated when the document is created, with the publish
    // document folded in; attend and judge follow the comments
    assert_eq!(record.accumulation.content, doc.content + publish.content);
    assert_eq!(record.accumulation.attend, doc.attend);
    assert_eq!(kp.kp_account_power(b("alice")), kp.kp_auth_account_power(b("alice")));
    assert_eq!(
        kp.kp_account_power(b("alice")),
        record.accumulation.attend + record.accumulation.content + record.accumulation.judge
    );
    assert_eq!(kp.kp_account_attend_power(APP, b("bob")), 1000);
    assert_eq!(kp.kp_account_attend_power(APP, b("alice")), 0);
}

#[test]
fn stake_counts_by_the_power_of_the_account() {
    let kp = market();
    let power = kp.kp_account_power(b("alice"));
    assert!(power > 0 && power <= 10000);
    assert_eq!(kp.kp_account_power_ratio(&b("alice")), power);
    assert_eq!(kp.account_power_ratio(&b("alice")), power);
    assert_eq!(kp.kp_staking_to_vote(&b("alice"), 20000), 2 * power);
    // an account without power counts a tenth
    assert_eq!(kp.kp_account_power_ratio(&b("nobody")), 1000);
    assert_eq!(kp.kp_staking_to_vote(&b("nobody"), 500), 50);
}

#[test]
fn income_cycle_stages() {
    let c = config();
    assert_eq!(c.model_income_cycle_index(0), 0);
    assert_eq!(c.model_income_cycle_index(999), 0);
    assert_eq!(c.model_income_cycle_index(1000), 1);
    assert_eq!(c.model_income_cycle_index(2500), 2);
    // the first cycle is all normal
    assert_eq!(c.model_income_stage(0), (ModelIncomeStage::NORMAL, 1000));
    assert_eq!(c.model_income_stage(50), (ModelIncomeStage::NORMAL, 950));
    assert_eq!(c.model_income_stage(999), (ModelIncomeStage::NORMAL, 1));
    assert_eq!(c.model_income_stage(1000), (ModelIncomeStage::COLLECTING, 100));
    assert_eq!(c.model_income_stage(1099), (ModelIncomeStage::COLLECTING, 1));
    assert_eq!(c.model_income_stage(1100), (ModelIncomeStage::REWARDING, 200));
    assert_eq!(c.model_income_stage(1299), (ModelIncomeStage::REWARDING, 1));
    assert_eq!(c.model_income_stage(1300), (ModelIncomeStage::NORMAL, 700));
    assert_eq!(c.model_income_stage(1999), (ModelIncomeStage::NORMAL, 1));
    let kp = Module::new(c);
    let now = kp.model_income_current_stage(1150);
    assert_eq!((now.stage, now.left), (2, 150));
    let mut wide = config();
    wide.model_income_cycle_period = u64::MAX;
    wide.model_income_collecting_period = 10;
    wide.model_income_rewarding_period = u64::MAX;
    assert_eq!(wide.model_income_stage(u64::MAX), (ModelIncomeStage::COLLECTING, 10));
}
