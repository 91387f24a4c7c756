use kp::lottery::{
    compute_hit_weight, compute_selection_count, hits, pick_item, pick_usize, seed_from_random,
};
use kp::{
    Authority, AuthParamsCreateModel, ClientParamsCreateIdentifyDoc, ClientParamsCreateModel,
    ClientParamsCreatePublishDoc, ClientParamsCreateTryDoc, CommentData, CommentMaxRecord,
    CommentWeightData, Config, KpError, Module,
};
use rand_chacha::rand_core::{RngCore, SeedableRng};
use rand_chacha::ChaChaRng;

const APP: u32 = 3;

fn config(max_pos: u32) -> Config {
    Config {
        top_weight_product_publish: 15,
        top_weight_document_identify: 25,
        top_weight_document_try: 35,
        top_weight_account_attend: 10,
        top_weight_account_stake: 15,
        document_power_weight_attend: 40,
        document_power_weight_content: 30,
        document_power_weight_judge: 30,
        comment_power_weight_count: 35,
        comment_power_weight_cost: 40,
        comment_power_weight_per_cost: 20,
        comment_power_weight_positive: 5,
        comment_power_weight: 40,
        document_publish_weight_params_rate: 60,
        document_publish_weight_params_self_rate: 40,
        document_identify_weight_params_rate: 50,
        document_identify_weight_check_rate: 50,
        document_try_weight_bias_rate: 60,
        document_try_weight_true_rate: 40,
        document_choose_weight_sell_count: 50,
        document_choose_weight_try_count: 50,
        document_model_weight_producer_count: 20,
        document_model_weight_product_count: 80,
        document_cm_power_weight_attend: 40,
        document_cm_power_weight_content: 30,
        document_cm_power_weight_judge: 30,
        comment_cm_power_weight_count: 35,
        comment_cm_power_weight_cost: 40,
        comment_cm_power_weight_per_cost: 20,
        comment_cm_power_weight_positive: 5,
        cm_power_account_attend: 10,
        app_leader_board_max_pos: max_pos,
        model_income_cycle_period: 1000,
        model_income_collecting_period: 100,
        model_income_rewarding_period: 200,
    }
}

fn ok() -> Authority {
    Authority { user_signed: true, auth_signed: true, app_valid: true, app_key_valid: true }
}

fn b(s: &str) -> Vec<u8> {
    s.as_bytes().to_vec()
}

fn comment(kp: &mut Module, id: &str, doc: &str, who: &str, fee: u64) -> Result<(), KpError> {
    kp.create_comment(
        b(who),
        CommentData {
            app_id: APP,
            document_id: b(doc),
            comment_id: b(id),
            comment_hash: b("h"),
            comment_fee: fee,
            comment_trend: 0,
        },
        b(who),
        ok(),
        false,
        false,
    )
}

/// An engine with one published product and `carts` identified carts
/// `c0`, `c1`, ... whose identify documents are `i0`, `i1`, ...; the
/// cart `c1` has the try document `t1` too.
fn market(carts: usize, max_pos: u32) -> Module {
    let mut kp = Module::new(config(max_pos));
    assert_eq!(kp.create_commodity_type(1, b("goods")), Ok(()));
    let created = kp.create_model(
        b("s"),
        ClientParamsCreateModel {
            app_id: APP,
            expert_id: b("e"),
            commodity_name: b("n"),
            commodity_type: 1,
            content_hash: b("h"),
        },
        AuthParamsCreateModel { model_id: b("m1") },
        b("creator"),
        ok(),
    );
    assert_eq!(created, Ok(true));
    let published = kp.create_product_publish_document(
        b("s"),
        ClientParamsCreatePublishDoc {
            app_id: APP,
            document_id: b("pub"),
            model_id: b("m1"),
            product_id: b("shoe"),
            content_hash: b("h"),
            para_issue_rate: 10,
            self_issue_rate: 10,
        },
        b("maker"),
        ok(),
    );
    assert_eq!(published, Ok(()));
    for i in 0..carts {
        let identified = kp.create_product_identify_document(
            b("s"),
            ClientParamsCreateIdentifyDoc {
                app_id: APP,
                document_id: b(&format!("i{}", i)),
                product_id: b("shoe"),
                content_hash: b("h"),
                goods_price: 1,
                ident_rate: 10 + i as u64,
                ident_consistence: 10,
                cart_id: b(&format!("c{}", i)),
            },
            b(&format!("owner{}", i)),
            ok(),
        );
        assert_eq!(identified, Ok(()));
    }
    if carts > 1 {
        let tried = kp.create_product_try_document(
            b("s"),
            ClientParamsCreateTryDoc {
                app_id: APP,
                document_id: b("t1"),
                product_id: b("shoe"),
                content_hash: b("h"),
                goods_price: 1,
                offset_rate: 3,
                true_rate: 4,
                cart_id: b("c1"),
            },
            b("owner1"),
            ok(),
        );
        assert_eq!(tried, Ok(()));
    }
    kp
}

/// The comments of the market, in the order in which they are made: the
/// comment's document, its writer and its fee.
fn remarks(carts: usize) -> Vec<(String, String, u64)> {
    let mut all: Vec<(String, String, u64)> = Vec::new();
    let mut n: u64 = 0;
    for round in 0..4u64 {
        for i in 0..carts {
            n += 1;
            all.push((format!("i{}", i), format!("w{}", n), 10 + (n * 37) % 90 + round));
        }
        n += 1;
        all.push(("pub".to_string(), format!("w{}", n), 40 + round * 20));
        if carts > 1 {
            n += 1;
            all.push(("t1".to_string(), format!("w{}", n), 5 + round * 30));
        }
    }
    all
}

fn talk(kp: &mut Module, carts: usize) {
    for (k, (doc, who, fee)) in remarks(carts).iter().enumerate() {
        assert_eq!(comment(kp, &format!("k{}", k), doc, who, *fee), Ok(()));
    }
}

/// The pool of `doc`: writer, position, fee of each of its comments.
fn pool_of(doc: &str, carts: usize) -> Vec<(String, u64, u64)> {
    let mut pool: Vec<(String, u64, u64)> = Vec::new();
    for (d, who, fee) in remarks(carts).iter() {
        if d == doc {
            let position = pool.len() as u64 + 1;
            pool.push((who.clone(), position, *fee));
        }
    }
    pool
}

/// The weight of a comment by the formula, as one quotient.
fn weight_of(fee: u64, position: u64, max: &CommentMaxRecord, is_pub: bool) -> u128 {
    let (f, fm) = if max.max_fee == 0 { (0, 1) } else { (fee.min(max.max_fee) as u128, max.max_fee as u128) };
    let (p, cm) =
        if max.max_count == 0 { (0, 1) } else { (position.min(max.max_count) as u128, max.max_count as u128) };
    let k: u128 = if is_pub { 2 } else { 1 };
    (88 * f * cm + 8 * p * fm) / (fm * cm * k)
}

/// Walks one pool with a generator that is read word after word.
fn walk(rng: &mut ChaChaRng, doc: &str, carts: usize, is_pub: bool, max: &CommentMaxRecord, winners: &mut Vec<Vec<u8>>) {
    for (who, position, fee) in pool_of(doc, carts).iter() {
        let weight = weight_of(*fee, *position, max, is_pub);
        let draw = (rng.next_u32() % 101) as u128;
        if weight > draw {
            winners.push(b(who));
        }
    }
}

#[test]
fn draw_reads_the_generator_word_after_word() {
    let carts = 5;
    let mut kp = market(carts, 30);
    talk(&mut kp, carts);
    let mut some_winner = false;
    let mut some_loser = false;
    for s in 0..8u8 {
        let seed: [u8; 32] = [s; 32];
        assert_eq!(kp.create_power_leader_board(true, 100 + s as u64, APP, &b("m1"), &seed), Ok(()));
        let result = kp.leader_board_result(100 + s as u32, APP, b("m1"));
        // five commodities: all five leaders take part
        assert_eq!(result.board.len(), 5);
        let max = kp.stored_app(APP).comment_max_per_doc;
        let mut rng = ChaChaRng::from_seed(seed);
        let mut expected: Vec<Vec<u8>> = Vec::new();
        let mut publish_walked = false;
        for item in result.board.iter() {
            let cart = String::from_utf8(item.cart_id.clone()).unwrap();
            let identify_doc = cart.replace("c", "i");
            walk(&mut rng, &identify_doc, carts, false, &max, &mut expected);
            if !publish_walked {
                walk(&mut rng, "pub", carts, true, &max, &mut expected);
                publish_walked = true;
            }
            if cart == "c1" {
                walk(&mut rng, "t1", carts, false, &max, &mut expected);
            }
        }
        assert_eq!(result.accounts, expected);
        let comments = remarks(carts).len();
        some_winner = some_winner || !expected.is_empty();
        some_loser = some_loser || expected.len() < comments;
    }
    assert!(some_winner);
    assert!(some_loser);
}

#[test]
fn draw_over_six_entries_selects_one_leader_and_repeats() {
    let carts = 6;
    let mut first = market(carts, 30);
    talk(&mut first, carts);
    let mut second = market(carts, 30);
    talk(&mut second, carts);
    let seed: [u8; 32] = [9; 32];
    assert_eq!(first.create_power_leader_board(true, 5, APP, &b("m1"), &seed), Ok(()));
    assert_eq!(second.create_power_leader_board(true, 5, APP, &b("m1"), &seed), Ok(()));
    let a = first.leader_board_result(5, APP, b("m1"));
    let c = second.leader_board_result(5, APP, b("m1"));
    // six commodities: a fifth of them, which is one
    assert_eq!(a.board.len(), 1);
    assert_eq!(a.board[0].cart_id, c.board[0].cart_id);
    assert_eq!(a.accounts, c.accounts);
    // the top entry is the cart with the try document
    assert_eq!(a.board[0].cart_id, b("c1"));
    assert_eq!(a.board[0].owner, b("owner1"));
    assert_eq!(a.board[0].power, first.kp_commodity_power(APP, b("c1")));
    // held again on the same state with the same seed
    assert_eq!(first.create_power_leader_board(true, 6, APP, &b("m1"), &seed), Ok(()));
    let again = first.leader_board_result(6, APP, b("m1"));
    assert_eq!(again.accounts, a.accounts);
    assert_eq!(again.board.len(), 1);
    // the board of the whole application
    assert_eq!(first.create_power_leader_board(true, 5, APP, &Vec::new(), &seed), Ok(()));
    assert_eq!(first.leader_board_result(5, APP, Vec::new()).board.len(), 1);
    // a draw that was never held
    assert_eq!(first.leader_board_result(7, APP, b("m1")).board.len(), 0);
    assert_eq!(first.leader_board_result(5, APP, b("m2")).accounts.len(), 0);
}

#[test]
fn draw_needs_a_board_and_a_known_application() {
    let mut kp = market(0, 30);
    let seed: [u8; 32] = [1; 32];
    assert_eq!(
        kp.create_power_leader_board(false, 1, APP, &b("m1"), &seed),
        Err(KpError::AppIdInvalid)
    );
    // an empty board: nothing is recorded
    assert_eq!(kp.create_power_leader_board(true, 1, APP, &b("m1"), &seed), Ok(()));
    assert_eq!(kp.leader_board_result(1, APP, b("m1")).board.len(), 0);
}

#[test]
fn capacity_limits_the_leaders_of_a_draw() {
    let carts = 20;
    let mut kp = market(carts, 3);
    let seed: [u8; 32] = [2; 32];
    assert_eq!(kp.create_power_leader_board(true, 1, APP, &b("m1"), &seed), Ok(()));
    // twenty commodities, a fifth is four, the board has three places
    assert_eq!(kp.leader_board_result(1, APP, b("m1")).board.len(), 3);
    assert_eq!(kp.board_commodity_count(APP, &b("m1")), 20);
    assert_eq!(kp.board_commodity_count(APP, &Vec::new()), 20);
}

#[test]
fn selection_count_values() {
    assert_eq!(compute_selection_count(0, 30, 10), 0);
    assert_eq!(compute_selection_count(3, 30, 10), 3);
    assert_eq!(compute_selection_count(5, 30, 10), 5);
    assert_eq!(compute_selection_count(5, 30, 2), 2);
    assert_eq!(compute_selection_count(6, 30, 10), 1);
    assert_eq!(compute_selection_count(9, 30, 10), 1);
    assert_eq!(compute_selection_count(10, 30, 10), 2);
    assert_eq!(compute_selection_count(1000, 30, 100), 30);
    assert_eq!(compute_selection_count(100, 30, 100), 20);
    assert_eq!(compute_selection_count(u32::MAX, u32::MAX, 7), 7);
}

#[test]
fn hit_weight_values() {
    let max = CommentMaxRecord { max_count: 10, max_fee: 200, max_positive: 0, max_unit_fee: 0 };
    let full = CommentWeightData { account: b("a"), position: 10, cash_cost: 200 };
    assert_eq!(compute_hit_weight(&full, &max, false), 96);
    assert_eq!(compute_hit_weight(&full, &max, true), 48);
    let half = CommentWeightData { account: b("a"), position: 5, cash_cost: 50 };
    // 88 * 0.25 + 8 * 0.5 = 26
    assert_eq!(compute_hit_weight(&half, &max, false), 26);
    assert_eq!(compute_hit_weight(&half, &max, true), 13);
    let odd = CommentWeightData { account: b("a"), position: 1, cash_cost: 1 };
    // 88 * 0.005 + 8 * 0.1 = 1.24
    assert_eq!(compute_hit_weight(&odd, &max, false), 1);
    assert_eq!(compute_hit_weight(&odd, &max, true), 0);
    let none = CommentMaxRecord { max_count: 0, max_fee: 0, max_positive: 0, max_unit_fee: 0 };
    assert_eq!(compute_hit_weight(&full, &none, false), 0);
    // a term whose maximum is zero is left out
    let no_fee = CommentMaxRecord { max_count: 10, max_fee: 0, max_positive: 0, max_unit_fee: 0 };
    assert_eq!(compute_hit_weight(&full, &no_fee, false), 8);
    assert_eq!(compute_hit_weight(&half, &no_fee, true), 2);
    let no_count = CommentMaxRecord { max_count: 0, max_fee: 200, max_positive: 0, max_unit_fee: 0 };
    assert_eq!(compute_hit_weight(&full, &no_count, false), 88);
    assert_eq!(compute_hit_weight(&half, &no_count, true), 11);
    // fee and position are capped at their maxima
    let over = CommentWeightData { account: b("a"), position: 99, cash_cost: 999 };
    assert_eq!(compute_hit_weight(&over, &max, false), 96);
    assert!(hits(96, 95));
    assert!(!hits(96, 96));
    assert!(hits(1, 101));
    assert!(!hits(0, 0));
}

#[test]
fn picks_stay_in_range() {
    assert_eq!(pick_usize(0, 100), 0);
    assert_eq!(pick_usize(100, 100), 100);
    assert_eq!(pick_usize(101, 100), 0);
    assert_eq!(pick_usize(u32::MAX, 100), (u32::MAX % 101) as usize);
    assert_eq!(pick_usize(77, 0), 0);
    let items = vec![10u8, 20, 30];
    assert_eq!(pick_item(4, &items), Some(&20));
    assert_eq!(pick_item(5, &items), Some(&30));
    let nothing: Vec<u8> = Vec::new();
    assert_eq!(pick_item(4, &nothing), None);
}

#[test]
fn seed_is_filled_with_zeros() {
    assert_eq!(seed_from_random(&Vec::new()), [0u8; 32]);
    let mut expected = [0u8; 32];
    expected[0] = 7;
    expected[1] = 8;
    assert_eq!(seed_from_random(&vec![7, 8]), expected);
    let long: Vec<u8> = (1..=40).collect();
    let seed = seed_from_random(&long);
    assert_eq!(seed[0], 1);
    assert_eq!(seed[31], 32);
}

#[test]
fn hit_weight_is_cut_off_once() {
    // 88 * 113636365 / 10000000000 + 8 = 9.000000012
    let max = CommentMaxRecord { max_count: 1, max_fee: 10_000_000_000, max_positive: 0, max_unit_fee: 0 };
    let comment = CommentWeightData { account: b("a"), position: 1, cash_cost: 113_636_365 };
    assert_eq!(compute_hit_weight(&comment, &max, false), 9);
    assert!(hits(compute_hit_weight(&comment, &max, false), 8));
    // half of 9.000000012
    assert_eq!(compute_hit_weight(&comment, &max, true), 4);
    // one less in the fee: 8.9999999...
    let below = CommentWeightData { account: b("a"), position: 1, cash_cost: 113_636_363 };
    assert_eq!(compute_hit_weight(&below, &max, false), 8);
    // 88 / 11 = 8 exactly, and no whole is made up by the remainders
    let eleventh = CommentMaxRecord { max_count: 3, max_fee: 11, max_positive: 0, max_unit_fee: 0 };
    let exact = CommentWeightData { account: b("a"), position: 0, cash_cost: 1 };
    assert_eq!(compute_hit_weight(&exact, &eleventh, false), 8);
    // 88 * 1/3 + 8 * 2/3 = 29.33 + 5.33 = 34.67: the two remainders carry
    let thirds = CommentMaxRecord { max_count: 3, max_fee: 3, max_positive: 0, max_unit_fee: 0 };
    let carried = CommentWeightData { account: b("a"), position: 2, cash_cost: 1 };
    assert_eq!(compute_hit_weight(&carried, &thirds, false), 34);
    // 88 * 2/3 + 8 * 2/3 = 58.67 + 5.33 = 64
    let whole = CommentWeightData { account: b("a"), position: 2, cash_cost: 2 };
    assert_eq!(compute_hit_weight(&whole, &thirds, false), 64);
    assert_eq!(compute_hit_weight(&whole, &thirds, true), 32);
    // the largest values
    let wide = CommentMaxRecord { max_count: u64::MAX, max_fee: u64::MAX, max_positive: 0, max_unit_fee: 0 };
    let most = CommentWeightData { account: b("a"), position: u64::MAX, cash_cost: u64::MAX };
    assert_eq!(compute_hit_weight(&most, &wide, false), 96);
    let nearly = CommentWeightData { account: b("a"), position: u64::MAX - 1, cash_cost: u64::MAX - 1 };
    assert_eq!(compute_hit_weight(&nearly, &wide, false), 95);
}
