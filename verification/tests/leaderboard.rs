use kp::leaderboard::{CommodityLeaderBoardData, LeaderBoard, LeaderBoardIndex};

fn entry(cart: &str, power: u64) -> CommodityLeaderBoardData {
    CommodityLeaderBoardData { cart_id: cart.as_bytes().to_vec(), power, owner: b"owner".to_vec() }
}

fn carts(board: &LeaderBoard) -> Vec<String> {
    (0..board.len()).map(|i| String::from_utf8(board.get(i).cart_id.clone()).unwrap()).collect()
}

#[test]
fn board_is_ranked_by_power() {
    let mut board = LeaderBoard::new();
    for (cart, power) in [("a", 5u64), ("b", 9), ("c", 1), ("d", 7)].iter() {
        board.upsert(entry(cart, *power), 10);
    }
    assert_eq!(carts(&board), vec!["b", "d", "a", "c"]);
    assert_eq!(board.get(0).power, 9);
}

#[test]
fn equal_power_ranks_the_newcomer_last() {
    let mut board = LeaderBoard::new();
    board.upsert(entry("a", 5), 10);
    board.upsert(entry("b", 5), 10);
    board.upsert(entry("c", 5), 10);
    board.upsert(entry("d", 5), 10);
    board.upsert(entry("top", 8), 10);
    board.upsert(entry("low", 2), 10);
    board.upsert(entry("e", 5), 10);
    assert_eq!(carts(&board), vec!["top", "a", "b", "c", "d", "e", "low"]);
    let a = board.get_leader_item(&b"a".to_vec()).unwrap().0;
    let b = board.get_leader_item(&b"b".to_vec()).unwrap().0;
    assert!(a < b);
}

#[test]
fn board_never_exceeds_its_capacity() {
    let mut board = LeaderBoard::new();
    for i in 0..50u64 {
        board.upsert(entry(&format!("c{}", i), (i * 37) % 11), 4);
        assert!(board.len() <= 4);
    }
    assert_eq!(board.len(), 4);
    // the weakest was dropped each time: only the largest powers are left
    for i in 0..board.len() {
        assert!(board.get(i).power >= 9);
    }
    let mut none = LeaderBoard::new();
    none.upsert(entry("a", 1), 0);
    assert_eq!(none.len(), 0);
}

#[test]
fn upsert_of_a_known_cart_moves_it() {
    let mut board = LeaderBoard::new();
    board.upsert(entry("a", 5), 10);
    board.upsert(entry("b", 4), 10);
    board.upsert(entry("c", 3), 10);
    // same power: nothing moves
    board.upsert(entry("b", 4), 10);
    assert_eq!(carts(&board), vec!["a", "b", "c"]);
    // new power: the old place goes
    board.upsert(entry("c", 9), 10);
    assert_eq!(carts(&board), vec!["c", "a", "b"]);
    board.upsert(entry("c", 4), 10);
    assert_eq!(carts(&board), vec!["a", "b", "c"]);
    assert_eq!(board.len(), 3);
}

#[test]
fn remove_takes_one_place_away() {
    let mut board = LeaderBoard::new();
    board.upsert(entry("a", 5), 10);
    board.upsert(entry("b", 4), 10);
    assert!(board.remove(&b"a".to_vec()));
    assert!(!board.remove(&b"a".to_vec()));
    assert_eq!(carts(&board), vec!["b"]);
    assert!(board.get_leader_item(&b"a".to_vec()).is_none());
    let (place, item) = board.get_leader_item(&b"b".to_vec()).unwrap();
    assert_eq!(place, 0);
    assert_eq!(item.power, 4);
}

#[test]
fn board_index_marks_a_place_or_none() {
    let none = LeaderBoardIndex::default();
    assert!(!none.exist());
    let third = LeaderBoardIndex::from(3usize);
    assert!(third.exist());
    assert_eq!(third.index(), 3);
    assert!(!LeaderBoardIndex::from(u32::MAX as usize).exist());
}
