use kp::records::IdList;
use kp::table::{ScopedId, Table};

fn key(app: u32, id: &str) -> ScopedId {
    ScopedId::new(app, &id.as_bytes().to_vec())
}

#[test]
fn table_is_a_map() {
    let mut t: Table<ScopedId, u64> = Table::new();
    assert!(!t.contains_key(&key(1, "a")));
    assert_eq!(t.get(&key(1, "a")), None);
    t.insert(key(1, "a"), 10);
    t.insert(key(2, "a"), 20);
    t.insert(key(1, "b"), 30);
    assert_eq!(t.get(&key(1, "a")), Some(&10));
    assert_eq!(t.get(&key(2, "a")), Some(&20));
    assert_eq!(t.get(&key(1, "b")), Some(&30));
    assert_eq!(t.get(&key(2, "b")), None);
    t.insert(key(1, "a"), 11);
    assert_eq!(t.get(&key(1, "a")), Some(&11));
    assert_eq!(t.key_list().len(), 3);
    assert_eq!(t.remove(&key(2, "a")), Some(20));
    assert_eq!(t.remove(&key(2, "a")), None);
    assert!(!t.contains_key(&key(2, "a")));
    assert!(t.contains_key(&key(1, "b")));
    assert_eq!(t.key_list().len(), 2);
}

#[test]
fn table_keys_of_other_kinds() {
    let mut by_app: Table<u32, u8> = Table::new();
    by_app.insert(7, 1);
    by_app.insert(8, 2);
    assert_eq!(by_app.get(&7), Some(&1));
    assert_eq!(by_app.get(&9), None);
    let mut by_account: Table<Vec<u8>, u8> = Table::new();
    by_account.insert(vec![1, 2], 1);
    by_account.insert(vec![1], 2);
    by_account.insert(Vec::new(), 3);
    assert_eq!(by_account.get(&vec![1, 2]), Some(&1));
    assert_eq!(by_account.get(&vec![1]), Some(&2));
    assert_eq!(by_account.get(&Vec::new()), Some(&3));
    assert_eq!(by_account.get(&vec![2]), None);
    let mut by_pair: Table<(u32, u32), bool> = Table::new();
    by_pair.insert((1, 2), true);
    assert!(by_pair.contains_key(&(1, 2)));
    assert!(!by_pair.contains_key(&(2, 1)));
}

#[test]
fn id_list_keeps_the_order() {
    let mut ids = IdList::new();
    assert_eq!(ids.len(), 0);
    ids.push(vec![3]);
    ids.push(vec![1]);
    ids.push(vec![3]);
    assert_eq!(ids.len(), 3);
    assert_eq!(ids.get(1), &vec![1u8]);
    assert!(ids.contains(&vec![3]));
    assert!(!ids.contains(&vec![2]));
    assert_eq!(ids.to_vec(), vec![vec![3u8], vec![1], vec![3]]);
}
