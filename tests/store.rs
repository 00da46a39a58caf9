use advices::{Advice, Store};

fn rec(id: i64, text: &str) -> Advice {
    Advice::new(id, text.to_string())
}

fn sorted(mut v: Vec<Advice>) -> Vec<(i64, String)> {
    v.sort_by_key(|a| a.id);
    v.into_iter().map(|a| (a.id, a.advice)).collect()
}

#[test]
fn new_store_lists_nothing() {
    let s = Store::new();
    assert!(s.list().is_empty());
}

#[test]
fn insert_then_list_returns_same_record() {
    let mut s = Store::new();
    s.insert(rec(42, "Don't eat yellow snow."));
    assert_eq!(sorted(s.list()), vec![(42, "Don't eat yellow snow.".to_string())]);
}

#[test]
fn insert_with_existing_id_replaces() {
    let mut s = Store::new();
    s.insert(rec(1, "first"));
    s.insert(rec(1, "second"));
    assert_eq!(sorted(s.list()), vec![(1, "second".to_string())]);
}

#[test]
fn remove_absent_returns_false_and_keeps_store() {
    let mut s = Store::new();
    s.insert(rec(1, "a"));
    s.insert(rec(2, "b"));
    let before = sorted(s.list());
    assert!(!s.remove(3));
    assert_eq!(sorted(s.list()), before);
}

#[test]
fn remove_present_returns_true() {
    let mut s = Store::new();
    s.insert(rec(5, "x"));
    assert!(s.remove(5));
    assert!(s.list().is_empty());
    assert!(!s.remove(5));
}

#[test]
fn list_reflects_inserts_and_removes() {
    let mut s = Store::new();
    s.insert(rec(1, "a"));
    s.insert(rec(2, "b"));
    s.insert(rec(3, "c"));
    s.remove(2);
    s.insert(rec(4, "d"));
    s.remove(1);
    s.insert(rec(1, "again"));
    assert_eq!(
        sorted(s.list()),
        vec![(1, "again".to_string()), (3, "c".to_string()), (4, "d".to_string())]
    );
}

#[test]
fn distinct_inserts_are_all_listed() {
    let mut s = Store::new();
    let n: i64 = 50;
    for i in 0..n {
        s.insert(rec(i * 7 - 20, &format!("advice {}", i)));
    }
    let listed = sorted(s.list());
    assert_eq!(listed.len(), n as usize);
    for i in 0..n {
        assert!(listed.contains(&(i * 7 - 20, format!("advice {}", i))));
    }
}

#[test]
fn extreme_ids_are_kept() {
    let mut s = Store::new();
    s.insert(rec(i64::MIN, "min"));
    s.insert(rec(i64::MAX, "max"));
    s.insert(rec(0, ""));
    assert_eq!(
        sorted(s.list()),
        vec![(i64::MIN, "min".to_string()), (0, String::new()), (i64::MAX, "max".to_string())]
    );
}

#[test]
fn cloned_record_is_equal() {
    let a = rec(9, "copy me");
    let b = a.clone();
    assert_eq!(b.id, 9);
    assert_eq!(b.advice, "copy me");
}
