use sly::data::bindings::{Bindings, SteamBinding};

fn store(entries: &[(u64, &str)]) -> Bindings {
    Bindings {
        steam_bindings: entries
            .iter()
            .map(|(d, s)| SteamBinding { discord_id: *d, steam_id: s.to_string() })
            .collect(),
    }
}

fn entries(b: &Bindings) -> Vec<(u64, String)> {
    b.steam_bindings.iter().map(|e| (e.discord_id, e.steam_id.clone())).collect()
}

#[test]
fn new_store_is_empty() {
    let b = Bindings::new();
    assert!(b.steam_bindings.is_empty());
    assert_eq!(b.steam_id_of(1), None);
    assert!(!b.is_linked(1));
}

#[test]
fn lookup_gives_the_first_entry_of_the_user() {
    let b = store(&[(1, "a"), (2, "b"), (1, "c")]);
    assert_eq!(b.steam_id_of(1), Some("a".to_string()));
    assert_eq!(b.steam_id_of(2), Some("b".to_string()));
    assert_eq!(b.steam_id_of(3), None);
    assert!(b.is_linked(2));
    assert!(!b.is_linked(3));
}

#[test]
fn link_then_lookup_gives_the_new_id() {
    let mut b = store(&[(5, "x")]);
    assert!(b.link(7, "7656".to_string()));
    assert_eq!(b.steam_id_of(7), Some("7656".to_string()));
    assert_eq!(b.steam_id_of(5), Some("x".to_string()));
    assert_eq!(entries(&b), vec![(5, "x".to_string()), (7, "7656".to_string())]);
}

#[test]
fn link_of_a_linked_user_changes_nothing() {
    let mut b = store(&[(5, "x"), (6, "y")]);
    assert!(!b.link(5, "other".to_string()));
    assert_eq!(entries(&b), vec![(5, "x".to_string()), (6, "y".to_string())]);
}

#[test]
fn unlink_removes_every_entry_of_the_user_and_keeps_the_order() {
    let mut b = store(&[(1, "a"), (2, "b"), (1, "c"), (3, "d")]);
    assert!(b.unlink(1));
    assert_eq!(entries(&b), vec![(2, "b".to_string()), (3, "d".to_string())]);
    assert_eq!(b.steam_id_of(1), None);
    assert!(!b.unlink(1));
    assert_eq!(entries(&b), vec![(2, "b".to_string()), (3, "d".to_string())]);
}

#[test]
fn unlink_after_link_gives_the_store_back() {
    let mut b = store(&[(2, "b"), (3, "d")]);
    let before = entries(&b);
    assert!(b.link(9, "n".to_string()));
    assert!(b.unlink(9));
    assert_eq!(entries(&b), before);
}

#[test]
fn unlink_on_empty_store() {
    let mut b = Bindings::new();
    assert!(!b.unlink(4));
    assert!(b.steam_bindings.is_empty());
}
