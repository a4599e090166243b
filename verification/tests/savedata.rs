use sango::misskey::users::User;
use sango::savedata::SaveData;

fn user(id: &str, name: Option<&str>, username: &str) -> User {
    User {
        id: id.to_string(),
        name: name.map(|n| n.to_string()),
        username: username.to_string(),
        host: None,
        is_bot: false,
    }
}

fn pair(a: &str, b: &str) -> (String, String) {
    (a.to_string(), b.to_string())
}

#[test]
fn new_store_knows_nobody() {
    let store = SaveData::new();
    assert_eq!(store.get_nickname("u1"), None);
    assert_eq!(store.entries(), Vec::<(String, String)>::new());
    assert_eq!(SaveData::default(), SaveData::new());
}

#[test]
fn nickname_round_trip() {
    let mut store = SaveData::new();
    let alice = user("u1", Some("Alice"), "alice");
    assert_eq!(store.get_displayname(&alice), "Alice");
    store.store_nickname("u1", "あーちゃん");
    assert_eq!(store.get_nickname("u1"), Some("あーちゃん".to_string()));
    assert_eq!(store.get_displayname(&alice), "あーちゃん");
    assert!(store.forget_nickname("u1"));
    assert_eq!(store.get_nickname("u1"), None);
    assert_eq!(store.get_displayname(&alice), "Alice");
}

#[test]
fn display_name_falls_back_to_the_user_name() {
    let mut store = SaveData::new();
    let bob = user("u2", None, "bob");
    assert_eq!(store.get_displayname(&bob), "bob");
    store.store_nickname("u2", "ボブ");
    assert_eq!(store.get_displayname(&bob), "ボブ");
    store.forget_nickname("u2");
    assert_eq!(store.get_displayname(&bob), "bob");
}

#[test]
fn nickname_of_one_user_is_not_that_of_another() {
    let mut store = SaveData::new();
    store.store_nickname("u1", "one");
    store.store_nickname("u2", "two");
    assert_eq!(store.get_nickname("u1"), Some("one".to_string()));
    assert_eq!(store.get_nickname("u2"), Some("two".to_string()));
    assert_eq!(store.get_nickname("u"), None);
    assert!(store.forget_nickname("u1"));
    assert_eq!(store.get_nickname("u1"), None);
    assert_eq!(store.get_nickname("u2"), Some("two".to_string()));
}

#[test]
fn storing_again_replaces_the_nickname() {
    let mut store = SaveData::new();
    store.store_nickname("u1", "one");
    store.store_nickname("u2", "two");
    store.store_nickname("u1", "uno");
    assert_eq!(store.get_nickname("u1"), Some("uno".to_string()));
    assert_eq!(store.entries().len(), 2);
}

#[test]
fn forgetting_what_is_not_there_changes_nothing() {
    let mut store = SaveData::new();
    store.store_nickname("u1", "one");
    assert!(!store.forget_nickname("u2"));
    assert!(!store.forget_nickname(""));
    assert_eq!(store.entries(), vec![pair("u1", "one")]);
    assert!(store.forget_nickname("u1"));
    assert!(!store.forget_nickname("u1"));
}

#[test]
fn entries_go_both_ways() {
    let mut store = SaveData::new();
    store.store_nickname("u1", "one");
    store.store_nickname("u2", "two");
    store.store_nickname("u3", "three");
    store.forget_nickname("u2");
    let entries = store.entries();
    assert_eq!(entries, vec![pair("u1", "one"), pair("u3", "three")]);
    let again = SaveData::from_entries(entries);
    assert_eq!(again.get_nickname("u1"), Some("one".to_string()));
    assert_eq!(again.get_nickname("u2"), None);
    assert_eq!(again.get_nickname("u3"), Some("three".to_string()));
}

#[test]
fn last_entry_of_an_id_counts() {
    let store = SaveData::from_entries(vec![pair("u1", "one"), pair("u2", "two"), pair("u1", "uno")]);
    assert_eq!(store.get_nickname("u1"), Some("uno".to_string()));
    assert_eq!(store.get_nickname("u2"), Some("two".to_string()));
    assert_eq!(store.entries().len(), 2);
    assert_eq!(SaveData::from_entries(Vec::new()), SaveData::new());
}
