use ztm_shell::store::ListStore;

#[test]
fn get_on_empty_store_is_empty() {
    let store = ListStore::new();
    let list = store.get_list("history");
    assert!(list.is_empty());
}

#[test]
fn set_then_get_returns_the_list() {
    let mut store = ListStore::new();
    let items = vec![String::from("one"), String::from("two")];
    store.set_list(String::from("history"), items.clone());
    assert_eq!(store.get_list("history"), items);
}

#[test]
fn set_overwrites_the_previous_list() {
    let mut store = ListStore::new();
    store.set_list(String::from("history"), vec![String::from("old")]);
    store.set_list(String::from("history"), vec![String::from("new")]);
    assert_eq!(store.get_list("history"), vec![String::from("new")]);
}

#[test]
fn push_on_missing_key_starts_from_empty() {
    let mut store = ListStore::new();
    store.push_list(String::from("history"), String::from("first"));
    assert_eq!(store.get_list("history"), vec![String::from("first")]);
}

#[test]
fn push_appends_and_keeps_the_prefix() {
    let mut store = ListStore::new();
    store.set_list(String::from("history"), vec![String::from("a"), String::from("b")]);
    store.push_list(String::from("history"), String::from("c"));
    assert_eq!(
        store.get_list("history"),
        vec![String::from("a"), String::from("b"), String::from("c")]
    );
}

#[test]
fn keys_lists_each_stored_key_once() {
    let mut store = ListStore::new();
    assert!(store.keys().is_empty());
    store.set_list(String::from("history"), vec![String::from("a")]);
    store.push_list(String::from("bookmarks"), String::from("b"));
    store.push_list(String::from("history"), String::from("c"));
    let mut keys = store.keys();
    keys.sort();
    assert_eq!(keys, vec![String::from("bookmarks"), String::from("history")]);
}

#[test]
fn keys_do_not_disturb_each_other() {
    let mut store = ListStore::new();
    store.set_list(String::from("history"), vec![String::from("page")]);
    store.set_list(String::from("bookmarks"), vec![String::from("star")]);
    store.push_list(String::from("history"), String::from("other"));
    assert_eq!(store.get_list("bookmarks"), vec![String::from("star")]);
    assert_eq!(
        store.get_list("history"),
        vec![String::from("page"), String::from("other")]
    );
    assert!(store.get_list("unrelated").is_empty());
}
