use delegatify::store::TokenStore;

#[test]
fn a_new_store_is_empty() {
    let store: TokenStore<String> = TokenStore::new();
    assert!(store.read().is_none());
    assert!(!store.is_authenticated());
}

#[test]
fn replace_installs_the_handle() {
    let mut store: TokenStore<String> = TokenStore::new();
    store.replace("first".to_string());
    assert_eq!(store.read(), Some(&"first".to_string()));
    assert!(store.is_authenticated());
}

#[test]
fn replace_twice_with_the_same_handle_changes_nothing() {
    let mut once: TokenStore<u32> = TokenStore::new();
    once.replace(7);
    let mut twice: TokenStore<u32> = TokenStore::new();
    twice.replace(7);
    twice.replace(7);
    assert_eq!(once.read(), Some(&7));
    assert_eq!(twice.read(), Some(&7));
    assert_eq!(once, twice);
}

#[test]
fn the_later_handle_wins() {
    let mut store: TokenStore<u32> = TokenStore::new();
    store.replace(1);
    store.replace(2);
    assert_eq!(store.read(), Some(&2));
}

#[test]
fn reading_does_not_change_the_store() {
    let mut store: TokenStore<u32> = TokenStore::new();
    store.replace(5);
    assert_eq!(store.read(), Some(&5));
    assert_eq!(store.read(), Some(&5));
}
