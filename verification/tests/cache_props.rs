use hoopoe::cache::{cache_notif, notif_owner_key, CacheValue, KeyValueStore};
use hoopoe::cipher::SecureCellConfig;
use hoopoe::error::ErrorKind;
use hoopoe::event::{ActionType, NotifData};

fn notif(id: &str, receiver: &str) -> NotifData {
    NotifData {
        id: id.to_string(),
        receiver_info: receiver.to_string(),
        action_data: "{}".to_string(),
        actioner_info: "sys".to_string(),
        action_type: ActionType::ProductPurchased,
        fired_at: 1,
        is_seen: false,
    }
}

fn owner_list(store: &KeyValueStore, receiver: &str) -> Option<Vec<NotifData>> {
    let key = notif_owner_key(receiver);
    match store.get(&key) {
        Some(CacheValue::Notifs(list)) => Some(list.clone()),
        Some(CacheValue::Config(_)) => panic!("owner key holds a config"),
        None => None,
    }
}

#[test]
fn first_delivery_creates_key_with_ttl() {
    let mut store = KeyValueStore::new();
    let n = notif("a", "u1");
    cache_notif(&mut store, n.clone(), 60).unwrap();
    let key = notif_owner_key("u1");
    assert!(store.key_exists(&key));
    assert_eq!(owner_list(&store, "u1"), Some(vec![n]));
    store.advance(59);
    assert!(store.key_exists(&key));
    store.advance(2);
    assert!(!store.key_exists(&key));
    assert_eq!(owner_list(&store, "u1"), None);
}

#[test]
fn deliveries_append_in_order() {
    let mut store = KeyValueStore::new();
    let n1 = notif("a", "u1");
    let n2 = notif("b", "u1");
    let n3 = notif("c", "u1");
    cache_notif(&mut store, n1.clone(), 60).unwrap();
    cache_notif(&mut store, n2.clone(), 60).unwrap();
    cache_notif(&mut store, n3.clone(), 60).unwrap();
    assert_eq!(owner_list(&store, "u1"), Some(vec![n1, n2, n3]));
}

#[test]
fn second_write_does_not_extend_ttl() {
    let mut store = KeyValueStore::new();
    let n1 = notif("a", "u1");
    let n2 = notif("b", "u1");
    cache_notif(&mut store, n1.clone(), 60).unwrap();
    store.advance(30);
    cache_notif(&mut store, n2.clone(), 60).unwrap();
    let key = notif_owner_key("u1");
    // clock 59: inside the original window, both entries are visible
    store.advance(29);
    assert_eq!(owner_list(&store, "u1"), Some(vec![n1, n2]));
    // clock 61: past the expiry set at creation; a refreshed TTL would have
    // kept the key until clock 90
    store.advance(2);
    assert!(!store.key_exists(&key));
}

#[test]
fn expired_key_is_recreated_with_fresh_ttl() {
    let mut store = KeyValueStore::new();
    let n1 = notif("a", "u1");
    let n2 = notif("b", "u1");
    cache_notif(&mut store, n1, 10).unwrap();
    store.advance(11);
    cache_notif(&mut store, n2.clone(), 10).unwrap();
    assert_eq!(owner_list(&store, "u1"), Some(vec![n2]));
    store.advance(9);
    assert!(store.key_exists(&notif_owner_key("u1")));
    store.advance(2);
    assert!(!store.key_exists(&notif_owner_key("u1")));
}

#[test]
fn receivers_do_not_interfere() {
    let mut store = KeyValueStore::new();
    let n1 = notif("a", "u1");
    let n2 = notif("b", "u2");
    cache_notif(&mut store, n1.clone(), 60).unwrap();
    cache_notif(&mut store, n2.clone(), 60).unwrap();
    assert_eq!(owner_list(&store, "u1"), Some(vec![n1]));
    assert_eq!(owner_list(&store, "u2"), Some(vec![n2]));
}

#[test]
fn undecodable_cached_value_is_codec_error() {
    let mut store = KeyValueStore::new();
    let key = notif_owner_key("u1");
    let cell = SecureCellConfig {
        secret_key: "aa".to_string(),
        passphrase: "bb".to_string(),
        data: vec![1, 2, 3],
    };
    store.set_ex(&key, CacheValue::Config(cell), 60);
    let err = cache_notif(&mut store, notif("a", "u1"), 60).unwrap_err();
    assert_eq!(err.kind, ErrorKind::Codec);
}

#[test]
fn plain_set_keeps_live_expiry_and_set_ex_resets_it() {
    let mut store = KeyValueStore::new();
    let key = notif_owner_key("u9");
    store.set_ex(&key, CacheValue::Notifs(vec![]), 10);
    store.advance(5);
    store.set(&key, CacheValue::Notifs(vec![notif("x", "u9")]));
    store.advance(4);
    assert!(store.key_exists(&key));
    store.advance(2);
    assert!(!store.key_exists(&key));
    store.set_ex(&key, CacheValue::Notifs(vec![]), 10);
    store.advance(9);
    assert!(store.key_exists(&key));
}

#[test]
fn get_on_missing_key_is_none() {
    let store = KeyValueStore::new();
    assert!(store.get(&"nothing".to_string()).is_none());
    assert!(!store.key_exists(&"nothing".to_string()));
}

#[test]
fn owner_key_shape() {
    assert_eq!(notif_owner_key("u1"), "notif_owner:u1".to_string());
}
