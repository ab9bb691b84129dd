//! End-to-end runs of the produce and consume paths against the cache
//! model, with an invertible stand-in at the cipher boundary.

use hoopoe::cache::{CacheValue, KeyValueStore};
use hoopoe::cipher::{check_decryption_config, config_cache_key, prepare_secure_cell,
    CryptoConfig};
use hoopoe::consumer::{delivery_ciphertext, delivery_text, plan_sinks, session_step,
    SessionAction, SessionEvent, SessionState};
use hoopoe::error::ErrorKind;
use hoopoe::producer::{cache_cell_config, plan_publish, prepare_publish_encrypted};

// the cipher at the boundary is only required to invert itself under the
// same keys; reversing the bytes is enough to exercise the chain
fn stand_in_encrypt(data: &[u8]) -> Vec<u8> {
    data.iter().rev().cloned().collect()
}

fn stand_in_decrypt(data: &[u8]) -> Vec<u8> {
    data.iter().rev().cloned().collect()
}

#[test]
fn encrypted_produce_then_consume_returns_the_payload() {
    let payload = "{\"id\":\"a\",\"receiver_info\":\"u1\"}";
    let config = CryptoConfig {
        secret: "S".to_string(),
        passphrase: "P".to_string(),
        unique_redis_id: "cfg-1".to_string(),
    };
    let mut store = KeyValueStore::new();

    // produce: hex keys, encrypt, hex wire body, cache the config
    let cell = prepare_secure_cell(&config, payload.as_bytes().to_vec());
    let ciphertext = stand_in_encrypt(&cell.data);
    let (prepared, report) =
        prepare_publish_encrypted(payload.to_string(), "cfg-1", cell, Ok(ciphertext.clone()));
    assert!(report.is_none());
    let plan = prepared.config_cache.as_ref().unwrap();
    cache_cell_config(&mut store, plan, &prepared.secure_cell);
    let publish = plan_publish(prepared.body.as_str(), "ex1", "rk");

    // consume: load the cached config, check the keys, pass the wire check
    let cached = match store.get(&config_cache_key("cfg-1")) {
        Some(CacheValue::Config(c)) => Some(c.clone()),
        _ => None,
    };
    let mut cell = check_decryption_config(&config, cached).unwrap();
    let delivered = publish.payload.clone();
    let to_decrypt = delivery_ciphertext(&delivered, &cell).unwrap().unwrap();
    assert_eq!(to_decrypt, ciphertext);

    // decrypt and decode: the consumer sees the producer's exact payload
    cell.data = to_decrypt;
    let plaintext = stand_in_decrypt(&cell.data);
    let text = delivery_text(&plaintext).unwrap();
    assert_eq!(text, payload.to_string());
}

#[test]
fn tampered_wire_body_reaches_no_sink() {
    let payload = "{\"id\":\"a\"}";
    let config = CryptoConfig {
        secret: "S".to_string(),
        passphrase: "P".to_string(),
        unique_redis_id: "cfg-2".to_string(),
    };
    let cell = prepare_secure_cell(&config, payload.as_bytes().to_vec());
    let ciphertext = stand_in_encrypt(&cell.data);
    let (prepared, _) =
        prepare_publish_encrypted(payload.to_string(), "cfg-2", cell, Ok(ciphertext));
    let publish = plan_publish(prepared.body.as_str(), "ex1", "rk");

    // flip one hex digit in flight
    let mut delivered = publish.payload.clone();
    delivered[0] = if delivered[0] == b'0' { b'1' } else { b'0' };

    let err = delivery_ciphertext(&delivered, &prepared.secure_cell).unwrap_err();
    assert_eq!(err.kind, ErrorKind::Protocol);
}

#[test]
fn plain_session_delivers_cache_and_durable_sinks() {
    // a full consumer run with no decryption: session to streaming, one
    // delivery through text, fan-out plan, cache write
    let mut state = SessionState::Idle;
    let mut event = SessionEvent::Start;
    let mut streaming = false;
    for _ in 0..8 {
        let (next, action) = session_step(state, event);
        state = next;
        event = match action {
            SessionAction::AcquireConn => SessionEvent::ConnAcquired(true),
            SessionAction::OpenChannel => SessionEvent::ChannelOpened(true),
            SessionAction::DeclareQueue => SessionEvent::QueueDeclared(true),
            SessionAction::BindQueue => SessionEvent::QueueBound(true),
            SessionAction::CheckConfig => SessionEvent::ConfigChecked(true),
            SessionAction::StartConsume => SessionEvent::ConsumeStarted(true),
            SessionAction::Stream => {
                streaming = true;
                break;
            },
            SessionAction::Stop => panic!("the happy path must not stop"),
        };
    }
    assert!(streaming);

    let body = "{\"id\":\"a\"}".as_bytes().to_vec();
    let cell = hoopoe::cipher::SecureCellConfig::default();
    assert_eq!(delivery_ciphertext(&body, &cell).unwrap(), None);
    let text = delivery_text(&body).unwrap();

    let n = hoopoe::event::NotifData {
        id: "a".to_string(),
        receiver_info: "u1".to_string(),
        action_data: "{}".to_string(),
        actioner_info: "sys".to_string(),
        action_type: hoopoe::event::ActionType::ProductPurchased,
        fired_at: 1,
        is_seen: false,
    };
    let plan = plan_sinks(&n, text, 60, true);
    assert!(plan.cache_write);
    assert!(plan.store_event.is_some());

    let mut store = KeyValueStore::new();
    hoopoe::cache::cache_notif(&mut store, n.clone(), 60).unwrap();
    match store.get(&hoopoe::cache::notif_owner_key("u1")) {
        Some(CacheValue::Notifs(list)) => assert_eq!(list, &vec![n]),
        _ => panic!("the delivery must be cached"),
    }
}
