use hoopoe::cache::{CacheValue, KeyValueStore};
use hoopoe::cipher::{config_cache_key, prepare_secure_cell, CryptoConfig, SecureCellConfig};
use hoopoe::commands::{exchange_kind_of, ConsumeNotif, ExchangeKind, HealthMsg, ProduceNotif};
use hoopoe::error::{ErrorKind, HoopoeErrorResponse, CODEC_ERROR_CODE};
use hoopoe::event::{ActionType, EventQuery, NotifData, SingleNotifQuery, TokenTimeScope};
use hoopoe::producer::{cache_cell_config, plan_exchange_declare, plan_publish,
    prepare_publish_encrypted, prepare_publish_plain, SECURE_CELL_CONFIG_TTL_SECS};
use hoopoe::routes::{api_resp_cache_key, plan_get_notif, plan_get_single_notif, route_register,
    ConsumeNotifInfo, ProduceNotifInfo, RegisterDecision, RegisterNotif};

fn notif(id: &str) -> NotifData {
    NotifData {
        id: id.to_string(),
        receiver_info: "u1".to_string(),
        action_data: "{}".to_string(),
        actioner_info: "sys".to_string(),
        action_type: ActionType::default(),
        fired_at: 1,
        is_seen: false,
    }
}

#[test]
fn plain_publish_sends_the_json_itself() {
    let prepared = prepare_publish_plain("{\"id\":\"a\"}".to_string());
    assert_eq!(prepared.body, "{\"id\":\"a\"}".to_string());
    assert!(prepared.config_cache.is_none());
    assert!(prepared.secure_cell.data.is_empty());
}

#[test]
fn encrypted_publish_sends_hex_and_caches_the_config() {
    let config = CryptoConfig {
        secret: "S".to_string(),
        passphrase: "P".to_string(),
        unique_redis_id: "cfg-1".to_string(),
    };
    let cell = prepare_secure_cell(&config, "{\"id\":\"a\"}".as_bytes().to_vec());
    let ciphertext = vec![0xde, 0xad, 0xbe, 0xef];
    let (prepared, report) =
        prepare_publish_encrypted("{\"id\":\"a\"}".to_string(), "cfg-1", cell, Ok(ciphertext.clone()));
    assert!(report.is_none());
    assert_eq!(prepared.body, hex::encode(&ciphertext));
    assert_eq!(prepared.secure_cell.data, ciphertext);
    assert_eq!(prepared.secure_cell.secret_key, hex::encode("S"));
    let plan = prepared.config_cache.unwrap();
    assert_eq!(plan.key, "notif_encryption_config_for_cfg-1".to_string());
    assert_eq!(plan.ttl_seconds, 300);
}

#[test]
fn encrypted_publish_without_cache_identity_caches_nothing() {
    let config = CryptoConfig {
        secret: "S".to_string(),
        passphrase: "P".to_string(),
        unique_redis_id: String::new(),
    };
    let cell = prepare_secure_cell(&config, vec![1]);
    let (prepared, report) =
        prepare_publish_encrypted("{}".to_string(), "", cell, Ok(vec![2, 3]));
    assert!(report.is_none());
    assert!(prepared.config_cache.is_none());
}

#[test]
fn cipher_failure_falls_back_to_plaintext_and_is_reported() {
    let config = CryptoConfig {
        secret: "S".to_string(),
        passphrase: "P".to_string(),
        unique_redis_id: "cfg-1".to_string(),
    };
    let cell = prepare_secure_cell(&config, "{}".as_bytes().to_vec());
    let (prepared, report) = prepare_publish_encrypted(
        "{}".to_string(),
        "cfg-1",
        cell,
        Err("themis rejected the key".to_string()),
    );
    assert_eq!(prepared.body, "{}".to_string());
    assert!(prepared.config_cache.is_none());
    let report = report.unwrap();
    assert_eq!(report.kind, ErrorKind::Cipher);
}

#[test]
fn cached_config_lives_five_minutes() {
    let mut store = KeyValueStore::new();
    let config = CryptoConfig {
        secret: "S".to_string(),
        passphrase: "P".to_string(),
        unique_redis_id: "cfg-1".to_string(),
    };
    let cell = prepare_secure_cell(&config, vec![7]);
    let (prepared, _) = prepare_publish_encrypted("{}".to_string(), "cfg-1", cell, Ok(vec![7, 8]));
    let plan = prepared.config_cache.unwrap();
    cache_cell_config(&mut store, &plan, &prepared.secure_cell);
    let key = config_cache_key("cfg-1");
    match store.get(&key) {
        Some(CacheValue::Config(stored)) => {
            assert_eq!(stored.secret_key, hex::encode("S"));
            assert_eq!(stored.passphrase, hex::encode("P"));
            assert_eq!(stored.data, vec![7, 8]);
        },
        _ => panic!("config record missing"),
    }
    store.advance(SECURE_CELL_CONFIG_TTL_SECS - 1);
    assert!(store.key_exists(&key));
    store.advance(2);
    assert!(!store.key_exists(&key));
}

#[test]
fn exchange_kinds_parse_with_topic_fallback() {
    assert_eq!(exchange_kind_of("fanout"), ExchangeKind::Fanout);
    assert_eq!(exchange_kind_of("direct"), ExchangeKind::Direct);
    assert_eq!(exchange_kind_of("headers"), ExchangeKind::Headers);
    assert_eq!(exchange_kind_of("topic"), ExchangeKind::Topic);
    assert_eq!(exchange_kind_of("anything-else"), ExchangeKind::Topic);
}

#[test]
fn exchange_declare_is_durable_and_auto_delete() {
    let plan = plan_exchange_declare("fanout");
    assert_eq!(plan.kind, ExchangeKind::Fanout);
    assert!(plan.auto_delete);
    assert!(plan.durable);
}

#[test]
fn publish_plan_carries_json_content_type_and_body_bytes() {
    let plan = plan_publish("deadbeef", "ex1", "rk");
    assert_eq!(plan.exchange, "ex1".to_string());
    assert_eq!(plan.routing_key, "rk".to_string());
    assert_eq!(plan.content_type, "application/json".to_string());
    assert_eq!(plan.payload, b"deadbeef".to_vec());
}

fn produce_command() -> ProduceNotif {
    ProduceNotif {
        local_spawn: false,
        notif_data: notif("a"),
        exchange_name: "ex1".to_string(),
        exchange_type: "fanout".to_string(),
        routing_key: "rk".to_string(),
        encryption_config: None,
    }
}

fn consume_command() -> ConsumeNotif {
    ConsumeNotif {
        queue: "q1".to_string(),
        exchange_name: "ex1".to_string(),
        routing_key: "rk".to_string(),
        tag: "tag1".to_string(),
        redis_cache_exp: 60,
        local_spawn: false,
        store_in_db: true,
        decryption_config: None,
    }
}

#[test]
fn register_prefers_the_producer_side() {
    let req = RegisterNotif {
        producer_info: Some(ProduceNotifInfo { info: produce_command() }),
        consumer_info: Some(ConsumeNotifInfo { info: consume_command() }),
    };
    match route_register(req) {
        RegisterDecision::Produce(p) => assert_eq!(p, produce_command()),
        _ => panic!("producer info must win"),
    }
}

#[test]
fn register_starts_a_consumer_when_only_consumer_info_is_given() {
    let req = RegisterNotif {
        producer_info: None,
        consumer_info: Some(ConsumeNotifInfo { info: consume_command() }),
    };
    match route_register(req) {
        RegisterDecision::Consume(c) => assert_eq!(c, consume_command()),
        _ => panic!("consumer info must be served"),
    }
}

#[test]
fn register_rejects_an_empty_request() {
    let req = RegisterNotif { producer_info: None, consumer_info: None };
    assert!(matches!(route_register(req), RegisterDecision::Reject));
}

#[test]
fn api_resp_key_shape() {
    assert_eq!(
        api_resp_cache_key(&Some("u1".to_string())),
        "notif_owner_api_resp:u1".to_string(),
    );
    assert_eq!(api_resp_cache_key(&None), "notif_owner_api_resp:".to_string());
}

#[test]
fn history_endpoint_serves_cache_hits_and_forwards_misses() {
    let query = EventQuery {
        owner: Some("u1".to_string()),
        from: Some(0),
        to: Some(10),
        page_size: Some(5),
    };
    assert!(plan_get_notif(query.clone(), true).is_none());
    let fwd = plan_get_notif(query, false).unwrap();
    assert_eq!(fwd.owner, Some("u1".to_string()));
    assert_eq!(fwd.from, Some(0));
    assert_eq!(fwd.to, Some(10));
    assert_eq!(fwd.page_size, Some(5));
}

#[test]
fn single_notif_query_defaults_to_id_zero() {
    assert_eq!(plan_get_single_notif(&SingleNotifQuery { notif_id: Some(9) }).notif_id, 9);
    assert_eq!(plan_get_single_notif(&SingleNotifQuery { notif_id: None }).notif_id, 0);
}

#[test]
fn defaults_match_the_model() {
    assert_eq!(ActionType::default(), ActionType::ProductPurchased);
    assert!(matches!(TokenTimeScope::default(), TokenTimeScope::Write));
    let n = NotifData::default();
    assert_eq!(n.id, String::new());
    assert!(!n.is_seen);
    let c = CryptoConfig::default();
    assert!(c.secret.is_empty() && c.passphrase.is_empty() && c.unique_redis_id.is_empty());
    let cell = SecureCellConfig::default();
    assert!(cell.data.is_empty());
    assert!(!HealthMsg { shutdown: false }.shutdown);
}

#[test]
fn error_constructor_stamps_every_field() {
    let err = HoopoeErrorResponse::new(
        CODEC_ERROR_CODE,
        b"bad json".to_vec(),
        ErrorKind::Codec,
        "site".to_string(),
    );
    assert_eq!(err.code, CODEC_ERROR_CODE);
    assert_eq!(err.content, b"bad json".to_vec());
    assert_eq!(err.kind, ErrorKind::Codec);
    assert_eq!(err.method, "site".to_string());
}
