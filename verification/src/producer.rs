//! The producer path: serialize the payload, optionally encrypt it, plan the
//! caching of the cipher config, declare the exchange, and publish.
//!
//! The shell serializes the notification to JSON, runs the cipher, and
//! performs the broker and cache calls; this module decides the wire body,
//! the cell state, and the declare and publish parameters, exactly.

use vstd::prelude::*;
use vstd::slice::slice_to_vec;
use vstd::string::{StringExecFns, StringSliceAdditionalSpecFns};
use vstd::utf8::encode_utf8;
use crate::cache::{lookup, CacheRecordView, CacheValue, CacheValueView, KeyValueStore};
use crate::cipher::{config_cache_key, SecureCellConfig};
use crate::commands::{exchange_kind_spec, exchange_kind_of, ExchangeKind};
use crate::error::{ErrorKind, HoopoeErrorResponse, CRYPTER_ERROR_CODE};
use crate::hexcodec::{hex_chars_of, hex_encode};

verus! {

/// How long a cached cipher config lives: it bounds how long a consumer has
/// to pick up messages after the matching produce call.
pub const SECURE_CELL_CONFIG_TTL_SECS: u64 = 300;

/// The planned write of a cell config to the cache.
pub struct ConfigCachePlan {
    pub key: String,
    pub ttl_seconds: u64,
}

/// What one produce call publishes: the wire body, the cell state after
/// encryption, and the config-cache write, when one is owed.
pub struct PreparedPublish {
    pub body: String,
    pub secure_cell: SecureCellConfig,
    pub config_cache: Option<ConfigCachePlan>,
}

/// The wire body of an unencrypted produce call: the JSON text itself.  No
/// cipher config is cached.
pub fn prepare_publish_plain(notif_json: String) -> (r: PreparedPublish)
    ensures
        r.body@ == notif_json@,
        r.secure_cell@.secret_key.len() == 0,
        r.secure_cell@.passphrase.len() == 0,
        r.secure_cell@.data.len() == 0,
        r.config_cache is None,
{
    PreparedPublish {
        body: notif_json,
        secure_cell: SecureCellConfig::default(),
        config_cache: None,
    }
}

/// Finishes an encrypted produce call from the cipher's outcome.  On
/// success the wire body is the lowercase hex of the ciphertext, the cell
/// keeps the ciphertext for future decryption, and the config is cached —
/// for five minutes — exactly when a cache identity was supplied and the
/// ciphertext is non-empty.  On cipher failure the producer falls back to
/// publishing the plaintext JSON, caches nothing, and the failure is
/// reported for logging, never silently dropped.
pub fn prepare_publish_encrypted(
    notif_json: String,
    unique_redis_id: &str,
    cell: SecureCellConfig,
    outcome: Result<Vec<u8>, String>,
) -> (r: (PreparedPublish, Option<HoopoeErrorResponse>))
    ensures
        match outcome {
            Ok(c) => {
                &&& r.0.body@ == hex_chars_of(c@)
                &&& r.0.secure_cell@.secret_key == cell@.secret_key
                &&& r.0.secure_cell@.passphrase == cell@.passphrase
                &&& r.0.secure_cell@.data == c@
                &&& (r.0.config_cache is Some <==> unique_redis_id@.len() > 0 && c@.len() > 0)
                &&& (match r.0.config_cache {
                    Some(p) => p.key@ == "notif_encryption_config_for_"@ + unique_redis_id@
                        && p.ttl_seconds == SECURE_CELL_CONFIG_TTL_SECS,
                    None => true,
                })
                &&& r.1 is None
            },
            Err(_) => {
                &&& r.0.body@ == notif_json@
                &&& r.0.secure_cell@ == cell@
                &&& r.0.config_cache is None
                &&& (r.1 matches Some(e) && e.kind == ErrorKind::Cipher)
            },
        },
{
    match outcome {
        Ok(ciphertext) => {
            let body = hex_encode(ciphertext.as_slice());
            let config_cache = if !unique_redis_id.is_empty() && ciphertext.len() > 0 {
                Some(
                    ConfigCachePlan {
                        key: config_cache_key(unique_redis_id),
                        ttl_seconds: SECURE_CELL_CONFIG_TTL_SECS,
                    },
                )
            } else {
                None
            };
            let prepared = PreparedPublish {
                body,
                secure_cell: SecureCellConfig {
                    secret_key: cell.secret_key,
                    passphrase: cell.passphrase,
                    data: ciphertext,
                },
                config_cache,
            };
            (prepared, None)
        },
        Err(source) => {
            let report = HoopoeErrorResponse::new(
                CRYPTER_ERROR_CODE,
                slice_to_vec(source.as_str().as_bytes()),
                ErrorKind::Cipher,
                String::from_str("NotifBrokerActor.produce.secure_cell_encrypt"),
            );
            let prepared = PreparedPublish {
                body: notif_json,
                secure_cell: cell,
                config_cache: None,
            };
            (prepared, Some(report))
        },
    }
}

/// Writes a cell config under its plan to the cache: the record is created
/// with the plan's TTL, counted from now.
pub fn cache_cell_config(store: &mut KeyValueStore, plan: &ConfigCachePlan, cell: &SecureCellConfig)
    requires
        1 <= plan.ttl_seconds,
        old(store)@.now + plan.ttl_seconds <= u64::MAX,
    ensures
        final(store)@.now == old(store)@.now,
        lookup(final(store)@.entries, plan.key@) == Some(
            (CacheRecordView {
                value: CacheValueView::Config(cell@),
                expires_at: Some((old(store)@.now + plan.ttl_seconds) as u64),
            }),
        ),
        forall|k2: Seq<char>|
            k2 != plan.key@ ==> #[trigger] lookup(final(store)@.entries, k2) == lookup(
                old(store)@.entries,
                k2,
            ),
{
    store.set_ex(&plan.key, CacheValue::Config(cell.duplicate()), plan.ttl_seconds);
}

/// How the producer declares the exchange.
pub struct ExchangeDeclarePlan {
    pub kind: ExchangeKind,
    pub auto_delete: bool,
    pub durable: bool,
}

/// The exchange is declared with the caller's kind, auto-deleted once every
/// binding is gone, and durable.
pub fn plan_exchange_declare(exchange_type: &str) -> (r: ExchangeDeclarePlan)
    ensures
        r.kind == exchange_kind_spec(exchange_type@),
        r.auto_delete,
        r.durable,
{
    ExchangeDeclarePlan { kind: exchange_kind_of(exchange_type), auto_delete: true, durable: true }
}

/// The publish itself: where the message goes and the exact bytes on the
/// wire.
pub struct PublishPlan {
    pub exchange: String,
    pub routing_key: String,
    pub content_type: String,
    pub payload: Vec<u8>,
}

/// Plans the publish: the payload is the UTF-8 of the wire body, and the
/// content type is JSON.  The publisher must await confirmation and report
/// a negative confirm without retrying.
pub fn plan_publish(body: &str, exchange: &str, routing_key: &str) -> (r: PublishPlan)
    ensures
        r.exchange@ == exchange@,
        r.routing_key@ == routing_key@,
        r.content_type@ == "application/json"@,
        r.payload@ == encode_utf8(body@),
{
    PublishPlan {
        exchange: exchange.to_owned(),
        routing_key: routing_key.to_owned(),
        content_type: String::from_str("application/json"),
        payload: slice_to_vec(body.as_bytes()),
    }
}

} // verus!
