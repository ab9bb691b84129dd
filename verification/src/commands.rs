//! The command envelopes the broker actor receives, and the exchange kinds
//! a producer may declare.

use vstd::prelude::*;
use crate::cipher::CryptoConfig;
use crate::event::NotifData;
use crate::text::str_eq;

verus! {

/// Command: publish one notification to an exchange, optionally encrypting
/// the payload first.  `local_spawn` picks the spawn discipline: the actor's
/// own context or a detached background task.
#[derive(Clone, Debug, PartialEq)]
pub struct ProduceNotif {
    pub local_spawn: bool,
    pub notif_data: NotifData,
    pub exchange_name: String,
    pub exchange_type: String,
    pub routing_key: String,
    pub encryption_config: Option<CryptoConfig>,
}

/// Command: bind a queue to an exchange and stream deliveries from it.
/// The routing key is the binding pattern; `redis_cache_exp` of zero turns
/// the cache write-through off; `store_in_db` turns the durable sink on.
#[derive(Clone, Debug, PartialEq)]
pub struct ConsumeNotif {
    pub queue: String,
    pub exchange_name: String,
    pub routing_key: String,
    pub tag: String,
    pub redis_cache_exp: u64,
    pub local_spawn: bool,
    pub store_in_db: bool,
    pub decryption_config: Option<CryptoConfig>,
}

/// Command: when `shutdown` is set, the actor halts.
#[derive(Clone, Copy, Debug, PartialEq, Eq, Structural)]
pub struct HealthMsg {
    pub shutdown: bool,
}

/// Reserved command of the partitioned-log broker; its handler is a stub.
#[derive(Clone, Debug, PartialEq)]
#[allow(non_snake_case)]
pub struct PublishNotifToKafka {
    pub topic: String,
    pub local_spawn: bool,
    pub notif_data: NotifData,
    pub encryptionConfig: Option<CryptoConfig>,
}

/// Reserved command of the partitioned-log broker; its handler is a stub.
#[derive(Clone, Debug, PartialEq)]
#[allow(non_snake_case)]
pub struct ConsumeNotifFromKafka {
    pub topic: String,
    pub consumerId: String,
}

/// Reserved command of the publish/subscribe channel; its handler is a stub.
#[derive(Clone, Debug, PartialEq)]
#[allow(non_snake_case)]
pub struct PublishNotifToRedis {
    pub channel: String,
    pub local_spawn: bool,
    pub notif_data: NotifData,
    pub encryptionConfig: Option<CryptoConfig>,
}

/// Reserved command of the publish/subscribe channel; its handler is a stub.
#[derive(Clone, Debug, PartialEq)]
pub struct ConsumeNotifFromRedis {
    pub channel: String,
}

/// The exchange kinds a producer may declare.
#[derive(Clone, Copy, Debug, PartialEq, Eq, Structural)]
pub enum ExchangeKind {
    Fanout,
    Direct,
    Headers,
    Topic,
}

/// The kind a caller-supplied exchange-type string names; anything but the
/// three named kinds falls back to a topic exchange.
pub open spec fn exchange_kind_spec(exchange_type: Seq<char>) -> ExchangeKind {
    if exchange_type == "fanout"@ {
        ExchangeKind::Fanout
    } else if exchange_type == "direct"@ {
        ExchangeKind::Direct
    } else if exchange_type == "headers"@ {
        ExchangeKind::Headers
    } else {
        ExchangeKind::Topic
    }
}

/// Maps the caller-supplied exchange-type string to the declared kind.
pub fn exchange_kind_of(exchange_type: &str) -> (r: ExchangeKind)
    ensures
        r == exchange_kind_spec(exchange_type@),
{
    if str_eq(exchange_type, "fanout") {
        ExchangeKind::Fanout
    } else if str_eq(exchange_type, "direct") {
        ExchangeKind::Direct
    } else if str_eq(exchange_type, "headers") {
        ExchangeKind::Headers
    } else {
        ExchangeKind::Topic
    }
}

} // verus!
