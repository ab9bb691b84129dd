//! Decisions of the HTTP surface: which actor a register call goes to, and
//! how the read endpoints are answered from the cache or the relational
//! store.  The HTTP handling itself lives outside the core.

use vstd::prelude::*;
use vstd::string::StringExecFns;
use crate::cache::owner_key_of;
use crate::commands::{ConsumeNotif, ProduceNotif};
use crate::event::{EventQuery, SingleNotifQuery};

verus! {

/// A produce command wrapped for the register endpoint.
#[derive(Clone, Debug, PartialEq)]
pub struct ProduceNotifInfo {
    pub info: ProduceNotif,
}

/// A consume command wrapped for the register endpoint.
#[derive(Clone, Debug, PartialEq)]
pub struct ConsumeNotifInfo {
    pub info: ConsumeNotif,
}

/// Body of the register endpoint: at least one of the two must be present.
#[derive(Clone, Debug, PartialEq)]
pub struct RegisterNotif {
    pub producer_info: Option<ProduceNotifInfo>,
    pub consumer_info: Option<ConsumeNotifInfo>,
}

/// What the register endpoint does with a request.
pub enum RegisterDecision {
    /// Send the produce command to the broker actor.
    Produce(ProduceNotif),
    /// Send the consume command to the broker actor.
    Consume(ConsumeNotif),
    /// Neither command was supplied: the request is not acceptable.
    Reject,
}

/// Routes a register request: producer info is served first, consumer info
/// next, and a request with neither is rejected.
pub fn route_register(req: RegisterNotif) -> (r: RegisterDecision)
    ensures
        match r {
            RegisterDecision::Produce(p) => req.producer_info matches Some(i) && p == i.info,
            RegisterDecision::Consume(c) => req.producer_info is None && (req.consumer_info
                matches Some(i) && c == i.info),
            RegisterDecision::Reject => req.producer_info is None && req.consumer_info is None,
        },
{
    match req.producer_info {
        Some(info) => RegisterDecision::Produce(info.info),
        None => match req.consumer_info {
            Some(info) => RegisterDecision::Consume(info.info),
            None => RegisterDecision::Reject,
        },
    }
}

/// The read-through cache key the history endpoint checks first; the core
/// only ever writes the disjoint `notif_owner:` keyspace.
pub fn api_resp_cache_key(owner: &Option<String>) -> (r: String)
    ensures
        r@ == "notif_owner_api_resp:"@ + (match owner {
            Some(o) => o@,
            None => Seq::<char>::empty(),
        }),
{
    let mut key = String::from_str("notif_owner_api_resp:");
    match owner {
        Some(o) => {
            key.append(o.as_str());
        },
        None => {
            proof {
                assert(key@ + Seq::<char>::empty() =~= key@);
            }
        },
    }
    key
}

/// The two cache keyspaces are disjoint by design: no key the core writes
/// for a receiver's list is ever a key of the HTTP layer's read-through
/// cache, whatever the receiver and owner strings are.
pub proof fn lemma_cache_keyspaces_disjoint(receiver: Seq<char>, owner: Seq<char>)
    ensures
        owner_key_of(receiver) != "notif_owner_api_resp:"@ + owner,
{
    reveal_strlit("notif_owner:");
    reveal_strlit("notif_owner_api_resp:");
    let left = owner_key_of(receiver);
    let right = "notif_owner_api_resp:"@ + owner;
    assert(left[11] == ':');
    assert(right[11] == '_');
}

/// A history query for the relational store's accessor.
#[derive(Clone, Debug, PartialEq)]
pub struct RequestNotifData {
    pub owner: Option<String>,
    pub from: Option<u64>,
    pub to: Option<u64>,
    pub page_size: Option<u64>,
}

/// Answers the history endpoint: a cache hit is served as it stands; a miss
/// is forwarded to the accessor with the caller's query unchanged.
pub fn plan_get_notif(query: EventQuery, cache_hit: bool) -> (r: Option<RequestNotifData>)
    ensures
        cache_hit <==> r is None,
        r matches Some(q) ==> q.owner == query.owner && q.from == query.from && q.to == query.to
            && q.page_size == query.page_size,
{
    if cache_hit {
        None
    } else {
        Some(
            RequestNotifData {
                owner: query.owner,
                from: query.from,
                to: query.to,
                page_size: query.page_size,
            },
        )
    }
}

/// A single-record query for the relational store's accessor.
#[derive(Clone, Copy, Debug, PartialEq, Eq, Structural)]
pub struct RequestNotifDataByNotifId {
    pub notif_id: i32,
}

/// Answers the single-notification endpoint: the accessor is asked for the
/// queried id, or for the default id when none was given.
pub fn plan_get_single_notif(query: &SingleNotifQuery) -> (r: RequestNotifDataByNotifId)
    ensures
        r.notif_id == (match query.notif_id {
            Some(v) => v,
            None => 0,
        }),
{
    match query.notif_id {
        Some(v) => RequestNotifDataByNotifId { notif_id: v },
        None => RequestNotifDataByNotifId { notif_id: 0 },
    }
}

} // verus!
