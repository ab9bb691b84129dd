//! The consumer path: a session state machine from broker connection to
//! delivery streaming, and the per-delivery pipeline — wire check, optional
//! decryption, decode, and fan-out to the realtime channel, the cache, and
//! the durable store.
//!
//! The shell drives the machine: it performs each returned action against
//! the broker and feeds the outcome back as the next event.  Each delivery
//! is acked first; the pipeline then decides what the delivery's bytes mean
//! and which sinks receive it.

use vstd::prelude::*;
use vstd::string::StringSliceAdditionalSpecFns;
use vstd::utf8::{decode_utf8, encode_utf8, valid_utf8};
use crate::cipher::SecureCellConfig;
use crate::error::{
    ErrorKind, HoopoeErrorResponse, CODEC_ERROR_CODE, CRYPTER_ERROR_CODE, STORAGE_IO_ERROR_CODE,
};
use crate::event::NotifData;
use crate::hexcodec::{hex_chars_of, hex_decode, hex_decoded, is_hex_input, lemma_hex_roundtrip};

verus! {

/// How far the consumer session has come.
#[derive(Clone, Copy, Debug, PartialEq, Eq, Structural)]
pub enum SessionState {
    /// Nothing acquired yet.
    Idle,
    /// A pooled broker connection is held.
    ConnOk,
    /// A channel is open on the connection.
    ChanOk,
    /// The durable, caller-named queue is declared.
    QueueOk,
    /// The queue is bound to the exchange with the binding key.
    Bound,
    /// The cached cipher config, if any was requested, matched the caller's
    /// keys; deliveries are being streamed.
    Streaming,
    /// The session is over; nothing more may touch the broker.
    Terminated,
}

/// The outcome of the action the shell last performed.
#[derive(Clone, Copy, Debug, PartialEq, Eq, Structural)]
pub enum SessionEvent {
    /// The session begins.
    Start,
    /// Whether a pooled connection was acquired.
    ConnAcquired(bool),
    /// Whether a channel was opened.
    ChannelOpened(bool),
    /// Whether the queue was declared.
    QueueDeclared(bool),
    /// Whether the queue was bound to the exchange.
    QueueBound(bool),
    /// Whether the caller's keys matched the cached cipher config (true as
    /// well when no decryption was requested).
    ConfigChecked(bool),
    /// Whether the broker accepted the consume request.
    ConsumeStarted(bool),
}

/// What the shell must do next.
#[derive(Clone, Copy, Debug, PartialEq, Eq, Structural)]
pub enum SessionAction {
    /// Acquire a pooled broker connection.
    AcquireConn,
    /// Open a channel on the held connection.
    OpenChannel,
    /// Declare the caller-named queue, durable.
    DeclareQueue,
    /// Bind the queue to the exchange with the binding key; the bind runs
    /// unconditionally on this path.
    BindQueue,
    /// Load the cached cipher config and check the caller's keys against it.
    CheckConfig,
    /// Issue the consume request on the queue with the caller's tag.
    StartConsume,
    /// Stream deliveries, running each through the delivery pipeline.
    Stream,
    /// Stop; the session is terminated.
    Stop,
}

/// The transition relation of the session: from the current state and the
/// outcome of the last action to the next state and the next action.  Every
/// failure outcome, and every outcome that does not belong to the current
/// state, terminates the session.
pub open spec fn session_step_spec(state: SessionState, event: SessionEvent) -> (
    SessionState,
    SessionAction,
) {
    match (state, event) {
        (SessionState::Idle, SessionEvent::Start) => (SessionState::Idle, SessionAction::AcquireConn),
        (SessionState::Idle, SessionEvent::ConnAcquired(ok)) => if ok {
            (SessionState::ConnOk, SessionAction::OpenChannel)
        } else {
            (SessionState::Terminated, SessionAction::Stop)
        },
        (SessionState::ConnOk, SessionEvent::ChannelOpened(ok)) => if ok {
            (SessionState::ChanOk, SessionAction::DeclareQueue)
        } else {
            (SessionState::Terminated, SessionAction::Stop)
        },
        (SessionState::ChanOk, SessionEvent::QueueDeclared(ok)) => if ok {
            (SessionState::QueueOk, SessionAction::BindQueue)
        } else {
            (SessionState::Terminated, SessionAction::Stop)
        },
        (SessionState::QueueOk, SessionEvent::QueueBound(ok)) => if ok {
            (SessionState::Bound, SessionAction::CheckConfig)
        } else {
            (SessionState::Terminated, SessionAction::Stop)
        },
        (SessionState::Bound, SessionEvent::ConfigChecked(ok)) => if ok {
            (SessionState::Streaming, SessionAction::StartConsume)
        } else {
            (SessionState::Terminated, SessionAction::Stop)
        },
        (SessionState::Streaming, SessionEvent::ConsumeStarted(ok)) => if ok {
            (SessionState::Streaming, SessionAction::Stream)
        } else {
            (SessionState::Terminated, SessionAction::Stop)
        },
        _ => (SessionState::Terminated, SessionAction::Stop),
    }
}

/// One step of the consumer session.
pub fn session_step(state: SessionState, event: SessionEvent) -> (r: (
    SessionState,
    SessionAction,
))
    ensures
        r == session_step_spec(state, event),
{
    match (state, event) {
        (SessionState::Idle, SessionEvent::Start) => (SessionState::Idle, SessionAction::AcquireConn),
        (SessionState::Idle, SessionEvent::ConnAcquired(ok)) => if ok {
            (SessionState::ConnOk, SessionAction::OpenChannel)
        } else {
            (SessionState::Terminated, SessionAction::Stop)
        },
        (SessionState::ConnOk, SessionEvent::ChannelOpened(ok)) => if ok {
            (SessionState::ChanOk, SessionAction::DeclareQueue)
        } else {
            (SessionState::Terminated, SessionAction::Stop)
        },
        (SessionState::ChanOk, SessionEvent::QueueDeclared(ok)) => if ok {
            (SessionState::QueueOk, SessionAction::BindQueue)
        } else {
            (SessionState::Terminated, SessionAction::Stop)
        },
        (SessionState::QueueOk, SessionEvent::QueueBound(ok)) => if ok {
            (SessionState::Bound, SessionAction::CheckConfig)
        } else {
            (SessionState::Terminated, SessionAction::Stop)
        },
        (SessionState::Bound, SessionEvent::ConfigChecked(ok)) => if ok {
            (SessionState::Streaming, SessionAction::StartConsume)
        } else {
            (SessionState::Terminated, SessionAction::Stop)
        },
        (SessionState::Streaming, SessionEvent::ConsumeStarted(ok)) => if ok {
            (SessionState::Streaming, SessionAction::Stream)
        } else {
            (SessionState::Terminated, SessionAction::Stop)
        },
        _ => (SessionState::Terminated, SessionAction::Stop),
    }
}

/// The actions a run of the session emits for a sequence of events.
pub open spec fn session_actions(state: SessionState, events: Seq<SessionEvent>) -> Seq<
    SessionAction,
>
    decreases events.len(),
{
    if events.len() == 0 {
        Seq::empty()
    } else {
        let (next, action) = session_step_spec(state, events[0]);
        seq![action] + session_actions(next, events.drop_first())
    }
}

/// The consume request is issued only from a bound session whose config
/// check passed.
pub proof fn lemma_consume_needs_matching_config(state: SessionState, event: SessionEvent)
    ensures
        session_step_spec(state, event).1 == SessionAction::StartConsume ==> state
            == SessionState::Bound && event == SessionEvent::ConfigChecked(true),
{
}

/// A terminated session stays terminated and only stops.
pub proof fn lemma_terminated_absorbing(event: SessionEvent)
    ensures
        session_step_spec(SessionState::Terminated, event) == (
            SessionState::Terminated,
            SessionAction::Stop,
        ),
{
}

/// Safety under key mismatch: a run in which the config check never passes
/// — in particular one whose stored cipher config disagrees with the
/// caller's hex-encoded keys — never issues a consume request on the
/// broker.
pub proof fn lemma_safety_under_key_mismatch(state: SessionState, events: Seq<SessionEvent>)
    requires
        forall|i: int|
            0 <= i < events.len() ==> #[trigger] events[i] != SessionEvent::ConfigChecked(true),
    ensures
        forall|i: int|
            0 <= i < session_actions(state, events).len()
                ==> #[trigger] session_actions(state, events)[i] != SessionAction::StartConsume,
    decreases events.len(),
{
    if events.len() > 0 {
        let (next, action) = session_step_spec(state, events[0]);
        lemma_consume_needs_matching_config(state, events[0]);
        assert(events.drop_first() =~= events.subrange(1, events.len() as int));
        lemma_safety_under_key_mismatch(next, events.drop_first());
        assert forall|i: int| 0 <= i < session_actions(state, events).len() implies #[trigger]
            session_actions(state, events)[i] != SessionAction::StartConsume by {
            if i > 0 {
                assert(session_actions(state, events)[i] == session_actions(
                    next,
                    events.drop_first(),
                )[i - 1]);
            }
        }
    }
}

/// Relies on str::from_utf8: succeeds exactly on valid UTF-8 input and
/// yields the characters those bytes encode.
#[verifier::external_body]
fn bytes_to_str(v: &[u8]) -> (r: Option<&str>)
    ensures
        r is Some <==> valid_utf8(v@),
        r matches Some(s) ==> s@ == decode_utf8(v@) && s.spec_bytes() == v@,
{
    core::str::from_utf8(v).ok()
}

/// What the wire check decides for one delivered body, given the cached
/// ciphertext: the plaintext branch when no ciphertext is cached, the
/// ciphertext to decrypt when the body matches it, and the exact failure
/// otherwise.
pub open spec fn delivery_check_spec(body: Seq<u8>, cell_data: Seq<u8>) -> Result<
    Option<Seq<u8>>,
    ErrorKind,
> {
    if cell_data.len() == 0 {
        Ok(None)
    } else if !is_hex_input(body) {
        Err(ErrorKind::Codec)
    } else if hex_decoded(body) != cell_data {
        Err(ErrorKind::Protocol)
    } else {
        Ok(Some(cell_data))
    }
}

/// The wire check of one delivery.  With no cached ciphertext the body is
/// taken as plaintext.  With one, the body must be its lowercase hex: the
/// body is hex-decoded and compared byte for byte against the cached
/// ciphertext; a difference is treated as wire tampering and terminates the
/// consumer.  On success the ciphertext is handed out for decryption.
pub fn delivery_ciphertext(body: &Vec<u8>, cell: &SecureCellConfig) -> (r: Result<
    Option<Vec<u8>>,
    HoopoeErrorResponse,
>)
    ensures
        match r {
            Ok(d) => {
                &&& delivery_check_spec(body@, cell@.data) is Ok
                &&& (match d {
                    Some(c) => delivery_check_spec(body@, cell@.data) == Ok::<Option<Seq<u8>>, ErrorKind>(Some(c@)),
                    None => delivery_check_spec(body@, cell@.data) == Ok::<Option<Seq<u8>>, ErrorKind>(None),
                })
            },
            Err(e) => delivery_check_spec(body@, cell@.data) == Err::<Option<Seq<u8>>, ErrorKind>(e.kind),
        },
{
    if cell.data.len() == 0 {
        return Ok(None);
    }
    match hex_decode(body.as_slice()) {
        Ok(decoded) => {
            if decoded == cell.data {
                proof {
                    assert(decoded@ =~= cell@.data);
                }
                Ok(Some(decoded))
            } else {
                proof {
                    assert(!(decoded@ =~= cell@.data));
                }
                Err(
                    HoopoeErrorResponse::new(
                        STORAGE_IO_ERROR_CODE,
                        Vec::new(),
                        ErrorKind::Protocol,
                        String::from_str("NotifBrokerActor.consume.ciphertext_compare"),
                    ),
                )
            }
        },
        Err(_) => Err(
            HoopoeErrorResponse::new(
                CODEC_ERROR_CODE,
                Vec::new(),
                ErrorKind::Codec,
                String::from_str("NotifBrokerActor.consume.hex_decode"),
            ),
        ),
    }
}

/// Wire-tamper detection: with decryption enabled, a delivered body whose
/// hex decoding differs from the cached ciphertext — or that is not hex at
/// all — is rejected by the wire check, so no sink is reached for that
/// delivery.
pub proof fn lemma_wire_tamper_detected(body: Seq<u8>, cell_data: Seq<u8>)
    requires
        cell_data.len() > 0,
        !(is_hex_input(body) && hex_decoded(body) == cell_data),
    ensures
        delivery_check_spec(body, cell_data) is Err,
{
}

/// An untampered encrypted delivery: the wire body the producer publishes
/// for a ciphertext — the UTF-8 bytes of its lowercase hex — passes the
/// wire check and hands exactly that ciphertext to the cipher.
pub proof fn lemma_wire_roundtrip(cipher_bytes: Seq<u8>)
    requires
        cipher_bytes.len() > 0,
    ensures
        delivery_check_spec(encode_utf8(hex_chars_of(cipher_bytes)), cipher_bytes)
            == Ok::<Option<Seq<u8>>, ErrorKind>(Some(cipher_bytes)),
{
    lemma_hex_roundtrip(cipher_bytes);
}

/// Roundtrip through the wire: the payload the producer publishes for a
/// ciphertext — see [`crate::producer::plan_publish`] — passes the wire
/// check and hands the cipher exactly that ciphertext; and a cipher that
/// returns the JSON bytes it was given — the secure cell's contract —
/// hands the decoder exactly the producer's JSON text.
pub proof fn lemma_publish_consume_roundtrip(json: Seq<char>, cipher_bytes: Seq<u8>)
    requires
        cipher_bytes.len() > 0,
    ensures
        delivery_check_spec(encode_utf8(hex_chars_of(cipher_bytes)), cipher_bytes)
            == Ok::<Option<Seq<u8>>, ErrorKind>(Some(cipher_bytes)),
        valid_utf8(encode_utf8(json)),
        decode_utf8(encode_utf8(json)) == json,
{
    lemma_wire_roundtrip(cipher_bytes);
    vstd::utf8::encode_utf8_valid_utf8(json);
    vstd::utf8::encode_utf8_decode_utf8(json);
}

/// Turns delivery or plaintext bytes into text; bytes that are not UTF-8
/// cannot be decoded and terminate the consumer.
pub fn delivery_text(bytes: &Vec<u8>) -> (r: Result<String, HoopoeErrorResponse>)
    ensures
        r is Ok <==> valid_utf8(bytes@),
        r matches Ok(s) ==> s@ == decode_utf8(bytes@),
        r matches Err(e) ==> e.kind == ErrorKind::Codec,
{
    match bytes_to_str(bytes.as_slice()) {
        Some(s) => Ok(s.to_owned()),
        None => Err(
            HoopoeErrorResponse::new(
                CODEC_ERROR_CODE,
                Vec::new(),
                ErrorKind::Codec,
                String::from_str("NotifBrokerActor.consume.delivery_utf8"),
            ),
        ),
    }
}

/// The error recorded when the cipher rejects a delivery; the consumer
/// terminates on it.
pub fn decrypt_failure(source: Vec<u8>) -> (r: HoopoeErrorResponse)
    ensures
        r.kind == ErrorKind::Cipher,
        r.code == CRYPTER_ERROR_CODE,
        r.content@ == source@,
{
    HoopoeErrorResponse::new(
        CRYPTER_ERROR_CODE,
        source,
        ErrorKind::Cipher,
        String::from_str("NotifBrokerActor.consume.secure_cell_decrypt"),
    )
}

/// The durable-sink command: one notification record for the relational
/// store's mutator.
#[derive(Clone, Debug, PartialEq)]
pub struct StoreNotifEvent {
    pub message: NotifData,
    pub local_spawn: bool,
}

/// Where one decoded delivery goes.  The realtime text is always forwarded
/// (a full channel drops it with a log, but never terminates); the cache is
/// written through only when a cache TTL was requested; the durable store
/// receives exactly one dispatch when `store_in_db` is set.
pub struct DeliveryPlan {
    pub realtime_text: String,
    pub cache_write: bool,
    pub store_event: Option<StoreNotifEvent>,
}

/// Plans the fan-out of one decoded delivery, in the fixed order: realtime
/// first, cache second, durable store last.
pub fn plan_sinks(notif: &NotifData, text: String, redis_cache_exp: u64, store_in_db: bool) -> (r:
    DeliveryPlan)
    ensures
        r.realtime_text@ == text@,
        r.cache_write == (redis_cache_exp != 0),
        match r.store_event {
            Some(ev) => store_in_db && ev.message@ == notif@ && ev.local_spawn,
            None => !store_in_db,
        },
{
    DeliveryPlan {
        realtime_text: text,
        cache_write: redis_cache_exp != 0,
        store_event: if store_in_db {
            Some(StoreNotifEvent { message: notif.duplicate(), local_spawn: true })
        } else {
            None
        },
    }
}

/// At-least-once at the durable sink: every delivery that reaches the
/// decode step with `store_in_db` set is planned with a durable dispatch —
/// a mailbox failure downstream is logged, never silently dropped, and only
/// a decode or decrypt failure before this point loses the dispatch.
pub proof fn lemma_at_least_once_durable(plan: DeliveryPlan, store_in_db: bool)
    requires
        match plan.store_event {
            Some(ev) => store_in_db && ev.local_spawn,
            None => !store_in_db,
        },
    ensures
        store_in_db ==> plan.store_event is Some,
{
}

} // verus!
