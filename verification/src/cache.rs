//! The TTL'd key/value cache layer, as a verified model.
//!
//! In production the cache is a shared remote store; the shell performs the
//! network calls.  This module states what those calls mean: a map from keys
//! to records that carry an optional absolute expiry, read through a logical
//! clock.  The consumer path's append-or-initialize write is defined against
//! this model, and the laws of the layer — delivery order is preserved, and
//! a second write never extends the TTL — are proved of it.

use vstd::prelude::*;
use vstd::string::StringExecFns;
use crate::event::{clone_notifs, NotifData, NotifDataView};
use crate::cipher::{SecureCellConfig, SecureCellConfigView};
use crate::error::{ErrorKind, HoopoeErrorResponse, CODEC_ERROR_CODE};

verus! {

/// A cached value: either a stored cipher config or a receiver's
/// notification list.
pub enum CacheValue {
    Config(SecureCellConfig),
    Notifs(Vec<NotifData>),
}

/// The mathematical view of a [`CacheValue`].
pub enum CacheValueView {
    Config(SecureCellConfigView),
    Notifs(Seq<NotifDataView>),
}

impl View for CacheValue {
    type V = CacheValueView;

    open spec fn view(&self) -> CacheValueView {
        match self {
            CacheValue::Config(c) => CacheValueView::Config(c@),
            CacheValue::Notifs(l) => CacheValueView::Notifs(l@.map_values(|n: NotifData| n@)),
        }
    }
}

/// A stored record: the value and, when the key was created with a TTL, the
/// absolute second at which it expires.
pub struct CacheRecord {
    pub value: CacheValue,
    pub expires_at: Option<u64>,
}

/// The mathematical view of a [`CacheRecord`].
pub struct CacheRecordView {
    pub value: CacheValueView,
    pub expires_at: Option<u64>,
}

impl View for CacheRecord {
    type V = CacheRecordView;

    open spec fn view(&self) -> CacheRecordView {
        CacheRecordView { value: self.value@, expires_at: self.expires_at }
    }
}

/// One key/record binding of the store.
pub struct CacheEntry {
    pub key: String,
    pub record: CacheRecord,
}

/// The mathematical view of a [`CacheEntry`].
pub struct CacheEntryView {
    pub key: Seq<char>,
    pub record: CacheRecordView,
}

impl View for CacheEntry {
    type V = CacheEntryView;

    open spec fn view(&self) -> CacheEntryView {
        CacheEntryView { key: self.key@, record: self.record@ }
    }
}

/// The mathematical view of the whole store: a logical clock and the
/// bindings in insertion order.
pub struct KeyValueStoreView {
    pub now: u64,
    pub entries: Seq<CacheEntryView>,
}

/// A record is live while its expiry, if any, lies in the future.
pub open spec fn record_live(r: CacheRecordView, now: u64) -> bool {
    match r.expires_at {
        None => true,
        Some(t) => now < t,
    }
}

/// The first binding of a key, dead or live.
pub open spec fn lookup(entries: Seq<CacheEntryView>, key: Seq<char>) -> Option<CacheRecordView>
    decreases entries.len(),
{
    if entries.len() == 0 {
        None
    } else if entries[0].key == key {
        Some(entries[0].record)
    } else {
        lookup(entries.drop_first(), key)
    }
}

/// What a read returns: the first binding of the key, provided it is live.
pub open spec fn spec_get(s: KeyValueStoreView, key: Seq<char>) -> Option<CacheRecordView> {
    match lookup(s.entries, key) {
        Some(r) => if record_live(r, s.now) {
            Some(r)
        } else {
            None
        },
        None => None,
    }
}

/// The expiry a plain overwrite keeps: the old one while the key is live,
/// none otherwise.
pub open spec fn kept_expiry(s: KeyValueStoreView, key: Seq<char>) -> Option<u64> {
    match spec_get(s, key) {
        Some(r) => r.expires_at,
        None => None,
    }
}

/// The store as a map from keys to their first bindings, dead or live.
pub open spec fn raw_map(s: KeyValueStoreView) -> Map<Seq<char>, CacheRecordView> {
    Map::new(
        |k: Seq<char>| lookup(s.entries, k) is Some,
        |k: Seq<char>| lookup(s.entries, k).unwrap(),
    )
}

/// A key no entry binds is not found.
pub proof fn lemma_lookup_none(entries: Seq<CacheEntryView>, key: Seq<char>)
    requires
        forall|j: int| 0 <= j < entries.len() ==> (#[trigger] entries[j]).key != key,
    ensures
        lookup(entries, key) is None,
    decreases entries.len(),
{
    if entries.len() > 0 {
        lemma_lookup_none(entries.drop_first(), key);
    }
}

/// The first binding of a key is found.
pub proof fn lemma_lookup_first_match(entries: Seq<CacheEntryView>, i: int)
    requires
        0 <= i < entries.len(),
        forall|j: int| 0 <= j < i ==> (#[trigger] entries[j]).key != entries[i].key,
    ensures
        lookup(entries, entries[i].key) == Some(entries[i].record),
    decreases i,
{
    if i > 0 {
        lemma_lookup_first_match(entries.drop_first(), i - 1);
    }
}

/// Replacing a key's first binding rebinds that key and no other.
pub proof fn lemma_lookup_update(
    entries: Seq<CacheEntryView>,
    i: int,
    e2: CacheEntryView,
    k2: Seq<char>,
)
    requires
        0 <= i < entries.len(),
        e2.key == entries[i].key,
        forall|j: int| 0 <= j < i ==> (#[trigger] entries[j]).key != entries[i].key,
    ensures
        lookup(entries.update(i, e2), entries[i].key) == Some(e2.record),
        k2 != entries[i].key ==> lookup(entries.update(i, e2), k2) == lookup(entries, k2),
    decreases i,
{
    let updated = entries.update(i, e2);
    if i == 0 {
        assert(updated.drop_first() =~= entries.drop_first());
    } else {
        assert(updated.drop_first() =~= entries.drop_first().update(i - 1, e2));
        lemma_lookup_update(entries.drop_first(), i - 1, e2, k2);
    }
}

/// Appending a binding only binds its key, and only when that key was free.
pub proof fn lemma_lookup_push(entries: Seq<CacheEntryView>, e: CacheEntryView, k2: Seq<char>)
    ensures
        lookup(entries.push(e), k2) == (match lookup(entries, k2) {
            Some(r) => Some(r),
            None => if k2 == e.key {
                Some(e.record)
            } else {
                None
            },
        }),
    decreases entries.len(),
{
    if entries.len() == 0 {
        assert(entries.push(e)[0] == e);
        assert(entries.push(e).drop_first() =~= Seq::<CacheEntryView>::empty());
        if e.key == k2 {
            assert(lookup(entries.push(e), k2) == Some(e.record));
        } else {
            assert(lookup(entries.push(e), k2) == lookup(
                entries.push(e).drop_first(),
                k2,
            ));
            assert(lookup(entries.push(e).drop_first(), k2) is None);
        }
    } else {
        assert(entries.push(e)[0] == entries[0]);
        assert(entries.push(e).drop_first() =~= entries.drop_first().push(e));
        lemma_lookup_push(entries.drop_first(), e, k2);
        if entries[0].key == k2 {
            assert(lookup(entries.push(e), k2) == Some(entries[0].record));
            assert(lookup(entries, k2) == Some(entries[0].record));
        } else {
            assert(lookup(entries.push(e), k2) == lookup(
                entries.drop_first().push(e),
                k2,
            ));
            assert(lookup(entries, k2) == lookup(entries.drop_first(), k2));
        }
    }
}

/// The verified model of the shared TTL'd key/value store.
pub struct KeyValueStore {
    pub now: u64,
    pub entries: Vec<CacheEntry>,
}

impl View for KeyValueStore {
    type V = KeyValueStoreView;

    open spec fn view(&self) -> KeyValueStoreView {
        KeyValueStoreView {
            now: self.now,
            entries: self.entries@.map_values(|e: CacheEntry| e@),
        }
    }
}

impl KeyValueStore {
    /// An empty store at clock zero.
    pub fn new() -> (r: Self)
        ensures
            r@.now == 0,
            r@.entries =~= Seq::<CacheEntryView>::empty(),
    {
        KeyValueStore { now: 0, entries: Vec::new() }
    }

    /// Lets the given number of seconds pass; entries are untouched, reads
    /// change through liveness alone.
    pub fn advance(&mut self, seconds: u64)
        requires
            old(self)@.now + seconds <= u64::MAX,
        ensures
            final(self)@.now == old(self)@.now + seconds,
            final(self)@.entries == old(self)@.entries,
    {
        self.now = self.now + seconds;
    }

    /// The index of the first binding of the key, if any.
    fn find(&self, key: &String) -> (r: Option<usize>)
        ensures
            match r {
                Some(i) => {
                    &&& i < self@.entries.len()
                    &&& self@.entries[i as int].key == key@
                    &&& forall|j: int| 0 <= j < i ==> (#[trigger] self@.entries[j]).key != key@
                },
                None => forall|j: int|
                    0 <= j < self@.entries.len() ==> (#[trigger] self@.entries[j]).key != key@,
            },
    {
        let mut i: usize = 0;
        while i < self.entries.len()
            invariant
                i <= self@.entries.len(),
                forall|j: int| 0 <= j < i ==> (#[trigger] self@.entries[j]).key != key@,
            decreases self@.entries.len() - i,
        {
            if self.entries[i].key == *key {
                return Some(i);
            }
            i = i + 1;
        }
        None
    }

    /// Whether a live binding of the key exists.
    pub fn key_exists(&self, key: &String) -> (r: bool)
        ensures
            r == (spec_get(self@, key@) is Some),
    {
        match self.find(key) {
            Some(i) => {
                proof {
                    lemma_lookup_first_match(self@.entries, i as int);
                }
                match self.entries[i].record.expires_at {
                    None => true,
                    Some(t) => self.now < t,
                }
            },
            None => {
                proof {
                    lemma_lookup_none(self@.entries, key@);
                }
                false
            },
        }
    }

    /// Reads the live value of a key.
    pub fn get(&self, key: &String) -> (r: Option<&CacheValue>)
        ensures
            match spec_get(self@, key@) {
                Some(rec) => r matches Some(v) && v@ == rec.value,
                None => r is None,
            },
    {
        match self.find(key) {
            Some(i) => {
                proof {
                    lemma_lookup_first_match(self@.entries, i as int);
                }
                let live = match self.entries[i].record.expires_at {
                    None => true,
                    Some(t) => self.now < t,
                };
                if live {
                    Some(&self.entries[i].record.value)
                } else {
                    None
                }
            },
            None => {
                proof {
                    lemma_lookup_none(self@.entries, key@);
                }
                None
            },
        }
    }

    /// Unconditional overwrite.  A live key keeps its expiry — overwriting
    /// never refreshes a TTL; a free or expired key is bound without one.
    pub fn set(&mut self, key: &String, value: CacheValue)
        ensures
            final(self)@.now == old(self)@.now,
            lookup(final(self)@.entries, key@) == Some(
                (CacheRecordView { value: value@, expires_at: kept_expiry(old(self)@, key@) }),
            ),
            forall|k2: Seq<char>|
                k2 != key@ ==> #[trigger] lookup(final(self)@.entries, k2) == lookup(
                    old(self)@.entries,
                    k2,
                ),
    {
        let ghost old_view = self@;
        match self.find(key) {
            Some(i) => {
                proof {
                    lemma_lookup_first_match(self@.entries, i as int);
                }
                let keep: Option<u64> = match self.entries[i].record.expires_at {
                    None => None,
                    Some(t) => if self.now < t {
                        Some(t)
                    } else {
                        None
                    },
                };
                let entry = CacheEntry {
                    key: key.clone(),
                    record: CacheRecord { value, expires_at: keep },
                };
                self.entries[i] = entry;
                proof {
                    assert(self@.entries =~= old_view.entries.update(
                        i as int,
                        self@.entries[i as int],
                    ));
                    assert forall|k2: Seq<char>| k2 != key@ implies #[trigger] lookup(
                        self@.entries,
                        k2,
                    ) == lookup(old_view.entries, k2) by {
                        lemma_lookup_update(
                            old_view.entries,
                            i as int,
                            self@.entries[i as int],
                            k2,
                        );
                    }
                    lemma_lookup_update(old_view.entries, i as int, self@.entries[i as int], key@);
                }
            },
            None => {
                proof {
                    lemma_lookup_none(self@.entries, key@);
                }
                let entry = CacheEntry {
                    key: key.clone(),
                    record: CacheRecord { value, expires_at: None },
                };
                self.entries.push(entry);
                proof {
                    assert(self@.entries =~= old_view.entries.push(
                        self@.entries.last(),
                    ));
                    assert forall|k2: Seq<char>| k2 != key@ implies #[trigger] lookup(
                        self@.entries,
                        k2,
                    ) == lookup(old_view.entries, k2) by {
                        lemma_lookup_push(old_view.entries, self@.entries.last(), k2);
                    }
                    lemma_lookup_push(old_view.entries, self@.entries.last(), key@);
                }
            },
        }
    }

    /// Creates or replaces the key with a fresh TTL counted from now.
    pub fn set_ex(&mut self, key: &String, value: CacheValue, ttl_seconds: u64)
        requires
            1 <= ttl_seconds,
            old(self)@.now + ttl_seconds <= u64::MAX,
        ensures
            final(self)@.now == old(self)@.now,
            lookup(final(self)@.entries, key@) == Some(
                (CacheRecordView {
                    value: value@,
                    expires_at: Some((old(self)@.now + ttl_seconds) as u64),
                }),
            ),
            forall|k2: Seq<char>|
                k2 != key@ ==> #[trigger] lookup(final(self)@.entries, k2) == lookup(
                    old(self)@.entries,
                    k2,
                ),
    {
        let ghost old_view = self@;
        let expires = Some(self.now + ttl_seconds);
        match self.find(key) {
            Some(i) => {
                let entry = CacheEntry {
                    key: key.clone(),
                    record: CacheRecord { value, expires_at: expires },
                };
                self.entries[i] = entry;
                proof {
                    assert(self@.entries =~= old_view.entries.update(
                        i as int,
                        self@.entries[i as int],
                    ));
                    assert forall|k2: Seq<char>| k2 != key@ implies #[trigger] lookup(
                        self@.entries,
                        k2,
                    ) == lookup(old_view.entries, k2) by {
                        lemma_lookup_update(
                            old_view.entries,
                            i as int,
                            self@.entries[i as int],
                            k2,
                        );
                    }
                    lemma_lookup_update(old_view.entries, i as int, self@.entries[i as int], key@);
                }
            },
            None => {
                proof {
                    lemma_lookup_none(self@.entries, key@);
                }
                let entry = CacheEntry {
                    key: key.clone(),
                    record: CacheRecord { value, expires_at: expires },
                };
                self.entries.push(entry);
                proof {
                    assert(self@.entries =~= old_view.entries.push(
                        self@.entries.last(),
                    ));
                    assert forall|k2: Seq<char>| k2 != key@ implies #[trigger] lookup(
                        self@.entries,
                        k2,
                    ) == lookup(old_view.entries, k2) by {
                        lemma_lookup_push(old_view.entries, self@.entries.last(), k2);
                    }
                    lemma_lookup_push(old_view.entries, self@.entries.last(), key@);
                }
            },
        }
    }
}

/// The cache key of a receiver's notification list.
pub fn notif_owner_key(receiver_info: &str) -> (r: String)
    ensures
        r@ == "notif_owner:"@ + receiver_info@,
{
    let mut key = String::from_str("notif_owner:");
    key.append(receiver_info);
    key
}

/// The key [`notif_owner_key`] builds, at the spec level.
pub open spec fn owner_key_of(receiver_info: Seq<char>) -> Seq<char> {
    "notif_owner:"@ + receiver_info
}

/// What one delivery does to the cache map: append to a live list, leave an
/// undecodable value alone, or create the list with a TTL counted from now.
pub open spec fn notif_cache_step(
    m: Map<Seq<char>, CacheRecordView>,
    now: u64,
    key: Seq<char>,
    nv: NotifDataView,
    exp_seconds: u64,
) -> Map<Seq<char>, CacheRecordView> {
    if m.contains_key(key) && record_live(m[key], now) {
        match m[key].value {
            CacheValueView::Notifs(l) => m.insert(
                key,
                CacheRecordView {
                    value: CacheValueView::Notifs(l.push(nv)),
                    expires_at: m[key].expires_at,
                },
            ),
            CacheValueView::Config(_) => m,
        }
    } else {
        m.insert(
            key,
            CacheRecordView {
                value: CacheValueView::Notifs(seq![nv]),
                expires_at: Some((now + exp_seconds) as u64),
            },
        )
    }
}

/// The consumer path's cache write for one delivered notification: read the
/// receiver's list; if present, append and overwrite without touching the
/// TTL; if absent, create it with the caller's TTL.  A cached value that is
/// not a notification list cannot be decoded and is a codec failure: the
/// store is left unchanged and the consumer must terminate.
pub fn cache_notif(store: &mut KeyValueStore, notif: NotifData, exp_seconds: u64) -> (r: Result<
    (),
    HoopoeErrorResponse,
>)
    requires
        1 <= exp_seconds,
        old(store)@.now + exp_seconds <= u64::MAX,
    ensures
        final(store)@.now == old(store)@.now,
        raw_map(final(store)@) == notif_cache_step(
            raw_map(old(store)@),
            old(store)@.now,
            owner_key_of(notif@.receiver_info),
            notif@,
            exp_seconds,
        ),
        r is Ok <==> !(spec_get(old(store)@, owner_key_of(notif@.receiver_info)) matches Some(rec)
            && rec.value is Config),
        r matches Err(e) ==> e.kind == ErrorKind::Codec,
{
    let ghost old_view = store@;
    let ghost nv = notif@;
    let ghost key_view = owner_key_of(notif@.receiver_info);
    let ghost m0 = raw_map(store@);
    let ghost step = notif_cache_step(m0, old_view.now, key_view, nv, exp_seconds);
    let key = notif_owner_key(notif.receiver_info.as_str());
    let appended: Option<Vec<NotifData>> = match store.get(&key) {
        Some(CacheValue::Notifs(list)) => Some(clone_notifs(list)),
        Some(CacheValue::Config(_)) => {
            proof {
                assert(m0.contains_key(key_view));
                assert(m0[key_view] == lookup(old_view.entries, key_view).unwrap());
                assert(raw_map(store@) =~= step);
            }
            return Err(
                HoopoeErrorResponse::new(
                    CODEC_ERROR_CODE,
                    Vec::new(),
                    ErrorKind::Codec,
                    String::from_str("NotifBrokerActor.decode_serde_redis"),
                ),
            );
        },
        None => None,
    };
    match appended {
        Some(mut new_list) => {
            let ghost l = new_list@.map_values(|n: NotifData| n@);
            new_list.push(notif);
            proof {
                lemma_map_values_push(new_list@.drop_last(), notif);
                assert(new_list@.drop_last().push(notif) =~= new_list@);
                assert(new_list@.map_values(|n: NotifData| n@) =~= l.push(nv));
            }
            store.set(&key, CacheValue::Notifs(new_list));
            proof {
                lemma_raw_map_after_write(old_view, store@, key_view);
                assert(m0.contains_key(key_view));
                assert(m0[key_view] == lookup(old_view.entries, key_view).unwrap());
                assert(record_live(m0[key_view], old_view.now));
                assert(m0[key_view].value == CacheValueView::Notifs(l));
                assert(lookup(store@.entries, key_view).unwrap() == (CacheRecordView {
                    value: CacheValueView::Notifs(l.push(nv)),
                    expires_at: m0[key_view].expires_at,
                }));
                assert(raw_map(store@) =~= step);
            }
        },
        None => {
            let mut single: Vec<NotifData> = Vec::new();
            single.push(notif);
            proof {
                assert(single@.map_values(|n: NotifData| n@) =~= seq![nv]);
            }
            store.set_ex(&key, CacheValue::Notifs(single), exp_seconds);
            proof {
                lemma_raw_map_after_write(old_view, store@, key_view);
                if m0.contains_key(key_view) {
                    assert(m0[key_view] == lookup(old_view.entries, key_view).unwrap());
                    assert(!record_live(m0[key_view], old_view.now));
                }
                assert(lookup(store@.entries, key_view).unwrap() == (CacheRecordView {
                    value: CacheValueView::Notifs(seq![nv]),
                    expires_at: Some((old_view.now + exp_seconds) as u64),
                }));
                assert(raw_map(store@) =~= step);
            }
        },
    }
    Ok(())
}

/// Taking views commutes with appending one element.
proof fn lemma_map_values_push(s: Seq<NotifData>, x: NotifData)
    ensures
        s.push(x).map_values(|n: NotifData| n@) =~= s.map_values(|n: NotifData| n@).push(x@),
{
}

/// After a write that rebinds one key and leaves every other lookup alone,
/// the raw map is the old raw map with that key rebound.
proof fn lemma_raw_map_after_write(s0: KeyValueStoreView, s1: KeyValueStoreView, key: Seq<char>)
    requires
        lookup(s1.entries, key) is Some,
        forall|k2: Seq<char>|
            k2 != key ==> #[trigger] lookup(s1.entries, k2) == lookup(s0.entries, k2),
    ensures
        raw_map(s1) =~= raw_map(s0).insert(key, lookup(s1.entries, key).unwrap()),
{
}

/// One delivery within the TTL window appends to the list and keeps the
/// expiry: a second write to a receiver's key does not extend its TTL.
pub proof fn lemma_ttl_sticky(
    m: Map<Seq<char>, CacheRecordView>,
    now: u64,
    key: Seq<char>,
    nv: NotifDataView,
    exp_seconds: u64,
)
    requires
        m.contains_key(key),
        record_live(m[key], now),
        m[key].value is Notifs,
    ensures
        notif_cache_step(m, now, key, nv, exp_seconds).contains_key(key),
        notif_cache_step(m, now, key, nv, exp_seconds)[key].expires_at == m[key].expires_at,
{
}

/// A run of deliveries applied to the cache map, each at its own time.
pub open spec fn deliver_all(
    m: Map<Seq<char>, CacheRecordView>,
    nows: Seq<u64>,
    key: Seq<char>,
    nvs: Seq<NotifDataView>,
    exp_seconds: u64,
) -> Map<Seq<char>, CacheRecordView>
    decreases nvs.len(),
{
    if nvs.len() == 0 {
        m
    } else {
        deliver_all(
            notif_cache_step(m, nows[0], key, nvs[0], exp_seconds),
            nows.drop_first(),
            key,
            nvs.drop_first(),
            exp_seconds,
        )
    }
}

/// Deliveries to a live list append in order and keep the expiry.
pub proof fn lemma_deliver_all_appends(
    m: Map<Seq<char>, CacheRecordView>,
    nows: Seq<u64>,
    key: Seq<char>,
    nvs: Seq<NotifDataView>,
    exp_seconds: u64,
    l: Seq<NotifDataView>,
    e: u64,
)
    requires
        nows.len() == nvs.len(),
        m.contains_key(key),
        m[key].value == CacheValueView::Notifs(l),
        m[key].expires_at == Some(e),
        forall|i: int| 0 <= i < nows.len() ==> #[trigger] nows[i] < e,
    ensures
        deliver_all(m, nows, key, nvs, exp_seconds).contains_key(key),
        deliver_all(m, nows, key, nvs, exp_seconds)[key].value == CacheValueView::Notifs(l + nvs),
        deliver_all(m, nows, key, nvs, exp_seconds)[key].expires_at == Some(e),
    decreases nvs.len(),
{
    if nvs.len() == 0 {
        assert(l + nvs =~= l);
    } else {
        let m1 = notif_cache_step(m, nows[0], key, nvs[0], exp_seconds);
        lemma_deliver_all_appends(
            m1,
            nows.drop_first(),
            key,
            nvs.drop_first(),
            exp_seconds,
            l.push(nvs[0]),
            e,
        );
        assert(l.push(nvs[0]) + nvs.drop_first() =~= l + nvs);
    }
}

/// Append monotonicity: after delivering a run of notifications for one
/// receiver within a single TTL window — the key is created by the first
/// delivery and no later delivery comes at or after its expiry — the
/// receiver's key holds exactly those notifications, in delivery order,
/// under the TTL set at creation.
pub proof fn lemma_append_monotonic(
    m: Map<Seq<char>, CacheRecordView>,
    nows: Seq<u64>,
    key: Seq<char>,
    nvs: Seq<NotifDataView>,
    exp_seconds: u64,
)
    requires
        nvs.len() >= 1,
        nows.len() == nvs.len(),
        !(m.contains_key(key) && record_live(m[key], nows[0])),
        nows[0] + exp_seconds <= u64::MAX,
        forall|i: int| 1 <= i < nows.len() ==> #[trigger] nows[i] < nows[0] + exp_seconds,
    ensures
        deliver_all(m, nows, key, nvs, exp_seconds).contains_key(key),
        deliver_all(m, nows, key, nvs, exp_seconds)[key].value == CacheValueView::Notifs(nvs),
        deliver_all(m, nows, key, nvs, exp_seconds)[key].expires_at == Some(
            (nows[0] + exp_seconds) as u64,
        ),
{
    let m1 = notif_cache_step(m, nows[0], key, nvs[0], exp_seconds);
    lemma_deliver_all_appends(
        m1,
        nows.drop_first(),
        key,
        nvs.drop_first(),
        exp_seconds,
        seq![nvs[0]],
        (nows[0] + exp_seconds) as u64,
    );
    assert(seq![nvs[0]] + nvs.drop_first() =~= nvs);
}

} // verus!
