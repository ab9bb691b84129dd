//! Data model of the notification broker: the notification record itself,
//! the query envelopes of the HTTP surface, and their mathematical views.

use vstd::prelude::*;

verus! {

/// The action that fired a notification.
#[derive(Clone, Copy, Debug, PartialEq, Eq, Structural)]
pub enum ActionType {
    ProductPurchased,
    Zerlog,
    EventCreated,
    EventExpired,
    EventLocked,
}

impl Default for ActionType {
    fn default() -> (r: Self)
        ensures
            r == ActionType::ProductPurchased,
    {
        ActionType::ProductPurchased
    }
}

/// The unit of transport.
///
/// `action_data` carries the free-form JSON value of the event as raw JSON
/// text; the core never looks inside it.
#[derive(Clone, Debug, PartialEq)]
pub struct NotifData {
    pub id: String,
    pub receiver_info: String,
    pub action_data: String,
    pub actioner_info: String,
    pub action_type: ActionType,
    pub fired_at: i64,
    pub is_seen: bool,
}

/// The mathematical view of a [`NotifData`].
pub struct NotifDataView {
    pub id: Seq<char>,
    pub receiver_info: Seq<char>,
    pub action_data: Seq<char>,
    pub actioner_info: Seq<char>,
    pub action_type: ActionType,
    pub fired_at: i64,
    pub is_seen: bool,
}

impl View for NotifData {
    type V = NotifDataView;

    open spec fn view(&self) -> NotifDataView {
        NotifDataView {
            id: self.id@,
            receiver_info: self.receiver_info@,
            action_data: self.action_data@,
            actioner_info: self.actioner_info@,
            action_type: self.action_type,
            fired_at: self.fired_at,
            is_seen: self.is_seen,
        }
    }
}

impl NotifData {
    /// An exact copy; the record is fanned out to several sinks.
    pub fn duplicate(&self) -> (r: Self)
        ensures
            r@ == self@,
    {
        NotifData {
            id: self.id.clone(),
            receiver_info: self.receiver_info.clone(),
            action_data: self.action_data.clone(),
            actioner_info: self.actioner_info.clone(),
            action_type: self.action_type,
            fired_at: self.fired_at,
            is_seen: self.is_seen,
        }
    }
}

/// An exact copy of a notification list, element by element.
pub fn clone_notifs(v: &Vec<NotifData>) -> (r: Vec<NotifData>)
    ensures
        r@.map_values(|n: NotifData| n@) == v@.map_values(|n: NotifData| n@),
        r@.len() == v@.len(),
{
    let mut r: Vec<NotifData> = Vec::new();
    let mut i: usize = 0;
    while i < v.len()
        invariant
            i <= v.len(),
            r@.len() == i,
            forall|j: int| 0 <= j < i ==> (#[trigger] r@[j])@ == v@[j]@,
        decreases v.len() - i,
    {
        r.push(v[i].duplicate());
        i = i + 1;
    }
    proof {
        assert(r@.map_values(|n: NotifData| n@) =~= v@.map_values(|n: NotifData| n@));
    }
    r
}

impl Default for NotifData {
    fn default() -> (r: Self)
        ensures
            r@.id.len() == 0,
            r@.receiver_info.len() == 0,
            r@.action_data.len() == 0,
            r@.actioner_info.len() == 0,
            r@.action_type == ActionType::ProductPurchased,
            r@.fired_at == 0,
            r@.is_seen == false,
    {
        NotifData {
            id: String::new(),
            receiver_info: String::new(),
            action_data: String::new(),
            actioner_info: String::new(),
            action_type: ActionType::ProductPurchased,
            fired_at: 0,
            is_seen: false,
        }
    }
}

/// A notification row as the relational store returns it; `fired_at` is
/// epoch seconds.
#[derive(Clone, Debug, PartialEq)]
pub struct DbNotifData {
    pub id: i32,
    pub receiver_info: String,
    pub nid: String,
    pub action_data: String,
    pub actioner_info: String,
    pub action_type: String,
    pub fired_at: i64,
    pub is_seen: bool,
}

/// Query of the paginated notification history accessor.
#[derive(Clone, Debug, PartialEq)]
pub struct EventQuery {
    pub owner: Option<String>,
    pub from: Option<u64>,
    pub to: Option<u64>,
    pub page_size: Option<u64>,
}

impl Default for EventQuery {
    fn default() -> (r: Self)
        ensures
            r.owner is None && r.from is None && r.to is None && r.page_size is None,
    {
        EventQuery { owner: None, from: None, to: None, page_size: None }
    }
}

/// Query of the single-notification accessor.
#[derive(Clone, Debug, PartialEq, Eq, Structural)]
pub struct SingleNotifQuery {
    pub notif_id: Option<i32>,
}

impl Default for SingleNotifQuery {
    fn default() -> (r: Self)
        ensures
            r.notif_id is None,
    {
        SingleNotifQuery { notif_id: None }
    }
}

/// Query of the hoop accessor.
#[derive(Clone, Debug, PartialEq, Eq, Structural)]
pub struct HoopQuery {
    pub id: Option<i32>,
}

impl Default for HoopQuery {
    fn default() -> (r: Self)
        ensures
            r.id is None,
    {
        HoopQuery { id: None }
    }
}

/// Body of the hoop-update request.
#[derive(Clone, Debug, PartialEq, Eq, Structural)]
pub struct UpdateHoopRequest {}

impl Default for UpdateHoopRequest {
    fn default() -> (r: Self)
        ensures
            r == (UpdateHoopRequest {}),
    {
        UpdateHoopRequest {}
    }
}

/// Body of the hoop-creation request.
#[derive(Clone, Debug, PartialEq, Eq, Structural)]
pub struct NewHoopRequest {}

impl Default for NewHoopRequest {
    fn default() -> (r: Self)
        ensures
            r == (NewHoopRequest {}),
    {
        NewHoopRequest {}
    }
}

/// Scope requested for a time-bounded access token.
#[derive(Clone, Copy, Debug, PartialEq, Eq, Structural)]
pub enum TokenTimeScope {
    Write,
    Read,
}

impl Default for TokenTimeScope {
    fn default() -> (r: Self)
        ensures
            r == TokenTimeScope::Write,
    {
        TokenTimeScope::Write
    }
}

/// Query of the token-generation endpoint; `exp_time` is in seconds.
#[derive(Clone, Debug, PartialEq)]
pub struct GenerateTokenTimeQuery {
    pub exp_time: Option<u64>,
    pub scope: Option<String>,
}

impl Default for GenerateTokenTimeQuery {
    fn default() -> (r: Self)
        ensures
            r.exp_time is None && r.scope is None,
    {
        GenerateTokenTimeQuery { exp_time: None, scope: None }
    }
}

/// A hoop event row.
#[derive(Clone, Debug, PartialEq)]
pub struct HoopEvent {
    pub etype: String,
    pub manager: i32,
    pub entrance_fee: i64,
}

impl Default for HoopEvent {
    fn default() -> (r: Self)
        ensures
            r.etype@.len() == 0 && r.manager == 0 && r.entrance_fee == 0,
    {
        HoopEvent { etype: String::new(), manager: 0, entrance_fee: 0 }
    }
}

} // verus!
