use vstd::prelude::*;

use crate::clock::{is_instant_text, now_text};
use crate::db::{SqlArg, SqlValue, Statement};
use crate::models::{AppEvent, EventPayload};

verus! {

impl AppEvent {
    /// The kind under which an event is persisted.
    pub open spec fn spec_kind(&self) -> Seq<char> {
        match self {
            AppEvent::FileCreated { .. } => "created"@,
            AppEvent::FileUpdated { .. } => "updated"@,
            AppEvent::FileDeleted { .. } => "deleted"@,
        }
    }

    /// The id of the file that an event concerns.
    pub open spec fn spec_resource_id(&self) -> String {
        match self {
            AppEvent::FileCreated { resource_id, .. } => *resource_id,
            AppEvent::FileUpdated { resource_id, .. } => *resource_id,
            AppEvent::FileDeleted { resource_id, .. } => *resource_id,
        }
    }

    /// The payload of an event.
    pub open spec fn spec_payload(&self) -> EventPayload {
        match self {
            AppEvent::FileCreated { payload, .. } => *payload,
            AppEvent::FileUpdated { payload, .. } => *payload,
            AppEvent::FileDeleted { payload, .. } => *payload,
        }
    }

    /// The kind under which an event is persisted: `created`, `updated` or
    /// `deleted`.
    pub fn kind(&self) -> (k: &'static str)
        ensures
            k@ == self.spec_kind(),
    {
        match self {
            AppEvent::FileCreated { .. } => "created",
            AppEvent::FileUpdated { .. } => "updated",
            AppEvent::FileDeleted { .. } => "deleted",
        }
    }

    /// The id of the file that an event concerns.
    pub fn resource_id(&self) -> (id: &String)
        ensures
            *id == self.spec_resource_id(),
    {
        match self {
            AppEvent::FileCreated { resource_id, .. } => resource_id,
            AppEvent::FileUpdated { resource_id, .. } => resource_id,
            AppEvent::FileDeleted { resource_id, .. } => resource_id,
        }
    }

    /// The payload of an event.
    pub fn payload(&self) -> (p: &EventPayload)
        ensures
            *p == self.spec_payload(),
    {
        match self {
            AppEvent::FileCreated { payload, .. } => payload,
            AppEvent::FileUpdated { payload, .. } => payload,
            AppEvent::FileDeleted { payload, .. } => payload,
        }
    }
}

/// The insertion of a persisted event.
pub open spec fn insert_event_sql() -> Seq<char> {
    "INSERT INTO events (event_type, resource_type, resource_id, payload, created_at)\n             VALUES (?1, ?2, ?3, ?4, ?5)"@
}

/// The parameters that persist an event with the given payload text at the
/// given time: its kind, the resource type `file`, the file's id, the payload
/// and the time.
pub open spec fn insert_event_args(e: AppEvent, payload_json: Seq<char>, at: Seq<char>) -> Seq<SqlArg> {
    seq![
        SqlArg::Text(e.spec_kind()),
        SqlArg::Text("file"@),
        SqlArg::Text(e.spec_resource_id()@),
        SqlArg::Text(payload_json),
        SqlArg::Text(at),
    ]
}

/// The statement that persists an event, given its payload as JSON text and
/// the time of persisting.
pub fn persist_event_statement(e: &AppEvent, payload_json: &str, at: &str) -> (st: Statement)
    ensures
        st.sql@ == insert_event_sql(),
        st.args() == insert_event_args(*e, payload_json@, at@),
{
    let mut params: Vec<SqlValue> = Vec::new();
    params.push(SqlValue::Text(String::from_str(e.kind())));
    params.push(SqlValue::Text(String::from_str("file")));
    params.push(SqlValue::Text(e.resource_id().clone()));
    params.push(SqlValue::Text(String::from_str(payload_json)));
    params.push(SqlValue::Text(String::from_str(at)));
    let st = Statement {
        sql: String::from_str(
            "INSERT INTO events (event_type, resource_type, resource_id, payload, created_at)\n             VALUES (?1, ?2, ?3, ?4, ?5)",
        ),
        params,
    };
    assert(st.args() =~= insert_event_args(*e, payload_json@, at@));
    st
}

/// The statement that persists an event now, given its payload as JSON text.
pub fn persist_event_now(e: &AppEvent, payload_json: &str) -> (st: Statement)
    ensures
        st.sql@ == insert_event_sql(),
        st.args().len() == 5,
        st.args().take(4) == insert_event_args(*e, payload_json@, Seq::empty()).take(4),
        st.args()[4] matches SqlArg::Text(at) && is_instant_text(at)
            && st.args() == insert_event_args(*e, payload_json@, at),
{
    let now = now_text();
    let st = persist_event_statement(e, payload_json, now.as_str());
    assert(st.args().take(4) =~= insert_event_args(*e, payload_json@, Seq::empty()).take(4));
    st
}

/// What a subscriber's receiver handed over.
#[derive(Debug)]
pub enum Received {
    /// The next event.
    Event,
    /// The subscriber fell behind and this many events were dropped.
    Lagged(u64),
    /// The sender is gone.
    Closed,
}

/// What the event stream does next.
#[derive(Debug)]
pub enum StreamStep {
    /// Send the received event to the client.
    Send,
    /// Wait for the next event.
    Skip,
    /// End the stream.
    Stop,
}

/// The stream's answer to what the receiver handed over: an event is sent,
/// a lag is passed over, a closed channel ends the stream.
pub fn stream_step(r: Received) -> (s: StreamStep)
    ensures
        match r {
            Received::Event => s is Send,
            Received::Lagged(_) => s is Skip,
            Received::Closed => s is Stop,
        },
{
    match r {
        Received::Event => StreamStep::Send,
        Received::Lagged(_) => StreamStep::Skip,
        Received::Closed => StreamStep::Stop,
    }
}

} // verus!
