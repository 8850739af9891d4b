//! The subscriber's decision logic: topic dispatch, payload decoding, and
//! the run-state machine.
//!
//! The subscriber owns the broker connection for the life of the process and
//! is the sole writer of the stats store. The surrounding process performs
//! the transport work (connect, subscribe, wait for the next event) and
//! hands each observed event to [`Subscriber::handle_event`], which decides
//! what — if anything — to write. Once the event source reports that the
//! connection is no longer usable, the subscriber is terminated and never
//! writes again; the cache keeps its last values.

use vstd::prelude::*;
use vstd::utf8::{decode_utf8, valid_utf8};

use crate::stats::{MqttStats, StatField, StatsModel, WriteRecord, stats_after, with_stat};

verus! {

/// The fixed keep-alive interval of the broker session, in seconds.
pub const KEEP_ALIVE_SECS: u64 = 5;

/// The payload text substituted when a payload is not valid UTF-8. A
/// malformed payload must not leave a field stuck on a stale value without
/// signalling that something changed.
pub open spec fn sentinel_text() -> Seq<char> {
    "N/A"@
}

/// The text a delivered payload contributes to the cache: its UTF-8
/// decoding, or the fixed sentinel when the bytes are not valid UTF-8.
pub open spec fn payload_text(payload: Seq<u8>) -> Seq<char> {
    if valid_utf8(payload) {
        decode_utf8(payload)
    } else {
        sentinel_text()
    }
}

/// The fixed topic-to-field mapping: exactly four status topics are
/// recognized, by exact name; every other topic maps to nothing.
pub open spec fn spec_field_for_topic(topic: Seq<char>) -> Option<StatField> {
    if topic == "$SYS/broker/uptime"@ {
        Some(StatField::Uptime)
    } else if topic == "$SYS/broker/clients/connected"@ {
        Some(StatField::ClientsConnected)
    } else if topic == "$SYS/broker/messages/sent"@ {
        Some(StatField::MessagesSent)
    } else if topic == "$SYS/broker/messages/received"@ {
        Some(StatField::MessagesReceived)
    } else {
        None
    }
}

/// The write a delivered message causes: the recognized topic's field is
/// overwritten with the decoded payload; an unrecognized topic causes no
/// write at all.
pub open spec fn spec_publish_write(topic: Seq<char>, payload: Seq<u8>) -> Option<WriteRecord> {
    match spec_field_for_topic(topic) {
        Some(field) => Some(WriteRecord { field, value: payload_text(payload) }),
        None => None,
    }
}

fn str_eq(a: &str, b: &str) -> (r: bool)
    ensures
        r == (a@ == b@),
{
    let x: String = a.to_owned();
    let y: String = b.to_owned();
    x == y
}

/// Map a topic name to the snapshot field it carries, by exact string
/// match; topics outside the fixed set of four map to `None`.
pub fn field_for_topic(topic: &str) -> (r: Option<StatField>)
    ensures
        r == spec_field_for_topic(topic@),
{
    if str_eq(topic, "$SYS/broker/uptime") {
        Some(StatField::Uptime)
    } else if str_eq(topic, "$SYS/broker/clients/connected") {
        Some(StatField::ClientsConnected)
    } else if str_eq(topic, "$SYS/broker/messages/sent") {
        Some(StatField::MessagesSent)
    } else if str_eq(topic, "$SYS/broker/messages/received") {
        Some(StatField::MessagesReceived)
    } else {
        None
    }
}

/// The four topic names the subscriber subscribes to, in a fixed order:
/// uptime, connected clients, messages sent, messages received.
pub fn subscription_topics() -> (r: Vec<String>)
    ensures
        r@.len() == 4,
        r@[0]@ == "$SYS/broker/uptime"@,
        r@[1]@ == "$SYS/broker/clients/connected"@,
        r@[2]@ == "$SYS/broker/messages/sent"@,
        r@[3]@ == "$SYS/broker/messages/received"@,
{
    let mut r: Vec<String> = Vec::new();
    r.push("$SYS/broker/uptime".to_owned());
    r.push("$SYS/broker/clients/connected".to_owned());
    r.push("$SYS/broker/messages/sent".to_owned());
    r.push("$SYS/broker/messages/received".to_owned());
    r
}

/// Relies on `String::from_utf8`: it succeeds exactly on input that is
/// valid UTF-8, and then yields the characters those bytes encode (vstd's
/// `decode_utf8`).
#[verifier::external_body]
fn string_from_utf8(bytes: Vec<u8>) -> (r: Option<String>)
    ensures
        r matches Some(s) ==> valid_utf8(bytes@) && s@ == decode_utf8(bytes@),
        r is Some <==> valid_utf8(bytes@),
{
    match String::from_utf8(bytes) {
        Ok(s) => Some(s),
        Err(_) => None,
    }
}

/// Decode a payload as UTF-8 text; substitute the fixed sentinel `"N/A"`
/// when the bytes are not valid UTF-8.
pub fn decode_payload(payload: Vec<u8>) -> (r: String)
    ensures
        r@ == payload_text(payload@),
{
    match string_from_utf8(payload) {
        Some(s) => s,
        None => "N/A".to_owned(),
    }
}

/// The snapshot after one delivered message: the recognized topic's field
/// is overwritten with the decoded payload, all other fields keep their
/// values; a message on an unrecognized topic changes nothing.
pub open spec fn spec_apply_publish(m: StatsModel, topic: Seq<char>, payload: Seq<u8>) -> StatsModel {
    match spec_publish_write(topic, payload) {
        Some(w) => with_stat(m, w.field, w.value),
        None => m,
    }
}

/// Apply one delivered message to a snapshot, dispatching by exact topic
/// match and decoding the payload as UTF-8 text (with the `"N/A"` sentinel
/// for undecodable bytes).
pub fn apply_publish(stats: &mut MqttStats, topic: &str, payload: Vec<u8>)
    ensures
        final(stats)@ == spec_apply_publish(old(stats)@, topic@, payload@),
{
    match field_for_topic(topic) {
        Some(field) => {
            let value = decode_payload(payload);
            stats.write_field(field, value);
        },
        None => {},
    }
}

/// The subscriber's run-state. It only ever moves forward:
/// connecting, subscribed, streaming, terminated.
#[derive(Clone, Copy, PartialEq, Eq, Structural, Debug)]
pub enum SubscriberState {
    Connecting,
    Subscribed,
    Streaming,
    Terminated,
}

/// One event observed on the broker connection, as the decision logic sees
/// it: a delivered message, any other protocol event (acknowledgements,
/// ping responses, connection-state notices), or the event source reporting
/// that the connection is no longer usable.
pub enum BrokerEvent {
    Publish { topic: String, payload: Vec<u8> },
    Control,
    SourceClosed,
}

/// Model of a broker event.
pub enum EventModel {
    Publish { topic: Seq<char>, payload: Seq<u8> },
    Control,
    SourceClosed,
}

impl View for BrokerEvent {
    type V = EventModel;

    open spec fn view(&self) -> EventModel {
        match self {
            BrokerEvent::Publish { topic, payload } => EventModel::Publish {
                topic: topic@,
                payload: payload@,
            },
            BrokerEvent::Control => EventModel::Control,
            BrokerEvent::SourceClosed => EventModel::SourceClosed,
        }
    }
}

/// The step the subscriber takes on one event: the next run-state, and the
/// field write the event causes, if any. A terminated subscriber never
/// writes again; a closed event source terminates it; a delivered message
/// writes through the fixed topic mapping; every other event is discarded.
pub open spec fn spec_step(state: SubscriberState, event: EventModel) -> (SubscriberState, Option<
    WriteRecord,
>) {
    if state is Terminated {
        (SubscriberState::Terminated, None)
    } else {
        match event {
            EventModel::Publish { topic, payload } => (state, spec_publish_write(topic, payload)),
            EventModel::Control => (state, None),
            EventModel::SourceClosed => (SubscriberState::Terminated, None),
        }
    }
}

/// The run-states and writes produced by a whole sequence of events,
/// applied in order.
pub open spec fn spec_run(state: SubscriberState, events: Seq<EventModel>) -> (SubscriberState, Seq<
    WriteRecord,
>)
    decreases events.len(),
{
    if events.len() == 0 {
        (state, Seq::empty())
    } else {
        let (mid, writes) = spec_run(state, events.drop_last());
        let (last, write) = spec_step(mid, events.last());
        match write {
            Some(w) => (last, writes.push(w)),
            None => (last, writes),
        }
    }
}

/// Law: once the subscriber is terminated, no sequence of further events
/// makes it write again or leave the terminated state — the cache stays
/// frozen at its last values, indefinitely.
pub proof fn lemma_terminated_stays_frozen(events: Seq<EventModel>)
    ensures
        spec_run(SubscriberState::Terminated, events).0 == SubscriberState::Terminated,
        spec_run(SubscriberState::Terminated, events).1 == Seq::<WriteRecord>::empty(),
    decreases events.len(),
{
    if events.len() > 0 {
        lemma_terminated_stays_frozen(events.drop_last());
    }
}

/// Law, restated on snapshots: whatever events arrive after termination,
/// the snapshot stays exactly what the earlier writes had made it.
pub proof fn lemma_frozen_snapshot(writes: Seq<WriteRecord>, events: Seq<EventModel>)
    ensures
        stats_after(writes + spec_run(SubscriberState::Terminated, events).1) == stats_after(
            writes,
        ),
{
    lemma_terminated_stays_frozen(events);
    assert(writes + spec_run(SubscriberState::Terminated, events).1 =~= writes);
}

/// One field write, ready to be applied to the stats store.
pub struct StatWrite {
    pub field: StatField,
    pub value: String,
}

impl View for StatWrite {
    type V = WriteRecord;

    open spec fn view(&self) -> WriteRecord {
        WriteRecord { field: self.field, value: self.value@ }
    }
}

/// The view of an optional pending write.
pub open spec fn opt_write_model(w: Option<StatWrite>) -> Option<WriteRecord> {
    match w {
        Some(sw) => Some(sw@),
        None => None,
    }
}

/// The long-lived background task that owns the broker connection, as its
/// decision logic: the run-state machine. The transport itself lives with
/// the surrounding process.
pub struct Subscriber {
    pub state: SubscriberState,
}

impl Subscriber {
    /// A fresh subscriber, about to open the transport connection.
    pub fn new() -> (s: Subscriber)
        ensures
            s.state == SubscriberState::Connecting,
    {
        Subscriber { state: SubscriberState::Connecting }
    }

    /// Record that the connection is open and the four subscription
    /// requests were issued.
    pub fn mark_subscribed(&mut self)
        requires
            old(self).state == SubscriberState::Connecting,
        ensures
            final(self).state == SubscriberState::Subscribed,
    {
        self.state = SubscriberState::Subscribed;
    }

    /// Record that the subscriber entered its steady-state loop, waiting
    /// for inbound events.
    pub fn mark_streaming(&mut self)
        requires
            old(self).state == SubscriberState::Subscribed,
        ensures
            final(self).state == SubscriberState::Streaming,
    {
        self.state = SubscriberState::Streaming;
    }

    /// Take one step of the run-state machine: advance the state as
    /// [`spec_step`] says and return the field write the event causes, if
    /// any, ready to be applied to the stats store.
    pub fn handle_event(&mut self, event: BrokerEvent) -> (w: Option<StatWrite>)
        ensures
            final(self).state == spec_step(old(self).state, event@).0,
            opt_write_model(w) == spec_step(old(self).state, event@).1,
    {
        if matches!(self.state, SubscriberState::Terminated) {
            return None;
        }
        match event {
            BrokerEvent::Publish { topic, payload } => {
                match field_for_topic(topic.as_str()) {
                    Some(field) => {
                        let value = decode_payload(payload);
                        Some(StatWrite { field, value })
                    },
                    None => None,
                }
            },
            BrokerEvent::Control => None,
            BrokerEvent::SourceClosed => {
                self.state = SubscriberState::Terminated;
                None
            },
        }
    }
}

} // verus!
