//! The cached telemetry snapshot and its mathematical model.
//!
//! A snapshot holds the last-observed payload for each of four broker status
//! values. Payloads are kept as opaque text, never parsed; the initial
//! snapshot is all-empty, which is distinguishable from a literal zero.

use vstd::prelude::*;

verus! {

/// The four telemetry fields a snapshot holds, one per subscribed status
/// topic.
#[derive(Clone, Copy, PartialEq, Eq, Structural, Debug)]
pub enum StatField {
    Uptime,
    ClientsConnected,
    MessagesSent,
    MessagesReceived,
}

/// Mathematical model of a snapshot: the four field values as character
/// sequences.
pub struct StatsModel {
    pub uptime: Seq<char>,
    pub clients_connected: Seq<char>,
    pub messages_sent: Seq<char>,
    pub messages_received: Seq<char>,
}

/// The model of the initial snapshot: no data received yet, all four fields
/// empty.
pub open spec fn empty_stats() -> StatsModel {
    StatsModel {
        uptime: Seq::empty(),
        clients_connected: Seq::empty(),
        messages_sent: Seq::empty(),
        messages_received: Seq::empty(),
    }
}

/// The value a model holds for one field.
pub open spec fn stat_of(m: StatsModel, field: StatField) -> Seq<char> {
    match field {
        StatField::Uptime => m.uptime,
        StatField::ClientsConnected => m.clients_connected,
        StatField::MessagesSent => m.messages_sent,
        StatField::MessagesReceived => m.messages_received,
    }
}

/// The model after overwriting exactly one field with a new value.
pub open spec fn with_stat(m: StatsModel, field: StatField, value: Seq<char>) -> StatsModel {
    match field {
        StatField::Uptime => StatsModel { uptime: value, ..m },
        StatField::ClientsConnected => StatsModel { clients_connected: value, ..m },
        StatField::MessagesSent => StatsModel { messages_sent: value, ..m },
        StatField::MessagesReceived => StatsModel { messages_received: value, ..m },
    }
}

/// Last-known broker telemetry: the payloads most recently seen on the four
/// status topics, as opaque text.
#[derive(Debug)]
pub struct MqttStats {
    pub uptime: String,
    pub clients_connected: String,
    pub messages_sent: String,
    pub messages_received: String,
}

impl View for MqttStats {
    type V = StatsModel;

    open spec fn view(&self) -> StatsModel {
        StatsModel {
            uptime: self.uptime@,
            clients_connected: self.clients_connected@,
            messages_sent: self.messages_sent@,
            messages_received: self.messages_received@,
        }
    }
}

impl Default for MqttStats {
    /// The initial snapshot: all four fields empty, meaning "no data
    /// received yet".
    fn default() -> (s: MqttStats)
        ensures
            s@ == empty_stats(),
    {
        let s = MqttStats {
            uptime: String::new(),
            clients_connected: String::new(),
            messages_sent: String::new(),
            messages_received: String::new(),
        };
        proof {
            assert(s@ =~= empty_stats());
        }
        s
    }
}

impl MqttStats {
    /// Overwrite exactly one field with a new value; the other three fields
    /// keep their current values.
    pub fn write_field(&mut self, field: StatField, value: String)
        ensures
            final(self)@ == with_stat(old(self)@, field, value@),
    {
        match field {
            StatField::Uptime => self.uptime = value,
            StatField::ClientsConnected => self.clients_connected = value,
            StatField::MessagesSent => self.messages_sent = value,
            StatField::MessagesReceived => self.messages_received = value,
        }
        proof {
            assert(self@ =~= with_stat(old(self)@, field, value@));
        }
    }

    /// A copy of the snapshot, safe to hand to a reader without further
    /// synchronization.
    pub fn duplicate(&self) -> (r: MqttStats)
        ensures
            r@ == self@,
    {
        let r = MqttStats {
            uptime: self.uptime.clone(),
            clients_connected: self.clients_connected.clone(),
            messages_sent: self.messages_sent.clone(),
            messages_received: self.messages_received.clone(),
        };
        proof {
            assert(r@ =~= self@);
        }
        r
    }
}

/// One field write, as history: which field was set, and to what value.
pub struct WriteRecord {
    pub field: StatField,
    pub value: Seq<char>,
}

/// The model reached from the initial snapshot by a sequence of field
/// writes, applied in order.
pub open spec fn stats_after(writes: Seq<WriteRecord>) -> StatsModel
    decreases writes.len(),
{
    if writes.len() == 0 {
        empty_stats()
    } else {
        with_stat(stats_after(writes.drop_last()), writes.last().field, writes.last().value)
    }
}

/// The index of the last write to a given field within a write history.
pub open spec fn last_write_to(writes: Seq<WriteRecord>, field: StatField) -> int
    decreases writes.len(),
{
    if writes.len() == 0 {
        -1
    } else if writes.last().field == field {
        writes.len() - 1
    } else {
        last_write_to(writes.drop_last(), field)
    }
}

/// Law: writing one field never alters the other three.
pub proof fn lemma_write_leaves_other_fields(
    m: StatsModel,
    field: StatField,
    value: Seq<char>,
    other: StatField,
)
    requires
        other != field,
    ensures
        stat_of(with_stat(m, field, value), other) == stat_of(m, other),
{
}

/// Law: after any sequence of field writes, every field of the resulting
/// snapshot holds either its empty initial value (when no write touched it)
/// or exactly the value of the last write to it. No snapshot ever shows a
/// value that was never written.
pub proof fn lemma_read_reflects_writes(writes: Seq<WriteRecord>, field: StatField)
    ensures
        (forall|i: int| 0 <= i < writes.len() ==> (#[trigger] writes[i]).field != field)
            ==> stat_of(stats_after(writes), field) == Seq::<char>::empty(),
        (exists|i: int| 0 <= i < writes.len() && (#[trigger] writes[i]).field == field) ==> {
            let last = last_write_to(writes, field);
            &&& 0 <= last < writes.len()
            &&& writes[last].field == field
            &&& forall|j: int| last < j < writes.len() ==> (#[trigger] writes[j]).field != field
            &&& stat_of(stats_after(writes), field) == writes[last].value
        },
    decreases writes.len(),
{
    if writes.len() == 0 {
    } else {
        let prefix = writes.drop_last();
        lemma_read_reflects_writes(prefix, field);
        if writes.last().field == field {
        } else {
            lemma_write_leaves_other_fields(
                stats_after(prefix),
                writes.last().field,
                writes.last().value,
                field,
            );
            assert(forall|i: int|
                0 <= i < prefix.len() ==> prefix[i] == (#[trigger] writes[i]));
        }
    }
}

} // verus!
