//! Events that the daemon pushes.
//!
//! An event frame names its kind with a dotted name. The kinds that the client
//! knows get a variant of their own; any other kind is kept with its name and
//! payload, so that a newer daemon does not break the client.

use crate::app::{log_entry, LogEntry, LogEntryModel};
use crate::json::{
    get_or_null, get_str, json_of, json_parse, member_or_null, member_text, parse_value,
    JsonModel,
};
use crate::text::{has_prefix, same_text, texts_of, trimmed, trimmed_text};
use vstd::prelude::*;

verus! {

/// An event about the daemon's state.
#[derive(Debug, Clone)]
pub enum StateEvent {
    Files(serde_json::Value),
    Topics(serde_json::Value),
    Other { name: String, data: serde_json::Value },
}

/// What a `StateEvent` holds.
pub enum StateEventModel {
    Files(JsonModel),
    Topics(JsonModel),
    Other { name: Seq<char>, data: JsonModel },
}

impl View for StateEvent {
    type V = StateEventModel;

    open spec fn view(&self) -> StateEventModel {
        match *self {
            StateEvent::Files(data) => StateEventModel::Files(json_of(data)),
            StateEvent::Topics(data) => StateEventModel::Topics(json_of(data)),
            StateEvent::Other { name, data } => StateEventModel::Other {
                name: name@,
                data: json_of(data),
            },
        }
    }
}

/// The state event with the given name and payload.
pub open spec fn state_event(name: Seq<char>, data: JsonModel) -> StateEventModel {
    if name == "state.files"@ {
        StateEventModel::Files(data)
    } else if name == "state.topics"@ {
        StateEventModel::Topics(data)
    } else {
        StateEventModel::Other { name, data }
    }
}

impl StateEvent {
    /// The event of the given name: a known kind, or `Other` with the name
    /// and the payload as they came.
    pub fn from_event_name(name: &str, data: serde_json::Value) -> (r: Self)
        ensures
            r@ == state_event(name@, json_of(data)),
    {
        if same_text(name, "state.files") {
            return StateEvent::Files(data);
        }
        if same_text(name, "state.topics") {
            return StateEvent::Topics(data);
        }
        StateEvent::Other { name: name.to_owned(), data }
    }
}

/// An event about the network.
#[derive(Debug, Clone)]
pub enum NetworkEvent {
    Stats(serde_json::Value),
    Other { name: String, data: serde_json::Value },
}

/// What a `NetworkEvent` holds.
pub enum NetworkEventModel {
    Stats(JsonModel),
    Other { name: Seq<char>, data: JsonModel },
}

impl View for NetworkEvent {
    type V = NetworkEventModel;

    open spec fn view(&self) -> NetworkEventModel {
        match *self {
            NetworkEvent::Stats(data) => NetworkEventModel::Stats(json_of(data)),
            NetworkEvent::Other { name, data } => NetworkEventModel::Other {
                name: name@,
                data: json_of(data),
            },
        }
    }
}

/// The network event with the given name and payload.
pub open spec fn network_event(name: Seq<char>, data: JsonModel) -> NetworkEventModel {
    if name == "network.stats"@ {
        NetworkEventModel::Stats(data)
    } else {
        NetworkEventModel::Other { name, data }
    }
}

impl NetworkEvent {
    /// The event of the given name: a known kind, or `Other` with the name
    /// and the payload as they came.
    pub fn from_event_name(name: &str, data: serde_json::Value) -> (r: Self)
        ensures
            r@ == network_event(name@, json_of(data)),
    {
        if same_text(name, "network.stats") {
            return NetworkEvent::Stats(data);
        }
        NetworkEvent::Other { name: name.to_owned(), data }
    }
}

/// An event pushed by the daemon.
#[derive(Debug, Clone)]
pub enum DaemonEvent {
    Log(LogEntry),
    Network(NetworkEvent),
    State(StateEvent),
    /// An event of a namespace that the client does not know.
    Other { name: String, data: serde_json::Value },
}

/// What a `DaemonEvent` holds.
pub enum DaemonEventModel {
    Log(LogEntryModel),
    Network(NetworkEventModel),
    State(StateEventModel),
    Other { name: Seq<char>, data: JsonModel },
}

impl View for DaemonEvent {
    type V = DaemonEventModel;

    open spec fn view(&self) -> DaemonEventModel {
        match *self {
            DaemonEvent::Log(entry) => DaemonEventModel::Log(entry@),
            DaemonEvent::Network(event) => DaemonEventModel::Network(event@),
            DaemonEvent::State(event) => DaemonEventModel::State(event@),
            DaemonEvent::Other { name, data } => DaemonEventModel::Other {
                name: name@,
                data: json_of(data),
            },
        }
    }
}

/// An event frame that does not name its event.
#[derive(Debug, Clone)]
pub struct UnnamedEvent;

impl UnnamedEvent {
    /// The text of the error as shown to the user.
    pub fn message(&self) -> (r: String)
        ensures
            r@ == "event without a name"@,
    {
        "event without a name".to_owned()
    }
}

/// The event with the given name and payload: a log entry, an event of the
/// network or of the state, or an event of a namespace that the client does
/// not know, which keeps its name and payload.
pub open spec fn named_event(name: Seq<char>, data: JsonModel) -> DaemonEventModel {
    if name == "log"@ {
        DaemonEventModel::Log(log_entry(data))
    } else if "network."@.is_prefix_of(name) {
        DaemonEventModel::Network(network_event(name, data))
    } else if "state."@.is_prefix_of(name) {
        DaemonEventModel::State(state_event(name, data))
    } else {
        DaemonEventModel::Other { name, data }
    }
}

/// The event that a frame carries, if the frame names one: its text member
/// `event` is the name, its member `data` the payload, `null` where there is
/// none.
pub open spec fn decoded_event(frame: JsonModel) -> Option<DaemonEventModel> {
    match member_text(frame, "event"@) {
        Some(name) => Some(named_event(name, member_or_null(frame, "data"@))),
        None => None,
    }
}

/// The event that a line of the event stream carries: the line must be a
/// JSON document of type `evt` that names its event.
pub open spec fn event_of_line(line: Seq<char>) -> Option<DaemonEventModel> {
    match json_parse(trimmed_text(line)) {
        Some(frame) => if member_text(frame, "type"@) == Some("evt"@) {
            decoded_event(frame)
        } else {
            None
        },
        None => None,
    }
}

/// The events that the lines of an event stream carry, in the order of the
/// lines; a line that carries none is passed over.
pub open spec fn events_of_lines(lines: Seq<Seq<char>>) -> Seq<DaemonEventModel>
    decreases lines.len(),
{
    if lines.len() == 0 {
        Seq::empty()
    } else {
        match event_of_line(lines.last()) {
            Some(event) => events_of_lines(lines.drop_last()).push(event),
            None => events_of_lines(lines.drop_last()),
        }
    }
}

/// What the events hold, one for one.
pub open spec fn event_models(events: Seq<DaemonEvent>) -> Seq<DaemonEventModel> {
    Seq::new(events.len(), |i: int| events[i]@)
}

impl DaemonEvent {
    /// Decodes an event frame. A frame without a name is an error; every
    /// name gives an event.
    pub fn try_from(v: serde_json::Value) -> (r: Result<Self, UnnamedEvent>)
        ensures
            match r {
                Ok(event) => decoded_event(json_of(v)) == Some(event@),
                Err(_) => decoded_event(json_of(v)) is None,
            },
    {
        let name: String = match get_str(&v, "event") {
            Some(text) => text.to_owned(),
            None => { return Err(UnnamedEvent); },
        };
        let data = get_or_null(&v, "data");
        if same_text(name.as_str(), "log") {
            return Ok(DaemonEvent::Log(LogEntry::try_from(data)));
        }
        if has_prefix(name.as_str(), "network.") {
            return Ok(DaemonEvent::Network(NetworkEvent::from_event_name(name.as_str(), data)));
        }
        if has_prefix(name.as_str(), "state.") {
            return Ok(DaemonEvent::State(StateEvent::from_event_name(name.as_str(), data)));
        }
        Ok(DaemonEvent::Other { name, data })
    }

    /// Decodes one line of the event stream. A line that is no JSON document,
    /// a frame of another type, and an event frame without a name all give
    /// nothing: the stream goes on.
    pub fn from_line(line: &str) -> (r: Option<Self>)
        ensures
            match r {
                Some(event) => event_of_line(line@) == Some(event@),
                None => event_of_line(line@) is None,
            },
    {
        let frame = match parse_value(trimmed(line).as_str()) {
            Some(frame) => frame,
            None => { return None; },
        };
        let is_event = match get_str(&frame, "type") {
            Some(kind) => same_text(kind, "evt"),
            None => false,
        };
        if !is_event {
            return None;
        }
        match DaemonEvent::try_from(frame) {
            Ok(event) => Some(event),
            Err(_) => None,
        }
    }

    /// Decodes the lines of an event stream: the events come out in the
    /// order of their lines, and a line that carries none does not end the
    /// stream.
    pub fn from_lines(lines: &Vec<String>) -> (r: Vec<Self>)
        ensures
            event_models(r@) == events_of_lines(texts_of(lines@)),
    {
        let mut events: Vec<DaemonEvent> = Vec::new();
        let mut i: usize = 0;
        assert(texts_of(lines@).take(0) =~= Seq::<Seq<char>>::empty());
        assert(event_models(events@) =~= Seq::<DaemonEventModel>::empty());
        while i < lines.len()
            invariant
                i <= lines.len(),
                event_models(events@) == events_of_lines(texts_of(lines@).take(i as int)),
            decreases lines.len() - i,
        {
            let ghost seen = texts_of(lines@).take(i + 1);
            assert(seen.drop_last() =~= texts_of(lines@).take(i as int));
            assert(seen.last() == lines@[i as int]@);
            let ghost before = event_models(events@);
            match DaemonEvent::from_line(lines[i].as_str()) {
                Some(event) => {
                    events.push(event);
                    assert(event_models(events@) =~= before.push(event@));
                },
                None => {},
            }
            i += 1;
        }
        assert(texts_of(lines@).take(lines.len() as int) =~= texts_of(lines@));
        events
    }
}

} // verus!
