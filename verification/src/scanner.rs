//! Reading one line of the server's log as an event.
//!
//! A line is held against five patterns in a fixed order; the first that
//! matches decides the event, and the groups it captured become the
//! event's fields.

use vstd::prelude::*;
use crate::pattern::{captures, fields_of, fields_view, groups_view, read_fields, regex_captures};

verus! {

pub const INIT_PATTERN: &'static str = "^ *(?P<minute>[0-9]+):(?P<second>[0-9]{2}) *InitGame:";

pub const SHUTDOWN_PATTERN: &'static str =
    "^ *(?P<minute>[0-9]+):(?P<second>[0-9]{2}) *ShutdownGame:";

pub const CONNECT_PATTERN: &'static str =
    "^ *(?P<minute>[0-9]+):(?P<second>[0-9]{2}) *ClientConnect: (?P<id>[0-9]{1,2})";

pub const DISCONNECT_PATTERN: &'static str =
    "^ *(?P<minute>[0-9]+):(?P<second>[0-9]{2}) *ClientDisconnect: (?P<id>[0-9]{1,2})";

pub const CHAT_PATTERN: &'static str =
    "^ *(?P<minute>[0-9]+):(?P<second>[0-9]{2}) *(?P<id>[0-9]{1,2}): say: (?P<username>.*): \"(?P<message>.*)\"";

/// What the log reports. Every event starts with the minute and the second
/// of its line.
#[derive(Debug, PartialEq, Eq)]
pub enum Event {
    /// The server started a game.
    Init(String, String),
    /// The server shut a game down.
    Shutdown(String, String),
    /// A player connected; the third field is the player's id.
    Connect(String, String, String),
    /// A player disconnected; the third field is the player's id.
    Disconnect(String, String, String),
    /// A player said something: id, user name, message.
    Chat(String, String, String, String, String),
}

#[derive(Clone, Copy, Debug, PartialEq, Eq, Structural)]
pub enum EventKind {
    Init,
    Shutdown,
    Connect,
    Disconnect,
    Chat,
}

impl EventKind {
    /// How many fields an event of this kind has.
    pub open spec fn arity(self) -> nat {
        match self {
            EventKind::Init => 2,
            EventKind::Shutdown => 2,
            EventKind::Connect => 3,
            EventKind::Disconnect => 3,
            EventKind::Chat => 5,
        }
    }

    /// The pattern that a line of this kind matches.
    pub open spec fn pattern(self) -> Seq<char> {
        match self {
            EventKind::Init => INIT_PATTERN@,
            EventKind::Shutdown => SHUTDOWN_PATTERN@,
            EventKind::Connect => CONNECT_PATTERN@,
            EventKind::Disconnect => DISCONNECT_PATTERN@,
            EventKind::Chat => CHAT_PATTERN@,
        }
    }

    pub fn field_count(self) -> (count: usize)
        ensures
            count == self.arity(),
    {
        match self {
            EventKind::Init => 2,
            EventKind::Shutdown => 2,
            EventKind::Connect => 3,
            EventKind::Disconnect => 3,
            EventKind::Chat => 5,
        }
    }

    pub fn regex(self) -> (pattern: &'static str)
        ensures
            pattern@ == self.pattern(),
    {
        match self {
            EventKind::Init => INIT_PATTERN,
            EventKind::Shutdown => SHUTDOWN_PATTERN,
            EventKind::Connect => CONNECT_PATTERN,
            EventKind::Disconnect => DISCONNECT_PATTERN,
            EventKind::Chat => CHAT_PATTERN,
        }
    }
}

impl Event {
    pub open spec fn kind(&self) -> EventKind {
        match self {
            Event::Init(..) => EventKind::Init,
            Event::Shutdown(..) => EventKind::Shutdown,
            Event::Connect(..) => EventKind::Connect,
            Event::Disconnect(..) => EventKind::Disconnect,
            Event::Chat(..) => EventKind::Chat,
        }
    }

    /// The fields of the event, in the order of its line.
    pub open spec fn fields(&self) -> Seq<Seq<char>> {
        match self {
            Event::Init(minute, second) => seq![minute@, second@],
            Event::Shutdown(minute, second) => seq![minute@, second@],
            Event::Connect(minute, second, id) => seq![minute@, second@, id@],
            Event::Disconnect(minute, second, id) => seq![minute@, second@, id@],
            Event::Chat(minute, second, id, username, message) => seq![
                minute@,
                second@,
                id@,
                username@,
                message@,
            ],
        }
    }
}

/// The fields that `line` gives when read as `kind`, if it can be.
pub open spec fn matched(kind: EventKind, line: Seq<char>) -> Option<Seq<Seq<char>>> {
    fields_of(regex_captures(kind.pattern(), line), kind.arity())
}

/// The kind and the fields of the event that `line` reports, if any: the
/// first kind that the line can be read as.
pub open spec fn line_event(line: Seq<char>) -> Option<(EventKind, Seq<Seq<char>>)> {
    if matched(EventKind::Init, line) is Some {
        Some((EventKind::Init, matched(EventKind::Init, line)->Some_0))
    } else if matched(EventKind::Shutdown, line) is Some {
        Some((EventKind::Shutdown, matched(EventKind::Shutdown, line)->Some_0))
    } else if matched(EventKind::Connect, line) is Some {
        Some((EventKind::Connect, matched(EventKind::Connect, line)->Some_0))
    } else if matched(EventKind::Disconnect, line) is Some {
        Some((EventKind::Disconnect, matched(EventKind::Disconnect, line)->Some_0))
    } else if matched(EventKind::Chat, line) is Some {
        Some((EventKind::Chat, matched(EventKind::Chat, line)->Some_0))
    } else {
        None
    }
}

/// The event of the given kind that a match reports. There is one exactly
/// where the match captured as many groups as the kind has fields.
pub fn event_from(kind: EventKind, groups: Option<Vec<Option<String>>>) -> (event: Option<Event>)
    ensures
        event is Some <==> fields_of(groups_view(groups), kind.arity()) is Some,
        event is Some ==> event->Some_0.kind() == kind,
        event is Some ==> Some(event->Some_0.fields()) == fields_of(
            groups_view(groups),
            kind.arity(),
        ),
{
    let fields = match read_fields(groups, kind.field_count()) {
        Some(fields) => fields,
        None => {
            return None;
        },
    };
    let event = match kind {
        EventKind::Init => Event::Init(fields[0].clone(), fields[1].clone()),
        EventKind::Shutdown => Event::Shutdown(fields[0].clone(), fields[1].clone()),
        EventKind::Connect => Event::Connect(
            fields[0].clone(),
            fields[1].clone(),
            fields[2].clone(),
        ),
        EventKind::Disconnect => Event::Disconnect(
            fields[0].clone(),
            fields[1].clone(),
            fields[2].clone(),
        ),
        EventKind::Chat => Event::Chat(
            fields[0].clone(),
            fields[1].clone(),
            fields[2].clone(),
            fields[3].clone(),
            fields[4].clone(),
        ),
    };
    proof {
        let expected = fields_of(groups_view(groups), kind.arity())->Some_0;
        assert(fields_view(Some(fields))->Some_0 == expected);
        assert forall|i: int| 0 <= i < fields@.len() implies fields@[i]@ == expected[i] by {
            assert(fields_view(Some(fields))->Some_0[i] == fields@[i]@);
        }
        assert(event.fields() =~= expected);
    }
    Some(event)
}

/// The event that `line` reports when read as `kind`.
fn read_as(kind: EventKind, line: &str) -> (event: Option<Event>)
    ensures
        event is Some <==> matched(kind, line@) is Some,
        event is Some ==> event->Some_0.kind() == kind,
        event is Some ==> Some(event->Some_0.fields()) == matched(kind, line@),
{
    event_from(kind, captures(kind.regex(), line))
}

/// The event that `line` reports, if it reports one.
pub fn parse_line(line: &str) -> (event: Option<Event>)
    ensures
        match event {
            Some(e) => line_event(line@) == Some((e.kind(), e.fields())),
            None => line_event(line@) is None,
        },
{
    let init = read_as(EventKind::Init, line);
    if init.is_some() {
        return init;
    }
    let shutdown = read_as(EventKind::Shutdown, line);
    if shutdown.is_some() {
        return shutdown;
    }
    let connect = read_as(EventKind::Connect, line);
    if connect.is_some() {
        return connect;
    }
    let disconnect = read_as(EventKind::Disconnect, line);
    if disconnect.is_some() {
        return disconnect;
    }
    read_as(EventKind::Chat, line)
}

} // verus!
