//! The filesystem-event abstraction delivered by the watchers: a kind and a
//! list of paths, plus the message type that carries events and the stop
//! signal to a spy's dispatcher.

use vstd::prelude::*;

use crate::strutil::str_eq;

verus! {

/// The shape of a filesystem event, as the rule matcher sees it.
#[derive(Debug, Clone, Copy, PartialEq, Eq, Structural)]
pub enum EventKind {
    Create,
    Modify,
    Remove,
    Access,
    Other,
}

/// The token a kind is matched under in a spy's `events` list.
pub open spec fn token_of(k: EventKind) -> Seq<char> {
    match k {
        EventKind::Create => "Create"@,
        EventKind::Modify => "Modify"@,
        EventKind::Remove => "Remove"@,
        EventKind::Access => "Access"@,
        EventKind::Other => "Other"@,
    }
}

/// The kind named by a token; anything unrecognized falls back to Modify,
/// the default kind for synthetic events.
pub open spec fn kind_of_token(t: Seq<char>) -> EventKind {
    if t == "Create"@ {
        EventKind::Create
    } else if t == "Remove"@ {
        EventKind::Remove
    } else if t == "Modify"@ {
        EventKind::Modify
    } else if t == "Access"@ {
        EventKind::Access
    } else {
        EventKind::Modify
    }
}

/// The string token of an event kind.
pub fn event_kind_to_string(kind: EventKind) -> (r: String)
    ensures
        r@ == token_of(kind),
{
    match kind {
        EventKind::Create => "Create".to_owned(),
        EventKind::Modify => "Modify".to_owned(),
        EventKind::Remove => "Remove".to_owned(),
        EventKind::Access => "Access".to_owned(),
        EventKind::Other => "Other".to_owned(),
    }
}

/// The event kind named by a token, Modify for anything else.
pub fn string_to_event_kind(token: &str) -> (r: EventKind)
    ensures
        r == kind_of_token(token@),
{
    if str_eq(token, "Create") {
        EventKind::Create
    } else if str_eq(token, "Remove") {
        EventKind::Remove
    } else if str_eq(token, "Modify") {
        EventKind::Modify
    } else if str_eq(token, "Access") {
        EventKind::Access
    } else {
        EventKind::Modify
    }
}

/// One filesystem event: a kind and the affected paths in slash form; the
/// effective path of the event is the last one.
pub struct FsEvent {
    pub kind: EventKind,
    pub paths: Vec<String>,
}

/// What flows through a spy's dispatch channel.
pub enum Message {
    Event(FsEvent),
    Stop,
}

} // verus!
