//! Event kinds and the payload records of the events that are dispatched.
use vstd::prelude::*;
use crate::error::{ResponseDeserializeError, WorkspaceEventParseError};
use crate::frame::{lossy_text, utf8_lossy, RawHeader};
use crate::objects::{Window, Workspace};

verus! {

/// The kinds of event, each with a fixed wire tag that has bit 31 set.
#[derive(Clone, Copy, Debug, PartialEq, Eq, Structural)]
pub enum EventType {
    Workspace,
    Mode,
    Window,
    BarConfigUpdate,
    Binding,
    Shutdown,
    Tick,
    BarStateUpdate,
    Input,
}

impl EventType {
    /// The wire tag of this kind.
    pub open spec fn spec_tag(self) -> u32 {
        match self {
            EventType::Workspace => 0x8000_0000,
            EventType::Mode => 0x8000_0002,
            EventType::Window => 0x8000_0003,
            EventType::BarConfigUpdate => 0x8000_0004,
            EventType::Binding => 0x8000_0005,
            EventType::Shutdown => 0x8000_0006,
            EventType::Tick => 0x8000_0007,
            EventType::BarStateUpdate => 0x8000_0014,
            EventType::Input => 0x8000_0015,
        }
    }

    /// Whether `v` is the tag of some event kind.
    pub open spec fn is_tag(v: u32) -> bool {
        exists|k: EventType| k.spec_tag() == v
    }

    /// The wire tag of this kind.
    pub fn tag(self) -> (r: u32)
        ensures
            r == self.spec_tag(),
    {
        match self {
            EventType::Workspace => 0x8000_0000,
            EventType::Mode => 0x8000_0002,
            EventType::Window => 0x8000_0003,
            EventType::BarConfigUpdate => 0x8000_0004,
            EventType::Binding => 0x8000_0005,
            EventType::Shutdown => 0x8000_0006,
            EventType::Tick => 0x8000_0007,
            EventType::BarStateUpdate => 0x8000_0014,
            EventType::Input => 0x8000_0015,
        }
    }

    /// The kind whose tag is `v`, if any.
    pub fn from_u32(v: u32) -> (r: Option<EventType>)
        ensures
            r matches Some(k) ==> k.spec_tag() == v,
            r is None <==> !EventType::is_tag(v),
    {
        let r = match v {
            0x8000_0000 => Some(EventType::Workspace),
            0x8000_0002 => Some(EventType::Mode),
            0x8000_0003 => Some(EventType::Window),
            0x8000_0004 => Some(EventType::BarConfigUpdate),
            0x8000_0005 => Some(EventType::Binding),
            0x8000_0006 => Some(EventType::Shutdown),
            0x8000_0007 => Some(EventType::Tick),
            0x8000_0014 => Some(EventType::BarStateUpdate),
            0x8000_0015 => Some(EventType::Input),
            _ => None,
        };
        proof {
            if r is None {
                assert forall|k: EventType| k.spec_tag() != v by {
                    match k {
                        _ => {},
                    }
                }
            } else {
                assert(r->Some_0.spec_tag() == v);
            }
        }
        r
    }
}

/// An event pushed by the peer: its kind and its payload as text.
#[derive(Clone, Debug)]
pub struct Event {
    pub event_type: EventType,
    pub payload: String,
}

/// An event header whose tag names an event kind.
#[derive(Clone, Copy, Debug, PartialEq, Eq, Structural)]
pub struct EventHeader {
    pub event_type: EventType,
    pub payload_len: u32,
}

impl Event {
    /// Interprets the tag of a checked header as an event kind.
    pub fn check_header(h: RawHeader) -> (r: Result<EventHeader, ResponseDeserializeError>)
        ensures
            EventType::is_tag(h.tag) ==> (r matches Ok(m) && m.event_type.spec_tag() == h.tag
                && m.payload_len == h.payload_len),
            !EventType::is_tag(h.tag) ==> (r matches Err(
                ResponseDeserializeError::InvalidEventType(t),
            ) && t == h.tag),
    {
        match EventType::from_u32(h.tag) {
            Some(k) => Ok(EventHeader { event_type: k, payload_len: h.payload_len }),
            None => Err(ResponseDeserializeError::InvalidEventType(h.tag)),
        }
    }

    /// The event of the given kind whose payload bytes are `payload`.
    pub fn from_payload(event_type: EventType, payload: &[u8]) -> (r: Event)
        ensures
            r.event_type == event_type,
            r.payload@ == utf8_lossy(payload@),
    {
        Event { event_type, payload: lossy_text(payload) }
    }
}

/// What happened to a workspace.
#[derive(Clone, Copy, Debug, PartialEq, Eq, Structural)]
pub enum WorkspaceEventChange {
    Init,
    Empty,
    Focus,
    Move,
    Rename,
    Urgent,
    Reload,
}

/// The change that the lowercase token `s` names, if any.
pub open spec fn change_named(s: Seq<char>) -> Option<WorkspaceEventChange> {
    if s == "init"@ {
        Some(WorkspaceEventChange::Init)
    } else if s == "empty"@ {
        Some(WorkspaceEventChange::Empty)
    } else if s == "focus"@ {
        Some(WorkspaceEventChange::Focus)
    } else if s == "move"@ {
        Some(WorkspaceEventChange::Move)
    } else if s == "rename"@ {
        Some(WorkspaceEventChange::Rename)
    } else if s == "urgent"@ {
        Some(WorkspaceEventChange::Urgent)
    } else if s == "reload"@ {
        Some(WorkspaceEventChange::Reload)
    } else {
        None
    }
}

/// Whether two strings hold the same characters.
pub(crate) fn same_text(a: &str, b: &str) -> (r: bool)
    ensures
        r == (a@ == b@),
{
    a.to_owned() == b.to_owned()
}

impl WorkspaceEventChange {
    /// Parses a change token; anything but the seven lowercase tokens is refused
    /// with the token itself.
    pub fn from_str(s: &str) -> (r: Result<WorkspaceEventChange, WorkspaceEventParseError>)
        ensures
            change_named(s@) matches Some(c) ==> r == Ok::<WorkspaceEventChange, WorkspaceEventParseError>(c),
            change_named(s@) is None ==> (r matches Err(WorkspaceEventParseError::Invalid(t)) && t@ == s@),
    {
        if same_text(s, "init") {
            Ok(WorkspaceEventChange::Init)
        } else if same_text(s, "empty") {
            Ok(WorkspaceEventChange::Empty)
        } else if same_text(s, "focus") {
            Ok(WorkspaceEventChange::Focus)
        } else if same_text(s, "move") {
            Ok(WorkspaceEventChange::Move)
        } else if same_text(s, "rename") {
            Ok(WorkspaceEventChange::Rename)
        } else if same_text(s, "urgent") {
            Ok(WorkspaceEventChange::Urgent)
        } else if same_text(s, "reload") {
            Ok(WorkspaceEventChange::Reload)
        } else {
            Err(WorkspaceEventParseError::Invalid(s.to_owned()))
        }
    }
}

/// A change to a workspace.
#[derive(Clone, Debug)]
pub struct WorkspaceEvent {
    pub change: WorkspaceEventChange,
    pub old: Option<Workspace>,
    pub current: Workspace,
}

/// A change to a window.
#[derive(Clone, Debug)]
pub struct WindowEvent {
    pub change: String,
    pub container: Window,
}

/// A change of binding mode; `change` is the mode's name.
#[derive(Clone, Debug)]
pub struct ModeEvent {
    pub change: String,
    pub pango_markup: bool,
}

} // verus!
