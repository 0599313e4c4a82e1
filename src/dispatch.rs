//! The request and event dispatchers, and the subscribe-then-dispatch loop
//! as a state machine: the caller performs each I/O action that a step asks
//! for and hands its outcome back.
use vstd::prelude::*;
use vstd::endian::endianness;
use vstd::string::StringSliceAdditionalSpecFns;
use crate::error::{EventError, EventLoopError, RequestError};
use crate::event::{same_text, EventType, ModeEvent, WindowEvent};
use crate::frame::{encode_frame, frame_bytes};
use crate::message::MessageType;
use crate::objects::{Workspace, WorkspaceInfo};

verus! {

/// Number of workspace slots shown by the widgets.
pub const WORKSPACE_SLOTS: usize = 8;

/// Index of the last workspace of `ws` numbered `n`, or -1 if there is none.
pub open spec fn last_numbered(ws: Seq<Workspace>, n: usize) -> int
    decreases ws.len(),
{
    if ws.len() == 0 {
        -1
    } else if ws.last().num == n {
        ws.len() - 1
    } else {
        last_numbered(ws.drop_last(), n)
    }
}

/// Decimal text of a slot number.
pub open spec fn slot_name(n: int) -> Seq<char> {
    if n == 1 {
        "1"@
    } else if n == 2 {
        "2"@
    } else if n == 3 {
        "3"@
    } else if n == 4 {
        "4"@
    } else if n == 5 {
        "5"@
    } else if n == 6 {
        "6"@
    } else if n == 7 {
        "7"@
    } else {
        "8"@
    }
}

/// Whether every workspace of a listing reports its visibility.
pub open spec fn is_listing(ws: Seq<Workspace>) -> bool {
    forall|i: int| 0 <= i < ws.len() ==> (#[trigger] ws[i]).visible is Some
}

/// Whether `info` is the active entry that reports workspace `w`.
pub open spec fn reports(info: WorkspaceInfo, w: Workspace) -> bool {
    &&& info.name@ == w.name@
    &&& info.num == w.num
    &&& info.focused == w.focused
    &&& info.urgent == w.urgent
    &&& w.visible == Some(info.visible)
    &&& info.active
}

/// Whether `info` is the entry of slot `n` for listing `ws`: the last
/// workspace numbered `n`, or else an inactive placeholder.
pub open spec fn slot_entry(ws: Seq<Workspace>, n: usize, info: WorkspaceInfo) -> bool {
    let j = last_numbered(ws, n);
    if j >= 0 {
        reports(info, ws[j])
    } else {
        info.is_placeholder(slot_name(n as int), n)
    }
}

/// Whether `t` is the workspace table for listing `ws`: slots 1 through 8 in order.
pub open spec fn is_table(ws: Seq<Workspace>, t: Seq<WorkspaceInfo>) -> bool {
    &&& t.len() == WORKSPACE_SLOTS
    &&& forall|i: int| 0 <= i < t.len() ==> slot_entry(ws, (i + 1) as usize, #[trigger] t[i])
}

/// The last workspace numbered `n`, if one is listed.
fn find_last_numbered(ws: &Vec<Workspace>, n: usize) -> (r: Option<usize>)
    ensures
        r matches Some(j) ==> j < ws@.len() && j == last_numbered(ws@, n),
        r is None ==> last_numbered(ws@, n) == -1,
{
    let mut found: Option<usize> = None;
    let mut j: usize = 0;
    while j < ws.len()
        invariant
            j <= ws@.len(),
            found matches Some(k) ==> k < j && k == last_numbered(ws@.subrange(0, j as int), n),
            found is None ==> last_numbered(ws@.subrange(0, j as int), n) == -1,
        decreases ws@.len() - j,
    {
        assert(ws@.subrange(0, j + 1).drop_last() =~= ws@.subrange(0, j as int));
        if ws[j].num == n {
            found = Some(j);
        }
        j = j + 1;
    }
    assert(ws@.subrange(0, ws@.len() as int) =~= ws@);
    found
}

/// The active entry for a listed workspace.
fn info_of(w: &Workspace) -> (r: WorkspaceInfo)
    requires
        w.visible is Some,
    ensures
        reports(r, *w),
{
    let visible = match w.visible {
        Some(v) => v,
        None => false,
    };
    WorkspaceInfo {
        name: w.name.clone(),
        num: w.num,
        focused: w.focused,
        urgent: w.urgent,
        visible,
        active: true,
    }
}

/// Decimal text of slot `n`.
fn slot_text(n: usize) -> (r: String)
    requires
        1 <= n <= WORKSPACE_SLOTS,
    ensures
        r@ == slot_name(n as int),
{
    if n == 1 {
        "1".to_owned()
    } else if n == 2 {
        "2".to_owned()
    } else if n == 3 {
        "3".to_owned()
    } else if n == 4 {
        "4".to_owned()
    } else if n == 5 {
        "5".to_owned()
    } else if n == 6 {
        "6".to_owned()
    } else if n == 7 {
        "7".to_owned()
    } else {
        "8".to_owned()
    }
}

/// The workspace table for a listing: for each slot 1 through 8 the last
/// listed workspace with that number, or an inactive placeholder.
pub fn workspace_infos(ws: &Vec<Workspace>) -> (r: Vec<WorkspaceInfo>)
    requires
        is_listing(ws@),
    ensures
        is_table(ws@, r@),
{
    let mut out: Vec<WorkspaceInfo> = Vec::new();
    let mut n: usize = 1;
    while n <= WORKSPACE_SLOTS
        invariant
            1 <= n <= WORKSPACE_SLOTS + 1,
            out@.len() == n - 1,
            is_listing(ws@),
            forall|i: int| 0 <= i < out@.len() ==> slot_entry(ws@, (i + 1) as usize, #[trigger] out@[i]),
        decreases WORKSPACE_SLOTS + 1 - n,
    {
        let entry = match find_last_numbered(ws, n) {
            Some(j) => info_of(&ws[j]),
            None => WorkspaceInfo::new(slot_text(n).as_str(), n),
        };
        out.push(entry);
        n = n + 1;
    }
    out
}

/// The shape into which a payload is decoded before it is dispatched.
#[derive(Clone, Copy, Debug, PartialEq, Eq, Structural)]
pub enum PayloadShape {
    /// A listing of workspaces.
    Workspaces,
    /// A subscription acknowledgement, `{"success": bool}`.
    Subscription,
    /// A window event.
    Window,
    /// A binding-mode event.
    Mode,
    /// The payload is not read.
    Nothing,
}

/// A decoded payload.
#[derive(Debug)]
pub enum Payload {
    Workspaces(Vec<Workspace>),
    Subscription(bool),
    Window(WindowEvent),
    Mode(ModeEvent),
    Nothing,
}

impl Payload {
    /// The shape of this payload.
    pub open spec fn shape(&self) -> PayloadShape {
        match self {
            Payload::Workspaces(_) => PayloadShape::Workspaces,
            Payload::Subscription(_) => PayloadShape::Subscription,
            Payload::Window(_) => PayloadShape::Window,
            Payload::Mode(_) => PayloadShape::Mode,
            Payload::Nothing => PayloadShape::Nothing,
        }
    }
}

/// Whether a decoding outcome has the shape asked for: a payload of that
/// shape (a listing that reports visibility), or a decoding failure of a
/// payload that was read at all.
pub open spec fn fits(p: Result<Payload, serde_json::Error>, shape: PayloadShape) -> bool {
    match p {
        Ok(q) => q.shape() == shape && (q matches Payload::Workspaces(ws) ==> is_listing(ws@)),
        Err(_) => shape != PayloadShape::Nothing,
    }
}

/// The shape in which the reply to a request of kind `k` is read.
pub open spec fn spec_reply_shape(k: MessageType) -> PayloadShape {
    match k {
        MessageType::GetWorkspaces => PayloadShape::Workspaces,
        MessageType::Subscribe => PayloadShape::Subscription,
        _ => PayloadShape::Nothing,
    }
}

/// The shape in which an event of kind `k` is read.
pub open spec fn spec_event_shape(k: EventType) -> PayloadShape {
    match k {
        EventType::Window => PayloadShape::Window,
        EventType::Mode => PayloadShape::Mode,
        _ => PayloadShape::Nothing,
    }
}

/// The shape in which the reply to a request of kind `k` is read.
pub fn reply_shape(k: MessageType) -> (r: PayloadShape)
    ensures
        r == spec_reply_shape(k),
{
    match k {
        MessageType::GetWorkspaces => PayloadShape::Workspaces,
        MessageType::Subscribe => PayloadShape::Subscription,
        _ => PayloadShape::Nothing,
    }
}

/// The shape in which an event of kind `k` is read.
pub fn event_shape(k: EventType) -> (r: PayloadShape)
    ensures
        r == spec_event_shape(k),
{
    match k {
        EventType::Window => PayloadShape::Window,
        EventType::Mode => PayloadShape::Mode,
        _ => PayloadShape::Nothing,
    }
}

/// A value for a widget variable.
#[derive(Debug)]
pub enum SinkValue {
    Text(String),
    Flag(bool),
    /// The workspace table, handed over as its JSON text.
    Workspaces(Vec<WorkspaceInfo>),
}

/// One assignment of a widget variable.
#[derive(Debug)]
pub struct SinkUpdate {
    pub var: String,
    pub value: SinkValue,
}

/// Whether `u` sets variable `var` to the text `val`.
pub open spec fn sets_text(u: SinkUpdate, var: Seq<char>, val: Seq<char>) -> bool {
    u.var@ == var && (u.value matches SinkValue::Text(t) && t@ == val)
}

/// Whether `u` sets variable `var` to the flag `val`.
pub open spec fn sets_flag(u: SinkUpdate, var: Seq<char>, val: bool) -> bool {
    u.var@ == var && u.value == SinkValue::Flag(val)
}

/// The error that handling a reply yields, if any.
pub open spec fn response_error(p: Result<Payload, serde_json::Error>) -> Option<RequestError> {
    match p {
        Err(e) => Some(RequestError::Deserialize(e)),
        Ok(Payload::Subscription(false)) => Some(RequestError::UnsuccessfulSubscription),
        _ => None,
    }
}

/// Whether `u` are the sink updates owed for a reply that yields no error:
/// the workspace table for a listing, nothing otherwise.
pub open spec fn response_updates(p: Result<Payload, serde_json::Error>, u: Seq<SinkUpdate>) -> bool {
    match p {
        Ok(Payload::Workspaces(ws)) => u.len() == 1 && u[0].var@ == "ws_info"@ && (
        u[0].value matches SinkValue::Workspaces(t) && is_table(ws@, t@)),
        _ => u.len() == 0,
    }
}

/// Acts on the decoded reply to a request of kind `kind`.
pub fn handle_response(kind: MessageType, payload: Result<Payload, serde_json::Error>) -> (r: Result<
    Vec<SinkUpdate>,
    RequestError,
>)
    requires
        fits(payload, spec_reply_shape(kind)),
    ensures
        response_error(payload) matches Some(e) ==> r == Err::<Vec<SinkUpdate>, RequestError>(e),
        response_error(payload) is None ==> (r matches Ok(u) && response_updates(payload, u@)),
{
    match payload {
        Err(e) => Err(RequestError::Deserialize(e)),
        Ok(Payload::Workspaces(ws)) => {
            let mut u: Vec<SinkUpdate> = Vec::new();
            u.push(SinkUpdate { var: "ws_info".to_owned(), value: SinkValue::Workspaces(workspace_infos(&ws)) });
            Ok(u)
        },
        Ok(Payload::Subscription(success)) => {
            if success {
                Ok(Vec::new())
            } else {
                Err(RequestError::UnsuccessfulSubscription)
            }
        },
        Ok(_) => Ok(Vec::new()),
    }
}

/// What an event asks for once its payload is decoded.
#[derive(Debug)]
pub enum EventOutcome {
    /// Assign these widget variables, in order.
    Updates(Vec<SinkUpdate>),
    /// Send a request of this kind and act on its reply.
    Request(MessageType),
    /// End the loop cleanly.
    Shutdown,
}

/// The error that handling an event yields, if any.
pub open spec fn event_error(p: Result<Payload, serde_json::Error>) -> Option<EventError> {
    match p {
        Err(e) => Some(EventError::DeserializePayload(e)),
        Ok(_) => None,
    }
}

/// Whether `u` are the sink updates owed for an event of kind `k` that
/// neither fails, ends the loop nor asks for a request.
pub open spec fn event_updates(k: EventType, p: Result<Payload, serde_json::Error>, u: Seq<SinkUpdate>) -> bool {
    match p {
        Ok(Payload::Window(w)) if k == EventType::Window => match w.container.name {
            Some(n) => u.len() == 1 && sets_text(u[0], "active_window"@, n@),
            None => u.len() == 0,
        },
        Ok(Payload::Mode(m)) if k == EventType::Mode => if m.change@ == "default"@ {
            u.len() == 1 && sets_flag(u[0], "binding_active"@, false)
        } else {
            u.len() == 2 && sets_text(u[0], "binding_mode"@, m.change@) && sets_flag(
                u[1],
                "binding_active"@,
                true,
            )
        },
        _ => u.len() == 0,
    }
}

/// Whether `o` is what a decoded event of kind `k` asks for.
pub open spec fn event_outcome(k: EventType, p: Result<Payload, serde_json::Error>, o: EventOutcome) -> bool {
    if k == EventType::Shutdown {
        o is Shutdown
    } else if k == EventType::Workspace {
        o == EventOutcome::Request(MessageType::GetWorkspaces)
    } else {
        o matches EventOutcome::Updates(u) && event_updates(k, p, u@)
    }
}

/// Acts on the decoded payload of an event of kind `kind`.
pub fn handle_event(kind: EventType, payload: Result<Payload, serde_json::Error>) -> (r: Result<
    EventOutcome,
    EventError,
>)
    requires
        fits(payload, spec_event_shape(kind)),
    ensures
        event_error(payload) matches Some(e) ==> r == Err::<EventOutcome, EventError>(e),
        event_error(payload) is None ==> (r matches Ok(o) && event_outcome(kind, payload, o)),
{
    match payload {
        Err(e) => Err(EventError::DeserializePayload(e)),
        Ok(Payload::Window(w)) => {
            let mut u: Vec<SinkUpdate> = Vec::new();
            match w.container.name {
                Some(n) => {
                    u.push(SinkUpdate { var: "active_window".to_owned(), value: SinkValue::Text(n) });
                },
                None => {},
            }
            Ok(EventOutcome::Updates(u))
        },
        Ok(Payload::Mode(m)) => {
            let mut u: Vec<SinkUpdate> = Vec::new();
            if same_text(m.change.as_str(), "default") {
                u.push(SinkUpdate { var: "binding_active".to_owned(), value: SinkValue::Flag(false) });
            } else {
                u.push(SinkUpdate { var: "binding_mode".to_owned(), value: SinkValue::Text(m.change) });
                u.push(SinkUpdate { var: "binding_active".to_owned(), value: SinkValue::Flag(true) });
            }
            Ok(EventOutcome::Updates(u))
        },
        Ok(_) => match kind {
            EventType::Shutdown => Ok(EventOutcome::Shutdown),
            EventType::Workspace => Ok(EventOutcome::Request(MessageType::GetWorkspaces)),
            _ => Ok(EventOutcome::Updates(Vec::new())),
        },
    }
}

/// Where the loop stands.
#[derive(Clone, Copy, Debug, PartialEq, Eq, Structural)]
pub enum Phase {
    /// The subscription request is out; its reply is awaited.
    Subscribing,
    /// Waiting for the next event.
    Listening,
    /// A request made while handling an event is out; its reply is awaited.
    Refreshing,
    /// The loop has ended.
    Finished,
}

/// The I/O that the loop asks for next.
#[derive(Debug)]
pub enum Next {
    /// Write `frame`, then read exactly one reply frame.
    Send { kind: MessageType, frame: Vec<u8> },
    /// Read the next event frame.
    ReadEvent,
    /// Stop, with this outcome.
    Finish(Result<(), EventLoopError>),
}

/// The result of one step: widget updates to perform in order, a failure to
/// report without stopping, and the next I/O.
#[derive(Debug)]
pub struct Step {
    pub updates: Vec<SinkUpdate>,
    pub warning: Option<EventError>,
    pub next: Next,
}

/// The subscribe-then-dispatch loop.
#[derive(Debug)]
pub struct EventLoop {
    pub phase: Phase,
}

/// Whether `n` asks to send a request of kind `k` with payload bytes `payload`.
pub open spec fn sends(n: Next, k: MessageType, payload: Seq<u8>) -> bool {
    n matches Next::Send { kind, frame } && kind == k && frame@ == frame_bytes(
        endianness(),
        k.spec_tag(),
        payload,
    )
}

/// The frame of a request of kind `kind` with payload `payload`.
pub fn request_frame(kind: MessageType, payload: &[u8]) -> (r: Vec<u8>)
    requires
        payload@.len() <= u32::MAX,
    ensures
        r@ == frame_bytes(endianness(), kind.spec_tag(), payload@),
{
    encode_frame(kind.tag(), payload)
}

/// The kind of request whose reply a loop in phase `p` awaits: the
/// subscription, or else the workspace listing.
pub open spec fn awaited_kind(p: Phase) -> MessageType {
    if p == Phase::Subscribing {
        MessageType::Subscribe
    } else {
        MessageType::GetWorkspaces
    }
}

impl EventLoop {
    /// Starts the loop: subscribe to the events named by `events`, a JSON list.
    pub fn start(events: &str) -> (r: (EventLoop, Next))
        requires
            events.spec_bytes().len() <= u32::MAX,
        ensures
            r.0.phase == Phase::Subscribing,
            sends(r.1, MessageType::Subscribe, events.spec_bytes()),
    {
        let frame = request_frame(MessageType::Subscribe, events.as_bytes());
        (EventLoop { phase: Phase::Subscribing }, Next::Send { kind: MessageType::Subscribe, frame })
    }

    /// The kind of the request whose reply is awaited.
    pub fn awaited(&self) -> (r: MessageType)
        requires
            self.phase == Phase::Subscribing || self.phase == Phase::Refreshing,
        ensures
            r == awaited_kind(self.phase),
    {
        if self.phase == Phase::Subscribing {
            MessageType::Subscribe
        } else {
            MessageType::GetWorkspaces
        }
    }

    /// Takes the outcome of a request: its reply's payload, decoded in the
    /// shape of the request that was sent, or the failure to send it or read
    /// its reply. The reply is read as an answer to that request, whatever
    /// tag it carries.
    pub fn on_reply(&mut self, reply: Result<Result<Payload, serde_json::Error>, RequestError>) -> (r: Step)
        requires
            old(self).phase == Phase::Subscribing || old(self).phase == Phase::Refreshing,
            reply matches Ok(p) ==> fits(p, spec_reply_shape(awaited_kind(old(self).phase))),
        ensures
            ({
                let err = match reply {
                    Err(e) => Some(e),
                    Ok(p) => response_error(p),
                };
                match err {
                    Some(e) => if old(self).phase == Phase::Subscribing {
                        &&& final(self).phase == Phase::Finished
                        &&& r.next == Next::Finish(Err(EventLoopError::Subscription(e)))
                        &&& r.updates@.len() == 0
                        &&& r.warning is None
                    } else {
                        &&& final(self).phase == Phase::Listening
                        &&& r.next is ReadEvent
                        &&& r.updates@.len() == 0
                        &&& r.warning == Some(EventError::Request(e))
                    },
                    None => {
                        &&& final(self).phase == Phase::Listening
                        &&& r.next is ReadEvent
                        &&& r.warning is None
                        &&& reply matches Ok(p) && response_updates(p, r.updates@)
                    },
                }
            }),
    {
        let subscribing = self.phase == Phase::Subscribing;
        let outcome = match reply {
            Err(e) => Err(e),
            Ok(payload) => handle_response(self.awaited(), payload),
        };
        match outcome {
            Ok(updates) => {
                self.phase = Phase::Listening;
                Step { updates, warning: None, next: Next::ReadEvent }
            },
            Err(e) => {
                if subscribing {
                    self.phase = Phase::Finished;
                    Step {
                        updates: Vec::new(),
                        warning: None,
                        next: Next::Finish(Err(EventLoopError::Subscription(e))),
                    }
                } else {
                    self.phase = Phase::Listening;
                    Step { updates: Vec::new(), warning: Some(EventError::Request(e)), next: Next::ReadEvent }
                }
            },
        }
    }

    /// Takes the outcome of reading an event: its kind and decoded payload, or
    /// the failure to read its frame.
    pub fn on_event(
        &mut self,
        event: Result<(EventType, Result<Payload, serde_json::Error>), crate::error::ResponseDeserializeError>,
    ) -> (r: Step)
        requires
            old(self).phase == Phase::Listening,
            event matches Ok((k, p)) ==> fits(p, spec_event_shape(k)),
        ensures
            event matches Err(e) ==> {
                &&& final(self).phase == Phase::Finished
                &&& r.next == Next::Finish(Err(EventLoopError::Read(e)))
                &&& r.updates@.len() == 0
                &&& r.warning is None
            },
            event matches Ok((k, p)) ==> match event_error(p) {
                Some(e) => {
                    &&& final(self).phase == Phase::Listening
                    &&& r.next is ReadEvent
                    &&& r.updates@.len() == 0
                    &&& r.warning == Some(e)
                },
                None => if k == EventType::Shutdown {
                    &&& final(self).phase == Phase::Finished
                    &&& r.next == Next::Finish(Ok(()))
                    &&& r.updates@.len() == 0
                    &&& r.warning is None
                } else if k == EventType::Workspace {
                    &&& final(self).phase == Phase::Refreshing
                    &&& sends(r.next, MessageType::GetWorkspaces, Seq::empty())
                    &&& r.updates@.len() == 0
                    &&& r.warning is None
                } else {
                    &&& final(self).phase == Phase::Listening
                    &&& r.next is ReadEvent
                    &&& r.warning is None
                    &&& event_updates(k, p, r.updates@)
                },
            },
    {
        match event {
            Err(e) => {
                self.phase = Phase::Finished;
                Step { updates: Vec::new(), warning: None, next: Next::Finish(Err(EventLoopError::Read(e))) }
            },
            Ok((kind, payload)) => match handle_event(kind, payload) {
                Err(e) => Step { updates: Vec::new(), warning: Some(e), next: Next::ReadEvent },
                Ok(EventOutcome::Shutdown) => {
                    self.phase = Phase::Finished;
                    Step { updates: Vec::new(), warning: None, next: Next::Finish(Ok(())) }
                },
                Ok(EventOutcome::Request(k)) => {
                    let empty: Vec<u8> = Vec::new();
                    let frame = request_frame(k, empty.as_slice());
                    self.phase = Phase::Refreshing;
                    Step { updates: Vec::new(), warning: None, next: Next::Send { kind: k, frame } }
                },
                Ok(EventOutcome::Updates(updates)) => Step { updates, warning: None, next: Next::ReadEvent },
            },
        }
    }
}

} // verus!
