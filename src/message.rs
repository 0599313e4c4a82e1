//! Request kinds and the replies that answer them.
use vstd::prelude::*;
use vstd::endian::endianness;
use crate::error::ResponseDeserializeError;
use crate::frame::{lossy_text, u32_bytes, u32_to_ne_bytes, utf8_lossy, RawHeader};

verus! {

/// The kinds of request, each with a fixed wire tag.
#[derive(Clone, Copy, Debug, PartialEq, Eq, Structural)]
pub enum MessageType {
    RunCommands,
    GetWorkspaces,
    Subscribe,
    GetOutputs,
    GetTree,
    GetMarks,
    GetBarConfig,
    GetVersion,
    GetBindingModes,
    GetConfig,
    SendTick,
    Sync,
    GetBindingState,
    GetInputs,
    GetSeats,
}

impl MessageType {
    /// The wire tag of this kind.
    pub open spec fn spec_tag(self) -> u32 {
        match self {
            MessageType::RunCommands => 0,
            MessageType::GetWorkspaces => 1,
            MessageType::Subscribe => 2,
            MessageType::GetOutputs => 3,
            MessageType::GetTree => 4,
            MessageType::GetMarks => 5,
            MessageType::GetBarConfig => 6,
            MessageType::GetVersion => 7,
            MessageType::GetBindingModes => 8,
            MessageType::GetConfig => 9,
            MessageType::SendTick => 10,
            MessageType::Sync => 11,
            MessageType::GetBindingState => 12,
            MessageType::GetInputs => 100,
            MessageType::GetSeats => 101,
        }
    }

    /// Whether `v` is the tag of some request kind.
    pub open spec fn is_tag(v: u32) -> bool {
        exists|k: MessageType| k.spec_tag() == v
    }

    /// The wire tag of this kind.
    pub fn tag(self) -> (r: u32)
        ensures
            r == self.spec_tag(),
    {
        match self {
            MessageType::RunCommands => 0,
            MessageType::GetWorkspaces => 1,
            MessageType::Subscribe => 2,
            MessageType::GetOutputs => 3,
            MessageType::GetTree => 4,
            MessageType::GetMarks => 5,
            MessageType::GetBarConfig => 6,
            MessageType::GetVersion => 7,
            MessageType::GetBindingModes => 8,
            MessageType::GetConfig => 9,
            MessageType::SendTick => 10,
            MessageType::Sync => 11,
            MessageType::GetBindingState => 12,
            MessageType::GetInputs => 100,
            MessageType::GetSeats => 101,
        }
    }

    /// The kind whose tag is `v`, if any.
    pub fn from_u32(v: u32) -> (r: Option<MessageType>)
        ensures
            r matches Some(k) ==> k.spec_tag() == v,
            r is None <==> !MessageType::is_tag(v),
    {
        let r = match v {
            0 => Some(MessageType::RunCommands),
            1 => Some(MessageType::GetWorkspaces),
            2 => Some(MessageType::Subscribe),
            3 => Some(MessageType::GetOutputs),
            4 => Some(MessageType::GetTree),
            5 => Some(MessageType::GetMarks),
            6 => Some(MessageType::GetBarConfig),
            7 => Some(MessageType::GetVersion),
            8 => Some(MessageType::GetBindingModes),
            9 => Some(MessageType::GetConfig),
            10 => Some(MessageType::SendTick),
            11 => Some(MessageType::Sync),
            12 => Some(MessageType::GetBindingState),
            100 => Some(MessageType::GetInputs),
            101 => Some(MessageType::GetSeats),
            _ => None,
        };
        proof {
            if r is None {
                assert forall|k: MessageType| k.spec_tag() != v by {
                    match k {
                        _ => {},
                    }
                }
            } else {
                assert(r->Some_0.spec_tag() == v);
            }
        }
        r
    }

    /// The tag in the host's byte order, as it stands in a frame header.
    pub fn as_bytes(self) -> (r: [u8; 4])
        ensures
            r@ == u32_bytes(endianness(), self.spec_tag()),
    {
        u32_to_ne_bytes(self.tag())
    }

    /// The bytes of `as_bytes`, in order.
    pub fn bytes(self) -> (r: Vec<u8>)
        ensures
            r@ == u32_bytes(endianness(), self.spec_tag()),
    {
        let b = self.as_bytes();
        let mut v: Vec<u8> = Vec::new();
        v.push(b[0]);
        v.push(b[1]);
        v.push(b[2]);
        v.push(b[3]);
        assert(v@ =~= b@);
        v
    }
}

/// A reply to a request: its kind and its payload as text.
#[derive(Clone, Debug)]
pub struct Message {
    pub message_type: MessageType,
    pub payload: String,
}

/// A reply header whose tag names a request kind.
#[derive(Clone, Copy, Debug, PartialEq, Eq, Structural)]
pub struct MessageHeader {
    pub message_type: MessageType,
    pub payload_len: u32,
}

impl Message {
    /// Interprets the tag of a checked header as a request kind.
    pub fn check_header(h: RawHeader) -> (r: Result<MessageHeader, ResponseDeserializeError>)
        ensures
            MessageType::is_tag(h.tag) ==> (r matches Ok(m) && m.message_type.spec_tag() == h.tag
                && m.payload_len == h.payload_len),
            !MessageType::is_tag(h.tag) ==> (r matches Err(
                ResponseDeserializeError::InvalidMessageType(t),
            ) && t == h.tag),
    {
        match MessageType::from_u32(h.tag) {
            Some(k) => Ok(MessageHeader { message_type: k, payload_len: h.payload_len }),
            None => Err(ResponseDeserializeError::InvalidMessageType(h.tag)),
        }
    }

    /// The reply of the given kind whose payload bytes are `payload`.
    pub fn from_payload(message_type: MessageType, payload: &[u8]) -> (r: Message)
        ensures
            r.message_type == message_type,
            r.payload@ == utf8_lossy(payload@),
    {
        Message { message_type, payload: lossy_text(payload) }
    }
}

} // verus!
