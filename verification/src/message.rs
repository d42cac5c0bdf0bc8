//! The minimal shape of a message as this core sees it.
//!
//! Byte-level encoding and the per-protocol opcode tables are out of scope;
//! the lifecycle core only needs to know a message's opcode and whether
//! sending it destroys its target object.

use vstd::prelude::*;

verus! {

/// A framed message as it is handed to the transport: the sending object's
/// id, the opcode, and whether this message is a destructor for its sender.
#[derive(Clone, Copy, PartialEq, Eq, Structural, Debug)]
pub struct RawMessage {
    pub sender_id: u32,
    pub opcode: u16,
    pub destructor: bool,
}

/// An outgoing request, before it is stamped with its sender's id.
#[derive(Clone, Copy, PartialEq, Eq, Structural, Debug)]
pub struct Request {
    pub opcode: u16,
    pub destructor: bool,
}

impl Request {
    /// Whether sending this message destroys its target object.  A
    /// destructor must be the last message addressing that object's id.
    pub fn is_destructor(&self) -> (r: bool)
        ensures
            r == self.destructor,
    {
        self.destructor
    }

    /// The framed form of this request when sent by object `sender_id`.
    pub open spec fn spec_raw(self, sender_id: u32) -> RawMessage {
        RawMessage { sender_id, opcode: self.opcode, destructor: self.destructor }
    }

    /// Frame the request for the wire, stamping it with its sender's id.
    pub fn into_raw(self, sender_id: u32) -> (r: RawMessage)
        ensures
            r == self.spec_raw(sender_id),
    {
        RawMessage { sender_id, opcode: self.opcode, destructor: self.destructor }
    }
}

} // verus!
