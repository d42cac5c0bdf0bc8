//! The handler slot of one protocol object.
//!
//! "No implementation yet" is an explicit variant rather than a sentinel, so
//! an unimplemented object is a typed, testable condition.  An installed
//! implementation is identified by a runtime tag, which stands in for the
//! runtime type identity that callers use to ask "is this object driven by
//! implementation type T?" without downcasting into application logic.

use vstd::prelude::*;

verus! {

/// The dispatcher of one object: either still unimplemented, or holding the
/// implementation identified by `tag`.
#[derive(Clone, Copy, PartialEq, Eq, Structural, Debug)]
pub enum Dispatcher {
    /// No implementation has been attached yet; incoming messages for such an
    /// object are a protocol error unless it was intentionally left inert.
    Unimplemented,
    /// The implementation with identity `tag` handles this object's messages.
    Implemented { tag: u64 },
}

impl Dispatcher {
    /// Whether the installed implementation is the one identified by `tag`.
    pub open spec fn spec_is(self, tag: u64) -> bool {
        self == (Dispatcher::Implemented { tag })
    }

    /// Runtime introspection: true exactly when the implementation
    /// identified by `tag` is installed.
    pub fn is(&self, tag: u64) -> (r: bool)
        ensures
            r == self.spec_is(tag),
    {
        match *self {
            Dispatcher::Unimplemented => false,
            Dispatcher::Implemented { tag: installed } => installed == tag,
        }
    }
}

/// The dispatcher every object starts with, before `implement` attaches one.
pub fn default_dispatcher() -> (r: Dispatcher)
    ensures
        r == Dispatcher::Unimplemented,
{
    Dispatcher::Unimplemented
}

} // verus!
