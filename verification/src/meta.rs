//! The shared, mutable state of one protocol object.
//!
//! One `ObjectMeta` block exists per object; every handle clone refers to it
//! by index into the connection's metadata store, so a write through any
//! clone is immediately visible through every other.  Liveness and the two
//! destroy-handshake flags live here: `alive` is false as soon as either
//! side has signalled destruction, while the object's map entry is reclaimed
//! only once both `client_destroyed` and `server_destroyed` are set.

use vstd::prelude::*;

use crate::dispatcher::default_dispatcher;
use crate::dispatcher::Dispatcher;

verus! {

/// The destroy handshake of one object, read off its two flags as the
/// four-state machine those flags implement.  Destruction is negotiated
/// between two independent peers, so the handshake only ever moves forward:
/// from `Live` through one of the one-sided states to `Gone`, and the map
/// entry is reclaimed exactly on the transitions that reach `Gone`.
#[derive(Clone, Copy, PartialEq, Eq, Structural, Debug)]
pub enum HandshakeState {
    /// Neither side has destroyed the object.
    Live,
    /// Only the local role has destroyed it; the peer may still name the id.
    LocalOnly,
    /// Only the remote role has destroyed it; the local side may still send
    /// its own destructor (which will be a silent no-op, the object is dead).
    RemoteOnly,
    /// Both sides are done: the id may be reclaimed and recycled.
    Gone,
}

/// The metadata block of one object.
#[derive(Clone, Copy, PartialEq, Eq, Structural, Debug)]
pub struct ObjectMeta {
    /// The event queue this object's incoming messages are routed to.
    pub queue: u32,
    /// True until a destructor is sent or received for this object.
    pub alive: bool,
    /// Opaque application payload, shared by all clones of a handle.
    pub user_data: usize,
    /// The handler for this object's incoming messages.
    pub dispatcher: Dispatcher,
    /// Destroy-handshake flag: the remote role has destroyed this object.
    pub server_destroyed: bool,
    /// Destroy-handshake flag: the local role has destroyed this object.
    pub client_destroyed: bool,
}

impl ObjectMeta {
    /// A fresh object's metadata: live, no user data, unimplemented, with
    /// neither side of the destroy handshake begun.
    pub open spec fn spec_new(queue: u32) -> ObjectMeta {
        ObjectMeta {
            queue,
            alive: true,
            user_data: 0,
            dispatcher: Dispatcher::Unimplemented,
            server_destroyed: false,
            client_destroyed: false,
        }
    }

    /// Metadata for an object that was never live: both handshake flags set,
    /// so it can never be mistaken for one awaiting destruction.  Used for
    /// the dummy handle returned when an implementation races a destructor.
    pub open spec fn spec_dead() -> ObjectMeta {
        ObjectMeta {
            queue: 0,
            alive: false,
            user_data: 0,
            dispatcher: Dispatcher::Unimplemented,
            server_destroyed: true,
            client_destroyed: true,
        }
    }

    /// The metadata a child object derives from its parent: same queue (so
    /// newly introduced objects inherit routing), everything else fresh.
    pub open spec fn spec_child(self) -> ObjectMeta {
        ObjectMeta::spec_new(self.queue)
    }

    /// This block after the local role sent the object's destructor.
    pub open spec fn locally_destroyed(self) -> ObjectMeta {
        ObjectMeta { alive: false, client_destroyed: true, ..self }
    }

    /// This block after the remote role's destructor arrived.
    pub open spec fn remotely_destroyed(self) -> ObjectMeta {
        ObjectMeta { alive: false, server_destroyed: true, ..self }
    }

    /// Where this block stands in the destroy handshake.
    pub open spec fn handshake_state(self) -> HandshakeState {
        if self.client_destroyed && self.server_destroyed {
            HandshakeState::Gone
        } else if self.client_destroyed {
            HandshakeState::LocalOnly
        } else if self.server_destroyed {
            HandshakeState::RemoteOnly
        } else {
            HandshakeState::Live
        }
    }

    /// Report where this block stands in the destroy handshake.
    pub fn handshake(&self) -> (r: HandshakeState)
        ensures
            r == self.handshake_state(),
    {
        if self.client_destroyed && self.server_destroyed {
            HandshakeState::Gone
        } else if self.client_destroyed {
            HandshakeState::LocalOnly
        } else if self.server_destroyed {
            HandshakeState::RemoteOnly
        } else {
            HandshakeState::Live
        }
    }

    /// This block with its user-data slot overwritten.
    pub open spec fn with_user_data(self, user_data: usize) -> ObjectMeta {
        ObjectMeta { user_data, ..self }
    }

    /// This block with a new dispatcher installed.
    pub open spec fn with_dispatcher(self, dispatcher: Dispatcher) -> ObjectMeta {
        ObjectMeta { dispatcher, ..self }
    }

    /// This block rerouted to another event queue.
    pub open spec fn with_queue(self, queue: u32) -> ObjectMeta {
        ObjectMeta { queue, ..self }
    }

    /// Build a fresh object's metadata.
    pub fn new(queue: u32) -> (r: ObjectMeta)
        ensures
            r == ObjectMeta::spec_new(queue),
    {
        ObjectMeta {
            queue,
            alive: true,
            user_data: 0,
            dispatcher: default_dispatcher(),
            server_destroyed: false,
            client_destroyed: false,
        }
    }

    /// Build the metadata of an already-dead dummy object.
    pub fn dead() -> (r: ObjectMeta)
        ensures
            r == ObjectMeta::spec_dead(),
    {
        ObjectMeta {
            queue: 0,
            alive: false,
            user_data: 0,
            dispatcher: default_dispatcher(),
            server_destroyed: true,
            client_destroyed: true,
        }
    }

    /// Derive a child's metadata from this block.
    pub fn child(&self) -> (r: ObjectMeta)
        ensures
            r == self.spec_child(),
    {
        ObjectMeta::new(self.queue)
    }
}

} // verus!
