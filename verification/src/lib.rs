//! Object-identity and dispatch core of a display-server wire protocol.
//!
//! Every entity exchanged over the connection is a numeric object id that
//! both peers track, version, and eventually destroy.  This crate verifies
//! the hard part of that bookkeeping: the object map with its id recycling,
//! the shared per-object metadata (liveness, user data, dispatcher, and the
//! two destroy-handshake flags), and the handle abstraction through which
//! applications send messages and query identity.
//!
//! Shared mutable state is modeled sequentially: all of one peer's
//! connection state lives in a single [`connection::ConnectionState`] value,
//! and each handle records the index of its object's metadata block in that
//! state.  Two handles alias the same object exactly when their indices
//! agree, which is the sequential counterpart of pointer equality on a
//! shared allocation; a metadata block outlives its map entry, just as a
//! shared allocation outlives the table that first handed it out.

pub mod connection;
pub mod dispatcher;
pub mod laws;
pub mod map;
pub mod message;
pub mod meta;
pub mod proxy;
