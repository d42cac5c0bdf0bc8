//! Handles: the cloneable, shareable references applications hold.
//!
//! A handle is lightweight and `Copy`; cloning never duplicates identity.
//! Clones carry the same metadata index, so they share liveness, user data
//! and dispatcher, and compare equal while the object lives.  Two handles
//! obtained independently always carry distinct indices (the store is
//! append-only), so they never compare equal even when their interface
//! agrees.  A dead handle equals nothing, including another handle to what
//! was the same object: liveness is part of identity by design.

use vstd::prelude::*;

use crate::connection::metas_monotone;
use crate::connection::ConnectionState;
use crate::dispatcher::Dispatcher;
use crate::map::Object;
use crate::map::SERVER_ID_LIMIT;
use crate::message::Request;
use crate::meta::ObjectMeta;

verus! {

/// A live (implemented) handle to one protocol object.
#[derive(Clone, Copy, Debug)]
pub struct ProxyInner {
    /// The object id this handle was created for.
    pub id: u32,
    /// Identity of the connection this handle belongs to.
    pub conn_id: u32,
    /// The protocol interface tag, fixed at creation.
    pub interface: u64,
    /// The negotiated protocol version, fixed at creation.
    pub version: u32,
    /// The queue this handle routes through; a wrapper may differ here from
    /// the object's own metadata without affecting identity or liveness.
    pub queue: u32,
    /// Index of the object's shared metadata block in the connection state.
    pub meta: usize,
}

impl ProxyInner {
    /// The handle's metadata index points into the connection's store.
    pub open spec fn valid(self, conn: ConnectionState) -> bool {
        self.meta < conn.metas@.len()
    }

    /// Whether the object this handle names is still alive.
    pub open spec fn spec_alive(self, conn: ConnectionState) -> bool {
        conn.metas@[self.meta as int].alive
    }

    /// The user-data slot shared by every clone of this handle.
    pub open spec fn spec_user_data(self, conn: ConnectionState) -> usize {
        conn.metas@[self.meta as int].user_data
    }

    /// The id this handle reports: its object's id while alive, the
    /// reserved id 0 once dead, so a recycled id value is never leaked
    /// through a stale handle.
    pub open spec fn spec_id(self, conn: ConnectionState) -> u32 {
        if self.spec_alive(conn) {
            self.id
        } else {
            0
        }
    }

    /// Identity: two handles are equal exactly when this one is alive and
    /// both refer to the same metadata block.  Structural likeness never
    /// suffices, and a destroyed object is no longer "the same object".
    pub open spec fn spec_equals(self, other: ProxyInner, conn: ConnectionState) -> bool {
        self.spec_alive(conn) && self.meta == other.meta
    }

    /// Whether the implementation identified by `impl_tag` is the one most
    /// recently installed on this handle's object.
    pub open spec fn spec_implemented_with(self, conn: ConnectionState, impl_tag: u64) -> bool {
        conn.metas@[self.meta as int].dispatcher.spec_is(impl_tag)
    }

    /// Wrap the record registered under `id`, if there is one.
    pub fn from_id(id: u32, conn: &ConnectionState) -> (r: Option<ProxyInner>)
        requires
            conn.wf(),
        ensures
            r is Some <==> conn.map.spec_find(id) is Some,
            r is Some ==> r.unwrap() == (ProxyInner {
                id,
                conn_id: conn.conn_id,
                interface: conn.map.spec_find(id).unwrap().interface,
                version: conn.map.spec_find(id).unwrap().version,
                queue: conn.metas@[conn.map.spec_find(id).unwrap().meta as int].queue,
                meta: conn.map.spec_find(id).unwrap().meta,
            }),
            r is Some ==> r.unwrap().valid(*conn),
    {
        match conn.map.find(id) {
            None => None,
            Some(obj) => Some(
                ProxyInner {
                    id,
                    conn_id: conn.conn_id,
                    interface: obj.interface,
                    version: obj.version,
                    queue: conn.metas[obj.meta].queue,
                    meta: obj.meta,
                },
            ),
        }
    }

    /// Whether this handle's object has the interface tagged `interface`.
    pub fn is_interface(&self, interface: u64) -> (r: bool)
        ensures
            r == (self.interface == interface),
    {
        self.interface == interface
    }

    /// Liveness query; on the hot path of every send.
    pub fn is_alive(&self, conn: &ConnectionState) -> (r: bool)
        requires
            self.valid(*conn),
        ensures
            r == self.spec_alive(*conn),
    {
        conn.metas[self.meta].alive
    }

    /// The negotiated protocol version, immutable since construction.
    pub fn version(&self) -> (r: u32)
        ensures
            r == self.version,
    {
        self.version
    }

    /// The object id, or the reserved id 0 once the object is dead.
    pub fn id(&self, conn: &ConnectionState) -> (r: u32)
        requires
            self.valid(*conn),
        ensures
            r == self.spec_id(*conn),
    {
        if self.is_alive(conn) {
            self.id
        } else {
            0
        }
    }

    /// Store an opaque application payload in the object's shared slot.  The
    /// write is immediately visible through every clone of this handle.
    pub fn set_user_data(&self, conn: &mut ConnectionState, data: usize)
        requires
            self.valid(*old(conn)),
        ensures
            final(conn).metas@ == old(conn).metas@.update(
                self.meta as int,
                old(conn).metas@[self.meta as int].with_user_data(data),
            ),
            final(conn).map == old(conn).map,
            final(conn).connection == old(conn).connection,
            final(conn).conn_id == old(conn).conn_id,
            old(conn).wf() ==> final(conn).wf(),
            metas_monotone(old(conn).metas@, final(conn).metas@),
    {
        let m = conn.metas[self.meta];
        conn.metas[self.meta] = ObjectMeta {
            queue: m.queue,
            alive: m.alive,
            user_data: data,
            dispatcher: m.dispatcher,
            server_destroyed: m.server_destroyed,
            client_destroyed: m.client_destroyed,
        };
    }

    /// Read the object's shared user-data slot.
    pub fn get_user_data(&self, conn: &ConnectionState) -> (r: usize)
        requires
            self.valid(*conn),
        ensures
            r == self.spec_user_data(*conn),
    {
        conn.metas[self.meta].user_data
    }

    /// Send `msg` on behalf of this handle's object.
    ///
    /// Exclusive access to the whole connection state models the
    /// connection-wide write lock, taken before the liveness check so that
    /// no other message for this id can reach the wire after a destructor.
    /// Sending on a dead handle is silently ignored, not an error:
    /// destruction races are expected protocol behaviour.  If the message is
    /// a destructor, the local-destroy transition runs under the same
    /// exclusive access: the object dies, the local-role flag is set, and if
    /// the remote role had already destroyed the object its record is
    /// reclaimed.
    pub fn send(&self, conn: &mut ConnectionState, msg: Request)
        requires
            old(conn).wf(),
            self.valid(*old(conn)),
        ensures
            final(conn).wf(),
            final(conn).conn_id == old(conn).conn_id,
            final(conn).metas@.len() == old(conn).metas@.len(),
            metas_monotone(old(conn).metas@, final(conn).metas@),
            !self.spec_alive(*old(conn)) ==> *final(conn) == *old(conn),
            self.spec_alive(*old(conn)) ==> final(conn).connection.log@ == old(
                conn,
            ).connection.log@.push(msg.spec_raw(self.id)),
            self.spec_alive(*old(conn)) && !msg.destructor ==> final(conn).metas@ == old(
                conn,
            ).metas@ && final(conn).map == old(conn).map,
            self.spec_alive(*old(conn)) && msg.destructor ==> final(conn).metas@ == old(
                conn,
            ).metas@.update(
                self.meta as int,
                old(conn).metas@[self.meta as int].locally_destroyed(),
            ),
            self.spec_alive(*old(conn)) && msg.destructor && old(
                conn,
            ).metas@[self.meta as int].server_destroyed ==> final(conn).map.spec_find(self.id)
                is None,
            self.spec_alive(*old(conn)) && msg.destructor && !old(
                conn,
            ).metas@[self.meta as int].server_destroyed ==> final(conn).map == old(conn).map,
            msg.destructor ==> forall|j: u32|
                j != self.id ==> final(conn).map.spec_find(j) == old(conn).map.spec_find(j),
            final(conn).map.client_objects@.len() == old(conn).map.client_objects@.len(),
            final(conn).map.server_objects@.len() == old(conn).map.server_objects@.len(),
    {
        if !self.is_alive(conn) {
            return ;
        }
        let destructor = msg.is_destructor();
        let raw = msg.into_raw(self.id);
        let _ = conn.connection.write_message(raw);
        if destructor {
            let m = conn.metas[self.meta];
            conn.metas[self.meta] = ObjectMeta {
                queue: m.queue,
                alive: false,
                user_data: m.user_data,
                dispatcher: m.dispatcher,
                server_destroyed: m.server_destroyed,
                client_destroyed: true,
            };
            if m.server_destroyed {
                self.cleanup_map(conn);
            }
        }
    }

    /// Reclaim this object's record once both destroy flags are set.
    fn cleanup_map(&self, conn: &mut ConnectionState)
        requires
            old(conn).wf(),
        ensures
            final(conn).wf(),
            final(conn).map.spec_find(self.id) is None,
            forall|j: u32|
                j != self.id ==> final(conn).map.spec_find(j) == old(conn).map.spec_find(j),
            final(conn).metas == old(conn).metas,
            final(conn).connection == old(conn).connection,
            final(conn).conn_id == old(conn).conn_id,
            final(conn).map.client_objects@.len() == old(conn).map.client_objects@.len(),
            final(conn).map.server_objects@.len() == old(conn).map.server_objects@.len(),
    {
        conn.map.remove(self.id);
        proof {
            assert forall|j: u32| (#[trigger] conn.map.spec_find(j)) is Some implies conn
                .map
                .spec_find(j)
                .unwrap()
                .meta < conn.metas@.len() by {
                assert(conn.map.spec_find(j) == old(conn).map.spec_find(j));
            }
        }
    }

    /// Identity comparison: never structural, and a dead handle equals
    /// nothing — not even another handle to what was the same object.
    pub fn equals(&self, conn: &ConnectionState, other: &ProxyInner) -> (r: bool)
        requires
            self.valid(*conn),
        ensures
            r == self.spec_equals(*other, *conn),
    {
        self.is_alive(conn) && self.meta == other.meta
    }

    /// Whether the two handles belong to the same connection (hence to the
    /// same client), whatever object each names.
    pub fn same_client_as(&self, other: &ProxyInner) -> (r: bool)
        ensures
            r == (self.conn_id == other.conn_id),
    {
        self.conn_id == other.conn_id
    }

    /// A clone of this handle whose future incoming events are routed to
    /// `queue`.  Identity, liveness and user data are untouched: the wrapper
    /// shares this handle's metadata block.
    pub fn make_wrapper(&self, queue: u32) -> (r: Result<ProxyInner, ()>)
        ensures
            r is Ok,
            r.unwrap() == (ProxyInner { queue, ..*self }),
    {
        Ok(
            ProxyInner {
                id: self.id,
                conn_id: self.conn_id,
                interface: self.interface,
                version: self.version,
                queue,
                meta: self.meta,
            },
        )
    }

    /// Dispatcher introspection: true exactly when the implementation
    /// identified by `impl_tag` is the one most recently installed.
    pub fn is_implemented_with(&self, conn: &ConnectionState, impl_tag: u64) -> (r: bool)
        requires
            self.valid(*conn),
        ensures
            r == self.spec_implemented_with(*conn, impl_tag),
    {
        conn.metas[self.meta].dispatcher.is(impl_tag)
    }

    /// Create a child object of this handle's version; see `child_versioned`.
    pub fn child(&self, conn: &mut ConnectionState, interface: u64) -> (r: NewProxyInner)
        requires
            old(conn).wf(),
            self.valid(*old(conn)),
            old(conn).map.client_objects@.len() < SERVER_ID_LIMIT - 1,
        ensures
            final(conn).wf(),
            1 <= r.id < SERVER_ID_LIMIT,
            old(conn).map.spec_find(r.id) is None,
            final(conn).metas@ == old(conn).metas@.push(
                old(conn).metas@[self.meta as int].spec_child(),
            ),
            final(conn).map.spec_find(r.id) == Some(
                Object { interface, version: self.version, meta: old(conn).metas@.len() as usize },
            ),
            forall|j: u32| j != r.id ==> final(conn).map.spec_find(j) == old(conn).map.spec_find(j),
            final(conn).connection == old(conn).connection,
            final(conn).conn_id == old(conn).conn_id,
            metas_monotone(old(conn).metas@, final(conn).metas@),
            final(conn).map.client_objects@.len() <= old(conn).map.client_objects@.len() + 1,
            final(conn).map.server_objects@.len() == old(conn).map.server_objects@.len(),
    {
        self.child_versioned(conn, interface, self.version)
    }

    /// Allocate a fresh client-role id for a new, not yet implemented child
    /// object.  The child derives its metadata from this handle's block
    /// (same queue, so it inherits routing; everything else fresh) and must
    /// still be implemented before use.
    pub fn child_versioned(&self, conn: &mut ConnectionState, interface: u64, version: u32) -> (r:
        NewProxyInner)
        requires
            old(conn).wf(),
            self.valid(*old(conn)),
            old(conn).map.client_objects@.len() < SERVER_ID_LIMIT - 1,
        ensures
            final(conn).wf(),
            1 <= r.id < SERVER_ID_LIMIT,
            old(conn).map.spec_find(r.id) is None,
            final(conn).metas@ == old(conn).metas@.push(
                old(conn).metas@[self.meta as int].spec_child(),
            ),
            final(conn).map.spec_find(r.id) == Some(
                Object { interface, version, meta: old(conn).metas@.len() as usize },
            ),
            forall|j: u32| j != r.id ==> final(conn).map.spec_find(j) == old(conn).map.spec_find(j),
            final(conn).connection == old(conn).connection,
            final(conn).conn_id == old(conn).conn_id,
            metas_monotone(old(conn).metas@, final(conn).metas@),
            final(conn).map.client_objects@.len() <= old(conn).map.client_objects@.len() + 1,
            final(conn).map.server_objects@.len() == old(conn).map.server_objects@.len(),
    {
        let parent = conn.metas[self.meta];
        let idx: usize = conn.metas.len();
        conn.metas.push(parent.child());
        let new_id = conn.map.client_insert_new(Object { interface, version, meta: idx });
        proof {
            assert forall|j: u32| (#[trigger] conn.map.spec_find(j)) is Some implies conn
                .map
                .spec_find(j)
                .unwrap()
                .meta < conn.metas@.len() by {
                if j != new_id {
                    assert(conn.map.spec_find(j) == old(conn).map.spec_find(j));
                }
            }
        }
        NewProxyInner { id: new_id }
    }
}

/// A freshly created object handle that has no implementation yet.  It
/// becomes a live [`ProxyInner`] once a dispatcher is attached via
/// `implement`.
#[derive(Clone, Copy, Debug)]
pub struct NewProxyInner {
    /// The object id this handle was created for.
    pub id: u32,
}

impl NewProxyInner {
    /// Wrap the id `id` if a record is registered under it.
    pub fn from_id(id: u32, conn: &ConnectionState) -> (r: Option<NewProxyInner>)
        ensures
            r is Some <==> conn.map.spec_find(id) is Some,
            r is Some ==> r.unwrap().id == id,
    {
        if conn.map.find(id).is_some() {
            Some(NewProxyInner { id })
        } else {
            None
        }
    }

    /// Route this object's future incoming events to `queue`.  Callers must
    /// do this before the first event for the object can arrive; afterwards
    /// an event may already sit in the old queue.  An id with no record is
    /// ignored.
    pub fn assign_queue(&self, conn: &mut ConnectionState, queue: u32)
        requires
            old(conn).wf(),
        ensures
            final(conn).wf(),
            final(conn).conn_id == old(conn).conn_id,
            final(conn).connection == old(conn).connection,
            final(conn).map == old(conn).map,
            metas_monotone(old(conn).metas@, final(conn).metas@),
            old(conn).map.spec_find(self.id) is None ==> *final(conn) == *old(conn),
            old(conn).map.spec_find(self.id) is Some ==> final(conn).metas@ == old(
                conn,
            ).metas@.update(
                old(conn).map.spec_find(self.id).unwrap().meta as int,
                old(conn).metas@[old(conn).map.spec_find(self.id).unwrap().meta as int].with_queue(
                    queue,
                ),
            ),
    {
        let rec = conn.map.find(self.id);
        match rec {
            None => {},
            Some(obj) => {
                let m = conn.metas[obj.meta];
                conn.metas[obj.meta] = ObjectMeta {
                    queue,
                    alive: m.alive,
                    user_data: m.user_data,
                    dispatcher: m.dispatcher,
                    server_destroyed: m.server_destroyed,
                    client_destroyed: m.client_destroyed,
                };
            },
        }
    }

    /// Install the implementation identified by `impl_tag` on this object
    /// and return the live handle.
    ///
    /// If the id has meanwhile vanished from the map — a destructor raced
    /// the implementation, which is a legitimate outcome, not a failure —
    /// the returned handle wraps a fresh, already-dead metadata block with
    /// interface `interface` and version 1, and reports itself dead rather
    /// than failing the call.
    pub fn implement(self, conn: &mut ConnectionState, interface: u64, impl_tag: u64) -> (r:
        ProxyInner)
        requires
            old(conn).wf(),
        ensures
            final(conn).wf(),
            final(conn).conn_id == old(conn).conn_id,
            final(conn).connection == old(conn).connection,
            final(conn).map == old(conn).map,
            metas_monotone(old(conn).metas@, final(conn).metas@),
            r.valid(*final(conn)),
            r.id == self.id,
            r.conn_id == old(conn).conn_id,
            old(conn).map.spec_find(self.id) is Some ==> ({
                let obj = old(conn).map.spec_find(self.id).unwrap();
                &&& final(conn).metas@ == old(conn).metas@.update(
                    obj.meta as int,
                    old(conn).metas@[obj.meta as int].with_dispatcher(
                        Dispatcher::Implemented { tag: impl_tag },
                    ),
                )
                &&& r.meta == obj.meta
                &&& r.interface == obj.interface
                &&& r.version == obj.version
                &&& r.queue == old(conn).metas@[obj.meta as int].queue
                &&& r.spec_implemented_with(*final(conn), impl_tag)
                &&& r.spec_alive(*final(conn)) == old(conn).metas@[obj.meta as int].alive
            }),
            old(conn).map.spec_find(self.id) is None ==> ({
                &&& final(conn).metas@ == old(conn).metas@.push(ObjectMeta::spec_dead())
                &&& r.meta == old(conn).metas@.len()
                &&& r.interface == interface
                &&& r.version == 1
                &&& r.queue == 0
                &&& !r.spec_alive(*final(conn))
                &&& !r.spec_implemented_with(*final(conn), impl_tag)
            }),
    {
        let rec = conn.map.find(self.id);
        match rec {
            Some(obj) => {
                let m = conn.metas[obj.meta];
                conn.metas[obj.meta] = ObjectMeta {
                    queue: m.queue,
                    alive: m.alive,
                    user_data: m.user_data,
                    dispatcher: Dispatcher::Implemented { tag: impl_tag },
                    server_destroyed: m.server_destroyed,
                    client_destroyed: m.client_destroyed,
                };
                ProxyInner {
                    id: self.id,
                    conn_id: conn.conn_id,
                    interface: obj.interface,
                    version: obj.version,
                    queue: m.queue,
                    meta: obj.meta,
                }
            },
            None => {
                // The object was created and destroyed before it could be
                // implemented; hand back a dummy that is already dead.
                let idx: usize = conn.metas.len();
                conn.metas.push(ObjectMeta::dead());
                proof {
                    assert forall|j: u32| (#[trigger] conn.map.spec_find(j)) is Some implies conn
                        .map
                        .spec_find(j)
                        .unwrap()
                        .meta < conn.metas@.len() by {
                        assert(conn.map.spec_find(j) == old(conn).map.spec_find(j));
                    }
                }
                ProxyInner {
                    id: self.id,
                    conn_id: conn.conn_id,
                    interface,
                    version: 1,
                    queue: 0,
                    meta: idx,
                }
            },
        }
    }
}

} // verus!
