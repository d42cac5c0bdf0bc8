//! One peer's whole view of the connection.
//!
//! `ConnectionState` gathers the object map, the metadata store, and the
//! outgoing half of the transport.  Exclusive (`&mut`) access to it models
//! the connection-wide write lock: a send re-checks liveness and mutates the
//! destroy flags under that exclusive access, so no message for an id can be
//! written after that id's destructor.
//!
//! The metadata store is append-only: blocks are never removed, only their
//! contents change, just as a shared allocation outlives the table that
//! first handed it out.  An object that has died never comes back to life;
//! [`metas_monotone`] captures both facts and every mutating operation of
//! the state guarantees it.

use vstd::prelude::*;

use crate::map::Object;
use crate::map::ObjectMap;
use crate::map::SERVER_ID_LIMIT;
use crate::message::RawMessage;
use crate::meta::ObjectMeta;

verus! {

/// The outgoing half of the transport.  The socket itself is out of scope;
/// the model records exactly what was handed to it, in order, so contracts
/// can speak about what reaches the wire.
pub struct Connection {
    pub log: Vec<RawMessage>,
}

impl Connection {
    /// A connection on which nothing has been sent yet.
    pub fn new() -> (r: Connection)
        ensures
            r.log@ == Seq::<RawMessage>::empty(),
    {
        Connection { log: Vec::new() }
    }

    /// Write one framed message to the wire.
    pub fn write_message(&mut self, msg: RawMessage) -> (r: Result<(), ()>)
        ensures
            r is Ok,
            final(self).log@ == old(self).log@.push(msg),
    {
        self.log.push(msg);
        Ok(())
    }
}

/// Metadata blocks are only ever appended, and a block whose object has died
/// never reports it live again.  Every mutating operation on a
/// [`ConnectionState`] preserves this relation between the old and the new
/// metadata store, so a stale handle can never observe a recycled id as the
/// object it used to name.
pub open spec fn metas_monotone(pre: Seq<ObjectMeta>, post: Seq<ObjectMeta>) -> bool {
    &&& pre.len() <= post.len()
    &&& forall|i: int| 0 <= i < pre.len() && !pre[i].alive ==> !post[i].alive
}

/// Everything one peer knows about the connection's objects.
pub struct ConnectionState {
    /// Identifies the connection (hence the client) this state belongs to.
    pub conn_id: u32,
    /// Table from object id to record; reclaimed once both destroy flags set.
    pub map: ObjectMap,
    /// The metadata store: one shared block per object ever created.
    pub metas: Vec<ObjectMeta>,
    /// The outgoing half of the transport.
    pub connection: Connection,
}

impl ConnectionState {
    /// Every record of the map points into the metadata store.
    pub open spec fn wf(self) -> bool {
        forall|id: u32|
            (#[trigger] self.map.spec_find(id)) is Some ==> self.map.spec_find(id).unwrap().meta
                < self.metas@.len()
    }

    /// A fresh connection with no objects.
    pub fn new(conn_id: u32) -> (r: ConnectionState)
        ensures
            r.wf(),
            r.conn_id == conn_id,
            r.metas@ == Seq::<ObjectMeta>::empty(),
            r.connection.log@ == Seq::<RawMessage>::empty(),
            r.map.client_objects@.len() == 0,
            r.map.server_objects@.len() == 0,
            forall|id: u32| #[trigger] r.map.spec_find(id) is None,
    {
        ConnectionState {
            conn_id,
            map: ObjectMap::new(),
            metas: Vec::new(),
            connection: Connection::new(),
        }
    }

    /// The remote peer announced a fresh object under the id it chose:
    /// allocate a new metadata block (live, no user data, unimplemented) and
    /// register the record.  Id 0 is reserved and refused.
    pub fn create_object_at(&mut self, id: u32, interface: u64, version: u32, queue: u32) -> (r:
        Result<(), ()>)
        requires
            old(self).wf(),
        ensures
            final(self).wf(),
            final(self).conn_id == old(self).conn_id,
            final(self).connection == old(self).connection,
            metas_monotone(old(self).metas@, final(self).metas@),
            r is Err <==> id == 0,
            id == 0 ==> *final(self) == *old(self),
            id != 0 ==> final(self).metas@ == old(self).metas@.push(ObjectMeta::spec_new(queue)),
            id != 0 ==> final(self).map.spec_find(id) is Some,
            id != 0 ==> (final(self).map.spec_find(id).unwrap() == (Object {
                interface,
                version,
                meta: final(self).map.spec_find(id).unwrap().meta,
            }) && final(self).map.spec_find(id).unwrap().meta == old(self).metas@.len()),
            forall|j: u32| j != id ==> final(self).map.spec_find(j) == old(self).map.spec_find(j),
            final(self).map.client_objects@.len() == (if 0 < id < SERVER_ID_LIMIT && id > old(
                self,
            ).map.client_objects@.len() {
                id as int
            } else {
                old(self).map.client_objects@.len() as int
            }),
            final(self).map.server_objects@.len() == (if id >= SERVER_ID_LIMIT && id
                - SERVER_ID_LIMIT + 1 > old(self).map.server_objects@.len() {
                id - SERVER_ID_LIMIT + 1
            } else {
                old(self).map.server_objects@.len() as int
            }),
    {
        if id == 0 {
            return Err(());
        }
        let idx: usize = self.metas.len();
        self.metas.push(ObjectMeta::new(queue));
        let r = self.map.insert_at(id, Object { interface, version, meta: idx });
        proof {
            assert(r is Ok);
            assert forall|j: u32| (#[trigger] self.map.spec_find(j)) is Some implies self
                .map
                .spec_find(j)
                .unwrap()
                .meta < self.metas@.len() by {
                if j != id {
                    assert(self.map.spec_find(j) == old(self).map.spec_find(j));
                }
            }
        }
        Ok(())
    }

    /// The remote peer signalled destruction of `id`: the object is no
    /// longer alive and the remote-role flag is set; if the local role had
    /// already destroyed it, the handshake is complete and the record is
    /// reclaimed.  An id with no record is ignored.
    pub fn receive_destructor(&mut self, id: u32)
        requires
            old(self).wf(),
        ensures
            final(self).wf(),
            final(self).conn_id == old(self).conn_id,
            final(self).connection == old(self).connection,
            final(self).metas@.len() == old(self).metas@.len(),
            metas_monotone(old(self).metas@, final(self).metas@),
            old(self).map.spec_find(id) is None ==> *final(self) == *old(self),
            old(self).map.spec_find(id) is Some ==> final(self).metas@ == old(self).metas@.update(
                old(self).map.spec_find(id).unwrap().meta as int,
                old(self).metas@[old(self).map.spec_find(id).unwrap().meta as int].remotely_destroyed(),
            ),
            old(self).map.spec_find(id) is Some && old(self).metas@[old(self).map.spec_find(
                id,
            ).unwrap().meta as int].client_destroyed ==> final(self).map.spec_find(id) is None,
            old(self).map.spec_find(id) is Some && !old(self).metas@[old(self).map.spec_find(
                id,
            ).unwrap().meta as int].client_destroyed ==> final(self).map == old(self).map,
            forall|j: u32| j != id ==> final(self).map.spec_find(j) == old(self).map.spec_find(j),
            final(self).map.client_objects@.len() == old(self).map.client_objects@.len(),
            final(self).map.server_objects@.len() == old(self).map.server_objects@.len(),
    {
        let rec = self.map.find(id);
        match rec {
            None => {},
            Some(obj) => {
                let m = self.metas[obj.meta];
                self.metas[obj.meta] = ObjectMeta {
                    queue: m.queue,
                    alive: false,
                    user_data: m.user_data,
                    dispatcher: m.dispatcher,
                    server_destroyed: true,
                    client_destroyed: m.client_destroyed,
                };
                if m.client_destroyed {
                    self.map.remove(id);
                }
                proof {
                    assert forall|j: u32| (#[trigger] self.map.spec_find(j)) is Some implies self
                        .map
                        .spec_find(j)
                        .unwrap()
                        .meta < self.metas@.len() by {
                        if j != id {
                            assert(self.map.spec_find(j) == old(self).map.spec_find(j));
                        }
                    }
                }
            },
        }
    }
}

} // verus!
