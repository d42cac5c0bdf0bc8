//! The object map: a process-local table from object id to object record.
//!
//! Ids are partitioned by allocating role so the two peers never collide
//! without coordination: ids `1 ..= SERVER_ID_LIMIT - 1` are allocated by
//! the client role, ids `SERVER_ID_LIMIT ..` by the server role.  Id 0 is
//! reserved and always invalid.  Freed client-role ids are recycled by
//! `client_insert_new`; the lifecycle layer guarantees an id is only freed
//! once both sides of the destroy handshake have completed.

use vstd::prelude::*;

verus! {

/// Ids below this bound are allocated by the client role, ids at or above
/// it by the server role.
pub const SERVER_ID_LIMIT: u32 = 0xFF00_0000;

/// One entry of the object map: the interface tag, the negotiated protocol
/// version (immutable after creation), and the index of the object's
/// metadata block in the connection's metadata store.
#[derive(Clone, Copy, PartialEq, Eq, Structural, Debug)]
pub struct Object {
    pub interface: u64,
    pub version: u32,
    pub meta: usize,
}

/// The table itself.  Slot `i` of `client_objects` holds the record of id
/// `i + 1`; slot `i` of `server_objects` holds id `SERVER_ID_LIMIT + i`.
/// A `None` slot is a freed id, available for recycling.
pub struct ObjectMap {
    pub client_objects: Vec<Option<Object>>,
    pub server_objects: Vec<Option<Object>>,
}

/// Grow `objects` with empty slots as needed, then register `object` in
/// slot `idx`.  Every other slot keeps its value; slots that did not exist
/// before are empty.
fn insert_in_at(objects: &mut Vec<Option<Object>>, idx: usize, object: Object)
    requires
        idx < SERVER_ID_LIMIT,
    ensures
        final(objects)@.len() == (if idx + 1 > old(objects)@.len() {
            idx + 1
        } else {
            old(objects)@.len() as int
        }),
        final(objects)@[idx as int] == Some(object),
        forall|k: int|
            0 <= k < final(objects)@.len() && k != idx ==> final(objects)@[k] == (if k < old(
                objects,
            )@.len() {
                old(objects)@[k]
            } else {
                None::<Object>
            }),
{
    while objects.len() <= idx
        invariant
            old(objects)@.len() <= objects@.len(),
            objects@.len() > old(objects)@.len() ==> objects@.len() <= idx + 1,
            objects@.subrange(0, old(objects)@.len() as int) == old(objects)@,
            forall|k: int| old(objects)@.len() <= k < objects@.len() ==> objects@[k] is None,
        decreases idx + 1 - objects@.len(),
    {
        objects.push(None);
    }
    objects[idx] = Some(object);
    proof {
        assert(objects@.len() == (if idx + 1 > old(objects)@.len() {
            idx + 1
        } else {
            old(objects)@.len() as int
        }));
        assert forall|k: int| 0 <= k < objects@.len() && k != idx implies objects@[k] == (if k
            < old(objects)@.len() {
            old(objects)@[k]
        } else {
            None::<Object>
        }) by {
            if k < old(objects)@.len() {
                assert(objects@[k] == objects@.subrange(0, old(objects)@.len() as int)[k]);
            }
        }
    }
}

impl ObjectMap {
    /// An empty map.
    pub fn new() -> (r: ObjectMap)
        ensures
            r.client_objects@ == Seq::<Option<Object>>::empty(),
            r.server_objects@ == Seq::<Option<Object>>::empty(),
            forall|id: u32| #[trigger] r.spec_find(id) is None,
    {
        ObjectMap { client_objects: Vec::new(), server_objects: Vec::new() }
    }

    /// The record registered under `id`, if any.
    pub open spec fn spec_find(self, id: u32) -> Option<Object> {
        if id == 0 {
            None
        } else if id < SERVER_ID_LIMIT {
            if id - 1 < self.client_objects@.len() {
                self.client_objects@[id - 1]
            } else {
                None
            }
        } else {
            if id - SERVER_ID_LIMIT < self.server_objects@.len() {
                self.server_objects@[id - SERVER_ID_LIMIT]
            } else {
                None
            }
        }
    }

    /// Look up the record registered under `id`.
    pub fn find(&self, id: u32) -> (r: Option<Object>)
        ensures
            r == self.spec_find(id),
    {
        if id == 0 {
            None
        } else if id < SERVER_ID_LIMIT {
            let idx: usize = (id - 1) as usize;
            if idx < self.client_objects.len() {
                self.client_objects[idx]
            } else {
                None
            }
        } else {
            let idx: usize = (id - SERVER_ID_LIMIT) as usize;
            if idx < self.server_objects.len() {
                self.server_objects[idx]
            } else {
                None
            }
        }
    }

    /// Allocate a fresh client-role id for `object`, recycling a freed id if
    /// one exists.  The returned id was unused, and only it changed.
    pub fn client_insert_new(&mut self, object: Object) -> (id: u32)
        requires
            old(self).client_objects@.len() < SERVER_ID_LIMIT - 1,
        ensures
            1 <= id < SERVER_ID_LIMIT,
            old(self).spec_find(id) is None,
            forall|j: u32| 1 <= j < id ==> (#[trigger] old(self).spec_find(j)) is Some,
            final(self).spec_find(id) == Some(object),
            forall|j: u32| j != id ==> final(self).spec_find(j) == old(self).spec_find(j),
            final(self).server_objects@ == old(self).server_objects@,
            final(self).client_objects@.len() <= old(self).client_objects@.len() + 1,
    {
        let n: usize = self.client_objects.len();
        let mut i: usize = 0;
        while i < n
            invariant
                i <= n,
                n == self.client_objects@.len(),
                n < SERVER_ID_LIMIT - 1,
                *self == *old(self),
                forall|k: int| 0 <= k < i ==> (#[trigger] self.client_objects@[k]) is Some,
            decreases n - i,
        {
            if self.client_objects[i].is_none() {
                self.client_objects[i] = Some(object);
                return (i + 1) as u32;
            }
            i += 1;
        }
        self.client_objects.push(Some(object));
        (n + 1) as u32
    }

    /// Register `object` under a peer-chosen id.  Id 0 is reserved and
    /// refused; any other id is accepted, replacing an existing record.
    pub fn insert_at(&mut self, id: u32, object: Object) -> (r: Result<(), ()>)
        ensures
            r is Err <==> id == 0,
            id == 0 ==> *final(self) == *old(self),
            id != 0 ==> final(self).spec_find(id) == Some(object),
            forall|j: u32| j != id ==> final(self).spec_find(j) == old(self).spec_find(j),
            final(self).client_objects@.len() == (if 0 < id < SERVER_ID_LIMIT && id > old(
                self,
            ).client_objects@.len() {
                id as int
            } else {
                old(self).client_objects@.len() as int
            }),
            final(self).server_objects@.len() == (if id >= SERVER_ID_LIMIT && id - SERVER_ID_LIMIT
                + 1 > old(self).server_objects@.len() {
                id - SERVER_ID_LIMIT + 1
            } else {
                old(self).server_objects@.len() as int
            }),
    {
        if id == 0 {
            return Err(());
        }
        if id < SERVER_ID_LIMIT {
            let idx: usize = (id - 1) as usize;
            insert_in_at(&mut self.client_objects, idx, object);
        } else {
            let idx: usize = (id - SERVER_ID_LIMIT) as usize;
            insert_in_at(&mut self.server_objects, idx, object);
        }
        Ok(())
    }

    /// Free the id `id`: its record is dropped and its slot may be recycled.
    pub fn remove(&mut self, id: u32)
        ensures
            final(self).spec_find(id) is None,
            forall|j: u32| j != id ==> final(self).spec_find(j) == old(self).spec_find(j),
            final(self).client_objects@.len() == old(self).client_objects@.len(),
            final(self).server_objects@.len() == old(self).server_objects@.len(),
    {
        if id == 0 {
            return ;
        }
        if id < SERVER_ID_LIMIT {
            let idx: usize = (id - 1) as usize;
            if idx < self.client_objects.len() {
                self.client_objects[idx] = None;
            }
        } else {
            let idx: usize = (id - SERVER_ID_LIMIT) as usize;
            if idx < self.server_objects.len() {
                self.server_objects[idx] = None;
            }
        }
    }
}

} // verus!
