//! The identity and lifecycle guarantees of the core, stated once, in one
//! place, and proved from the contracts of the operations they speak about.
//!
//! Each law is phrased over the observation functions of [`ProxyInner`]
//! (`spec_equals`, `spec_alive`, `spec_user_data`, `spec_implemented_with`)
//! and over the state transitions that the mutating operations promise in
//! their `ensures` clauses, so a caller can combine a law with any call of
//! the operation it describes.

use vstd::prelude::*;

use crate::connection::metas_monotone;
use crate::connection::ConnectionState;
use crate::dispatcher::Dispatcher;
use crate::message::Request;
use crate::meta::HandshakeState;
use crate::meta::ObjectMeta;
use crate::proxy::ProxyInner;

verus! {

/// Identity of clones: a clone shares the metadata block of the handle it
/// was cloned from, so while the object is alive the two compare equal, in
/// both directions.
pub proof fn law_clone_identity(conn: ConnectionState, a: ProxyInner, a_clone: ProxyInner)
    requires
        a.valid(conn),
        a_clone.meta == a.meta,
        a.spec_alive(conn),
    ensures
        a.spec_equals(a_clone, conn),
        a_clone.spec_equals(a, conn),
{
}

/// Identity of independent objects: handles whose metadata blocks differ
/// never compare equal, in either direction, whatever their interface,
/// version or id — identity is never structural.
pub proof fn law_independent_handles_differ(conn: ConnectionState, a: ProxyInner, b: ProxyInner)
    requires
        a.meta != b.meta,
    ensures
        !a.spec_equals(b, conn),
        !b.spec_equals(a, conn),
{
}

/// Freshly created objects are independent of everything that came before:
/// a creation appends its metadata block to the store, so a handle that was
/// valid beforehand can never compare equal to the created one.
pub proof fn law_fresh_handle_is_independent(
    pre: ConnectionState,
    conn: ConnectionState,
    a: ProxyInner,
    fresh: ProxyInner,
)
    requires
        a.valid(pre),
        fresh.meta >= pre.metas@.len(),
    ensures
        !a.spec_equals(fresh, conn),
        !fresh.spec_equals(a, conn),
{
}

/// A dead handle equals nothing — not even another handle to what was the
/// same object: liveness is part of identity.
pub proof fn law_dead_handle_equals_nothing(conn: ConnectionState, a: ProxyInner, b: ProxyInner)
    requires
        a.valid(conn),
        !a.spec_alive(conn),
    ensures
        !a.spec_equals(b, conn),
{
}

/// Shared user data: after one clone stores a payload (the transition that
/// `set_user_data` promises), every clone of the same handle reads that
/// payload back — the slot is shared, never copied per clone.
pub proof fn law_user_data_shared(
    pre: ConnectionState,
    post: ConnectionState,
    a: ProxyInner,
    b: ProxyInner,
    data: usize,
)
    requires
        a.valid(pre),
        b.meta == a.meta,
        post.metas@ == pre.metas@.update(
            a.meta as int,
            pre.metas@[a.meta as int].with_user_data(data),
        ),
    ensures
        b.valid(post),
        b.spec_user_data(post) == data,
        a.spec_user_data(post) == data,
{
}

/// Dispatcher introspection: once the implementation tagged `tag` is the
/// installed one, introspection answers true exactly for `tag` and false
/// for every other candidate, on the handle and on every clone of it.
pub proof fn law_dispatcher_introspection(
    conn: ConnectionState,
    a: ProxyInner,
    a_clone: ProxyInner,
    tag: u64,
    other: u64,
)
    requires
        a.valid(conn),
        a_clone.meta == a.meta,
        conn.metas@[a.meta as int].dispatcher == (Dispatcher::Implemented { tag }),
        other != tag,
    ensures
        a.spec_implemented_with(conn, tag),
        a_clone.spec_implemented_with(conn, tag),
        !a.spec_implemented_with(conn, other),
        !a_clone.spec_implemented_with(conn, other),
{
}

/// An object that was never implemented answers false to every candidate.
pub proof fn law_unimplemented_matches_nothing(conn: ConnectionState, a: ProxyInner, tag: u64)
    requires
        a.valid(conn),
        conn.metas@[a.meta as int].dispatcher == Dispatcher::Unimplemented,
    ensures
        !a.spec_implemented_with(conn, tag),
{
}

/// Destroy-handshake symmetry: sending a destructor through handle `a` (the
/// transition `send` promises for a live handle and a destructor message)
/// kills `a` and every clone of `a` — liveness is shared, not a snapshot —
/// while any object with a different metadata block keeps its liveness.
pub proof fn law_destroy_handshake_symmetry(
    pre: ConnectionState,
    post: ConnectionState,
    a: ProxyInner,
    a_clone: ProxyInner,
    b: ProxyInner,
    msg: Request,
)
    requires
        a.valid(pre),
        b.valid(pre),
        a_clone.meta == a.meta,
        b.meta != a.meta,
        a.spec_alive(pre),
        b.spec_alive(pre),
        msg.destructor,
        post.metas@ == pre.metas@.update(
            a.meta as int,
            pre.metas@[a.meta as int].locally_destroyed(),
        ),
    ensures
        !a.spec_alive(post),
        !a_clone.spec_alive(post),
        b.spec_alive(post),
        a.spec_id(post) == 0,
{
}

/// The destroy handshake only moves forward.  A local destructor (the
/// metadata transition a destructor send performs) takes a live object to
/// the locally-destroyed state and an object the remote peer had already
/// destroyed to the fully-destroyed state; in every case the object is dead
/// afterwards and no flag is ever cleared.
pub proof fn law_local_destroy_advances_handshake(m: ObjectMeta)
    ensures
        !m.locally_destroyed().alive,
        m.handshake_state() == HandshakeState::Live ==> m.locally_destroyed().handshake_state()
            == HandshakeState::LocalOnly,
        m.handshake_state() == HandshakeState::RemoteOnly
            ==> m.locally_destroyed().handshake_state() == HandshakeState::Gone,
        m.handshake_state() == HandshakeState::LocalOnly
            ==> m.locally_destroyed().handshake_state() == HandshakeState::LocalOnly,
        m.handshake_state() == HandshakeState::Gone ==> m.locally_destroyed().handshake_state()
            == HandshakeState::Gone,
{
}

/// The mirror image for the remote role: receiving the peer's destructor
/// takes a live object to the remotely-destroyed state and a locally
/// destroyed one to the fully-destroyed state, kills the object, and never
/// clears a flag.
pub proof fn law_remote_destroy_advances_handshake(m: ObjectMeta)
    ensures
        !m.remotely_destroyed().alive,
        m.handshake_state() == HandshakeState::Live ==> m.remotely_destroyed().handshake_state()
            == HandshakeState::RemoteOnly,
        m.handshake_state() == HandshakeState::LocalOnly
            ==> m.remotely_destroyed().handshake_state() == HandshakeState::Gone,
        m.handshake_state() == HandshakeState::RemoteOnly
            ==> m.remotely_destroyed().handshake_state() == HandshakeState::RemoteOnly,
        m.handshake_state() == HandshakeState::Gone ==> m.remotely_destroyed().handshake_state()
            == HandshakeState::Gone,
{
}

/// An id's record is reclaimed by a destructor send exactly when both sides
/// of the handshake are then complete: the local flag the send itself sets,
/// and the remote flag that must already have been observed.
pub proof fn law_reclaim_needs_both_flags(
    pre: ConnectionState,
    post: ConnectionState,
    a: ProxyInner,
    msg: Request,
)
    requires
        a.valid(pre),
        a.spec_alive(pre),
        msg.destructor,
        pre.map.spec_find(a.id) is Some,
        post.metas@ == pre.metas@.update(
            a.meta as int,
            pre.metas@[a.meta as int].locally_destroyed(),
        ),
        pre.metas@[a.meta as int].server_destroyed ==> post.map.spec_find(a.id) is None,
        !pre.metas@[a.meta as int].server_destroyed ==> post.map == pre.map,
    ensures
        post.map.spec_find(a.id) is None <==> (post.metas@[a.meta as int].client_destroyed
            && post.metas@[a.meta as int].server_destroyed),
        post.map.spec_find(a.id) is None <==> post.metas@[a.meta as int].handshake_state()
            == HandshakeState::Gone,
{
}

/// Id reuse safety: after an id was reclaimed and handed to a new object,
/// every stale handle still naming that id stays dead, reports the reserved
/// id 0, and never compares equal to the new object's handle — so no handle
/// ever observes two different interfaces under an identity it still
/// considers alive.
pub proof fn law_id_reuse_safety(
    pre: ConnectionState,
    post: ConnectionState,
    stale: ProxyInner,
    fresh: ProxyInner,
)
    requires
        stale.valid(pre),
        !stale.spec_alive(pre),
        metas_monotone(pre.metas@, post.metas@),
        fresh.meta >= pre.metas@.len(),
        fresh.id == stale.id,
    ensures
        !stale.spec_alive(post),
        stale.spec_id(post) == 0,
        !stale.spec_equals(fresh, post),
        !fresh.spec_equals(stale, post),
{
}

/// Once an object is dead, no message for it reaches the wire: the no-op
/// `send` promises for a dead handle applies to every clone of the handle,
/// so a destructor is the last message addressing its object.
pub proof fn law_destructor_is_last(
    pre: ConnectionState,
    post: ConnectionState,
    a: ProxyInner,
    a_clone: ProxyInner,
)
    requires
        a.valid(pre),
        a_clone.meta == a.meta,
        !a.spec_alive(pre),
        !a_clone.spec_alive(pre) ==> post == pre,
    ensures
        post == pre,
        post.connection.log@ == pre.connection.log@,
{
}

/// Deadness is preserved by every operation, transitively: chaining the
/// monotonicity guarantee of any two transitions yields it for their
/// composition, so a handle observed dead stays dead over any sequence of
/// operations.
pub proof fn law_metas_monotone_trans(
    s1: Seq<ObjectMeta>,
    s2: Seq<ObjectMeta>,
    s3: Seq<ObjectMeta>,
)
    requires
        metas_monotone(s1, s2),
        metas_monotone(s2, s3),
    ensures
        metas_monotone(s1, s3),
{
}

} // verus!
