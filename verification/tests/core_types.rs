// Unit tests of the leaves: the object map's id arithmetic and recycling,
// the metadata constructors, message framing, and dispatcher introspection.

use wayland_core::dispatcher::default_dispatcher;
use wayland_core::dispatcher::Dispatcher;
use wayland_core::map::Object;
use wayland_core::map::ObjectMap;
use wayland_core::map::SERVER_ID_LIMIT;
use wayland_core::message::RawMessage;
use wayland_core::message::Request;
use wayland_core::meta::HandshakeState;
use wayland_core::meta::ObjectMeta;

fn obj(interface: u64, version: u32, meta: usize) -> Object {
    Object { interface, version, meta }
}

#[test]
fn map_find_insert_remove() {
    let mut map = ObjectMap::new();
    assert!(map.insert_at(0, obj(1, 1, 0)).is_err());
    assert!(map.find(0).is_none());

    assert!(map.insert_at(4, obj(7, 2, 5)).is_ok());
    assert_eq!(map.find(4), Some(obj(7, 2, 5)));
    assert!(map.find(1).is_none());
    assert!(map.find(3).is_none());
    assert!(map.find(5).is_none());

    map.remove(4);
    assert!(map.find(4).is_none());
}

#[test]
fn map_partitions_id_ranges() {
    let mut map = ObjectMap::new();
    let server_id = SERVER_ID_LIMIT;
    assert!(map.insert_at(server_id, obj(9, 1, 0)).is_ok());
    assert_eq!(map.find(server_id), Some(obj(9, 1, 0)));
    assert!(map.find(1).is_none());

    assert!(map.insert_at(1, obj(2, 1, 1)).is_ok());
    assert_eq!(map.find(1), Some(obj(2, 1, 1)));
    assert_eq!(map.find(server_id), Some(obj(9, 1, 0)));

    map.remove(server_id);
    assert!(map.find(server_id).is_none());
    assert_eq!(map.find(1), Some(obj(2, 1, 1)));
}

#[test]
fn map_allocates_lowest_free_id() {
    let mut map = ObjectMap::new();
    assert_eq!(map.client_insert_new(obj(1, 1, 0)), 1);
    assert_eq!(map.client_insert_new(obj(1, 1, 1)), 2);
    assert_eq!(map.client_insert_new(obj(1, 1, 2)), 3);

    map.remove(2);
    assert_eq!(map.client_insert_new(obj(5, 1, 3)), 2);
    assert_eq!(map.find(2), Some(obj(5, 1, 3)));
    assert_eq!(map.client_insert_new(obj(1, 1, 4)), 4);
}

#[test]
fn request_framing() {
    let msg = Request { opcode: 7, destructor: false };
    assert!(!msg.is_destructor());
    assert_eq!(msg.into_raw(3), RawMessage { sender_id: 3, opcode: 7, destructor: false });

    let bye = Request { opcode: 0, destructor: true };
    assert!(bye.is_destructor());
    assert_eq!(bye.into_raw(12), RawMessage { sender_id: 12, opcode: 0, destructor: true });
}

#[test]
fn object_meta_constructors() {
    let fresh = ObjectMeta::new(4);
    assert!(fresh.alive);
    assert_eq!(fresh.queue, 4);
    assert_eq!(fresh.user_data, 0);
    assert_eq!(fresh.dispatcher, Dispatcher::Unimplemented);
    assert!(!fresh.client_destroyed);
    assert!(!fresh.server_destroyed);

    let gone = ObjectMeta::dead();
    assert_eq!(gone.handshake(), HandshakeState::Gone);
    assert!(!gone.alive);
    assert!(gone.client_destroyed);
    assert!(gone.server_destroyed);
    assert_eq!(gone.dispatcher, Dispatcher::Unimplemented);

    let parent = ObjectMeta { user_data: 9, dispatcher: Dispatcher::Implemented { tag: 1 }, ..fresh };
    let child = parent.child();
    assert_eq!(child.queue, parent.queue);
    assert!(child.alive);
    assert_eq!(child.user_data, 0);
    assert_eq!(child.dispatcher, Dispatcher::Unimplemented);
}

#[test]
fn dispatcher_introspection() {
    assert_eq!(default_dispatcher(), Dispatcher::Unimplemented);
    assert!(!default_dispatcher().is(1));
    let installed = Dispatcher::Implemented { tag: 2 };
    assert!(installed.is(2));
    assert!(!installed.is(3));
}
