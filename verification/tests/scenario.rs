// The acceptance scenario: a server advertises a factory, the client
// instantiates two objects of the same interface, and after the first is
// released exactly its server-side handles (and their clones) report dead.

use wayland_core::connection::ConnectionState;
use wayland_core::proxy::NewProxyInner;
use wayland_core::proxy::ProxyInner;

const FACTORY: u64 = 2;
const WL_OUTPUT: u64 = 3;
const FACTORY_IMPL: u64 = 30;
const OUTPUT_IMPL: u64 = 31;

fn implement_at(server: &mut ConnectionState, id: u32, interface: u64, tag: u64) -> ProxyInner {
    server.create_object_at(id, interface, 1, 0).unwrap();
    let newp = NewProxyInner::from_id(id, server).unwrap();
    newp.implement(server, interface, tag)
}

#[test]
fn factory_instantiation_round_trip() {
    let mut server = ConnectionState::new(42);

    // the server advertises a factory; the client binds it under id 2
    let factory = implement_at(&mut server, 2, FACTORY, FACTORY_IMPL);
    assert!(factory.is_alive(&server));

    // the client instantiates two outputs through the factory, naming fresh
    // ids; the server implements a handle for each
    let first = implement_at(&mut server, 3, WL_OUTPUT, OUTPUT_IMPL);
    let second = implement_at(&mut server, 4, WL_OUTPUT, OUTPUT_IMPL);

    // after the round-trip: distinct handles, both alive, same client
    assert!(!first.equals(&server, &second));
    assert!(!second.equals(&server, &first));
    assert!(first.is_alive(&server));
    assert!(second.is_alive(&server));
    assert!(first.same_client_as(&second));
    assert!(second.same_client_as(&factory));

    // the client releases the first instance; after the next round-trip
    // exactly the first server-side handle and its clones report dead
    let first_clone = first.clone();
    server.receive_destructor(3);
    assert!(!first.is_alive(&server));
    assert!(!first_clone.is_alive(&server));
    assert_eq!(first.id(&server), 0);
    assert!(second.is_alive(&server));
    assert!(factory.is_alive(&server));
    assert!(!first.equals(&server, &first_clone));
}
