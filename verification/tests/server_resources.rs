// The classic resource-identity suite: a server-side connection hands out
// handles for the objects a client binds, and the handles must behave as
// shared references to one object, not as copies.

use wayland_core::connection::ConnectionState;
use wayland_core::proxy::NewProxyInner;
use wayland_core::proxy::ProxyInner;

const WL_OUTPUT: u64 = 3;
const INERT_IMPL: u64 = 10;
const IMPL_1: u64 = 11;
const IMPL_2: u64 = 12;

/// The server learns that the client bound a new output under `id`, and
/// implements the fresh handle with `impl_tag`.
fn bind_output(server: &mut ConnectionState, id: u32, version: u32, impl_tag: u64) -> ProxyInner {
    server.create_object_at(id, WL_OUTPUT, version, 0).unwrap();
    let newo = NewProxyInner::from_id(id, server).unwrap();
    newo.implement(server, WL_OUTPUT, impl_tag)
}

#[test]
fn resource_equals() {
    let mut server = ConnectionState::new(1);

    // create two outputs
    let mut outputs: Vec<ProxyInner> = Vec::new();
    outputs.push(bind_output(&mut server, 4, 1, INERT_IMPL));
    outputs.push(bind_output(&mut server, 5, 1, INERT_IMPL));

    assert!(outputs.len() == 2);
    assert!(!outputs[0].equals(&server, &outputs[1]));

    let cloned = outputs[0].clone();
    assert!(outputs[0].equals(&server, &cloned));

    assert!(outputs[0].same_client_as(&outputs[1]));
}

#[test]
fn resource_user_data() {
    let mut server = ConnectionState::new(1);

    // create two outputs, giving the n-th the payload 1000 + n
    let mut outputs: Vec<ProxyInner> = Vec::new();
    let first = bind_output(&mut server, 4, 1, INERT_IMPL);
    first.set_user_data(&mut server, 1000 + outputs.len());
    outputs.push(first);
    let second = bind_output(&mut server, 5, 1, INERT_IMPL);
    second.set_user_data(&mut server, 1000 + outputs.len());
    outputs.push(second);

    assert!(outputs[0].get_user_data(&server) == 1000);
    assert!(outputs[1].get_user_data(&server) == 1001);
    let cloned = outputs[0].clone();
    assert!(cloned.get_user_data(&server) == 1000);
    outputs[0].set_user_data(&mut server, 4242);
    assert!(cloned.get_user_data(&server) == 4242);
}

#[test]
fn resource_is_implemented() {
    let mut server = ConnectionState::new(1);

    // create two outputs: the first implemented with IMPL_1, the second
    // with IMPL_2
    let mut outputs: Vec<ProxyInner> = Vec::new();
    outputs.push(bind_output(&mut server, 4, 1, IMPL_1));
    outputs.push(bind_output(&mut server, 5, 1, IMPL_2));

    assert!(outputs[0].is_implemented_with(&server, IMPL_1));
    assert!(!outputs[0].is_implemented_with(&server, IMPL_2));
    assert!(outputs[1].is_implemented_with(&server, IMPL_2));
    assert!(!outputs[1].is_implemented_with(&server, IMPL_1));
    let cloned = outputs[0].clone();
    assert!(cloned.is_implemented_with(&server, IMPL_1));
    assert!(!cloned.is_implemented_with(&server, IMPL_2));
}

#[test]
fn dead_resources() {
    let mut server = ConnectionState::new(1);

    let mut outputs: Vec<ProxyInner> = Vec::new();
    outputs.push(bind_output(&mut server, 4, 3, INERT_IMPL));
    outputs.push(bind_output(&mut server, 5, 3, INERT_IMPL));

    assert!(outputs[0].is_alive(&server));
    assert!(outputs[1].is_alive(&server));
    let cloned = outputs[0].clone();

    // the client releases the first output: its destructor arrives
    server.receive_destructor(4);

    assert!(!outputs[0].is_alive(&server));
    assert!(outputs[1].is_alive(&server));
    assert!(!cloned.is_alive(&server));
}
