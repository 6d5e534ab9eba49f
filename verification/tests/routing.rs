//! Single-hop routing: hop consumption, controller dispatch, fallback to
//! default handlers, error propagation, and registration policy.

use std::cell::RefCell;
use std::rc::Rc;

use message_router::address::{Address, IpAddress, LocalAddress};
use message_router::error::{HandlerError, RegistryError, RoutingError};
use message_router::handler::HandleMessage;
use message_router::message::{Message, Route, WireProtocolVersion};
use message_router::registry::Registry;
use message_router::router::Router;

/// Handler stub: records every message it receives, and optionally fails
/// with a fixed code. Clones share the same record.
#[derive(Clone)]
struct Recorder {
    seen: Rc<RefCell<Vec<Message>>>,
    fail_code: Option<u64>,
}

impl Recorder {
    fn new() -> Recorder {
        Recorder { seen: Rc::new(RefCell::new(Vec::new())), fail_code: None }
    }

    fn failing(code: u64) -> Recorder {
        Recorder { seen: Rc::new(RefCell::new(Vec::new())), fail_code: Some(code) }
    }

    fn count(&self) -> usize {
        self.seen.borrow().len()
    }
}

impl HandleMessage for Recorder {
    fn handle_message(&self, m: Message) -> Result<(), HandlerError> {
        self.seen.borrow_mut().push(m);
        match self.fail_code {
            None => Ok(()),
            Some(code) => Err(HandlerError { code }),
        }
    }
}

fn udp(a: u8, b: u8, c: u8, d: u8, port: u16) -> Address {
    Address::UdpAddress(IpAddress::V4(a, b, c, d), port)
}

fn local(length: u8, address: u32) -> Address {
    Address::LocalAddress(LocalAddress { length, address })
}

fn message(onward: Vec<Address>, ret: Vec<Address>, body: Vec<u8>) -> Message {
    Message {
        version: WireProtocolVersion { v: 1 },
        onward_route: Route { addresses: onward },
        return_route: Route { addresses: ret },
        message_body: body,
    }
}

#[test]
fn test_handler() {
    let onward = vec![udp(127, 0, 0, 1, 0x8080), udp(10, 0, 1, 10, 0x7070), local(4, 0x00010203)];
    let ret = vec![udp(127, 0, 0, 2, 0x8080), udp(10, 0, 1, 11, 0x7070), local(4, 0x00010203)];
    let msg = message(onward, ret.clone(), vec![0]);
    let mut router: Router<Recorder> = Router::new();
    let handler = Recorder::new();
    let first_hop = msg.onward_route.addresses[0];
    router.register_handler(handler.clone(), &first_hop).unwrap();
    assert_eq!(router.route(msg), Ok(()));
    // The handler was invoked exactly once, with the onward route shortened
    // by the consumed first hop and everything else untouched.
    assert_eq!(handler.count(), 1);
    let seen = handler.seen.borrow();
    let got = &seen[0];
    assert_eq!(got.onward_route.addresses, vec![udp(10, 0, 1, 10, 0x7070), local(4, 0x00010203)]);
    assert_eq!(got.return_route.addresses, ret);
    assert_eq!(got.message_body, vec![0]);
    assert_eq!(got.version.v, 1);
}

#[test]
fn test_empty_route_dispatches_to_controller() {
    let mut router: Router<Recorder> = Router::new();
    let controller = Recorder::new();
    // Local address 0 derives the reserved controller key 0.
    router.register_handler(controller.clone(), &local(1, 0)).unwrap();
    let msg = message(vec![], vec![local(4, 5)], vec![1, 2, 3]);
    assert_eq!(router.route(msg), Ok(()));
    assert_eq!(controller.count(), 1);
    let seen = controller.seen.borrow();
    // Nothing was popped: the onward route was already empty.
    assert!(seen[0].onward_route.addresses.is_empty());
    assert_eq!(seen[0].message_body, vec![1, 2, 3]);
}

#[test]
fn test_empty_route_falls_back_to_local_default() {
    let mut router: Router<Recorder> = Router::new();
    let fallback = Recorder::new();
    // No controller at key 0; the sentinel destination is local, so its
    // default key 4 (local address 4) is tried next.
    router.register_handler(fallback.clone(), &local(1, 4)).unwrap();
    let msg = message(vec![], vec![], vec![]);
    assert_eq!(router.route(msg), Ok(()));
    assert_eq!(fallback.count(), 1);
}

#[test]
fn test_fallback_to_udp_default() {
    let mut router: Router<Recorder> = Router::new();
    let fallback = Recorder::new();
    // Local address 2 derives the UDP default key 2.
    router.register_handler(fallback.clone(), &local(1, 2)).unwrap();
    let destination = udp(192, 168, 0, 1, 9);
    let msg = message(vec![destination], vec![], vec![7]);
    assert_eq!(router.route(msg), Ok(()));
    assert_eq!(fallback.count(), 1);
    let seen = fallback.seen.borrow();
    assert!(seen[0].onward_route.addresses.is_empty());
}

#[test]
fn test_explicit_registration_wins_over_default() {
    let mut router: Router<Recorder> = Router::new();
    let explicit = Recorder::new();
    let fallback = Recorder::new();
    let destination = udp(10, 0, 1, 10, 0x7070);
    router.register_handler(explicit.clone(), &destination).unwrap();
    router.register_handler(fallback.clone(), &local(1, 2)).unwrap();
    let msg = message(vec![destination], vec![], vec![]);
    assert_eq!(router.route(msg), Ok(()));
    assert_eq!(explicit.count(), 1);
    assert_eq!(fallback.count(), 0);
}

#[test]
fn test_unimplemented_address_kind() {
    let mut router: Router<Recorder> = Router::new();
    let bystander = Recorder::new();
    router.register_handler(bystander.clone(), &local(1, 0)).unwrap();
    // TCP has a key derivation but no default-key table entry.
    let msg = message(vec![Address::TcpAddress(IpAddress::V4(10, 0, 0, 1), 80)], vec![], vec![]);
    assert_eq!(router.route(msg), Err(RoutingError::UnimplementedAddressKind));
    assert_eq!(bystander.count(), 0);
}

#[test]
fn test_unregistered_handler() {
    let mut router: Router<Recorder> = Router::new();
    // Neither local key 9 nor the local default key 4 is registered.
    let msg = message(vec![local(1, 9)], vec![], vec![]);
    assert_eq!(router.route(msg), Err(RoutingError::UnregisteredHandler));
}

#[test]
fn test_malformed_first_hop_fails_key_derivation() {
    let mut router: Router<Recorder> = Router::new();
    let bystander = Recorder::new();
    router.register_handler(bystander.clone(), &local(1, 0)).unwrap();
    let msg = message(vec![local(0, 7)], vec![], vec![]);
    assert_eq!(router.route(msg), Err(RoutingError::AddressKeyError));
    assert_eq!(bystander.count(), 0);
}

#[test]
fn test_handler_failure_is_wrapped_with_cause() {
    let mut router: Router<Recorder> = Router::new();
    let failing = Recorder::failing(42);
    let destination = udp(127, 0, 0, 1, 4050);
    router.register_handler(failing.clone(), &destination).unwrap();
    let msg = message(vec![destination], vec![], vec![9]);
    assert_eq!(
        router.route(msg),
        Err(RoutingError::HandlerFailed(HandlerError { code: 42 }))
    );
    // The message was still consumed by the handler before it failed.
    assert_eq!(failing.count(), 1);
}

#[test]
fn test_duplicate_registration_rejected() {
    let mut router: Router<Recorder> = Router::new();
    let first = Recorder::new();
    let second = Recorder::new();
    let destination = udp(127, 0, 0, 1, 80);
    assert_eq!(router.register_handler(first.clone(), &destination), Ok(()));
    assert_eq!(
        router.register_handler(second.clone(), &destination),
        Err(RoutingError::DuplicateKey)
    );
    // The original binding is left in place.
    let msg = message(vec![destination], vec![], vec![]);
    assert_eq!(router.route(msg), Ok(()));
    assert_eq!(first.count(), 1);
    assert_eq!(second.count(), 0);
}

#[test]
fn test_register_malformed_address() {
    let mut router: Router<Recorder> = Router::new();
    let handler = Recorder::new();
    assert_eq!(
        router.register_handler(handler, &local(0, 0)),
        Err(RoutingError::AddressKeyError)
    );
}

#[test]
fn test_registry_register_and_lookup() {
    let mut registry: Registry<u32> = Registry::new();
    assert!(!registry.contains(7));
    assert_eq!(registry.lookup(7), None);
    assert_eq!(registry.register(7, 700), Ok(()));
    assert!(registry.contains(7));
    assert_eq!(registry.lookup(7), Some(&700));
    assert_eq!(registry.register(7, 701), Err(RegistryError::DuplicateKey));
    // The rejected registration did not replace the original entry.
    assert_eq!(registry.lookup(7), Some(&700));
}
