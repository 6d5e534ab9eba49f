//! The router: the single-hop dispatch decision.
//!
//! `route` consumes the first onward address of a message, derives its
//! dispatch key, resolves a handler (explicit registration first, then the
//! kind's default key), and transfers ownership of the shortened message to
//! that handler. Multi-hop delivery is not built in: a forwarding handler
//! achieves it by calling `route` again on the remaining route.

use vstd::prelude::*;
use crate::address::{
    Address, LocalAddress, CONTROLLER_KEY, addr_key, addr_key_ok, default_key_of,
};
use crate::error::{HandlerError, RegistryError, RoutingError};
use crate::handler::HandleMessage;
use crate::message::{Message, forwarded_form};
use crate::registry::Registry;

verus! {

/// How a single `route` call resolves, as a function of the registered key
/// set and the onward route. `route`'s contract is stated over this
/// resolution.
pub enum Decision {
    /// Dispatch to the handler registered under this key.
    Deliver(u64),
    /// The first onward address cannot yield a dispatch key.
    FailAddressKey,
    /// The destination's kind has no entry in the default-key table.
    FailUnimplementedKind,
    /// Neither the derived key nor the kind's default key is registered.
    FailUnregistered,
}

/// The notional destination of a `route` call: the first onward address, or
/// the sentinel local address of value 0 — the controller — when the onward
/// route is exhausted.
pub open spec fn head_address(onward: Seq<Address>) -> Address {
    if onward.len() == 0 {
        Address::LocalAddress(LocalAddress { length: 0, address: 0 })
    } else {
        onward[0]
    }
}

/// The key `route` tries first: the controller key for an exhausted onward
/// route, else the first address's derived key; `None` when derivation
/// fails.
pub open spec fn primary_key(onward: Seq<Address>) -> Option<u64> {
    if onward.len() == 0 {
        Some(CONTROLLER_KEY)
    } else if addr_key_ok(onward[0]) {
        Some(addr_key(onward[0]))
    } else {
        None
    }
}

/// The dispatch decision: try the primary key; if it is unregistered, fall
/// back to the destination kind's default key, if the table has one and it
/// is registered.
pub open spec fn decide(keys: Set<u64>, onward: Seq<Address>) -> Decision {
    match primary_key(onward) {
        None => Decision::FailAddressKey,
        Some(k) => if keys.contains(k) {
            Decision::Deliver(k)
        } else {
            match default_key_of(head_address(onward)) {
                None => Decision::FailUnimplementedKind,
                Some(dk) => if keys.contains(dk) {
                    Decision::Deliver(dk)
                } else {
                    Decision::FailUnregistered
                },
            }
        },
    }
}

/// The router's overall result wraps the handler's: success maps to success,
/// and a handler failure is carried as the cause, unchanged.
pub open spec fn wraps_handler_result(hr: Result<(), HandlerError>, r: Result<
    (),
    RoutingError,
>) -> bool {
    match hr {
        Ok(()) => r == Ok::<(), RoutingError>(()),
        Err(e) => r == Err::<(), RoutingError>(RoutingError::HandlerFailed(e)),
    }
}

/// One delivery, seen from outside: handler `h` received some message `m2`
/// of the forwarded form of `m` and returned `hr`, which the router's own
/// result `r` wraps.
pub open spec fn dispatched_to<H: HandleMessage>(
    h: H,
    m: Message,
    m2: Message,
    hr: Result<(), HandlerError>,
    r: Result<(), RoutingError>,
) -> bool {
    &&& h.handle_spec(m2, hr)
    &&& forwarded_form(m, m2)
    &&& wraps_handler_result(hr, r)
}

/// What a completed `route` call states, over the registry contents at entry
/// (`pre`), the message as given, and the result: each failing decision maps
/// to its error, and a delivering decision means some message of the
/// forwarded form was handed to the handler registered under the decided
/// key, whose result the router's result wraps.
pub open spec fn route_post<H: HandleMessage>(
    pre: Map<u64, H>,
    m: Message,
    r: Result<(), RoutingError>,
) -> bool {
    match decide(pre.dom(), m.onward_route.addresses@) {
        Decision::Deliver(k) => exists|m2: Message, hr: Result<(), HandlerError>|
            #[trigger] dispatched_to(pre[k], m, m2, hr, r),
        Decision::FailAddressKey => r == Err::<(), RoutingError>(RoutingError::AddressKeyError),
        Decision::FailUnimplementedKind => r == Err::<(), RoutingError>(
            RoutingError::UnimplementedAddressKind,
        ),
        Decision::FailUnregistered => r == Err::<(), RoutingError>(
            RoutingError::UnregisteredHandler,
        ),
    }
}

/// Owns the handler registry and makes the single-hop routing decision.
/// Stateless across calls beyond the registry's contents.
pub struct Router<H> {
    registry: Registry<H>,
}

impl<H> View for Router<H> {
    type V = Map<u64, H>;

    closed spec fn view(&self) -> Map<u64, H> {
        self.registry@
    }
}

impl<H: HandleMessage> Router<H> {
    /// Creates a router with an empty registry.
    pub fn new() -> (r: Router<H>)
        ensures
            r@ == Map::<u64, H>::empty(),
    {
        Router { registry: Registry::new() }
    }

    /// Registers `handler` under the key derived from `address`.
    ///
    /// Fails with the key-derivation error on a malformed address, and
    /// rejects a key that is already bound; on failure the registry is
    /// unchanged.
    pub fn register_handler(&mut self, handler: H, address: &Address) -> (r: Result<
        (),
        RoutingError,
    >)
        ensures
            final(self)@ == (if addr_key_ok(*address) && !old(self)@.contains_key(
                addr_key(*address),
            ) {
                old(self)@.insert(addr_key(*address), handler)
            } else {
                old(self)@
            }),
            r == (if !addr_key_ok(*address) {
                Err::<(), RoutingError>(RoutingError::AddressKeyError)
            } else if old(self)@.contains_key(addr_key(*address)) {
                Err::<(), RoutingError>(RoutingError::DuplicateKey)
            } else {
                Ok::<(), RoutingError>(())
            }),
    {
        let key = match address.get_key() {
            Ok(k) => k,
            Err(e) => {
                return Err(e);
            },
        };
        match self.registry.register(key, handler) {
            Ok(()) => Ok(()),
            Err(RegistryError::DuplicateKey) => Err(RoutingError::DuplicateKey),
        }
    }

    /// Routes `m` one hop, consuming it.
    ///
    /// The first onward address (or, for an exhausted onward route, the
    /// controller) is resolved per [`decide`] over the registered key set.
    /// On delivery, ownership of the message — shortened by the consumed
    /// address — passes to the resolved handler, and the handler's result is
    /// wrapped per [`wraps_handler_result`]. Every failure is terminal for
    /// the call: the message is dropped, never returned. The registry is
    /// never changed.
    pub fn route(&mut self, m: Message) -> (r: Result<(), RoutingError>)
        ensures
            final(self)@ == old(self)@,
            route_post(old(self)@, m, r),
    {
        let mut msg = m;
        let key: u64;
        let address: Address;
        if msg.onward_route.addresses.len() > 0 {
            address = msg.onward_route.addresses.remove(0);
            proof {
                assert(msg.onward_route.addresses@ =~= m.onward_route.addresses@.skip(1));
            }
            match address.get_key() {
                Ok(k) => {
                    key = k;
                },
                Err(e) => {
                    return Err(e);
                },
            }
        } else {
            address = Address::LocalAddress(LocalAddress { length: 0, address: 0 });
            key = CONTROLLER_KEY;
        }
        let resolved: u64;
        if self.registry.contains(key) {
            resolved = key;
        } else {
            match address.default_key() {
                Some(dk) => {
                    if self.registry.contains(dk) {
                        resolved = dk;
                    } else {
                        return Err(RoutingError::UnregisteredHandler);
                    }
                },
                None => {
                    return Err(RoutingError::UnimplementedAddressKind);
                },
            }
        }
        let ghost m2 = msg;
        match self.registry.lookup(resolved) {
            Some(h) => {
                let hr = h.handle_message(msg);
                let r: Result<(), RoutingError> = match hr {
                    Ok(()) => Ok(()),
                    Err(e) => Err(RoutingError::HandlerFailed(e)),
                };
                proof {
                    // The delivery witness, spelled with the decided key so
                    // the existential in `route_post` can pick it up.
                    assert(decide(old(self)@.dom(), m.onward_route.addresses@)
                        == Decision::Deliver(resolved));
                    assert(dispatched_to(
                        old(self)@[decide(old(self)@.dom(), m.onward_route.addresses@)
                            ->Deliver_0],
                        m,
                        m2,
                        hr,
                        r,
                    ));
                }
                r
            },
            None => {
                proof {
                    assert(false);
                }
                Err(RoutingError::UnregisteredHandler)
            },
        }
    }
}

/// An exhausted onward route dispatches at the controller key: whenever a
/// controller handler is registered under that key, the decision is to
/// deliver there.
pub proof fn lemma_empty_route_uses_controller(keys: Set<u64>, onward: Seq<Address>)
    requires
        onward.len() == 0,
        keys.contains(CONTROLLER_KEY),
    ensures
        decide(keys, onward) == Decision::Deliver(CONTROLLER_KEY),
{
}

/// Fallback to the default handler: a UDP destination whose own key has no
/// registration is delivered at the UDP default key whenever a handler is
/// registered there.
pub proof fn lemma_udp_fallback_to_default(keys: Set<u64>, onward: Seq<Address>)
    requires
        onward.len() > 0,
        onward[0] is UdpAddress,
        !keys.contains(addr_key(onward[0])),
        keys.contains(crate::address::DEFAULT_UDP_KEY),
    ensures
        decide(keys, onward) == Decision::Deliver(crate::address::DEFAULT_UDP_KEY),
{
}

/// A destination kind with no default-key table entry cannot fall back: a
/// TCP destination whose own key has no registration makes the whole call
/// fail as an unimplemented kind, and no handler is involved.
pub proof fn lemma_tcp_kind_unimplemented(keys: Set<u64>, onward: Seq<Address>)
    requires
        onward.len() > 0,
        onward[0] is TcpAddress,
        !keys.contains(addr_key(onward[0])),
    ensures
        decide(keys, onward) == Decision::FailUnimplementedKind,
{
}

} // verus!
