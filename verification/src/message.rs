//! The message envelope and its routes.

use vstd::prelude::*;
use crate::address::Address;

verus! {

/// Version of the wire protocol a message was built for. The routing core
/// carries it through unchanged.
#[derive(Clone, Copy, Debug, PartialEq, Eq, Structural)]
pub struct WireProtocolVersion {
    /// The numeric version.
    pub v: u16,
}

/// An ordered sequence of addresses describing a path; the order is the hop
/// order.
#[derive(Clone, Debug, PartialEq, Eq)]
pub struct Route {
    /// The hops, first to last.
    pub addresses: Vec<Address>,
}

/// The envelope the router dispatches: protocol version, forward path, reply
/// path, and an opaque body the core never inspects or transforms.
///
/// A message has exactly one owner at a time; routing transfers its entire
/// ownership into the chosen handler.
#[derive(Clone, Debug, PartialEq, Eq)]
pub struct Message {
    /// Protocol version, carried through unchanged.
    pub version: WireProtocolVersion,
    /// The remaining forward path; routing consumes its first address.
    pub onward_route: Route,
    /// The reply path; routing never touches it.
    pub return_route: Route,
    /// Opaque payload bytes, carried through unchanged.
    pub message_body: Vec<u8>,
}

/// The two messages agree on everything routing must not touch: version,
/// return route and body.
pub open spec fn same_payload(m1: Message, m2: Message) -> bool {
    &&& m2.version == m1.version
    &&& m2.return_route.addresses@ == m1.return_route.addresses@
    &&& m2.message_body@ == m1.message_body@
}

/// `m2` is the form in which a handler receives `m`: the payload is
/// untouched, and the first onward address has been consumed — unless the
/// onward route was already empty, in which case nothing was popped.
pub open spec fn forwarded_form(m: Message, m2: Message) -> bool {
    &&& same_payload(m, m2)
    &&& m2.onward_route.addresses@ == (if m.onward_route.addresses@.len() == 0 {
        m.onward_route.addresses@
    } else {
        m.onward_route.addresses@.skip(1)
    })
}

} // verus!
