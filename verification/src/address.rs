//! Routing destinations and their dispatch keys.
//!
//! An [`Address`] is a closed tagged union of destination kinds. Each
//! well-formed address yields a numeric *dispatch key*, a pure function of the
//! address value alone, used to select a handler.
//!
//! The key space is partitioned by kind so that addresses of different kinds
//! never collide:
//! - local addresses map directly to their numeric value, so they occupy
//!   `[0, 2^32)`; the reserved controller key and the per-kind default keys
//!   are small local keys by design;
//! - UDP and TCP endpoints map into disjoint ranges above `2^48`, tagged by
//!   kind and IP version.

use vstd::prelude::*;
use crate::error::RoutingError;

verus! {

/// Reserved dispatch key of the controller, the implicit local endpoint used
/// when a message's onward route is exhausted.
pub const CONTROLLER_KEY: u64 = 0;

/// Default-key table entry for local addresses: the fallback handler for a
/// local address whose own key has no registration.
pub const DEFAULT_LOCAL_KEY: u64 = 4;

/// Default-key table entry for UDP addresses: the fallback handler for a UDP
/// address whose own key has no registration.
pub const DEFAULT_UDP_KEY: u64 = 2;

/// Base of the dispatch-key range for UDP over IPv4.
pub const UDP_V4_KEY_BASE: u64 = 0x2_0000_0000_0000;

/// Base of the dispatch-key range for UDP over IPv6.
pub const UDP_V6_KEY_BASE: u64 = 0x3_0000_0000_0000;

/// Base of the dispatch-key range for TCP over IPv4.
pub const TCP_V4_KEY_BASE: u64 = 0x4_0000_0000_0000;

/// Base of the dispatch-key range for TCP over IPv6.
pub const TCP_V6_KEY_BASE: u64 = 0x5_0000_0000_0000;

/// An IP address, v4 or v6. The version discrimination and the numeric
/// fields are preserved exactly.
#[derive(Clone, Copy, Debug, PartialEq, Eq, Structural)]
pub enum IpAddress {
    /// Four octets, most significant first.
    V4(u8, u8, u8, u8),
    /// The sixteen octets as one number, most significant octet highest.
    V6(u128),
}

/// Payload of a local (in-process) address: a numeric value and the count of
/// wire-significant bytes of that value.
#[derive(Clone, Copy, Debug, PartialEq, Eq, Structural)]
pub struct LocalAddress {
    /// Number of wire-significant bytes of `address`; structurally valid
    /// between 1 and 4. A length of 0 marks an empty placeholder.
    pub length: u8,
    /// The numeric address value; it is the dispatch key.
    pub address: u32,
}

/// A routing destination: a closed set of kinds, each carrying its payload.
///
/// TCP endpoints carry a key-derivation rule but no entry in the default-key
/// table yet: routing one falls back to
/// [`RoutingError::UnimplementedAddressKind`](crate::error::RoutingError)
/// until a default policy is decided.
#[derive(Clone, Copy, Debug, PartialEq, Eq, Structural)]
pub enum Address {
    /// A local in-process destination.
    LocalAddress(LocalAddress),
    /// A UDP endpoint: IP address and port.
    UdpAddress(IpAddress, u16),
    /// A TCP endpoint: IP address and port.
    TcpAddress(IpAddress, u16),
}

/// The 32 low bits of an IP address that enter key derivation: the whole of a
/// v4 address, the low 32 bits of a v6 address.
pub open spec fn ip_low32(ip: IpAddress) -> int {
    match ip {
        IpAddress::V4(a, b, c, d) => a * 0x100_0000 + b * 0x1_0000 + c * 0x100 + d,
        IpAddress::V6(x) => (x as int) % 0x1_0000_0000,
    }
}

/// Whether an address is structurally able to yield a dispatch key.
/// Only a local address with a length outside 1..=4 (e.g. an empty
/// placeholder) is malformed; endpoint addresses always yield a key.
pub open spec fn addr_key_ok(a: Address) -> bool {
    match a {
        Address::LocalAddress(l) => 1 <= l.length <= 4,
        Address::UdpAddress(_, _) => true,
        Address::TcpAddress(_, _) => true,
    }
}

/// The dispatch key of an address: a pure, stable function of the address
/// value alone. Meaningful when [`addr_key_ok`] holds.
pub open spec fn addr_key(a: Address) -> u64 {
    match a {
        Address::LocalAddress(l) => l.address as u64,
        Address::UdpAddress(ip, port) => (udp_key_base(ip) + ip_low32(ip) * 0x1_0000
            + port) as u64,
        Address::TcpAddress(ip, port) => (tcp_key_base(ip) + ip_low32(ip) * 0x1_0000
            + port) as u64,
    }
}

/// Key-range base of a UDP endpoint, by IP version.
pub open spec fn udp_key_base(ip: IpAddress) -> int {
    match ip {
        IpAddress::V4(_, _, _, _) => UDP_V4_KEY_BASE as int,
        IpAddress::V6(_) => UDP_V6_KEY_BASE as int,
    }
}

/// Key-range base of a TCP endpoint, by IP version.
pub open spec fn tcp_key_base(ip: IpAddress) -> int {
    match ip {
        IpAddress::V4(_, _, _, _) => TCP_V4_KEY_BASE as int,
        IpAddress::V6(_) => TCP_V6_KEY_BASE as int,
    }
}

/// What `get_key` returns: the derived key, or the key-derivation error for a
/// malformed address.
pub open spec fn get_key_spec(a: Address) -> Result<u64, RoutingError> {
    if addr_key_ok(a) {
        Ok(addr_key(a))
    } else {
        Err(RoutingError::AddressKeyError)
    }
}

/// The default-key table: the per-kind fallback dispatch key, consulted when
/// an address's own key has no registered handler. Total over the kinds with
/// a decided default policy; a kind without an entry cannot fall back.
pub open spec fn default_key_of(a: Address) -> Option<u64> {
    match a {
        Address::LocalAddress(_) => Some(DEFAULT_LOCAL_KEY),
        Address::UdpAddress(_, _) => Some(DEFAULT_UDP_KEY),
        Address::TcpAddress(_, _) => None,
    }
}

impl IpAddress {
    /// The 32 low bits that enter key derivation.
    pub fn low32(&self) -> (r: u64)
        ensures
            r == ip_low32(*self),
            r < 0x1_0000_0000,
    {
        match *self {
            IpAddress::V4(a, b, c, d) => (a as u64) * 0x100_0000 + (b as u64) * 0x1_0000 + (
            c as u64) * 0x100 + (d as u64),
            IpAddress::V6(x) => (x % 0x1_0000_0000) as u64,
        }
    }
}

impl Address {
    /// Derives this address's dispatch key.
    ///
    /// The result is a pure function of the address value alone, so repeated
    /// calls on equal addresses return equal keys. Fails exactly on addresses
    /// whose payload is structurally unable to yield a key.
    pub fn get_key(&self) -> (r: Result<u64, RoutingError>)
        ensures
            r == get_key_spec(*self),
    {
        match *self {
            Address::LocalAddress(l) => {
                if 1 <= l.length && l.length <= 4 {
                    Ok(l.address as u64)
                } else {
                    Err(RoutingError::AddressKeyError)
                }
            },
            Address::UdpAddress(ip, port) => {
                let base: u64 = match ip {
                    IpAddress::V4(_, _, _, _) => UDP_V4_KEY_BASE,
                    IpAddress::V6(_) => UDP_V6_KEY_BASE,
                };
                Ok(base + ip.low32() * 0x1_0000 + (port as u64))
            },
            Address::TcpAddress(ip, port) => {
                let base: u64 = match ip {
                    IpAddress::V4(_, _, _, _) => TCP_V4_KEY_BASE,
                    IpAddress::V6(_) => TCP_V6_KEY_BASE,
                };
                Ok(base + ip.low32() * 0x1_0000 + (port as u64))
            },
        }
    }

    /// Looks this address's kind up in the default-key table.
    pub fn default_key(&self) -> (r: Option<u64>)
        ensures
            r == default_key_of(*self),
    {
        match *self {
            Address::LocalAddress(_) => Some(DEFAULT_LOCAL_KEY),
            Address::UdpAddress(_, _) => Some(DEFAULT_UDP_KEY),
            Address::TcpAddress(_, _) => None,
        }
    }
}

} // verus!
