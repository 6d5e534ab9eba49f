//! Error taxonomy of the routing core.
//!
//! Every failure is returned to the immediate caller as a result value; the
//! core never retries and never swallows an error.

use vstd::prelude::*;

verus! {

/// Failure reported by a handler. The router treats it as opaque: it is
/// wrapped in [`RoutingError::HandlerFailed`] and never interpreted.
#[derive(Clone, Copy, Debug, PartialEq, Eq, Structural)]
pub struct HandlerError {
    /// Handler-chosen diagnostic code, carried through unchanged.
    pub code: u64,
}

/// Failure of a registry operation.
#[derive(Clone, Copy, Debug, PartialEq, Eq, Structural)]
pub enum RegistryError {
    /// Registration was attempted under a key that is already bound.
    /// Overwriting an existing binding is rejected.
    DuplicateKey,
}

/// Failure of a router entry point.
#[derive(Clone, Copy, Debug, PartialEq, Eq, Structural)]
pub enum RoutingError {
    /// An address's dispatch key could not be derived (malformed payload).
    AddressKeyError,
    /// Registration was attempted under a key that is already bound.
    DuplicateKey,
    /// Neither the derived key nor the variant's default key has a handler.
    UnregisteredHandler,
    /// The address variant has no entry in the default-key table.
    UnimplementedAddressKind,
    /// The resolved handler itself reported failure; the cause is preserved.
    HandlerFailed(HandlerError),
}

} // verus!
