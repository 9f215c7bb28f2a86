//! The ways in which a request can be turned down.

use vstd::prelude::*;

verus! {

/// Failures that arise below the escrow rules.
#[derive(Debug, Clone, Copy, PartialEq, Eq, Structural)]
pub enum StdErrorKind {
    /// No record is stored under the requested key.
    NotFound {},
    /// A sum of amounts does not fit in 128 bits.
    Overflow {},
    /// A transfer call could not be encoded.
    SerializeErr {},
}

/// Failures of the escrow rules.
#[derive(Debug, Clone, Copy, PartialEq, Eq, Structural)]
pub enum ContractError {
    Std(StdErrorKind),
    /// The requester may not perform the operation.
    Unauthorized {},
    /// The deposited token is not on the escrow's whitelist.
    NotInWhitelist {},
    /// The deposit carries no value.
    EmptyBalance {},
    /// An escrow with this id exists already.
    AlreadyInUse {},
}

} // verus!
