//! Error taxonomy of the administrative core.

use vstd::prelude::*;

verus! {

/// Tagged failure of an operation. Every error is terminal for the call:
/// the call's state change is abandoned whole, never partially applied.
#[derive(Clone, Copy, Debug, PartialEq, Eq, Structural)]
pub enum AdminError {
    /// initialize-config: the Config Record already exists.
    AlreadyInitialized,
    /// update-config or payment: the Config Record does not exist yet.
    ConfigNotFound,
    /// update-config: the caller is not the record's admin reference.
    Unauthorized,
    /// payment: the payer's holder lacks the requested amount.
    InsufficientFunds,
    /// payment: the fee computation or a balance movement would wrap.
    ArithmeticOverflow,
    /// initialize-config: record allocation by the runtime collaborator
    /// failed. Raised by that collaborator and propagated unchanged; no
    /// operation of this library produces it itself.
    AllocationFailed,
}

} // verus!
