//! Typed failures of the custody protocol.
//!
//! Every failure is surfaced synchronously to the caller; none is
//! logged-and-swallowed, and a failing call leaves all accounts unchanged.

use vstd::prelude::*;

verus! {

/// A failure of a deposit or release call.
#[derive(Clone, Copy, PartialEq, Eq, Structural, Debug)]
pub enum EscrowError {
    /// No bump seed yields a key-less derived address for the owner.
    DerivationFailed,
    /// A supplied account does not match the protocol's derivation for the
    /// owner, or is not owned by the account the protocol expects.
    InvalidDerivedAccount,
    /// The presented transfer authority does not own the funding account.
    InvalidAuthority,
    /// The caller's decimal precision differs from the asset's configured
    /// precision.
    PrecisionMismatch,
    /// The funding account holds less than the requested amount.
    InsufficientFunds,
    /// The destination balance would exceed the representable maximum.
    BalanceOverflow,
    /// The streaming service rejected the composed stream parameters.
    StreamRejected,
}

/// A failure reported by the external streaming service.
#[derive(Clone, Copy, PartialEq, Eq, Structural, Debug)]
pub enum StreamError {
    /// The service considered the stream parameters invalid.
    InvalidParameters,
}

} // verus!
