//! A verified core for a minimal privileged "create account" operation in a
//! ledger-style execution environment.
//!
//! The crate decodes a fixed wire format, validates positional account slots,
//! builds a delegated allocation request, simulates its execution against a
//! synthetic snapshot, and records resource consumption per variant.

use vstd::prelude::*;

pub mod account;
pub mod codec;
pub mod declarative;
pub mod ids;
pub mod invoke;
pub mod laws;
pub mod lowlevel;
pub mod metrics;
pub mod minimal;
pub mod simulate;
pub mod validate;

verus! {

/// The errors an instruction execution can end in.
#[derive(Clone, Copy, Debug, PartialEq, Eq, Structural)]
pub enum ExecError {
    /// The payload is shorter than the fields it claims to contain.
    InvalidPayload,
    /// The discriminator matches no registered operation.
    UnknownOperation,
    /// The instruction did not supply exactly three account slots.
    MissingAccounts,
    /// A required signer flag is missing on the payer or new-account slot.
    MissingSignature,
    /// The allocator slot does not reference the well-known allocator.
    WrongProgramOwner,
    /// The new account already holds a balance.
    AlreadyInitialized,
    /// The delegated allocator call itself failed; the inner error passes
    /// through unchanged.
    DelegatedCallFailure(AllocError),
}

/// The failures the privileged allocator can report for a delegated call.
#[derive(Clone, Copy, Debug, PartialEq, Eq, Structural)]
pub enum AllocError {
    /// The funding account cannot cover the requested balance.
    InsufficientFunds,
    /// The target account is already in use.
    AccountInUse,
}

} // verus!
