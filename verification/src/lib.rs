//! A verified model of a minimal on-ledger counter program.
//!
//! The program keeps a single persistent counter, stored as eight
//! little-endian bytes at the start of one account's data buffer, and
//! exposes two operations: create-and-initialize the counter's backing
//! account, and atomically increment it.  Accounts, instruction bytes and
//! the request sent to the external account-creation service are all
//! modelled as plain byte values, so every decoding, validation and state
//! transition is stated and proved here.

pub mod account;
pub mod codec;
pub mod cpi;
pub mod handlers;
pub mod instruction;
pub mod laws;
pub mod service;

use vstd::prelude::*;

verus! {

/// The failure kinds an invocation can report to the host.
///
/// Every operation is all-or-nothing: on any of these the host rolls back
/// all account mutations, so a handler that fails must leave the supplied
/// accounts exactly as it found them.
#[derive(Clone, Copy, Debug, PartialEq, Eq, Structural)]
pub enum ProgramError {
    /// The instruction bytes are empty or carry an unknown discriminant.
    InvalidInstructionData,
    /// Fewer accounts were supplied than the operation needs.
    NotEnoughAccountKeys,
    /// A required signer did not sign the invocation.
    MissingRequiredSignature,
    /// The counter account is not owned by this program.
    IllegalOwner,
    /// The counter account's data buffer does not hold a counter yet.
    UninitializedAccount,
    /// The data buffer is too short for the value being written.
    AccountDataTooSmall,
    /// A semantically invalid target, such as asking the account-creation
    /// service to create its own account, or to create one already in use.
    InvalidAccountData,
    /// Exclusive access to an account's data buffer was requested while a
    /// live borrow of it was already held.
    AccountBorrowFailed,
    /// The payer cannot fund the account-creation request.
    InsufficientFunds,
}

} // verus!
