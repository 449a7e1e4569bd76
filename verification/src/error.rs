//! The reasons for which the ledger and the vault refuse a request.

use vstd::prelude::*;

verus! {

/// Why the ledger refused a request.
#[derive(Clone, Copy, Debug, PartialEq, Eq, Structural)]
pub enum LedgerFault {
    /// An account already exists at the address to be created.
    AccountInUse,
    /// No account exists at the source or at the destination.
    AccountNotFound,
    /// The source holds less than the amount to be moved.
    InsufficientFunds,
    /// Source and destination hold different mints.
    MintMismatch,
    /// The authority named is not the authority of the source.
    OwnerMismatch,
    /// The authority named has not authorized the request.
    MissingSignature,
    /// The destination cannot hold the amount on top of its balance.
    Overflow,
}

/// Why a vault operation failed.
#[derive(Clone, Copy, Debug, PartialEq, Eq, Structural)]
pub enum VaultError {
    /// The vault address supplied is not the derived address.
    AddressMismatch,
    /// An account already exists at the vault address.
    AlreadyInitialized,
    /// The depositor has not signed.
    Unauthorized,
    /// The amount to be moved is zero.
    ZeroAmount,
    /// The source holds less than the amount to be moved.
    InsufficientBalance,
    /// Any other refusal of the ledger, handed on as it came.
    LedgerError(LedgerFault),
}

impl VaultError {
    /// The vault error that stands for the ledger's refusal `fault`.
    pub open spec fn of_fault(fault: LedgerFault) -> VaultError {
        match fault {
            LedgerFault::AccountInUse => VaultError::AlreadyInitialized,
            LedgerFault::InsufficientFunds => VaultError::InsufficientBalance,
            _ => VaultError::LedgerError(fault),
        }
    }

    /// Turns a refusal of the ledger into the error that the caller sees.
    pub fn from_fault(fault: LedgerFault) -> (error: VaultError)
        ensures
            error == VaultError::of_fault(fault),
    {
        match fault {
            LedgerFault::AccountInUse => VaultError::AlreadyInitialized,
            LedgerFault::InsufficientFunds => VaultError::InsufficientBalance,
            other => VaultError::LedgerError(other),
        }
    }
}

} // verus!
