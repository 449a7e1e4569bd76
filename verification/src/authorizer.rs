//! The vault's decisions: which requests it hands to the ledger, and under
//! whose authority.

use crate::accounts::{InitializeVault, UseVault};
use crate::address::{vault_seed, vault_seed_bytes, Address, DerivedAddress};
use crate::error::VaultError;
use crate::ledger::{Authorization, AuthorityProof, CreateAccount, Transfer};
use vstd::prelude::*;

verus! {

/// Whether `address` is the address that the derivation gave.
pub open spec fn is_derived(derived: Option<(Seq<u8>, u8)>, address: Seq<u8>) -> bool {
    derived matches Some(pair) && pair.0 == address
}

/// Why a request to create the vault is turned down before the ledger sees
/// it, if it is.
pub open spec fn initialize_refusal(
    derived: Option<(Seq<u8>, u8)>,
    accounts: InitializeVault,
) -> Option<VaultError> {
    if !is_derived(derived, accounts.vault_token_account@) {
        Some(VaultError::AddressMismatch)
    } else {
        None
    }
}

/// Why a deposit is turned down before the ledger sees it, if it is.
pub open spec fn deposit_refusal(
    derived: Option<(Seq<u8>, u8)>,
    accounts: UseVault,
    amount: u64,
) -> Option<VaultError> {
    if !accounts.signer.is_signer {
        Some(VaultError::Unauthorized)
    } else if !is_derived(derived, accounts.vault_token_account@) {
        Some(VaultError::AddressMismatch)
    } else if amount == 0 {
        Some(VaultError::ZeroAmount)
    } else {
        None
    }
}

/// Why a withdrawal is turned down before the ledger sees it, if it is.
pub open spec fn withdraw_refusal(
    derived: Option<(Seq<u8>, u8)>,
    accounts: UseVault,
    amount: u64,
) -> Option<VaultError> {
    if !is_derived(derived, accounts.vault_token_account@) {
        Some(VaultError::AddressMismatch)
    } else if amount == 0 {
        Some(VaultError::ZeroAmount)
    } else {
        None
    }
}

/// The view of a derivation's outcome.
pub open spec fn derived_view(derived: Option<DerivedAddress>) -> Option<(Seq<u8>, u8)> {
    match derived {
        Some(d) => Some(d@),
        None => None,
    }
}

/// Whether the supplied address is the derived one.
fn matches_derived(derived: &Option<DerivedAddress>, address: &Address) -> (same: bool)
    ensures
        same == is_derived(derived_view(*derived), address@),
{
    match derived {
        Some(d) => d.address == *address,
        None => false,
    }
}

/// Decides on a request to create the vault, given the outcome of the
/// derivation: the account is created at the derived address, with the
/// mint that the request names, and is its own authority.
pub fn authorize_initialize(derived: Option<DerivedAddress>, accounts: &InitializeVault) -> (decision:
    Result<CreateAccount, VaultError>)
    ensures
        match decision {
            Ok(request) => {
                &&& initialize_refusal(derived_view(derived), *accounts) is None
                &&& request.account@ == accounts.vault_token_account@
                &&& request.mint@ == accounts.mint@
                &&& request.authority@ == accounts.vault_token_account@
            },
            Err(error) => initialize_refusal(derived_view(derived), *accounts) == Some(error),
        },
{
    if !matches_derived(&derived, &accounts.vault_token_account) {
        return Err(VaultError::AddressMismatch);
    }
    Ok(
        CreateAccount {
            account: accounts.vault_token_account,
            mint: accounts.mint,
            authority: accounts.vault_token_account,
        },
    )
}

/// Decides on a deposit, given the outcome of the derivation: the amount
/// moves from the signer's token account to the vault, under the signer's
/// own signature.
pub fn authorize_deposit(derived: Option<DerivedAddress>, accounts: &UseVault, amount: u64) -> (decision:
    Result<Transfer, VaultError>)
    ensures
        match decision {
            Ok(request) => {
                &&& deposit_refusal(derived_view(derived), *accounts, amount) is None
                &&& request.from@ == accounts.signer_token_account@
                &&& request.to@ == accounts.vault_token_account@
                &&& request.authority@ == accounts.signer.key@
                &&& request.authorization == (Authorization::Signature { verified: true })
                &&& request.amount == amount
            },
            Err(error) => deposit_refusal(derived_view(derived), *accounts, amount) == Some(error),
        },
{
    if !accounts.signer.is_signer {
        return Err(VaultError::Unauthorized);
    }
    if !matches_derived(&derived, &accounts.vault_token_account) {
        return Err(VaultError::AddressMismatch);
    }
    if amount == 0 {
        return Err(VaultError::ZeroAmount);
    }
    Ok(
        Transfer {
            from: accounts.signer_token_account,
            to: accounts.vault_token_account,
            authority: accounts.signer.key,
            authorization: Authorization::Signature { verified: true },
            amount,
        },
    )
}

/// Decides on a withdrawal, given the outcome of the derivation under
/// `program_id`: the amount moves from the vault to the signer's token
/// account, under the vault's own authority, for which the fixed seed and
/// the derived bump seed stand.
pub fn authorize_withdraw(
    derived: Option<DerivedAddress>,
    program_id: &Address,
    accounts: &UseVault,
    amount: u64,
) -> (decision: Result<Transfer, VaultError>)
    ensures
        match decision {
            Ok(request) => {
                &&& withdraw_refusal(derived_view(derived), *accounts, amount) is None
                &&& request.from@ == accounts.vault_token_account@
                &&& request.to@ == accounts.signer_token_account@
                &&& request.authority@ == accounts.vault_token_account@
                &&& request.authorization matches Authorization::Derived { program_id: asking, proof }
                &&& asking@ == program_id@
                &&& proof.seed@ == vault_seed()
                &&& derived matches Some(d)
                &&& proof.bump == d.bump
                &&& request.amount == amount
            },
            Err(error) => withdraw_refusal(derived_view(derived), *accounts, amount) == Some(error),
        },
{
    let bump = match derived {
        Some(d) => {
            if d.address != accounts.vault_token_account {
                return Err(VaultError::AddressMismatch);
            }
            d.bump
        },
        None => {
            return Err(VaultError::AddressMismatch);
        },
    };
    if amount == 0 {
        return Err(VaultError::ZeroAmount);
    }
    let seed = vault_seed_bytes();
    Ok(
        Transfer {
            from: accounts.vault_token_account,
            to: accounts.signer_token_account,
            authority: accounts.vault_token_account,
            authorization: Authorization::Derived {
                program_id: *program_id,
                proof: AuthorityProof { seed, bump },
            },
            amount,
        },
    )
}

} // verus!
