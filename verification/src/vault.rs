//! The three operations of the vault, carried out on a ledger.

use crate::accounts::{Context, InitializeVault, UseVault};
use crate::address::{is_curve_point, program_address, vault_seed, vault_seed_bytes};
use crate::authorizer::{
    authorize_deposit, authorize_initialize, authorize_withdraw, deposit_refusal,
    initialize_refusal, is_derived, withdraw_refusal,
};
use crate::error::{LedgerFault, VaultError};
use crate::ledger::{open_account_spec, transfer_spec, AccountState, Ledger, LedgerState};
use vstd::prelude::*;

verus! {

/// The address of the vault of the program `program_id`, with its bump
/// seed: what the derivation gives for the fixed seed.
pub open spec fn vault_address(program_id: Seq<u8>) -> Option<(Seq<u8>, u8)> {
    program_address(vault_seed(), program_id)
}

/// The outcome of an operation, given what the ledger made of its request.
pub open spec fn settled(outcome: Result<LedgerState, LedgerFault>) -> Result<
    LedgerState,
    VaultError,
> {
    match outcome {
        Ok(state) => Ok(state),
        Err(fault) => Err(VaultError::of_fault(fault)),
    }
}

/// What creating the vault makes of the ledger `state`.
pub open spec fn initialize_vault_spec(
    context: Context<InitializeVault>,
    state: LedgerState,
) -> Result<LedgerState, VaultError> {
    let accounts = context.accounts;
    match initialize_refusal(vault_address(context.program_id@), accounts) {
        Some(error) => Err(error),
        None => settled(
            open_account_spec(
                state,
                accounts.vault_token_account@,
                AccountState {
                    mint: accounts.mint@,
                    authority: accounts.vault_token_account@,
                    balance: 0,
                },
            ),
        ),
    }
}

/// What a deposit of `amount` makes of the ledger `state`.
pub open spec fn deposit_spec(context: Context<UseVault>, amount: u64, state: LedgerState) -> Result<
    LedgerState,
    VaultError,
> {
    let accounts = context.accounts;
    match deposit_refusal(vault_address(context.program_id@), accounts, amount) {
        Some(error) => Err(error),
        None => settled(
            transfer_spec(
                state,
                accounts.signer_token_account@,
                accounts.vault_token_account@,
                accounts.signer.key@,
                is_curve_point(accounts.signer.key@),
                amount,
            ),
        ),
    }
}

/// What a withdrawal of `amount` makes of the ledger `state`.
pub open spec fn withdraw_spec(context: Context<UseVault>, amount: u64, state: LedgerState) -> Result<
    LedgerState,
    VaultError,
> {
    let accounts = context.accounts;
    match withdraw_refusal(vault_address(context.program_id@), accounts, amount) {
        Some(error) => Err(error),
        None => settled(
            transfer_spec(
                state,
                accounts.vault_token_account@,
                accounts.signer_token_account@,
                accounts.vault_token_account@,
                true,
                amount,
            ),
        ),
    }
}

/// Whether `ledger` is what `expected` says of an operation that left
/// `outcome` and started from `before`: the new state where it succeeded,
/// the old one and the error where it did not.
pub open spec fn carried_out(
    expected: Result<LedgerState, VaultError>,
    outcome: Result<(), VaultError>,
    before: LedgerState,
    after: LedgerState,
) -> bool {
    match expected {
        Ok(state) => outcome is Ok && after == state,
        Err(error) => outcome == Err::<(), VaultError>(error) && after == before,
    }
}

/// Hands on what the ledger answered.
fn settle(answer: Result<(), LedgerFault>) -> (outcome: Result<(), VaultError>)
    ensures
        match answer {
            Ok(_) => outcome is Ok,
            Err(fault) => outcome == Err::<(), VaultError>(VaultError::of_fault(fault)),
        },
{
    match answer {
        Ok(_) => Ok(()),
        Err(fault) => Err(VaultError::from_fault(fault)),
    }
}

/// Creates the vault: an account at the derived address, with the mint
/// that the request names and no balance, which is its own authority. Fails
/// with `AddressMismatch` where the address supplied is not the derived
/// one, else with `AlreadyInitialized` where an account exists there.
pub fn initialize_vault(context: Context<InitializeVault>, ledger: &mut Ledger) -> (outcome: Result<
    (),
    VaultError,
>)
    ensures
        carried_out(initialize_vault_spec(context, old(ledger)@), outcome, old(ledger)@, final(ledger)@),
        outcome is Err ==> final(ledger)@ == old(ledger)@,
        outcome is Ok ==> final(ledger)@.contains_key(context.accounts.vault_token_account@),
        is_derived(vault_address(context.program_id@), context.accounts.vault_token_account@)
            && old(ledger)@.contains_key(context.accounts.vault_token_account@) ==> outcome == Err::<
            (),
            VaultError,
        >(VaultError::AlreadyInitialized),
{
    let seed = vault_seed_bytes();
    let derived = crate::address::derive(&context.program_id, seed.as_slice());
    match authorize_initialize(derived, &context.accounts) {
        Ok(request) => settle(ledger.create_account(&request)),
        Err(error) => Err(error),
    }
}

/// Moves `amount` from the signer's token account into the vault, under
/// the signer's signature. Fails with `Unauthorized` where the signer has
/// not signed, else with `AddressMismatch` where the vault address
/// supplied is not the derived one, else with `ZeroAmount`, else as the
/// ledger refuses: it takes a signature only for a key that can sign. A
/// deposit that fails changes nothing.
pub fn deposit(context: Context<UseVault>, amount: u64, ledger: &mut Ledger) -> (outcome: Result<
    (),
    VaultError,
>)
    ensures
        carried_out(deposit_spec(context, amount, old(ledger)@), outcome, old(ledger)@, final(ledger)@),
        outcome is Err ==> final(ledger)@ == old(ledger)@,
        amount == 0 ==> outcome is Err,
{
    let seed = vault_seed_bytes();
    let derived = crate::address::derive(&context.program_id, seed.as_slice());
    match authorize_deposit(derived, &context.accounts, amount) {
        Ok(request) => settle(ledger.transfer(&request)),
        Err(error) => Err(error),
    }
}

/// Moves `amount` from the vault to the signer's token account, under the
/// vault's own authority, which only the derivation can present. Fails
/// with `AddressMismatch` where the vault address supplied is not the one
/// derived anew for this call, else with `ZeroAmount`, else as the ledger
/// refuses. A withdrawal that fails changes nothing.
pub fn withdraw(context: Context<UseVault>, amount: u64, ledger: &mut Ledger) -> (outcome: Result<
    (),
    VaultError,
>)
    ensures
        carried_out(withdraw_spec(context, amount, old(ledger)@), outcome, old(ledger)@, final(ledger)@),
        outcome is Err ==> final(ledger)@ == old(ledger)@,
        !is_derived(vault_address(context.program_id@), context.accounts.vault_token_account@)
            ==> outcome == Err::<(), VaultError>(VaultError::AddressMismatch),
        is_derived(vault_address(context.program_id@), context.accounts.vault_token_account@)
            && old(ledger)@.contains_key(context.accounts.vault_token_account@) && amount > old(
            ledger,
        )@[context.accounts.vault_token_account@].balance ==> outcome == Err::<(), VaultError>(
            VaultError::InsufficientBalance,
        ),
{
    let seed = vault_seed_bytes();
    let derived = crate::address::derive(&context.program_id, seed.as_slice());
    match authorize_withdraw(derived, &context.program_id, &context.accounts, amount) {
        Ok(request) => settle(ledger.transfer(&request)),
        Err(error) => Err(error),
    }
}

} // verus!
