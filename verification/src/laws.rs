//! What holds of the vault's operations taken together.

use crate::accounts::{Context, InitializeVault, UseVault};
use crate::address::{is_curve_point, program_address};
use crate::authorizer::is_derived;
use crate::error::VaultError;
use crate::ledger::{transfer_spec, AccountState, Authorization, LedgerState};
use crate::vault::{deposit_spec, initialize_vault_spec, vault_address, withdraw_spec};
use vstd::prelude::*;

verus! {

/// The vault is created exactly once: after one creation has succeeded,
/// every further request to create it at the derived address of the same
/// program fails with `AlreadyInitialized`.
pub proof fn lemma_initialize_once(
    first: Context<InitializeVault>,
    second: Context<InitializeVault>,
    state: LedgerState,
)
    requires
        first.program_id@ == second.program_id@,
        is_derived(vault_address(second.program_id@), second.accounts.vault_token_account@),
        initialize_vault_spec(first, state) is Ok,
    ensures
        initialize_vault_spec(second, initialize_vault_spec(first, state)->Ok_0) == Err::<
            LedgerState,
            VaultError,
        >(VaultError::AlreadyInitialized),
{
}

/// Creating the vault adds one account and touches no other: the vault,
/// with the mint that the request names and no balance, under its own
/// address as its authority.
pub proof fn lemma_initialize_makes_own_authority(
    context: Context<InitializeVault>,
    state: LedgerState,
)
    requires
        initialize_vault_spec(context, state) is Ok,
    ensures
        ({
            let vault = context.accounts.vault_token_account@;
            let after = initialize_vault_spec(context, state)->Ok_0;
            &&& is_derived(vault_address(context.program_id@), vault)
            &&& !state.contains_key(vault)
            &&& after == state.insert(
                vault,
                AccountState { mint: context.accounts.mint@, authority: vault, balance: 0 },
            )
        }),
{
}

/// No signature moves what the vault holds. Where the vault is its own
/// authority and its address is no point of the curve, as every derived
/// address is, a transfer out of it that the ledger carries out was made
/// under the vault's authority and authorized by a seed and a bump seed
/// that derive the vault's address under the program that asked.
pub proof fn lemma_vault_obeys_only_its_proof(
    state: LedgerState,
    vault: Seq<u8>,
    to: Seq<u8>,
    authority: Seq<u8>,
    authorization: Authorization,
    amount: u64,
)
    requires
        !is_curve_point(vault),
        state.contains_key(vault),
        state[vault].authority == vault,
        transfer_spec(state, vault, to, authority, authorization.speaks_for(authority), amount) is Ok,
    ensures
        authority == vault,
        authorization matches Authorization::Derived { program_id, proof } && program_address(
            proof.seed@,
            program_id@,
        ) == Some((vault, proof.bump)),
{
}

/// Deposits and withdrawals neither create nor remove accounts, and change
/// neither the mint nor the authority of any: a vault once created stays
/// created, and its own authority.
pub proof fn lemma_transfers_keep_accounts(
    context: Context<UseVault>,
    amount: u64,
    state: LedgerState,
    address: Seq<u8>,
)
    ensures
        deposit_spec(context, amount, state) matches Ok(after) ==> {
            &&& after.contains_key(address) == state.contains_key(address)
            &&& after[address].mint == state[address].mint
            &&& after[address].authority == state[address].authority
        },
        withdraw_spec(context, amount, state) matches Ok(after) ==> {
            &&& after.contains_key(address) == state.contains_key(address)
            &&& after[address].mint == state[address].mint
            &&& after[address].authority == state[address].authority
        },
{
}

/// A withdrawal fails with `AddressMismatch` for every vault address but
/// the derived one, whatever that address holds.
pub proof fn lemma_withdraw_needs_derived_address(
    context: Context<UseVault>,
    amount: u64,
    state: LedgerState,
)
    requires
        !is_derived(vault_address(context.program_id@), context.accounts.vault_token_account@),
    ensures
        withdraw_spec(context, amount, state) == Err::<LedgerState, VaultError>(
            VaultError::AddressMismatch,
        ),
{
}

/// A deposit followed by a withdrawal of the same amount, both of which
/// succeed, leaves the vault as it was, takes the amount from the
/// depositor's account and adds it to the destination, and touches no
/// other account. Neither account is the vault itself.
pub proof fn lemma_deposit_then_withdraw(
    paying: Context<UseVault>,
    drawing: Context<UseVault>,
    amount: u64,
    state: LedgerState,
)
    requires
        paying.program_id@ == drawing.program_id@,
        paying.accounts.signer_token_account@ != paying.accounts.vault_token_account@,
        drawing.accounts.signer_token_account@ != drawing.accounts.vault_token_account@,
        deposit_spec(paying, amount, state) is Ok,
        withdraw_spec(drawing, amount, deposit_spec(paying, amount, state)->Ok_0) is Ok,
    ensures
        ({
            let vault = paying.accounts.vault_token_account@;
            let depositor = paying.accounts.signer_token_account@;
            let destination = drawing.accounts.signer_token_account@;
            let end = withdraw_spec(drawing, amount, deposit_spec(paying, amount, state)->Ok_0)->Ok_0;
            &&& drawing.accounts.vault_token_account@ == vault
            &&& end.dom() == state.dom()
            &&& end[vault] == state[vault]
            &&& depositor != destination ==> {
                &&& end[depositor].balance == state[depositor].balance - amount
                &&& end[destination].balance == state[destination].balance + amount
            }
            &&& depositor == destination ==> end[depositor] == state[depositor]
            &&& forall|other: Seq<u8>|
                other != depositor && other != destination ==> end[other] == state[other]
        }),
{
    let middle = deposit_spec(paying, amount, state)->Ok_0;
    let end = withdraw_spec(drawing, amount, middle)->Ok_0;
    assert(end.dom() =~= state.dom());
}

/// A transfer that the ledger carries out loses and duplicates nothing:
/// what the source and the destination hold together stays the same, and
/// no other account changes.
pub proof fn lemma_transfer_conserves(
    state: LedgerState,
    from: Seq<u8>,
    to: Seq<u8>,
    authority: Seq<u8>,
    authorized: bool,
    amount: u64,
)
    requires
        transfer_spec(state, from, to, authority, authorized, amount) is Ok,
    ensures
        ({
            let after = transfer_spec(state, from, to, authority, authorized, amount)->Ok_0;
            &&& after.dom() == state.dom()
            &&& from != to ==> after[from].balance + after[to].balance == state[from].balance
                + state[to].balance
            &&& from == to ==> after[from].balance == state[from].balance
            &&& forall|other: Seq<u8>|
                other != from && other != to ==> after[other] == state[other]
        }),
{
    let after = transfer_spec(state, from, to, authority, authorized, amount)->Ok_0;
    assert(after.dom() =~= state.dom());
}

/// A deposit of nothing is refused and changes no balance.
pub proof fn lemma_deposit_of_nothing(context: Context<UseVault>, state: LedgerState)
    ensures
        deposit_spec(context, 0, state) is Err,
{
}

/// A withdrawal of more than the vault holds fails with
/// `InsufficientBalance`, where the vault address is the derived one and
/// the vault exists.
pub proof fn lemma_withdraw_beyond_balance(
    context: Context<UseVault>,
    amount: u64,
    state: LedgerState,
)
    requires
        is_derived(vault_address(context.program_id@), context.accounts.vault_token_account@),
        state.contains_key(context.accounts.vault_token_account@),
        amount > state[context.accounts.vault_token_account@].balance,
    ensures
        withdraw_spec(context, amount, state) == Err::<LedgerState, VaultError>(
            VaultError::InsufficientBalance,
        ),
{
}

} // verus!
