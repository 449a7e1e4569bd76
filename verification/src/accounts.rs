//! The accounts that a request names, as the vault reads them.

use crate::address::Address;
use vstd::prelude::*;

verus! {

/// The account on whose behalf a request is made, and whether the host has
/// verified its signature over the request.
#[derive(Clone, Copy, Debug)]
pub struct Signer {
    pub key: Address,
    pub is_signer: bool,
}

/// The accounts of a request to create the vault.
#[derive(Clone, Copy, Debug)]
pub struct InitializeVault {
    pub mint: Address,
    pub vault_token_account: Address,
}

/// The accounts of a deposit or a withdrawal. The signer's token account
/// is the source of a deposit and the destination of a withdrawal.
#[derive(Clone, Copy, Debug)]
pub struct UseVault {
    pub signer: Signer,
    pub signer_token_account: Address,
    pub vault_token_account: Address,
}

/// A request as it reaches the vault: the program it is addressed to and
/// the accounts it names.
#[derive(Debug)]
pub struct Context<T> {
    pub program_id: Address,
    pub accounts: T,
}

impl<T: Copy> Clone for Context<T> {
    fn clone(&self) -> (copy: Context<T>)
        ensures
            copy == *self,
    {
        Context { program_id: self.program_id, accounts: self.accounts }
    }
}

impl<T: Copy> Copy for Context<T> {

}

} // verus!
