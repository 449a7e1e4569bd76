//! An in-memory token ledger: accounts by address, each with a mint, an
//! authority and a balance, and the two requests that the vault makes of it.

use crate::address::{is_curve_point, program_address, Address};
use crate::error::LedgerFault;
use vstd::prelude::*;

verus! {

/// What the ledger holds of one account.
pub struct AccountState {
    pub mint: Seq<u8>,
    pub authority: Seq<u8>,
    pub balance: u64,
}

/// A ledger as a map from addresses to accounts.
pub type LedgerState = Map<Seq<u8>, AccountState>;

/// One account of the ledger.
#[derive(Clone, Copy, Debug)]
pub struct TokenAccount {
    pub address: Address,
    pub mint: Address,
    pub authority: Address,
    pub balance: u64,
}

impl View for TokenAccount {
    type V = AccountState;

    open spec fn view(&self) -> AccountState {
        AccountState { mint: self.mint@, authority: self.authority@, balance: self.balance }
    }
}

/// The seed and bump seed that stand for the signature of a derived address.
#[derive(Debug)]
pub struct AuthorityProof {
    pub seed: Vec<u8>,
    pub bump: u8,
}

/// How the authority of a transfer authorizes it.
#[derive(Debug)]
pub enum Authorization {
    /// By a signature of its own private key, which the host has verified
    /// or not.
    Signature { verified: bool },
    /// By the seed and bump seed that derive it under the program that asks.
    Derived { program_id: Address, proof: AuthorityProof },
}

impl Authorization {
    /// Whether this authorization speaks for `authority`. A signature does
    /// where the host has verified it and `authority` is a point of the
    /// curve, so that a private key can belong to it. A proof does where
    /// the derivation under the program that asks gives `authority`, with
    /// the same bump seed.
    pub open spec fn speaks_for(&self, authority: Seq<u8>) -> bool {
        match self {
            Authorization::Signature { verified } => *verified && is_curve_point(authority),
            Authorization::Derived { program_id, proof } => program_address(
                proof.seed@,
                program_id@,
            ) == Some((authority, proof.bump)),
        }
    }

    /// Decides whether this authorization speaks for `authority`, deriving
    /// the address anew where a proof is presented.
    pub fn check(&self, authority: &Address) -> (accepted: bool)
        ensures
            accepted == self.speaks_for(authority@),
    {
        match self {
            Authorization::Signature { verified } => *verified && authority.can_sign(),
            Authorization::Derived { program_id, proof } => {
                match crate::address::derive(program_id, proof.seed.as_slice()) {
                    Some(derived) => derived.address == *authority && derived.bump == proof.bump,
                    None => false,
                }
            },
        }
    }
}

/// A request to create an account with no balance.
#[derive(Clone, Copy, Debug)]
pub struct CreateAccount {
    pub account: Address,
    pub mint: Address,
    pub authority: Address,
}

/// A request to move `amount` from one account to another.
#[derive(Debug)]
pub struct Transfer {
    pub from: Address,
    pub to: Address,
    pub authority: Address,
    pub authorization: Authorization,
    pub amount: u64,
}

/// What opening `account` at `address` makes of the ledger `state`: refused
/// where the address is in use, else the ledger with that account added.
pub open spec fn open_account_spec(
    state: LedgerState,
    address: Seq<u8>,
    account: AccountState,
) -> Result<LedgerState, LedgerFault> {
    if state.contains_key(address) {
        Err(LedgerFault::AccountInUse)
    } else {
        Ok(state.insert(address, account))
    }
}

/// What a transfer makes of the ledger `state`. The checks come in this
/// order: the source exists, it holds the amount, the destination exists,
/// the mints agree, the authority is that of the source, the authority has
/// authorized the request, the destination can hold the amount. A transfer
/// from an account to itself that passes the checks changes nothing.
pub open spec fn transfer_spec(
    state: LedgerState,
    from: Seq<u8>,
    to: Seq<u8>,
    authority: Seq<u8>,
    authorized: bool,
    amount: u64,
) -> Result<LedgerState, LedgerFault> {
    if !state.contains_key(from) {
        Err(LedgerFault::AccountNotFound)
    } else if state[from].balance < amount {
        Err(LedgerFault::InsufficientFunds)
    } else if !state.contains_key(to) {
        Err(LedgerFault::AccountNotFound)
    } else if state[from].mint != state[to].mint {
        Err(LedgerFault::MintMismatch)
    } else if state[from].authority != authority {
        Err(LedgerFault::OwnerMismatch)
    } else if !authorized {
        Err(LedgerFault::MissingSignature)
    } else if from == to {
        Ok(state)
    } else if state[to].balance + amount > u64::MAX {
        Err(LedgerFault::Overflow)
    } else {
        Ok(
            state.insert(
                from,
                AccountState { balance: (state[from].balance - amount) as u64, ..state[from] },
            ).insert(to, AccountState { balance: (state[to].balance + amount) as u64, ..state[to] }),
        )
    }
}

/// The accounts of the ledger, no two at one address.
pub struct Ledger {
    accounts: Vec<TokenAccount>,
}

/// Whether `i` is the place of the account at `address`.
spec fn at(accounts: Seq<TokenAccount>, address: Seq<u8>, i: int) -> bool {
    0 <= i < accounts.len() && accounts[i].address@ == address
}

/// Whether no two accounts share an address.
spec fn distinct(accounts: Seq<TokenAccount>) -> bool {
    forall|i: int, j: int|
        0 <= i < j < accounts.len() ==> accounts[i].address@ != accounts[j].address@
}

/// The map that a list of accounts stands for.
spec fn state_of(accounts: Seq<TokenAccount>) -> LedgerState {
    Map::new(
        |address: Seq<u8>| exists|i: int| at(accounts, address, i),
        |address: Seq<u8>| accounts[choose|i: int| at(accounts, address, i)]@,
    )
}

/// In a list without repeated addresses, the account at `address` is the
/// one that the map holds for it.
proof fn lemma_state_at(accounts: Seq<TokenAccount>, address: Seq<u8>, i: int)
    requires
        distinct(accounts),
        at(accounts, address, i),
    ensures
        state_of(accounts).contains_key(address),
        state_of(accounts)[address] == accounts[i]@,
{
    let j = choose|j: int| at(accounts, address, j);
    assert(at(accounts, address, j));
    if i < j {
        assert(accounts[i].address@ != accounts[j].address@);
    } else if j < i {
        assert(accounts[j].address@ != accounts[i].address@);
    }
}

/// Replacing an account by one at the same address replaces its entry in
/// the map and keeps the addresses distinct.
proof fn lemma_state_update(accounts: Seq<TokenAccount>, i: int, account: TokenAccount)
    requires
        distinct(accounts),
        at(accounts, account.address@, i),
    ensures
        distinct(accounts.update(i, account)),
        state_of(accounts.update(i, account)) == state_of(accounts).insert(
            account.address@,
            account@,
        ),
{
    let after = accounts.update(i, account);
    assert forall|k: int, j: int| 0 <= k < j < after.len() implies after[k].address@
        != after[j].address@ by {
        assert(accounts[k].address@ != accounts[j].address@);
    }
    assert forall|a: Seq<u8>| #[trigger]
        state_of(after).contains_key(a) == state_of(accounts).insert(
            account.address@,
            account@,
        ).contains_key(a) by {
        if exists|k: int| at(after, a, k) {
            let k = choose|k: int| at(after, a, k);
            assert(at(accounts, a, k));
        }
        if exists|k: int| at(accounts, a, k) {
            let k = choose|k: int| at(accounts, a, k);
            assert(at(after, a, k));
        }
        assert(at(after, account.address@, i));
    }
    assert forall|a: Seq<u8>| #[trigger] state_of(after).contains_key(a) implies state_of(
        after,
    )[a] == state_of(accounts).insert(account.address@, account@)[a] by {
        let k = choose|k: int| at(after, a, k);
        lemma_state_at(after, a, k);
        if a == account.address@ {
            assert(at(after, a, i));
            lemma_state_at(after, a, i);
        } else {
            assert(at(accounts, a, k));
            lemma_state_at(accounts, a, k);
        }
    }
    assert(state_of(after) =~= state_of(accounts).insert(account.address@, account@));
}

impl View for Ledger {
    type V = LedgerState;

    closed spec fn view(&self) -> LedgerState {
        state_of(self.accounts@)
    }
}

impl Ledger {
    #[verifier::type_invariant]
    spec fn inv(self) -> bool {
        distinct(self.accounts@)
    }

    /// A ledger without accounts.
    pub fn new() -> (ledger: Ledger)
        ensures
            ledger@ == Map::<Seq<u8>, AccountState>::empty(),
    {
        let ledger = Ledger { accounts: Vec::new() };
        assert(ledger@ =~= Map::<Seq<u8>, AccountState>::empty());
        ledger
    }

    /// The place of the account at `address`, if there is one.
    fn find(&self, address: &Address) -> (place: Option<usize>)
        ensures
            match place {
                Some(i) => at(self.accounts@, address@, i as int),
                None => forall|i: int| !at(self.accounts@, address@, i),
            },
    {
        let mut i: usize = 0;
        while i < self.accounts.len()
            invariant
                i <= self.accounts@.len(),
                forall|k: int| 0 <= k < i ==> !at(self.accounts@, address@, k),
            decreases self.accounts@.len() - i,
        {
            if self.accounts[i].address == *address {
                return Some(i);
            }
            i += 1;
        }
        None
    }

    /// Whether an account exists at `address`.
    pub fn contains(&self, address: &Address) -> (found: bool)
        ensures
            found == self@.contains_key(address@),
    {
        self.find(address).is_some()
    }

    /// The account at `address`, if there is one.
    pub fn account(&self, address: &Address) -> (account: Option<TokenAccount>)
        ensures
            match account {
                Some(a) => self@.contains_key(address@) && a@ == self@[address@] && a.address@
                    == address@,
                None => !self@.contains_key(address@),
            },
    {
        proof {
            use_type_invariant(self);
        }
        match self.find(address) {
            Some(i) => Some(self.accounts[i]),
            None => None,
        }
    }

    /// The balance of the account at `address`, if there is one.
    pub fn balance_of(&self, address: &Address) -> (balance: Option<u64>)
        ensures
            match balance {
                Some(b) => self@.contains_key(address@) && b == self@[address@].balance,
                None => !self@.contains_key(address@),
            },
    {
        match self.account(address) {
            Some(a) => Some(a.balance),
            None => None,
        }
    }
    /// Adds `account` to the ledger, with the balance it brings, unless its
    /// address is in use.
    pub fn open_account(&mut self, account: TokenAccount) -> (outcome: Result<(), LedgerFault>)
        ensures
            match open_account_spec(old(self)@, account.address@, account@) {
                Ok(state) => outcome is Ok && final(self)@ == state,
                Err(fault) => outcome == Err::<(), LedgerFault>(fault) && final(self)@ == old(
                    self,
                )@,
            },
    {
        proof {
            use_type_invariant(&*self);
        }
        if self.find(&account.address).is_some() {
            return Err(LedgerFault::AccountInUse);
        }
        let ghost before = self.accounts@;
        let mut accounts: Vec<TokenAccount> = Vec::new();
        std::mem::swap(&mut self.accounts, &mut accounts);
        accounts.push(account);
        let ghost after = accounts@;
        assert(distinct(after)) by {
            assert forall|i: int, j: int| 0 <= i < j < after.len() implies after[i].address@
                != after[j].address@ by {
                if j == before.len() {
                    assert(!at(before, account.address@, i));
                }
            }
        }
        std::mem::swap(&mut self.accounts, &mut accounts);
        proof {
            assert(at(after, account.address@, before.len() as int));
            assert forall|a: Seq<u8>| #[trigger]
                state_of(after).contains_key(a) == state_of(before).insert(
                    account.address@,
                    account@,
                ).contains_key(a) by {
                if exists|i: int| at(after, a, i) {
                    let i = choose|i: int| at(after, a, i);
                    if i < before.len() {
                        assert(at(before, a, i));
                    }
                }
                if exists|i: int| at(before, a, i) {
                    let i = choose|i: int| at(before, a, i);
                    assert(at(after, a, i));
                }
            }
            assert forall|a: Seq<u8>| #[trigger] state_of(after).contains_key(a) implies state_of(
                after,
            )[a] == state_of(before).insert(account.address@, account@)[a] by {
                let i = choose|i: int| at(after, a, i);
                if a != account.address@ {
                    assert(at(before, a, i));
                    let j = choose|j: int| at(before, a, j);
                    assert(at(after, a, j));
                }
            }
            assert(state_of(after) =~= state_of(before).insert(account.address@, account@));
        }
        Ok(())
    }

    /// Creates the account that `request` describes, with no balance,
    /// unless its address is in use.
    pub fn create_account(&mut self, request: &CreateAccount) -> (outcome: Result<(), LedgerFault>)
        ensures
            match open_account_spec(
                old(self)@,
                request.account@,
                AccountState { mint: request.mint@, authority: request.authority@, balance: 0 },
            ) {
                Ok(state) => outcome is Ok && final(self)@ == state,
                Err(fault) => outcome == Err::<(), LedgerFault>(fault) && final(self)@ == old(
                    self,
                )@,
            },
    {
        self.open_account(
            TokenAccount {
                address: request.account,
                mint: request.mint,
                authority: request.authority,
                balance: 0,
            },
        )
    }
    /// Carries out the transfer that `request` describes, or refuses it and
    /// leaves every account as it was.
    pub fn transfer(&mut self, request: &Transfer) -> (outcome: Result<(), LedgerFault>)
        ensures
            match transfer_spec(
                old(self)@,
                request.from@,
                request.to@,
                request.authority@,
                request.authorization.speaks_for(request.authority@),
                request.amount,
            ) {
                Ok(state) => outcome is Ok && final(self)@ == state,
                Err(fault) => outcome == Err::<(), LedgerFault>(fault) && final(self)@ == old(
                    self,
                )@,
            },
    {
        proof {
            use_type_invariant(&*self);
        }
        let ghost before = self.accounts@;
        let i = match self.find(&request.from) {
            Some(i) => i,
            None => {
                return Err(LedgerFault::AccountNotFound);
            },
        };
        proof {
            lemma_state_at(before, request.from@, i as int);
        }
        let source = self.accounts[i];
        if source.balance < request.amount {
            return Err(LedgerFault::InsufficientFunds);
        }
        let j = match self.find(&request.to) {
            Some(j) => j,
            None => {
                return Err(LedgerFault::AccountNotFound);
            },
        };
        proof {
            lemma_state_at(before, request.to@, j as int);
        }
        let destination = self.accounts[j];
        if source.mint != destination.mint {
            return Err(LedgerFault::MintMismatch);
        }
        if source.authority != request.authority {
            return Err(LedgerFault::OwnerMismatch);
        }
        if !request.authorization.check(&request.authority) {
            return Err(LedgerFault::MissingSignature);
        }
        if i == j {
            return Ok(());
        }
        if destination.balance > u64::MAX - request.amount {
            return Err(LedgerFault::Overflow);
        }
        let debited = TokenAccount {
            address: source.address,
            mint: source.mint,
            authority: source.authority,
            balance: source.balance - request.amount,
        };
        let credited = TokenAccount {
            address: destination.address,
            mint: destination.mint,
            authority: destination.authority,
            balance: destination.balance + request.amount,
        };
        proof {
            lemma_state_update(before, i as int, debited);
            lemma_state_update(before.update(i as int, debited), j as int, credited);
        }
        let mut accounts: Vec<TokenAccount> = Vec::new();
        std::mem::swap(&mut self.accounts, &mut accounts);
        accounts[i] = debited;
        accounts[j] = credited;
        std::mem::swap(&mut self.accounts, &mut accounts);
        Ok(())
    }
}

} // verus!
