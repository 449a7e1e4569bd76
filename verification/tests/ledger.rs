use pda_vault::address::{Address, DerivedAddress};
use pda_vault::error::{LedgerFault, VaultError};
use pda_vault::ledger::{
    Authorization, AuthorityProof, CreateAccount, Ledger, TokenAccount, Transfer,
};

fn named(n: u8) -> Address {
    Address::new([n; 32])
}

fn first_key() -> Address {
    let mut bytes = [0x66u8; 32];
    bytes[0] = 0x58;
    Address::new(bytes)
}

fn second_key() -> Address {
    let mut bytes = [0u8; 32];
    bytes[0] = 1;
    Address::new(bytes)
}

fn derived_under(program: u8) -> DerivedAddress {
    pda_vault::address::derive(&named(program), b"vault").unwrap()
}

fn signed(from: Address, to: Address, authority: Address, amount: u64) -> Transfer {
    Transfer { from, to, authority, authorization: Authorization::Signature { verified: true }, amount }
}

fn proved(program: u8, seed: &[u8], bump: u8) -> Authorization {
    Authorization::Derived {
        program_id: named(program),
        proof: AuthorityProof { seed: seed.to_vec(), bump },
    }
}

fn two_accounts() -> Ledger {
    let mut ledger = Ledger::new();
    ledger
        .open_account(TokenAccount { address: named(1), mint: named(9), authority: first_key(), balance: 40 })
        .unwrap();
    ledger
        .open_account(TokenAccount { address: named(2), mint: named(9), authority: second_key(), balance: 2 })
        .unwrap();
    ledger
}

#[test]
fn new_ledger_is_empty() {
    let ledger = Ledger::new();
    assert!(!ledger.contains(&named(1)));
    assert_eq!(ledger.balance_of(&named(1)), None);
    assert!(ledger.account(&named(1)).is_none());
}

#[test]
fn open_account_keeps_what_it_is_given() {
    let ledger = two_accounts();
    let account = ledger.account(&named(2)).unwrap();
    assert_eq!(account.address, named(2));
    assert_eq!(account.mint, named(9));
    assert_eq!(account.authority, second_key());
    assert_eq!(account.balance, 2);
    assert_eq!(ledger.balance_of(&named(1)), Some(40));
    assert!(ledger.contains(&named(1)));
    assert!(!ledger.contains(&named(3)));
}

#[test]
fn open_account_refuses_an_address_in_use() {
    let mut ledger = two_accounts();
    let again = TokenAccount { address: named(1), mint: named(8), authority: named(13), balance: 7 };
    assert_eq!(ledger.open_account(again), Err(LedgerFault::AccountInUse));
    let account = ledger.account(&named(1)).unwrap();
    assert_eq!(account.mint, named(9));
    assert_eq!(account.authority, first_key());
    assert_eq!(account.balance, 40);
}

#[test]
fn create_account_starts_empty() {
    let mut ledger = two_accounts();
    let request = CreateAccount { account: named(3), mint: named(9), authority: named(3) };
    assert_eq!(ledger.create_account(&request), Ok(()));
    let account = ledger.account(&named(3)).unwrap();
    assert_eq!(account.balance, 0);
    assert_eq!(account.authority, named(3));
    assert_eq!(account.mint, named(9));
    assert_eq!(ledger.create_account(&request), Err(LedgerFault::AccountInUse));
    assert_eq!(ledger.balance_of(&named(1)), Some(40));
}

#[test]
fn transfer_moves_the_amount() {
    let mut ledger = two_accounts();
    assert_eq!(ledger.transfer(&signed(named(1), named(2), first_key(), 15)), Ok(()));
    assert_eq!(ledger.balance_of(&named(1)), Some(25));
    assert_eq!(ledger.balance_of(&named(2)), Some(17));
    assert_eq!(ledger.transfer(&signed(named(1), named(2), first_key(), 25)), Ok(()));
    assert_eq!(ledger.balance_of(&named(1)), Some(0));
    assert_eq!(ledger.balance_of(&named(2)), Some(42));
}

#[test]
fn transfer_of_nothing_changes_nothing() {
    let mut ledger = two_accounts();
    assert_eq!(ledger.transfer(&signed(named(1), named(2), first_key(), 0)), Ok(()));
    assert_eq!(ledger.balance_of(&named(1)), Some(40));
    assert_eq!(ledger.balance_of(&named(2)), Some(2));
}

#[test]
fn transfer_to_itself_changes_nothing() {
    let mut ledger = two_accounts();
    assert_eq!(ledger.transfer(&signed(named(1), named(1), first_key(), 40)), Ok(()));
    assert_eq!(ledger.balance_of(&named(1)), Some(40));
    assert_eq!(
        ledger.transfer(&signed(named(1), named(1), first_key(), 41)),
        Err(LedgerFault::InsufficientFunds)
    );
}

#[test]
fn transfer_to_itself_at_the_limit() {
    let mut ledger = Ledger::new();
    ledger
        .open_account(TokenAccount {
            address: named(1),
            mint: named(9),
            authority: first_key(),
            balance: u64::MAX,
        })
        .unwrap();
    assert_eq!(ledger.transfer(&signed(named(1), named(1), first_key(), 5)), Ok(()));
    assert_eq!(ledger.balance_of(&named(1)), Some(u64::MAX));
}

#[test]
fn transfer_refusals_come_in_order() {
    let mut ledger = two_accounts();
    ledger
        .open_account(TokenAccount { address: named(3), mint: named(8), authority: named(13), balance: u64::MAX })
        .unwrap();
    let unsigned = Transfer {
        from: named(1),
        to: named(2),
        authority: first_key(),
        authorization: Authorization::Signature { verified: false },
        amount: 1,
    };
    assert_eq!(ledger.transfer(&signed(named(7), named(8), first_key(), 1)), Err(LedgerFault::AccountNotFound));
    assert_eq!(ledger.transfer(&signed(named(1), named(8), named(10), 41)), Err(LedgerFault::InsufficientFunds));
    assert_eq!(ledger.transfer(&signed(named(1), named(8), named(10), 40)), Err(LedgerFault::AccountNotFound));
    assert_eq!(ledger.transfer(&signed(named(1), named(3), named(10), 40)), Err(LedgerFault::MintMismatch));
    assert_eq!(ledger.transfer(&signed(named(1), named(2), named(10), 40)), Err(LedgerFault::OwnerMismatch));
    assert_eq!(ledger.transfer(&signed(named(1), named(2), second_key(), 40)), Err(LedgerFault::OwnerMismatch));
    assert_eq!(ledger.transfer(&unsigned), Err(LedgerFault::MissingSignature));
    assert_eq!(ledger.balance_of(&named(1)), Some(40));
    assert_eq!(ledger.balance_of(&named(2)), Some(2));
    assert_eq!(ledger.balance_of(&named(3)), Some(u64::MAX));
}

#[test]
fn transfer_refuses_what_the_destination_cannot_hold() {
    let mut ledger = Ledger::new();
    ledger
        .open_account(TokenAccount { address: named(1), mint: named(9), authority: first_key(), balance: 40 })
        .unwrap();
    ledger
        .open_account(TokenAccount { address: named(2), mint: named(9), authority: second_key(), balance: u64::MAX - 3 })
        .unwrap();
    assert_eq!(ledger.transfer(&signed(named(1), named(2), first_key(), 4)), Err(LedgerFault::Overflow));
    assert_eq!(ledger.balance_of(&named(1)), Some(40));
    assert_eq!(ledger.transfer(&signed(named(1), named(2), first_key(), 3)), Ok(()));
    assert_eq!(ledger.balance_of(&named(1)), Some(37));
    assert_eq!(ledger.balance_of(&named(2)), Some(u64::MAX));
}

#[test]
fn known_keys_can_sign() {
    assert!(first_key().can_sign());
    assert!(second_key().can_sign());
    assert_ne!(first_key(), second_key());
}

#[test]
fn derived_addresses_cannot_sign() {
    for program in 0..40u8 {
        assert!(!derived_under(program).address.can_sign());
    }
}

#[test]
fn signature_speaks_when_verified() {
    assert!(Authorization::Signature { verified: true }.check(&first_key()));
    assert!(!Authorization::Signature { verified: false }.check(&first_key()));
}

#[test]
fn signature_never_speaks_for_a_derived_address() {
    let derived = derived_under(20);
    assert!(!Authorization::Signature { verified: true }.check(&derived.address));
    assert!(!Authorization::Signature { verified: false }.check(&derived.address));
}

#[test]
fn proof_speaks_for_the_derived_address_only() {
    let derived = derived_under(20);
    assert!(proved(20, b"vault", derived.bump).check(&derived.address));
    assert!(!proved(20, b"vault", derived.bump).check(&named(20)));
    assert!(!proved(20, b"vault", derived.bump.wrapping_sub(1)).check(&derived.address));
    assert!(!proved(20, b"vaults", derived.bump).check(&derived.address));
    assert!(!proved(21, b"vault", derived.bump).check(&derived.address));
    assert!(!proved(20, &[0u8; 33], derived.bump).check(&derived.address));
}

#[test]
fn transfer_under_a_proof() {
    let derived = derived_under(20);
    let mut ledger = two_accounts();
    ledger
        .open_account(TokenAccount {
            address: derived.address,
            mint: named(9),
            authority: derived.address,
            balance: 10,
        })
        .unwrap();
    let signed_for = signed(derived.address, named(2), derived.address, 4);
    assert_eq!(ledger.transfer(&signed_for), Err(LedgerFault::MissingSignature));
    let forged = Transfer {
        from: derived.address,
        to: named(2),
        authority: derived.address,
        authorization: proved(21, b"vault", derived.bump),
        amount: 4,
    };
    assert_eq!(ledger.transfer(&forged), Err(LedgerFault::MissingSignature));
    assert_eq!(ledger.balance_of(&derived.address), Some(10));
    let honest = Transfer {
        from: derived.address,
        to: named(2),
        authority: derived.address,
        authorization: proved(20, b"vault", derived.bump),
        amount: 4,
    };
    assert_eq!(ledger.transfer(&honest), Ok(()));
    assert_eq!(ledger.balance_of(&derived.address), Some(6));
    assert_eq!(ledger.balance_of(&named(2)), Some(6));
}

#[test]
fn ledger_faults_become_vault_errors() {
    assert_eq!(VaultError::from_fault(LedgerFault::AccountInUse), VaultError::AlreadyInitialized);
    assert_eq!(VaultError::from_fault(LedgerFault::InsufficientFunds), VaultError::InsufficientBalance);
    for fault in [
        LedgerFault::AccountNotFound,
        LedgerFault::MintMismatch,
        LedgerFault::OwnerMismatch,
        LedgerFault::MissingSignature,
        LedgerFault::Overflow,
    ] {
        assert_eq!(VaultError::from_fault(fault), VaultError::LedgerError(fault));
    }
}
