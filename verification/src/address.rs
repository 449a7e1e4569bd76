//! Addresses and the derivation of the vault's own address.

use anchor_lang::prelude::Pubkey;
use vstd::prelude::*;

verus! {

/// A 32-byte account address. Its view is the sequence of its bytes.
#[derive(Clone, Copy, Debug, Eq)]
pub struct Address {
    pub bytes: [u8; 32],
}

impl View for Address {
    type V = Seq<u8>;

    open spec fn view(&self) -> Seq<u8> {
        self.bytes@
    }
}

impl PartialEq for Address {
    fn eq(&self, other: &Address) -> (same: bool) {
        let mut i: usize = 0;
        while i < 32
            invariant
                i <= 32,
                forall|k: int| 0 <= k < i ==> self.bytes@[k] == other.bytes@[k],
            decreases 32 - i,
        {
            if self.bytes[i] != other.bytes[i] {
                return false;
            }
            i += 1;
        }
        assert(self.bytes@ =~= other.bytes@);
        true
    }
}

impl vstd::std_specs::cmp::PartialEqSpecImpl for Address {
    open spec fn obeys_eq_spec() -> bool {
        true
    }

    open spec fn eq_spec(&self, other: &Address) -> bool {
        self@ == other@
    }
}

impl Address {
    /// Whether the address is a point of the curve, so that a private key
    /// can belong to it and sign for it.
    pub fn can_sign(&self) -> (answer: bool)
        ensures
            answer == is_curve_point(self@),
    {
        on_curve(self)
    }

    /// The address made of `bytes`.
    pub fn new(bytes: [u8; 32]) -> (address: Address)
        ensures
            address@ == bytes@,
    {
        Address { bytes }
    }

    /// The bytes of the address.
    pub fn to_bytes(&self) -> (bytes: [u8; 32])
        ensures
            bytes@ == self@,
    {
        self.bytes
    }
}

/// The longest seed, in bytes, that the derivation accepts.
pub const MAX_SEED_LEN: usize = 32;

/// The fixed seed of the vault: the ASCII bytes of `vault`.
pub open spec fn vault_seed() -> Seq<u8> {
    seq![118u8, 97u8, 117u8, 108u8, 116u8]
}

/// The fixed seed of the vault as bytes.
pub fn vault_seed_bytes() -> (seed: Vec<u8>)
    ensures
        seed@ == vault_seed(),
{
    let seed: Vec<u8> = vec![118u8, 97u8, 117u8, 108u8, 116u8];
    assert(seed@ =~= vault_seed());
    seed
}

/// A derived address together with the bump seed that produced it.
#[derive(Clone, Copy, Debug)]
pub struct DerivedAddress {
    pub address: Address,
    pub bump: u8,
}

impl View for DerivedAddress {
    type V = (Seq<u8>, u8);

    open spec fn view(&self) -> (Seq<u8>, u8) {
        (self.address@, self.bump)
    }
}

/// Whether `Pubkey::is_on_curve` finds the 32 bytes `address` to be a point
/// of the ed25519 curve, that is, a key that a private key can belong to.
pub uninterp spec fn is_curve_point(address: Seq<u8>) -> bool;

/// The address and bump seed that `Pubkey::try_find_program_address` yields
/// for the single seed `seed` under the program `program_id`, or `None`
/// where it finds no bump seed.
pub uninterp spec fn program_address(seed: Seq<u8>, program_id: Seq<u8>) -> Option<(Seq<u8>, u8)>;

/// Calls `Pubkey::is_on_curve`. The test reads the 32 bytes and nothing
/// else, so its answer is the one that `is_curve_point` names for them.
#[verifier::external_body]
fn on_curve(address: &Address) -> (answer: bool)
    ensures
        answer == is_curve_point(address@),
{
    Pubkey::new_from_array(address.bytes).is_on_curve()
}

/// Calls `Pubkey::try_find_program_address` with the one seed `seed`. The
/// search hashes its arguments and nothing else, so the outcome is the one
/// that `program_address` names for them. It returns an address only
/// after the same test that `Pubkey::is_on_curve` makes has found it to be
/// no point of the curve, and none for a seed of more than 32 bytes.
#[verifier::external_body]
fn find_program_address(seed: &[u8], program_id: &Address) -> (found: Option<(Address, u8)>)
    ensures
        match found {
            Some(pair) => program_address(seed@, program_id@) == Some((pair.0@, pair.1))
                && !is_curve_point(pair.0@),
            None => program_address(seed@, program_id@) is None,
        },
        seed@.len() > MAX_SEED_LEN ==> found is None,
{
    let id = Pubkey::new_from_array(program_id.bytes);
    let found = Pubkey::try_find_program_address(&[seed], &id);
    found.map(|pair| (Address::new(pair.0.to_bytes()), pair.1))
}

/// Whether `derived` is the outcome of the derivation for `seed` under the
/// program `program_id`.
pub open spec fn is_outcome(
    derived: Option<DerivedAddress>,
    seed: Seq<u8>,
    program_id: Seq<u8>,
) -> bool {
    match derived {
        Some(d) => program_address(seed, program_id) == Some(d@),
        None => program_address(seed, program_id) is None,
    }
}

/// Derives the address that belongs to `seed` under the program
/// `program_id`, with its bump seed. Nothing else enters the derivation, so
/// the same arguments always give the same outcome. The address is no
/// point of the curve: no private key belongs to it. A seed of more than
/// `MAX_SEED_LEN` bytes derives nothing.
pub fn derive(program_id: &Address, seed: &[u8]) -> (derived: Option<DerivedAddress>)
    ensures
        is_outcome(derived, seed@, program_id@),
        derived matches Some(d) ==> !is_curve_point(d.address@),
        seed@.len() > MAX_SEED_LEN ==> derived is None,
{
    match find_program_address(seed, program_id) {
        Some(pair) => Some(DerivedAddress { address: pair.0, bump: pair.1 }),
        None => None,
    }
}

/// Addresses with the same bytes are the same address.
pub proof fn lemma_address_ext(a: Address, b: Address)
    requires
        a@ == b@,
    ensures
        a == b,
{
    assert(a.bytes =~= b.bytes);
}

/// The derivation is deterministic: two outcomes for the same seed and the
/// same program are the same address with the same bump seed, or both none.
pub proof fn lemma_derive_deterministic(
    first: Option<DerivedAddress>,
    second: Option<DerivedAddress>,
    seed: Seq<u8>,
    program_id: Seq<u8>,
)
    requires
        is_outcome(first, seed, program_id),
        is_outcome(second, seed, program_id),
    ensures
        first == second,
{
    if let Some(a) = first {
        let b = second->Some_0;
        lemma_address_ext(a.address, b.address);
    }
}

} // verus!
