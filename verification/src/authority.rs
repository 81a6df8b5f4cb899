//! The derived authority: an address that belongs to the program and has no
//! private key.
//!
//! The address is a function of a fixed seed and of the program's own
//! address. It is computed anew whenever it is needed, never stored, and the
//! program authorizes calls in its name by giving the seed and the bump that
//! the derivation found.

use crate::pubkey::{lemma_from_own_bytes, Pubkey};
use vstd::prelude::*;

verus! {

/// An address derived for a program, with the bump that makes it one.
#[derive(Clone, Copy, Debug, PartialEq, Eq)]
pub struct ProgramAddress {
    /// The derived address.
    pub key: Pubkey,
    /// The byte that the derivation appended to the seed.
    pub bump: u8,
}

/// What the derivation gives for a seed and a program address: the derived
/// address and the bump that was appended to the seed, or nothing if no
/// bump leads to an address off the curve.
pub uninterp spec fn program_address(seed: Seq<u8>, program_id: Seq<u8>) -> Option<(Seq<u8>, u8)>;

/// What a derivation found, the address as its bytes.
pub open spec fn found(derived: Option<(Pubkey, u8)>) -> Option<(Seq<u8>, u8)> {
    match derived {
        Some((key, bump)) => Some((key@, bump)),
        None => None,
    }
}

/// The seed of the escrow's authority: the ASCII bytes of `token`.
pub open spec fn spec_authority_seed() -> Seq<u8> {
    seq![116u8, 111u8, 107u8, 101u8, 110u8]
}

/// The seed of the escrow's authority: the ASCII bytes of `token`.
pub fn authority_seed() -> (seed: Vec<u8>)
    ensures
        seed@ == spec_authority_seed(),
{
    vec![116u8, 111u8, 107u8, 101u8, 110u8]
}

/// Derives an address with `Pubkey::try_find_program_address` of
/// `solana_program`, from one seed.
///
/// Assumed of solana_program: what is found, or that nothing is, depends on
/// the seed and the program address alone, and the call does not panic.
#[verifier::external_body]
pub(crate) fn find_program_address(seed: &[u8], program_id: &Pubkey) -> (r: Option<(Pubkey, u8)>)
    ensures
        found(r) == program_address(seed@, program_id@),
{
    let program = program_id.0.into();
    let (key, bump) = solana_program::pubkey::Pubkey::try_find_program_address(&[seed], &program)?;
    Some((Pubkey(key.to_bytes()), bump))
}

/// The escrow's authority and its bump: what the derivation gives for the
/// seed `token` and the escrow program's address.
pub open spec fn derived_authority() -> Option<ProgramAddress> {
    match program_address(spec_authority_seed(), crate::spec_id()@) {
        Some((key, bump)) => Some(ProgramAddress { key: Pubkey::spec_from_bytes(key), bump }),
        None => None,
    }
}

/// Computes the escrow's authority and its bump.
pub fn derive_authority() -> (r: Option<ProgramAddress>)
    ensures
        r == derived_authority(),
{
    let seed = authority_seed();
    let program_id = crate::id();
    match find_program_address(seed.as_slice(), &program_id) {
        Some((key, bump)) => {
            proof {
                lemma_from_own_bytes(key);
            }
            Some(ProgramAddress { key, bump })
        },
        None => None,
    }
}

} // verus!
