//! Trustless two-party token escrow: the instruction codec, the fixed-layout
//! escrow record, and the state-transition engine that validates accounts and
//! emits the ledger calls to perform.

pub mod account;
pub mod authority;
pub mod cpi;
pub mod error;
pub mod instructions;
pub mod processor;
pub mod pubkey;
pub mod rent;
pub mod state;
pub mod token;
pub mod wire;

use crate::pubkey::Pubkey;
use vstd::prelude::*;

verus! {

/// The address of the escrow program,
/// `CCFRSaHpLGbGnFkTRaeSxYdBZtGP9sa6LhPHBNRqtFu8`.
pub open spec fn spec_id() -> Pubkey {
    Pubkey(
        [
            166, 82, 64, 92, 161, 28, 128, 109, 194, 9, 249, 63, 193, 10, 170, 103,
            239, 14, 225, 91, 28, 239, 108, 80, 236, 41, 147, 98, 77, 9, 115, 255,
        ],
    )
}

/// The address of the escrow program.
#[verifier::when_used_as_spec(spec_id)]
pub fn id() -> (key: Pubkey)
    ensures
        key == spec_id(),
{
    Pubkey(
        [
            166, 82, 64, 92, 161, 28, 128, 109, 194, 9, 249, 63, 193, 10, 170, 103,
            239, 14, 225, 91, 28, 239, 108, 80, 236, 41, 147, 98, 77, 9, 115, 255,
        ],
    )
}

/// Whether `key` is the address of the escrow program.
pub fn check_id(key: &Pubkey) -> (same: bool)
    ensures
        same == (*key == spec_id()),
{
    *key == id()
}

} // verus!
