//! Accounts as they are presented to an operation.

use crate::pubkey::Pubkey;
use vstd::prelude::*;

verus! {

/// What the program reads of one account that an operation was given.
#[derive(Clone, Debug, PartialEq, Eq)]
pub struct AccountInfo {
    /// The account's address.
    pub key: Pubkey,
    /// Whether the account signed the transaction.
    pub is_signer: bool,
    /// Whether the operation may change the account.
    pub is_writable: bool,
    /// The account's balance, in lamports.
    pub lamports: u64,
    /// The data the account stores.
    pub data: Vec<u8>,
    /// The program that owns the account.
    pub owner: Pubkey,
}

} // verus!
