//! The escrow record and its 105-byte layout.
//!
//! | offset | size | field                            |
//! |--------|------|----------------------------------|
//! | 0      | 32   | `user_sender`                    |
//! | 32     | 1    | `is_initialized`                 |
//! | 33     | 32   | `escrow_token_account`           |
//! | 65     | 32   | `senders_token_receiver_account` |
//! | 97     | 8    | `expected_amount`, little-endian |
//!
//! There is no padding and no version tag.

use crate::error::ProgramError;
use crate::pubkey::{lemma_from_bytes, lemma_from_own_bytes, Pubkey};
use crate::wire::{
    le_bytes, le_u64, lemma_le_bytes_of_le_u64, lemma_le_u64_of_le_bytes, u64_from_borsh,
    u64_to_borsh,
};
use vstd::prelude::*;
use vstd::slice::slice_subrange;

verus! {

/// Size in bytes of a stored escrow record.
pub const ESCROW_LEN: usize = 105;

/// The state of one trade.
#[derive(Clone, Copy, Debug)]
pub struct Escrow {
    /// The initiator: the party who deposited tokens and will receive the
    /// reciprocal payment.
    pub user_sender: Pubkey,
    /// 1 once the record is active; anything else means it is free.
    pub is_initialized: u8,
    /// The holding account: the token account that keeps the deposit, owned
    /// by the derived authority for the lifetime of the trade.
    pub escrow_token_account: Pubkey,
    /// The initiator's token account that will receive the reciprocal payment.
    pub senders_token_receiver_account: Pubkey,
    /// Quantity of the reciprocal asset that releases the deposit.
    pub expected_amount: u64,
}

impl Escrow {
    /// The 105 bytes that store this record.
    pub open spec fn packed(self) -> Seq<u8> {
        self.user_sender@ + seq![self.is_initialized] + self.escrow_token_account@
            + self.senders_token_receiver_account@ + le_bytes(self.expected_amount)
    }

    /// The record that the first 105 bytes of `src` store, if there are that
    /// many.
    pub open spec fn spec_unpack(src: Seq<u8>) -> Option<Escrow> {
        if src.len() < 105 {
            None
        } else {
            Some(
                Escrow {
                    user_sender: Pubkey::spec_from_bytes(src.subrange(0, 32)),
                    is_initialized: src[32],
                    escrow_token_account: Pubkey::spec_from_bytes(src.subrange(33, 65)),
                    senders_token_receiver_account: Pubkey::spec_from_bytes(
                        src.subrange(65, 97),
                    ),
                    expected_amount: le_u64(src.subrange(97, 105)),
                },
            )
        }
    }

    /// The stored form of the record, as a fresh vector.
    pub fn to_vec(&self) -> (bytes: Vec<u8>)
        ensures
            bytes@ == self.packed(),
            bytes@.len() == 105,
    {
        let mut bytes: Vec<u8> = Vec::with_capacity(ESCROW_LEN);
        push_key(&mut bytes, &self.user_sender);
        bytes.push(self.is_initialized);
        push_key(&mut bytes, &self.escrow_token_account);
        push_key(&mut bytes, &self.senders_token_receiver_account);
        let amount = u64_to_borsh(self.expected_amount).unwrap();
        let mut i: usize = 0;
        while i < 8
            invariant
                i <= 8,
                amount@ == le_bytes(self.expected_amount),
                bytes@ == self.user_sender@ + seq![self.is_initialized]
                    + self.escrow_token_account@ + self.senders_token_receiver_account@
                    + amount@.subrange(0, i as int),
            decreases 8 - i,
        {
            bytes.push(amount[i]);
            i += 1;
        }
        assert(amount@.subrange(0, 8) =~= amount@);
        bytes
    }

    /// Writes the record into the first 105 bytes of `dst` and leaves the
    /// rest of `dst` as it was.
    pub fn pack_into_slice(&self, dst: &mut [u8])
        requires
            old(dst)@.len() >= 105,
        ensures
            final(dst)@ == self.packed() + old(dst)@.subrange(105, old(dst)@.len() as int),
    {
        let bytes = self.to_vec();
        let mut i: usize = 0;
        while i < 105
            invariant
                i <= 105,
                bytes@ == self.packed(),
                bytes@.len() == 105,
                dst@.len() == old(dst)@.len(),
                dst@.len() >= 105,
                forall|j: int| 0 <= j < i ==> dst@[j] == bytes@[j],
                forall|j: int| i <= j < dst@.len() ==> dst@[j] == old(dst)@[j],
            decreases 105 - i,
        {
            dst[i] = bytes[i];
            i += 1;
        }
        assert(dst@ =~= self.packed() + old(dst)@.subrange(105, old(dst)@.len() as int));
    }

    /// Reads a record from the first 105 bytes of `src`; bytes after them are
    /// ignored. A shorter `src` is refused.
    pub fn unpack_from_slice(src: &[u8]) -> (r: Result<Escrow, ProgramError>)
        ensures
            r == match Escrow::spec_unpack(src@) {
                Some(record) => Ok::<Escrow, ProgramError>(record),
                None => Err(ProgramError::InvalidAccountData),
            },
    {
        if src.len() < ESCROW_LEN {
            return Err(ProgramError::InvalidAccountData);
        }
        let user_sender = Pubkey::from_slice(src, 0);
        let is_initialized = src[32];
        let escrow_token_account = Pubkey::from_slice(src, 33);
        let senders_token_receiver_account = Pubkey::from_slice(src, 65);
        match u64_from_borsh(slice_subrange(src, 97, 105)) {
            Some(expected_amount) => Ok(
                Escrow {
                    user_sender,
                    is_initialized,
                    escrow_token_account,
                    senders_token_receiver_account,
                    expected_amount,
                },
            ),
            None => Err(ProgramError::InvalidAccountData),
        }
    }

    /// Reads a record from storage of exactly 105 bytes; any other size is
    /// refused. Whether the record is active is not looked at.
    pub fn unpack_unchecked(input: &[u8]) -> (r: Result<Escrow, ProgramError>)
        ensures
            r == spec_unpack_unchecked(input@),
    {
        if input.len() != ESCROW_LEN {
            return Err(ProgramError::InvalidAccountData);
        }
        Escrow::unpack_from_slice(input)
    }
}

/// What reading a record from storage gives: the record if the storage has
/// exactly 105 bytes, `InvalidAccountData` otherwise.
pub open spec fn spec_unpack_unchecked(input: Seq<u8>) -> Result<Escrow, ProgramError> {
    if input.len() == 105 {
        Ok(Escrow::spec_unpack(input)->0)
    } else {
        Err(ProgramError::InvalidAccountData)
    }
}

/// Appends the 32 bytes of an address.
fn push_key(bytes: &mut Vec<u8>, key: &Pubkey)
    ensures
        final(bytes)@ == old(bytes)@ + key@,
{
    let mut i: usize = 0;
    while i < 32
        invariant
            i <= 32,
            bytes@ == old(bytes)@ + key@.subrange(0, i as int),
        decreases 32 - i,
    {
        bytes.push(key.0[i]);
        i += 1;
    }
    assert(key@.subrange(0, 32) =~= key@);
}

impl PartialEq for Escrow {
    fn eq(&self, other: &Escrow) -> (same: bool) {
        self.user_sender == other.user_sender && self.is_initialized == other.is_initialized
            && self.escrow_token_account == other.escrow_token_account
            && self.senders_token_receiver_account == other.senders_token_receiver_account
            && self.expected_amount == other.expected_amount
    }
}

impl Eq for Escrow {

}

impl vstd::std_specs::cmp::PartialEqSpecImpl for Escrow {
    open spec fn obeys_eq_spec() -> bool {
        true
    }

    open spec fn eq_spec(&self, other: &Escrow) -> bool {
        *self == *other
    }
}

/// A record is stored in exactly 105 bytes.
pub proof fn lemma_packed_len(record: Escrow)
    ensures
        record.packed().len() == 105,
{
}

/// Decoding the stored form of a record gives the record back, whatever
/// follows it in the storage.
pub proof fn lemma_unpack_packed(record: Escrow, rest: Seq<u8>)
    ensures
        Escrow::spec_unpack(record.packed() + rest) == Some(record),
        spec_unpack_unchecked(record.packed()) == Ok::<Escrow, ProgramError>(record),
{
    let src = record.packed() + rest;
    assert(src.subrange(0, 32) =~= record.user_sender@);
    assert(src.subrange(33, 65) =~= record.escrow_token_account@);
    assert(src.subrange(65, 97) =~= record.senders_token_receiver_account@);
    assert(src.subrange(97, 105) =~= le_bytes(record.expected_amount));
    lemma_from_own_bytes(record.user_sender);
    lemma_from_own_bytes(record.escrow_token_account);
    lemma_from_own_bytes(record.senders_token_receiver_account);
    lemma_le_u64_of_le_bytes(record.expected_amount);
    let own = record.packed();
    assert(own.subrange(0, 32) =~= record.user_sender@);
    assert(own.subrange(33, 65) =~= record.escrow_token_account@);
    assert(own.subrange(65, 97) =~= record.senders_token_receiver_account@);
    assert(own.subrange(97, 105) =~= le_bytes(record.expected_amount));
}

/// Decoding 105 bytes and encoding the result gives the same 105 bytes.
pub proof fn lemma_packed_unpack(src: Seq<u8>)
    requires
        src.len() == 105,
    ensures
        Escrow::spec_unpack(src) is Some,
        Escrow::spec_unpack(src)->0.packed() == src,
{
    let record = Escrow::spec_unpack(src)->0;
    lemma_from_bytes(src.subrange(0, 32));
    lemma_from_bytes(src.subrange(33, 65));
    lemma_from_bytes(src.subrange(65, 97));
    lemma_le_bytes_of_le_u64(src.subrange(97, 105));
    assert(record.packed() =~= src);
}

} // verus!
