//! The durability check: whether an account holds enough lamports to be
//! exempt from rent, by the rates in the rent sysvar.

use crate::account::AccountInfo;
use crate::wire::{le_u64, read_le_u64};
use solana_program::sysvar::Sysvar;
use vstd::prelude::*;
use vstd::slice::slice_subrange;

verus! {

/// Bytes charged for an account besides its data.
pub const ACCOUNT_STORAGE_OVERHEAD: u64 = 128;

/// Whether a balance of `lamports` exempts an account of `data_len` bytes
/// from rent, by the sysvar account with the address `rent_key` and the data
/// `rent_data`; nothing if that account is not the rent sysvar or its data
/// cannot be read as one.
pub uninterp spec fn rent_exemption(
    rent_key: Seq<u8>,
    rent_data: Seq<u8>,
    lamports: u64,
    data_len: usize,
) -> Option<bool>;

/// The rate of the sysvar, in lamports per byte and year: the first eight
/// bytes of its data.
pub open spec fn lamports_per_byte_year(rent_data: Seq<u8>) -> u64
    recommends
        rent_data.len() >= 8,
{
    le_u64(rent_data.subrange(0, 8))
}

/// Whether the yearly rent of an account of `data_len` bytes, at the rate in
/// `rent_data`, is a 64-bit number.
pub open spec fn rate_applies(rent_data: Seq<u8>, data_len: usize) -> bool {
    &&& ACCOUNT_STORAGE_OVERHEAD + data_len <= u64::MAX
    &&& rent_data.len() >= 8 ==> (ACCOUNT_STORAGE_OVERHEAD + data_len) * lamports_per_byte_year(
        rent_data,
    ) <= u64::MAX
}

/// What the durability check finds: nothing where the sysvar cannot be
/// used, else whether the balance suffices.
pub open spec fn spec_rent_status(rent: AccountInfo, lamports: u64, data_len: usize) -> Option<
    bool,
> {
    if rate_applies(rent.data@, data_len) {
        rent_exemption(rent.key@, rent.data@, lamports, data_len)
    } else {
        None
    }
}

/// Reads the rent sysvar with `Rent::from_account_info` and asks it
/// `Rent::is_exempt`, both of `solana_program`.
///
/// Assumed of solana_program: only the address and the data of the sysvar
/// account are looked at; the answer depends on them, the balance and the
/// size alone; and the only arithmetic that can overflow is the sum of the
/// size and the overhead and its product with the rate, which `requires`
/// keeps in range.
#[verifier::external_body]
pub(crate) fn sysvar_is_exempt(rent: &AccountInfo, lamports: u64, data_len: usize) -> (r: Option<
    bool,
>)
    requires
        rate_applies(rent.data@, data_len),
    ensures
        r == rent_exemption(rent.key@, rent.data@, lamports, data_len),
{
    let (key, owner) = (rent.key.0.into(), rent.owner.0.into());
    let (mut balance, mut data) = (rent.lamports, rent.data.clone());
    let info = solana_program::account_info::AccountInfo::new(
        &key, false, false, &mut balance, &mut data, &owner, false, 0,
    );
    let sysvar = solana_program::rent::Rent::from_account_info(&info).ok()?;
    Some(sysvar.is_exempt(lamports, data_len))
}

/// The durability check on an account of `data_len` bytes that holds
/// `lamports`, by the sysvar account `rent`.
///
/// A sysvar whose rate cannot be applied to the size without leaving 64 bits
/// is not asked and counts as unusable.
pub fn rent_status(rent: &AccountInfo, lamports: u64, data_len: usize) -> (r: Option<bool>)
    ensures
        r == spec_rent_status(*rent, lamports, data_len),
{
    if data_len as u64 > u64::MAX - ACCOUNT_STORAGE_OVERHEAD {
        return None;
    }
    let size: u64 = ACCOUNT_STORAGE_OVERHEAD + data_len as u64;
    if rent.data.len() >= 8 {
        let rate = read_le_u64(slice_subrange(rent.data.as_slice(), 0, 8));
        if size.checked_mul(rate).is_none() {
            return None;
        }
    }
    sysvar_is_exempt(rent, lamports, data_len)
}

} // verus!
