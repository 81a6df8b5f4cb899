//! The token ledger as the escrow sees it: the token program's address and
//! the three instructions the escrow sends to it.
//!
//! The instructions are built by the `spl_token` crate. Each builder is
//! called through a function of this module whose contract writes out what
//! the builder returns; those contracts are assumed, not proved.

use crate::cpi::{AccountMeta, Instruction, InstructionView};
use crate::pubkey::Pubkey;
use crate::wire::le_bytes;
use spl_token::instruction::{close_account, set_authority, transfer, AuthorityType};
use vstd::prelude::*;

verus! {

/// The address of the token program,
/// `TokenkegQfeZyiNwAJbNbGKPFXCWuBvf9Ss623VQ5DA`.
pub open spec fn spec_id() -> Pubkey {
    Pubkey(
        [
            6, 221, 246, 225, 215, 101, 161, 147, 217, 203, 225, 70, 206, 235, 121, 172,
            28, 180, 133, 237, 95, 91, 55, 145, 58, 140, 245, 133, 126, 255, 0, 169,
        ],
    )
}

/// The instruction that makes `new_authority` the owner of the token account
/// `owned`, signed by its present owner `owner`.
pub open spec fn set_authority_instruction(
    token_program: Pubkey,
    owned: Pubkey,
    new_authority: Pubkey,
    owner: Pubkey,
) -> InstructionView {
    InstructionView {
        program_id: token_program,
        accounts: seq![
            AccountMeta { pubkey: owned, is_signer: false, is_writable: true },
            AccountMeta { pubkey: owner, is_signer: false, is_writable: false },
            AccountMeta { pubkey: owner, is_signer: true, is_writable: false },
        ],
        data: seq![6u8, 2u8, 1u8] + new_authority@,
    }
}

/// The instruction that moves `amount` tokens from `source` to
/// `destination`, signed by `authority`.
pub open spec fn transfer_instruction(
    token_program: Pubkey,
    source: Pubkey,
    destination: Pubkey,
    authority: Pubkey,
    amount: u64,
) -> InstructionView {
    InstructionView {
        program_id: token_program,
        accounts: seq![
            AccountMeta { pubkey: source, is_signer: false, is_writable: true },
            AccountMeta { pubkey: destination, is_signer: false, is_writable: true },
            AccountMeta { pubkey: authority, is_signer: false, is_writable: false },
            AccountMeta { pubkey: authority, is_signer: true, is_writable: false },
        ],
        data: seq![3u8] + le_bytes(amount),
    }
}

/// The instruction that closes the token account `account` and sends its
/// rent deposit to `destination`, signed by the account's owner `owner`.
pub open spec fn close_account_instruction(
    token_program: Pubkey,
    account: Pubkey,
    destination: Pubkey,
    owner: Pubkey,
) -> InstructionView {
    InstructionView {
        program_id: token_program,
        accounts: seq![
            AccountMeta { pubkey: account, is_signer: false, is_writable: true },
            AccountMeta { pubkey: destination, is_signer: false, is_writable: true },
            AccountMeta { pubkey: owner, is_signer: false, is_writable: false },
            AccountMeta { pubkey: owner, is_signer: true, is_writable: false },
        ],
        data: seq![9u8],
    }
}

/// The address of the token program, from `spl_token::id`.
///
/// Assumed of spl_token: the address it declares is the one written out in
/// [`spec_id`].
#[verifier::external_body]
pub(crate) fn id() -> (key: Pubkey)
    ensures
        key == spec_id(),
{
    Pubkey(spl_token::id().to_bytes())
}

/// Builds a `SetAuthority` instruction with
/// `spl_token::instruction::set_authority`, for the authority type
/// `AccountOwner`, a new authority that is present, and the present owner as
/// the only signer.
///
/// Assumed of spl_token: the builder refuses any program address but its
/// own and fails in no other way; the payload is the tag 6, the authority
/// type 2, the marker 1 for a new authority that is present, and that
/// authority's 32 bytes; the accounts are the owned account (writable), the
/// owner (read-only, not signing, because a signer is listed) and the owner
/// again as the signer.
#[verifier::external_body]
pub(crate) fn build_set_authority(
    token_program: &Pubkey,
    owned: &Pubkey,
    new_authority: &Pubkey,
    owner: &Pubkey,
) -> (r: Option<Instruction>)
    ensures
        r is Some <==> *token_program == spec_id(),
        r is Some ==> r->0@ == set_authority_instruction(
            *token_program,
            *owned,
            *new_authority,
            *owner,
        ),
{
    let (program, owner) = (token_program.0.into(), owner.0.into());
    let (owned, new_authority) = (owned.0.into(), new_authority.0.into());
    let kind = AuthorityType::AccountOwner;
    let built = set_authority(&program, &owned, Some(&new_authority), kind, &owner, &[&owner]);
    let ix = built.ok()?;
    let program_id = Pubkey(ix.program_id.to_bytes());
    let metas = ix.accounts.iter().map(|m| AccountMeta {
        pubkey: Pubkey(m.pubkey.to_bytes()),
        is_signer: m.is_signer,
        is_writable: m.is_writable,
    });
    Some(Instruction { program_id, accounts: metas.collect(), data: ix.data })
}

/// Builds a `Transfer` instruction with `spl_token::instruction::transfer`,
/// with the authority as the only signer.
///
/// Assumed of spl_token: the builder refuses any program address but its
/// own and fails in no other way; the payload is the tag 3 and the amount as
/// eight little-endian bytes; the accounts are the source and the
/// destination (both writable), the authority (read-only, not signing,
/// because a signer is listed) and the authority again as the signer.
#[verifier::external_body]
pub(crate) fn build_transfer(
    token_program: &Pubkey,
    source: &Pubkey,
    destination: &Pubkey,
    authority: &Pubkey,
    amount: u64,
) -> (r: Option<Instruction>)
    ensures
        r is Some <==> *token_program == spec_id(),
        r is Some ==> r->0@ == transfer_instruction(
            *token_program,
            *source,
            *destination,
            *authority,
            amount,
        ),
{
    let (program, authority) = (token_program.0.into(), authority.0.into());
    let (source, destination) = (source.0.into(), destination.0.into());
    let built = transfer(&program, &source, &destination, &authority, &[&authority], amount);
    let ix = built.ok()?;
    let program_id = Pubkey(ix.program_id.to_bytes());
    let metas = ix.accounts.iter().map(|m| AccountMeta {
        pubkey: Pubkey(m.pubkey.to_bytes()),
        is_signer: m.is_signer,
        is_writable: m.is_writable,
    });
    Some(Instruction { program_id, accounts: metas.collect(), data: ix.data })
}

/// Builds a `CloseAccount` instruction with
/// `spl_token::instruction::close_account`, with the owner as the only
/// signer.
///
/// Assumed of spl_token: the builder refuses any program address but its
/// own and fails in no other way; the payload is the single tag 9; the
/// accounts are the account to close and the destination of its deposit
/// (both writable), the owner (read-only, not signing, because a signer is
/// listed) and the owner again as the signer.
#[verifier::external_body]
pub(crate) fn build_close_account(
    token_program: &Pubkey,
    account: &Pubkey,
    destination: &Pubkey,
    owner: &Pubkey,
) -> (r: Option<Instruction>)
    ensures
        r is Some <==> *token_program == spec_id(),
        r is Some ==> r->0@ == close_account_instruction(
            *token_program,
            *account,
            *destination,
            *owner,
        ),
{
    let (program, owner) = (token_program.0.into(), owner.0.into());
    let (account, destination) = (account.0.into(), destination.0.into());
    let built = close_account(&program, &account, &destination, &owner, &[&owner]);
    let ix = built.ok()?;
    let program_id = Pubkey(ix.program_id.to_bytes());
    let metas = ix.accounts.iter().map(|m| AccountMeta {
        pubkey: Pubkey(m.pubkey.to_bytes()),
        is_signer: m.is_signer,
        is_writable: m.is_writable,
    });
    Some(Instruction { program_id, accounts: metas.collect(), data: ix.data })
}

} // verus!
