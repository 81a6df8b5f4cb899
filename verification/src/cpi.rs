//! Calls that the program asks its host to make on the token ledger.
//!
//! The processor performs no call itself. It decides which calls are due and
//! hands them out as values; the host makes them in order and undoes the
//! whole operation if one of them fails.

use crate::pubkey::Pubkey;
use vstd::prelude::*;

verus! {

/// One account of an instruction, with what the instruction may do to it.
#[derive(Clone, Copy, Debug, PartialEq, Eq)]
pub struct AccountMeta {
    /// The account's address.
    pub pubkey: Pubkey,
    /// Whether the instruction needs this account's signature.
    pub is_signer: bool,
    /// Whether the instruction may change the account.
    pub is_writable: bool,
}

impl AccountMeta {
    /// An account that the instruction may change.
    pub fn new(pubkey: Pubkey, is_signer: bool) -> (meta: AccountMeta)
        ensures
            meta == (AccountMeta { pubkey, is_signer, is_writable: true }),
    {
        AccountMeta { pubkey, is_signer, is_writable: true }
    }
}

/// An instruction for a program: which program, on which accounts, with
/// which payload.
#[derive(Clone, Debug, PartialEq, Eq)]
pub struct Instruction {
    /// The program that executes the instruction.
    pub program_id: Pubkey,
    /// The accounts the instruction works on, in the order the program
    /// expects.
    pub accounts: Vec<AccountMeta>,
    /// The payload.
    pub data: Vec<u8>,
}

/// An instruction as a mathematical value.
pub struct InstructionView {
    pub program_id: Pubkey,
    pub accounts: Seq<AccountMeta>,
    pub data: Seq<u8>,
}

impl View for Instruction {
    type V = InstructionView;

    open spec fn view(&self) -> InstructionView {
        InstructionView { program_id: self.program_id, accounts: self.accounts@, data: self.data@ }
    }
}

/// What authorizes a call.
#[derive(Clone, Debug, PartialEq, Eq)]
pub enum Credential {
    /// The signature that a signer of the running operation gave.
    RealSignature,
    /// The program signs as its derived authority. The proof is the seed and
    /// the bump from which the host derives the address again; no private
    /// key exists.
    DerivedSignature { seed: Vec<u8>, bump: u8 },
}

/// A credential as a mathematical value.
pub enum CredentialView {
    RealSignature,
    DerivedSignature { seed: Seq<u8>, bump: u8 },
}

impl View for Credential {
    type V = CredentialView;

    open spec fn view(&self) -> CredentialView {
        match self {
            Credential::RealSignature => CredentialView::RealSignature,
            Credential::DerivedSignature { seed, bump } => CredentialView::DerivedSignature {
                seed: seed@,
                bump: *bump,
            },
        }
    }
}

/// A call on the ledger that the host is to make for the program.
#[derive(Clone, Debug, PartialEq, Eq)]
pub struct ExternalCall {
    /// The instruction to execute.
    pub instruction: Instruction,
    /// The accounts to hand to the callee, as positions in the list of
    /// accounts that the running operation was given.
    pub accounts: Vec<usize>,
    /// Who authorizes the call.
    pub credential: Credential,
}

/// A call as a mathematical value.
pub struct ExternalCallView {
    pub instruction: InstructionView,
    pub accounts: Seq<usize>,
    pub credential: CredentialView,
}

impl View for ExternalCall {
    type V = ExternalCallView;

    open spec fn view(&self) -> ExternalCallView {
        ExternalCallView {
            instruction: self.instruction@,
            accounts: self.accounts@,
            credential: self.credential@,
        }
    }
}

} // verus!
