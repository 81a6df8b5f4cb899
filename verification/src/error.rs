//! Errors of the escrow program.

use vstd::prelude::*;

verus! {

/// Failures that are specific to the escrow program.
#[derive(Clone, Copy, Debug, PartialEq, Eq, Structural)]
pub enum EscrowError {
    /// A payload of the wrong length.
    InvalidData,
    /// A payload whose discriminant names no operation.
    InvalidInstruction,
    /// Initialize was asked of a record that is already active.
    EscrowAlreadyInitialized,
}

impl EscrowError {
    /// The number under which the runtime reports this error.
    pub open spec fn spec_code(self) -> u32 {
        match self {
            EscrowError::InvalidData => 0,
            EscrowError::InvalidInstruction => 1,
            EscrowError::EscrowAlreadyInitialized => 2,
        }
    }

    /// The number under which the runtime reports this error.
    #[verifier::when_used_as_spec(spec_code)]
    pub fn code(self) -> (code: u32)
        ensures
            code == self.spec_code(),
    {
        match self {
            EscrowError::InvalidData => 0,
            EscrowError::InvalidInstruction => 1,
            EscrowError::EscrowAlreadyInitialized => 2,
        }
    }

    /// A short description for people.
    pub fn message(self) -> (text: &'static str)
        ensures
            text@ == match self {
                EscrowError::InvalidData => "Invalid Data"@,
                EscrowError::InvalidInstruction => "Invalid Instruction"@,
                EscrowError::EscrowAlreadyInitialized => "Escrow Already Initialized"@,
            },
    {
        match self {
            EscrowError::InvalidData => "Invalid Data",
            EscrowError::InvalidInstruction => "Invalid Instruction",
            EscrowError::EscrowAlreadyInitialized => "Escrow Already Initialized",
        }
    }
}

/// The terminal result of an operation that did not go through.
#[derive(Clone, Copy, Debug, PartialEq, Eq, Structural)]
pub enum ProgramError {
    /// An error of the program itself, by its number.
    Custom(u32),
    /// The operation's discriminant is not one the dispatcher knows, or the
    /// rent sysvar cannot be used.
    InvalidArgument,
    /// The operation payload is malformed.
    InvalidInstructionData,
    /// The record's storage does not have the size of an escrow record.
    InvalidAccountData,
    /// An account presented is not the one recorded, the authority account
    /// is not the derived address, or the ledger program is not the token
    /// program.
    IncorrectProgramId,
    /// A required signer has not signed.
    MissingRequiredSignature,
    /// Fewer accounts were presented than the operation takes.
    NotEnoughAccountKeys,
    /// A token account is not owned by the token program.
    IllegalOwner,
    /// The record's storage account is not exempt from rent.
    AccountNotRentExempt,
    /// No address can be derived for the program's authority.
    InvalidSeeds,
}

impl From<EscrowError> for ProgramError {
    fn from(e: EscrowError) -> (err: ProgramError) {
        ProgramError::Custom(e.code())
    }
}

impl vstd::std_specs::convert::FromSpecImpl<EscrowError> for ProgramError {
    open spec fn obeys_from_spec() -> bool {
        true
    }

    open spec fn from_spec(e: EscrowError) -> ProgramError {
        ProgramError::Custom(e.spec_code())
    }
}

} // verus!
