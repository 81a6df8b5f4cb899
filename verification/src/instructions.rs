//! The operations of the escrow program and their wire format.
//!
//! A payload is nine bytes: a discriminant (0 = Initialize, 1 = Complete)
//! followed by an amount as an unsigned 64-bit little-endian integer.

use crate::cpi::{AccountMeta, Instruction, InstructionView};
use crate::error::EscrowError;
use crate::pubkey::Pubkey;
use crate::wire::{
    le_bytes, le_u64, lemma_le_bytes_of_le_u64, lemma_le_u64_of_le_bytes, u64_from_borsh,
    u64_to_borsh,
};
use vstd::prelude::*;
use vstd::slice::slice_subrange;

verus! {

/// Size in bytes of an operation payload.
pub const PAYLOAD_LEN: usize = 9;

/// An operation payload as it is laid out, before its discriminant is
/// interpreted.
#[derive(Clone, Copy, Debug, PartialEq, Eq, Structural)]
pub struct Payload {
    /// The discriminant.
    pub variant: u8,
    /// The amount argument.
    pub arg1: u64,
}

impl Payload {
    /// The nine bytes of the payload.
    pub open spec fn packed(self) -> Seq<u8> {
        seq![self.variant] + le_bytes(self.arg1)
    }

    /// The payload that `src` holds: `src` must be exactly nine bytes.
    pub open spec fn spec_try_from_slice(src: Seq<u8>) -> Result<Payload, EscrowError> {
        if src.len() == 9 {
            Ok(Payload { variant: src[0], arg1: le_u64(src.subrange(1, 9)) })
        } else {
            Err(EscrowError::InvalidData)
        }
    }

    /// Decodes a payload. Fails with `InvalidData` unless `input` has exactly
    /// nine bytes.
    pub fn try_from_slice(input: &[u8]) -> (r: Result<Payload, EscrowError>)
        ensures
            r == Payload::spec_try_from_slice(input@),
    {
        if input.len() != PAYLOAD_LEN {
            return Err(EscrowError::InvalidData);
        }
        match u64_from_borsh(slice_subrange(input, 1, 9)) {
            Some(arg1) => Ok(Payload { variant: input[0], arg1 }),
            None => Err(EscrowError::InvalidData),
        }
    }

    /// Encodes the payload.
    pub fn to_vec(&self) -> (bytes: Vec<u8>)
        ensures
            bytes@ == self.packed(),
            bytes@.len() == 9,
    {
        let mut bytes: Vec<u8> = Vec::with_capacity(PAYLOAD_LEN);
        bytes.push(self.variant);
        let amount = u64_to_borsh(self.arg1).unwrap();
        let mut i: usize = 0;
        while i < 8
            invariant
                i <= 8,
                amount@ == le_bytes(self.arg1),
                bytes@ == seq![self.variant] + amount@.subrange(0, i as int),
            decreases 8 - i,
        {
            bytes.push(amount[i]);
            i += 1;
        }
        assert(amount@.subrange(0, 8) =~= amount@);
        bytes
    }
}

/// An operation of the escrow program.
#[derive(Clone, Copy, Debug, PartialEq, Eq, Structural)]
pub enum EscrowInstruction {
    /// Starts a trade: records the parties and the amount expected in return,
    /// and hands the holding account over to the derived authority.
    ///
    /// Accounts, in order:
    /// 0. `[signer]` the initiator
    /// 1. `[]` the initiator's token account, which will receive the payment
    /// 2. `[writable]` the holding account with the deposit
    /// 3. `[writable]` the storage of the escrow record
    /// 4. `[]` the rent sysvar
    /// 5. `[]` the token program
    Initialize { amount: u64 },
    /// Completes a trade: pays the initiator, releases the deposit to the
    /// completer and closes the holding account.
    ///
    /// Accounts, in order:
    /// 0. `[signer]` the completer
    /// 1. `[writable]` the completer's token account that pays
    /// 2. `[writable]` the completer's token account that receives the deposit
    /// 3. `[]` the storage of the escrow record
    /// 4. `[]` the token program
    /// 5. `[]` the derived authority
    /// 6. `[writable]` the holding account
    /// 7. `[writable]` the initiator's receiving token account
    /// 8. `[writable]` the initiator
    Complete { amount: u64 },
}

impl EscrowInstruction {
    /// The discriminant and the amount of the operation.
    pub open spec fn spec_payload(self) -> Payload {
        match self {
            EscrowInstruction::Initialize { amount } => Payload { variant: 0, arg1: amount },
            EscrowInstruction::Complete { amount } => Payload { variant: 1, arg1: amount },
        }
    }

    /// The operation that a payload names, if its discriminant is known.
    pub open spec fn spec_from_payload(payload: Payload) -> Result<EscrowInstruction, EscrowError> {
        if payload.variant == 0 {
            Ok(EscrowInstruction::Initialize { amount: payload.arg1 })
        } else if payload.variant == 1 {
            Ok(EscrowInstruction::Complete { amount: payload.arg1 })
        } else {
            Err(EscrowError::InvalidInstruction)
        }
    }

    /// The nine bytes of the operation.
    pub open spec fn packed(self) -> Seq<u8> {
        self.spec_payload().packed()
    }

    /// The operation that `src` encodes: `InvalidData` unless `src` is
    /// exactly nine bytes, `InvalidInstruction` unless its first byte is 0
    /// or 1.
    pub open spec fn spec_unpack(src: Seq<u8>) -> Result<EscrowInstruction, EscrowError> {
        match Payload::spec_try_from_slice(src) {
            Ok(payload) => EscrowInstruction::spec_from_payload(payload),
            Err(e) => Err(e),
        }
    }

    /// The discriminant and the amount of the operation.
    pub fn payload(&self) -> (payload: Payload)
        ensures
            payload == self.spec_payload(),
    {
        match self {
            EscrowInstruction::Initialize { amount } => Payload { variant: 0, arg1: *amount },
            EscrowInstruction::Complete { amount } => Payload { variant: 1, arg1: *amount },
        }
    }

    /// Interprets the discriminant of a payload.
    pub fn from_payload(payload: &Payload) -> (r: Result<EscrowInstruction, EscrowError>)
        ensures
            r == EscrowInstruction::spec_from_payload(*payload),
    {
        if payload.variant == 0 {
            Ok(EscrowInstruction::Initialize { amount: payload.arg1 })
        } else if payload.variant == 1 {
            Ok(EscrowInstruction::Complete { amount: payload.arg1 })
        } else {
            Err(EscrowError::InvalidInstruction)
        }
    }

    /// Decodes an operation. Nothing is produced from a payload that is too
    /// short, too long, or of an unknown discriminant.
    pub fn unpack(input: &[u8]) -> (r: Result<EscrowInstruction, EscrowError>)
        ensures
            r == EscrowInstruction::spec_unpack(input@),
            input@.len() < 9 ==> r is Err,
            input@.len() >= 1 && input@[0] != 0 && input@[0] != 1 ==> r is Err,
    {
        match Payload::try_from_slice(input) {
            Ok(payload) => EscrowInstruction::from_payload(&payload),
            Err(e) => Err(e),
        }
    }

    /// Encodes the operation.
    pub fn pack(&self) -> (bytes: Vec<u8>)
        ensures
            bytes@ == self.packed(),
            bytes@.len() == 9,
    {
        self.payload().to_vec()
    }
}

/// The Initialize instruction for the escrow program: the six accounts in
/// the order the processor reads them, all writable, the initiator signing,
/// and the encoded operation as the payload.
pub open spec fn initialize_instruction(
    user_sender: Pubkey,
    senders_token_account: Pubkey,
    escrow_token_account: Pubkey,
    escrow_account: Pubkey,
    rent: Pubkey,
    token_program: Pubkey,
    amount: u64,
) -> InstructionView {
    InstructionView {
        program_id: crate::spec_id(),
        accounts: seq![
            AccountMeta { pubkey: user_sender, is_signer: true, is_writable: true },
            AccountMeta { pubkey: senders_token_account, is_signer: false, is_writable: true },
            AccountMeta { pubkey: escrow_token_account, is_signer: false, is_writable: true },
            AccountMeta { pubkey: escrow_account, is_signer: false, is_writable: true },
            AccountMeta { pubkey: rent, is_signer: false, is_writable: true },
            AccountMeta { pubkey: token_program, is_signer: false, is_writable: true },
        ],
        data: (EscrowInstruction::Initialize { amount }).packed(),
    }
}

/// Builds the instruction that a client sends to start a trade.
pub fn initialize(
    user_sender: &Pubkey,
    senders_token_account: &Pubkey,
    escrow_token_account: &Pubkey,
    escrow_account: &Pubkey,
    rent: &Pubkey,
    token_program: &Pubkey,
    amount: u64,
) -> (instruction: Instruction)
    ensures
        instruction@ == initialize_instruction(
            *user_sender,
            *senders_token_account,
            *escrow_token_account,
            *escrow_account,
            *rent,
            *token_program,
            amount,
        ),
        EscrowInstruction::spec_unpack(instruction@.data) == Ok::<EscrowInstruction, EscrowError>(
            EscrowInstruction::Initialize { amount },
        ),
{
    proof {
        lemma_instruction_round_trip(EscrowInstruction::Initialize { amount });
    }
    let accounts: Vec<AccountMeta> = vec![
        AccountMeta::new(*user_sender, true),
        AccountMeta::new(*senders_token_account, false),
        AccountMeta::new(*escrow_token_account, false),
        AccountMeta::new(*escrow_account, false),
        AccountMeta::new(*rent, false),
        AccountMeta::new(*token_program, false),
    ];
    let data = (EscrowInstruction::Initialize { amount }).pack();
    Instruction { program_id: crate::id(), accounts, data }
}

/// Decoding the encoding of a payload gives the payload back.
pub proof fn lemma_payload_round_trip(payload: Payload)
    ensures
        Payload::spec_try_from_slice(payload.packed()) == Ok::<Payload, EscrowError>(payload),
{
    lemma_le_u64_of_le_bytes(payload.arg1);
    assert(payload.packed().subrange(1, 9) =~= le_bytes(payload.arg1));
}

/// Encoding the payload decoded from nine bytes gives the same nine bytes.
pub proof fn lemma_payload_bytes_round_trip(src: Seq<u8>)
    requires
        src.len() == 9,
    ensures
        Payload::spec_try_from_slice(src) is Ok,
        Payload::spec_try_from_slice(src)->Ok_0.packed() == src,
{
    lemma_le_bytes_of_le_u64(src.subrange(1, 9));
    assert(Payload::spec_try_from_slice(src)->Ok_0.packed() =~= src);
}

/// Decoding the encoding of an operation gives the operation back.
pub proof fn lemma_instruction_round_trip(instruction: EscrowInstruction)
    ensures
        EscrowInstruction::spec_unpack(instruction.packed()) == Ok::<
            EscrowInstruction,
            EscrowError,
        >(instruction),
{
    lemma_payload_round_trip(instruction.spec_payload());
}

/// A payload decodes to an operation exactly when it has nine bytes and its
/// first byte is 0 or 1; which error comes otherwise depends on the length
/// first.
pub proof fn lemma_unpack_fails(src: Seq<u8>)
    ensures
        EscrowInstruction::spec_unpack(src) is Ok <==> src.len() == 9 && (src[0] == 0 || src[0]
            == 1),
        src.len() != 9 ==> EscrowInstruction::spec_unpack(src) == Err::<
            EscrowInstruction,
            EscrowError,
        >(EscrowError::InvalidData),
        src.len() == 9 && src[0] != 0 && src[0] != 1 ==> EscrowInstruction::spec_unpack(src)
            == Err::<EscrowInstruction, EscrowError>(EscrowError::InvalidInstruction),
{
}

} // verus!
