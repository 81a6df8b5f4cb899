//! The state-transition engine.
//!
//! An escrow record goes from free to active by Initialize and is settled by
//! Complete. The processor checks the accounts that an operation was given,
//! decides the record's new contents and the calls on the token ledger that
//! are due, and returns them. It performs nothing itself: the host stores the
//! record, makes the calls in order, and undoes everything if one fails. A
//! refused operation returns an error and nothing to perform.

use crate::account::AccountInfo;
use crate::authority::{
    authority_seed, derive_authority, derived_authority, spec_authority_seed, ProgramAddress,
};
use crate::cpi::{
    Credential, CredentialView, ExternalCall, ExternalCallView, Instruction, InstructionView,
};
use crate::error::{EscrowError, ProgramError};
use crate::instructions::{EscrowInstruction, Payload};
use crate::pubkey::{lemma_from_bytes, Pubkey};
use crate::rent::{rent_status, spec_rent_status};
use crate::state::{lemma_unpack_packed, spec_unpack_unchecked, Escrow};
use crate::token::{
    build_close_account, build_set_authority, build_transfer, close_account_instruction,
    set_authority_instruction, transfer_instruction,
};
use vstd::prelude::*;

verus! {

/// What a successful operation asks of the host.
#[derive(Clone, Debug, PartialEq, Eq)]
pub enum Transition {
    /// Initialize went through.
    Initialized {
        /// The record to store, whole, in the record's storage account (the
        /// fourth account of the operation).
        record: Escrow,
        /// The call that hands the holding account to the derived authority.
        delegate: ExternalCall,
    },
    /// Complete went through. The three calls are made in this order; the
    /// record stays as it is.
    Completed {
        /// Pays the expected amount to the initiator.
        payment: ExternalCall,
        /// Releases the deposit to the completer.
        release: ExternalCall,
        /// Closes the holding account and refunds its rent deposit to the
        /// initiator.
        close: ExternalCall,
    },
}

/// A transition as a mathematical value.
pub enum TransitionView {
    Initialized { record: Escrow, delegate: ExternalCallView },
    Completed { payment: ExternalCallView, release: ExternalCallView, close: ExternalCallView },
}

impl View for Transition {
    type V = TransitionView;

    open spec fn view(&self) -> TransitionView {
        match self {
            Transition::Initialized { record, delegate } => TransitionView::Initialized {
                record: *record,
                delegate: delegate@,
            },
            Transition::Completed { payment, release, close } => TransitionView::Completed {
                payment: payment@,
                release: release@,
                close: close@,
            },
        }
    }
}

impl Transition {
    /// The record that the host is to store, if the operation writes one.
    pub open spec fn spec_record(self) -> Option<Escrow> {
        match self {
            Transition::Initialized { record, .. } => Some(record),
            Transition::Completed { .. } => None,
        }
    }

    /// The calls that the host is to make, in the order in which it makes
    /// them.
    pub open spec fn spec_calls(self) -> Seq<ExternalCall> {
        match self {
            Transition::Initialized { delegate, .. } => seq![delegate],
            Transition::Completed { payment, release, close } => seq![payment, release, close],
        }
    }

    /// The record that the host is to store, if the operation writes one.
    pub fn record(&self) -> (record: Option<Escrow>)
        ensures
            record == self.spec_record(),
    {
        match self {
            Transition::Initialized { record, .. } => Some(*record),
            Transition::Completed { .. } => None,
        }
    }

    /// The calls that the host is to make, in the order in which it makes
    /// them: the payment comes before the release, the release before the
    /// close.
    pub fn into_calls(self) -> (calls: Vec<ExternalCall>)
        ensures
            calls@ == self.spec_calls(),
    {
        match self {
            Transition::Initialized { delegate, .. } => vec![delegate],
            Transition::Completed { payment, release, close } => vec![payment, release, close],
        }
    }
}

/// The result of an operation as a mathematical value.
pub open spec fn outcome(r: Result<Transition, ProgramError>) -> Result<
    TransitionView,
    ProgramError,
> {
    match r {
        Ok(transition) => Ok(transition@),
        Err(e) => Err(e),
    }
}

/// A call authorized by a signer of the running operation.
pub open spec fn signed_call(instruction: InstructionView, accounts: Seq<usize>) -> ExternalCallView {
    ExternalCallView { instruction, accounts, credential: CredentialView::RealSignature }
}

/// A call authorized by the derived authority.
pub open spec fn derived_call(
    instruction: InstructionView,
    accounts: Seq<usize>,
    bump: u8,
) -> ExternalCallView {
    ExternalCallView {
        instruction,
        accounts,
        credential: CredentialView::DerivedSignature { seed: spec_authority_seed(), bump },
    }
}

/// The record that Initialize writes for the accounts it was given.
pub open spec fn initialized_record(accounts: Seq<AccountInfo>, amount: u64) -> Escrow
    recommends
        accounts.len() >= 3,
{
    Escrow {
        user_sender: accounts[0].key,
        is_initialized: 1,
        escrow_token_account: accounts[2].key,
        senders_token_receiver_account: accounts[1].key,
        expected_amount: amount,
    }
}

/// What Initialize does, given the outcome `rent` of the durability check on
/// the record's storage account and the derived authority `authority`.
///
/// The accounts are, in order: the initiator, the initiator's token account,
/// the holding account, the record's storage, the rent sysvar, the token
/// program. The checks are made in the order written; the first that fails
/// decides the error.
pub open spec fn initialize_outcome(
    accounts: Seq<AccountInfo>,
    amount: u64,
    rent: Option<bool>,
    authority: Option<ProgramAddress>,
) -> Result<TransitionView, ProgramError> {
    if accounts.len() < 1 {
        Err(ProgramError::NotEnoughAccountKeys)
    } else if !accounts[0].is_signer {
        Err(ProgramError::MissingRequiredSignature)
    } else if accounts.len() < 3 {
        Err(ProgramError::NotEnoughAccountKeys)
    } else if accounts[1].owner != crate::token::spec_id() {
        Err(ProgramError::IllegalOwner)
    } else if accounts.len() < 5 {
        Err(ProgramError::NotEnoughAccountKeys)
    } else if rent is None {
        Err(ProgramError::InvalidArgument)
    } else if rent == Some(false) {
        Err(ProgramError::AccountNotRentExempt)
    } else if spec_unpack_unchecked(accounts[3].data@) is Err {
        Err(ProgramError::InvalidAccountData)
    } else if accounts.len() < 6 {
        Err(ProgramError::NotEnoughAccountKeys)
    } else if spec_unpack_unchecked(accounts[3].data@)->Ok_0.is_initialized == 1 {
        Err(ProgramError::Custom(EscrowError::EscrowAlreadyInitialized.spec_code()))
    } else if authority is None {
        Err(ProgramError::InvalidSeeds)
    } else if accounts[5].key != crate::token::spec_id() {
        Err(ProgramError::IncorrectProgramId)
    } else {
        Ok(
            TransitionView::Initialized {
                record: initialized_record(accounts, amount),
                delegate: signed_call(
                    set_authority_instruction(
                        accounts[5].key,
                        accounts[2].key,
                        authority->0.key,
                        accounts[0].key,
                    ),
                    seq![5usize, 2usize, 0usize],
                ),
            },
        )
    }
}

/// What Complete does, given the derived authority `authority`.
///
/// The accounts are, in order: the completer, the completer's paying token
/// account, the completer's receiving token account, the record's storage,
/// the token program, the derived authority, the holding account, the
/// initiator's receiving token account, the initiator. The checks are made
/// in the order written; the first that fails decides the error. Every
/// identity is checked before any call is built.
pub open spec fn complete_outcome(
    accounts: Seq<AccountInfo>,
    amount: u64,
    authority: Option<ProgramAddress>,
) -> Result<TransitionView, ProgramError> {
    if accounts.len() < 1 {
        Err(ProgramError::NotEnoughAccountKeys)
    } else if !accounts[0].is_signer {
        Err(ProgramError::MissingRequiredSignature)
    } else if accounts.len() < 2 {
        Err(ProgramError::NotEnoughAccountKeys)
    } else if accounts[1].owner != crate::token::spec_id() {
        Err(ProgramError::IllegalOwner)
    } else if accounts.len() < 3 {
        Err(ProgramError::NotEnoughAccountKeys)
    } else if accounts[2].owner != crate::token::spec_id() {
        Err(ProgramError::IllegalOwner)
    } else if authority is None {
        Err(ProgramError::InvalidSeeds)
    } else if accounts.len() < 4 {
        Err(ProgramError::NotEnoughAccountKeys)
    } else if spec_unpack_unchecked(accounts[3].data@) is Err {
        Err(ProgramError::InvalidAccountData)
    } else if accounts.len() < 6 {
        Err(ProgramError::NotEnoughAccountKeys)
    } else if accounts[5].key != authority->0.key {
        Err(ProgramError::IncorrectProgramId)
    } else if accounts.len() < 7 {
        Err(ProgramError::NotEnoughAccountKeys)
    } else if accounts[6].key != spec_unpack_unchecked(
        accounts[3].data@,
    )->Ok_0.escrow_token_account {
        Err(ProgramError::IncorrectProgramId)
    } else if accounts.len() < 8 {
        Err(ProgramError::NotEnoughAccountKeys)
    } else if accounts[7].key != spec_unpack_unchecked(
        accounts[3].data@,
    )->Ok_0.senders_token_receiver_account {
        Err(ProgramError::IncorrectProgramId)
    } else if accounts.len() < 9 {
        Err(ProgramError::NotEnoughAccountKeys)
    } else if accounts[8].key != spec_unpack_unchecked(accounts[3].data@)->Ok_0.user_sender {
        Err(ProgramError::IncorrectProgramId)
    } else if accounts[4].key != crate::token::spec_id() {
        Err(ProgramError::IncorrectProgramId)
    } else {
        let record = spec_unpack_unchecked(accounts[3].data@)->Ok_0;
        let derived = authority->0.key;
        let bump = authority->0.bump;
        Ok(
            TransitionView::Completed {
                payment: signed_call(
                    transfer_instruction(
                        accounts[4].key,
                        accounts[1].key,
                        record.senders_token_receiver_account,
                        accounts[0].key,
                        record.expected_amount,
                    ),
                    seq![4usize, 1usize, 7usize, 0usize],
                ),
                release: derived_call(
                    transfer_instruction(
                        accounts[4].key,
                        record.escrow_token_account,
                        accounts[2].key,
                        derived,
                        amount,
                    ),
                    seq![4usize, 5usize, 2usize, 6usize],
                    bump,
                ),
                close: derived_call(
                    close_account_instruction(
                        accounts[4].key,
                        record.escrow_token_account,
                        record.user_sender,
                        derived,
                    ),
                    seq![4usize, 5usize, 8usize, 6usize],
                    bump,
                ),
            },
        )
    }
}

/// The outcome of the durability check that Initialize relies on: the
/// record's storage account against the rent sysvar, where both were given.
pub open spec fn storage_rent_status(accounts: Seq<AccountInfo>) -> Option<bool> {
    if accounts.len() >= 5 {
        spec_rent_status(accounts[4], accounts[3].lamports, accounts[3].data@.len() as usize)
    } else {
        None
    }
}

/// What an operation does: the payload is decoded, then its discriminant
/// selects Initialize or Complete.
pub open spec fn process_outcome(accounts: Seq<AccountInfo>, input: Seq<u8>) -> Result<
    TransitionView,
    ProgramError,
> {
    match Payload::spec_try_from_slice(input) {
        Err(_) => Err(ProgramError::InvalidInstructionData),
        Ok(payload) => if payload.variant == 0 {
            initialize_outcome(
                accounts,
                payload.arg1,
                storage_rent_status(accounts),
                derived_authority(),
            )
        } else if payload.variant == 1 {
            complete_outcome(accounts, payload.arg1, derived_authority())
        } else {
            Err(ProgramError::InvalidArgument)
        },
    }
}

/// A call authorized by a signer of the running operation.
fn call_signed(instruction: Instruction, accounts: Vec<usize>) -> (call: ExternalCall)
    ensures
        call@ == signed_call(instruction@, accounts@),
{
    ExternalCall { instruction, accounts, credential: Credential::RealSignature }
}

/// A call authorized by the derived authority.
fn call_derived(instruction: Instruction, accounts: Vec<usize>, bump: u8) -> (call: ExternalCall)
    ensures
        call@ == derived_call(instruction@, accounts@, bump),
{
    ExternalCall {
        instruction,
        accounts,
        credential: Credential::DerivedSignature { seed: authority_seed(), bump },
    }
}

/// Runs Initialize for `amount` on the accounts given, with the outcome
/// `rent` of the durability check on the record's storage account and the
/// derived authority `authority`.
///
/// On success the record is populated from the accounts and marked active,
/// and one call is due: the holding account passes from the initiator to
/// the derived authority, signed by the initiator. A record that is already
/// active is refused and stays as it is.
pub fn process_initialize(
    accounts: &[AccountInfo],
    amount: u64,
    rent: Option<bool>,
    authority: Option<ProgramAddress>,
) -> (r: Result<Transition, ProgramError>)
    ensures
        outcome(r) == initialize_outcome(accounts@, amount, rent, authority),
{
    if accounts.len() < 1 {
        return Err(ProgramError::NotEnoughAccountKeys);
    }
    let user_sender = &accounts[0];
    if !user_sender.is_signer {
        return Err(ProgramError::MissingRequiredSignature);
    }
    if accounts.len() < 3 {
        return Err(ProgramError::NotEnoughAccountKeys);
    }
    let senders_token_account = &accounts[1];
    let escrow_token_account = &accounts[2];
    if senders_token_account.owner != crate::token::id() {
        return Err(ProgramError::IllegalOwner);
    }
    if accounts.len() < 5 {
        return Err(ProgramError::NotEnoughAccountKeys);
    }
    let escrow_wallet = &accounts[3];
    match rent {
        None => {
            return Err(ProgramError::InvalidArgument);
        },
        Some(exempt) => {
            if !exempt {
                return Err(ProgramError::AccountNotRentExempt);
            }
        },
    }
    let stored = Escrow::unpack_unchecked(escrow_wallet.data.as_slice())?;
    if accounts.len() < 6 {
        return Err(ProgramError::NotEnoughAccountKeys);
    }
    let token_program = &accounts[5];
    if stored.is_initialized == 1 {
        return Err(ProgramError::from(EscrowError::EscrowAlreadyInitialized));
    }
    let record = Escrow {
        user_sender: user_sender.key,
        is_initialized: 1,
        escrow_token_account: escrow_token_account.key,
        senders_token_receiver_account: senders_token_account.key,
        expected_amount: amount,
    };
    let pda = match authority {
        Some(derived) => derived.key,
        None => {
            return Err(ProgramError::InvalidSeeds);
        },
    };
    let ownership = match build_set_authority(
        &token_program.key,
        &escrow_token_account.key,
        &pda,
        &user_sender.key,
    ) {
        Some(instruction) => instruction,
        None => {
            return Err(ProgramError::IncorrectProgramId);
        },
    };
    let positions: Vec<usize> = vec![5, 2, 0];
    Ok(Transition::Initialized { record, delegate: call_signed(ownership, positions) })
}

/// Runs Complete for `amount` on the accounts given, with the derived
/// authority `authority`.
///
/// Every account bound to the trade is compared with the record before any
/// call is built. On success three calls are due, in this order: the
/// completer pays the expected amount to the initiator, signed by the
/// completer; the holding account pays `amount` to the completer, signed by
/// the derived authority; the holding account is closed and its rent
/// deposit goes to the initiator, signed by the derived authority. The
/// ledger closes only an empty account, so the calls go through together
/// only where `amount` is the whole deposit.
pub fn process_complete(
    accounts: &[AccountInfo],
    amount: u64,
    authority: Option<ProgramAddress>,
) -> (r: Result<Transition, ProgramError>)
    ensures
        outcome(r) == complete_outcome(accounts@, amount, authority),
{
    if accounts.len() < 1 {
        return Err(ProgramError::NotEnoughAccountKeys);
    }
    let user_receiver = &accounts[0];
    if !user_receiver.is_signer {
        return Err(ProgramError::MissingRequiredSignature);
    }
    if accounts.len() < 2 {
        return Err(ProgramError::NotEnoughAccountKeys);
    }
    let token_account = &accounts[1];
    if token_account.owner != crate::token::id() {
        return Err(ProgramError::IllegalOwner);
    }
    if accounts.len() < 3 {
        return Err(ProgramError::NotEnoughAccountKeys);
    }
    let receiving_token_account = &accounts[2];
    if receiving_token_account.owner != crate::token::id() {
        return Err(ProgramError::IllegalOwner);
    }
    let derived = match authority {
        Some(derived) => derived,
        None => {
            return Err(ProgramError::InvalidSeeds);
        },
    };
    let pda = derived.key;
    if accounts.len() < 4 {
        return Err(ProgramError::NotEnoughAccountKeys);
    }
    let escrow_wallet = &accounts[3];
    let escrow_info = Escrow::unpack_unchecked(escrow_wallet.data.as_slice())?;
    if accounts.len() < 6 {
        return Err(ProgramError::NotEnoughAccountKeys);
    }
    let token_program = &accounts[4];
    let token_pda = &accounts[5];
    if token_pda.key != pda {
        return Err(ProgramError::IncorrectProgramId);
    }
    if accounts.len() < 7 {
        return Err(ProgramError::NotEnoughAccountKeys);
    }
    let escrow_token_account = &accounts[6];
    if escrow_token_account.key != escrow_info.escrow_token_account {
        return Err(ProgramError::IncorrectProgramId);
    }
    if accounts.len() < 8 {
        return Err(ProgramError::NotEnoughAccountKeys);
    }
    let senders_token_receiver_account = &accounts[7];
    if senders_token_receiver_account.key != escrow_info.senders_token_receiver_account {
        return Err(ProgramError::IncorrectProgramId);
    }
    if accounts.len() < 9 {
        return Err(ProgramError::NotEnoughAccountKeys);
    }
    let user_sender = &accounts[8];
    if user_sender.key != escrow_info.user_sender {
        return Err(ProgramError::IncorrectProgramId);
    }
    let transfer_to_initiator = match build_transfer(
        &token_program.key,
        &token_account.key,
        &escrow_info.senders_token_receiver_account,
        &user_receiver.key,
        escrow_info.expected_amount,
    ) {
        Some(instruction) => instruction,
        None => {
            return Err(ProgramError::IncorrectProgramId);
        },
    };
    let transfer_to_completer = match build_transfer(
        &token_program.key,
        &escrow_info.escrow_token_account,
        &receiving_token_account.key,
        &pda,
        amount,
    ) {
        Some(instruction) => instruction,
        None => {
            return Err(ProgramError::IncorrectProgramId);
        },
    };
    let close_holding = match build_close_account(
        &token_program.key,
        &escrow_info.escrow_token_account,
        &escrow_info.user_sender,
        &pda,
    ) {
        Some(instruction) => instruction,
        None => {
            return Err(ProgramError::IncorrectProgramId);
        },
    };
    let payment_accounts: Vec<usize> = vec![4, 1, 7, 0];
    let release_accounts: Vec<usize> = vec![4, 5, 2, 6];
    let close_accounts: Vec<usize> = vec![4, 5, 8, 6];
    Ok(
        Transition::Completed {
            payment: call_signed(transfer_to_initiator, payment_accounts),
            release: call_derived(transfer_to_completer, release_accounts, derived.bump),
            close: call_derived(close_holding, close_accounts, derived.bump),
        },
    )
}

/// Decodes the operation in `input` and runs it on `accounts`.
///
/// The derived authority is always that of the escrow program's own
/// address; `_program_id` is not consulted.
pub fn process_instruction(_program_id: &Pubkey, accounts: &[AccountInfo], input: &[u8]) -> (r:
    Result<Transition, ProgramError>)
    ensures
        outcome(r) == process_outcome(accounts@, input@),
{
    let instruction = match Payload::try_from_slice(input) {
        Ok(payload) => payload,
        Err(_) => {
            return Err(ProgramError::InvalidInstructionData);
        },
    };
    if instruction.variant == 0 {
        let rent = if accounts.len() >= 5 {
            rent_status(&accounts[4], accounts[3].lamports, accounts[3].data.len())
        } else {
            None
        };
        process_initialize(accounts, instruction.arg1, rent, derive_authority())
    } else if instruction.variant == 1 {
        process_complete(accounts, instruction.arg1, derive_authority())
    } else {
        Err(ProgramError::InvalidArgument)
    }
}

/// Initialize activates a free record, and no record is activated twice.
///
/// Where Initialize goes through, the stored record was not active and the
/// record to store is. Any Initialize on storage that holds the record so
/// written, whatever its other accounts, amount, rent outcome and authority,
/// is refused; the refusal is `EscrowAlreadyInitialized` once the checks
/// that come before the record is read have passed. A refusal carries no
/// record, so the stored one stays as it is.
pub proof fn lemma_initialize_once(
    accounts: Seq<AccountInfo>,
    amount: u64,
    rent: Option<bool>,
    authority: Option<ProgramAddress>,
    again: Seq<AccountInfo>,
    amount_again: u64,
    rent_again: Option<bool>,
    authority_again: Option<ProgramAddress>,
)
    requires
        initialize_outcome(accounts, amount, rent, authority) is Ok,
        again.len() >= 4 ==> again[3].data@ == initialized_record(accounts, amount).packed(),
    ensures
        spec_unpack_unchecked(accounts[3].data@) is Ok,
        spec_unpack_unchecked(accounts[3].data@)->Ok_0.is_initialized != 1,
        initialize_outcome(accounts, amount, rent, authority)->Ok_0 is Initialized,
        initialize_outcome(accounts, amount, rent, authority)->Ok_0->record
            == initialized_record(accounts, amount),
        initialized_record(accounts, amount).is_initialized == 1,
        initialize_outcome(again, amount_again, rent_again, authority_again) is Err,
        again.len() >= 6 && again[0].is_signer && again[1].owner == crate::token::spec_id()
            && rent_again == Some(true) ==> initialize_outcome(
            again,
            amount_again,
            rent_again,
            authority_again,
        ) == Err::<TransitionView, ProgramError>(
            ProgramError::Custom(EscrowError::EscrowAlreadyInitialized.spec_code()),
        ),
{
    if again.len() >= 4 {
        lemma_unpack_packed(initialized_record(accounts, amount), Seq::<u8>::empty());
    }
}

/// An active record is never written again: whatever operation is run on
/// storage that holds one, it either is refused or is a Complete, which
/// stores nothing.
pub proof fn lemma_active_record_is_kept(accounts: Seq<AccountInfo>, input: Seq<u8>)
    requires
        accounts.len() >= 4,
        spec_unpack_unchecked(accounts[3].data@) is Ok,
        spec_unpack_unchecked(accounts[3].data@)->Ok_0.is_initialized == 1,
    ensures
        process_outcome(accounts, input) is Ok ==> process_outcome(accounts, input)->Ok_0
            is Completed,
{
}

/// No operation goes through without the signature of the party that runs
/// it: the initiator for Initialize, the completer for Complete.
pub proof fn lemma_signature_is_required(accounts: Seq<AccountInfo>, input: Seq<u8>)
    requires
        accounts.len() >= 1,
        !accounts[0].is_signer,
        EscrowInstruction::spec_unpack(input) is Ok,
    ensures
        process_outcome(accounts, input) == Err::<TransitionView, ProgramError>(
            ProgramError::MissingRequiredSignature,
        ),
{
}

/// Whether Complete gets as far as comparing the accounts with the record:
/// nine accounts, the completer's signature, both of the completer's token
/// accounts owned by the token program, a derived authority, and storage of
/// the size of a record.
pub open spec fn reaches_identity_checks(
    accounts: Seq<AccountInfo>,
    authority: Option<ProgramAddress>,
) -> bool {
    &&& accounts.len() >= 9
    &&& accounts[0].is_signer
    &&& accounts[1].owner == crate::token::spec_id()
    &&& accounts[2].owner == crate::token::spec_id()
    &&& authority is Some
    &&& accounts[3].data@.len() == 105
}

/// Whether the four accounts that are bound to the trade are the ones the
/// trade was started with: the derived authority, and the holding account,
/// the initiator's receiving account and the initiator as the record names
/// them.
pub open spec fn identities_match(
    accounts: Seq<AccountInfo>,
    authority: Option<ProgramAddress>,
) -> bool
    recommends
        reaches_identity_checks(accounts, authority),
{
    let record = Escrow::spec_unpack(accounts[3].data@)->0;
    &&& accounts[5].key == authority->0.key
    &&& accounts[6].key == record.escrow_token_account
    &&& accounts[7].key == record.senders_token_receiver_account
    &&& accounts[8].key == record.user_sender
}

/// Complete is refused with `IncorrectProgramId` if any one of the four
/// accounts bound to the trade is not the one that is recorded, and builds
/// its calls only for the recorded ones.
pub proof fn lemma_complete_checks_identities(
    accounts: Seq<AccountInfo>,
    amount: u64,
    authority: Option<ProgramAddress>,
)
    requires
        reaches_identity_checks(accounts, authority),
    ensures
        !identities_match(accounts, authority) ==> complete_outcome(accounts, amount, authority)
            == Err::<TransitionView, ProgramError>(ProgramError::IncorrectProgramId),
        complete_outcome(accounts, amount, authority) is Ok <==> identities_match(
            accounts,
            authority,
        ) && accounts[4].key == crate::token::spec_id(),
{
}

/// Complete on storage that no Initialize has written is refused: storage
/// that is not of the size of a record, and storage of that size that is
/// still all zero unless the holding account, the initiator's receiving
/// account and the initiator presented all have the all-zero address.
pub proof fn lemma_complete_before_initialize(
    accounts: Seq<AccountInfo>,
    amount: u64,
    authority: Option<ProgramAddress>,
)
    requires
        accounts.len() >= 4 ==> accounts[3].data@.len() != 105 || accounts[3].data@ == Seq::new(
            105,
            |i: int| 0u8,
        ),
        accounts.len() >= 9 ==> accounts[6].key@ != Seq::new(32, |i: int| 0u8) || accounts[7].key@
            != Seq::new(32, |i: int| 0u8) || accounts[8].key@ != Seq::new(32, |i: int| 0u8),
    ensures
        complete_outcome(accounts, amount, authority) is Err,
{
    if accounts.len() >= 9 && accounts[3].data@.len() == 105 {
        let data = accounts[3].data@;
        let zeros = Seq::new(32, |i: int| 0u8);
        assert(data.subrange(0, 32) =~= zeros);
        assert(data.subrange(33, 65) =~= zeros);
        assert(data.subrange(65, 97) =~= zeros);
        lemma_from_bytes(zeros);
    }
}

} // verus!
