use escrow::error::{EscrowError, ProgramError};
use escrow::instructions::{initialize, EscrowInstruction, Payload};
use escrow::pubkey::Pubkey;
use escrow::wire::read_le_u64;

fn key(n: u8) -> Pubkey {
    Pubkey::new_from_array([n; 32])
}

#[test]
fn payload_decodes_discriminant_and_amount() {
    let input = [0u8, 50, 0, 0, 0, 0, 0, 0, 0];
    assert_eq!(Payload::try_from_slice(&input), Ok(Payload { variant: 0, arg1: 50 }));
}

#[test]
fn payload_amount_is_little_endian() {
    let input = [1u8, 0x08, 0x07, 0x06, 0x05, 0x04, 0x03, 0x02, 0x01];
    assert_eq!(
        Payload::try_from_slice(&input),
        Ok(Payload { variant: 1, arg1: 0x0102_0304_0506_0708 })
    );
}

#[test]
fn payload_keeps_unknown_discriminant() {
    let input = [7u8, 1, 0, 0, 0, 0, 0, 0, 0];
    assert_eq!(Payload::try_from_slice(&input), Ok(Payload { variant: 7, arg1: 1 }));
}

#[test]
fn payload_of_max_amount() {
    let input = [0u8, 255, 255, 255, 255, 255, 255, 255, 255];
    assert_eq!(Payload::try_from_slice(&input), Ok(Payload { variant: 0, arg1: u64::MAX }));
}

#[test]
fn payload_rejects_every_short_length() {
    let input = [0u8, 1, 2, 3, 4, 5, 6, 7, 8];
    for len in 0..9 {
        assert_eq!(Payload::try_from_slice(&input[..len]), Err(EscrowError::InvalidData));
    }
}

#[test]
fn payload_rejects_trailing_bytes() {
    let input = [0u8, 1, 0, 0, 0, 0, 0, 0, 0, 0];
    assert_eq!(Payload::try_from_slice(&input), Err(EscrowError::InvalidData));
}

#[test]
fn payload_encodes_to_nine_bytes() {
    let payload = Payload { variant: 1, arg1: 0x0102_0304_0506_0708 };
    assert_eq!(payload.to_vec(), vec![1u8, 0x08, 0x07, 0x06, 0x05, 0x04, 0x03, 0x02, 0x01]);
}

#[test]
fn payload_round_trips() {
    for payload in [
        Payload { variant: 0, arg1: 0 },
        Payload { variant: 1, arg1: 100 },
        Payload { variant: 255, arg1: u64::MAX },
        Payload { variant: 3, arg1: 1 << 40 },
    ] {
        assert_eq!(Payload::try_from_slice(&payload.to_vec()), Ok(payload));
    }
}

#[test]
fn instruction_unpacks_initialize() {
    let input = [0u8, 50, 0, 0, 0, 0, 0, 0, 0];
    assert_eq!(
        EscrowInstruction::unpack(&input),
        Ok(EscrowInstruction::Initialize { amount: 50 })
    );
}

#[test]
fn instruction_unpacks_complete() {
    let input = [1u8, 100, 0, 0, 0, 0, 0, 0, 0];
    assert_eq!(
        EscrowInstruction::unpack(&input),
        Ok(EscrowInstruction::Complete { amount: 100 })
    );
}

#[test]
fn instruction_rejects_unknown_discriminants() {
    for tag in 2..=255u8 {
        let input = [tag, 1, 0, 0, 0, 0, 0, 0, 0];
        assert_eq!(EscrowInstruction::unpack(&input), Err(EscrowError::InvalidInstruction));
    }
}

#[test]
fn instruction_rejects_short_payloads() {
    assert_eq!(EscrowInstruction::unpack(&[]), Err(EscrowError::InvalidData));
    assert_eq!(EscrowInstruction::unpack(&[0]), Err(EscrowError::InvalidData));
    assert_eq!(
        EscrowInstruction::unpack(&[1, 0, 0, 0, 0, 0, 0, 0]),
        Err(EscrowError::InvalidData)
    );
}

#[test]
fn instruction_length_is_checked_before_discriminant() {
    assert_eq!(EscrowInstruction::unpack(&[9, 0, 0]), Err(EscrowError::InvalidData));
    assert_eq!(
        EscrowInstruction::unpack(&[9, 0, 0, 0, 0, 0, 0, 0, 0, 0]),
        Err(EscrowError::InvalidData)
    );
}

#[test]
fn instruction_packs_tag_then_amount() {
    assert_eq!(
        EscrowInstruction::Initialize { amount: 258 }.pack(),
        vec![0u8, 2, 1, 0, 0, 0, 0, 0, 0]
    );
    assert_eq!(
        EscrowInstruction::Complete { amount: 1 << 56 }.pack(),
        vec![1u8, 0, 0, 0, 0, 0, 0, 0, 1]
    );
}

#[test]
fn instruction_round_trips() {
    for instruction in [
        EscrowInstruction::Initialize { amount: 0 },
        EscrowInstruction::Initialize { amount: 50 },
        EscrowInstruction::Complete { amount: 100 },
        EscrowInstruction::Complete { amount: u64::MAX },
    ] {
        assert_eq!(EscrowInstruction::unpack(&instruction.pack()), Ok(instruction));
    }
}

#[test]
fn instruction_payload_and_back() {
    let instruction = EscrowInstruction::Complete { amount: 77 };
    let payload = instruction.payload();
    assert_eq!(payload, Payload { variant: 1, arg1: 77 });
    assert_eq!(EscrowInstruction::from_payload(&payload), Ok(instruction));
    assert_eq!(
        EscrowInstruction::from_payload(&Payload { variant: 2, arg1: 77 }),
        Err(EscrowError::InvalidInstruction)
    );
}

#[test]
fn borsh_agrees_with_the_payload_layout() {
    let bytes = EscrowInstruction::Initialize { amount: 0x1122_3344_5566_7788 }.pack();
    assert_eq!(bytes[0], 0);
    assert_eq!(borsh::from_slice::<u64>(&bytes[1..]).unwrap(), 0x1122_3344_5566_7788);
    assert_eq!(borsh::to_vec(&0x1122_3344_5566_7788u64).unwrap(), bytes[1..].to_vec());
}

#[test]
fn read_le_u64_reads_least_significant_first() {
    assert_eq!(read_le_u64(&[1, 0, 0, 0, 0, 0, 0, 0]), 1);
    assert_eq!(read_le_u64(&[0, 1, 0, 0, 0, 0, 0, 0]), 256);
    assert_eq!(read_le_u64(&[0x08, 0x07, 0x06, 0x05, 0x04, 0x03, 0x02, 0x01]), 0x0102_0304_0506_0708);
    assert_eq!(read_le_u64(&[255; 8]), u64::MAX);
}

#[test]
fn escrow_error_codes_and_messages() {
    assert_eq!(EscrowError::InvalidData.code(), 0);
    assert_eq!(EscrowError::InvalidInstruction.code(), 1);
    assert_eq!(EscrowError::EscrowAlreadyInitialized.code(), 2);
    assert_eq!(EscrowError::InvalidData.message(), "Invalid Data");
    assert_eq!(EscrowError::InvalidInstruction.message(), "Invalid Instruction");
    assert_eq!(EscrowError::EscrowAlreadyInitialized.message(), "Escrow Already Initialized");
}

#[test]
fn escrow_error_becomes_custom_program_error() {
    assert_eq!(ProgramError::from(EscrowError::InvalidData), ProgramError::Custom(0));
    assert_eq!(ProgramError::from(EscrowError::InvalidInstruction), ProgramError::Custom(1));
    assert_eq!(
        ProgramError::from(EscrowError::EscrowAlreadyInitialized),
        ProgramError::Custom(2)
    );
}

#[test]
fn initialize_builder_lists_six_writable_accounts() {
    let instruction = initialize(&key(1), &key(2), &key(3), &key(4), &key(5), &key(6), 50);
    assert_eq!(instruction.program_id, escrow::id());
    assert_eq!(instruction.data, vec![0u8, 50, 0, 0, 0, 0, 0, 0, 0]);
    assert_eq!(instruction.accounts.len(), 6);
    for (i, meta) in instruction.accounts.iter().enumerate() {
        assert_eq!(meta.pubkey, key(i as u8 + 1));
        assert_eq!(meta.is_signer, i == 0);
        assert!(meta.is_writable);
    }
    assert_eq!(
        EscrowInstruction::unpack(&instruction.data),
        Ok(EscrowInstruction::Initialize { amount: 50 })
    );
}

#[test]
fn initialize_builder_matches_the_borsh_instruction() {
    let to_sol = |k: Pubkey| solana_program::pubkey::Pubkey::new_from_array(k.to_bytes());
    let metas: Vec<solana_program::instruction::AccountMeta> = (1..=6u8)
        .map(|n| solana_program::instruction::AccountMeta::new(to_sol(key(n)), n == 1))
        .collect();
    let expected = solana_program::instruction::Instruction::new_with_borsh(
        to_sol(escrow::id()),
        &(0u8, 7_000_000_000u64),
        metas,
    );
    let built = initialize(&key(1), &key(2), &key(3), &key(4), &key(5), &key(6), 7_000_000_000);
    assert_eq!(built.program_id.to_bytes(), expected.program_id.to_bytes());
    assert_eq!(built.data, expected.data);
    assert_eq!(built.accounts.len(), expected.accounts.len());
    for (ours, theirs) in built.accounts.iter().zip(expected.accounts.iter()) {
        assert_eq!(ours.pubkey.to_bytes(), theirs.pubkey.to_bytes());
        assert_eq!(ours.is_signer, theirs.is_signer);
        assert_eq!(ours.is_writable, theirs.is_writable);
    }
}

#[test]
fn program_id_is_the_declared_address() {
    let declared: solana_program::pubkey::Pubkey =
        "CCFRSaHpLGbGnFkTRaeSxYdBZtGP9sa6LhPHBNRqtFu8".parse().unwrap();
    assert_eq!(escrow::id().to_bytes(), declared.to_bytes());
    assert!(escrow::check_id(&escrow::id()));
    assert!(!escrow::check_id(&key(0)));
}

#[test]
fn pubkey_equality_is_by_bytes() {
    let mut bytes = [9u8; 32];
    assert_eq!(Pubkey::new_from_array(bytes), key(9));
    bytes[31] = 8;
    assert_ne!(Pubkey::new_from_array(bytes), key(9));
    bytes[31] = 9;
    bytes[0] = 8;
    assert_ne!(Pubkey::new_from_array(bytes), key(9));
}

#[test]
fn pubkey_from_slice_reads_at_offset() {
    let src: Vec<u8> = (0..40u8).collect();
    let read = Pubkey::from_slice(&src, 5);
    let expected: Vec<u8> = (5..37u8).collect();
    assert_eq!(read.to_bytes().to_vec(), expected);
}
