use escrow::error::ProgramError;
use escrow::pubkey::Pubkey;
use escrow::state::{Escrow, ESCROW_LEN};

fn sample() -> Escrow {
    Escrow {
        user_sender: Pubkey::new_from_array([1; 32]),
        is_initialized: 1,
        escrow_token_account: Pubkey::new_from_array([2; 32]),
        senders_token_receiver_account: Pubkey::new_from_array([3; 32]),
        expected_amount: 0x0102_0304_0506_0708,
    }
}

fn sample_bytes() -> Vec<u8> {
    let mut bytes = vec![1u8; 32];
    bytes.push(1);
    bytes.extend_from_slice(&[2u8; 32]);
    bytes.extend_from_slice(&[3u8; 32]);
    bytes.extend_from_slice(&[0x08, 0x07, 0x06, 0x05, 0x04, 0x03, 0x02, 0x01]);
    bytes
}

#[test]
fn record_is_105_bytes() {
    assert_eq!(ESCROW_LEN, 105);
    assert_eq!(sample().to_vec().len(), 105);
}

#[test]
fn record_layout_is_fixed() {
    assert_eq!(sample().to_vec(), sample_bytes());
}

#[test]
fn record_unpacks_by_layout() {
    assert_eq!(Escrow::unpack_unchecked(&sample_bytes()), Ok(sample()));
    assert_eq!(Escrow::unpack_from_slice(&sample_bytes()), Ok(sample()));
}

#[test]
fn record_round_trips_from_values() {
    let mut record = sample();
    for flag in [0u8, 1, 2, 255] {
        record.is_initialized = flag;
        record.expected_amount = u64::MAX - flag as u64;
        assert_eq!(Escrow::unpack_unchecked(&record.to_vec()), Ok(record));
    }
}

#[test]
fn record_round_trips_from_bytes() {
    let mut bytes: Vec<u8> = (0..105u8).collect();
    assert_eq!(Escrow::unpack_unchecked(&bytes).unwrap().to_vec(), bytes);
    bytes.reverse();
    assert_eq!(Escrow::unpack_unchecked(&bytes).unwrap().to_vec(), bytes);
    let zeros = vec![0u8; 105];
    assert_eq!(Escrow::unpack_unchecked(&zeros).unwrap().to_vec(), zeros);
    let ones = vec![255u8; 105];
    assert_eq!(Escrow::unpack_unchecked(&ones).unwrap().to_vec(), ones);
}

#[test]
fn zeroed_storage_is_a_free_record() {
    let record = Escrow::unpack_unchecked(&[0u8; 105]).unwrap();
    assert_eq!(record.is_initialized, 0);
    assert_eq!(record.expected_amount, 0);
    assert_eq!(record.user_sender, Pubkey::new_from_array([0; 32]));
}

#[test]
fn unpack_unchecked_wants_exactly_105_bytes() {
    assert_eq!(Escrow::unpack_unchecked(&[]), Err(ProgramError::InvalidAccountData));
    assert_eq!(Escrow::unpack_unchecked(&[0u8; 104]), Err(ProgramError::InvalidAccountData));
    assert_eq!(Escrow::unpack_unchecked(&[0u8; 106]), Err(ProgramError::InvalidAccountData));
}

#[test]
fn unpack_from_slice_ignores_what_follows() {
    let mut bytes = sample_bytes();
    bytes.extend_from_slice(&[9, 9, 9]);
    assert_eq!(Escrow::unpack_from_slice(&bytes), Ok(sample()));
    assert_eq!(
        Escrow::unpack_from_slice(&bytes[..104]),
        Err(ProgramError::InvalidAccountData)
    );
}

#[test]
fn pack_into_slice_leaves_the_rest() {
    let mut dst = vec![0xEEu8; 110];
    sample().pack_into_slice(&mut dst);
    assert_eq!(&dst[..105], &sample_bytes()[..]);
    assert_eq!(&dst[105..], &[0xEEu8; 5]);
}

#[test]
fn pack_into_slice_fills_exact_storage() {
    let mut dst = vec![0u8; 105];
    sample().pack_into_slice(&mut dst);
    assert_eq!(dst, sample_bytes());
}

#[test]
fn record_equality_looks_at_every_field() {
    let base = sample();
    let mut other = sample();
    assert_eq!(base, other);
    other.user_sender = Pubkey::new_from_array([9; 32]);
    assert_ne!(base, other);
    other = sample();
    other.is_initialized = 0;
    assert_ne!(base, other);
    other = sample();
    other.escrow_token_account = Pubkey::new_from_array([9; 32]);
    assert_ne!(base, other);
    other = sample();
    other.senders_token_receiver_account = Pubkey::new_from_array([9; 32]);
    assert_ne!(base, other);
    other = sample();
    other.expected_amount = 1;
    assert_ne!(base, other);
}
