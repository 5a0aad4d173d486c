use leanvm_xmss::memory::write_bytes_to_buffer;
use leanvm_xmss::{
    epoch_to_u32, message_from_ptr, normalize_signature_bytes, pq_get_lifetime,
    pq_get_public_key_size, pq_get_signature_size, PQSigningError, MESSAGE_LENGTH, PUBLIC_KEY_SIZE,
    SIGNATURE_SIZE,
};

#[test]
fn test_exported_main_sizes() {
    assert_eq!(PUBLIC_KEY_SIZE, 32);
    assert_eq!(SIGNATURE_SIZE, 1208);
    assert_eq!(pq_get_public_key_size(), PUBLIC_KEY_SIZE);
    assert_eq!(pq_get_signature_size(), SIGNATURE_SIZE);
}

#[test]
fn test_normalize_signature_bytes_accepts_zero_padding() {
    let mut padded = vec![0u8; SIGNATURE_SIZE + 16];
    padded[..SIGNATURE_SIZE].fill(0xAB);
    assert_eq!(
        normalize_signature_bytes(&padded).unwrap(),
        &padded[..SIGNATURE_SIZE]
    );
}

#[test]
fn normalize_keeps_an_exact_signature() {
    let exact = vec![7u8; SIGNATURE_SIZE];
    assert_eq!(normalize_signature_bytes(&exact).unwrap(), &exact[..]);
}

#[test]
fn normalize_is_stable() {
    let mut padded = vec![0u8; SIGNATURE_SIZE + 3];
    padded[..SIGNATURE_SIZE].fill(0x5C);
    let once = normalize_signature_bytes(&padded).unwrap();
    let twice = normalize_signature_bytes(once).unwrap();
    assert_eq!(once, twice);
}

#[test]
fn normalize_refuses_other_padding() {
    let mut padded = vec![0u8; SIGNATURE_SIZE + 16];
    padded[SIGNATURE_SIZE + 15] = 1;
    assert_eq!(
        normalize_signature_bytes(&padded),
        Err(PQSigningError::UnknownError)
    );
    padded[SIGNATURE_SIZE + 15] = 0;
    padded[SIGNATURE_SIZE] = 1;
    assert_eq!(
        normalize_signature_bytes(&padded),
        Err(PQSigningError::UnknownError)
    );
}

#[test]
fn normalize_refuses_a_short_signature() {
    let short = vec![0u8; SIGNATURE_SIZE - 1];
    assert_eq!(
        normalize_signature_bytes(&short),
        Err(PQSigningError::UnknownError)
    );
    assert_eq!(
        normalize_signature_bytes(&[]),
        Err(PQSigningError::UnknownError)
    );
}

#[test]
fn epochs_below_the_lifetime_are_slots() {
    assert_eq!(pq_get_lifetime(), 1u64 << 32);
    assert_eq!(epoch_to_u32(0), Ok(0));
    assert_eq!(epoch_to_u32(pq_get_lifetime() - 1), Ok(u32::MAX));
    assert_eq!(
        epoch_to_u32(pq_get_lifetime()),
        Err(PQSigningError::InvalidEpoch)
    );
    assert_eq!(epoch_to_u32(u64::MAX), Err(PQSigningError::InvalidEpoch));
}

#[test]
fn messages_have_one_length() {
    let mut memory = [0u8; 40];
    for i in 0..40 {
        memory[i] = i as u8;
    }
    let copied = message_from_ptr(Some(&memory), MESSAGE_LENGTH).unwrap();
    assert_eq!(&copied[..], &memory[..32]);
    assert_eq!(
        message_from_ptr(Some(&memory), 31),
        Err(PQSigningError::InvalidMessageLength)
    );
    assert_eq!(
        message_from_ptr(Some(&memory), 33),
        Err(PQSigningError::InvalidMessageLength)
    );
    assert_eq!(
        message_from_ptr(None, 31),
        Err(PQSigningError::InvalidPointer)
    );
}

#[test]
fn bytes_that_fit_are_written() {
    let mut buffer = [9u8; 6];
    let mut written = 77usize;
    assert_eq!(
        write_bytes_to_buffer(&[1, 2, 3, 4], Some(&mut buffer), 6, Some(&mut written)),
        PQSigningError::Success
    );
    assert_eq!(buffer, [1, 2, 3, 4, 9, 9]);
    assert_eq!(written, 4);
}

#[test]
fn reported_length_is_enough() {
    let bytes = [1u8, 2, 3, 4, 5];
    let mut small = [9u8; 4];
    let mut needed = 0usize;
    assert_eq!(
        write_bytes_to_buffer(&bytes, Some(&mut small), 4, Some(&mut needed)),
        PQSigningError::UnknownError
    );
    assert_eq!(small, [9; 4]);
    assert_eq!(needed, 5);
    let mut enough = vec![0u8; needed];
    let mut written = 0usize;
    assert_eq!(
        write_bytes_to_buffer(&bytes, Some(&mut enough), needed, Some(&mut written)),
        PQSigningError::Success
    );
    assert_eq!(enough, bytes);
    assert_eq!(written, needed);
}

#[test]
fn null_output_pointers_are_refused() {
    let mut buffer = [9u8; 4];
    let mut written = 77usize;
    assert_eq!(
        write_bytes_to_buffer(&[1], None, 4, Some(&mut written)),
        PQSigningError::InvalidPointer
    );
    assert_eq!(written, 77);
    assert_eq!(
        write_bytes_to_buffer(&[1], Some(&mut buffer), 4, None),
        PQSigningError::InvalidPointer
    );
    assert_eq!(buffer, [9; 4]);
}
