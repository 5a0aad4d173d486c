use std::cell::Cell;

use leanvm_xmss::{
    pq_advance_preparation, pq_get_activation_interval, pq_get_prepared_interval, pq_key_gen,
    pq_public_key_deserialize, pq_public_key_from_json, pq_public_key_serialize,
    pq_secret_key_deserialize, pq_secret_key_from_json, pq_secret_key_serialize, pq_sign,
    pq_signature_deserialize, pq_signature_from_json, pq_signature_serialize, pq_verify,
    pq_verify_ssz, KeyGenAnswer, PQRange, PQSignature, PQSignatureSchemePublicKey,
    PQSignatureSchemeSecretKey, PQSigningError, SignAnswer, XmssSecretKey, XmssSignatureError,
    MESSAGE_LENGTH, PUBLIC_KEY_SIZE, SIGNATURE_SIZE,
};

/// A signature of the toy scheme: the key's number, the slot and the message.
#[derive(Debug, Clone, PartialEq, Eq)]
struct ToySignature {
    key: u64,
    slot: u32,
    message: [u8; MESSAGE_LENGTH],
}

fn toy_key_gen(first: u64, count: u64) -> KeyGenAnswer<u64, u64> {
    if count == 0 || first + count > 1 << 32 {
        return Ok(Err(()));
    }
    let secret = XmssSecretKey {
        key: 42,
        first_slot: first as u32,
        last_slot: (first + count - 1) as u32,
    };
    Ok(Ok((42, secret)))
}

fn toy_sign(
    sk: &XmssSecretKey<u64>,
    slot: u32,
    message: &[u8; MESSAGE_LENGTH],
) -> SignAnswer<ToySignature> {
    Ok(Ok(ToySignature {
        key: sk.key,
        slot,
        message: *message,
    }))
}

fn toy_verify(
    pk: &u64,
    slot: u32,
    message: &[u8; MESSAGE_LENGTH],
    signature: &ToySignature,
) -> bool {
    signature.key == *pk && signature.slot == slot && signature.message == *message
}

fn encode_signature(signature: &ToySignature) -> Vec<u8> {
    let mut bytes = vec![0xABu8; SIGNATURE_SIZE];
    bytes[..8].copy_from_slice(&signature.key.to_le_bytes());
    bytes[8..12].copy_from_slice(&signature.slot.to_le_bytes());
    bytes[12..44].copy_from_slice(&signature.message);
    bytes
}

fn decode_signature(bytes: &[u8]) -> Option<ToySignature> {
    if bytes.len() != SIGNATURE_SIZE || bytes[SIGNATURE_SIZE - 1] != 0xAB {
        return None;
    }
    Some(ToySignature {
        key: u64::from_le_bytes(bytes[..8].try_into().unwrap()),
        slot: u32::from_le_bytes(bytes[8..12].try_into().unwrap()),
        message: bytes[12..44].try_into().unwrap(),
    })
}

fn encode_public_key(pk: &u64) -> Vec<u8> {
    let mut bytes = vec![0x77u8; PUBLIC_KEY_SIZE];
    bytes[..8].copy_from_slice(&pk.to_le_bytes());
    bytes
}

fn decode_public_key(bytes: &[u8]) -> Option<u64> {
    if bytes.len() != PUBLIC_KEY_SIZE || bytes[8] != 0x77 {
        return None;
    }
    Some(u64::from_le_bytes(bytes[..8].try_into().unwrap()))
}

fn encode_secret_key(sk: &XmssSecretKey<u64>) -> Option<Vec<u8>> {
    let mut bytes = sk.key.to_le_bytes().to_vec();
    bytes.extend_from_slice(&sk.first_slot.to_le_bytes());
    bytes.extend_from_slice(&sk.last_slot.to_le_bytes());
    Some(bytes)
}

fn decode_secret_key(bytes: &[u8]) -> Option<XmssSecretKey<u64>> {
    if bytes.len() != 16 {
        return None;
    }
    Some(XmssSecretKey {
        key: u64::from_le_bytes(bytes[..8].try_into().unwrap()),
        first_slot: u32::from_le_bytes(bytes[8..12].try_into().unwrap()),
        last_slot: u32::from_le_bytes(bytes[12..].try_into().unwrap()),
    })
}

fn keys() -> (
    PQSignatureSchemePublicKey<u64>,
    PQSignatureSchemeSecretKey<u64>,
) {
    let mut pk = None;
    let mut sk = None;
    assert_eq!(
        pq_key_gen(0, 100, Some(&mut pk), Some(&mut sk), toy_key_gen),
        PQSigningError::Success
    );
    (pk.unwrap(), sk.unwrap())
}

fn sign(
    sk: &PQSignatureSchemeSecretKey<u64>,
    epoch: u64,
    message: &[u8],
) -> PQSignature<ToySignature> {
    let mut signature = None;
    assert_eq!(
        pq_sign(
            Some(sk),
            epoch,
            Some(message),
            MESSAGE_LENGTH,
            Some(&mut signature),
            toy_sign
        ),
        PQSigningError::Success
    );
    signature.unwrap()
}

#[test]
fn test_key_gen_sign_verify() {
    let mut pk = None;
    let mut sk = None;
    let result = pq_key_gen(0, 100, Some(&mut pk), Some(&mut sk), toy_key_gen);
    assert_eq!(result, PQSigningError::Success);
    assert!(pk.is_some());
    assert!(sk.is_some());

    let message = [0u8; MESSAGE_LENGTH];
    let mut signature = None;
    let sign_result = pq_sign(
        sk.as_ref(),
        10,
        Some(&message),
        MESSAGE_LENGTH,
        Some(&mut signature),
        toy_sign,
    );
    assert_eq!(sign_result, PQSigningError::Success);
    assert!(signature.is_some());

    let verify_result = pq_verify(
        pk.as_ref(),
        10,
        Some(&message),
        MESSAGE_LENGTH,
        signature.as_ref(),
        toy_verify,
    );
    assert_eq!(verify_result, 1);
}

#[test]
fn test_signature_size_matches_main_encoding() {
    let (_, sk) = keys();
    let message = [7u8; MESSAGE_LENGTH];
    let signature = sign(&sk, 10, &message);

    let mut serialized = vec![0u8; SIGNATURE_SIZE];
    let mut written = 0usize;
    assert_eq!(
        pq_signature_serialize(
            Some(&signature),
            Some(&mut serialized),
            SIGNATURE_SIZE,
            Some(&mut written),
            encode_signature
        ),
        PQSigningError::Success
    );
    assert_eq!(written, SIGNATURE_SIZE);
}

#[test]
fn test_signature_deserialize_accepts_zero_padding() {
    let (pk, sk) = keys();
    let message = [3u8; MESSAGE_LENGTH];
    let signature = sign(&sk, 10, &message);

    let mut serialized = vec![0u8; SIGNATURE_SIZE + 16];
    let mut written = 0usize;
    assert_eq!(
        pq_signature_serialize(
            Some(&signature),
            Some(&mut serialized),
            SIGNATURE_SIZE,
            Some(&mut written),
            encode_signature
        ),
        PQSigningError::Success
    );
    assert_eq!(written, SIGNATURE_SIZE);

    let mut deserialized = None;
    assert_eq!(
        pq_signature_deserialize(
            Some(&serialized),
            SIGNATURE_SIZE + 16,
            Some(&mut deserialized),
            decode_signature
        ),
        PQSigningError::Success
    );
    assert_eq!(
        pq_verify(
            Some(&pk),
            10,
            Some(&message),
            MESSAGE_LENGTH,
            deserialized.as_ref(),
            toy_verify
        ),
        1
    );

    let mut pubkey_bytes = [0u8; PUBLIC_KEY_SIZE];
    let mut pubkey_written = 0usize;
    assert_eq!(
        pq_public_key_serialize(
            Some(&pk),
            Some(&mut pubkey_bytes),
            PUBLIC_KEY_SIZE,
            Some(&mut pubkey_written),
            encode_public_key
        ),
        PQSigningError::Success
    );
    assert_eq!(pubkey_written, PUBLIC_KEY_SIZE);
    assert_eq!(
        pq_verify_ssz(
            Some(&pubkey_bytes),
            PUBLIC_KEY_SIZE,
            10,
            Some(&message),
            MESSAGE_LENGTH,
            Some(&serialized),
            SIGNATURE_SIZE + 16,
            decode_public_key,
            decode_signature,
            toy_verify
        ),
        1
    );
}

#[test]
fn key_gen_answers() {
    let mut pk: Option<PQSignatureSchemePublicKey<u64>> = None;
    let mut sk: Option<PQSignatureSchemeSecretKey<u64>> = None;
    assert_eq!(
        pq_key_gen(0, 100, None, Some(&mut sk), toy_key_gen),
        PQSigningError::InvalidPointer
    );
    assert_eq!(
        pq_key_gen(0, 100, Some(&mut pk), None, toy_key_gen),
        PQSigningError::InvalidPointer
    );
    assert_eq!(
        pq_key_gen(0, 0, Some(&mut pk), Some(&mut sk), toy_key_gen),
        PQSigningError::InvalidEpoch
    );
    assert_eq!(
        pq_key_gen(0, 1, Some(&mut pk), Some(&mut sk), |_, _| Err(())),
        PQSigningError::UnknownError
    );
    assert!(pk.is_none());
    assert!(sk.is_none());
}

#[test]
fn intervals_end_after_the_last_slot() {
    assert_eq!(PQRange::from(3..=9), PQRange { start: 3, end: 10 });
    assert_eq!(
        PQRange::from(0..=u32::MAX),
        PQRange {
            start: 0,
            end: 1 << 32
        }
    );
    let (_, mut sk) = keys();
    assert_eq!(
        pq_get_activation_interval(Some(&sk)),
        PQRange { start: 0, end: 100 }
    );
    pq_advance_preparation(Some(&mut sk));
    assert_eq!(
        pq_get_prepared_interval(Some(&sk)),
        PQRange { start: 0, end: 100 }
    );
    assert_eq!(
        pq_get_activation_interval(None::<&PQSignatureSchemeSecretKey<u64>>),
        PQRange { start: 0, end: 0 }
    );
    assert_eq!(
        pq_get_prepared_interval(None::<&PQSignatureSchemeSecretKey<u64>>),
        PQRange { start: 0, end: 0 }
    );
}

#[test]
fn signing_follows_the_interval() {
    let sk = PQSignatureSchemeSecretKey {
        inner: XmssSecretKey {
            key: 1u64,
            first_slot: 5,
            last_slot: 8,
        },
    };
    let message = [1u8; MESSAGE_LENGTH];
    let interval = pq_get_activation_interval(Some(&sk));
    for epoch in 0..20u64 {
        let mut out = None;
        let status = pq_sign(
            Some(&sk),
            epoch,
            Some(&message),
            MESSAGE_LENGTH,
            Some(&mut out),
            toy_sign,
        );
        if interval.start <= epoch && epoch < interval.end {
            assert_eq!(status, PQSigningError::Success);
        } else {
            assert_eq!(status, PQSigningError::InvalidEpoch);
            assert!(out.is_none());
        }
    }
}

#[test]
fn signing_refusals() {
    let (_, sk) = keys();
    let message = [1u8; MESSAGE_LENGTH];
    let mut out: Option<PQSignature<ToySignature>> = None;
    assert_eq!(
        pq_sign(
            None::<&PQSignatureSchemeSecretKey<u64>>,
            1,
            Some(&message),
            32,
            Some(&mut out),
            toy_sign
        ),
        PQSigningError::InvalidPointer
    );
    assert_eq!(
        pq_sign(Some(&sk), 1, None, 32, Some(&mut out), toy_sign),
        PQSigningError::InvalidPointer
    );
    assert_eq!(
        pq_sign(Some(&sk), 1, Some(&message), 32, None, toy_sign),
        PQSigningError::InvalidPointer
    );
    assert_eq!(
        pq_sign(
            Some(&sk),
            1 << 32,
            Some(&message),
            31,
            Some(&mut out),
            toy_sign
        ),
        PQSigningError::InvalidEpoch
    );
    assert_eq!(
        pq_sign(Some(&sk), 200, Some(&message), 31, Some(&mut out), toy_sign),
        PQSigningError::InvalidMessageLength
    );
    assert!(out.is_none());
}

#[test]
fn signing_answers() {
    let (_, sk) = keys();
    let message = [1u8; MESSAGE_LENGTH];
    let mut out: Option<PQSignature<ToySignature>> = None;
    assert_eq!(
        pq_sign(Some(&sk), 1, Some(&message), 32, Some(&mut out), |_, _, _| {
            Ok(Err(XmssSignatureError::EncodingAttemptsExceeded))
        }),
        PQSigningError::EncodingAttemptsExceeded
    );
    assert_eq!(
        pq_sign(Some(&sk), 1, Some(&message), 32, Some(&mut out), |_, _, _| {
            Ok(Err(XmssSignatureError::SlotOutOfRange))
        }),
        PQSigningError::InvalidEpoch
    );
    assert_eq!(
        pq_sign(Some(&sk), 1, Some(&message), 32, Some(&mut out), |_, _, _| {
            Err(())
        }),
        PQSigningError::UnknownError
    );
    assert!(out.is_none());
}

#[test]
fn verification_codes() {
    let (pk, sk) = keys();
    let message = [1u8; MESSAGE_LENGTH];
    let other = [2u8; MESSAGE_LENGTH];
    let signature = sign(&sk, 10, &message);
    let check = |epoch: u64, signed: Option<&[u8]>, len: usize| {
        pq_verify(Some(&pk), epoch, signed, len, Some(&signature), toy_verify)
    };
    assert_eq!(check(10, Some(&message), 32), 1);
    assert_eq!(check(11, Some(&message), 32), 0);
    assert_eq!(check(10, Some(&other), 32), 0);
    assert_eq!(check(10, None, 32), -1);
    assert_eq!(check(1 << 32, Some(&message), 31), -3);
    assert_eq!(check(10, Some(&message), 31), -2);
    assert_eq!(
        pq_verify(
            None::<&PQSignatureSchemePublicKey<u64>>,
            10,
            Some(&message),
            32,
            Some(&signature),
            toy_verify
        ),
        -1
    );
    assert_eq!(
        pq_verify(Some(&pk), 10, Some(&message), 32, None, toy_verify),
        -1
    );
}

#[test]
fn encoded_verification_codes() {
    let (pk, sk) = keys();
    let message = [1u8; MESSAGE_LENGTH];
    let key_bytes = encode_public_key(&pk.inner);
    let bytes = encode_signature(&sign(&sk, 10, &message).inner);
    let check = |key: Option<&[u8]>,
                 key_len: usize,
                 epoch: u64,
                 len: usize,
                 signature: Option<&[u8]>,
                 signature_len: usize| {
        pq_verify_ssz(
            key,
            key_len,
            epoch,
            Some(&message),
            len,
            signature,
            signature_len,
            decode_public_key,
            decode_signature,
            toy_verify,
        )
    };
    let key = Some(&key_bytes[..]);
    let signature = Some(&bytes[..]);
    assert_eq!(check(key, 32, 10, 32, signature, SIGNATURE_SIZE), 1);
    assert_eq!(check(key, 32, 9, 32, signature, SIGNATURE_SIZE), 0);
    assert_eq!(check(None, 32, 10, 32, signature, SIGNATURE_SIZE), -1);
    assert_eq!(check(key, 32, 10, 32, None, SIGNATURE_SIZE), -1);
    assert_eq!(check(key, 31, 1 << 32, 31, signature, 0), -7);
    assert_eq!(check(key, 32, 1 << 32, 31, signature, 0), -3);
    assert_eq!(check(key, 32, 10, 31, signature, 0), -2);
    assert_eq!(check(key, 32, 10, 32, signature, SIGNATURE_SIZE - 1), -8);
    let bad_key = [0u8; 32];
    assert_eq!(check(Some(&bad_key), 32, 10, 32, signature, SIGNATURE_SIZE), -5);
    let bad_signature = [0u8; SIGNATURE_SIZE];
    assert_eq!(
        check(key, 32, 10, 32, Some(&bad_signature), SIGNATURE_SIZE),
        -6
    );
    let mut padded = bytes.clone();
    padded.extend_from_slice(&[0, 0, 0, 1]);
    assert_eq!(check(key, 32, 10, 32, Some(&padded), SIGNATURE_SIZE + 3), 1);
    assert_eq!(check(key, 32, 10, 32, Some(&padded), SIGNATURE_SIZE + 4), -8);
}

#[test]
fn keys_read_back() {
    let (pk, sk) = keys();
    let mut buffer = vec![0u8; 64];
    let mut written = 0usize;
    assert_eq!(
        pq_public_key_serialize(
            Some(&pk),
            Some(&mut buffer),
            64,
            Some(&mut written),
            encode_public_key
        ),
        PQSigningError::Success
    );
    let mut read_pk = None;
    assert_eq!(
        pq_public_key_deserialize(Some(&buffer), written, Some(&mut read_pk), decode_public_key),
        PQSigningError::Success
    );
    let read_pk = read_pk.unwrap();
    assert_eq!(written, PUBLIC_KEY_SIZE);
    assert_eq!(read_pk.inner, pk.inner);
    assert_eq!(encode_public_key(&read_pk.inner), &buffer[..written]);

    assert_eq!(
        pq_secret_key_serialize(
            Some(&sk),
            Some(&mut buffer),
            64,
            Some(&mut written),
            encode_secret_key
        ),
        PQSigningError::Success
    );
    let mut read_sk = None;
    assert_eq!(
        pq_secret_key_deserialize(Some(&buffer), written, Some(&mut read_sk), decode_secret_key),
        PQSigningError::Success
    );
    let read_sk = read_sk.unwrap();
    assert_eq!(read_sk.inner.key, sk.inner.key);
    assert_eq!(read_sk.inner.first_slot, 0);
    assert_eq!(read_sk.inner.last_slot, 99);
    assert_eq!(
        pq_get_activation_interval(Some(&read_sk)),
        pq_get_activation_interval(Some(&sk))
    );
    assert_eq!(
        encode_secret_key(&read_sk.inner).unwrap(),
        &buffer[..written]
    );
}

#[test]
fn writing_refusals() {
    let (pk, sk) = keys();
    let mut buffer = vec![5u8; 64];
    let mut written = 7usize;
    assert_eq!(
        pq_public_key_serialize(
            None,
            Some(&mut buffer),
            64,
            Some(&mut written),
            encode_public_key
        ),
        PQSigningError::InvalidPointer
    );
    assert_eq!(
        pq_secret_key_serialize(
            None,
            Some(&mut buffer),
            64,
            Some(&mut written),
            encode_secret_key
        ),
        PQSigningError::InvalidPointer
    );
    assert_eq!(
        pq_signature_serialize(
            None,
            Some(&mut buffer),
            64,
            Some(&mut written),
            encode_signature
        ),
        PQSigningError::InvalidPointer
    );
    assert_eq!(
        pq_secret_key_serialize(
            Some(&sk),
            Some(&mut buffer),
            64,
            Some(&mut written),
            |_| None
        ),
        PQSigningError::UnknownError
    );
    assert_eq!(written, 7);
    assert_eq!(
        pq_public_key_serialize(
            Some(&pk),
            Some(&mut buffer),
            31,
            Some(&mut written),
            encode_public_key
        ),
        PQSigningError::UnknownError
    );
    assert_eq!(written, 32);
    assert_eq!(buffer, vec![5u8; 64]);
}

#[test]
fn reading_refusals() {
    let bytes = encode_public_key(&1);
    let mut pk = None;
    assert_eq!(
        pq_public_key_deserialize(None, 32, Some(&mut pk), decode_public_key),
        PQSigningError::InvalidPointer
    );
    assert_eq!(
        pq_public_key_deserialize(Some(&bytes), 32, None, decode_public_key),
        PQSigningError::InvalidPointer
    );
    assert_eq!(
        pq_public_key_deserialize(Some(&bytes), 31, Some(&mut pk), decode_public_key),
        PQSigningError::UnknownError
    );
    assert!(pk.is_none());
    let mut sk = None;
    assert_eq!(
        pq_secret_key_deserialize(Some(&bytes), 15, Some(&mut sk), decode_secret_key),
        PQSigningError::UnknownError
    );
    assert_eq!(
        pq_secret_key_deserialize(None, 15, Some(&mut sk), decode_secret_key),
        PQSigningError::InvalidPointer
    );
    assert!(sk.is_none());
    let calls = Cell::new(0);
    let mut signature: Option<PQSignature<ToySignature>> = None;
    assert_eq!(
        pq_signature_deserialize(Some(&bytes), 32, Some(&mut signature), |_| {
            calls.set(calls.get() + 1);
            None
        }),
        PQSigningError::UnknownError
    );
    assert_eq!(calls.get(), 0);
    assert_eq!(
        pq_signature_deserialize(None, 32, Some(&mut signature), decode_signature),
        PQSigningError::InvalidPointer
    );
    assert_eq!(
        pq_signature_deserialize(
            Some(&[0u8; SIGNATURE_SIZE]),
            SIGNATURE_SIZE,
            Some(&mut signature),
            decode_signature
        ),
        PQSigningError::UnknownError
    );
    assert!(signature.is_none());
}

#[test]
fn json_text_reaches_the_parser() {
    let text = "{\"key\": \"\u{e9}\"}";
    let bytes = text.as_bytes();
    let mut pk = None;
    assert_eq!(
        pq_public_key_from_json(Some(bytes), bytes.len(), Some(&mut pk), |json| {
            Some(json.to_string())
        }),
        PQSigningError::Success
    );
    assert_eq!(pk.unwrap().inner, text);
    let mut signature = None;
    assert_eq!(
        pq_signature_from_json(Some(bytes), 1, Some(&mut signature), |json| {
            Some(json.to_string())
        }),
        PQSigningError::Success
    );
    assert_eq!(signature.unwrap().inner, "{");
    let mut sk = None;
    assert_eq!(
        pq_secret_key_from_json(Some(b"17"), 2, Some(&mut sk), |json| {
            let key: u64 = json.parse().ok()?;
            Some(XmssSecretKey {
                key,
                first_slot: 1,
                last_slot: 2,
            })
        }),
        PQSigningError::Success
    );
    assert_eq!(sk.unwrap().inner.key, 17);
}

#[test]
fn json_refusals() {
    let mut pk: Option<PQSignatureSchemePublicKey<u64>> = None;
    let parse = |json: &str| json.parse::<u64>().ok();
    assert_eq!(
        pq_public_key_from_json(None, 2, Some(&mut pk), parse),
        PQSigningError::InvalidPointer
    );
    assert_eq!(
        pq_public_key_from_json(Some(b"12"), 0, Some(&mut pk), parse),
        PQSigningError::InvalidPointer
    );
    assert_eq!(
        pq_public_key_from_json(Some(b"12"), 2, None, parse),
        PQSigningError::InvalidPointer
    );
    assert_eq!(
        pq_public_key_from_json(Some(b"1x"), 2, Some(&mut pk), parse),
        PQSigningError::UnknownError
    );
    assert_eq!(
        pq_public_key_from_json(Some(&[b'1', 0xff]), 2, Some(&mut pk), parse),
        PQSigningError::UnknownError
    );
    assert!(pk.is_none());
    let mut sk: Option<PQSignatureSchemeSecretKey<u64>> = None;
    assert_eq!(
        pq_secret_key_from_json(Some(&[0xc3]), 1, Some(&mut sk), |_| None),
        PQSigningError::UnknownError
    );
    assert_eq!(
        pq_secret_key_from_json(None, 1, Some(&mut sk), |_| None),
        PQSigningError::InvalidPointer
    );
    let mut signature: Option<PQSignature<u64>> = None;
    assert_eq!(
        pq_signature_from_json(Some(&[0x80]), 1, Some(&mut signature), parse),
        PQSigningError::UnknownError
    );
    assert_eq!(
        pq_signature_from_json(Some(b""), 0, Some(&mut signature), parse),
        PQSigningError::InvalidPointer
    );
}

#[test]
fn a_signature_reads_back_before_other_bytes() {
    let (_, sk) = keys();
    let signature = sign(&sk, 10, &[4u8; MESSAGE_LENGTH]);
    // Only what is read has to be zero behind the signature.
    let mut buffer = vec![0x55u8; SIGNATURE_SIZE + 8];
    buffer[SIGNATURE_SIZE..SIGNATURE_SIZE + 4].fill(0);
    let mut written = 0usize;
    assert_eq!(
        pq_signature_serialize(
            Some(&signature),
            Some(&mut buffer),
            SIGNATURE_SIZE,
            Some(&mut written),
            encode_signature
        ),
        PQSigningError::Success
    );
    for read_len in [SIGNATURE_SIZE, SIGNATURE_SIZE + 4] {
        let mut out = None;
        assert_eq!(
            pq_signature_deserialize(Some(&buffer), read_len, Some(&mut out), decode_signature),
            PQSigningError::Success
        );
        assert_eq!(out.unwrap().inner, signature.inner);
    }
    let mut out = None;
    assert_eq!(
        pq_signature_deserialize(
            Some(&buffer),
            SIGNATURE_SIZE + 5,
            Some(&mut out),
            decode_signature
        ),
        PQSigningError::UnknownError
    );
}
