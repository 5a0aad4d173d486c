use std::cell::Cell;

use leanvm_xmss::collect::{collect_child_aggregations, collect_type1_entries};
use leanvm_xmss::proving::recursive_request_refusal;
use leanvm_xmss::{
    pq_aggregate_signatures, pq_aggregate_signatures_recursive,
    pq_aggregate_signatures_recursive_unverified, pq_aggregate_signatures_unverified, pq_key_gen,
    pq_merge_many_type_1, pq_sign, pq_split_type_2_by_message, pq_take_last_error_message,
    pq_verify_aggregated_signatures, pq_verify_type_2_with_messages,
    pq_xmss_aggregation_setup_prover, pq_xmss_aggregation_setup_verifier, set_last_error,
    AggregateInfo, LastError, MultiMessageAggregate, PQAggregatedSignatureChild,
    PQRawXmssSignature, PQSignature, PQSignatureSchemePublicKey, PQSignatureSchemeSecretKey,
    PQSigningError, PQTypeTwoComponent, PQTypeTwoMessageBinding, ProvingAnswer,
    SingleMessageAggregate, XmssSecretKey, MESSAGE_LENGTH,
};

type Key = PQSignatureSchemePublicKey<u8>;
/// A signature of the toy scheme names its key, its slot and its message.
type Signed = (u8, u32, [u8; MESSAGE_LENGTH]);
type Signature = PQSignature<Signed>;

const DEFAULT_LOG_INV_RATE: usize = 2;
const MESSAGE: [u8; MESSAGE_LENGTH] = [9u8; MESSAGE_LENGTH];
const OTHER: [u8; MESSAGE_LENGTH] = [8u8; MESSAGE_LENGTH];

fn key(number: u8) -> Key {
    PQSignatureSchemePublicKey { inner: number }
}

fn signature(number: u8, slot: u32) -> Signature {
    PQSignature {
        inner: (number, slot, MESSAGE),
    }
}

fn toy_verify(
    key: &u8,
    slot: u32,
    message: &[u8; MESSAGE_LENGTH],
    signature: &Signed,
) -> bool {
    signature.0 == *key && signature.1 == slot && signature.2 == *message
}

/// An encoded toy aggregate: the slot, the message, and a checksum over the signers.
fn encode(slot: u32, message: &[u8; MESSAGE_LENGTH], signers: &[u8]) -> Vec<u8> {
    let mut bytes = slot.to_le_bytes().to_vec();
    bytes.extend_from_slice(message);
    bytes.push(signers.iter().fold(0u8, |sum, signer| sum.wrapping_add(*signer)));
    bytes
}

fn decode(bytes: &[u8], keys: Vec<&u8>) -> Option<SingleMessageAggregate<Vec<u8>>> {
    if bytes.len() != 37 {
        return None;
    }
    let sum = keys.iter().fold(0u8, |sum, signer| sum.wrapping_add(**signer));
    Some(SingleMessageAggregate {
        info: AggregateInfo {
            slot: u32::from_le_bytes(bytes[..4].try_into().unwrap()),
            message: bytes[4..36].try_into().unwrap(),
        },
        inner: if sum == bytes[36] {
            keys.into_iter().copied().collect()
        } else {
            Vec::new()
        },
    })
}

/// A toy proof is valid if its checksum was right.
fn valid(aggregate: &SingleMessageAggregate<Vec<u8>>) -> bool {
    !aggregate.inner.is_empty()
}

fn aggregate(
    children: Vec<SingleMessageAggregate<Vec<u8>>>,
    raw: Vec<(&u8, &Signed)>,
    message: [u8; MESSAGE_LENGTH],
    slot: u32,
    log_inv_rate: usize,
) -> ProvingAnswer {
    if log_inv_rate == 0 {
        return Ok(Err("rate 0".to_string()));
    }
    let mut signers = Vec::new();
    for child in children {
        signers.extend(child.inner);
    }
    for (key, _) in raw {
        signers.push(*key);
    }
    Ok(Ok(encode(slot, &message, &signers)))
}

fn detail(last_error: &mut LastError) -> Option<String> {
    pq_take_last_error_message(last_error).map(|bytes| String::from_utf8(bytes).unwrap())
}

#[test]
fn test_recursive_aggregation_smoke() {
    let mut last_error = LastError::new();
    pq_xmss_aggregation_setup_prover(&mut last_error, || Ok(()));

    let message = [9u8; MESSAGE_LENGTH];
    let mut pubkeys = Vec::new();
    let mut secrets = Vec::new();
    let mut signatures: Vec<Signature> = Vec::new();

    for number in 0..3u8 {
        let mut pk: Option<Key> = None;
        let mut sk: Option<PQSignatureSchemeSecretKey<u8>> = None;
        assert_eq!(
            pq_key_gen(0, 100, Some(&mut pk), Some(&mut sk), |first, count| {
                let secret = XmssSecretKey {
                    key: number + 1,
                    first_slot: first as u32,
                    last_slot: (first + count - 1) as u32,
                };
                Ok(Ok((number + 1, secret)))
            }),
            PQSigningError::Success
        );

        let mut signature = None;
        assert_eq!(
            pq_sign(
                sk.as_ref(),
                10,
                Some(&message),
                MESSAGE_LENGTH,
                Some(&mut signature),
                |secret: &XmssSecretKey<u8>, slot: u32, signed: &[u8; MESSAGE_LENGTH]| {
                    Ok(Ok((secret.key, slot, *signed)))
                }
            ),
            PQSigningError::Success
        );

        pubkeys.push(pk.unwrap());
        secrets.push(sk.unwrap());
        signatures.push(signature.unwrap());
    }

    let child_one_pubkeys = [Some(&pubkeys[0])];
    let child_one_signatures = [Some(&signatures[0])];
    let mut child_one_bytes = vec![0u8; 512 * 1024];
    let mut child_one_written = 0usize;
    assert_eq!(
        pq_aggregate_signatures(
            &mut last_error,
            Some(&child_one_pubkeys),
            Some(&child_one_signatures),
            1,
            Some(&message),
            MESSAGE_LENGTH,
            10,
            DEFAULT_LOG_INV_RATE,
            Some(&mut child_one_bytes),
            512 * 1024,
            Some(&mut child_one_written),
            toy_verify,
            aggregate
        ),
        PQSigningError::Success
    );
    child_one_bytes.truncate(child_one_written);

    let child_two_pubkeys = [Some(&pubkeys[1])];
    let child_two_signatures = [Some(&signatures[1])];
    let mut child_two_bytes = vec![0u8; 512 * 1024];
    let mut child_two_written = 0usize;
    assert_eq!(
        pq_aggregate_signatures(
            &mut last_error,
            Some(&child_two_pubkeys),
            Some(&child_two_signatures),
            1,
            Some(&message),
            MESSAGE_LENGTH,
            10,
            DEFAULT_LOG_INV_RATE,
            Some(&mut child_two_bytes),
            512 * 1024,
            Some(&mut child_two_written),
            toy_verify,
            aggregate
        ),
        PQSigningError::Success
    );
    child_two_bytes.truncate(child_two_written);

    let children = [
        PQAggregatedSignatureChild {
            pubkeys: Some(&child_one_pubkeys),
            pubkey_count: 1,
            agg_bytes: Some(&child_one_bytes),
            agg_len: child_one_bytes.len(),
        },
        PQAggregatedSignatureChild {
            pubkeys: Some(&child_two_pubkeys),
            pubkey_count: 1,
            agg_bytes: Some(&child_two_bytes),
            agg_len: child_two_bytes.len(),
        },
    ];
    let raw_xmss = [PQRawXmssSignature {
        pubkey: Some(&pubkeys[2]),
        signature: Some(&signatures[2]),
    }];
    let final_pubkeys = [Some(&pubkeys[0]), Some(&pubkeys[1]), Some(&pubkeys[2])];

    let mut final_bytes = vec![0u8; 1024 * 1024];
    let mut final_written = 0usize;
    assert_eq!(
        pq_aggregate_signatures_recursive(
            &mut last_error,
            Some(&children),
            2,
            Some(&raw_xmss),
            1,
            Some(&message),
            MESSAGE_LENGTH,
            10,
            DEFAULT_LOG_INV_RATE,
            Some(&mut final_bytes),
            1024 * 1024,
            Some(&mut final_written),
            toy_verify,
            decode,
            aggregate
        ),
        PQSigningError::Success
    );
    final_bytes.truncate(final_written);

    pq_xmss_aggregation_setup_verifier(|| Ok(()));
    assert_eq!(
        pq_verify_aggregated_signatures(
            Some(&final_pubkeys),
            3,
            Some(&message),
            MESSAGE_LENGTH,
            Some(&final_bytes),
            final_written,
            10,
            decode,
            valid
        ),
        1
    );
}

/// One flat aggregation, with the proof system left out of account by `prove`.
fn flat(
    last_error: &mut LastError,
    keys: Option<&[Option<&Key>]>,
    signatures: Option<&[Option<&Signature>]>,
    count: usize,
    message: Option<&[u8]>,
    message_len: usize,
    epoch: u64,
    rate: usize,
) -> (PQSigningError, Vec<u8>, usize) {
    let mut buffer = vec![0xEEu8; 64];
    let mut written = 0usize;
    let status = pq_aggregate_signatures(
        last_error,
        keys,
        signatures,
        count,
        message,
        message_len,
        epoch,
        rate,
        Some(&mut buffer),
        64,
        Some(&mut written),
        toy_verify,
        aggregate,
    );
    (status, buffer, written)
}

#[test]
fn flat_aggregation_delivers_the_proof() {
    let keys = [key(1), key(2)];
    let signatures = [signature(1, 5), signature(2, 5)];
    let mut last_error = LastError::new();
    let (status, buffer, written) = flat(
        &mut last_error,
        Some(&[Some(&keys[0]), Some(&keys[1])]),
        Some(&[Some(&signatures[0]), Some(&signatures[1])]),
        2,
        Some(&MESSAGE),
        32,
        5,
        1,
    );
    assert_eq!(status, PQSigningError::Success);
    assert_eq!(written, 37);
    assert_eq!(&buffer[..37], &encode(5, &MESSAGE, &[1, 2])[..]);
    assert_eq!(&buffer[37..], &[0xEEu8; 27]);
}

#[test]
fn flat_aggregation_refusals_come_in_order() {
    let one = key(1);
    let good = signature(1, 5);
    let keys: [Option<&Key>; 2] = [Some(&one), None];
    let signatures: [Option<&Signature>; 2] = [Some(&good), Some(&good)];
    let mut last_error = LastError::new();
    let mut check = |keys: Option<&[Option<&Key>]>,
                     signatures: Option<&[Option<&Signature>]>,
                     count: usize,
                     message: Option<&[u8]>,
                     len: usize,
                     epoch: u64| {
        set_last_error(&mut last_error, "old".to_string());
        let (status, buffer, written) = flat(
            &mut last_error,
            keys,
            signatures,
            count,
            message,
            len,
            epoch,
            1,
        );
        assert_eq!(buffer, vec![0xEEu8; 64]);
        assert_eq!(written, 0);
        assert_eq!(detail(&mut last_error), None);
        status
    };
    assert_eq!(
        check(None, None, 0, None, 0, u64::MAX),
        PQSigningError::UnknownError
    );
    assert_eq!(
        check(None, Some(&signatures), 1, None, 0, u64::MAX),
        PQSigningError::InvalidPointer
    );
    assert_eq!(
        check(Some(&keys), None, 1, None, 0, u64::MAX),
        PQSigningError::InvalidPointer
    );
    assert_eq!(
        check(Some(&keys), Some(&signatures), 1, None, 0, u64::MAX),
        PQSigningError::InvalidEpoch
    );
    assert_eq!(
        check(Some(&keys), Some(&signatures), 1, None, 0, 5),
        PQSigningError::InvalidPointer
    );
    assert_eq!(
        check(Some(&keys), Some(&signatures), 2, Some(&MESSAGE), 31, 5),
        PQSigningError::InvalidMessageLength
    );
    assert_eq!(
        check(Some(&keys), Some(&signatures), 2, Some(&MESSAGE), 32, 5),
        PQSigningError::InvalidPointer
    );
    // The signature is for another message, and for another slot.
    assert_eq!(
        check(Some(&keys), Some(&signatures), 1, Some(&OTHER), 32, 5),
        PQSigningError::UnknownError
    );
    assert_eq!(
        check(Some(&keys), Some(&signatures), 1, Some(&MESSAGE), 32, 6),
        PQSigningError::UnknownError
    );
}

#[test]
fn verifying_only_adds_refusals() {
    let one = key(1);
    let forged = signature(2, 5);
    let keys = [Some(&one)];
    let signatures = [Some(&forged)];
    let mut last_error = LastError::new();
    let (status, _, _) = flat(
        &mut last_error,
        Some(&keys),
        Some(&signatures),
        1,
        Some(&MESSAGE),
        32,
        5,
        1,
    );
    assert_eq!(status, PQSigningError::UnknownError);
    let mut buffer = vec![0u8; 64];
    let mut written = 0usize;
    assert_eq!(
        pq_aggregate_signatures_unverified(
            &mut last_error,
            Some(&keys),
            Some(&signatures),
            1,
            Some(&MESSAGE),
            32,
            5,
            1,
            Some(&mut buffer),
            64,
            Some(&mut written),
            aggregate
        ),
        PQSigningError::Success
    );
    assert_eq!(&buffer[..written], &encode(5, &MESSAGE, &[1])[..]);
}

#[test]
fn the_first_refused_signature_ends_the_check() {
    let keys = [key(1), key(2), key(3)];
    let signatures = [signature(1, 5), signature(9, 5), signature(3, 5)];
    let asked = Cell::new(0);
    let proved = Cell::new(false);
    let mut last_error = LastError::new();
    let mut buffer = vec![0u8; 64];
    let mut written = 0usize;
    let status = pq_aggregate_signatures(
        &mut last_error,
        Some(&[Some(&keys[0]), Some(&keys[1]), Some(&keys[2])]),
        Some(&[
            Some(&signatures[0]),
            Some(&signatures[1]),
            Some(&signatures[2]),
        ]),
        3,
        Some(&MESSAGE),
        32,
        5,
        1,
        Some(&mut buffer),
        64,
        Some(&mut written),
        |key: &u8, slot: u32, message: &[u8; MESSAGE_LENGTH], signature: &Signed| {
            asked.set(asked.get() + 1);
            toy_verify(key, slot, message, signature)
        },
        |_children: Vec<()>, _raw, _message, _slot, _rate| {
            proved.set(true);
            Err(())
        },
    );
    assert_eq!(status, PQSigningError::UnknownError);
    assert_eq!(asked.get(), 2);
    assert!(!proved.get());
}

#[test]
fn the_proof_system_refuses() {
    let one = key(1);
    let good = signature(1, 5);
    let mut last_error = LastError::new();
    set_last_error(&mut last_error, "old".to_string());
    let (status, buffer, written) = flat(
        &mut last_error,
        Some(&[Some(&one)]),
        Some(&[Some(&good)]),
        1,
        Some(&MESSAGE),
        32,
        5,
        0,
    );
    assert_eq!(status, PQSigningError::UnknownError);
    assert_eq!(buffer, vec![0xEEu8; 64]);
    assert_eq!(written, 0);
    assert_eq!(
        detail(&mut last_error),
        Some("leanvm-xmss: aggregate_type_1 failed: rate 0".to_string())
    );
}

#[test]
fn the_proof_system_panics() {
    let one = key(1);
    let good = signature(1, 5);
    let mut last_error = LastError::new();
    set_last_error(&mut last_error, "old".to_string());
    let mut buffer = vec![0u8; 64];
    let mut written = 3usize;
    assert_eq!(
        pq_aggregate_signatures(
            &mut last_error,
            Some(&[Some(&one)]),
            Some(&[Some(&good)]),
            1,
            Some(&MESSAGE),
            32,
            5,
            1,
            Some(&mut buffer),
            64,
            Some(&mut written),
            toy_verify,
            |_children: Vec<()>, _raw, _message, _slot, _rate| Err(())
        ),
        PQSigningError::UnknownError
    );
    assert_eq!(written, 3);
    assert_eq!(detail(&mut last_error), None);
}

#[test]
fn a_flat_proof_may_not_fit() {
    let one = key(1);
    let good = signature(1, 5);
    let keys = [Some(&one)];
    let signatures = [Some(&good)];
    let mut last_error = LastError::new();
    let mut buffer = vec![7u8; 36];
    let mut written = 0usize;
    assert_eq!(
        pq_aggregate_signatures(
            &mut last_error,
            Some(&keys),
            Some(&signatures),
            1,
            Some(&MESSAGE),
            32,
            5,
            1,
            Some(&mut buffer),
            36,
            Some(&mut written),
            toy_verify,
            aggregate
        ),
        PQSigningError::UnknownError
    );
    assert_eq!(written, 37);
    assert_eq!(buffer, vec![7u8; 36]);
    assert_eq!(
        pq_aggregate_signatures(
            &mut last_error,
            Some(&keys),
            Some(&signatures),
            1,
            Some(&MESSAGE),
            32,
            5,
            1,
            None,
            36,
            Some(&mut written),
            toy_verify,
            aggregate
        ),
        PQSigningError::InvalidPointer
    );
}

fn recursive(
    children: Option<&[PQAggregatedSignatureChild<u8>]>,
    child_count: usize,
    raw: Option<&[PQRawXmssSignature<u8, Signed>]>,
    raw_count: usize,
    message: Option<&[u8]>,
    message_len: usize,
    epoch: u64,
) -> (PQSigningError, Vec<u8>) {
    let mut last_error = LastError::new();
    let mut buffer = vec![0u8; 64];
    let mut written = 0usize;
    let status = pq_aggregate_signatures_recursive(
        &mut last_error,
        children,
        child_count,
        raw,
        raw_count,
        message,
        message_len,
        epoch,
        1,
        Some(&mut buffer),
        64,
        Some(&mut written),
        toy_verify,
        decode,
        aggregate,
    );
    buffer.truncate(written);
    (status, buffer)
}

#[test]
fn flat_is_recursive_without_children() {
    let keys = [key(1), key(2)];
    let signatures = [signature(1, 5), signature(2, 5)];
    let raw = [
        PQRawXmssSignature {
            pubkey: Some(&keys[0]),
            signature: Some(&signatures[0]),
        },
        PQRawXmssSignature {
            pubkey: Some(&keys[1]),
            signature: Some(&signatures[1]),
        },
    ];
    for epoch in [5u64, 6, 1 << 32] {
        let mut last_error = LastError::new();
        let (flat_status, flat_buffer, flat_written) = flat(
            &mut last_error,
            Some(&[Some(&keys[0]), Some(&keys[1])]),
            Some(&[Some(&signatures[0]), Some(&signatures[1])]),
            2,
            Some(&MESSAGE),
            32,
            epoch,
            1,
        );
        let (status, buffer) = recursive(None, 0, Some(&raw), 2, Some(&MESSAGE), 32, epoch);
        assert_eq!(status, flat_status);
        assert_eq!(buffer[..], flat_buffer[..flat_written]);
    }
}

#[test]
fn recursive_refusals_come_in_order() {
    let one = key(1);
    let good = signature(1, 5);
    let keys = [Some(&one)];
    let null_keys: [Option<&Key>; 1] = [None];
    let bytes = encode(5, &MESSAGE, &[1]);
    let child = |pubkeys, agg_bytes, agg_len| PQAggregatedSignatureChild {
        pubkeys,
        pubkey_count: 1,
        agg_bytes,
        agg_len,
    };
    let whole = [child(Some(&keys[..]), Some(&bytes[..]), 37)];
    let raw = [PQRawXmssSignature {
        pubkey: Some(&one),
        signature: Some(&good),
    }];
    assert_eq!(
        recursive(None, 1, Some(&raw), 1, Some(&MESSAGE), 32, 5).0,
        PQSigningError::InvalidPointer
    );
    assert_eq!(
        recursive(Some(&whole), 1, None, 1, Some(&MESSAGE), 32, 5).0,
        PQSigningError::InvalidPointer
    );
    assert_eq!(
        recursive(Some(&whole), 1, Some(&raw), 1, None, 32, u64::MAX).0,
        PQSigningError::InvalidPointer
    );
    assert_eq!(
        recursive(None, 0, None, 0, Some(&MESSAGE), 31, u64::MAX).0,
        PQSigningError::UnknownError
    );
    assert_eq!(
        recursive(Some(&whole), 1, None, 0, Some(&MESSAGE), 31, u64::MAX).0,
        PQSigningError::InvalidEpoch
    );
    assert_eq!(
        recursive(Some(&whole), 1, None, 0, Some(&MESSAGE), 31, 5).0,
        PQSigningError::InvalidMessageLength
    );
    let half = [PQRawXmssSignature {
        pubkey: Some(&one),
        signature: None,
    }];
    assert_eq!(
        recursive(Some(&whole), 1, Some(&half), 1, Some(&MESSAGE), 32, 5).0,
        PQSigningError::InvalidPointer
    );
    // The raw signature is refused before the child is looked at.
    let null_child = [child(Some(&keys[..]), None, 37)];
    assert_eq!(
        recursive(Some(&null_child), 1, Some(&raw), 1, Some(&MESSAGE), 32, 6).0,
        PQSigningError::UnknownError
    );
    assert_eq!(
        recursive(Some(&null_child), 1, None, 0, Some(&MESSAGE), 32, 5).0,
        PQSigningError::InvalidPointer
    );
    let keyless = [child(Some(&null_keys[..]), Some(&bytes[..]), 37)];
    assert_eq!(
        recursive(Some(&keyless), 1, None, 0, Some(&MESSAGE), 32, 5).0,
        PQSigningError::InvalidPointer
    );
    let cut = [child(Some(&keys[..]), Some(&bytes[..]), 36)];
    assert_eq!(
        recursive(Some(&cut), 1, None, 0, Some(&MESSAGE), 32, 5).0,
        PQSigningError::UnknownError
    );
    let (status, made) = recursive(Some(&whole), 1, None, 0, Some(&MESSAGE), 32, 5);
    assert_eq!(status, PQSigningError::Success);
    assert_eq!(made, encode(5, &MESSAGE, &[1]));
}

#[test]
fn recursive_output_pointers_are_checked_first() {
    let one = key(1);
    let good = signature(1, 5);
    let raw = [PQRawXmssSignature {
        pubkey: Some(&one),
        signature: Some(&good),
    }];
    let proved = Cell::new(false);
    let mut last_error = LastError::new();
    let mut written = 0usize;
    assert_eq!(
        pq_aggregate_signatures_recursive_unverified(
            &mut last_error,
            None,
            0,
            Some(&raw),
            1,
            Some(&MESSAGE),
            32,
            5,
            1,
            None,
            64,
            Some(&mut written),
            decode,
            |_children: Vec<SingleMessageAggregate<Vec<u8>>>, _raw, _message, _slot, _rate| {
                proved.set(true);
                Err(())
            }
        ),
        PQSigningError::InvalidPointer
    );
    assert!(!proved.get());
}

#[test]
fn recursive_without_verification() {
    let one = key(1);
    let forged = signature(7, 5);
    let raw = [PQRawXmssSignature {
        pubkey: Some(&one),
        signature: Some(&forged),
    }];
    assert_eq!(
        recursive(None, 0, Some(&raw), 1, Some(&MESSAGE), 32, 5).0,
        PQSigningError::UnknownError
    );
    let mut last_error = LastError::new();
    let mut buffer = vec![0u8; 64];
    let mut written = 0usize;
    assert_eq!(
        pq_aggregate_signatures_recursive_unverified(
            &mut last_error,
            None,
            0,
            Some(&raw),
            1,
            Some(&MESSAGE),
            32,
            5,
            1,
            Some(&mut buffer),
            64,
            Some(&mut written),
            decode,
            aggregate
        ),
        PQSigningError::Success
    );
    assert_eq!(written, 37);
}

#[test]
fn aggregate_verification_codes() {
    let one = key(1);
    let two = key(2);
    let keys = [Some(&one), Some(&two)];
    let null_keys = [Some(&one), None];
    let bytes = encode(5, &MESSAGE, &[1, 2]);
    let check = |keys: Option<&[Option<&Key>]>,
                 count: usize,
                 message: Option<&[u8]>,
                 len: usize,
                 agg: Option<&[u8]>,
                 agg_len: usize,
                 epoch: u64| {
        pq_verify_aggregated_signatures(
            keys, count, message, len, agg, agg_len, epoch, decode, valid,
        )
    };
    let agg = Some(&bytes[..]);
    assert_eq!(check(Some(&keys), 2, Some(&MESSAGE), 32, agg, 37, 5), 1);
    assert_eq!(check(Some(&keys), 1, Some(&MESSAGE), 32, agg, 37, 5), 0);
    assert_eq!(check(Some(&keys), 2, Some(&OTHER), 32, agg, 37, 5), 0);
    assert_eq!(check(Some(&keys), 2, Some(&MESSAGE), 32, agg, 37, 6), 0);
    assert_eq!(check(None, 0, Some(&MESSAGE), 32, agg, 37, 5), -1);
    assert_eq!(check(Some(&keys), 2, None, 32, agg, 37, 5), -1);
    assert_eq!(check(Some(&keys), 2, Some(&MESSAGE), 32, None, 37, 5), -1);
    assert_eq!(
        check(Some(&null_keys), 2, Some(&MESSAGE), 31, agg, 36, 1 << 32),
        -3
    );
    assert_eq!(check(Some(&null_keys), 2, Some(&MESSAGE), 31, agg, 36, 5), -2);
    assert_eq!(check(Some(&null_keys), 2, Some(&MESSAGE), 32, agg, 36, 5), -4);
    assert_eq!(check(Some(&keys), 2, Some(&MESSAGE), 32, agg, 36, 5), -5);
}

/// An encoded toy multi-message aggregate: its single-message aggregates, one after another.
fn decode_multi(
    bytes: &[u8],
    keys: Vec<Vec<&u8>>,
) -> Option<MultiMessageAggregate<Vec<Vec<u8>>>> {
    if bytes.len() % 37 != 0 {
        return None;
    }
    let mut info = Vec::new();
    let mut inner = Vec::new();
    for (i, chunk) in bytes.chunks(37).enumerate() {
        let component = keys.get(i).cloned().unwrap_or_default();
        let single = decode(chunk, component)?;
        info.push(single.info);
        inner.push(single.inner);
    }
    Some(MultiMessageAggregate { info, inner })
}

fn valid_multi(aggregate: &MultiMessageAggregate<Vec<Vec<u8>>>) -> bool {
    aggregate.inner.iter().all(|signers| !signers.is_empty())
}

fn merge(entries: Vec<SingleMessageAggregate<Vec<u8>>>, log_inv_rate: usize) -> ProvingAnswer {
    if log_inv_rate == 0 {
        return Ok(Err("rate 0".to_string()));
    }
    let mut bytes = Vec::new();
    for entry in entries {
        bytes.extend(encode(entry.info.slot, &entry.info.message, &entry.inner));
    }
    Ok(Ok(bytes))
}

fn split(
    aggregate: MultiMessageAggregate<Vec<Vec<u8>>>,
    index: usize,
    log_inv_rate: usize,
) -> ProvingAnswer {
    if log_inv_rate == 0 {
        return Ok(Err("rate 0".to_string()));
    }
    let info = aggregate.info[index];
    Ok(Ok(encode(info.slot, &info.message, &aggregate.inner[index])))
}

#[test]
fn merging_verifying_and_splitting() {
    let keys = [key(1), key(2)];
    let first = [Some(&keys[0])];
    let second = [Some(&keys[1])];
    let first_bytes = encode(5, &MESSAGE, &[1]);
    let second_bytes = encode(6, &OTHER, &[2]);
    let entries = [
        PQAggregatedSignatureChild {
            pubkeys: Some(&first[..]),
            pubkey_count: 1,
            agg_bytes: Some(&first_bytes[..]),
            agg_len: 37,
        },
        PQAggregatedSignatureChild {
            pubkeys: Some(&second[..]),
            pubkey_count: 1,
            agg_bytes: Some(&second_bytes[..]),
            agg_len: 37,
        },
    ];
    let mut last_error = LastError::new();
    let mut merged = vec![0u8; 100];
    let mut written = 0usize;
    assert_eq!(
        pq_merge_many_type_1(
            &mut last_error,
            Some(&entries),
            2,
            1,
            Some(&mut merged),
            100,
            Some(&mut written),
            decode,
            merge
        ),
        PQSigningError::Success
    );
    assert_eq!(written, 74);
    merged.truncate(written);

    let components = [
        PQTypeTwoComponent {
            pubkeys: Some(&first[..]),
            pubkey_count: 1,
        },
        PQTypeTwoComponent {
            pubkeys: Some(&second[..]),
            pubkey_count: 1,
        },
    ];
    let bindings = [
        PQTypeTwoMessageBinding {
            message: Some(&MESSAGE[..]),
            message_len: 32,
            epoch: 5,
        },
        PQTypeTwoMessageBinding {
            message: Some(&OTHER[..]),
            message_len: 32,
            epoch: 6,
        },
    ];
    assert_eq!(
        pq_verify_type_2_with_messages(
            Some(&components),
            2,
            Some(&bindings),
            2,
            Some(&merged),
            74,
            decode_multi,
            valid_multi
        ),
        1
    );

    let mut part = vec![0u8; 50];
    let mut part_written = 0usize;
    assert_eq!(
        pq_split_type_2_by_message(
            &mut last_error,
            Some(&components),
            2,
            Some(&merged),
            74,
            Some(&OTHER),
            32,
            1,
            Some(&mut part),
            50,
            Some(&mut part_written),
            decode_multi,
            split
        ),
        PQSigningError::Success
    );
    assert_eq!(&part[..part_written], &second_bytes[..]);
    assert_eq!(
        pq_verify_aggregated_signatures(
            Some(&second),
            1,
            Some(&OTHER),
            MESSAGE_LENGTH,
            Some(&part),
            part_written,
            6,
            decode,
            valid
        ),
        1
    );
}

#[test]
fn merge_refusals_come_in_order() {
    let one = key(1);
    let keys = [Some(&one)];
    let bytes = encode(5, &MESSAGE, &[1]);
    let whole = [PQAggregatedSignatureChild {
        pubkeys: Some(&keys[..]),
        pubkey_count: 1,
        agg_bytes: Some(&bytes[..]),
        agg_len: 37,
    }];
    let cut = [PQAggregatedSignatureChild {
        pubkeys: Some(&keys[..]),
        pubkey_count: 1,
        agg_bytes: Some(&bytes[..]),
        agg_len: 30,
    }];
    let mut last_error = LastError::new();
    let mut check = |entries: Option<&[PQAggregatedSignatureChild<u8>]>,
                     count: usize,
                     rate: usize,
                     with_buffer: bool| {
        set_last_error(&mut last_error, "old".to_string());
        let mut buffer = vec![3u8; 64];
        let mut written = 0usize;
        let status = pq_merge_many_type_1(
            &mut last_error,
            entries,
            count,
            rate,
            if with_buffer {
                Some(&mut buffer[..])
            } else {
                None
            },
            64,
            Some(&mut written),
            decode,
            merge,
        );
        assert_eq!(buffer, vec![3u8; 64]);
        assert_eq!(written, 0);
        (status, detail(&mut last_error))
    };
    assert_eq!(
        check(Some(&cut), 1, 1, false),
        (PQSigningError::InvalidPointer, None)
    );
    assert_eq!(
        check(Some(&cut), 0, 1, true),
        (PQSigningError::InvalidPointer, None)
    );
    assert_eq!(
        check(None, 1, 1, true),
        (PQSigningError::InvalidPointer, None)
    );
    assert_eq!(
        check(Some(&cut), 1, 1, true),
        (PQSigningError::UnknownError, None)
    );
    assert_eq!(
        check(Some(&whole), 1, 0, true),
        (
            PQSigningError::UnknownError,
            Some("leanvm-xmss: merge_many_type_1 failed: rate 0".to_string())
        )
    );
}

#[test]
fn multi_verification_codes() {
    let one = key(1);
    let keys = [Some(&one)];
    let null_keys: [Option<&Key>; 1] = [None];
    let good = [PQTypeTwoComponent {
        pubkeys: Some(&keys[..]),
        pubkey_count: 1,
    }];
    let null_component = [PQTypeTwoComponent {
        pubkeys: Some(&null_keys[..]),
        pubkey_count: 1,
    }];
    let binding = |message, message_len, epoch| {
        [PQTypeTwoMessageBinding {
            message,
            message_len,
            epoch,
        }]
    };
    let message = Some(&MESSAGE[..]);
    let expected = binding(message, 32, 5);
    let bytes = encode(5, &MESSAGE, &[1]);
    let mut double = bytes.clone();
    double.extend(&bytes);
    let check = |components: Option<&[PQTypeTwoComponent<u8>]>,
                 component_count: usize,
                 bindings: Option<&[PQTypeTwoMessageBinding]>,
                 binding_count: usize,
                 type2: Option<&[u8]>,
                 len: usize| {
        pq_verify_type_2_with_messages(
            components,
            component_count,
            bindings,
            binding_count,
            type2,
            len,
            decode_multi,
            valid_multi,
        )
    };
    let agg = Some(&bytes[..]);
    assert_eq!(check(Some(&good), 1, Some(&expected), 1, agg, 37), 1);
    assert_eq!(check(None, 1, Some(&expected), 1, agg, 37), -1);
    assert_eq!(check(Some(&good), 1, None, 1, agg, 37), -1);
    assert_eq!(check(Some(&good), 1, Some(&expected), 1, None, 37), -1);
    assert_eq!(
        check(Some(&null_component), 1, Some(&expected), 0, agg, 37),
        -2
    );
    let late = binding(message, 31, 1 << 32);
    assert_eq!(check(Some(&null_component), 1, Some(&late), 1, agg, 30), -3);
    assert_eq!(check(Some(&good), 1, Some(&late), 1, agg, 30), -4);
    let short = binding(message, 31, 5);
    assert_eq!(check(Some(&good), 1, Some(&short), 1, agg, 30), -4);
    let null_message = binding(None, 32, 5);
    assert_eq!(check(Some(&good), 1, Some(&null_message), 1, agg, 30), -4);
    assert_eq!(check(Some(&good), 1, Some(&expected), 1, agg, 30), -5);
    assert_eq!(
        check(Some(&good), 1, Some(&expected), 1, Some(&double), 74),
        -6
    );
    let other_message = binding(Some(&OTHER[..]), 32, 5);
    assert_eq!(check(Some(&good), 1, Some(&other_message), 1, agg, 37), 0);
    let other_epoch = binding(message, 32, 6);
    assert_eq!(check(Some(&good), 1, Some(&other_epoch), 1, agg, 37), 0);
    let forged = encode(5, &MESSAGE, &[2]);
    assert_eq!(
        check(Some(&good), 1, Some(&expected), 1, Some(&forged), 37),
        0
    );
}

#[test]
fn split_refusals_come_in_order() {
    let one = key(1);
    let keys = [Some(&one)];
    let null_keys: [Option<&Key>; 1] = [None];
    let good = [PQTypeTwoComponent {
        pubkeys: Some(&keys[..]),
        pubkey_count: 1,
    }];
    let null_component = [PQTypeTwoComponent {
        pubkeys: Some(&null_keys[..]),
        pubkey_count: 1,
    }];
    let bytes = encode(5, &MESSAGE, &[1]);
    let mut last_error = LastError::new();
    let mut check = |components: Option<&[PQTypeTwoComponent<u8>]>,
                     type2: Option<&[u8]>,
                     type2_len: usize,
                     message: Option<&[u8]>,
                     message_len: usize,
                     rate: usize| {
        set_last_error(&mut last_error, "old".to_string());
        let mut buffer = vec![3u8; 64];
        let mut written = 0usize;
        let status = pq_split_type_2_by_message(
            &mut last_error,
            components,
            1,
            type2,
            type2_len,
            message,
            message_len,
            rate,
            Some(&mut buffer),
            64,
            Some(&mut written),
            decode_multi,
            split,
        );
        assert_eq!(buffer, vec![3u8; 64]);
        (status, detail(&mut last_error))
    };
    let agg = Some(&bytes[..]);
    let message = Some(&MESSAGE[..]);
    let invalid = (PQSigningError::InvalidPointer, None);
    let unknown = (PQSigningError::UnknownError, None);
    assert_eq!(check(None, agg, 37, message, 32, 1), invalid);
    assert_eq!(check(Some(&good), None, 37, message, 32, 1), invalid);
    assert_eq!(check(Some(&good), agg, 37, None, 32, 1), invalid);
    assert_eq!(
        check(Some(&null_component), agg, 30, message, 31, 1),
        (PQSigningError::InvalidMessageLength, None)
    );
    assert_eq!(
        check(Some(&null_component), agg, 30, message, 32, 1),
        invalid
    );
    assert_eq!(check(Some(&good), agg, 30, message, 32, 1), unknown);
    assert_eq!(
        check(Some(&good), agg, 37, Some(&OTHER), 32, 1),
        unknown
    );
    assert_eq!(
        check(Some(&good), agg, 37, message, 32, 0),
        (
            PQSigningError::UnknownError,
            Some("leanvm-xmss: split_multi_message_aggregate failed: rate 0".to_string())
        )
    );
}

#[test]
fn split_takes_the_first_place() {
    let one = key(1);
    let keys = [Some(&one)];
    let component = || PQTypeTwoComponent {
        pubkeys: Some(&keys[..]),
        pubkey_count: 1,
    };
    let components = [component(), component(), component()];
    let mut bytes = encode(4, &OTHER, &[1]);
    bytes.extend(encode(5, &MESSAGE, &[1]));
    bytes.extend(encode(6, &MESSAGE, &[1]));
    let mut last_error = LastError::new();
    let mut buffer = vec![0u8; 64];
    let mut written = 0usize;
    assert_eq!(
        pq_split_type_2_by_message(
            &mut last_error,
            Some(&components),
            3,
            Some(&bytes),
            111,
            Some(&MESSAGE),
            32,
            1,
            Some(&mut buffer),
            64,
            Some(&mut written),
            decode_multi,
            split
        ),
        PQSigningError::Success
    );
    assert_eq!(&buffer[..written], &encode(5, &MESSAGE, &[1])[..]);
}

#[test]
fn entries_are_gathered_like_children() {
    let one = key(1);
    let keys = [Some(&one)];
    let null_keys: [Option<&Key>; 1] = [None];
    let bytes = encode(5, &MESSAGE, &[1]);
    let child = |pubkeys, agg_len| PQAggregatedSignatureChild {
        pubkeys,
        pubkey_count: 1,
        agg_bytes: Some(&bytes[..]),
        agg_len,
    };
    let array = [
        child(Some(&keys[..]), 37),
        child(Some(&keys[..]), 37),
        child(Some(&null_keys[..]), 37),
        child(Some(&keys[..]), 36),
    ];
    for count in 0..4 {
        let as_children = collect_child_aggregations(Some(&array), count, &decode);
        let as_entries = collect_type1_entries(Some(&array), count, &decode);
        match (as_children, as_entries) {
            (Ok(a), Ok(b)) => {
                assert!(count < 3);
                assert_eq!(a.len(), count);
                assert_eq!(b.len(), count);
                for i in 0..count {
                    assert_eq!(a[i].inner, b[i].inner);
                }
            }
            (a, b) => {
                assert_eq!(count, 3);
                assert_eq!(a.err(), Some(PQSigningError::InvalidPointer));
                assert_eq!(b.err(), Some(PQSigningError::InvalidPointer));
            }
        }
    }
    let cut = &array[3..];
    assert_eq!(
        collect_type1_entries(Some(cut), 1, &decode).err(),
        Some(PQSigningError::UnknownError)
    );
    assert_eq!(
        collect_child_aggregations(Some(cut), 1, &decode).err(),
        Some(PQSigningError::UnknownError)
    );
}

#[test]
fn a_refused_request_is_not_read() {
    let one = key(1);
    let good = signature(1, 5);
    let raw = [PQRawXmssSignature {
        pubkey: Some(&one),
        signature: Some(&good),
    }];
    let refusal = |message_len, epoch, has_output| {
        recursive_request_refusal(
            None,
            0,
            Some(&raw),
            1,
            Some(&MESSAGE),
            message_len,
            epoch,
            has_output,
        )
    };
    assert_eq!(refusal(32, 5, true), None);
    assert_eq!(refusal(31, 1 << 32, false), Some(PQSigningError::InvalidPointer));
    assert_eq!(refusal(31, 1 << 32, true), Some(PQSigningError::InvalidEpoch));
    assert_eq!(refusal(31, 5, true), Some(PQSigningError::InvalidMessageLength));
    // The arrays are shorter than announced, which makes no difference here.
    assert_eq!(
        recursive(Some(&[]), 7, Some(&raw), 9, Some(&MESSAGE), 31, 5).0,
        PQSigningError::InvalidMessageLength
    );
}
