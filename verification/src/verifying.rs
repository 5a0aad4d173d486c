//! Calls that check signatures and aggregates. They answer with a number: 1 for a valid
//! signature, 0 for an invalid one, and a negative number for a request that was not
//! checked.
use vstd::prelude::*;
use vstd::slice::slice_subrange;
use crate::collect::{
    bindings_collected, bindings_readable, collect_public_keys, collect_type2_components,
    collect_type2_message_bindings, component_keys, components_readable, components_valid,
    contents, decode_answered, pointers_valid, public_keys,
};
use crate::error::PQSigningError;
use crate::handles::{
    AggregateInfo, MultiMessageAggregate, PQSignature, PQSignatureSchemePublicKey,
    PQTypeTwoComponent, PQTypeTwoMessageBinding, SingleMessageAggregate,
};
use crate::input::{
    epoch_to_u32, is_padded_signature, message_at, message_from_ptr, message_readable,
    normalize_signature_bytes, same_message, slot_of_epoch, MESSAGE_LENGTH, PUBLIC_KEY_SIZE,
    SIGNATURE_SIZE,
};
use crate::memory::{items, readable};
use crate::proving::multi_decode_answered;

verus! {

/// The number for a verdict.
pub open spec fn spec_verdict(valid: bool) -> i32 {
    if valid {
        1
    } else {
        0
    }
}

/// The number for a verdict.
pub fn verdict(valid: bool) -> (code: i32)
    ensures
        code == spec_verdict(valid),
{
    if valid {
        1
    } else {
        0
    }
}

/// The scheme was asked about a signature, and `code` is the number for its verdict.
pub open spec fn signature_judged<P, S, V: FnOnce(&P, u32, &[u8; MESSAGE_LENGTH], &S) -> bool>(
    xmss_verify: V,
    public_key: &P,
    slot: u32,
    message: [u8; MESSAGE_LENGTH],
    signature: &S,
    code: i32,
) -> bool {
    exists|valid: bool| #[trigger]
        call_ensures(xmss_verify, (public_key, slot, &message, signature), valid) && code
            == spec_verdict(valid)
}

/// What checking a signature comes to.
pub open spec fn verification<P, S, V: FnOnce(&P, u32, &[u8; MESSAGE_LENGTH], &S) -> bool>(
    pk: Option<&PQSignatureSchemePublicKey<P>>,
    epoch: u64,
    message: Option<&[u8]>,
    message_len: usize,
    signature: Option<&PQSignature<S>>,
    xmss_verify: V,
    code: i32,
) -> bool {
    if pk is None || message is None || signature is None {
        code == -1
    } else if slot_of_epoch(epoch) is Err {
        code == -3
    } else if message_len != MESSAGE_LENGTH {
        code == -2
    } else {
        signature_judged(
            xmss_verify,
            &pk->0.inner,
            epoch as u32,
            message_at(message),
            &signature->0.inner,
            code,
        )
    }
}

/// Checks a signature.
///
/// -1 is a null pointer, -3 an epoch that is no slot, and -2 a message of a wrong length, in
/// this order.
pub fn pq_verify<P, S, V: FnOnce(&P, u32, &[u8; MESSAGE_LENGTH], &S) -> bool>(
    pk: Option<&PQSignatureSchemePublicKey<P>>,
    epoch: u64,
    message: Option<&[u8]>,
    message_len: usize,
    signature: Option<&PQSignature<S>>,
    xmss_verify: V,
) -> (code: i32)
    requires
        message_readable(message, message_len),
        forall|key: &P, slot: u32, signed: &[u8; MESSAGE_LENGTH], checked: &S|
            call_requires(xmss_verify, (key, slot, signed, checked)),
    ensures
        verification(
            pk,
            epoch,
            message,
            message_len,
            signature,
            xmss_verify,
            code,
        ),
{
    match (pk, signature) {
        (Some(pk), Some(signature)) => {
            if message.is_none() {
                return -1;
            }
            let slot = match epoch_to_u32(epoch) {
                Ok(slot) => slot,
                Err(_) => return -3,
            };
            let signed = match message_from_ptr(message, message_len) {
                Ok(signed) => signed,
                Err(PQSigningError::InvalidMessageLength) => return -2,
                Err(_) => return -1,
            };
            let valid = xmss_verify(&pk.inner, slot, &signed, &signature.inner);
            assert(call_ensures(
                xmss_verify,
                (&pk.inner, slot, &message_at(message), &signature.inner),
                valid,
            ));
            verdict(valid)
        },
        _ => -1,
    }
}

/// `decode` answered `answer` on these bytes.
pub open spec fn bytes_decode_answered<T, D: FnOnce(&[u8]) -> Option<T>>(
    decode: D,
    bytes: Seq<u8>,
    answer: Option<T>,
) -> bool {
    exists|encoded: &[u8]|
        encoded@ == bytes && #[trigger] call_ensures(decode, (encoded,), answer)
}

/// What checking an encoded signature comes to once the request is accepted: the public key
/// is decoded, then the signature without its padding, then the scheme is asked.
pub open spec fn encoded_signature_judged<
    P,
    S,
    K: FnOnce(&[u8]) -> Option<P>,
    G: FnOnce(&[u8]) -> Option<S>,
    V: FnOnce(&P, u32, &[u8; MESSAGE_LENGTH], &S) -> bool,
>(
    pubkey: Seq<u8>,
    signature: Seq<u8>,
    slot: u32,
    message: [u8; MESSAGE_LENGTH],
    decode_public_key: K,
    decode_signature: G,
    xmss_verify: V,
    code: i32,
) -> bool {
    exists|decoded_key: Option<P>|
        {
            &&& #[trigger] bytes_decode_answered(decode_public_key, pubkey, decoded_key)
            &&& match decoded_key {
                None => code == -5,
                Some(key) => exists|decoded_signature: Option<S>|
                    {
                        &&& #[trigger] bytes_decode_answered(
                            decode_signature,
                            signature,
                            decoded_signature,
                        )
                        &&& match decoded_signature {
                            None => code == -6,
                            Some(checked) => signature_judged(
                                xmss_verify,
                                &key,
                                slot,
                                message,
                                &checked,
                                code,
                            ),
                        }
                    },
            }
        }
}

/// What checking an encoded signature against an encoded public key comes to.
pub open spec fn encoded_verification<
    P,
    S,
    K: FnOnce(&[u8]) -> Option<P>,
    G: FnOnce(&[u8]) -> Option<S>,
    V: FnOnce(&P, u32, &[u8; MESSAGE_LENGTH], &S) -> bool,
>(
    pubkey_bytes: Option<&[u8]>,
    pubkey_len: usize,
    epoch: u64,
    message: Option<&[u8]>,
    message_len: usize,
    signature_bytes: Option<&[u8]>,
    signature_len: usize,
    decode_public_key: K,
    decode_signature: G,
    xmss_verify: V,
    code: i32,
) -> bool {
    if pubkey_bytes is None || message is None || signature_bytes is None {
        code == -1
    } else if pubkey_len != PUBLIC_KEY_SIZE {
        code == -7
    } else if slot_of_epoch(epoch) is Err {
        code == -3
    } else if message_len != MESSAGE_LENGTH {
        code == -2
    } else if !is_padded_signature(items(signature_bytes, signature_len)) {
        code == -8
    } else {
        encoded_signature_judged(
            items(pubkey_bytes, pubkey_len),
            items(signature_bytes, SIGNATURE_SIZE),
            epoch as u32,
            message_at(message),
            decode_public_key,
            decode_signature,
            xmss_verify,
            code,
        )
    }
}

/// Checks an encoded signature, which may have zeros behind it, against an encoded public
/// key.
///
/// -1 is a null pointer, -7 a public key of a wrong length, -3 an epoch that is no slot, -2 a
/// message of a wrong length, -8 a signature that is too short or has something else than
/// zeros behind it, -5 a public key that does not decode and -6 a signature that does not,
/// in this order.
pub fn pq_verify_ssz<
    P,
    S,
    K: FnOnce(&[u8]) -> Option<P>,
    G: FnOnce(&[u8]) -> Option<S>,
    V: FnOnce(&P, u32, &[u8; MESSAGE_LENGTH], &S) -> bool,
>(
    pubkey_bytes: Option<&[u8]>,
    pubkey_len: usize,
    epoch: u64,
    message: Option<&[u8]>,
    message_len: usize,
    signature_bytes: Option<&[u8]>,
    signature_len: usize,
    decode_public_key: K,
    decode_signature: G,
    xmss_verify: V,
) -> (code: i32)
    requires
        pubkey_len == PUBLIC_KEY_SIZE ==> readable(pubkey_bytes, pubkey_len),
        message_readable(message, message_len),
        readable(signature_bytes, signature_len),
        forall|encoded: &[u8]| call_requires(decode_public_key, (encoded,)),
        forall|encoded: &[u8]| call_requires(decode_signature, (encoded,)),
        forall|key: &P, slot: u32, signed: &[u8; MESSAGE_LENGTH], checked: &S|
            call_requires(xmss_verify, (key, slot, signed, checked)),
    ensures
        encoded_verification(
            pubkey_bytes,
            pubkey_len,
            epoch,
            message,
            message_len,
            signature_bytes,
            signature_len,
            decode_public_key,
            decode_signature,
            xmss_verify,
            code,
        ),
{
    match (pubkey_bytes, signature_bytes) {
        (Some(pubkey_memory), Some(signature_memory)) => {
            if message.is_none() {
                return -1;
            }
            if pubkey_len != PUBLIC_KEY_SIZE {
                return -7;
            }
            let slot = match epoch_to_u32(epoch) {
                Ok(slot) => slot,
                Err(_) => return -3,
            };
            let signed = match message_from_ptr(message, message_len) {
                Ok(signed) => signed,
                Err(PQSigningError::InvalidMessageLength) => return -2,
                Err(_) => return -1,
            };
            let pubkey = slice_subrange(pubkey_memory, 0, pubkey_len);
            let padded = slice_subrange(signature_memory, 0, signature_len);
            let canonical = match normalize_signature_bytes(padded) {
                Ok(canonical) => canonical,
                Err(_) => return -8,
            };
            assert(pubkey@ =~= items(pubkey_bytes, pubkey_len));
            assert(canonical@ =~= items(signature_bytes, SIGNATURE_SIZE));
            let decoded_key = decode_public_key(pubkey);
            assert(bytes_decode_answered(
                decode_public_key,
                items(pubkey_bytes, pubkey_len),
                decoded_key,
            ));
            let key = match decoded_key {
                Some(key) => key,
                None => return -5,
            };
            let decoded_signature = decode_signature(canonical);
            assert(bytes_decode_answered(
                decode_signature,
                items(signature_bytes, SIGNATURE_SIZE),
                decoded_signature,
            ));
            let checked = match decoded_signature {
                Some(checked) => checked,
                None => return -6,
            };
            let valid = xmss_verify(&key, slot, &signed, &checked);
            assert(call_ensures(
                xmss_verify,
                (&key, slot, &message_at(message), &checked),
                valid,
            ));
            verdict(valid)
        },
        _ => -1,
    }
}

/// What checking a decoded single-message aggregate comes to: it is invalid if it is about
/// another message or another slot, and otherwise the proof system is asked.
pub open spec fn aggregate_judged<T, W: FnOnce(&SingleMessageAggregate<T>) -> bool>(
    aggregated: SingleMessageAggregate<T>,
    message: [u8; MESSAGE_LENGTH],
    slot: u32,
    verify_type_1: W,
    code: i32,
) -> bool {
    if aggregated.info.message != message || aggregated.info.slot != slot {
        code == 0
    } else {
        exists|valid: bool| #[trigger]
            call_ensures(verify_type_1, (&aggregated,), valid) && code == spec_verdict(valid)
    }
}

/// What checking an encoded single-message aggregate comes to.
pub open spec fn aggregate_verification<
    'a,
    P,
    T,
    D: Fn(&[u8], Vec<&'a P>) -> Option<SingleMessageAggregate<T>>,
    W: FnOnce(&SingleMessageAggregate<T>) -> bool,
>(
    pubkeys: Option<&'a [Option<&'a PQSignatureSchemePublicKey<P>>]>,
    count: usize,
    message: Option<&[u8]>,
    message_len: usize,
    agg_bytes: Option<&[u8]>,
    agg_len: usize,
    epoch: u64,
    decode: D,
    verify_type_1: W,
    code: i32,
) -> bool {
    if pubkeys is None || message is None || agg_bytes is None {
        code == -1
    } else if slot_of_epoch(epoch) is Err {
        code == -3
    } else if message_len != MESSAGE_LENGTH {
        code == -2
    } else if !pointers_valid(pubkeys, count) {
        code == -4
    } else {
        exists|decoded: Option<SingleMessageAggregate<T>>|
            {
                &&& #[trigger] decode_answered(
                    decode,
                    items(agg_bytes, agg_len),
                    public_keys(pubkeys, count),
                    decoded,
                )
                &&& match decoded {
                    None => code == -5,
                    Some(aggregated) => aggregate_judged(
                        aggregated,
                        message_at(message),
                        epoch as u32,
                        verify_type_1,
                        code,
                    ),
                }
            }
    }
}

/// Checks an encoded single-message aggregate.
///
/// -1 is a null pointer, -3 an epoch that is no slot, -2 a message of a wrong length, -4 a
/// null pointer among the public keys, and -5 an aggregate that does not decode, in this
/// order.
pub fn pq_verify_aggregated_signatures<
    'a,
    P,
    T,
    D: Fn(&[u8], Vec<&'a P>) -> Option<SingleMessageAggregate<T>>,
    W: FnOnce(&SingleMessageAggregate<T>) -> bool,
>(
    pubkeys: Option<&'a [Option<&'a PQSignatureSchemePublicKey<P>>]>,
    count: usize,
    message: Option<&[u8]>,
    message_len: usize,
    agg_bytes: Option<&[u8]>,
    agg_len: usize,
    epoch: u64,
    decode: D,
    verify_type_1: W,
) -> (code: i32)
    requires
        readable(pubkeys, count),
        message_readable(message, message_len),
        readable(agg_bytes, agg_len),
        forall|encoded: &[u8], keys: Vec<&'a P>| call_requires(decode, (encoded, keys)),
        forall|aggregated: &SingleMessageAggregate<T>| call_requires(verify_type_1, (aggregated,)),
    ensures
        aggregate_verification(
            pubkeys,
            count,
            message,
            message_len,
            agg_bytes,
            agg_len,
            epoch,
            decode,
            verify_type_1,
            code,
        ),
{
    if pubkeys.is_none() || message.is_none() {
        return -1;
    }
    let encoded = match agg_bytes {
        Some(memory) => slice_subrange(memory, 0, agg_len),
        None => return -1,
    };
    let slot = match epoch_to_u32(epoch) {
        Ok(slot) => slot,
        Err(_) => return -3,
    };
    let signed = match message_from_ptr(message, message_len) {
        Ok(signed) => signed,
        Err(PQSigningError::InvalidMessageLength) => return -2,
        Err(_) => return -1,
    };
    let keys = match collect_public_keys(pubkeys, count) {
        Ok(keys) => keys,
        Err(_) => return -4,
    };
    let decoded = decode(encoded, keys);
    assert(decode_answered(
        decode,
        items(agg_bytes, agg_len),
        public_keys(pubkeys, count),
        decoded,
    ));
    let aggregated = match decoded {
        Some(aggregated) => aggregated,
        None => return -5,
    };
    if !same_message(&aggregated.info.message, &signed) {
        return 0;
    }
    if aggregated.info.slot != slot {
        return 0;
    }
    let valid = verify_type_1(&aggregated);
    assert(call_ensures(verify_type_1, (&aggregated,), valid));
    verdict(valid)
}

/// What an aggregate says was signed is what the caller expects, place by place.
pub open spec fn info_matches(
    info: Seq<AggregateInfo>,
    expected: Seq<([u8; MESSAGE_LENGTH], u32)>,
) -> bool {
    &&& info.len() == expected.len()
    &&& forall|i: int|
        0 <= i < info.len() ==> (#[trigger] info[i]).message == expected[i].0 && info[i].slot
            == expected[i].1
}

/// Whether an aggregate says was signed what the caller expects.
pub fn matches_expected(
    info: &Vec<AggregateInfo>,
    expected: &Vec<([u8; MESSAGE_LENGTH], u32)>,
) -> (same: bool)
    requires
        info@.len() == expected@.len(),
    ensures
        same == info_matches(info@, expected@),
{
    let mut i: usize = 0;
    while i < info.len()
        invariant
            info@.len() == expected@.len(),
            i <= info@.len(),
            forall|j: int|
                0 <= j < i ==> (#[trigger] info@[j]).message == expected@[j].0 && info@[j].slot
                    == expected@[j].1,
        decreases info@.len() - i,
    {
        if !same_message(&info[i].message, &expected[i].0) || info[i].slot != expected[i].1 {
            assert(!info_matches(info@, expected@)) by {
                assert(info@[i as int].message != expected@[i as int].0 || info@[i as int].slot
                    != expected@[i as int].1);
            }
            return false;
        }
        i += 1;
    }
    true
}

/// What checking a decoded multi-message aggregate comes to: it is refused if it has another
/// number of messages, invalid if one of its messages or slots is not the expected one, and
/// otherwise the proof system is asked.
pub open spec fn multi_judged<T, W: FnOnce(&MultiMessageAggregate<T>) -> bool>(
    type2: MultiMessageAggregate<T>,
    expected: Seq<([u8; MESSAGE_LENGTH], u32)>,
    verify_type_2: W,
    code: i32,
) -> bool {
    if type2.info@.len() != expected.len() {
        code == -6
    } else if !info_matches(type2.info@, expected) {
        code == 0
    } else {
        exists|valid: bool| #[trigger]
            call_ensures(verify_type_2, (&type2,), valid) && code == spec_verdict(valid)
    }
}

/// What checking an encoded multi-message aggregate comes to.
pub open spec fn multi_verification<
    'a,
    P,
    T,
    D: Fn(&[u8], Vec<Vec<&'a P>>) -> Option<MultiMessageAggregate<T>>,
    W: FnOnce(&MultiMessageAggregate<T>) -> bool,
>(
    components: Option<&'a [PQTypeTwoComponent<'a, P>]>,
    component_count: usize,
    bindings: Option<&'a [PQTypeTwoMessageBinding<'a>]>,
    binding_count: usize,
    type2_bytes: Option<&[u8]>,
    type2_len: usize,
    decode: D,
    verify_type_2: W,
    code: i32,
) -> bool {
    if components is None || bindings is None || type2_bytes is None {
        code == -1
    } else if component_count != binding_count {
        code == -2
    } else if !components_valid(components, component_count) {
        code == -3
    } else {
        exists|collected: Result<Seq<([u8; MESSAGE_LENGTH], u32)>, PQSigningError>|
            {
                &&& #[trigger] bindings_collected(bindings, binding_count, collected)
                &&& match collected {
                    Err(_) => code == -4,
                    Ok(expected) => exists|decoded: Option<MultiMessageAggregate<T>>|
                        {
                            &&& #[trigger] multi_decode_answered(
                                decode,
                                items(type2_bytes, type2_len),
                                component_keys(components, component_count),
                                decoded,
                            )
                            &&& match decoded {
                                None => code == -5,
                                Some(type2) => multi_judged(
                                    type2,
                                    expected,
                                    verify_type_2,
                                    code,
                                ),
                            }
                        },
                }
            }
    }
}

/// Checks an encoded multi-message aggregate against the messages and epochs that the caller
/// expects in it.
///
/// -1 is a null pointer, -2 an unequal number of components and bindings, -3 a null pointer
/// in a component, -4 a binding that is refused, -5 an aggregate that does not decode, and
/// -6 one with another number of messages, in this order.
pub fn pq_verify_type_2_with_messages<
    'a,
    P,
    T,
    D: Fn(&[u8], Vec<Vec<&'a P>>) -> Option<MultiMessageAggregate<T>>,
    W: FnOnce(&MultiMessageAggregate<T>) -> bool,
>(
    components: Option<&'a [PQTypeTwoComponent<'a, P>]>,
    component_count: usize,
    bindings: Option<&'a [PQTypeTwoMessageBinding<'a>]>,
    binding_count: usize,
    type2_bytes: Option<&[u8]>,
    type2_len: usize,
    decode: D,
    verify_type_2: W,
) -> (code: i32)
    requires
        bindings is Some && type2_bytes is Some && component_count == binding_count
            ==> components_readable(components, component_count),
        components is Some && type2_bytes is Some && component_count == binding_count
            && components_valid(components, component_count) ==> bindings_readable(
            bindings,
            binding_count,
        ),
        readable(type2_bytes, type2_len),
        forall|encoded: &[u8], pks_per_component: Vec<Vec<&'a P>>|
            call_requires(decode, (encoded, pks_per_component)),
        forall|type2: &MultiMessageAggregate<T>| call_requires(verify_type_2, (type2,)),
    ensures
        multi_verification(
            components,
            component_count,
            bindings,
            binding_count,
            type2_bytes,
            type2_len,
            decode,
            verify_type_2,
            code,
        ),
{
    if components.is_none() || bindings.is_none() {
        return -1;
    }
    let encoded = match type2_bytes {
        Some(memory) => slice_subrange(memory, 0, type2_len),
        None => return -1,
    };
    if component_count != binding_count {
        return -2;
    }
    let pks_per_component = match collect_type2_components(components, component_count) {
        Ok(pks_per_component) => pks_per_component,
        Err(_) => return -3,
    };
    let collected = collect_type2_message_bindings(bindings, binding_count);
    assert(bindings_collected(bindings, binding_count, contents(collected)));
    let expected = match collected {
        Ok(expected) => expected,
        Err(_) => return -4,
    };
    let decoded = decode(encoded, pks_per_component);
    assert(multi_decode_answered(
        decode,
        items(type2_bytes, type2_len),
        component_keys(components, component_count),
        decoded,
    ));
    let type2 = match decoded {
        Some(type2) => type2,
        None => return -5,
    };
    if type2.info.len() != expected.len() {
        return -6;
    }
    if !matches_expected(&type2.info, &expected) {
        return 0;
    }
    let valid = verify_type_2(&type2);
    assert(call_ensures(verify_type_2, (&type2,), valid));
    verdict(valid)
}

} // verus!
