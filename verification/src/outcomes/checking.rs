//! Checking signatures and aggregates.
use vstd::prelude::*;
use crate::collect::{
    binding_refusal, bindings_collected, component_keys, components_valid, decode_answered, nested,
    pointers_valid, public_keys,
};
use crate::error::PQSigningError;
use crate::handles::{
    MultiMessageAggregate, PQSignature, PQSignatureSchemePublicKey, PQTypeTwoComponent,
    PQTypeTwoMessageBinding, SingleMessageAggregate,
};
use crate::input::{
    is_padded_signature, lemma_message_array, message_at, MESSAGE_LENGTH, SIGNATURE_SIZE,
};
use crate::memory::items;
use crate::outcomes::inputs::{lemma_component_keys, lemma_message_at};
use crate::proving::multi_decode_answered;
use crate::verifying::{
    aggregate_judged, bytes_decode_answered, encoded_signature_judged, multi_judged, pq_verify,
    pq_verify_aggregated_signatures, pq_verify_ssz, pq_verify_type_2_with_messages,
    signature_judged,
};

verus! {

/// A request to check a signature that is in order gets the verdict of the scheme on the key, the
/// epoch, the bytes of the message and the signature of the request.
pub proof fn law_verify_hands_on_the_verdict<
    P,
    S,
    V: FnOnce(&P, u32, &[u8; MESSAGE_LENGTH], &S) -> bool,
>(
    pk: &PQSignatureSchemePublicKey<P>,
    epoch: u64,
    message: &[u8],
    signed: [u8; MESSAGE_LENGTH],
    signature: &PQSignature<S>,
    xmss_verify: V,
    code: i32,
)
    requires
        call_ensures(
            pq_verify::<P, S, V>,
            (Some(pk), epoch, Some(message), 32usize, Some(signature), xmss_verify),
            code,
        ),
        epoch < 4294967296,
        signed@ == message@.take(32),
    ensures
        code == 0 || code == 1,
        call_ensures(
            xmss_verify,
            (&pk.inner, epoch as u32, &signed, &signature.inner),
            code == 1,
        ),
{
    lemma_message_array(signed);
}

/// A request to check a signature that is not in order gets the number of the first thing that is
/// wrong with it, and no request that is in order gets such a number.
pub proof fn law_verify_refusals<P, S, V: FnOnce(&P, u32, &[u8; MESSAGE_LENGTH], &S) -> bool>(
    pk: Option<&PQSignatureSchemePublicKey<P>>,
    epoch: u64,
    message: Option<&[u8]>,
    message_len: usize,
    signature: Option<&PQSignature<S>>,
    xmss_verify: V,
    code: i32,
)
    requires
        call_ensures(
            pq_verify::<P, S, V>,
            (pk, epoch, message, message_len, signature, xmss_verify),
            code,
        ),
    ensures
        code == -1 <==> pk is None || message is None || signature is None,
        code != -1 ==> (code == -3 <==> epoch >= 4294967296),
        code != -1 && code != -3 ==> (code == -2 <==> message_len != 32),
        code == -1 || code == -2 || code == -3 || code == 0 || code == 1,
{
}

/// A request to check an encoded signature that is in order goes its way: the decoder of keys is
/// asked about the bytes of the key, the decoder of signatures about the first 1208 bytes of the
/// signature, and the scheme about what they gave.
pub proof fn law_encoded_verify_hands_on_the_verdict<
    P,
    S,
    K: FnOnce(&[u8]) -> Option<P>,
    G: FnOnce(&[u8]) -> Option<S>,
    V: FnOnce(&P, u32, &[u8; MESSAGE_LENGTH], &S) -> bool,
>(
    pubkey_bytes: &[u8],
    epoch: u64,
    message: &[u8],
    signed: [u8; MESSAGE_LENGTH],
    signature_bytes: &[u8],
    signature_len: usize,
    decode_public_key: K,
    decode_signature: G,
    xmss_verify: V,
    code: i32,
)
    requires
        call_ensures(
            pq_verify_ssz::<P, S, K, G, V>,
            (
                Some(pubkey_bytes),
                32usize,
                epoch,
                Some(message),
                32usize,
                Some(signature_bytes),
                signature_len,
                decode_public_key,
                decode_signature,
                xmss_verify,
            ),
            code,
        ),
        epoch < 4294967296,
        signed@ == message@.take(32),
        1208 <= signature_len <= signature_bytes@.len(),
        forall|i: int| 1208 <= i < signature_len ==> signature_bytes@[i] == 0,
    ensures
        exists|encoded_key: &[u8], decoded_key: Option<P>|
            {
                &&& encoded_key@ == pubkey_bytes@.take(32)
                &&& #[trigger] call_ensures(decode_public_key, (encoded_key,), decoded_key)
                &&& decoded_key is None ==> code == -5
                &&& decoded_key matches Some(key) ==> exists|
                    encoded_signature: &[u8],
                    decoded_signature: Option<S>,
                |
                    {
                        &&& encoded_signature@ == signature_bytes@.take(1208)
                        &&& #[trigger] call_ensures(
                            decode_signature,
                            (encoded_signature,),
                            decoded_signature,
                        )
                        &&& decoded_signature is None ==> code == -6
                        &&& decoded_signature matches Some(signature) ==> {
                            &&& code == 0 || code == 1
                            &&& call_ensures(
                                xmss_verify,
                                (&key, epoch as u32, &signed, &signature),
                                code == 1,
                            )
                        }
                    }
            },
{
    lemma_message_array(signed);
    let bytes = items(Some(signature_bytes), signature_len);
    assert(is_padded_signature(bytes));
    let pubkey = items(Some(pubkey_bytes), 32);
    let canonical = items(Some(signature_bytes), SIGNATURE_SIZE);
    assert(encoded_signature_judged(
        pubkey,
        canonical,
        epoch as u32,
        signed,
        decode_public_key,
        decode_signature,
        xmss_verify,
        code,
    ));
    let decoded_key = choose|decoded_key: Option<P>|
        {
            &&& #[trigger] bytes_decode_answered(decode_public_key, pubkey, decoded_key)
            &&& match decoded_key {
                None => code == -5,
                Some(key) => exists|decoded_signature: Option<S>|
                    {
                        &&& #[trigger] bytes_decode_answered(
                            decode_signature,
                            canonical,
                            decoded_signature,
                        )
                        &&& match decoded_signature {
                            None => code == -6,
                            Some(checked) => signature_judged(
                                xmss_verify,
                                &key,
                                epoch as u32,
                                signed,
                                &checked,
                                code,
                            ),
                        }
                    },
            }
        };
    let encoded_key = choose|encoded: &[u8]|
        encoded@ == pubkey && #[trigger] call_ensures(decode_public_key, (encoded,), decoded_key);
    assert(call_ensures(decode_public_key, (encoded_key,), decoded_key));
    if decoded_key is Some {
        let key = decoded_key->0;
        let decoded_signature = choose|decoded_signature: Option<S>|
            {
                &&& #[trigger] bytes_decode_answered(
                    decode_signature,
                    canonical,
                    decoded_signature,
                )
                &&& match decoded_signature {
                    None => code == -6,
                    Some(checked) => signature_judged(
                        xmss_verify,
                        &key,
                        epoch as u32,
                        signed,
                        &checked,
                        code,
                    ),
                }
            };
        let encoded_signature = choose|encoded: &[u8]|
            encoded@ == canonical && #[trigger] call_ensures(
                decode_signature,
                (encoded,),
                decoded_signature,
            );
        assert(call_ensures(decode_signature, (encoded_signature,), decoded_signature));
    }
}

/// A request to check an encoded signature that is not in order gets the number of the first thing
/// that is wrong with it, and no request that is in order gets such a number.
pub proof fn law_encoded_verify_refusals<
    P,
    S,
    K: FnOnce(&[u8]) -> Option<P>,
    G: FnOnce(&[u8]) -> Option<S>,
    V: FnOnce(&P, u32, &[u8; MESSAGE_LENGTH], &S) -> bool,
>(
    pubkey_bytes: Option<&[u8]>,
    pubkey_len: usize,
    epoch: u64,
    message: Option<&[u8]>,
    message_len: usize,
    signature_bytes: Option<&[u8]>,
    signature_len: usize,
    decode_public_key: K,
    decode_signature: G,
    xmss_verify: V,
    code: i32,
)
    requires
        call_ensures(
            pq_verify_ssz::<P, S, K, G, V>,
            (
                pubkey_bytes,
                pubkey_len,
                epoch,
                message,
                message_len,
                signature_bytes,
                signature_len,
                decode_public_key,
                decode_signature,
                xmss_verify,
            ),
            code,
        ),
        signature_bytes matches Some(memory) ==> signature_len <= memory@.len(),
    ensures
        code == -1 <==> pubkey_bytes is None || message is None || signature_bytes is None,
        code != -1 ==> (code == -7 <==> pubkey_len != 32),
        code != -1 && code != -7 ==> (code == -3 <==> epoch >= 4294967296),
        code != -1 && code != -7 && code != -3 ==> (code == -2 <==> message_len != 32),
        code != -1 && code != -7 && code != -3 && code != -2 ==> (code == -8 <==> signature_len
            < 1208 || exists|i: int|
            1208 <= i < signature_len && #[trigger] signature_bytes->0@[i] != 0),
        -8 <= code <= 1 && code != -4,
{
    if let Some(memory) = signature_bytes {
        let bytes = items(Some(memory), signature_len);
        assert forall|i: int| 0 <= i < signature_len implies bytes[i] == #[trigger] memory@[i] by {}
        if is_padded_signature(bytes) {
            assert forall|i: int| 1208 <= i < signature_len implies #[trigger] memory@[i]
                == 0 by {
                assert(bytes[i] == 0);
            }
        }
    }
}

/// A request to check an aggregate that is in order goes its way: the decoder is asked about the
/// bytes of the aggregate with every public key of the request, each in its place, and the proof
/// system about what that gave, unless it is about another message or another epoch.
pub proof fn law_aggregate_verify_hands_on_the_verdict<
    'a,
    P,
    T,
    D: Fn(&[u8], Vec<&'a P>) -> Option<SingleMessageAggregate<T>>,
    W: FnOnce(&SingleMessageAggregate<T>) -> bool,
>(
    pubkeys: &'a [Option<&'a PQSignatureSchemePublicKey<P>>],
    count: usize,
    message: &[u8],
    agg_bytes: &[u8],
    agg_len: usize,
    epoch: u64,
    decode: D,
    verify_type_1: W,
    code: i32,
)
    requires
        call_ensures(
            pq_verify_aggregated_signatures::<P, T, D, W>,
            (
                Some(pubkeys),
                count,
                Some(message),
                32usize,
                Some(agg_bytes),
                agg_len,
                epoch,
                decode,
                verify_type_1,
            ),
            code,
        ),
        epoch < 4294967296,
        message@.len() >= 32,
        forall|i: int| 0 <= i < count ==> #[trigger] pubkeys@[i] is Some,
    ensures
        exists|encoded: &[u8], keys: Vec<&'a P>, decoded: Option<SingleMessageAggregate<T>>|
            {
                &&& encoded@ == agg_bytes@.take(agg_len as int)
                &&& keys@.len() == count
                &&& forall|i: int| 0 <= i < count ==> #[trigger] keys@[i] == &pubkeys@[i]->0.inner
                &&& #[trigger] call_ensures(decode, (encoded, keys), decoded)
                &&& decoded is None ==> code == -5
                &&& decoded matches Some(aggregated) ==> {
                    if aggregated.info.message@ != message@.take(32) || aggregated.info.slot
                        != epoch {
                        code == 0
                    } else {
                        &&& code == 0 || code == 1
                        &&& call_ensures(verify_type_1, (&aggregated,), code == 1)
                    }
                }
            },
{
    lemma_message_at(message);
    let signed = message_at(Some(message));
    let bytes = items(Some(agg_bytes), agg_len);
    let wanted = public_keys(Some(pubkeys), count);
    let decoded = choose|decoded: Option<SingleMessageAggregate<T>>|
        {
            &&& #[trigger] decode_answered(decode, bytes, wanted, decoded)
            &&& match decoded {
                None => code == -5,
                Some(aggregated) => aggregate_judged(
                    aggregated,
                    signed,
                    epoch as u32,
                    verify_type_1,
                    code,
                ),
            }
        };
    let (encoded, keys) = choose|encoded: &[u8], keys: Vec<&'a P>|
        {
            &&& encoded@ == bytes
            &&& keys@ == wanted
            &&& #[trigger] call_ensures(decode, (encoded, keys), decoded)
        };
    assert(keys@.len() == count);
    assert forall|i: int| 0 <= i < count implies #[trigger] keys@[i] == &pubkeys@[i]->0.inner by {}
    if let Some(aggregated) = decoded {
        lemma_message_array(aggregated.info.message);
        lemma_message_array(signed);
    }
    assert(call_ensures(decode, (encoded, keys), decoded));
}

/// An aggregate is called valid only for the keys of the request, all of them and no others: there
/// is a vector of exactly these, on which the decoder gave an aggregate that the proof system
/// accepted.
pub proof fn law_valid_aggregate_is_of_all_the_keys<
    'a,
    P,
    T,
    D: Fn(&[u8], Vec<&'a P>) -> Option<SingleMessageAggregate<T>>,
    W: FnOnce(&SingleMessageAggregate<T>) -> bool,
>(
    pubkeys: Option<&'a [Option<&'a PQSignatureSchemePublicKey<P>>]>,
    count: usize,
    message: Option<&[u8]>,
    message_len: usize,
    agg_bytes: Option<&[u8]>,
    agg_len: usize,
    epoch: u64,
    decode: D,
    verify_type_1: W,
)
    requires
        call_ensures(
            pq_verify_aggregated_signatures::<P, T, D, W>,
            (
                pubkeys,
                count,
                message,
                message_len,
                agg_bytes,
                agg_len,
                epoch,
                decode,
                verify_type_1,
            ),
            1i32,
        ),
        message matches Some(memory) ==> message_len == 32 ==> memory@.len() >= 32,
    ensures
        pubkeys is Some,
        message is Some,
        agg_bytes is Some,
        message_len == 32,
        exists|encoded: &[u8], keys: Vec<&'a P>, aggregated: SingleMessageAggregate<T>|
            {
                &&& encoded@ == agg_bytes->0@.take(agg_len as int)
                &&& keys@.len() == count
                &&& forall|i: int|
                    0 <= i < count ==> pubkeys->0@[i] is Some && #[trigger] keys@[i]
                        == &pubkeys->0@[i]->0.inner
                &&& #[trigger] call_ensures(decode, (encoded, keys), Some(aggregated))
                &&& aggregated.info.message@ == message->0@.take(32)
                &&& aggregated.info.slot == epoch
                &&& call_ensures(verify_type_1, (&aggregated,), true)
            },
{
    let code = 1i32;
    law_aggregate_verify_refusals(
        pubkeys,
        count,
        message,
        message_len,
        agg_bytes,
        agg_len,
        epoch,
        decode,
        verify_type_1,
        code,
    );
    law_aggregate_verify_hands_on_the_verdict(
        pubkeys->0,
        count,
        message->0,
        agg_bytes->0,
        agg_len,
        epoch,
        decode,
        verify_type_1,
        code,
    );
    let (encoded, keys, decoded) = choose|
        encoded: &[u8],
        keys: Vec<&'a P>,
        decoded: Option<SingleMessageAggregate<T>>,
    |
        {
            &&& encoded@ == agg_bytes->0@.take(agg_len as int)
            &&& keys@.len() == count
            &&& forall|i: int| 0 <= i < count ==> #[trigger] keys@[i] == &pubkeys->0@[i]->0.inner
            &&& #[trigger] call_ensures(decode, (encoded, keys), decoded)
            &&& decoded is None ==> code == -5
            &&& decoded matches Some(aggregated) ==> {
                if aggregated.info.message@ != message->0@.take(32) || aggregated.info.slot
                    != epoch {
                    code == 0
                } else {
                    call_ensures(verify_type_1, (&aggregated,), code == 1)
                }
            }
        };
    assert(call_ensures(decode, (encoded, keys), Some(decoded->0)));
}

/// A request to check an aggregate that is not in order gets the number of the first thing that is
/// wrong with it, and no request that is in order gets such a number.
pub proof fn law_aggregate_verify_refusals<
    'a,
    P,
    T,
    D: Fn(&[u8], Vec<&'a P>) -> Option<SingleMessageAggregate<T>>,
    W: FnOnce(&SingleMessageAggregate<T>) -> bool,
>(
    pubkeys: Option<&'a [Option<&'a PQSignatureSchemePublicKey<P>>]>,
    count: usize,
    message: Option<&[u8]>,
    message_len: usize,
    agg_bytes: Option<&[u8]>,
    agg_len: usize,
    epoch: u64,
    decode: D,
    verify_type_1: W,
    code: i32,
)
    requires
        call_ensures(
            pq_verify_aggregated_signatures::<P, T, D, W>,
            (
                pubkeys,
                count,
                message,
                message_len,
                agg_bytes,
                agg_len,
                epoch,
                decode,
                verify_type_1,
            ),
            code,
        ),
    ensures
        code == -1 <==> pubkeys is None || message is None || agg_bytes is None,
        code != -1 ==> (code == -3 <==> epoch >= 4294967296),
        code != -1 && code != -3 ==> (code == -2 <==> message_len != 32),
        code != -1 && code != -3 && code != -2 ==> (code == -4 <==> exists|i: int|
            0 <= i < count && #[trigger] pubkeys->0@[i] is None),
        -5 <= code <= 1,
{
}

/// A request to check a multi-message aggregate that is in order goes its way: the decoder is
/// asked about the bytes of the aggregate with one vector of keys for each component, which holds
/// every key of that component in its place, and the proof system about what that gave, unless it
/// is about another number of messages, or about another message or epoch in some place.
pub proof fn law_multi_verify_hands_on_the_verdict<
    'a,
    P,
    T,
    D: Fn(&[u8], Vec<Vec<&'a P>>) -> Option<MultiMessageAggregate<T>>,
    W: FnOnce(&MultiMessageAggregate<T>) -> bool,
>(
    components: &'a [PQTypeTwoComponent<'a, P>],
    bindings: &'a [PQTypeTwoMessageBinding<'a>],
    count: usize,
    type2_bytes: &[u8],
    type2_len: usize,
    decode: D,
    verify_type_2: W,
    code: i32,
)
    requires
        call_ensures(
            pq_verify_type_2_with_messages::<P, T, D, W>,
            (
                Some(components),
                count,
                Some(bindings),
                count,
                Some(type2_bytes),
                type2_len,
                decode,
                verify_type_2,
            ),
            code,
        ),
        forall|i: int|
            0 <= i < count && (#[trigger] components@[i]).pubkey_count > 0
                ==> components@[i].pubkeys is Some,
        forall|i: int, j: int|
            0 <= i < count && 0 <= j < components@[i].pubkey_count
                ==> #[trigger] components@[i].pubkeys->0@[j] is Some,
        forall|i: int|
            0 <= i < count ==> {
                &&& (#[trigger] bindings@[i]).epoch < 4294967296
                &&& bindings@[i].message is Some
                &&& bindings@[i].message_len == 32
                &&& bindings@[i].message->0@.len() >= 32
            },
    ensures
        exists|
            encoded: &[u8],
            pks_per_component: Vec<Vec<&'a P>>,
            decoded: Option<MultiMessageAggregate<T>>,
        |
            {
                &&& encoded@ == type2_bytes@.take(type2_len as int)
                &&& pks_per_component@.len() == count
                &&& forall|i: int|
                    0 <= i < count ==> (#[trigger] pks_per_component@[i])@.len()
                        == components@[i].pubkey_count
                &&& forall|i: int, j: int|
                    0 <= i < count && 0 <= j < components@[i].pubkey_count
                        ==> #[trigger] pks_per_component@[i]@[j]
                        == &components@[i].pubkeys->0@[j]->0.inner
                &&& #[trigger] call_ensures(decode, (encoded, pks_per_component), decoded)
                &&& decoded is None ==> code == -5
                &&& decoded matches Some(type2) ==> {
                    if type2.info@.len() != count {
                        code == -6
                    } else if exists|i: int|
                        0 <= i < count && ((#[trigger] type2.info@[i]).message@
                            != bindings@[i].message->0@.take(32) || type2.info@[i].slot
                            != bindings@[i].epoch) {
                        code == 0
                    } else {
                        &&& code == 0 || code == 1
                        &&& call_ensures(verify_type_2, (&type2,), code == 1)
                    }
                }
            },
{
    let bytes = items(Some(type2_bytes), type2_len);
    let wanted = component_keys(Some(components), count);
    assert forall|i: int| 0 <= i < count implies pointers_valid(
        (#[trigger] components@[i]).pubkeys,
        components@[i].pubkey_count,
    ) by {
        assert forall|j: int| 0 <= j < components@[i].pubkey_count implies (
        #[trigger] components@[i].pubkeys->0@[j]) is Some by {}
    }
    assert(components_valid(Some(components), count));
    let collected = choose|collected: Result<Seq<([u8; MESSAGE_LENGTH], u32)>, PQSigningError>|
        {
            &&& #[trigger] bindings_collected(Some(bindings), count, collected)
            &&& match collected {
                Err(_) => code == -4,
                Ok(expected) => exists|decoded: Option<MultiMessageAggregate<T>>|
                    {
                        &&& #[trigger] multi_decode_answered(decode, bytes, wanted, decoded)
                        &&& match decoded {
                            None => code == -5,
                            Some(type2) => multi_judged(type2, expected, verify_type_2, code),
                        }
                    },
            }
        };
    if collected is Err {
        let i = choose|i: int|
            0 <= i < count && binding_refusal(#[trigger] bindings@[i]) == Some(collected->Err_0);
        assert(binding_refusal(bindings@[i]) is None);
    }
    let expected = collected->Ok_0;
    let decoded = choose|decoded: Option<MultiMessageAggregate<T>>|
        {
            &&& #[trigger] multi_decode_answered(decode, bytes, wanted, decoded)
            &&& match decoded {
                None => code == -5,
                Some(type2) => multi_judged(type2, expected, verify_type_2, code),
            }
        };
    let (encoded, pks) = choose|encoded: &[u8], pks: Vec<Vec<&'a P>>|
        {
            &&& encoded@ == bytes
            &&& nested(pks@) == wanted
            &&& #[trigger] call_ensures(decode, (encoded, pks), decoded)
        };
    lemma_component_keys(Some(components), count, pks@);
    assert forall|i: int| 0 <= i < count implies expected[i].0@
        == (#[trigger] bindings@[i]).message->0@.take(32) && expected[i].1
        == bindings@[i].epoch by {
        assert(binding_refusal(bindings@[i]) is None);
        lemma_message_at(bindings@[i].message->0);
    }
    if let Some(type2) = decoded {
        if type2.info@.len() == count {
            assert forall|i: int| 0 <= i < count implies ((#[trigger] type2.info@[i]).message
                == expected[i].0 <==> type2.info@[i].message@
                == bindings@[i].message->0@.take(32)) by {
                let binding = bindings@[i];
                lemma_message_array(type2.info@[i].message);
                lemma_message_array(expected[i].0);
            }
            assert forall|i: int| 0 <= i < count implies expected[i].1
                == bindings@[i].epoch by {
                let binding = bindings@[i];
            }
        }
    }
    assert(call_ensures(decode, (encoded, pks), decoded));
}

/// A request to check a multi-message aggregate that is not in order gets the number of the first
/// thing that is wrong with it, and no request that is in order gets such a number.
pub proof fn law_multi_verify_refusals<
    'a,
    P,
    T,
    D: Fn(&[u8], Vec<Vec<&'a P>>) -> Option<MultiMessageAggregate<T>>,
    W: FnOnce(&MultiMessageAggregate<T>) -> bool,
>(
    components: Option<&'a [PQTypeTwoComponent<'a, P>]>,
    component_count: usize,
    bindings: Option<&'a [PQTypeTwoMessageBinding<'a>]>,
    binding_count: usize,
    type2_bytes: Option<&[u8]>,
    type2_len: usize,
    decode: D,
    verify_type_2: W,
    code: i32,
)
    requires
        call_ensures(
            pq_verify_type_2_with_messages::<P, T, D, W>,
            (
                components,
                component_count,
                bindings,
                binding_count,
                type2_bytes,
                type2_len,
                decode,
                verify_type_2,
            ),
            code,
        ),
    ensures
        code == -1 <==> components is None || bindings is None || type2_bytes is None,
        code != -1 ==> (code == -2 <==> component_count != binding_count),
        code != -1 && code != -2 ==> (code == -3 <==> exists|i: int|
            {
                &&& 0 <= i < component_count
                &&& (#[trigger] components->0@[i]).pubkey_count > 0
                &&& components->0@[i].pubkeys is None || exists|j: int|
                    0 <= j < components->0@[i].pubkey_count
                        && #[trigger] components->0@[i].pubkeys->0@[j] is None
            }),
        code != -1 && code != -2 && code != -3 ==> (code == -4 <==> exists|i: int|
            {
                &&& 0 <= i < binding_count
                &&& (#[trigger] bindings->0@[i]).epoch >= 4294967296 || bindings->0@[i].message is None
                    || bindings->0@[i].message_len != 32
            }),
        -6 <= code <= 1,
{
    if code != -1 && code != -2 && code != -3 {
        let bytes = items(type2_bytes, type2_len);
        let wanted = component_keys(components, component_count);
        let collected = choose|
            collected: Result<Seq<([u8; MESSAGE_LENGTH], u32)>, PQSigningError>,
        |
            {
                &&& #[trigger] bindings_collected(bindings, binding_count, collected)
                &&& match collected {
                    Err(_) => code == -4,
                    Ok(expected) => exists|decoded: Option<MultiMessageAggregate<T>>|
                        {
                            &&& #[trigger] multi_decode_answered(decode, bytes, wanted, decoded)
                            &&& match decoded {
                                None => code == -5,
                                Some(type2) => multi_judged(type2, expected, verify_type_2, code),
                            }
                        },
                }
            };
        if collected is Ok {
            assert forall|i: int| 0 <= i < binding_count implies {
                &&& (#[trigger] bindings->0@[i]).epoch < 4294967296
                &&& bindings->0@[i].message is Some
                &&& bindings->0@[i].message_len == 32
            } by {
                assert(binding_refusal(bindings->0@[i]) is None);
            }
        } else {
            let i = choose|i: int|
                0 <= i < binding_count && binding_refusal(#[trigger] bindings->0@[i]) == Some(
                    collected->Err_0,
                );
            assert(binding_refusal(bindings->0@[i]) is Some);
        }
    }
}

} // verus!
