//! What a caller has to bring for a call: the memory behind the pointers, and nothing else.
use vstd::prelude::*;
use crate::codec::{
    pq_public_key_deserialize, pq_public_key_from_json, pq_public_key_serialize,
    pq_secret_key_deserialize, pq_secret_key_from_json, pq_secret_key_serialize,
    pq_signature_deserialize, pq_signature_from_json, pq_signature_serialize,
};
use crate::error::{pq_error_description, PQSigningError};
use crate::handles::{
    MultiMessageAggregate, PQAggregatedSignatureChild, PQRawXmssSignature, PQSignature,
    PQSignatureSchemePublicKey, PQSignatureSchemeSecretKey, PQTypeTwoComponent,
    PQTypeTwoMessageBinding, SingleMessageAggregate, XmssSecretKey,
};
use crate::input::{epoch_to_u32, message_from_ptr, normalize_signature_bytes, MESSAGE_LENGTH};
use crate::keys::{
    pq_get_activation_interval, pq_get_prepared_interval, pq_key_gen, pq_sign, KeyGenAnswer,
    SignAnswer,
};
use crate::last_error::{pq_take_last_error_message, LastError};
use crate::memory::write_bytes_to_buffer;
use crate::proving::{
    aggregate_raw_signatures, aggregate_signatures_impl, pq_aggregate_signatures,
    pq_aggregate_signatures_recursive, pq_aggregate_signatures_recursive_unverified,
    pq_aggregate_signatures_unverified, pq_merge_many_type_1, pq_split_type_2_by_message,
    ProvingAnswer,
};
use crate::verifying::{
    pq_verify, pq_verify_aggregated_signatures, pq_verify_ssz, pq_verify_type_2_with_messages,
};
use crate::wipe::{move_allocation, WipeDeallocationGuard, WipingAllocator};

verus! {

/// Any request to check a signature may be made, if the memory of its message is there.
pub proof fn law_any_signature_may_be_checked<
    P,
    S,
    V: FnOnce(&P, u32, &[u8; MESSAGE_LENGTH], &S) -> bool,
>(
    pk: Option<&PQSignatureSchemePublicKey<P>>,
    epoch: u64,
    message: Option<&[u8]>,
    message_len: usize,
    signature: Option<&PQSignature<S>>,
    xmss_verify: V,
)
    requires
        message matches Some(memory) ==> message_len == 32 ==> memory@.len() >= 32,
        forall|key: &P, slot: u32, signed: &[u8; MESSAGE_LENGTH], checked: &S|
            call_requires(xmss_verify, (key, slot, signed, checked)),
    ensures
        call_requires(
            pq_verify::<P, S, V>,
            (
                pk,
                epoch,
                message,
                message_len,
                signature,
                xmss_verify,
            ),
        ),
{
}

/// Any request to check an encoded signature may be made, if the memory behind its pointers is
/// there.
pub proof fn law_any_encoded_signature_may_be_checked<
    P,
    S,
    K: FnOnce(&[u8]) -> Option<P>,
    G: FnOnce(&[u8]) -> Option<S>,
    V: FnOnce(&P, u32, &[u8; MESSAGE_LENGTH], &S) -> bool,
>(
    pubkey_bytes: Option<&[u8]>,
    pubkey_len: usize,
    epoch: u64,
    message: Option<&[u8]>,
    message_len: usize,
    signature_bytes: Option<&[u8]>,
    signature_len: usize,
    decode_public_key: K,
    decode_signature: G,
    xmss_verify: V,
)
    requires
        pubkey_bytes matches Some(memory) ==> memory@.len() >= pubkey_len,
        signature_bytes matches Some(memory) ==> memory@.len() >= signature_len,
        forall|encoded: &[u8]| call_requires(decode_public_key, (encoded,)),
        forall|encoded: &[u8]| call_requires(decode_signature, (encoded,)),
        message matches Some(memory) ==> message_len == 32 ==> memory@.len() >= 32,
        forall|key: &P, slot: u32, signed: &[u8; MESSAGE_LENGTH], checked: &S|
            call_requires(xmss_verify, (key, slot, signed, checked)),
    ensures
        call_requires(
            pq_verify_ssz::<P, S, K, G, V>,
            (
                pubkey_bytes,
                pubkey_len,
                epoch,
                message,
                message_len,
                signature_bytes,
                signature_len,
                decode_public_key,
                decode_signature,
                xmss_verify,
            ),
        ),
{
}

/// Any request to check an aggregate may be made, if the memory behind its pointers is there.
pub proof fn law_any_aggregate_may_be_checked<
    'a,
    P,
    T,
    D: Fn(&[u8], Vec<&'a P>) -> Option<SingleMessageAggregate<T>>,
    W: FnOnce(&SingleMessageAggregate<T>) -> bool,
>(
    pubkeys: Option<&'a [Option<&'a PQSignatureSchemePublicKey<P>>]>,
    count: usize,
    message: Option<&[u8]>,
    message_len: usize,
    agg_bytes: Option<&[u8]>,
    agg_len: usize,
    epoch: u64,
    decode: D,
    verify_type_1: W,
)
    requires
        pubkeys matches Some(memory) ==> memory@.len() >= count,
        agg_bytes matches Some(memory) ==> memory@.len() >= agg_len,
        forall|aggregated: &SingleMessageAggregate<T>| call_requires(verify_type_1, (aggregated,)),
        message matches Some(memory) ==> message_len == 32 ==> memory@.len() >= 32,
        forall|encoded: &[u8], keys: Vec<&'a P>| call_requires(decode, (encoded, keys)),
    ensures
        call_requires(
            pq_verify_aggregated_signatures::<P, T, D, W>,
            (
                pubkeys,
                count,
                message,
                message_len,
                agg_bytes,
                agg_len,
                epoch,
                decode,
                verify_type_1,
            ),
        ),
{
}

/// Any request to check a multi-message aggregate may be made, if the memory behind its pointers
/// is there.
pub proof fn law_any_multi_aggregate_may_be_checked<
    'a,
    P,
    T,
    D: Fn(&[u8], Vec<Vec<&'a P>>) -> Option<MultiMessageAggregate<T>>,
    W: FnOnce(&MultiMessageAggregate<T>) -> bool,
>(
    components: Option<&'a [PQTypeTwoComponent<'a, P>]>,
    component_count: usize,
    bindings: Option<&'a [PQTypeTwoMessageBinding<'a>]>,
    binding_count: usize,
    type2_bytes: Option<&[u8]>,
    type2_len: usize,
    decode: D,
    verify_type_2: W,
)
    requires
        components matches Some(memory) ==> memory@.len() >= component_count && forall|i: int|
            0 <= i < component_count ==> ((#[trigger] memory@[i]).pubkeys matches Some(keys)
                ==> keys@.len() >= memory@[i].pubkey_count),
        bindings matches Some(memory) ==> memory@.len() >= binding_count && forall|i: int|
            0 <= i < binding_count ==> ((#[trigger] memory@[i]).message matches Some(bytes)
                ==> memory@[i].message_len == 32 ==> bytes@.len() >= 32),
        type2_bytes matches Some(memory) ==> memory@.len() >= type2_len,
        forall|encoded: &[u8], keys: Vec<Vec<&'a P>>| call_requires(decode, (encoded, keys)),
        forall|type2: &MultiMessageAggregate<T>| call_requires(verify_type_2, (type2,)),
    ensures
        call_requires(
            pq_verify_type_2_with_messages::<P, T, D, W>,
            (
                components,
                component_count,
                bindings,
                binding_count,
                type2_bytes,
                type2_len,
                decode,
                verify_type_2,
            ),
        ),
{
}

/// Any key pair may be asked for.
pub proof fn law_any_key_may_be_asked_for<
    P,
    K,
    F: FnOnce(u64, u64) -> KeyGenAnswer<P, K>,
>(
    activation_epoch: usize,
    num_active_epochs: usize,
    pk_out: Option<&mut Option<PQSignatureSchemePublicKey<P>>>,
    sk_out: Option<&mut Option<PQSignatureSchemeSecretKey<K>>>,
    xmss_key_gen: F,
)
    requires
        forall|first: u64, count: u64| call_requires(xmss_key_gen, (first, count)),
    ensures
        call_requires(
            pq_key_gen::<P, K, F>,
            (
                activation_epoch,
                num_active_epochs,
                pk_out,
                sk_out,
                xmss_key_gen,
            ),
        ),
{
}

/// Any request to sign may be made, if the memory of its message is there.
pub proof fn law_any_message_may_be_signed<
    K,
    S,
    F: FnOnce(&XmssSecretKey<K>, u32, &[u8; MESSAGE_LENGTH]) -> SignAnswer<S>,
>(
    sk: Option<&PQSignatureSchemeSecretKey<K>>,
    epoch: u64,
    message: Option<&[u8]>,
    message_len: usize,
    signature_out: Option<&mut Option<PQSignature<S>>>,
    xmss_sign: F,
)
    requires
        message matches Some(memory) ==> message_len == 32 ==> memory@.len() >= 32,
        forall|key: &XmssSecretKey<K>, slot: u32, signed: &[u8; MESSAGE_LENGTH]|
            call_requires(xmss_sign, (key, slot, signed)),
    ensures
        call_requires(
            pq_sign::<K, S, F>,
            (
                sk,
                epoch,
                message,
                message_len,
                signature_out,
                xmss_sign,
            ),
        ),
{
}

/// Any aggregation of signatures may be asked for, if the memory behind its pointers is there.
pub proof fn law_any_signatures_may_be_aggregated<
    'a,
    P,
    S,
    C,
    V: Fn(&P, u32, &[u8; MESSAGE_LENGTH], &S) -> bool,
    A: FnOnce(Vec<C>, Vec<(&'a P, &'a S)>, [u8; MESSAGE_LENGTH], u32, usize) -> ProvingAnswer,
>(
    last_error: &mut LastError,
    pubkeys: Option<&'a [Option<&'a PQSignatureSchemePublicKey<P>>]>,
    signatures: Option<&'a [Option<&'a PQSignature<S>>]>,
    count: usize,
    message: Option<&[u8]>,
    message_len: usize,
    epoch: u64,
    log_inv_rate: usize,
    buffer: Option<&mut [u8]>,
    buffer_len: usize,
    written_len: Option<&mut usize>,
    verify_inputs: bool,
    xmss_verify: V,
    aggregate: A,
)
    requires
        pubkeys matches Some(memory) ==> memory@.len() >= count,
        signatures matches Some(memory) ==> memory@.len() >= count,
        message matches Some(memory) ==> message_len == 32 ==> memory@.len() >= 32,
        buffer matches Some(memory) ==> memory@.len() >= buffer_len,
        forall|key: &P, slot: u32, signed: &[u8; MESSAGE_LENGTH], checked: &S|
            call_requires(xmss_verify, (key, slot, signed, checked)),
        forall|
            child_inputs: Vec<C>,
            raw_inputs: Vec<(&'a P, &'a S)>,
            signed: [u8; MESSAGE_LENGTH],
            slot: u32,
            rate: usize,
        |
            call_requires(aggregate, (child_inputs, raw_inputs, signed, slot, rate)),
    ensures
        call_requires(
            aggregate_raw_signatures::<P, S, C, V, A>,
            (
                last_error,
                pubkeys,
                signatures,
                count,
                message,
                message_len,
                epoch,
                log_inv_rate,
                buffer,
                buffer_len,
                written_len,
                verify_inputs,
                xmss_verify,
                aggregate,
            ),
        ),
        call_requires(
            pq_aggregate_signatures::<P, S, C, V, A>,
            (
                last_error,
                pubkeys,
                signatures,
                count,
                message,
                message_len,
                epoch,
                log_inv_rate,
                buffer,
                buffer_len,
                written_len,
                xmss_verify,
                aggregate,
            ),
        ),
        call_requires(
            pq_aggregate_signatures_unverified::<P, S, C, A>,
            (
                last_error,
                pubkeys,
                signatures,
                count,
                message,
                message_len,
                epoch,
                log_inv_rate,
                buffer,
                buffer_len,
                written_len,
                aggregate,
            ),
        ),
{
}

/// Any aggregation on top of earlier aggregates may be asked for, if the memory behind its
/// pointers is there.
pub proof fn law_any_aggregates_may_be_aggregated<
    'a,
    P,
    S,
    C,
    V: Fn(&P, u32, &[u8; MESSAGE_LENGTH], &S) -> bool,
    D: Fn(&[u8], Vec<&'a P>) -> Option<C>,
    A: FnOnce(Vec<C>, Vec<(&'a P, &'a S)>, [u8; MESSAGE_LENGTH], u32, usize) -> ProvingAnswer,
>(
    last_error: &mut LastError,
    children: Option<&'a [PQAggregatedSignatureChild<'a, P>]>,
    child_count: usize,
    raw_xmss: Option<&'a [PQRawXmssSignature<'a, P, S>]>,
    raw_xmss_count: usize,
    message: Option<&[u8]>,
    message_len: usize,
    epoch: u64,
    log_inv_rate: usize,
    buffer: Option<&mut [u8]>,
    buffer_len: usize,
    written_len: Option<&mut usize>,
    verify_inputs: bool,
    xmss_verify: V,
    decode: D,
    aggregate: A,
)
    requires
        children matches Some(memory) ==> memory@.len() >= child_count && forall|i: int|
            0 <= i < child_count ==> ((#[trigger] memory@[i]).pubkeys matches Some(keys)
                ==> keys@.len() >= memory@[i].pubkey_count) && (memory@[i].agg_bytes matches Some(
                bytes,
            ) ==> bytes@.len() >= memory@[i].agg_len),
        raw_xmss matches Some(memory) ==> memory@.len() >= raw_xmss_count,
        message matches Some(memory) ==> message_len == 32 ==> memory@.len() >= 32,
        buffer matches Some(memory) ==> memory@.len() >= buffer_len,
        forall|key: &P, slot: u32, signed: &[u8; MESSAGE_LENGTH], checked: &S|
            call_requires(xmss_verify, (key, slot, signed, checked)),
        forall|encoded: &[u8], keys: Vec<&'a P>| call_requires(decode, (encoded, keys)),
        forall|
            child_inputs: Vec<C>,
            raw_inputs: Vec<(&'a P, &'a S)>,
            signed: [u8; MESSAGE_LENGTH],
            slot: u32,
            rate: usize,
        |
            call_requires(aggregate, (child_inputs, raw_inputs, signed, slot, rate)),
    ensures
        call_requires(
            aggregate_signatures_impl::<P, S, C, V, D, A>,
            (
                last_error,
                children,
                child_count,
                raw_xmss,
                raw_xmss_count,
                message,
                message_len,
                epoch,
                log_inv_rate,
                buffer,
                buffer_len,
                written_len,
                verify_inputs,
                xmss_verify,
                decode,
                aggregate,
            ),
        ),
        call_requires(
            pq_aggregate_signatures_recursive::<P, S, C, V, D, A>,
            (
                last_error,
                children,
                child_count,
                raw_xmss,
                raw_xmss_count,
                message,
                message_len,
                epoch,
                log_inv_rate,
                buffer,
                buffer_len,
                written_len,
                xmss_verify,
                decode,
                aggregate,
            ),
        ),
        call_requires(
            pq_aggregate_signatures_recursive_unverified::<P, S, C, D, A>,
            (
                last_error,
                children,
                child_count,
                raw_xmss,
                raw_xmss_count,
                message,
                message_len,
                epoch,
                log_inv_rate,
                buffer,
                buffer_len,
                written_len,
                decode,
                aggregate,
            ),
        ),
{
}

/// Any merge may be asked for, if the memory behind its pointers is there.
pub proof fn law_any_aggregates_may_be_merged<
    'a,
    P,
    C,
    D: Fn(&[u8], Vec<&'a P>) -> Option<C>,
    M: FnOnce(Vec<C>, usize) -> ProvingAnswer,
>(
    last_error: &mut LastError,
    entries: Option<&'a [PQAggregatedSignatureChild<'a, P>]>,
    entry_count: usize,
    log_inv_rate: usize,
    buffer: Option<&mut [u8]>,
    buffer_len: usize,
    written_len: Option<&mut usize>,
    decode: D,
    merge: M,
)
    requires
        entries matches Some(memory) ==> memory@.len() >= entry_count && forall|i: int|
            0 <= i < entry_count ==> ((#[trigger] memory@[i]).pubkeys matches Some(keys)
                ==> keys@.len() >= memory@[i].pubkey_count) && (memory@[i].agg_bytes matches Some(
                bytes,
            ) ==> bytes@.len() >= memory@[i].agg_len),
        buffer matches Some(memory) ==> memory@.len() >= buffer_len,
        forall|encoded: &[u8], keys: Vec<&'a P>| call_requires(decode, (encoded, keys)),
        forall|type1_entries: Vec<C>, rate: usize| call_requires(merge, (type1_entries, rate)),
    ensures
        call_requires(
            pq_merge_many_type_1::<P, C, D, M>,
            (
                last_error,
                entries,
                entry_count,
                log_inv_rate,
                buffer,
                buffer_len,
                written_len,
                decode,
                merge,
            ),
        ),
{
}

/// Any split may be asked for, if the memory behind its pointers is there.
pub proof fn law_any_aggregate_may_be_split<
    'a,
    P,
    T,
    D: Fn(&[u8], Vec<Vec<&'a P>>) -> Option<MultiMessageAggregate<T>>,
    X: FnOnce(MultiMessageAggregate<T>, usize, usize) -> ProvingAnswer,
>(
    last_error: &mut LastError,
    components: Option<&'a [PQTypeTwoComponent<'a, P>]>,
    component_count: usize,
    type2_bytes: Option<&[u8]>,
    type2_len: usize,
    message: Option<&[u8]>,
    message_len: usize,
    log_inv_rate: usize,
    buffer: Option<&mut [u8]>,
    buffer_len: usize,
    written_len: Option<&mut usize>,
    decode: D,
    split: X,
)
    requires
        components matches Some(memory) ==> memory@.len() >= component_count && forall|i: int|
            0 <= i < component_count ==> ((#[trigger] memory@[i]).pubkeys matches Some(keys)
                ==> keys@.len() >= memory@[i].pubkey_count),
        type2_bytes matches Some(memory) ==> memory@.len() >= type2_len,
        message matches Some(memory) ==> message_len == 32 ==> memory@.len() >= 32,
        buffer matches Some(memory) ==> memory@.len() >= buffer_len,
        forall|encoded: &[u8], keys: Vec<Vec<&'a P>>| call_requires(decode, (encoded, keys)),
        forall|type2: MultiMessageAggregate<T>, index: usize, rate: usize|
            call_requires(split, (type2, index, rate)),
    ensures
        call_requires(
            pq_split_type_2_by_message::<P, T, D, X>,
            (
                last_error,
                components,
                component_count,
                type2_bytes,
                type2_len,
                message,
                message_len,
                log_inv_rate,
                buffer,
                buffer_len,
                written_len,
                decode,
                split,
            ),
        ),
{
}

/// Any key and any signature may be written, if the memory of the buffer is there.
pub proof fn law_anything_may_be_written<
    P,
    S,
    K,
    EP: FnOnce(&P) -> Vec<u8>,
    ES: FnOnce(&S) -> Vec<u8>,
    EK: FnOnce(&XmssSecretKey<K>) -> Option<Vec<u8>>,
>(
    pk: Option<&PQSignatureSchemePublicKey<P>>,
    signature: Option<&PQSignature<S>>,
    sk: Option<&PQSignatureSchemeSecretKey<K>>,
    bytes: &[u8],
    buffer: Option<&mut [u8]>,
    buffer_len: usize,
    written_len: Option<&mut usize>,
    encode_public_key: EP,
    encode_signature: ES,
    encode_secret_key: EK,
)
    requires
        buffer matches Some(memory) ==> memory@.len() >= buffer_len,
        forall|value: &P| call_requires(encode_public_key, (value,)),
        forall|value: &S| call_requires(encode_signature, (value,)),
        forall|value: &XmssSecretKey<K>| call_requires(encode_secret_key, (value,)),
    ensures
        call_requires(
            pq_public_key_serialize::<P, EP>,
            (
                pk,
                buffer,
                buffer_len,
                written_len,
                encode_public_key,
            ),
        ),
        call_requires(
            pq_signature_serialize::<S, ES>,
            (
                signature,
                buffer,
                buffer_len,
                written_len,
                encode_signature,
            ),
        ),
        call_requires(
            pq_secret_key_serialize::<K, EK>,
            (
                sk,
                buffer,
                buffer_len,
                written_len,
                encode_secret_key,
            ),
        ),
        call_requires(
            write_bytes_to_buffer,
            (
                bytes,
                buffer,
                buffer_len,
                written_len,
            ),
        ),
{
}

/// A key or a signature may be read from any bytes and from any text, if their memory is there.
pub proof fn law_anything_may_be_read<
    P,
    S,
    K,
    DP: FnOnce(&[u8]) -> Option<P>,
    DS: FnOnce(&[u8]) -> Option<S>,
    DK: FnOnce(&[u8]) -> Option<XmssSecretKey<K>>,
    JP: FnOnce(&str) -> Option<P>,
    JS: FnOnce(&str) -> Option<S>,
    JK: FnOnce(&str) -> Option<XmssSecretKey<K>>,
>(
    buffer: Option<&[u8]>,
    buffer_len: usize,
    pk_out: Option<&mut Option<PQSignatureSchemePublicKey<P>>>,
    signature_out: Option<&mut Option<PQSignature<S>>>,
    sk_out: Option<&mut Option<PQSignatureSchemeSecretKey<K>>>,
    decode_public_key: DP,
    decode_signature: DS,
    decode_secret_key: DK,
    parse_public_key: JP,
    parse_signature: JS,
    parse_secret_key: JK,
)
    requires
        buffer matches Some(memory) ==> memory@.len() >= buffer_len,
        forall|encoded: &[u8]| call_requires(decode_public_key, (encoded,)),
        forall|encoded: &[u8]| call_requires(decode_signature, (encoded,)),
        forall|encoded: &[u8]| call_requires(decode_secret_key, (encoded,)),
        forall|text: &str| call_requires(parse_public_key, (text,)),
        forall|text: &str| call_requires(parse_signature, (text,)),
        forall|text: &str| call_requires(parse_secret_key, (text,)),
    ensures
        call_requires(
            pq_public_key_deserialize::<P, DP>,
            (
                buffer,
                buffer_len,
                pk_out,
                decode_public_key,
            ),
        ),
        call_requires(
            pq_signature_deserialize::<S, DS>,
            (
                buffer,
                buffer_len,
                signature_out,
                decode_signature,
            ),
        ),
        call_requires(
            pq_secret_key_deserialize::<K, DK>,
            (
                buffer,
                buffer_len,
                sk_out,
                decode_secret_key,
            ),
        ),
        call_requires(
            pq_public_key_from_json::<P, JP>,
            (
                buffer,
                buffer_len,
                pk_out,
                parse_public_key,
            ),
        ),
        call_requires(
            pq_signature_from_json::<S, JS>,
            (
                buffer,
                buffer_len,
                signature_out,
                parse_signature,
            ),
        ),
        call_requires(
            pq_secret_key_from_json::<K, JK>,
            (
                buffer,
                buffer_len,
                sk_out,
                parse_secret_key,
            ),
        ),
{
}

/// Epochs, signature bytes, keys and status codes may be asked about without condition, and a
/// message if its memory is there.
pub proof fn law_any_value_may_be_asked_about<
    K,
>(
    epoch: u64,
    bytes: &[u8],
    message: Option<&[u8]>,
    message_len: usize,
    key: Option<&PQSignatureSchemeSecretKey<K>>,
    error: PQSigningError,
    last_error: &mut LastError,
)
    requires
        message matches Some(memory) ==> message_len == 32 ==> memory@.len() >= 32,
    ensures
        call_requires(
            epoch_to_u32,
            (
                epoch,
            ),
        ),
        call_requires(
            normalize_signature_bytes,
            (
                bytes,
            ),
        ),
        call_requires(
            message_from_ptr,
            (
                message,
                message_len,
            ),
        ),
        call_requires(
            pq_get_activation_interval::<K>,
            (
                key,
            ),
        ),
        call_requires(
            pq_get_prepared_interval::<K>,
            (
                key,
            ),
        ),
        call_requires(
            pq_error_description,
            (
                error,
            ),
        ),
        call_requires(
            pq_take_last_error_message,
            (
                last_error,
            ),
        ),
{
}

/// Any block may be released and moved, a guard may be taken as long as they can be counted, and
/// any size may be asked for at any alignment that a block can have.
pub proof fn law_any_block_may_be_released(
    allocator: &mut WipingAllocator,
    allocation: &mut [u8],
    new_allocation: &mut [u8],
    asked: &WipingAllocator,
    align: usize,
    new_size: usize,
)
    requires
        old(allocator).guards() < usize::MAX,
        1 <= align <= isize::MAX + 1,
    ensures
        call_requires(
            WipingAllocator::dealloc,
            (
                allocator,
                allocation,
            ),
        ),
        call_requires(
            move_allocation,
            (
                allocation,
                new_allocation,
            ),
        ),
        call_requires(
            WipeDeallocationGuard::new,
            (
                allocator,
            ),
        ),
        call_requires(
            WipingAllocator::realloc,
            (
                asked,
                align,
                new_size,
            ),
        ),
{
}

} // verus!
