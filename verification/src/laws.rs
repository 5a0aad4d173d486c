//! Laws that hold between calls of the interface.
//!
//! A law that needs something of the scheme or of the proof system says what it needs as a
//! condition on their operations.
use vstd::prelude::*;
use crate::codec::{signature_read, value_read, value_written, value_written_if_encodable};
use crate::collect::{
    binding_refusal, bindings_collected, bound_message, children_collected, component_keys,
    components_valid, decode_answered, pointers_valid, public_keys, raw_input_taken,
    raw_inputs_collected, raw_inputs_unverified, raw_pairs, raw_pointers_valid,
};
use crate::error::PQSigningError;
use crate::handles::{
    MultiMessageAggregate, PQAggregatedSignatureChild, PQRawXmssSignature, PQSignature,
    PQSignatureSchemePublicKey, PQSignatureSchemeSecretKey, PQTypeTwoComponent,
    PQTypeTwoMessageBinding, SingleMessageAggregate, XmssSecretKey,
};
use crate::input::{
    is_padded_signature, law_padding_is_ignored, message_at, slot_of_epoch, zeros, MESSAGE_LENGTH,
    PUBLIC_KEY_SIZE, SIGNATURE_SIZE,
};
use crate::keys::{
    activation_interval, keys_handed_out, signing, signing_refusal, KeyGenAnswer, SignAnswer,
};
use crate::last_error::failure_detail;
use crate::memory::{bytes_answered, items, Output};
use crate::proving::{
    aggregation_answered, is_first_with, merge_answered, merge_outcome, multi_decode_answered,
    pairs_checked, proof_reported, raw_aggregation, raw_proving, raw_refusal,
    recursive_aggregation, recursive_aggregation_unverified, recursive_proving, recursive_refusal,
    refused, signed_pairs, split_outcome, split_refusal, CallState, ProvingAnswer,
};
use crate::verifying::{
    aggregate_verification, bytes_decode_answered, encoded_verification, info_matches,
    multi_judged, multi_verification, verification,
};

verus! {

/// The decoder gives back the value when it is asked about bytes of the encoder.
pub open spec fn decodes_to<T, E: FnOnce(&T) -> Vec<u8>, D: FnOnce(&[u8]) -> Option<T>>(
    value: T,
    encode: E,
    decode: D,
) -> bool {
    forall|bytes: Vec<u8>, encoded: &[u8], decoded: Option<T>|
        #![trigger call_ensures(encode, (&value,), bytes), call_ensures(decode, (encoded,), decoded)]
        call_ensures(encode, (&value,), bytes) && encoded@ == bytes@ && call_ensures(
            decode,
            (encoded,),
            decoded,
        ) ==> decoded == Some(value)
}

/// The same for an encoder that can fail.
pub open spec fn decodes_to_if_encodable<
    T,
    E: FnOnce(&T) -> Option<Vec<u8>>,
    D: FnOnce(&[u8]) -> Option<T>,
>(value: T, encode: E, decode: D) -> bool {
    forall|bytes: Vec<u8>, encoded: &[u8], decoded: Option<T>|
        #![trigger call_ensures(encode, (&value,), Some(bytes)), call_ensures(decode, (encoded,), decoded)]
        call_ensures(encode, (&value,), Some(bytes)) && encoded@ == bytes@ && call_ensures(
            decode,
            (encoded,),
            decoded,
        ) ==> decoded == Some(value)
}

/// A public key that was written reads back, if the scheme's decoder undoes its encoder.
pub proof fn law_public_key_reads_back<
    P,
    E: FnOnce(&P) -> Vec<u8>,
    D: FnOnce(&[u8]) -> Option<P>,
>(
    key: P,
    encode: E,
    decode: D,
    buffer_len: usize,
    before: Output,
    after: Output,
    out_before: Option<P>,
    out_after: Option<P>,
    status: PQSigningError,
)
    requires
        decodes_to(key, encode, decode),
        value_written(&key, encode, buffer_len, before, after, PQSigningError::Success),
        value_read(
            decode,
            after.buffer->0.take(after.written_len->0 as int),
            out_before,
            out_after,
            status,
        ),
    ensures
        status == PQSigningError::Success,
        out_after == Some(key),
{
    let bytes = choose|bytes: Vec<u8>| #[trigger]
        call_ensures(encode, (&key,), bytes) && bytes_answered(
            bytes@,
            buffer_len,
            before,
            after,
            PQSigningError::Success,
        );
    assert(after.buffer->0.take(after.written_len->0 as int) =~= bytes@);
}

/// A secret key that was written reads back, with the same activation interval, if the decoder
/// undoes the encoder.
pub proof fn law_secret_key_reads_back<
    K,
    E: FnOnce(&XmssSecretKey<K>) -> Option<Vec<u8>>,
    D: FnOnce(&[u8]) -> Option<XmssSecretKey<K>>,
>(
    key: XmssSecretKey<K>,
    encode: E,
    decode: D,
    buffer_len: usize,
    before: Output,
    after: Output,
    out_before: Option<XmssSecretKey<K>>,
    out_after: Option<XmssSecretKey<K>>,
    status: PQSigningError,
)
    requires
        decodes_to_if_encodable(key, encode, decode),
        value_written_if_encodable(
            &key,
            encode,
            buffer_len,
            before,
            after,
            PQSigningError::Success,
        ),
        value_read(
            decode,
            after.buffer->0.take(after.written_len->0 as int),
            out_before,
            out_after,
            status,
        ),
    ensures
        status == PQSigningError::Success,
        out_after == Some(key),
        activation_interval(Some(&PQSignatureSchemeSecretKey { inner: out_after->0 }))
            == activation_interval(Some(&PQSignatureSchemeSecretKey { inner: key })),
{
    let encoded = choose|encoded: Option<Vec<u8>>|
        {
            &&& #[trigger] call_ensures(encode, (&key,), encoded)
            &&& match encoded {
                None => false,
                Some(bytes) => bytes_answered(
                    bytes@,
                    buffer_len,
                    before,
                    after,
                    PQSigningError::Success,
                ),
            }
        };
    assert(after.buffer->0.take(after.written_len->0 as int) =~= encoded->0@);
}

/// A public key that was written has the one length of a public key, and a key that reads back from
/// it is written as the same bytes and gets the same verdicts, if the scheme's encoding has that
/// length and is a function, and its decoder undoes its encoder.
pub proof fn law_reread_public_key_is_as_good<
    P,
    S,
    E: FnOnce(&P) -> Vec<u8>,
    D: FnOnce(&[u8]) -> Option<P>,
    V: FnOnce(&P, u32, &[u8; MESSAGE_LENGTH], &S) -> bool,
>(
    key: P,
    encode: E,
    decode: D,
    buffer_len: usize,
    before: Output,
    after: Output,
    out_before: Option<P>,
    reread: P,
    again_len: usize,
    again_before: Output,
    again_after: Output,
    epoch: u64,
    message: Option<&[u8]>,
    message_len: usize,
    signature: Option<&PQSignature<S>>,
    xmss_verify: V,
    code: i32,
)
    requires
        decodes_to(key, encode, decode),
        forall|bytes: Vec<u8>| #[trigger]
            call_ensures(encode, (&key,), bytes) ==> bytes@.len() == PUBLIC_KEY_SIZE,
        forall|a: Vec<u8>, b: Vec<u8>| #[trigger]
            call_ensures(encode, (&key,), a) && #[trigger] call_ensures(encode, (&key,), b) ==> a@
                == b@,
        value_written(&key, encode, buffer_len, before, after, PQSigningError::Success),
        value_read(
            decode,
            after.buffer->0.take(after.written_len->0 as int),
            out_before,
            Some(reread),
            PQSigningError::Success,
        ),
        value_written(
            &reread,
            encode,
            again_len,
            again_before,
            again_after,
            PQSigningError::Success,
        ),
    ensures
        after.written_len == Some(PUBLIC_KEY_SIZE),
        again_after.written_len == after.written_len,
        again_after.buffer->0.take(PUBLIC_KEY_SIZE as int) == after.buffer->0.take(
            PUBLIC_KEY_SIZE as int,
        ),
        verification(
            Some(&PQSignatureSchemePublicKey { inner: reread }),
            epoch,
            message,
            message_len,
            signature,
            xmss_verify,
            code,
        ) == verification(
            Some(&PQSignatureSchemePublicKey { inner: key }),
            epoch,
            message,
            message_len,
            signature,
            xmss_verify,
            code,
        ),
{
    law_public_key_reads_back(
        key,
        encode,
        decode,
        buffer_len,
        before,
        after,
        out_before,
        Some(reread),
        PQSigningError::Success,
    );
    assert(after.buffer->0.take(PUBLIC_KEY_SIZE as int)
        =~= again_after.buffer->0.take(PUBLIC_KEY_SIZE as int));
}

/// A secret key that reads back from what was written is written as the same bytes, if the encoder
/// is a function and the decoder undoes it.
pub proof fn law_reread_secret_key_is_written_alike<
    K,
    E: FnOnce(&XmssSecretKey<K>) -> Option<Vec<u8>>,
    D: FnOnce(&[u8]) -> Option<XmssSecretKey<K>>,
>(
    key: XmssSecretKey<K>,
    encode: E,
    decode: D,
    buffer_len: usize,
    before: Output,
    after: Output,
    out_before: Option<XmssSecretKey<K>>,
    reread: XmssSecretKey<K>,
    again_len: usize,
    again_before: Output,
    again_after: Output,
)
    requires
        decodes_to_if_encodable(key, encode, decode),
        forall|a: Option<Vec<u8>>, b: Option<Vec<u8>>| #[trigger]
            call_ensures(encode, (&key,), a) && #[trigger] call_ensures(encode, (&key,), b) && a
                is Some && b is Some ==> a->0@ == b->0@,
        value_written_if_encodable(
            &key,
            encode,
            buffer_len,
            before,
            after,
            PQSigningError::Success,
        ),
        value_read(
            decode,
            after.buffer->0.take(after.written_len->0 as int),
            out_before,
            Some(reread),
            PQSigningError::Success,
        ),
        value_written_if_encodable(
            &reread,
            encode,
            again_len,
            again_before,
            again_after,
            PQSigningError::Success,
        ),
    ensures
        again_after.written_len == after.written_len,
        again_after.buffer->0.take(again_after.written_len->0 as int) == after.buffer->0.take(
            after.written_len->0 as int,
        ),
{
    law_secret_key_reads_back(
        key,
        encode,
        decode,
        buffer_len,
        before,
        after,
        out_before,
        Some(reread),
        PQSigningError::Success,
    );
    assert(again_after.buffer->0.take(again_after.written_len->0 as int)
        =~= after.buffer->0.take(after.written_len->0 as int));
}

/// A signature that was written reads back from any part of the buffer that holds it and, behind
/// it, nothing but zeros that were there before, if the scheme's encoding has the canonical
/// length and its decoder undoes its encoder.
pub proof fn law_signature_reads_back<
    S,
    E: FnOnce(&S) -> Vec<u8>,
    D: FnOnce(&[u8]) -> Option<S>,
>(
    signature: S,
    encode: E,
    decode: D,
    buffer_len: usize,
    before: Output,
    after: Output,
    read_len: usize,
    out_before: Option<S>,
    out_after: Option<S>,
    status: PQSigningError,
)
    requires
        decodes_to(signature, encode, decode),
        forall|bytes: Vec<u8>|
            #![trigger call_ensures(encode, (&signature,), bytes)]
            call_ensures(encode, (&signature,), bytes) ==> bytes@.len() == SIGNATURE_SIZE,
        before.buffer is Some,
        SIGNATURE_SIZE <= read_len <= before.buffer->0.len(),
        forall|i: int| SIGNATURE_SIZE <= i < read_len ==> before.buffer->0[i] == 0,
        value_written(&signature, encode, buffer_len, before, after, PQSigningError::Success),
        signature_read(
            decode,
            after.buffer->0.take(read_len as int),
            out_before,
            out_after,
            status,
        ),
    ensures
        status == PQSigningError::Success,
        out_after == Some(signature),
{
    let bytes = choose|bytes: Vec<u8>| #[trigger]
        call_ensures(encode, (&signature,), bytes) && bytes_answered(
            bytes@,
            buffer_len,
            before,
            after,
            PQSigningError::Success,
        );
    let read = after.buffer->0.take(read_len as int);
    assert(after.buffer->0 == bytes@ + before.buffer->0.skip(bytes@.len() as int));
    assert forall|i: int| SIGNATURE_SIZE <= i < read.len() implies read[i] == 0 by {
        assert(read[i] == before.buffer->0[i]);
    }
    assert(read.take(SIGNATURE_SIZE as int) =~= bytes@);
}

/// What was signed verifies for the same epoch and message, if the scheme accepts what it
/// signs.
pub proof fn law_signed_message_verifies<
    K,
    P,
    S,
    F: FnOnce(&XmssSecretKey<K>, u32, &[u8; MESSAGE_LENGTH]) -> SignAnswer<S>,
    V: FnOnce(&P, u32, &[u8; MESSAGE_LENGTH], &S) -> bool,
>(
    sk: &PQSignatureSchemeSecretKey<K>,
    pk: &PQSignatureSchemePublicKey<P>,
    epoch: u64,
    message: Option<&[u8]>,
    message_len: usize,
    xmss_sign: F,
    xmss_verify: V,
    before: Option<PQSignature<S>>,
    signature: PQSignature<S>,
    code: i32,
)
    requires
        forall|slot: u32, signed: [u8; MESSAGE_LENGTH], made: S, valid: bool|
            #![trigger call_ensures(xmss_sign, (&sk.inner, slot, &signed), Ok(Ok(made))), call_ensures(xmss_verify, (&pk.inner, slot, &signed, &made), valid)]
            call_ensures(xmss_sign, (&sk.inner, slot, &signed), Ok(Ok(made))) && call_ensures(
                xmss_verify,
                (&pk.inner, slot, &signed, &made),
                valid,
            ) ==> valid,
        signing(
            Some(sk),
            epoch,
            message,
            message_len,
            xmss_sign,
            before,
            Some(signature),
            PQSigningError::Success,
        ),
        verification(Some(pk), epoch, message, message_len, Some(&signature), xmss_verify, code),
    ensures
        code == 1,
{
}

/// A generated key pair does its work: the activation interval of the secret key is that of
/// the request, signing reaches the scheme for every epoch in it, and what is signed verifies.
///
/// The scheme has to give keys that can sign for the requested slots and no others, and to
/// accept with the public key what it signs with the secret key.
pub proof fn law_generated_keys_sign_and_verify<
    P,
    K,
    S,
    Y: FnOnce(u64, u64) -> KeyGenAnswer<P, K>,
    F: FnOnce(&XmssSecretKey<K>, u32, &[u8; MESSAGE_LENGTH]) -> SignAnswer<S>,
    V: FnOnce(&P, u32, &[u8; MESSAGE_LENGTH], &S) -> bool,
>(
    activation_epoch: usize,
    num_active_epochs: usize,
    xmss_key_gen: Y,
    answer: KeyGenAnswer<P, K>,
    pk_before: Option<PQSignatureSchemePublicKey<P>>,
    sk_before: Option<PQSignatureSchemeSecretKey<K>>,
    pk: PQSignatureSchemePublicKey<P>,
    sk: PQSignatureSchemeSecretKey<K>,
    epoch: u64,
    message: Option<&[u8]>,
    xmss_sign: F,
    xmss_verify: V,
    before: Option<PQSignature<S>>,
    signature: PQSignature<S>,
    code: i32,
)
    requires
        forall|public: P, secret: XmssSecretKey<K>| #[trigger]
            call_ensures(
                xmss_key_gen,
                (activation_epoch as u64, num_active_epochs as u64),
                Ok(Ok((public, secret))),
            ) ==> {
                &&& secret.first_slot == activation_epoch
                &&& secret.last_slot + 1 == activation_epoch + num_active_epochs
                &&& forall|slot: u32, signed: [u8; MESSAGE_LENGTH], made: S, valid: bool|
                    #![trigger call_ensures(xmss_sign, (&secret, slot, &signed), Ok(Ok(made))), call_ensures(xmss_verify, (&public, slot, &signed, &made), valid)]
                    call_ensures(xmss_sign, (&secret, slot, &signed), Ok(Ok(made)))
                        && call_ensures(xmss_verify, (&public, slot, &signed, &made), valid)
                        ==> valid
            },
        call_ensures(
            xmss_key_gen,
            (activation_epoch as u64, num_active_epochs as u64),
            answer,
        ),
        keys_handed_out(
            answer,
            pk_before,
            sk_before,
            Some(pk),
            Some(sk),
            PQSigningError::Success,
        ),
        message is Some,
    ensures
        activation_interval(Some(&sk)).start == activation_epoch,
        activation_interval(Some(&sk)).end == activation_epoch + num_active_epochs,
        activation_epoch <= epoch < activation_epoch + num_active_epochs ==> signing_refusal(
            Some(&sk),
            epoch,
            message,
            MESSAGE_LENGTH,
        ) is None,
        signing(
            Some(&sk),
            epoch,
            message,
            MESSAGE_LENGTH,
            xmss_sign,
            before,
            Some(signature),
            PQSigningError::Success,
        ) && verification(
            Some(&pk),
            epoch,
            message,
            MESSAGE_LENGTH,
            Some(&signature),
            xmss_verify,
            code,
        ) ==> code == 1,
{
}

/// Zeros behind an encoded signature make no difference to the verdict on it.
pub proof fn law_padding_does_not_change_the_verdict<
    P,
    S,
    K: FnOnce(&[u8]) -> Option<P>,
    G: FnOnce(&[u8]) -> Option<S>,
    V: FnOnce(&P, u32, &[u8; MESSAGE_LENGTH], &S) -> bool,
>(
    pubkey_bytes: Option<&[u8]>,
    pubkey_len: usize,
    epoch: u64,
    message: Option<&[u8]>,
    message_len: usize,
    signature_bytes: &[u8],
    padded_bytes: &[u8],
    padded_len: usize,
    decode_public_key: K,
    decode_signature: G,
    xmss_verify: V,
    code: i32,
)
    requires
        SIGNATURE_SIZE <= signature_bytes@.len(),
        SIGNATURE_SIZE <= padded_len <= padded_bytes@.len(),
        padded_bytes@.take(padded_len as int) == signature_bytes@.take(SIGNATURE_SIZE as int)
            + zeros((padded_len - SIGNATURE_SIZE) as nat),
    ensures
        encoded_verification(
            pubkey_bytes,
            pubkey_len,
            epoch,
            message,
            message_len,
            Some(padded_bytes),
            padded_len,
            decode_public_key,
            decode_signature,
            xmss_verify,
            code,
        ) == encoded_verification(
            pubkey_bytes,
            pubkey_len,
            epoch,
            message,
            message_len,
            Some(signature_bytes),
            SIGNATURE_SIZE,
            decode_public_key,
            decode_signature,
            xmss_verify,
            code,
        ),
{
    let signature = signature_bytes@.take(SIGNATURE_SIZE as int);
    law_padding_is_ignored(signature, (padded_len - SIGNATURE_SIZE) as nat);
    assert(items(Some(padded_bytes), SIGNATURE_SIZE) =~= items(
        Some(padded_bytes),
        padded_len,
    ).take(SIGNATURE_SIZE as int));
}

/// What was signed and written verifies in its encoded form for the same epoch and message, with
/// or without zeros behind the signature, if the scheme accepts the pair and its decoders undo its
/// encoders.
pub proof fn law_encoded_signature_verifies<
    P,
    S,
    EK: FnOnce(&P) -> Vec<u8>,
    EG: FnOnce(&S) -> Vec<u8>,
    K: FnOnce(&[u8]) -> Option<P>,
    G: FnOnce(&[u8]) -> Option<S>,
    V: FnOnce(&P, u32, &[u8; MESSAGE_LENGTH], &S) -> bool,
>(
    key: P,
    signature: S,
    encode_public_key: EK,
    encode_signature: EG,
    encoded_key: Vec<u8>,
    encoded_signature: Vec<u8>,
    pubkey_bytes: Option<&[u8]>,
    epoch: u64,
    message: Option<&[u8]>,
    signature_bytes: Option<&[u8]>,
    signature_len: usize,
    decode_public_key: K,
    decode_signature: G,
    xmss_verify: V,
    code: i32,
)
    requires
        decodes_to(key, encode_public_key, decode_public_key),
        decodes_to(signature, encode_signature, decode_signature),
        call_ensures(encode_public_key, (&key,), encoded_key),
        call_ensures(encode_signature, (&signature,), encoded_signature),
        forall|valid: bool| #[trigger]
            call_ensures(xmss_verify, (&key, epoch as u32, &message_at(message), &signature), valid)
                ==> valid,
        pubkey_bytes is Some,
        message is Some,
        signature_bytes is Some,
        slot_of_epoch(epoch) is Ok,
        items(pubkey_bytes, PUBLIC_KEY_SIZE) == encoded_key@,
        is_padded_signature(items(signature_bytes, signature_len)),
        items(signature_bytes, SIGNATURE_SIZE) == encoded_signature@,
        encoded_verification(
            pubkey_bytes,
            PUBLIC_KEY_SIZE,
            epoch,
            message,
            MESSAGE_LENGTH,
            signature_bytes,
            signature_len,
            decode_public_key,
            decode_signature,
            xmss_verify,
            code,
        ),
    ensures
        code == 1,
{
}

/// The proof system accepts, for these public keys and as about `message` in `slot`, what it
/// makes of these earlier aggregates and these signatures.
pub open spec fn proves_soundly<
    'a,
    P,
    S,
    C,
    T,
    A: FnOnce(Vec<C>, Vec<(&'a P, &'a S)>, [u8; MESSAGE_LENGTH], u32, usize) -> ProvingAnswer,
    D: Fn(&[u8], Vec<&'a P>) -> Option<SingleMessageAggregate<T>>,
    W: FnOnce(&SingleMessageAggregate<T>) -> bool,
>(
    aggregate: A,
    decode: D,
    verify_type_1: W,
    keys: Seq<&'a P>,
    children: Seq<C>,
    pairs: Seq<(&'a P, &'a S)>,
    message: [u8; MESSAGE_LENGTH],
    slot: u32,
    log_inv_rate: usize,
) -> bool {
    forall|bytes: Vec<u8>, decoded: Option<SingleMessageAggregate<T>>|
        #![trigger aggregation_answered(aggregate, children, pairs, message, slot, log_inv_rate, Ok(Ok(bytes))), decode_answered(decode, bytes@, keys, decoded)]
        aggregation_answered(
            aggregate,
            children,
            pairs,
            message,
            slot,
            log_inv_rate,
            Ok(Ok(bytes)),
        ) && decode_answered(decode, bytes@, keys, decoded) ==> {
            &&& decoded is Some
            &&& decoded->0.info.message == message
            &&& decoded->0.info.slot == slot
            &&& forall|valid: bool| #[trigger]
                call_ensures(verify_type_1, (&decoded->0,), valid) ==> valid
        }
}

/// An aggregate that was made of signatures verifies for the same public keys, message and
/// epoch, whether the signatures were verified before or not, if the proof system accepts what
/// it makes.
pub proof fn law_aggregate_verifies<
    'a,
    P,
    S,
    C,
    T,
    V: Fn(&P, u32, &[u8; MESSAGE_LENGTH], &S) -> bool,
    A: FnOnce(Vec<C>, Vec<(&'a P, &'a S)>, [u8; MESSAGE_LENGTH], u32, usize) -> ProvingAnswer,
    D: Fn(&[u8], Vec<&'a P>) -> Option<SingleMessageAggregate<T>>,
    W: FnOnce(&SingleMessageAggregate<T>) -> bool,
>(
    pubkeys: Option<&'a [Option<&'a PQSignatureSchemePublicKey<P>>]>,
    signatures: Option<&'a [Option<&'a PQSignature<S>>]>,
    count: usize,
    message: Option<&[u8]>,
    message_len: usize,
    epoch: u64,
    log_inv_rate: usize,
    buffer_len: usize,
    xmss_verify: V,
    aggregate: A,
    before: CallState,
    after: CallState,
    agg_bytes: Option<&[u8]>,
    agg_len: usize,
    decode: D,
    verify_type_1: W,
    code: i32,
)
    requires
        proves_soundly(
            aggregate,
            decode,
            verify_type_1,
            public_keys(pubkeys, count),
            Seq::<C>::empty(),
            signed_pairs(pubkeys, signatures, count),
            message_at(message),
            epoch as u32,
            log_inv_rate,
        ),
        raw_aggregation(
            pubkeys,
            signatures,
            count,
            message,
            message_len,
            epoch,
            log_inv_rate,
            buffer_len,
            true,
            xmss_verify,
            aggregate,
            before,
            after,
            PQSigningError::Success,
        ) || raw_proving(
            true,
            pubkeys,
            signatures,
            count,
            message,
            message_len,
            epoch,
            log_inv_rate,
            buffer_len,
            aggregate,
            before,
            after,
            PQSigningError::Success,
        ),
        agg_bytes is Some,
        items(agg_bytes, agg_len) == after.output.buffer->0.take(
            after.output.written_len->0 as int,
        ),
        aggregate_verification(
            pubkeys,
            count,
            message,
            message_len,
            agg_bytes,
            agg_len,
            epoch,
            decode,
            verify_type_1,
            code,
        ),
    ensures
        code == 1,
{
    let answer = choose|answer: ProvingAnswer|
        {
            &&& #[trigger] aggregation_answered(
                aggregate,
                Seq::<C>::empty(),
                signed_pairs(pubkeys, signatures, count),
                message_at(message),
                epoch as u32,
                log_inv_rate,
                answer,
            )
            &&& proof_reported(
                answer,
                "aggregate_type_1"@,
                buffer_len,
                before,
                after,
                PQSigningError::Success,
            )
        };
    let bytes = answer->Ok_0->Ok_0;
    assert(answer == Ok::<Result<Vec<u8>, String>, ()>(Ok(bytes)));
    assert(items(agg_bytes, agg_len) =~= bytes@);
}

/// A signature is called valid only when the scheme accepted it, for the key, the epoch and
/// the message of the request.
pub proof fn law_valid_signature_was_accepted<
    P,
    S,
    V: FnOnce(&P, u32, &[u8; MESSAGE_LENGTH], &S) -> bool,
>(
    pk: Option<&PQSignatureSchemePublicKey<P>>,
    epoch: u64,
    message: Option<&[u8]>,
    message_len: usize,
    signature: Option<&PQSignature<S>>,
    xmss_verify: V,
    code: i32,
)
    requires
        verification(pk, epoch, message, message_len, signature, xmss_verify, code),
        code == 1,
    ensures
        pk is Some && signature is Some && message is Some,
        epoch <= u32::MAX,
        message_len == MESSAGE_LENGTH,
        call_ensures(
            xmss_verify,
            (&pk->0.inner, epoch as u32, &message_at(message), &signature->0.inner),
            true,
        ),
{
}

/// An encoded signature is called valid only when both it and the public key decoded and the
/// scheme accepted them for the epoch and the message of the request.
pub proof fn law_valid_encoded_signature_was_accepted<
    P,
    S,
    K: FnOnce(&[u8]) -> Option<P>,
    G: FnOnce(&[u8]) -> Option<S>,
    V: FnOnce(&P, u32, &[u8; MESSAGE_LENGTH], &S) -> bool,
>(
    pubkey_bytes: Option<&[u8]>,
    pubkey_len: usize,
    epoch: u64,
    message: Option<&[u8]>,
    message_len: usize,
    signature_bytes: Option<&[u8]>,
    signature_len: usize,
    decode_public_key: K,
    decode_signature: G,
    xmss_verify: V,
    code: i32,
)
    requires
        encoded_verification(
            pubkey_bytes,
            pubkey_len,
            epoch,
            message,
            message_len,
            signature_bytes,
            signature_len,
            decode_public_key,
            decode_signature,
            xmss_verify,
            code,
        ),
        code == 1,
    ensures
        is_padded_signature(items(signature_bytes, signature_len)),
        exists|key: P, signature: S|
            {
                &&& bytes_decode_answered(
                    decode_public_key,
                    items(pubkey_bytes, pubkey_len),
                    Some(key),
                )
                &&& bytes_decode_answered(
                    decode_signature,
                    items(signature_bytes, SIGNATURE_SIZE),
                    Some(signature),
                )
                &&& #[trigger] call_ensures(
                    xmss_verify,
                    (&key, epoch as u32, &message_at(message), &signature),
                    true,
                )
            },
{
}

/// A single-message aggregate is called valid only when it decoded as one about the message
/// and the epoch of the request and the proof system accepted it.
pub proof fn law_valid_aggregate_was_accepted<
    'a,
    P,
    T,
    D: Fn(&[u8], Vec<&'a P>) -> Option<SingleMessageAggregate<T>>,
    W: FnOnce(&SingleMessageAggregate<T>) -> bool,
>(
    pubkeys: Option<&'a [Option<&'a PQSignatureSchemePublicKey<P>>]>,
    count: usize,
    message: Option<&[u8]>,
    message_len: usize,
    agg_bytes: Option<&[u8]>,
    agg_len: usize,
    epoch: u64,
    decode: D,
    verify_type_1: W,
    code: i32,
)
    requires
        aggregate_verification(
            pubkeys,
            count,
            message,
            message_len,
            agg_bytes,
            agg_len,
            epoch,
            decode,
            verify_type_1,
            code,
        ),
        code == 1,
    ensures
        pointers_valid(pubkeys, count),
        exists|aggregated: SingleMessageAggregate<T>|
            {
                &&& decode_answered(
                    decode,
                    items(agg_bytes, agg_len),
                    public_keys(pubkeys, count),
                    Some(aggregated),
                )
                &&& aggregated.info.message == message_at(message)
                &&& aggregated.info.slot == epoch
                &&& #[trigger] call_ensures(verify_type_1, (&aggregated,), true)
            },
{
}

/// A multi-message aggregate is called valid only when it decoded, says was signed what every
/// binding of the request expects, and the proof system accepted it.
pub proof fn law_valid_multi_aggregate_was_accepted<
    'a,
    P,
    T,
    D: Fn(&[u8], Vec<Vec<&'a P>>) -> Option<MultiMessageAggregate<T>>,
    W: FnOnce(&MultiMessageAggregate<T>) -> bool,
>(
    components: Option<&'a [PQTypeTwoComponent<'a, P>]>,
    component_count: usize,
    bindings: Option<&'a [PQTypeTwoMessageBinding<'a>]>,
    binding_count: usize,
    type2_bytes: Option<&[u8]>,
    type2_len: usize,
    decode: D,
    verify_type_2: W,
    code: i32,
)
    requires
        multi_verification(
            components,
            component_count,
            bindings,
            binding_count,
            type2_bytes,
            type2_len,
            decode,
            verify_type_2,
            code,
        ),
        code == 1,
    ensures
        exists|type2: MultiMessageAggregate<T>|
            {
                &&& multi_decode_answered(
                    decode,
                    items(type2_bytes, type2_len),
                    component_keys(components, component_count),
                    Some(type2),
                )
                &&& type2.info@.len() == binding_count
                &&& forall|i: int|
                    0 <= i < binding_count ==> {
                        &&& (#[trigger] type2.info@[i]).message == message_at(
                            bindings->0@[i].message,
                        )
                        &&& type2.info@[i].slot == bindings->0@[i].epoch
                    }
                &&& #[trigger] call_ensures(verify_type_2, (&type2,), true)
            },
{
    let collected = choose|collected: Result<Seq<([u8; MESSAGE_LENGTH], u32)>, PQSigningError>|
        {
            &&& #[trigger] bindings_collected(bindings, binding_count, collected)
            &&& match collected {
                Err(_) => code == -4,
                Ok(expected) => exists|decoded: Option<MultiMessageAggregate<T>>|
                    {
                        &&& #[trigger] multi_decode_answered(
                            decode,
                            items(type2_bytes, type2_len),
                            component_keys(components, component_count),
                            decoded,
                        )
                        &&& match decoded {
                            None => code == -5,
                            Some(type2) => multi_judged(type2, expected, verify_type_2, code),
                        }
                    },
            }
        };
    let expected = collected->Ok_0;
    let decoded = choose|decoded: Option<MultiMessageAggregate<T>>|
        {
            &&& #[trigger] multi_decode_answered(
                decode,
                items(type2_bytes, type2_len),
                component_keys(components, component_count),
                decoded,
            )
            &&& match decoded {
                None => code == -5,
                Some(type2) => multi_judged(type2, expected, verify_type_2, code),
            }
        };
    let type2 = decoded->0;
    assert(info_matches(type2.info@, expected));
    assert forall|i: int| 0 <= i < binding_count implies {
        &&& (#[trigger] type2.info@[i]).message == message_at(bindings->0@[i].message)
        &&& type2.info@[i].slot == bindings->0@[i].epoch
    } by {
        assert(binding_refusal(bindings->0@[i]) is None);
    }
    assert(call_ensures(verify_type_2, (&type2,), true));
}

/// An aggregate that was made of signatures and earlier aggregates verifies for the same
/// message and epoch and the public keys of all its signers, whether the signatures were
/// verified before or not, if the proof system accepts what it makes.
pub proof fn law_recursive_aggregate_verifies<
    'a,
    P,
    S,
    C,
    T,
    V: Fn(&P, u32, &[u8; MESSAGE_LENGTH], &S) -> bool,
    E: Fn(&[u8], Vec<&'a P>) -> Option<C>,
    A: FnOnce(Vec<C>, Vec<(&'a P, &'a S)>, [u8; MESSAGE_LENGTH], u32, usize) -> ProvingAnswer,
    D: Fn(&[u8], Vec<&'a P>) -> Option<SingleMessageAggregate<T>>,
    W: FnOnce(&SingleMessageAggregate<T>) -> bool,
>(
    children: Option<&'a [PQAggregatedSignatureChild<'a, P>]>,
    child_count: usize,
    raw_xmss: Option<&'a [PQRawXmssSignature<'a, P, S>]>,
    raw_xmss_count: usize,
    message: Option<&[u8]>,
    message_len: usize,
    epoch: u64,
    log_inv_rate: usize,
    buffer_len: usize,
    xmss_verify: V,
    decode_child: E,
    aggregate: A,
    before: CallState,
    after: CallState,
    pubkeys: Option<&'a [Option<&'a PQSignatureSchemePublicKey<P>>]>,
    count: usize,
    agg_bytes: Option<&[u8]>,
    agg_len: usize,
    decode: D,
    verify_type_1: W,
    code: i32,
)
    requires
        forall|decoded_children: Seq<C>| #[trigger]
            children_collected(children, child_count, decode_child, Ok(decoded_children))
                ==> proves_soundly(
                aggregate,
                decode,
                verify_type_1,
                public_keys(pubkeys, count),
                decoded_children,
                raw_pairs(raw_xmss, raw_xmss_count),
                message_at(message),
                epoch as u32,
                log_inv_rate,
            ),
        recursive_aggregation(
            children,
            child_count,
            raw_xmss,
            raw_xmss_count,
            message,
            message_len,
            epoch,
            log_inv_rate,
            buffer_len,
            true,
            xmss_verify,
            decode_child,
            aggregate,
            before,
            after,
            PQSigningError::Success,
        ) || recursive_aggregation_unverified(
            children,
            child_count,
            raw_xmss,
            raw_xmss_count,
            message,
            message_len,
            epoch,
            log_inv_rate,
            buffer_len,
            decode_child,
            aggregate,
            before,
            after,
            PQSigningError::Success,
        ),
        pubkeys is Some,
        pointers_valid(pubkeys, count),
        agg_bytes is Some,
        items(agg_bytes, agg_len) == after.output.buffer->0.take(
            after.output.written_len->0 as int,
        ),
        aggregate_verification(
            pubkeys,
            count,
            message,
            message_len,
            agg_bytes,
            agg_len,
            epoch,
            decode,
            verify_type_1,
            code,
        ),
    ensures
        code == 1,
{
    let pairs = raw_pairs(raw_xmss, raw_xmss_count);
    assert(recursive_proving(
        Ok(pairs),
        children,
        child_count,
        message_at(message),
        epoch as u32,
        log_inv_rate,
        buffer_len,
        decode_child,
        aggregate,
        before,
        after,
        PQSigningError::Success,
    ));
    let child_inputs = choose|child_inputs: Result<Seq<C>, PQSigningError>|
        {
            &&& #[trigger] children_collected(children, child_count, decode_child, child_inputs)
            &&& match child_inputs {
                Err(refusal) => false,
                Ok(decoded) => exists|answer: ProvingAnswer|
                    {
                        &&& #[trigger] aggregation_answered(
                            aggregate,
                            decoded,
                            pairs,
                            message_at(message),
                            epoch as u32,
                            log_inv_rate,
                            answer,
                        )
                        &&& proof_reported(
                            answer,
                            "aggregate_type_1"@,
                            buffer_len,
                            before,
                            after,
                            PQSigningError::Success,
                        )
                    },
            }
        };
    let decoded = child_inputs->Ok_0;
    let answer = choose|answer: ProvingAnswer|
        {
            &&& #[trigger] aggregation_answered(
                aggregate,
                decoded,
                pairs,
                message_at(message),
                epoch as u32,
                log_inv_rate,
                answer,
            )
            &&& proof_reported(
                answer,
                "aggregate_type_1"@,
                buffer_len,
                before,
                after,
                PQSigningError::Success,
            )
        };
    let bytes = answer->Ok_0->Ok_0;
    assert(answer == Ok::<Result<Vec<u8>, String>, ()>(Ok(bytes)));
    assert(items(agg_bytes, agg_len) =~= bytes@);
}

/// The proof system accepts, for the public keys of these components and as about `expected`,
/// what it makes of these aggregates.
pub open spec fn merges_soundly<
    'a,
    P,
    C,
    T,
    M: FnOnce(Vec<C>, usize) -> ProvingAnswer,
    D: Fn(&[u8], Vec<Vec<&'a P>>) -> Option<MultiMessageAggregate<T>>,
    W: FnOnce(&MultiMessageAggregate<T>) -> bool,
>(
    merge: M,
    decode: D,
    verify_type_2: W,
    keys: Seq<Seq<&'a P>>,
    entries: Seq<C>,
    expected: Seq<([u8; MESSAGE_LENGTH], u32)>,
    log_inv_rate: usize,
) -> bool {
    forall|bytes: Vec<u8>, decoded: Option<MultiMessageAggregate<T>>|
        #![trigger merge_answered(merge, entries, log_inv_rate, Ok(Ok(bytes))), multi_decode_answered(decode, bytes@, keys, decoded)]
        merge_answered(merge, entries, log_inv_rate, Ok(Ok(bytes))) && multi_decode_answered(
            decode,
            bytes@,
            keys,
            decoded,
        ) ==> {
            &&& decoded is Some
            &&& info_matches(decoded->0.info@, expected)
            &&& forall|valid: bool| #[trigger]
                call_ensures(verify_type_2, (&decoded->0,), valid) ==> valid
        }
}

/// An aggregate that was merged verifies for the public keys, the messages and the epochs of
/// what it was merged of, if the proof system accepts what it makes.
pub proof fn law_merged_aggregate_verifies<
    'a,
    P,
    C,
    T,
    E: Fn(&[u8], Vec<&'a P>) -> Option<C>,
    M: FnOnce(Vec<C>, usize) -> ProvingAnswer,
    D: Fn(&[u8], Vec<Vec<&'a P>>) -> Option<MultiMessageAggregate<T>>,
    W: FnOnce(&MultiMessageAggregate<T>) -> bool,
>(
    entries: Option<&'a [PQAggregatedSignatureChild<'a, P>]>,
    entry_count: usize,
    log_inv_rate: usize,
    buffer_len: usize,
    decode_entry: E,
    merge: M,
    before: CallState,
    after: CallState,
    components: Option<&'a [PQTypeTwoComponent<'a, P>]>,
    bindings: &'a [PQTypeTwoMessageBinding<'a>],
    count: usize,
    type2_bytes: Option<&[u8]>,
    type2_len: usize,
    decode: D,
    verify_type_2: W,
    code: i32,
)
    requires
        forall|decoded_entries: Seq<C>| #[trigger]
            children_collected(entries, entry_count, decode_entry, Ok(decoded_entries))
                ==> merges_soundly(
                merge,
                decode,
                verify_type_2,
                component_keys(components, count),
                decoded_entries,
                Seq::new(count as nat, |i: int| bound_message(bindings@[i])),
                log_inv_rate,
            ),
        merge_outcome(
            entries,
            entry_count,
            log_inv_rate,
            buffer_len,
            decode_entry,
            merge,
            before,
            after,
            PQSigningError::Success,
        ),
        components is Some,
        components_valid(components, count),
        forall|i: int| 0 <= i < count ==> binding_refusal(#[trigger] bindings@[i]) is None,
        type2_bytes is Some,
        items(type2_bytes, type2_len) == after.output.buffer->0.take(
            after.output.written_len->0 as int,
        ),
        multi_verification(
            components,
            count,
            Some(bindings),
            count,
            type2_bytes,
            type2_len,
            decode,
            verify_type_2,
            code,
        ),
    ensures
        code == 1,
{
    let collected = choose|collected: Result<Seq<C>, PQSigningError>|
        {
            &&& #[trigger] children_collected(entries, entry_count, decode_entry, collected)
            &&& match collected {
                Err(_) => false,
                Ok(decoded) => exists|answer: ProvingAnswer|
                    {
                        &&& #[trigger] merge_answered(merge, decoded, log_inv_rate, answer)
                        &&& proof_reported(
                            answer,
                            "merge_many_type_1"@,
                            buffer_len,
                            before,
                            after,
                            PQSigningError::Success,
                        )
                    },
            }
        };
    let decoded_entries = collected->Ok_0;
    let answer = choose|answer: ProvingAnswer|
        {
            &&& #[trigger] merge_answered(merge, decoded_entries, log_inv_rate, answer)
            &&& proof_reported(
                answer,
                "merge_many_type_1"@,
                buffer_len,
                before,
                after,
                PQSigningError::Success,
            )
        };
    let bytes = answer->Ok_0->Ok_0;
    assert(answer == Ok::<Result<Vec<u8>, String>, ()>(Ok(bytes)));
    assert(items(type2_bytes, type2_len) =~= bytes@);
    let bound = Seq::new(count as nat, |i: int| bound_message(bindings@[i]));
    assert forall|expected: Result<Seq<([u8; MESSAGE_LENGTH], u32)>, PQSigningError>| #[trigger]
        bindings_collected(Some(bindings), count, expected) implies expected == Ok::<
        Seq<([u8; MESSAGE_LENGTH], u32)>,
        PQSigningError,
    >(bound) by {
        assert(expected is Ok);
        assert forall|i: int| 0 <= i < count implies expected->Ok_0[i] == bound[i] by {
            assert(binding_refusal(bindings@[i]) is None);
        }
        assert(expected->Ok_0 =~= bound);
    }
}

/// The proof system accepts, for these public keys, what it makes of the first place of a message
/// in a multi-message aggregate, as about the message and the slot of that place.
pub open spec fn splits_soundly<
    'a,
    P,
    T,
    U,
    X: FnOnce(MultiMessageAggregate<T>, usize, usize) -> ProvingAnswer,
    D: Fn(&[u8], Vec<&'a P>) -> Option<SingleMessageAggregate<U>>,
    W: FnOnce(&SingleMessageAggregate<U>) -> bool,
>(
    split: X,
    decode: D,
    verify_type_1: W,
    keys: Seq<&'a P>,
    type2: MultiMessageAggregate<T>,
    message: [u8; MESSAGE_LENGTH],
    log_inv_rate: usize,
) -> bool {
    forall|index: usize, bytes: Vec<u8>, decoded: Option<SingleMessageAggregate<U>>|
        #![trigger call_ensures(split, (type2, index, log_inv_rate), Ok(Ok(bytes))), decode_answered(decode, bytes@, keys, decoded)]
        is_first_with(type2.info@, message, index as int) && call_ensures(
            split,
            (type2, index, log_inv_rate),
            Ok(Ok(bytes)),
        ) && decode_answered(decode, bytes@, keys, decoded) ==> {
            &&& decoded is Some
            &&& decoded->0.info == type2.info@[index as int]
            &&& forall|valid: bool| #[trigger]
                call_ensures(verify_type_1, (&decoded->0,), valid) ==> valid
        }
}

/// An aggregate that was split off verifies for the message that was asked for and for the
/// epoch that the multi-message aggregate has in the first place of that message, if the proof
/// system accepts what it makes.
pub proof fn law_split_aggregate_verifies<
    'a,
    P,
    T,
    U,
    E: Fn(&[u8], Vec<Vec<&'a P>>) -> Option<MultiMessageAggregate<T>>,
    X: FnOnce(MultiMessageAggregate<T>, usize, usize) -> ProvingAnswer,
    D: Fn(&[u8], Vec<&'a P>) -> Option<SingleMessageAggregate<U>>,
    W: FnOnce(&SingleMessageAggregate<U>) -> bool,
>(
    components: Option<&'a [PQTypeTwoComponent<'a, P>]>,
    component_count: usize,
    type2_bytes: Option<&[u8]>,
    type2_len: usize,
    message: Option<&[u8]>,
    message_len: usize,
    log_inv_rate: usize,
    buffer_len: usize,
    decode_multi: E,
    split: X,
    before: CallState,
    after: CallState,
    pubkeys: Option<&'a [Option<&'a PQSignatureSchemePublicKey<P>>]>,
    count: usize,
    epoch: u64,
    agg_bytes: Option<&[u8]>,
    agg_len: usize,
    decode: D,
    verify_type_1: W,
    code: i32,
)
    requires
        forall|type2: MultiMessageAggregate<T>| #[trigger]
            multi_decode_answered(
                decode_multi,
                items(type2_bytes, type2_len),
                component_keys(components, component_count),
                Some(type2),
            ) ==> {
                &&& splits_soundly(
                    split,
                    decode,
                    verify_type_1,
                    public_keys(pubkeys, count),
                    type2,
                    message_at(message),
                    log_inv_rate,
                )
                &&& forall|index: int| #[trigger]
                    is_first_with(type2.info@, message_at(message), index)
                        ==> type2.info@[index].slot == epoch
            },
        split_outcome(
            components,
            component_count,
            type2_bytes,
            type2_len,
            message,
            message_len,
            log_inv_rate,
            buffer_len,
            decode_multi,
            split,
            before,
            after,
            PQSigningError::Success,
        ),
        pubkeys is Some,
        pointers_valid(pubkeys, count),
        agg_bytes is Some,
        items(agg_bytes, agg_len) == after.output.buffer->0.take(
            after.output.written_len->0 as int,
        ),
        aggregate_verification(
            pubkeys,
            count,
            message,
            message_len,
            agg_bytes,
            agg_len,
            epoch,
            decode,
            verify_type_1,
            code,
        ),
    ensures
        code == 1,
{
    let wanted = message_at(message);
    let decoded = choose|decoded: Option<MultiMessageAggregate<T>>|
        {
            &&& #[trigger] multi_decode_answered(
                decode_multi,
                items(type2_bytes, type2_len),
                component_keys(components, component_count),
                decoded,
            )
            &&& match decoded {
                None => false,
                Some(type2) => exists|index: usize, answer: ProvingAnswer|
                    {
                        &&& is_first_with(type2.info@, wanted, index as int)
                        &&& #[trigger] call_ensures(split, (type2, index, log_inv_rate), answer)
                        &&& proof_reported(
                            answer,
                            "split_multi_message_aggregate"@,
                            buffer_len,
                            before,
                            after,
                            PQSigningError::Success,
                        )
                    },
            }
        };
    let type2 = decoded->0;
    let (index, answer) = choose|index: usize, answer: ProvingAnswer|
        {
            &&& is_first_with(type2.info@, wanted, index as int)
            &&& #[trigger] call_ensures(split, (type2, index, log_inv_rate), answer)
            &&& proof_reported(
                answer,
                "split_multi_message_aggregate"@,
                buffer_len,
                before,
                after,
                PQSigningError::Success,
            )
        };
    let bytes = answer->Ok_0->Ok_0;
    assert(answer == Ok::<Result<Vec<u8>, String>, ()>(Ok(bytes)));
    assert(items(agg_bytes, agg_len) =~= bytes@);
}

/// No message of another length than the one length is ever signed, aggregated, expected in a
/// multi-message aggregate or split off one: every such request is refused before the scheme
/// or the proof system is asked.
pub proof fn law_other_message_lengths_are_refused<'a, K, P, S>(
    sk: Option<&PQSignatureSchemeSecretKey<K>>,
    pubkeys: Option<&'a [Option<&'a PQSignatureSchemePublicKey<P>>]>,
    signatures: Option<&'a [Option<&'a PQSignature<S>>]>,
    count: usize,
    children: Option<&'a [PQAggregatedSignatureChild<'a, P>]>,
    child_count: usize,
    raw_xmss: Option<&'a [PQRawXmssSignature<'a, P, S>]>,
    raw_xmss_count: usize,
    components: Option<&'a [PQTypeTwoComponent<'a, P>]>,
    component_count: usize,
    type2_bytes: Option<&[u8]>,
    message: Option<&'a [u8]>,
    message_len: usize,
    epoch: u64,
    output: Output,
)
    requires
        message_len != MESSAGE_LENGTH,
    ensures
        signing_refusal(sk, epoch, message, message_len) is Some,
        raw_refusal(pubkeys, signatures, count, message, message_len, epoch) is Some,
        recursive_refusal(
            children,
            child_count,
            raw_xmss,
            raw_xmss_count,
            message,
            message_len,
            epoch,
            output,
        ) is Some,
        split_refusal(
            components,
            component_count,
            type2_bytes,
            message,
            message_len,
            output,
        ) is Some,
        binding_refusal((PQTypeTwoMessageBinding { message, message_len, epoch })) is Some,
{
}

/// Nothing is checked against a message of another length than the one length: every such
/// request is answered with a negative number.
pub proof fn law_other_message_lengths_are_not_checked<
    'a,
    P,
    S,
    T,
    K: FnOnce(&[u8]) -> Option<P>,
    G: FnOnce(&[u8]) -> Option<S>,
    V: FnOnce(&P, u32, &[u8; MESSAGE_LENGTH], &S) -> bool,
    D: Fn(&[u8], Vec<&'a P>) -> Option<SingleMessageAggregate<T>>,
    W: FnOnce(&SingleMessageAggregate<T>) -> bool,
>(
    pk: Option<&PQSignatureSchemePublicKey<P>>,
    signature: Option<&PQSignature<S>>,
    pubkey_bytes: Option<&[u8]>,
    pubkey_len: usize,
    signature_bytes: Option<&[u8]>,
    signature_len: usize,
    pubkeys: Option<&'a [Option<&'a PQSignatureSchemePublicKey<P>>]>,
    count: usize,
    agg_bytes: Option<&[u8]>,
    agg_len: usize,
    message: Option<&[u8]>,
    message_len: usize,
    epoch: u64,
    decode_public_key: K,
    decode_signature: G,
    xmss_verify: V,
    decode: D,
    verify_type_1: W,
    code: i32,
)
    requires
        message_len != MESSAGE_LENGTH,
        verification(pk, epoch, message, message_len, signature, xmss_verify, code)
            || encoded_verification(
            pubkey_bytes,
            pubkey_len,
            epoch,
            message,
            message_len,
            signature_bytes,
            signature_len,
            decode_public_key,
            decode_signature,
            xmss_verify,
            code,
        ) || aggregate_verification(
            pubkeys,
            count,
            message,
            message_len,
            agg_bytes,
            agg_len,
            epoch,
            decode,
            verify_type_1,
            code,
        ),
    ensures
        code < 0,
{
}

/// What a proving call leaves behind, whatever it comes to: a buffer is changed only by a
/// call that succeeds, and a detail is left only by a refusal of the proof system, with its
/// words, and nothing else.
pub open spec fn leaves_in_order(
    stage: Seq<char>,
    before: CallState,
    after: CallState,
    status: PQSigningError,
) -> bool {
    &&& status != PQSigningError::Success ==> after.output.buffer == before.output.buffer
    &&& after.detail != before.detail ==> {
        &&& status == PQSigningError::UnknownError
        &&& after.output == before.output
        &&& exists|err: Seq<char>| after.detail == Some(#[trigger] failure_detail(stage, err))
    }
}

/// An aggregation of signatures alone, with or without verified inputs, changes the buffer
/// only if it succeeds, and leaves a detail only if the proof system refuses.
pub proof fn law_raw_aggregation_leaves_in_order<
    'a,
    P,
    S,
    C,
    V: Fn(&P, u32, &[u8; MESSAGE_LENGTH], &S) -> bool,
    A: FnOnce(Vec<C>, Vec<(&'a P, &'a S)>, [u8; MESSAGE_LENGTH], u32, usize) -> ProvingAnswer,
>(
    pubkeys: Option<&'a [Option<&'a PQSignatureSchemePublicKey<P>>]>,
    signatures: Option<&'a [Option<&'a PQSignature<S>>]>,
    count: usize,
    message: Option<&[u8]>,
    message_len: usize,
    epoch: u64,
    log_inv_rate: usize,
    buffer_len: usize,
    xmss_verify: V,
    aggregate: A,
    before: CallState,
    after: CallState,
    status: PQSigningError,
)
    requires
        raw_aggregation(
            pubkeys,
            signatures,
            count,
            message,
            message_len,
            epoch,
            log_inv_rate,
            buffer_len,
            true,
            xmss_verify,
            aggregate,
            before,
            after,
            status,
        ) || raw_proving(
            true,
            pubkeys,
            signatures,
            count,
            message,
            message_len,
            epoch,
            log_inv_rate,
            buffer_len,
            aggregate,
            before,
            after,
            status,
        ),
    ensures
        leaves_in_order("aggregate_type_1"@, before, after, status),
{
}

/// The same of an aggregation on top of earlier aggregates, with or without verified inputs.
pub proof fn law_recursive_aggregation_leaves_in_order<
    'a,
    P,
    S,
    C,
    V: Fn(&P, u32, &[u8; MESSAGE_LENGTH], &S) -> bool,
    D: Fn(&[u8], Vec<&'a P>) -> Option<C>,
    A: FnOnce(Vec<C>, Vec<(&'a P, &'a S)>, [u8; MESSAGE_LENGTH], u32, usize) -> ProvingAnswer,
>(
    children: Option<&'a [PQAggregatedSignatureChild<'a, P>]>,
    child_count: usize,
    raw_xmss: Option<&'a [PQRawXmssSignature<'a, P, S>]>,
    raw_xmss_count: usize,
    message: Option<&[u8]>,
    message_len: usize,
    epoch: u64,
    log_inv_rate: usize,
    buffer_len: usize,
    xmss_verify: V,
    decode: D,
    aggregate: A,
    before: CallState,
    after: CallState,
    status: PQSigningError,
)
    requires
        recursive_aggregation(
            children,
            child_count,
            raw_xmss,
            raw_xmss_count,
            message,
            message_len,
            epoch,
            log_inv_rate,
            buffer_len,
            true,
            xmss_verify,
            decode,
            aggregate,
            before,
            after,
            status,
        ) || recursive_aggregation_unverified(
            children,
            child_count,
            raw_xmss,
            raw_xmss_count,
            message,
            message_len,
            epoch,
            log_inv_rate,
            buffer_len,
            decode,
            aggregate,
            before,
            after,
            status,
        ),
    ensures
        leaves_in_order("aggregate_type_1"@, before, after, status),
{
}

/// The same of a merge.
pub proof fn law_merge_leaves_in_order<
    'a,
    P,
    C,
    D: Fn(&[u8], Vec<&'a P>) -> Option<C>,
    M: FnOnce(Vec<C>, usize) -> ProvingAnswer,
>(
    entries: Option<&'a [PQAggregatedSignatureChild<'a, P>]>,
    entry_count: usize,
    log_inv_rate: usize,
    buffer_len: usize,
    decode: D,
    merge: M,
    before: CallState,
    after: CallState,
    status: PQSigningError,
)
    requires
        merge_outcome(
            entries,
            entry_count,
            log_inv_rate,
            buffer_len,
            decode,
            merge,
            before,
            after,
            status,
        ),
    ensures
        leaves_in_order("merge_many_type_1"@, before, after, status),
{
}

/// The same of a split.
pub proof fn law_split_leaves_in_order<
    'a,
    P,
    T,
    D: Fn(&[u8], Vec<Vec<&'a P>>) -> Option<MultiMessageAggregate<T>>,
    X: FnOnce(MultiMessageAggregate<T>, usize, usize) -> ProvingAnswer,
>(
    components: Option<&'a [PQTypeTwoComponent<'a, P>]>,
    component_count: usize,
    type2_bytes: Option<&[u8]>,
    type2_len: usize,
    message: Option<&[u8]>,
    message_len: usize,
    log_inv_rate: usize,
    buffer_len: usize,
    decode: D,
    split: X,
    before: CallState,
    after: CallState,
    status: PQSigningError,
)
    requires
        split_outcome(
            components,
            component_count,
            type2_bytes,
            type2_len,
            message,
            message_len,
            log_inv_rate,
            buffer_len,
            decode,
            split,
            before,
            after,
            status,
        ),
    ensures
        leaves_in_order("split_multi_message_aggregate"@, before, after, status),
{
}

/// Verifying the inputs of an aggregation only adds refusals: it comes to what it comes to
/// without, or the scheme refused a signature and the call is refused.
pub proof fn law_verifying_only_adds_refusals<
    'a,
    P,
    S,
    C,
    V: Fn(&P, u32, &[u8; MESSAGE_LENGTH], &S) -> bool,
    A: FnOnce(Vec<C>, Vec<(&'a P, &'a S)>, [u8; MESSAGE_LENGTH], u32, usize) -> ProvingAnswer,
>(
    pubkeys: Option<&'a [Option<&'a PQSignatureSchemePublicKey<P>>]>,
    signatures: Option<&'a [Option<&'a PQSignature<S>>]>,
    count: usize,
    message: Option<&[u8]>,
    message_len: usize,
    epoch: u64,
    log_inv_rate: usize,
    buffer_len: usize,
    xmss_verify: V,
    aggregate: A,
    before: CallState,
    after: CallState,
    status: PQSigningError,
)
    requires
        raw_aggregation(
            pubkeys,
            signatures,
            count,
            message,
            message_len,
            epoch,
            log_inv_rate,
            buffer_len,
            true,
            xmss_verify,
            aggregate,
            before,
            after,
            status,
        ),
    ensures
        raw_proving(
            true,
            pubkeys,
            signatures,
            count,
            message,
            message_len,
            epoch,
            log_inv_rate,
            buffer_len,
            aggregate,
            before,
            after,
            status,
        ) || {
            &&& refused(PQSigningError::UnknownError, before, after, status)
            &&& exists|i: int|
                {
                    &&& 0 <= i < count
                    &&& call_ensures(
                        xmss_verify,
                        (
                            &pubkeys->0@[i]->0.inner,
                            epoch as u32,
                            &message_at(message),
                            &(#[trigger] signatures->0@[i])->0.inner,
                        ),
                        false,
                    )
                }
        },
{
    if raw_refusal(pubkeys, signatures, count, message, message_len, epoch) is None {
        let pairs = signed_pairs(pubkeys, signatures, count);
        let accepted = choose|accepted: bool|
            {
                &&& #[trigger] pairs_checked(
                    pairs,
                    &message_at(message),
                    epoch as u32,
                    true,
                    xmss_verify,
                    accepted,
                )
                &&& raw_proving(
                    accepted,
                    pubkeys,
                    signatures,
                    count,
                    message,
                    message_len,
                    epoch,
                    log_inv_rate,
                    buffer_len,
                    aggregate,
                    before,
                    after,
                    status,
                )
            };
        if !accepted {
            let i = choose|i: int|
                {
                    &&& 0 <= i < pairs.len()
                    &&& call_ensures(
                        xmss_verify,
                        (
                            (#[trigger] pairs[i]).0,
                            epoch as u32,
                            &message_at(message),
                            pairs[i].1,
                        ),
                        false,
                    )
                };
            assert(pairs[i].1 == &signatures->0@[i]->0.inner);
            assert(pairs[i].0 == &pubkeys->0@[i]->0.inner);
        }
    }
}

/// The same of an aggregation on top of earlier aggregates.
pub proof fn law_verifying_only_adds_refusals_recursive<
    'a,
    P,
    S,
    C,
    V: Fn(&P, u32, &[u8; MESSAGE_LENGTH], &S) -> bool,
    D: Fn(&[u8], Vec<&'a P>) -> Option<C>,
    A: FnOnce(Vec<C>, Vec<(&'a P, &'a S)>, [u8; MESSAGE_LENGTH], u32, usize) -> ProvingAnswer,
>(
    children: Option<&'a [PQAggregatedSignatureChild<'a, P>]>,
    child_count: usize,
    raw_xmss: Option<&'a [PQRawXmssSignature<'a, P, S>]>,
    raw_xmss_count: usize,
    message: Option<&[u8]>,
    message_len: usize,
    epoch: u64,
    log_inv_rate: usize,
    buffer_len: usize,
    xmss_verify: V,
    decode: D,
    aggregate: A,
    before: CallState,
    after: CallState,
    status: PQSigningError,
)
    requires
        recursive_aggregation(
            children,
            child_count,
            raw_xmss,
            raw_xmss_count,
            message,
            message_len,
            epoch,
            log_inv_rate,
            buffer_len,
            true,
            xmss_verify,
            decode,
            aggregate,
            before,
            after,
            status,
        ),
    ensures
        recursive_aggregation_unverified(
            children,
            child_count,
            raw_xmss,
            raw_xmss_count,
            message,
            message_len,
            epoch,
            log_inv_rate,
            buffer_len,
            decode,
            aggregate,
            before,
            after,
            status,
        ) || {
            &&& refused(PQSigningError::UnknownError, before, after, status)
            &&& exists|i: int|
                {
                    &&& 0 <= i < raw_xmss_count
                    &&& call_ensures(
                        xmss_verify,
                        (
                            &(#[trigger] raw_xmss->0@[i]).pubkey->0.inner,
                            epoch as u32,
                            &message_at(message),
                            &raw_xmss->0@[i].signature->0.inner,
                        ),
                        false,
                    )
                }
        },
{
    let refusal = recursive_refusal(
        children,
        child_count,
        raw_xmss,
        raw_xmss_count,
        message,
        message_len,
        epoch,
        before.output,
    );
    if refusal is None {
        let raw_inputs = choose|raw_inputs: Result<Seq<(&'a P, &'a S)>, PQSigningError>|
            {
                &&& #[trigger] raw_inputs_collected(
                    raw_xmss,
                    raw_xmss_count,
                    &message_at(message),
                    epoch as u32,
                    true,
                    xmss_verify,
                    raw_inputs,
                )
                &&& recursive_proving(
                    raw_inputs,
                    children,
                    child_count,
                    message_at(message),
                    epoch as u32,
                    log_inv_rate,
                    buffer_len,
                    decode,
                    aggregate,
                    before,
                    after,
                    status,
                )
            };
        if raw_inputs is Ok {
            assert(raw_inputs == raw_inputs_unverified(raw_xmss, raw_xmss_count));
        }
    }
}

/// Asking the scheme about pairs, and gathering raw signatures that are these pairs, have the
/// same outcomes.
proof fn lemma_checked_is_collected<
    'a,
    P,
    S,
    V: Fn(&P, u32, &[u8; MESSAGE_LENGTH], &S) -> bool,
>(
    raw_xmss: &'a [PQRawXmssSignature<'a, P, S>],
    count: usize,
    message: &[u8; MESSAGE_LENGTH],
    slot: u32,
    verify_inputs: bool,
    xmss_verify: V,
)
    requires
        forall|i: int| 0 <= i < count ==> raw_pointers_valid(#[trigger] raw_xmss@[i]),
    ensures
        pairs_checked(
            raw_pairs(Some(raw_xmss), count),
            message,
            slot,
            verify_inputs,
            xmss_verify,
            true,
        ) == raw_inputs_collected(
            Some(raw_xmss),
            count,
            message,
            slot,
            verify_inputs,
            xmss_verify,
            Ok(raw_pairs(Some(raw_xmss), count)),
        ),
        pairs_checked(
            raw_pairs(Some(raw_xmss), count),
            message,
            slot,
            verify_inputs,
            xmss_verify,
            false,
        ) == raw_inputs_collected(
            Some(raw_xmss),
            count,
            message,
            slot,
            verify_inputs,
            xmss_verify,
            Err(PQSigningError::UnknownError),
        ),
        forall|collected: Result<Seq<(&'a P, &'a S)>, PQSigningError>| #[trigger]
            raw_inputs_collected(
                Some(raw_xmss),
                count,
                message,
                slot,
                verify_inputs,
                xmss_verify,
                collected,
            ) ==> collected == Ok::<Seq<(&'a P, &'a S)>, PQSigningError>(
                raw_pairs(Some(raw_xmss), count),
            ) || collected == Err::<Seq<(&'a P, &'a S)>, PQSigningError>(
                PQSigningError::UnknownError,
            ),
{
    let pairs = raw_pairs(Some(raw_xmss), count);
    assert forall|i: int| 0 <= i < count implies #[trigger] pairs[i] == (
        &raw_xmss@[i].pubkey->0.inner,
        &raw_xmss@[i].signature->0.inner,
    ) by {}
    if pairs_checked(pairs, message, slot, verify_inputs, xmss_verify, true) {
        assert forall|i: int| 0 <= i < count implies raw_input_taken(
            #[trigger] raw_xmss@[i],
            message,
            slot,
            verify_inputs,
            xmss_verify,
        ) by {
            assert(pairs[i].0 == &raw_xmss@[i].pubkey->0.inner);
        }
    }
    if pairs_checked(pairs, message, slot, verify_inputs, xmss_verify, false) {
        let i = choose|i: int|
            {
                &&& 0 <= i < pairs.len()
                &&& call_ensures(
                    xmss_verify,
                    ((#[trigger] pairs[i]).0, slot, message, pairs[i].1),
                    false,
                )
                &&& forall|j: int|
                    0 <= j < i ==> call_ensures(
                        xmss_verify,
                        ((#[trigger] pairs[j]).0, slot, message, pairs[j].1),
                        true,
                    )
            };
        assert forall|j: int| 0 <= j < i implies raw_input_taken(
            #[trigger] raw_xmss@[j],
            message,
            slot,
            verify_inputs,
            xmss_verify,
        ) by {
            assert(pairs[j].0 == &raw_xmss@[j].pubkey->0.inner);
        }
        assert(raw_pointers_valid(raw_xmss@[i]));
    }
    if raw_inputs_collected(
        Some(raw_xmss),
        count,
        message,
        slot,
        verify_inputs,
        xmss_verify,
        Err(PQSigningError::UnknownError),
    ) {
        let i = choose|i: int|
            {
                &&& 0 <= i < count
                &&& raw_pointers_valid(#[trigger] raw_xmss@[i])
                &&& call_ensures(
                    xmss_verify,
                    (
                        &raw_xmss@[i].pubkey->0.inner,
                        slot,
                        message,
                        &raw_xmss@[i].signature->0.inner,
                    ),
                    false,
                )
                &&& forall|j: int|
                    0 <= j < i ==> raw_input_taken(
                        #[trigger] raw_xmss@[j],
                        message,
                        slot,
                        verify_inputs,
                        xmss_verify,
                    )
            };
        assert(pairs[i].0 == &raw_xmss@[i].pubkey->0.inner);
        assert forall|j: int| 0 <= j < i implies call_ensures(
            xmss_verify,
            ((#[trigger] pairs[j]).0, slot, message, pairs[j].1),
            true,
        ) by {
            assert(raw_input_taken(raw_xmss@[j], message, slot, verify_inputs, xmss_verify));
        }
    }
}

/// Signatures alone come to the same in both forms of aggregation, when there are some, their
/// pointers are valid, there is a buffer to answer in, and the request is not wrong in both
/// its message pointer and its epoch.
pub proof fn law_flat_aggregation_is_recursive_without_children<
    'a,
    P,
    S,
    C,
    V: Fn(&P, u32, &[u8; MESSAGE_LENGTH], &S) -> bool,
    D: Fn(&[u8], Vec<&'a P>) -> Option<C>,
    A: FnOnce(Vec<C>, Vec<(&'a P, &'a S)>, [u8; MESSAGE_LENGTH], u32, usize) -> ProvingAnswer,
>(
    pubkeys: &'a [Option<&'a PQSignatureSchemePublicKey<P>>],
    signatures: &'a [Option<&'a PQSignature<S>>],
    raw_xmss: &'a [PQRawXmssSignature<'a, P, S>],
    count: usize,
    children: Option<&'a [PQAggregatedSignatureChild<'a, P>]>,
    message: Option<&[u8]>,
    message_len: usize,
    epoch: u64,
    log_inv_rate: usize,
    buffer_len: usize,
    verify_inputs: bool,
    xmss_verify: V,
    decode: D,
    aggregate: A,
    before: CallState,
    after: CallState,
    status: PQSigningError,
)
    requires
        count > 0,
        pointers_valid(Some(pubkeys), count),
        pointers_valid(Some(signatures), count),
        forall|i: int|
            0 <= i < count ==> {
                &&& (#[trigger] raw_xmss@[i]).pubkey == pubkeys@[i]
                &&& raw_xmss@[i].signature == signatures@[i]
            },
        before.output.buffer is Some,
        before.output.written_len is Some,
        message is Some || slot_of_epoch(epoch) is Ok,
    ensures
        raw_aggregation(
            Some(pubkeys),
            Some(signatures),
            count,
            message,
            message_len,
            epoch,
            log_inv_rate,
            buffer_len,
            verify_inputs,
            xmss_verify,
            aggregate,
            before,
            after,
            status,
        ) <==> recursive_aggregation(
            children,
            0,
            Some(raw_xmss),
            count,
            message,
            message_len,
            epoch,
            log_inv_rate,
            buffer_len,
            verify_inputs,
            xmss_verify,
            decode,
            aggregate,
            before,
            after,
            status,
        ),
{
    let pairs = signed_pairs(Some(pubkeys), Some(signatures), count);
    let signed = message_at(message);
    let slot = epoch as u32;
    assert forall|i: int| 0 <= i < count implies raw_pointers_valid(#[trigger] raw_xmss@[i]) by {
        assert(pubkeys@[i] is Some);
        assert(signatures@[i] is Some);
    }
    assert forall|i: int| 0 <= i < count implies pairs[i] == #[trigger] raw_pairs(
        Some(raw_xmss),
        count,
    )[i] by {
        assert(raw_xmss@[i].pubkey == pubkeys@[i]);
    }
    assert(pairs =~= raw_pairs(Some(raw_xmss), count));
    lemma_checked_is_collected(raw_xmss, count, &signed, slot, verify_inputs, xmss_verify);
    assert(children_collected(children, 0, decode, Ok(Seq::<C>::empty())));
    assert forall|child_inputs: Result<Seq<C>, PQSigningError>| #[trigger]
        children_collected(children, 0, decode, child_inputs) implies child_inputs == Ok::<
        Seq<C>,
        PQSigningError,
    >(Seq::empty()) by {
        assert(child_inputs is Ok);
        assert(child_inputs->Ok_0 =~= Seq::<C>::empty());
    }
    let flat = |accepted: bool|
        raw_proving(
            accepted,
            Some(pubkeys),
            Some(signatures),
            count,
            message,
            message_len,
            epoch,
            log_inv_rate,
            buffer_len,
            aggregate,
            before,
            after,
            status,
        );
    let recursive = |raw_inputs: Result<Seq<(&'a P, &'a S)>, PQSigningError>|
        recursive_proving(
            raw_inputs,
            children,
            0,
            signed,
            slot,
            log_inv_rate,
            buffer_len,
            decode,
            aggregate,
            before,
            after,
            status,
        );
    if raw_refusal(Some(pubkeys), Some(signatures), count, message, message_len, epoch) is None {
        assert(flat(true) == recursive(Ok(pairs)));
        assert(flat(false) == recursive(Err(PQSigningError::UnknownError)));
    }
}

} // verus!
