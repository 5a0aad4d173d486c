//! Keys and signing, and keys and signatures as bytes.
use vstd::prelude::*;
use vstd::utf8::valid_utf8;
use vstd::string::*;
use crate::codec::{
    pq_public_key_deserialize, pq_public_key_from_json, pq_public_key_serialize,
    pq_secret_key_deserialize, pq_secret_key_from_json, pq_secret_key_serialize,
    pq_signature_deserialize, pq_signature_from_json, pq_signature_serialize, text_parse_answered,
};
use crate::error::PQSigningError;
use crate::handles::{
    PQRange, PQSignature, PQSignatureSchemePublicKey, PQSignatureSchemeSecretKey, XmssSecretKey,
};
use crate::input::{is_padded_signature, lemma_message_array, MESSAGE_LENGTH, SIGNATURE_SIZE};
use crate::keys::{
    pq_advance_preparation, pq_get_activation_interval, pq_get_prepared_interval, pq_key_gen,
    pq_sign, KeyGenAnswer, SignAnswer, XmssSignatureError,
};
use crate::memory::items;
use crate::verifying::bytes_decode_answered;

verus! {

/// A request for a key pair asks the scheme for the epochs of the request. Keys that it gives are
/// handed out both; if it refuses or panics, neither pointer is touched.
pub proof fn law_key_gen_asks_the_scheme<P, K, F: FnOnce(u64, u64) -> KeyGenAnswer<P, K>>(
    activation_epoch: usize,
    num_active_epochs: usize,
    pk_out: &mut Option<PQSignatureSchemePublicKey<P>>,
    sk_out: &mut Option<PQSignatureSchemeSecretKey<K>>,
    xmss_key_gen: F,
    status: PQSigningError,
)
    requires
        call_ensures(
            pq_key_gen::<P, K, F>,
            (activation_epoch, num_active_epochs, Some(pk_out), Some(sk_out), xmss_key_gen),
            status,
        ),
    ensures
        exists|answer: KeyGenAnswer<P, K>|
            {
                &&& #[trigger] call_ensures(
                    xmss_key_gen,
                    (activation_epoch as u64, num_active_epochs as u64),
                    answer,
                )
                &&& answer matches Ok(Ok(pair)) ==> {
                    &&& status == PQSigningError::Success
                    &&& *final(pk_out) is Some && (*final(pk_out))->0.inner == pair.0
                    &&& *final(sk_out) is Some && (*final(sk_out))->0.inner == pair.1
                }
                &&& answer matches Ok(Err(_)) ==> status == PQSigningError::InvalidEpoch
                &&& answer matches Err(_) ==> status == PQSigningError::UnknownError
            },
        status != PQSigningError::Success ==> *final(pk_out) == *old(pk_out) && *final(sk_out)
            == *old(sk_out),
{
}

/// A request for a key pair with a null pointer is refused, and the other pointer is not touched.
pub proof fn law_key_gen_refusals<P, K, F: FnOnce(u64, u64) -> KeyGenAnswer<P, K>>(
    activation_epoch: usize,
    num_active_epochs: usize,
    pk_out: Option<&mut Option<PQSignatureSchemePublicKey<P>>>,
    sk_out: Option<&mut Option<PQSignatureSchemeSecretKey<K>>>,
    xmss_key_gen: F,
    status: PQSigningError,
)
    requires
        call_ensures(
            pq_key_gen::<P, K, F>,
            (activation_epoch, num_active_epochs, pk_out, sk_out, xmss_key_gen),
            status,
        ),
    ensures
        status == PQSigningError::InvalidPointer <==> pk_out is None || sk_out is None,
        pk_out is None ==> (sk_out matches Some(out) ==> *final(out) == *out),
        sk_out is None ==> (pk_out matches Some(out) ==> *final(out) == *out),
{
}

/// A request to sign for an epoch between the first and the last slot of the key, both included,
/// asks the scheme for a signature of the key over the bytes of the message in that slot. A
/// signature that it gives is handed out; if it refuses or panics, the pointer is not touched.
pub proof fn law_signing_asks_the_scheme<
    K,
    S,
    F: FnOnce(&XmssSecretKey<K>, u32, &[u8; MESSAGE_LENGTH]) -> SignAnswer<S>,
>(
    sk: &PQSignatureSchemeSecretKey<K>,
    epoch: u64,
    message: &[u8],
    signed: [u8; MESSAGE_LENGTH],
    signature_out: &mut Option<PQSignature<S>>,
    xmss_sign: F,
    status: PQSigningError,
)
    requires
        call_ensures(
            pq_sign::<K, S, F>,
            (Some(sk), epoch, Some(message), 32usize, Some(signature_out), xmss_sign),
            status,
        ),
        sk.inner.first_slot <= epoch <= sk.inner.last_slot,
        signed@ == message@.take(32),
    ensures
        exists|answer: SignAnswer<S>|
            {
                &&& #[trigger] call_ensures(xmss_sign, (&sk.inner, epoch as u32, &signed), answer)
                &&& answer matches Ok(Ok(signature)) ==> {
                    &&& status == PQSigningError::Success
                    &&& *final(signature_out) is Some
                    &&& (*final(signature_out))->0.inner == signature
                }
                &&& answer matches Ok(Err(XmssSignatureError::EncodingAttemptsExceeded)) ==> status
                    == PQSigningError::EncodingAttemptsExceeded
                &&& answer matches Ok(Err(XmssSignatureError::SlotOutOfRange)) ==> status
                    == PQSigningError::InvalidEpoch
                &&& answer matches Err(_) ==> status == PQSigningError::UnknownError
            },
        status != PQSigningError::Success ==> *final(signature_out) == *old(signature_out),
{
    lemma_message_array(signed);
}

/// A request to sign that is not in order is refused for the first thing that is wrong with it,
/// and the pointer that the signature would go to is not touched.
pub proof fn law_signing_refusals<
    K,
    S,
    F: FnOnce(&XmssSecretKey<K>, u32, &[u8; MESSAGE_LENGTH]) -> SignAnswer<S>,
>(
    sk: Option<&PQSignatureSchemeSecretKey<K>>,
    epoch: u64,
    message: Option<&[u8]>,
    message_len: usize,
    signature_out: Option<&mut Option<PQSignature<S>>>,
    xmss_sign: F,
    status: PQSigningError,
)
    requires
        call_ensures(
            pq_sign::<K, S, F>,
            (sk, epoch, message, message_len, signature_out, xmss_sign),
            status,
        ),
    ensures
        status == PQSigningError::InvalidPointer <==> sk is None || message is None
            || signature_out is None,
        status != PQSigningError::InvalidPointer && epoch >= 4294967296 ==> status
            == PQSigningError::InvalidEpoch,
        status != PQSigningError::InvalidPointer && epoch < 4294967296 ==> (status
            == PQSigningError::InvalidMessageLength <==> message_len != 32),
        status != PQSigningError::InvalidPointer && epoch < 4294967296 && message_len == 32 && !(
        sk->0.inner.first_slot <= epoch <= sk->0.inner.last_slot) ==> status
            == PQSigningError::InvalidEpoch,
        status != PQSigningError::Success ==> (signature_out matches Some(out) ==> *final(out)
            == *out),
{
}

/// The activation interval of a key holds the epochs from the first to the last slot of the key,
/// both included, and the prepared interval holds the same. A null pointer has neither.
pub proof fn law_intervals_are_of_the_key<K>(
    key: Option<&PQSignatureSchemeSecretKey<K>>,
    epochs: PQRange,
    epoch: u64,
)
    requires
        call_ensures(pq_get_activation_interval::<K>, (key,), epochs) || call_ensures(
            pq_get_prepared_interval::<K>,
            (key,),
            epochs,
        ),
    ensures
        key is None ==> epochs.start == 0 && epochs.end == 0,
        key matches Some(handle) ==> epochs.start == handle.inner.first_slot && epochs.end
            == handle.inner.last_slot + 1,
        key matches Some(handle) ==> (epochs.start <= epoch && epoch < epochs.end
            <==> handle.inner.first_slot <= epoch <= handle.inner.last_slot),
{
}

/// What is signed lies in the activation interval of the key.
pub proof fn law_signed_epochs_lie_in_the_interval<
    K,
    S,
    F: FnOnce(&XmssSecretKey<K>, u32, &[u8; MESSAGE_LENGTH]) -> SignAnswer<S>,
>(
    sk: &PQSignatureSchemeSecretKey<K>,
    epochs: PQRange,
    epoch: u64,
    message: Option<&[u8]>,
    message_len: usize,
    signature_out: Option<&mut Option<PQSignature<S>>>,
    xmss_sign: F,
)
    requires
        call_ensures(pq_get_activation_interval::<K>, (Some(sk),), epochs),
        call_ensures(
            pq_sign::<K, S, F>,
            (Some(sk), epoch, message, message_len, signature_out, xmss_sign),
            PQSigningError::Success,
        ),
    ensures
        epochs.start <= epoch && epoch < epochs.end,
{
    law_intervals_are_of_the_key(Some(sk), epochs, epoch);
    law_signing_refusals(
        Some(sk),
        epoch,
        message,
        message_len,
        signature_out,
        xmss_sign,
        PQSigningError::Success,
    );
}

/// Preparing a key for later epochs leaves it as it is.
pub proof fn law_preparation_changes_nothing<K>(key: &mut PQSignatureSchemeSecretKey<K>)
    requires
        call_ensures(pq_advance_preparation::<K>, (Some(key),), ()),
    ensures
        *final(key) == *old(key),
{
}

/// A public key that is written is the bytes of the encoder on it, all of them or, if they do not
/// fit, none, and the number of bytes is reported.
pub proof fn law_public_key_is_written_as_encoded<P, F: FnOnce(&P) -> Vec<u8>>(
    handle: &PQSignatureSchemePublicKey<P>,
    buffer: &mut [u8],
    buffer_len: usize,
    written_len: &mut usize,
    encode: F,
    status: PQSigningError,
)
    requires
        call_ensures(
            pq_public_key_serialize::<P, F>,
            (Some(handle), Some(buffer), buffer_len, Some(written_len), encode),
            status,
        ),
    ensures
        exists|bytes: Vec<u8>|
            {
                &&& #[trigger] call_ensures(encode, (&handle.inner,), bytes)
                &&& *final(written_len) == bytes@.len()
                &&& bytes@.len() <= buffer_len ==> status == PQSigningError::Success
                    && final(buffer)@ == bytes@ + old(buffer)@.skip(bytes@.len() as int)
                &&& bytes@.len() > buffer_len ==> status == PQSigningError::UnknownError
                    && final(buffer)@ == old(buffer)@
            },
{
}

/// A public key is not written if a pointer is null, and no output is touched.
pub proof fn law_public_key_is_not_written_without_pointers<P, F: FnOnce(&P) -> Vec<u8>>(
    handle: Option<&PQSignatureSchemePublicKey<P>>,
    buffer: Option<&mut [u8]>,
    buffer_len: usize,
    written_len: Option<&mut usize>,
    encode: F,
    status: PQSigningError,
)
    requires
        call_ensures(
            pq_public_key_serialize::<P, F>,
            (handle, buffer, buffer_len, written_len, encode),
            status,
        ),
        handle is None || buffer is None || written_len is None,
    ensures
        status != PQSigningError::Success,
        status == PQSigningError::InvalidPointer,
        buffer matches Some(memory) ==> final(memory)@ == memory@,
        written_len matches Some(written) ==> *final(written) == *written,
{
}

/// A signature that is written is the bytes of the encoder on it, all of them or, if they do not
/// fit, none, and the number of bytes is reported.
pub proof fn law_signature_is_written_as_encoded<S, F: FnOnce(&S) -> Vec<u8>>(
    handle: &PQSignature<S>,
    buffer: &mut [u8],
    buffer_len: usize,
    written_len: &mut usize,
    encode: F,
    status: PQSigningError,
)
    requires
        call_ensures(
            pq_signature_serialize::<S, F>,
            (Some(handle), Some(buffer), buffer_len, Some(written_len), encode),
            status,
        ),
    ensures
        exists|bytes: Vec<u8>|
            {
                &&& #[trigger] call_ensures(encode, (&handle.inner,), bytes)
                &&& *final(written_len) == bytes@.len()
                &&& bytes@.len() <= buffer_len ==> status == PQSigningError::Success
                    && final(buffer)@ == bytes@ + old(buffer)@.skip(bytes@.len() as int)
                &&& bytes@.len() > buffer_len ==> status == PQSigningError::UnknownError
                    && final(buffer)@ == old(buffer)@
            },
{
}

/// A signature is not written if a pointer is null, and no output is touched.
pub proof fn law_signature_is_not_written_without_pointers<S, F: FnOnce(&S) -> Vec<u8>>(
    handle: Option<&PQSignature<S>>,
    buffer: Option<&mut [u8]>,
    buffer_len: usize,
    written_len: Option<&mut usize>,
    encode: F,
    status: PQSigningError,
)
    requires
        call_ensures(
            pq_signature_serialize::<S, F>,
            (handle, buffer, buffer_len, written_len, encode),
            status,
        ),
        handle is None || buffer is None || written_len is None,
    ensures
        status != PQSigningError::Success,
        status == PQSigningError::InvalidPointer,
        buffer matches Some(memory) ==> final(memory)@ == memory@,
        written_len matches Some(written) ==> *final(written) == *written,
{
}

/// A secret key that is written is the bytes of the encoder on it, all of them or, if they do not
/// fit, none, and the number of bytes is reported.
pub proof fn law_secret_key_is_written_as_encoded<K, F: FnOnce(&XmssSecretKey<K>) -> Option<Vec<u8>>>(
    handle: &PQSignatureSchemeSecretKey<K>,
    buffer: &mut [u8],
    buffer_len: usize,
    written_len: &mut usize,
    encode: F,
    status: PQSigningError,
)
    requires
        call_ensures(
            pq_secret_key_serialize::<K, F>,
            (Some(handle), Some(buffer), buffer_len, Some(written_len), encode),
            status,
        ),
    ensures
        exists|encoded: Option<Vec<u8>>|
            {
                &&& #[trigger] call_ensures(encode, (&handle.inner,), encoded)
                &&& encoded is None ==> {
                    &&& status == PQSigningError::UnknownError
                    &&& *final(written_len) == *old(written_len)
                    &&& final(buffer)@ == old(buffer)@
                }
                &&& encoded matches Some(bytes) ==> {
                    &&& *final(written_len) == bytes@.len()
                    &&& bytes@.len() <= buffer_len ==> status == PQSigningError::Success
                        && final(buffer)@ == bytes@ + old(buffer)@.skip(bytes@.len() as int)
                    &&& bytes@.len() > buffer_len ==> status == PQSigningError::UnknownError
                        && final(buffer)@ == old(buffer)@
                }
            },
{
}

/// A secret key is not written if a pointer is null, and no output is touched.
pub proof fn law_secret_key_is_not_written_without_pointers<K, F: FnOnce(&XmssSecretKey<K>) -> Option<Vec<u8>>>(
    handle: Option<&PQSignatureSchemeSecretKey<K>>,
    buffer: Option<&mut [u8]>,
    buffer_len: usize,
    written_len: Option<&mut usize>,
    encode: F,
    status: PQSigningError,
)
    requires
        call_ensures(
            pq_secret_key_serialize::<K, F>,
            (handle, buffer, buffer_len, written_len, encode),
            status,
        ),
        handle is None || buffer is None || written_len is None,
    ensures
        status != PQSigningError::Success,
        handle is None ==> status == PQSigningError::InvalidPointer,
        handle matches Some(held) ==> exists|encoded: Option<Vec<u8>>|
            {
                &&& #[trigger] call_ensures(encode, (&held.inner,), encoded)
                &&& encoded is None ==> status == PQSigningError::UnknownError
                &&& encoded is Some ==> status == PQSigningError::InvalidPointer
            },
        buffer matches Some(memory) ==> final(memory)@ == memory@,
        written_len matches Some(written) ==> *final(written) == *written,
{
}

/// Reading a public key from bytes asks the decoder about the bytes, and hands out what it gives;
/// if it gives nothing, the pointer is not touched.
pub proof fn law_public_key_is_read_as_decoded<P, F: FnOnce(&[u8]) -> Option<P>>(
    buffer: &[u8],
    buffer_len: usize,
    out: &mut Option<PQSignatureSchemePublicKey<P>>,
    decode: F,
    status: PQSigningError,
)
    requires
        call_ensures(pq_public_key_deserialize::<P, F>, (Some(buffer), buffer_len, Some(out), decode), status),
    ensures
        exists|encoded: &[u8], decoded: Option<P>|
            {
                &&& encoded@ == buffer@.take(buffer_len as int)
                &&& #[trigger] call_ensures(decode, (encoded,), decoded)
                &&& decoded matches Some(value) ==> {
                    &&& status == PQSigningError::Success
                    &&& *final(out) is Some
                    &&& (*final(out))->0.inner == value
                }
                &&& decoded is None ==> status == PQSigningError::UnknownError && *final(out)
                    == *old(out)
            },
{
    let bytes = buffer@.take(buffer_len as int);
    let decoded = choose|decoded: Option<P>|
        {
            &&& #[trigger] bytes_decode_answered(decode, bytes, decoded)
            &&& decoded matches Some(value) ==> status == PQSigningError::Success && *final(out)
                is Some && (*final(out))->0.inner == value
            &&& decoded is None ==> status == PQSigningError::UnknownError && *final(out)
                == *old(out)
        };
    let encoded = choose|encoded: &[u8]|
        encoded@ == bytes && #[trigger] call_ensures(decode, (encoded,), decoded);
    assert(call_ensures(decode, (encoded,), decoded));
}

/// A public key is not read if a pointer is null, and the other pointer is not touched.
pub proof fn law_public_key_is_not_read_without_pointers<P, F: FnOnce(&[u8]) -> Option<P>>(
    buffer: Option<&[u8]>,
    buffer_len: usize,
    out: Option<&mut Option<PQSignatureSchemePublicKey<P>>>,
    decode: F,
    status: PQSigningError,
)
    requires
        call_ensures(pq_public_key_deserialize::<P, F>, (buffer, buffer_len, out, decode), status),
    ensures
        status == PQSigningError::InvalidPointer <==> buffer is None || out is None,
        status != PQSigningError::Success ==> (out matches Some(handle) ==> *final(handle) == *handle),
        status == PQSigningError::Success || status == PQSigningError::UnknownError || status
            == PQSigningError::InvalidPointer,
{
}

/// Reading a secret key from bytes asks the decoder about the bytes, and hands out what it gives;
/// if it gives nothing, the pointer is not touched.
pub proof fn law_secret_key_is_read_as_decoded<K, F: FnOnce(&[u8]) -> Option<XmssSecretKey<K>>>(
    buffer: &[u8],
    buffer_len: usize,
    out: &mut Option<PQSignatureSchemeSecretKey<K>>,
    decode: F,
    status: PQSigningError,
)
    requires
        call_ensures(pq_secret_key_deserialize::<K, F>, (Some(buffer), buffer_len, Some(out), decode), status),
    ensures
        exists|encoded: &[u8], decoded: Option<XmssSecretKey<K>>|
            {
                &&& encoded@ == buffer@.take(buffer_len as int)
                &&& #[trigger] call_ensures(decode, (encoded,), decoded)
                &&& decoded matches Some(value) ==> {
                    &&& status == PQSigningError::Success
                    &&& *final(out) is Some
                    &&& (*final(out))->0.inner == value
                }
                &&& decoded is None ==> status == PQSigningError::UnknownError && *final(out)
                    == *old(out)
            },
{
    let bytes = buffer@.take(buffer_len as int);
    let decoded = choose|decoded: Option<XmssSecretKey<K>>|
        {
            &&& #[trigger] bytes_decode_answered(decode, bytes, decoded)
            &&& decoded matches Some(value) ==> status == PQSigningError::Success && *final(out)
                is Some && (*final(out))->0.inner == value
            &&& decoded is None ==> status == PQSigningError::UnknownError && *final(out)
                == *old(out)
        };
    let encoded = choose|encoded: &[u8]|
        encoded@ == bytes && #[trigger] call_ensures(decode, (encoded,), decoded);
    assert(call_ensures(decode, (encoded,), decoded));
}

/// A secret key is not read if a pointer is null, and the other pointer is not touched.
pub proof fn law_secret_key_is_not_read_without_pointers<K, F: FnOnce(&[u8]) -> Option<XmssSecretKey<K>>>(
    buffer: Option<&[u8]>,
    buffer_len: usize,
    out: Option<&mut Option<PQSignatureSchemeSecretKey<K>>>,
    decode: F,
    status: PQSigningError,
)
    requires
        call_ensures(pq_secret_key_deserialize::<K, F>, (buffer, buffer_len, out, decode), status),
    ensures
        status == PQSigningError::InvalidPointer <==> buffer is None || out is None,
        status != PQSigningError::Success ==> (out matches Some(handle) ==> *final(handle) == *handle),
        status == PQSigningError::Success || status == PQSigningError::UnknownError || status
            == PQSigningError::InvalidPointer,
{
}

/// Reading a signature from bytes that are long enough and have nothing but zeros behind the
/// canonical length asks the decoder about the first 1208 bytes, and hands out what it gives; if
/// it gives nothing, the pointer is not touched.
pub proof fn law_signature_is_read_as_decoded<S, F: FnOnce(&[u8]) -> Option<S>>(
    buffer: &[u8],
    buffer_len: usize,
    out: &mut Option<PQSignature<S>>,
    decode: F,
    status: PQSigningError,
)
    requires
        call_ensures(pq_signature_deserialize::<S, F>, (Some(buffer), buffer_len, Some(out), decode), status),
        1208 <= buffer_len <= buffer@.len(),
        forall|i: int| 1208 <= i < buffer_len ==> buffer@[i] == 0,
    ensures
        exists|encoded: &[u8], decoded: Option<S>|
            {
                &&& encoded@ == buffer@.take(1208)
                &&& #[trigger] call_ensures(decode, (encoded,), decoded)
                &&& decoded matches Some(value) ==> {
                    &&& status == PQSigningError::Success
                    &&& *final(out) is Some
                    &&& (*final(out))->0.inner == value
                }
                &&& decoded is None ==> status == PQSigningError::UnknownError && *final(out)
                    == *old(out)
            },
{
    let bytes = items(Some(buffer), buffer_len);
    assert(is_padded_signature(bytes));
    assert(bytes.take(SIGNATURE_SIZE as int) =~= buffer@.take(1208));
    let bytes = buffer@.take(1208);
    let decoded = choose|decoded: Option<S>|
        {
            &&& #[trigger] bytes_decode_answered(decode, bytes, decoded)
            &&& decoded matches Some(value) ==> status == PQSigningError::Success && *final(out)
                is Some && (*final(out))->0.inner == value
            &&& decoded is None ==> status == PQSigningError::UnknownError && *final(out)
                == *old(out)
        };
    let encoded = choose|encoded: &[u8]|
        encoded@ == bytes && #[trigger] call_ensures(decode, (encoded,), decoded);
    assert(call_ensures(decode, (encoded,), decoded));
}

/// A signature is not read if a pointer is null, and the other pointer is not touched.
pub proof fn law_signature_is_not_read_without_pointers<S, F: FnOnce(&[u8]) -> Option<S>>(
    buffer: Option<&[u8]>,
    buffer_len: usize,
    out: Option<&mut Option<PQSignature<S>>>,
    decode: F,
    status: PQSigningError,
)
    requires
        call_ensures(pq_signature_deserialize::<S, F>, (buffer, buffer_len, out, decode), status),
    ensures
        status == PQSigningError::InvalidPointer <==> buffer is None || out is None,
        status != PQSigningError::Success ==> (out matches Some(handle) ==> *final(handle) == *handle),
        status == PQSigningError::Success || status == PQSigningError::UnknownError || status
            == PQSigningError::InvalidPointer,
{
}

/// A signature is not read from bytes that are too short or have something else than zeros behind
/// the canonical length.
pub proof fn law_signature_is_not_read_from_other_bytes<S, F: FnOnce(&[u8]) -> Option<S>>(
    buffer: &[u8],
    buffer_len: usize,
    out: &mut Option<PQSignature<S>>,
    decode: F,
    status: PQSigningError,
)
    requires
        call_ensures(
            pq_signature_deserialize::<S, F>,
            (Some(buffer), buffer_len, Some(out), decode),
            status,
        ),
        buffer_len <= buffer@.len(),
        buffer_len < 1208 || exists|i: int| 1208 <= i < buffer_len && #[trigger] buffer@[i] != 0,
    ensures
        status == PQSigningError::UnknownError,
        *final(out) == *old(out),
{
    let bytes = items(Some(buffer), buffer_len);
    if is_padded_signature(bytes) {
        let i = choose|i: int| 1208 <= i < buffer_len && #[trigger] buffer@[i] != 0;
        assert(bytes[i] == 0);
    }
}

/// Reading a public key from JSON that is UTF-8 asks the parser about the text with these bytes,
/// and hands out what it gives; if it gives nothing, the pointer is not touched.
pub proof fn law_public_key_is_read_as_parsed<P, F: FnOnce(&str) -> Option<P>>(
    json: &[u8],
    json_len: usize,
    out: &mut Option<PQSignatureSchemePublicKey<P>>,
    parse: F,
    status: PQSigningError,
)
    requires
        call_ensures(pq_public_key_from_json::<P, F>, (Some(json), json_len, Some(out), parse), status),
        json_len > 0,
        valid_utf8(json@.take(json_len as int)),
    ensures
        exists|text: &str, parsed: Option<P>|
            {
                &&& text.spec_bytes() == json@.take(json_len as int)
                &&& #[trigger] call_ensures(parse, (text,), parsed)
                &&& parsed matches Some(value) ==> {
                    &&& status == PQSigningError::Success
                    &&& *final(out) is Some
                    &&& (*final(out))->0.inner == value
                }
                &&& parsed is None ==> status == PQSigningError::UnknownError && *final(out)
                    == *old(out)
            },
{
    let bytes = json@.take(json_len as int);
    let parsed = choose|parsed: Option<P>|
        {
            &&& #[trigger] text_parse_answered(parse, bytes, parsed)
            &&& parsed matches Some(value) ==> status == PQSigningError::Success && *final(out)
                is Some && (*final(out))->0.inner == value
            &&& parsed is None ==> status == PQSigningError::UnknownError && *final(out)
                == *old(out)
        };
    let text = choose|text: &str|
        text.spec_bytes() == bytes && #[trigger] call_ensures(parse, (text,), parsed);
    assert(call_ensures(parse, (text,), parsed));
}

/// A public key is not read from JSON if a pointer is null, if there are no bytes, or if the bytes
/// are not UTF-8, and no pointer is touched.
pub proof fn law_public_key_is_not_read_from_other_text<P, F: FnOnce(&str) -> Option<P>>(
    json: Option<&[u8]>,
    json_len: usize,
    out: Option<&mut Option<PQSignatureSchemePublicKey<P>>>,
    parse: F,
    status: PQSigningError,
)
    requires
        call_ensures(pq_public_key_from_json::<P, F>, (json, json_len, out, parse), status),
    ensures
        status == PQSigningError::InvalidPointer <==> json is None || out is None || json_len == 0,
        status != PQSigningError::InvalidPointer && !valid_utf8(json->0@.take(json_len as int))
            ==> status == PQSigningError::UnknownError,
        status != PQSigningError::Success ==> (out matches Some(handle) ==> *final(handle) == *handle),
        status == PQSigningError::Success || status == PQSigningError::UnknownError || status
            == PQSigningError::InvalidPointer,
{
}

/// Reading a secret key from JSON that is UTF-8 asks the parser about the text with these bytes,
/// and hands out what it gives; if it gives nothing, the pointer is not touched.
pub proof fn law_secret_key_is_read_as_parsed<K, F: FnOnce(&str) -> Option<XmssSecretKey<K>>>(
    json: &[u8],
    json_len: usize,
    out: &mut Option<PQSignatureSchemeSecretKey<K>>,
    parse: F,
    status: PQSigningError,
)
    requires
        call_ensures(pq_secret_key_from_json::<K, F>, (Some(json), json_len, Some(out), parse), status),
        json_len > 0,
        valid_utf8(json@.take(json_len as int)),
    ensures
        exists|text: &str, parsed: Option<XmssSecretKey<K>>|
            {
                &&& text.spec_bytes() == json@.take(json_len as int)
                &&& #[trigger] call_ensures(parse, (text,), parsed)
                &&& parsed matches Some(value) ==> {
                    &&& status == PQSigningError::Success
                    &&& *final(out) is Some
                    &&& (*final(out))->0.inner == value
                }
                &&& parsed is None ==> status == PQSigningError::UnknownError && *final(out)
                    == *old(out)
            },
{
    let bytes = json@.take(json_len as int);
    let parsed = choose|parsed: Option<XmssSecretKey<K>>|
        {
            &&& #[trigger] text_parse_answered(parse, bytes, parsed)
            &&& parsed matches Some(value) ==> status == PQSigningError::Success && *final(out)
                is Some && (*final(out))->0.inner == value
            &&& parsed is None ==> status == PQSigningError::UnknownError && *final(out)
                == *old(out)
        };
    let text = choose|text: &str|
        text.spec_bytes() == bytes && #[trigger] call_ensures(parse, (text,), parsed);
    assert(call_ensures(parse, (text,), parsed));
}

/// A secret key is not read from JSON if a pointer is null, if there are no bytes, or if the bytes
/// are not UTF-8, and no pointer is touched.
pub proof fn law_secret_key_is_not_read_from_other_text<K, F: FnOnce(&str) -> Option<XmssSecretKey<K>>>(
    json: Option<&[u8]>,
    json_len: usize,
    out: Option<&mut Option<PQSignatureSchemeSecretKey<K>>>,
    parse: F,
    status: PQSigningError,
)
    requires
        call_ensures(pq_secret_key_from_json::<K, F>, (json, json_len, out, parse), status),
    ensures
        status == PQSigningError::InvalidPointer <==> json is None || out is None || json_len == 0,
        status != PQSigningError::InvalidPointer && !valid_utf8(json->0@.take(json_len as int))
            ==> status == PQSigningError::UnknownError,
        status != PQSigningError::Success ==> (out matches Some(handle) ==> *final(handle) == *handle),
        status == PQSigningError::Success || status == PQSigningError::UnknownError || status
            == PQSigningError::InvalidPointer,
{
}

/// Reading a signature from JSON that is UTF-8 asks the parser about the text with these bytes,
/// and hands out what it gives; if it gives nothing, the pointer is not touched.
pub proof fn law_signature_is_read_as_parsed<S, F: FnOnce(&str) -> Option<S>>(
    json: &[u8],
    json_len: usize,
    out: &mut Option<PQSignature<S>>,
    parse: F,
    status: PQSigningError,
)
    requires
        call_ensures(pq_signature_from_json::<S, F>, (Some(json), json_len, Some(out), parse), status),
        json_len > 0,
        valid_utf8(json@.take(json_len as int)),
    ensures
        exists|text: &str, parsed: Option<S>|
            {
                &&& text.spec_bytes() == json@.take(json_len as int)
                &&& #[trigger] call_ensures(parse, (text,), parsed)
                &&& parsed matches Some(value) ==> {
                    &&& status == PQSigningError::Success
                    &&& *final(out) is Some
                    &&& (*final(out))->0.inner == value
                }
                &&& parsed is None ==> status == PQSigningError::UnknownError && *final(out)
                    == *old(out)
            },
{
    let bytes = json@.take(json_len as int);
    let parsed = choose|parsed: Option<S>|
        {
            &&& #[trigger] text_parse_answered(parse, bytes, parsed)
            &&& parsed matches Some(value) ==> status == PQSigningError::Success && *final(out)
                is Some && (*final(out))->0.inner == value
            &&& parsed is None ==> status == PQSigningError::UnknownError && *final(out)
                == *old(out)
        };
    let text = choose|text: &str|
        text.spec_bytes() == bytes && #[trigger] call_ensures(parse, (text,), parsed);
    assert(call_ensures(parse, (text,), parsed));
}

/// A signature is not read from JSON if a pointer is null, if there are no bytes, or if the bytes
/// are not UTF-8, and no pointer is touched.
pub proof fn law_signature_is_not_read_from_other_text<S, F: FnOnce(&str) -> Option<S>>(
    json: Option<&[u8]>,
    json_len: usize,
    out: Option<&mut Option<PQSignature<S>>>,
    parse: F,
    status: PQSigningError,
)
    requires
        call_ensures(pq_signature_from_json::<S, F>, (json, json_len, out, parse), status),
    ensures
        status == PQSigningError::InvalidPointer <==> json is None || out is None || json_len == 0,
        status != PQSigningError::InvalidPointer && !valid_utf8(json->0@.take(json_len as int))
            ==> status == PQSigningError::UnknownError,
        status != PQSigningError::Success ==> (out matches Some(handle) ==> *final(handle) == *handle),
        status == PQSigningError::Success || status == PQSigningError::UnknownError || status
            == PQSigningError::InvalidPointer,
{
}

} // verus!
