//! Keys and signatures to bytes and back.
//!
//! The encodings themselves belong to the scheme: a call that writes takes the encoder as its
//! last argument, and a call that reads takes the decoder, which answers `None` for what it
//! does not accept.
use vstd::prelude::*;
use vstd::slice::slice_subrange;
use vstd::string::*;
use vstd::utf8::valid_utf8;
use crate::error::PQSigningError;
use crate::handles::{
    PQSignature, PQSignatureSchemePublicKey, PQSignatureSchemeSecretKey, XmssSecretKey,
};
use crate::input::{is_padded_signature, normalize_signature_bytes, SIGNATURE_SIZE};
use crate::memory::{
    bytes_answered, items, output_before, readable, writable, write_bytes_to_buffer, Output,
};
use crate::verifying::bytes_decode_answered;

verus! {

/// `std::str::from_utf8`: bytes are a string exactly when they are valid UTF-8, and the
/// string is then encoded by these bytes.
#[verifier::external_body]
fn str_of_utf8(bytes: &[u8]) -> (text: Option<&str>)
    ensures
        text is Some <==> valid_utf8(bytes@),
        text matches Some(string) ==> string.spec_bytes() == bytes@,
{
    std::str::from_utf8(bytes).ok()
}

/// `parse` answered `answer` on the text that these bytes encode.
pub open spec fn text_parse_answered<T, F: FnOnce(&str) -> Option<T>>(
    parse: F,
    bytes: Seq<u8>,
    answer: Option<T>,
) -> bool {
    exists|text: &str|
        text.spec_bytes() == bytes && #[trigger] call_ensures(parse, (text,), answer)
}

/// What writing a value comes to: the bytes of the encoder are the answer.
pub open spec fn value_written<T, F: FnOnce(&T) -> Vec<u8>>(
    value: &T,
    encode: F,
    buffer_len: usize,
    before: Output,
    after: Output,
    status: PQSigningError,
) -> bool {
    exists|bytes: Vec<u8>| #[trigger]
        call_ensures(encode, (value,), bytes) && bytes_answered(
            bytes@,
            buffer_len,
            before,
            after,
            status,
        )
}

/// The same with an encoder that can fail, which is an unknown error with nothing written.
pub open spec fn value_written_if_encodable<T, F: FnOnce(&T) -> Option<Vec<u8>>>(
    value: &T,
    encode: F,
    buffer_len: usize,
    before: Output,
    after: Output,
    status: PQSigningError,
) -> bool {
    exists|encoded: Option<Vec<u8>>|
        {
            &&& #[trigger] call_ensures(encode, (value,), encoded)
            &&& match encoded {
                None => status == PQSigningError::UnknownError && after == before,
                Some(bytes) => bytes_answered(bytes@, buffer_len, before, after, status),
            }
        }
}

/// What the answer of a decoder makes of the pointer that the value goes to: it leads to the
/// value, or the call answers with an error and it leads to what it led to before.
pub open spec fn handed_out<T>(
    decoded: Option<T>,
    before: Option<T>,
    after: Option<T>,
    status: PQSigningError,
) -> bool {
    match decoded {
        Some(value) => status == PQSigningError::Success && after == Some(value),
        None => status == PQSigningError::UnknownError && after == before,
    }
}

/// Writes a public key in its encoded form.
pub fn pq_public_key_serialize<P, F: FnOnce(&P) -> Vec<u8>>(
    pk: Option<&PQSignatureSchemePublicKey<P>>,
    buffer: Option<&mut [u8]>,
    buffer_len: usize,
    written_len: Option<&mut usize>,
    encode: F,
) -> (status: PQSigningError)
    requires
        writable(buffer, buffer_len),
        forall|value: &P| call_requires(encode, (value,)),
    ensures
        pk is None ==> {
            &&& status == PQSigningError::InvalidPointer
            &&& buffer matches Some(memory) ==> final(memory)@ == memory@
            &&& written_len matches Some(written) ==> *final(written) == *written
        },
        pk matches Some(handle) ==> value_written(
            &handle.inner,
            encode,
            buffer_len,
            output_before(buffer, written_len),
            (Output {
                buffer: match buffer {
                    Some(memory) => Some(final(memory)@),
                    None => None,
                },
                written_len: match written_len {
                    Some(written) => Some(*final(written)),
                    None => None,
                },
            }),
            status,
        ),
{
    match pk {
        None => PQSigningError::InvalidPointer,
        Some(handle) => {
            let bytes = encode(&handle.inner);
            assert(call_ensures(encode, (&handle.inner,), bytes));
            write_bytes_to_buffer(bytes.as_slice(), buffer, buffer_len, written_len)
        },
    }
}

/// Writes a signature in its encoded form.
pub fn pq_signature_serialize<S, F: FnOnce(&S) -> Vec<u8>>(
    signature: Option<&PQSignature<S>>,
    buffer: Option<&mut [u8]>,
    buffer_len: usize,
    written_len: Option<&mut usize>,
    encode: F,
) -> (status: PQSigningError)
    requires
        writable(buffer, buffer_len),
        forall|value: &S| call_requires(encode, (value,)),
    ensures
        signature is None ==> {
            &&& status == PQSigningError::InvalidPointer
            &&& buffer matches Some(memory) ==> final(memory)@ == memory@
            &&& written_len matches Some(written) ==> *final(written) == *written
        },
        signature matches Some(handle) ==> value_written(
            &handle.inner,
            encode,
            buffer_len,
            output_before(buffer, written_len),
            (Output {
                buffer: match buffer {
                    Some(memory) => Some(final(memory)@),
                    None => None,
                },
                written_len: match written_len {
                    Some(written) => Some(*final(written)),
                    None => None,
                },
            }),
            status,
        ),
{
    match signature {
        None => PQSigningError::InvalidPointer,
        Some(handle) => {
            let bytes = encode(&handle.inner);
            assert(call_ensures(encode, (&handle.inner,), bytes));
            write_bytes_to_buffer(bytes.as_slice(), buffer, buffer_len, written_len)
        },
    }
}

/// Writes a secret key in its encoded form. `encode` answers `None` if it cannot encode the
/// key.
pub fn pq_secret_key_serialize<K, F: FnOnce(&XmssSecretKey<K>) -> Option<Vec<u8>>>(
    sk: Option<&PQSignatureSchemeSecretKey<K>>,
    buffer: Option<&mut [u8]>,
    buffer_len: usize,
    written_len: Option<&mut usize>,
    encode: F,
) -> (status: PQSigningError)
    requires
        writable(buffer, buffer_len),
        forall|value: &XmssSecretKey<K>| call_requires(encode, (value,)),
    ensures
        sk is None ==> {
            &&& status == PQSigningError::InvalidPointer
            &&& buffer matches Some(memory) ==> final(memory)@ == memory@
            &&& written_len matches Some(written) ==> *final(written) == *written
        },
        sk matches Some(handle) ==> value_written_if_encodable(
            &handle.inner,
            encode,
            buffer_len,
            output_before(buffer, written_len),
            (Output {
                buffer: match buffer {
                    Some(memory) => Some(final(memory)@),
                    None => None,
                },
                written_len: match written_len {
                    Some(written) => Some(*final(written)),
                    None => None,
                },
            }),
            status,
        ),
{
    match sk {
        None => PQSigningError::InvalidPointer,
        Some(handle) => {
            let encoded = encode(&handle.inner);
            assert(call_ensures(encode, (&handle.inner,), encoded));
            match encoded {
                Some(bytes) => write_bytes_to_buffer(
                    bytes.as_slice(),
                    buffer,
                    buffer_len,
                    written_len,
                ),
                None => PQSigningError::UnknownError,
            }
        },
    }
}

/// What reading a value from bytes comes to: the decoder is asked, and its answer is handed
/// on.
pub open spec fn value_read<T, F: FnOnce(&[u8]) -> Option<T>>(
    decode: F,
    bytes: Seq<u8>,
    before: Option<T>,
    after: Option<T>,
    status: PQSigningError,
) -> bool {
    exists|decoded: Option<T>| #[trigger]
        bytes_decode_answered(decode, bytes, decoded) && handed_out(
            decoded,
            before,
            after,
            status,
        )
}

/// What reading a value from text comes to: the parser is asked, and its answer is handed on.
pub open spec fn text_read<T, F: FnOnce(&str) -> Option<T>>(
    parse: F,
    bytes: Seq<u8>,
    before: Option<T>,
    after: Option<T>,
    status: PQSigningError,
) -> bool {
    exists|parsed: Option<T>| #[trigger]
        text_parse_answered(parse, bytes, parsed) && handed_out(parsed, before, after, status)
}

/// What reading a signature from bytes comes to: they have to be the canonical form with
/// nothing but zeros behind it, and the decoder is asked about the canonical form.
pub open spec fn signature_read<S, F: FnOnce(&[u8]) -> Option<S>>(
    decode: F,
    bytes: Seq<u8>,
    before: Option<S>,
    after: Option<S>,
    status: PQSigningError,
) -> bool {
    if is_padded_signature(bytes) {
        value_read(decode, bytes.take(SIGNATURE_SIZE as int), before, after, status)
    } else {
        status == PQSigningError::UnknownError && after == before
    }
}

/// The secret key behind a caller's handle, if there is one.
pub open spec fn secret_key_of<K>(handle: Option<PQSignatureSchemeSecretKey<K>>) -> Option<
    XmssSecretKey<K>,
> {
    match handle {
        Some(held) => Some(held.inner),
        None => None,
    }
}

/// The public key behind a caller's handle, if there is one.
pub open spec fn public_key_of<P>(handle: Option<PQSignatureSchemePublicKey<P>>) -> Option<P> {
    match handle {
        Some(held) => Some(held.inner),
        None => None,
    }
}

/// The signature behind a caller's handle, if there is one.
pub open spec fn signature_of<S>(handle: Option<PQSignature<S>>) -> Option<S> {
    match handle {
        Some(held) => Some(held.inner),
        None => None,
    }
}

/// Reads a secret key from its encoded form.
pub fn pq_secret_key_deserialize<K, F: FnOnce(&[u8]) -> Option<XmssSecretKey<K>>>(
    buffer: Option<&[u8]>,
    buffer_len: usize,
    sk_out: Option<&mut Option<PQSignatureSchemeSecretKey<K>>>,
    decode: F,
) -> (status: PQSigningError)
    requires
        readable(buffer, buffer_len),
        forall|encoded: &[u8]| call_requires(decode, (encoded,)),
    ensures
        sk_out is None ==> status == PQSigningError::InvalidPointer,
        sk_out matches Some(out) ==> if buffer is None {
            status == PQSigningError::InvalidPointer && *final(out) == *out
        } else {
            value_read(
                decode,
                items(buffer, buffer_len),
                secret_key_of(*out),
                secret_key_of(*final(out)),
                status,
            )
        },
{
    match (buffer, sk_out) {
        (Some(memory), Some(out)) => {
            let encoded = slice_subrange(memory, 0, buffer_len);
            assert(encoded@ =~= items(buffer, buffer_len));
            let decoded = decode(encoded);
            assert(bytes_decode_answered(decode, items(buffer, buffer_len), decoded));
            match decoded {
                Some(value) => {
                    *out = Some(PQSignatureSchemeSecretKey { inner: value });
                    PQSigningError::Success
                },
                None => PQSigningError::UnknownError,
            }
        },
        _ => PQSigningError::InvalidPointer,
    }
}

/// Reads a public key from its encoded form.
pub fn pq_public_key_deserialize<P, F: FnOnce(&[u8]) -> Option<P>>(
    buffer: Option<&[u8]>,
    buffer_len: usize,
    pk_out: Option<&mut Option<PQSignatureSchemePublicKey<P>>>,
    decode: F,
) -> (status: PQSigningError)
    requires
        readable(buffer, buffer_len),
        forall|encoded: &[u8]| call_requires(decode, (encoded,)),
    ensures
        pk_out is None ==> status == PQSigningError::InvalidPointer,
        pk_out matches Some(out) ==> if buffer is None {
            status == PQSigningError::InvalidPointer && *final(out) == *out
        } else {
            value_read(
                decode,
                items(buffer, buffer_len),
                public_key_of(*out),
                public_key_of(*final(out)),
                status,
            )
        },
{
    match (buffer, pk_out) {
        (Some(memory), Some(out)) => {
            let encoded = slice_subrange(memory, 0, buffer_len);
            assert(encoded@ =~= items(buffer, buffer_len));
            let decoded = decode(encoded);
            assert(bytes_decode_answered(decode, items(buffer, buffer_len), decoded));
            match decoded {
                Some(value) => {
                    *out = Some(PQSignatureSchemePublicKey { inner: value });
                    PQSigningError::Success
                },
                None => PQSigningError::UnknownError,
            }
        },
        _ => PQSigningError::InvalidPointer,
    }
}

/// Reads a signature from its canonical form, which may have zeros behind it.
pub fn pq_signature_deserialize<S, F: FnOnce(&[u8]) -> Option<S>>(
    buffer: Option<&[u8]>,
    buffer_len: usize,
    signature_out: Option<&mut Option<PQSignature<S>>>,
    decode: F,
) -> (status: PQSigningError)
    requires
        readable(buffer, buffer_len),
        forall|encoded: &[u8]| call_requires(decode, (encoded,)),
    ensures
        signature_out is None ==> status == PQSigningError::InvalidPointer,
        signature_out matches Some(out) ==> if buffer is None {
            status == PQSigningError::InvalidPointer && *final(out) == *out
        } else {
            signature_read(
                decode,
                items(buffer, buffer_len),
                signature_of(*out),
                signature_of(*final(out)),
                status,
            )
        },
{
    match (buffer, signature_out) {
        (Some(memory), Some(out)) => {
            let padded = slice_subrange(memory, 0, buffer_len);
            let canonical = match normalize_signature_bytes(padded) {
                Ok(canonical) => canonical,
                Err(refusal) => return refusal,
            };
            assert(padded@ =~= items(buffer, buffer_len));
            let decoded = decode(canonical);
            assert(bytes_decode_answered(
                decode,
                items(buffer, buffer_len).take(SIGNATURE_SIZE as int),
                decoded,
            ));
            match decoded {
                Some(value) => {
                    *out = Some(PQSignature { inner: value });
                    PQSigningError::Success
                },
                None => PQSigningError::UnknownError,
            }
        },
        _ => PQSigningError::InvalidPointer,
    }
}

/// Reads a secret key from JSON text.
pub fn pq_secret_key_from_json<K, F: FnOnce(&str) -> Option<XmssSecretKey<K>>>(
    json: Option<&[u8]>,
    json_len: usize,
    sk_out: Option<&mut Option<PQSignatureSchemeSecretKey<K>>>,
    parse: F,
) -> (status: PQSigningError)
    requires
        readable(json, json_len),
        forall|text: &str| call_requires(parse, (text,)),
    ensures
        sk_out is None ==> status == PQSigningError::InvalidPointer,
        sk_out matches Some(out) ==> if json is None || json_len == 0 {
            status == PQSigningError::InvalidPointer && *final(out) == *out
        } else if !valid_utf8(items(json, json_len)) {
            status == PQSigningError::UnknownError && *final(out) == *out
        } else {
            text_read(
                parse,
                items(json, json_len),
                secret_key_of(*out),
                secret_key_of(*final(out)),
                status,
            )
        },
{
    match (json, sk_out) {
        (Some(memory), Some(out)) => {
            if json_len == 0 {
                return PQSigningError::InvalidPointer;
            }
            let bytes = slice_subrange(memory, 0, json_len);
            assert(bytes@ =~= items(json, json_len));
            let text = match str_of_utf8(bytes) {
                Some(text) => text,
                None => return PQSigningError::UnknownError,
            };
            let parsed = parse(text);
            assert(text_parse_answered(parse, items(json, json_len), parsed));
            match parsed {
                Some(value) => {
                    *out = Some(PQSignatureSchemeSecretKey { inner: value });
                    PQSigningError::Success
                },
                None => PQSigningError::UnknownError,
            }
        },
        _ => PQSigningError::InvalidPointer,
    }
}

/// Reads a public key from JSON text.
pub fn pq_public_key_from_json<P, F: FnOnce(&str) -> Option<P>>(
    json: Option<&[u8]>,
    json_len: usize,
    pk_out: Option<&mut Option<PQSignatureSchemePublicKey<P>>>,
    parse: F,
) -> (status: PQSigningError)
    requires
        readable(json, json_len),
        forall|text: &str| call_requires(parse, (text,)),
    ensures
        pk_out is None ==> status == PQSigningError::InvalidPointer,
        pk_out matches Some(out) ==> if json is None || json_len == 0 {
            status == PQSigningError::InvalidPointer && *final(out) == *out
        } else if !valid_utf8(items(json, json_len)) {
            status == PQSigningError::UnknownError && *final(out) == *out
        } else {
            text_read(
                parse,
                items(json, json_len),
                public_key_of(*out),
                public_key_of(*final(out)),
                status,
            )
        },
{
    match (json, pk_out) {
        (Some(memory), Some(out)) => {
            if json_len == 0 {
                return PQSigningError::InvalidPointer;
            }
            let bytes = slice_subrange(memory, 0, json_len);
            assert(bytes@ =~= items(json, json_len));
            let text = match str_of_utf8(bytes) {
                Some(text) => text,
                None => return PQSigningError::UnknownError,
            };
            let parsed = parse(text);
            assert(text_parse_answered(parse, items(json, json_len), parsed));
            match parsed {
                Some(value) => {
                    *out = Some(PQSignatureSchemePublicKey { inner: value });
                    PQSigningError::Success
                },
                None => PQSigningError::UnknownError,
            }
        },
        _ => PQSigningError::InvalidPointer,
    }
}

/// Reads a signature from JSON text.
pub fn pq_signature_from_json<S, F: FnOnce(&str) -> Option<S>>(
    json: Option<&[u8]>,
    json_len: usize,
    signature_out: Option<&mut Option<PQSignature<S>>>,
    parse: F,
) -> (status: PQSigningError)
    requires
        readable(json, json_len),
        forall|text: &str| call_requires(parse, (text,)),
    ensures
        signature_out is None ==> status == PQSigningError::InvalidPointer,
        signature_out matches Some(out) ==> if json is None || json_len == 0 {
            status == PQSigningError::InvalidPointer && *final(out) == *out
        } else if !valid_utf8(items(json, json_len)) {
            status == PQSigningError::UnknownError && *final(out) == *out
        } else {
            text_read(
                parse,
                items(json, json_len),
                signature_of(*out),
                signature_of(*final(out)),
                status,
            )
        },
{
    match (json, signature_out) {
        (Some(memory), Some(out)) => {
            if json_len == 0 {
                return PQSigningError::InvalidPointer;
            }
            let bytes = slice_subrange(memory, 0, json_len);
            assert(bytes@ =~= items(json, json_len));
            let text = match str_of_utf8(bytes) {
                Some(text) => text,
                None => return PQSigningError::UnknownError,
            };
            let parsed = parse(text);
            assert(text_parse_answered(parse, items(json, json_len), parsed));
            match parsed {
                Some(value) => {
                    *out = Some(PQSignature { inner: value });
                    PQSigningError::Success
                },
                None => PQSigningError::UnknownError,
            }
        },
        _ => PQSigningError::InvalidPointer,
    }
}

} // verus!
