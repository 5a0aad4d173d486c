//! Key generation, signing, and the slots that a key can sign for.
//!
//! The scheme is the last argument of the calls that need it. It answers `Ok(Ok(..))` when it
//! succeeds, `Ok(Err(..))` when it refuses, and `Err(())` when it panicked.
use vstd::prelude::*;
use crate::error::PQSigningError;
use crate::handles::{
    PQRange, PQSignature, PQSignatureSchemePublicKey, PQSignatureSchemeSecretKey, XmssSecretKey,
};
use crate::input::{
    epoch_to_u32, message_at, message_from_ptr, message_readable, message_refusal, slot_of_epoch,
    MESSAGE_LENGTH, PUBLIC_KEY_SIZE, SIGNATURE_SIZE,
};

verus! {

/// The number of epochs that the scheme has.
pub const LIFETIME: u64 = 0x1_0000_0000;

/// Why the scheme refuses to sign.
#[derive(Debug, Clone, Copy, PartialEq, Eq, Structural)]
pub enum XmssSignatureError {
    /// No encoding of the message was found.
    EncodingAttemptsExceeded,
    /// The key cannot sign for the slot.
    SlotOutOfRange,
}

/// What a step of key generation comes to.
pub type KeyGenAnswer<P, K> = Result<Result<(P, XmssSecretKey<K>), ()>, ()>;

/// What a step of signing comes to.
pub type SignAnswer<S> = Result<Result<S, XmssSignatureError>, ()>;

/// The epochs that a key can sign for. A null pointer has none.
pub fn pq_get_activation_interval<K>(key: Option<&PQSignatureSchemeSecretKey<K>>) -> (epochs:
    PQRange)
    ensures
        epochs == activation_interval(key),
{
    match key {
        None => PQRange { start: 0, end: 0 },
        Some(key) => PQRange::from(key.inner.activation_slots()),
    }
}

/// The epochs that a key is prepared to sign for: all that it can sign for.
pub fn pq_get_prepared_interval<K>(key: Option<&PQSignatureSchemeSecretKey<K>>) -> (epochs:
    PQRange)
    ensures
        epochs == activation_interval(key),
{
    match key {
        None => PQRange { start: 0, end: 0 },
        Some(key) => PQRange::from(key.inner.activation_slots()),
    }
}

/// The epochs that a key can sign for. A null pointer has none.
pub open spec fn activation_interval<K>(key: Option<&PQSignatureSchemeSecretKey<K>>) -> PQRange {
    match key {
        None => PQRange { start: 0, end: 0 },
        Some(key) => PQRange::of_slots(key.inner.first_slot, key.inner.last_slot),
    }
}

/// Prepares a key for later epochs. Every epoch is prepared from the start, so this does
/// nothing.
pub fn pq_advance_preparation<K>(key: Option<&mut PQSignatureSchemeSecretKey<K>>)
    ensures
        key matches Some(handle) ==> *final(handle) == *handle,
{
}

/// The number of epochs that the scheme has.
pub fn pq_get_lifetime() -> (epochs: u64)
    ensures
        epochs == LIFETIME,
{
    LIFETIME
}

/// Length in bytes of a signature in its canonical form.
pub fn pq_get_signature_size() -> (size: usize)
    ensures
        size == SIGNATURE_SIZE,
{
    SIGNATURE_SIZE
}

/// Length in bytes of a public key in its canonical form.
pub fn pq_get_public_key_size() -> (size: usize)
    ensures
        size == PUBLIC_KEY_SIZE,
{
    PUBLIC_KEY_SIZE
}

/// What the answer of the scheme makes of the pointers that the keys go to.
pub open spec fn keys_handed_out<P, K>(
    answer: KeyGenAnswer<P, K>,
    pk_before: Option<PQSignatureSchemePublicKey<P>>,
    sk_before: Option<PQSignatureSchemeSecretKey<K>>,
    pk_after: Option<PQSignatureSchemePublicKey<P>>,
    sk_after: Option<PQSignatureSchemeSecretKey<K>>,
    status: PQSigningError,
) -> bool {
    match answer {
        Ok(Ok((pk, sk))) => {
            &&& status == PQSigningError::Success
            &&& pk_after == Some(PQSignatureSchemePublicKey { inner: pk })
            &&& sk_after == Some(PQSignatureSchemeSecretKey { inner: sk })
        },
        Ok(Err(_)) => {
            &&& status == PQSigningError::InvalidEpoch
            &&& pk_after == pk_before
            &&& sk_after == sk_before
        },
        Err(_) => {
            &&& status == PQSigningError::UnknownError
            &&& pk_after == pk_before
            &&& sk_after == sk_before
        },
    }
}

/// Generates a key pair that can sign for `num_active_epochs` epochs from `activation_epoch`
/// on.
pub fn pq_key_gen<P, K, F: FnOnce(u64, u64) -> KeyGenAnswer<P, K>>(
    activation_epoch: usize,
    num_active_epochs: usize,
    pk_out: Option<&mut Option<PQSignatureSchemePublicKey<P>>>,
    sk_out: Option<&mut Option<PQSignatureSchemeSecretKey<K>>>,
    xmss_key_gen: F,
) -> (status: PQSigningError)
    requires
        forall|first: u64, count: u64| call_requires(xmss_key_gen, (first, count)),
    ensures
        pk_out is None || sk_out is None ==> {
            &&& status == PQSigningError::InvalidPointer
            &&& pk_out matches Some(pk) ==> *final(pk) == *pk
            &&& sk_out matches Some(sk) ==> *final(sk) == *sk
        },
        pk_out matches Some(pk) ==> (sk_out matches Some(sk) ==> exists|
            answer: KeyGenAnswer<P, K>,
        | #[trigger]
            call_ensures(
                xmss_key_gen,
                (activation_epoch as u64, num_active_epochs as u64),
                answer,
            ) && keys_handed_out(answer, *pk, *sk, *final(pk), *final(sk), status)),
{
    match (pk_out, sk_out) {
        (Some(pk_out), Some(sk_out)) => {
            let answer = xmss_key_gen(activation_epoch as u64, num_active_epochs as u64);
            assert(call_ensures(
                xmss_key_gen,
                (activation_epoch as u64, num_active_epochs as u64),
                answer,
            ));
            match answer {
                Ok(Ok((pk, sk))) => {
                    *pk_out = Some(PQSignatureSchemePublicKey { inner: pk });
                    *sk_out = Some(PQSignatureSchemeSecretKey { inner: sk });
                    PQSigningError::Success
                },
                Ok(Err(_)) => PQSigningError::InvalidEpoch,
                Err(_) => PQSigningError::UnknownError,
            }
        },
        _ => PQSigningError::InvalidPointer,
    }
}

/// What the answer of the scheme makes of the pointer that the signature goes to.
pub open spec fn signature_handed_out<S>(
    answer: SignAnswer<S>,
    before: Option<PQSignature<S>>,
    after: Option<PQSignature<S>>,
    status: PQSigningError,
) -> bool {
    match answer {
        Ok(Ok(signature)) => {
            &&& status == PQSigningError::Success
            &&& after == Some(PQSignature { inner: signature })
        },
        Ok(Err(XmssSignatureError::EncodingAttemptsExceeded)) => {
            &&& status == PQSigningError::EncodingAttemptsExceeded
            &&& after == before
        },
        Ok(Err(XmssSignatureError::SlotOutOfRange)) => {
            &&& status == PQSigningError::InvalidEpoch
            &&& after == before
        },
        Err(_) => {
            &&& status == PQSigningError::UnknownError
            &&& after == before
        },
    }
}

/// Why a request for a signature is refused before the scheme is asked, if it is.
pub open spec fn signing_refusal<K>(
    sk: Option<&PQSignatureSchemeSecretKey<K>>,
    epoch: u64,
    message: Option<&[u8]>,
    message_len: usize,
) -> Option<PQSigningError> {
    if sk is None || message is None {
        Some(PQSigningError::InvalidPointer)
    } else if slot_of_epoch(epoch) is Err {
        Some(PQSigningError::InvalidEpoch)
    } else if message_refusal(message, message_len) is Some {
        message_refusal(message, message_len)
    } else if !sk->0.inner.is_active_at(epoch as u32) {
        Some(PQSigningError::InvalidEpoch)
    } else {
        None
    }
}

/// What a request for a signature comes to: it is refused, or the scheme is asked and its
/// answer is handed on.
pub open spec fn signing<
    K,
    S,
    F: FnOnce(&XmssSecretKey<K>, u32, &[u8; MESSAGE_LENGTH]) -> SignAnswer<S>,
>(
    sk: Option<&PQSignatureSchemeSecretKey<K>>,
    epoch: u64,
    message: Option<&[u8]>,
    message_len: usize,
    xmss_sign: F,
    before: Option<PQSignature<S>>,
    after: Option<PQSignature<S>>,
    status: PQSigningError,
) -> bool {
    match signing_refusal(sk, epoch, message, message_len) {
        Some(refusal) => status == refusal && after == before,
        None => exists|answer: SignAnswer<S>| #[trigger]
            call_ensures(
                xmss_sign,
                (&sk->0.inner, epoch as u32, &message_at(message)),
                answer,
            ) && signature_handed_out(answer, before, after, status),
    }
}

/// Signs a message.
pub fn pq_sign<
    K,
    S,
    F: FnOnce(&XmssSecretKey<K>, u32, &[u8; MESSAGE_LENGTH]) -> SignAnswer<S>,
>(
    sk: Option<&PQSignatureSchemeSecretKey<K>>,
    epoch: u64,
    message: Option<&[u8]>,
    message_len: usize,
    signature_out: Option<&mut Option<PQSignature<S>>>,
    xmss_sign: F,
) -> (status: PQSigningError)
    requires
        message_readable(message, message_len),
        forall|key: &XmssSecretKey<K>, slot: u32, signed: &[u8; MESSAGE_LENGTH]|
            call_requires(xmss_sign, (key, slot, signed)),
    ensures
        signature_out is None ==> status == PQSigningError::InvalidPointer,
        signature_out matches Some(out) ==> signing(
            sk,
            epoch,
            message,
            message_len,
            xmss_sign,
            *out,
            *final(out),
            status,
        ),
{
    match (sk, signature_out) {
        (Some(sk), Some(out)) => {
            if message.is_none() {
                return PQSigningError::InvalidPointer;
            }
            let slot = match epoch_to_u32(epoch) {
                Ok(slot) => slot,
                Err(refusal) => return refusal,
            };
            let signed = match message_from_ptr(message, message_len) {
                Ok(signed) => signed,
                Err(refusal) => return refusal,
            };
            if !sk.inner.activation_slots().contains(&slot) {
                return PQSigningError::InvalidEpoch;
            }
            let answer = xmss_sign(&sk.inner, slot, &signed);
            assert(call_ensures(xmss_sign, (&sk.inner, slot, &message_at(message)), answer));
            match answer {
                Ok(Ok(signature)) => {
                    *out = Some(PQSignature { inner: signature });
                    PQSigningError::Success
                },
                Ok(Err(XmssSignatureError::EncodingAttemptsExceeded)) => {
                    PQSigningError::EncodingAttemptsExceeded
                },
                Ok(Err(XmssSignatureError::SlotOutOfRange)) => PQSigningError::InvalidEpoch,
                Err(_) => PQSigningError::UnknownError,
            }
        },
        _ => PQSigningError::InvalidPointer,
    }
}

/// The epochs below the lifetime are those that are slots.
pub proof fn law_lifetime_is_the_slots(epoch: u64)
    ensures
        slot_of_epoch(epoch) is Ok <==> epoch < LIFETIME,
{
}

/// A well-formed request to sign reaches the scheme exactly for the epochs that the
/// activation interval of the key holds, and is refused as an invalid epoch for every other.
pub proof fn law_signing_follows_the_interval<K>(
    sk: &PQSignatureSchemeSecretKey<K>,
    epoch: u64,
    message: Option<&[u8]>,
)
    requires
        message is Some,
    ensures
        signing_refusal(Some(sk), epoch, message, MESSAGE_LENGTH) == (if activation_interval(
            Some(sk),
        ).holds(epoch) {
            None
        } else {
            Some(PQSigningError::InvalidEpoch)
        }),
{
}

} // verus!
