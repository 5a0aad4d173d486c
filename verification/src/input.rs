//! Checks of the plain values that a call brings: epochs, messages, signature bytes.
use vstd::prelude::*;
use vstd::slice::slice_subrange;
use crate::error::PQSigningError;
use crate::memory::{items, readable};

verus! {

/// Length in bytes of the message that a signature is over.
pub const MESSAGE_LENGTH: usize = 32;

/// Length in bytes of a public key in its canonical form.
pub const PUBLIC_KEY_SIZE: usize = 32;

/// Length in bytes of a signature in its canonical form.
pub const SIGNATURE_SIZE: usize = 1208;

/// What a 64-bit epoch is as a slot number of the scheme.
pub open spec fn slot_of_epoch(epoch: u64) -> Result<u32, PQSigningError> {
    if epoch <= u32::MAX {
        Ok(epoch as u32)
    } else {
        Err(PQSigningError::InvalidEpoch)
    }
}

/// Why a message is refused, if it is.
pub open spec fn message_refusal(message: Option<&[u8]>, message_len: usize) -> Option<
    PQSigningError,
> {
    if message is None {
        Some(PQSigningError::InvalidPointer)
    } else if message_len != MESSAGE_LENGTH {
        Some(PQSigningError::InvalidMessageLength)
    } else {
        None
    }
}

/// The memory behind a message pointer holds the message, if its length is the right one.
pub open spec fn message_readable(message: Option<&[u8]>, message_len: usize) -> bool {
    message_len == MESSAGE_LENGTH ==> readable(message, message_len)
}

/// The array with the given contents.
pub open spec fn message_array(contents: Seq<u8>) -> [u8; MESSAGE_LENGTH] {
    choose|array: [u8; MESSAGE_LENGTH]| #[trigger] array@ == contents
}

/// The message that an accepted message pointer leads to.
pub open spec fn message_at(message: Option<&[u8]>) -> [u8; MESSAGE_LENGTH] {
    message_array(items(message, MESSAGE_LENGTH))
}

/// An array is the array with its contents.
pub proof fn lemma_message_array(array: [u8; MESSAGE_LENGTH])
    ensures
        message_array(array@) == array,
{
    let chosen = message_array(array@);
    assert(chosen@ == array@);
    assert forall|i: int| 0 <= i < MESSAGE_LENGTH implies chosen[i] == array[i] by {
        assert(chosen@[i] == array@[i]);
    }
    assert(chosen =~= array);
}

/// Signature bytes with nothing but zeros behind the canonical form.
pub open spec fn is_padded_signature(bytes: Seq<u8>) -> bool {
    &&& SIGNATURE_SIZE <= bytes.len()
    &&& forall|i: int| SIGNATURE_SIZE <= i < bytes.len() ==> bytes[i] == 0
}

/// Converts an epoch to a slot number.
pub fn epoch_to_u32(epoch: u64) -> (slot: Result<u32, PQSigningError>)
    ensures
        slot == slot_of_epoch(epoch),
{
    match u32::try_from(epoch) {
        Ok(slot) => Ok(slot),
        Err(_) => Err(PQSigningError::InvalidEpoch),
    }
}

/// Copies the message out of the caller's memory.
pub fn message_from_ptr(message: Option<&[u8]>, message_len: usize) -> (copied: Result<
    [u8; MESSAGE_LENGTH],
    PQSigningError,
>)
    requires
        message_readable(message, message_len),
    ensures
        copied is Ok <==> message_refusal(message, message_len) is None,
        copied matches Err(refusal) ==> message_refusal(message, message_len) == Some(refusal),
        copied matches Ok(array) ==> array@ == items(message, MESSAGE_LENGTH) && array
            == message_at(message),
{
    match message {
        None => Err(PQSigningError::InvalidPointer),
        Some(memory) => {
            if message_len != MESSAGE_LENGTH {
                return Err(PQSigningError::InvalidMessageLength);
            }
            let mut array: [u8; MESSAGE_LENGTH] = [0u8; MESSAGE_LENGTH];
            let mut i: usize = 0;
            while i < MESSAGE_LENGTH
                invariant
                    i <= MESSAGE_LENGTH <= memory@.len(),
                    forall|j: int| 0 <= j < i ==> array@[j] == memory@[j],
                decreases MESSAGE_LENGTH - i,
            {
                array[i] = memory[i];
                i += 1;
            }
            assert(array@ =~= items(message, MESSAGE_LENGTH));
            proof {
                lemma_message_array(array);
            }
            Ok(array)
        },
    }
}

/// Whether two messages are the same.
pub fn same_message(a: &[u8; MESSAGE_LENGTH], b: &[u8; MESSAGE_LENGTH]) -> (same: bool)
    ensures
        same == (*a == *b),
{
    let mut i: usize = 0;
    while i < MESSAGE_LENGTH
        invariant
            i <= MESSAGE_LENGTH,
            forall|j: int| 0 <= j < i ==> a@[j] == b@[j],
        decreases MESSAGE_LENGTH - i,
    {
        if a[i] != b[i] {
            assert(a@[i as int] != b@[i as int]);
            return false;
        }
        i += 1;
    }
    assert forall|j: int| 0 <= j < MESSAGE_LENGTH implies a[j] == b[j] by {
        assert(a@[j] == b@[j]);
    }
    assert(*a =~= *b);
    true
}

/// Cuts zero padding off the canonical form of a signature.
pub fn normalize_signature_bytes(bytes: &[u8]) -> (canonical: Result<&[u8], PQSigningError>)
    ensures
        canonical is Ok <==> is_padded_signature(bytes@),
        canonical matches Ok(signature) ==> signature@ == bytes@.take(SIGNATURE_SIZE as int),
        canonical matches Err(refusal) ==> refusal == PQSigningError::UnknownError,
{
    if bytes.len() < SIGNATURE_SIZE {
        return Err(PQSigningError::UnknownError);
    }
    let mut i: usize = SIGNATURE_SIZE;
    while i < bytes.len()
        invariant
            SIGNATURE_SIZE <= i <= bytes@.len(),
            forall|j: int| SIGNATURE_SIZE <= j < i ==> bytes@[j] == 0,
        decreases bytes@.len() - i,
    {
        if bytes[i] != 0 {
            return Err(PQSigningError::UnknownError);
        }
        i += 1;
    }
    Ok(slice_subrange(bytes, 0, SIGNATURE_SIZE))
}

/// `count` zeros.
pub open spec fn zeros(count: nat) -> Seq<u8> {
    Seq::new(count, |_i: int| 0u8)
}

/// Zeros behind a signature are accepted, and make no difference to what is taken to be the
/// signature.
pub proof fn law_padding_is_ignored(signature: Seq<u8>, count: nat)
    requires
        signature.len() == SIGNATURE_SIZE,
    ensures
        is_padded_signature(signature),
        signature.take(SIGNATURE_SIZE as int) == signature,
        is_padded_signature(signature + zeros(count)),
        (signature + zeros(count)).take(SIGNATURE_SIZE as int) == signature,
{
    assert(signature.take(SIGNATURE_SIZE as int) =~= signature);
    assert((signature + zeros(count)).take(SIGNATURE_SIZE as int) =~= signature);
}

/// What is taken to be the signature is accepted as it is, and is taken to be itself.
pub proof fn law_normal_form_is_stable(bytes: Seq<u8>)
    requires
        is_padded_signature(bytes),
    ensures
        is_padded_signature(bytes.take(SIGNATURE_SIZE as int)),
        bytes.take(SIGNATURE_SIZE as int).take(SIGNATURE_SIZE as int) == bytes.take(
            SIGNATURE_SIZE as int,
        ),
{
    let signature = bytes.take(SIGNATURE_SIZE as int);
    assert(signature.take(SIGNATURE_SIZE as int) =~= signature);
}

/// Signature bytes that are accepted are the signature and nothing but zeros.
pub proof fn law_nothing_is_lost(bytes: Seq<u8>)
    requires
        is_padded_signature(bytes),
    ensures
        bytes == bytes.take(SIGNATURE_SIZE as int) + zeros((bytes.len() - SIGNATURE_SIZE) as nat),
{
    assert(bytes =~= bytes.take(SIGNATURE_SIZE as int) + zeros(
        (bytes.len() - SIGNATURE_SIZE) as nat,
    ));
}

} // verus!
