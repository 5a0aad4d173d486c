//! Plain values and arrays.
use std::ops::RangeInclusive;
use vstd::prelude::*;
use vstd::array::spec_array_update;
use crate::collect::{
    binding_refusal, child_answered, child_pointers_valid, child_taken, children_collected,
    children_taken, collect_child_aggregations, collect_public_keys, collect_raw_xmss_inputs,
    collect_signatures, collect_type1_entries, collect_type2_components,
    collect_type2_message_bindings, component_keys, components_valid, nested, pointers_valid,
    public_keys, raw_input_taken, raw_pointers_valid,
};
use crate::error::PQSigningError;
use crate::handles::{
    PQAggregatedSignatureChild, PQRange, PQRawXmssSignature, PQSignature,
    PQSignatureSchemePublicKey, PQTypeTwoComponent, PQTypeTwoMessageBinding,
};
use crate::input::{
    epoch_to_u32, lemma_message_array, message_array, message_at, message_from_ptr,
    normalize_signature_bytes, same_message, MESSAGE_LENGTH, PUBLIC_KEY_SIZE, SIGNATURE_SIZE,
};
use crate::keys::{pq_get_lifetime, pq_get_public_key_size, pq_get_signature_size};
use crate::memory::{items, write_bytes_to_buffer};

verus! {

/// The lengths and the number of epochs are those of the interface.
pub proof fn law_sizes_are_fixed()
    ensures
        MESSAGE_LENGTH == 32,
        PUBLIC_KEY_SIZE == 32,
        SIGNATURE_SIZE == 1208,
        forall|epochs: u64| #[trigger]
            call_ensures(pq_get_lifetime, (), epochs) ==> epochs == 4294967296,
        forall|size: usize| #[trigger] call_ensures(pq_get_signature_size, (), size) ==> size == 1208,
        forall|size: usize| #[trigger] call_ensures(pq_get_public_key_size, (), size) ==> size == 32,
{
}

/// An epoch is accepted exactly if it fits in 32 bits, and is then the slot of the same number.
pub proof fn law_epoch_is_its_slot(epoch: u64, slot: Result<u32, PQSigningError>)
    requires
        call_ensures(epoch_to_u32, (epoch,), slot),
    ensures
        slot is Ok <==> epoch < 4294967296,
        slot matches Ok(number) ==> number == epoch,
        slot matches Err(refusal) ==> refusal == PQSigningError::InvalidEpoch,
{
}

/// Two accepted epochs with the same slot are the same epoch.
pub proof fn law_slots_tell_epochs_apart(
    a: u64,
    b: u64,
    slot_a: Result<u32, PQSigningError>,
    slot_b: Result<u32, PQSigningError>,
)
    requires
        call_ensures(epoch_to_u32, (a,), slot_a),
        call_ensures(epoch_to_u32, (b,), slot_b),
        slot_a is Ok,
        slot_a == slot_b,
    ensures
        a == b,
{
}

/// A message is copied byte for byte.
pub proof fn law_message_is_copied(
    memory: &[u8],
    copied: Result<[u8; MESSAGE_LENGTH], PQSigningError>,
)
    requires
        call_ensures(message_from_ptr, (Some(memory), 32usize), copied),
        32 <= memory@.len(),
    ensures
        copied is Ok,
        forall|i: int| 0 <= i < 32 ==> copied->Ok_0@[i] == memory@[i],
{
    assert forall|i: int| 0 <= i < 32 implies copied->Ok_0@[i] == memory@[i] by {
        assert(memory@.take(32)[i] == memory@[i]);
    }
}

/// A message that is null or has another length is refused, the pointer being looked at first.
pub proof fn law_message_refusals(
    message: Option<&[u8]>,
    message_len: usize,
    copied: Result<[u8; MESSAGE_LENGTH], PQSigningError>,
)
    requires
        call_ensures(message_from_ptr, (message, message_len), copied),
    ensures
        message is None ==> copied == Err::<[u8; MESSAGE_LENGTH], PQSigningError>(
            PQSigningError::InvalidPointer,
        ),
        message is Some && message_len != 32 ==> copied == Err::<
            [u8; MESSAGE_LENGTH],
            PQSigningError,
        >(PQSigningError::InvalidMessageLength),
{
}

/// Messages are the same exactly if they agree in every byte.
pub proof fn law_messages_are_told_apart(
    a: &[u8; MESSAGE_LENGTH],
    b: &[u8; MESSAGE_LENGTH],
    same: bool,
)
    requires
        call_ensures(same_message, (a, b), same),
    ensures
        same <==> forall|i: int| 0 <= i < 32 ==> a@[i] == b@[i],
{
    if forall|i: int| 0 <= i < 32 ==> a@[i] == b@[i] {
        assert(a@ =~= b@);
        lemma_message_array(*a);
        lemma_message_array(*b);
    }
}

/// Signature bytes are accepted exactly if they are long enough and hold nothing but zeros behind
/// the canonical length, and what is taken to be the signature is then the bytes before.
pub proof fn law_signature_bytes_accepted(bytes: &[u8], canonical: Result<&[u8], PQSigningError>)
    requires
        call_ensures(normalize_signature_bytes, (bytes,), canonical),
    ensures
        canonical is Ok <==> bytes@.len() >= 1208 && forall|i: int|
            1208 <= i < bytes@.len() ==> bytes@[i] == 0,
        canonical matches Ok(signature) ==> {
            &&& signature@.len() == 1208
            &&& forall|i: int| 0 <= i < 1208 ==> signature@[i] == bytes@[i]
        },
        canonical matches Err(refusal) ==> refusal == PQSigningError::UnknownError,
{
}

/// One more zero behind signature bytes that are long enough makes no difference, and any other
/// byte there makes them refused.
pub proof fn law_one_more_byte(
    bytes: &[u8],
    longer: &[u8],
    canonical: Result<&[u8], PQSigningError>,
    canonical_of_longer: Result<&[u8], PQSigningError>,
)
    requires
        call_ensures(normalize_signature_bytes, (bytes,), canonical),
        call_ensures(normalize_signature_bytes, (longer,), canonical_of_longer),
        bytes@.len() >= 1208,
        longer@.len() == bytes@.len() + 1,
        longer@.drop_last() == bytes@,
    ensures
        longer@.last() == 0 ==> (canonical_of_longer is Ok <==> canonical is Ok),
        longer@.last() == 0 && canonical is Ok ==> canonical_of_longer->Ok_0@
            == canonical->Ok_0@,
        longer@.last() != 0 ==> canonical_of_longer is Err,
{
    assert forall|i: int| 0 <= i < bytes@.len() implies longer@[i] == bytes@[i] by {
        assert(longer@.drop_last()[i] == longer@[i]);
    }
    if canonical is Ok && canonical_of_longer is Ok {
        assert(canonical_of_longer->Ok_0@ =~= canonical->Ok_0@);
    }
    if canonical_of_longer is Ok {
        assert forall|i: int| 1208 <= i < bytes@.len() implies bytes@[i] == 0 by {
            assert(longer@[i] == 0);
        }
    }
}

/// Every status code has its number in C, and no other number.
pub proof fn law_status_numbers(error: PQSigningError, code: i32)
    requires
        call_ensures(PQSigningError::code, (error,), code),
    ensures
        code == 0 <==> error == PQSigningError::Success,
        code == 1 <==> error == PQSigningError::EncodingAttemptsExceeded,
        code == 2 <==> error == PQSigningError::InvalidPointer,
        code == 3 <==> error == PQSigningError::InvalidMessageLength,
        code == 4 <==> error == PQSigningError::InvalidEpoch,
        code == 99 <==> error == PQSigningError::UnknownError,
{
}

/// Bytes that fit replace the first bytes of the buffer and leave the rest of it alone.
pub proof fn law_bytes_that_fit_are_written(
    bytes: &[u8],
    buffer: &mut [u8],
    buffer_len: usize,
    written_len: &mut usize,
    status: PQSigningError,
)
    requires
        call_ensures(write_bytes_to_buffer, (bytes, Some(buffer), buffer_len, Some(written_len)), status),
        bytes@.len() <= buffer_len <= old(buffer)@.len(),
    ensures
        status == PQSigningError::Success,
        *final(written_len) == bytes@.len(),
        final(buffer)@.len() == old(buffer)@.len(),
        forall|i: int| 0 <= i < bytes@.len() ==> final(buffer)@[i] == bytes@[i],
        forall|i: int|
            bytes@.len() <= i < old(buffer)@.len() ==> final(buffer)@[i] == old(buffer)@[i],
{
}

/// Bytes that do not fit are not written, and their number is reported.
pub proof fn law_bytes_that_do_not_fit_are_counted(
    bytes: &[u8],
    buffer: &mut [u8],
    buffer_len: usize,
    written_len: &mut usize,
    status: PQSigningError,
)
    requires
        call_ensures(write_bytes_to_buffer, (bytes, Some(buffer), buffer_len, Some(written_len)), status),
        bytes@.len() > buffer_len,
    ensures
        status == PQSigningError::UnknownError,
        *final(written_len) == bytes@.len(),
        final(buffer)@ == old(buffer)@,
{
}

/// A null output pointer is refused, and the other output is left alone.
pub proof fn law_null_outputs_are_refused(
    bytes: &[u8],
    buffer: Option<&mut [u8]>,
    buffer_len: usize,
    written_len: Option<&mut usize>,
    status: PQSigningError,
)
    requires
        call_ensures(write_bytes_to_buffer, (bytes, buffer, buffer_len, written_len), status),
        buffer is None || written_len is None,
    ensures
        status == PQSigningError::InvalidPointer,
        buffer matches Some(memory) ==> final(memory)@ == memory@,
        written_len matches Some(written) ==> *final(written) == *written,
{
}

/// A range of slots becomes the range of epochs with the same numbers: a slot lies in the one
/// exactly if the epoch lies in the other.
pub proof fn law_range_keeps_its_slots(range: RangeInclusive<u32>, epochs: PQRange, slot: u32)
    requires
        call_ensures(<PQRange as From<RangeInclusive<u32>>>::from, (range,), epochs),
        !range@.exhausted,
    ensures
        epochs.start == range@.start,
        epochs.end == range@.end + 1,
        range@.start <= slot <= range@.end <==> epochs.start <= slot && slot < epochs.end,
{
}

/// The gathered public keys are as many as announced, and each is the one behind the pointer in
/// its place; there is no other refusal than for a missing array or a null pointer in it.
pub proof fn law_public_keys_are_all_gathered<'a, P>(
    keys: Option<&'a [Option<&'a PQSignatureSchemePublicKey<P>>]>,
    count: usize,
    collected: Result<Vec<&'a P>, PQSigningError>,
)
    requires
        call_ensures(collect_public_keys::<P>, (keys, count), collected),
    ensures
        collected matches Ok(out) ==> {
            &&& out@.len() == count
            &&& forall|i: int|
                0 <= i < count ==> keys is Some && keys->0@[i] is Some && #[trigger] out@[i]
                    == &keys->0@[i]->0.inner
        },
        collected matches Err(refusal) ==> {
            &&& refusal == PQSigningError::InvalidPointer
            &&& count > 0
            &&& keys is None || exists|i: int| 0 <= i < count && #[trigger] keys->0@[i] is None
        },
{
}

/// The same of signatures.
pub proof fn law_signatures_are_all_gathered<'a, S>(
    signatures: Option<&'a [Option<&'a PQSignature<S>>]>,
    count: usize,
    collected: Result<Vec<&'a S>, PQSigningError>,
)
    requires
        call_ensures(collect_signatures::<S>, (signatures, count), collected),
    ensures
        collected matches Ok(out) ==> {
            &&& out@.len() == count
            &&& forall|i: int|
                0 <= i < count ==> signatures is Some && signatures->0@[i] is Some
                    && #[trigger] out@[i] == &signatures->0@[i]->0.inner
        },
        collected matches Err(refusal) ==> {
            &&& refusal == PQSigningError::InvalidPointer
            &&& count > 0
            &&& signatures is None || exists|i: int|
                0 <= i < count && #[trigger] signatures->0@[i] is None
        },
{
}

/// The gathered raw signatures are as many as announced, each with the key and the signature of
/// its record, and the scheme accepted every one if they were to be checked.
pub proof fn law_raw_signatures_are_all_gathered<
    'a,
    P,
    S,
    V: Fn(&P, u32, &[u8; MESSAGE_LENGTH], &S) -> bool,
>(
    raw_xmss: Option<&'a [PQRawXmssSignature<'a, P, S>]>,
    raw_xmss_count: usize,
    message: &[u8; MESSAGE_LENGTH],
    slot: u32,
    verify_inputs: bool,
    xmss_verify: V,
    out: Vec<(&'a P, &'a S)>,
)
    requires
        call_ensures(
            collect_raw_xmss_inputs::<P, S, V>,
            (raw_xmss, raw_xmss_count, message, slot, verify_inputs, &xmss_verify),
            Ok(out),
        ),
    ensures
        out@.len() == raw_xmss_count,
        forall|i: int|
            0 <= i < raw_xmss_count ==> {
                &&& raw_xmss is Some
                &&& raw_xmss->0@[i].pubkey is Some
                &&& raw_xmss->0@[i].signature is Some
                &&& (#[trigger] out@[i]).0 == &raw_xmss->0@[i].pubkey->0.inner
                &&& out@[i].1 == &raw_xmss->0@[i].signature->0.inner
                &&& verify_inputs ==> call_ensures(
                    xmss_verify,
                    (out@[i].0, slot, message, out@[i].1),
                    true,
                )
            },
{
    assert forall|i: int| 0 <= i < raw_xmss_count implies {
        &&& raw_xmss is Some
        &&& raw_xmss->0@[i].pubkey is Some
        &&& raw_xmss->0@[i].signature is Some
        &&& (#[trigger] out@[i]).0 == &raw_xmss->0@[i].pubkey->0.inner
        &&& out@[i].1 == &raw_xmss->0@[i].signature->0.inner
        &&& verify_inputs ==> call_ensures(xmss_verify, (out@[i].0, slot, message, out@[i].1), true)
    } by {
        let record = raw_xmss->0@[i];
    }
}

/// Raw signatures are refused only for a reason: a missing array, or a first record that is not
/// taken, in which a pointer is null or which the scheme refused.
pub proof fn law_raw_signatures_are_refused_for_a_reason<
    'a,
    P,
    S,
    V: Fn(&P, u32, &[u8; MESSAGE_LENGTH], &S) -> bool,
>(
    raw_xmss: Option<&'a [PQRawXmssSignature<'a, P, S>]>,
    raw_xmss_count: usize,
    message: &[u8; MESSAGE_LENGTH],
    slot: u32,
    verify_inputs: bool,
    xmss_verify: V,
    refusal: PQSigningError,
)
    requires
        call_ensures(
            collect_raw_xmss_inputs::<P, S, V>,
            (raw_xmss, raw_xmss_count, message, slot, verify_inputs, &xmss_verify),
            Err(refusal),
        ),
    ensures
        raw_xmss_count > 0,
        refusal == PQSigningError::InvalidPointer || refusal == PQSigningError::UnknownError,
        refusal == PQSigningError::InvalidPointer ==> raw_xmss is None || exists|i: int|
            {
                &&& 0 <= i < raw_xmss_count
                &&& (#[trigger] raw_xmss->0@[i]).pubkey is None || raw_xmss->0@[i].signature is None
                &&& forall|j: int|
                    0 <= j < i ==> {
                        &&& (#[trigger] raw_xmss->0@[j]).pubkey is Some
                        &&& raw_xmss->0@[j].signature is Some
                        &&& verify_inputs ==> call_ensures(
                            xmss_verify,
                            (
                                &raw_xmss->0@[j].pubkey->0.inner,
                                slot,
                                message,
                                &raw_xmss->0@[j].signature->0.inner,
                            ),
                            true,
                        )
                    }
            },
        refusal == PQSigningError::UnknownError ==> verify_inputs && raw_xmss is Some && exists|i: int|
            {
                &&& 0 <= i < raw_xmss_count
                &&& (#[trigger] raw_xmss->0@[i]).pubkey is Some
                &&& raw_xmss->0@[i].signature is Some
                &&& call_ensures(
                    xmss_verify,
                    (
                        &raw_xmss->0@[i].pubkey->0.inner,
                        slot,
                        message,
                        &raw_xmss->0@[i].signature->0.inner,
                    ),
                    false,
                )
                &&& forall|j: int|
                    0 <= j < i ==> {
                        &&& (#[trigger] raw_xmss->0@[j]).pubkey is Some
                        &&& raw_xmss->0@[j].signature is Some
                        &&& call_ensures(
                            xmss_verify,
                            (
                                &raw_xmss->0@[j].pubkey->0.inner,
                                slot,
                                message,
                                &raw_xmss->0@[j].signature->0.inner,
                            ),
                            true,
                        )
                    }
            },
{
    if refusal == PQSigningError::InvalidPointer && raw_xmss is Some {
        let i = choose|i: int|
            {
                &&& 0 <= i < raw_xmss_count
                &&& !raw_pointers_valid(#[trigger] raw_xmss->0@[i])
                &&& forall|j: int|
                    0 <= j < i ==> raw_input_taken(
                        #[trigger] raw_xmss->0@[j],
                        message,
                        slot,
                        verify_inputs,
                        xmss_verify,
                    )
            };
    }
}

/// The decoder was asked about the `i`-th of these encoded aggregates, with the public keys of
/// that aggregate and no others, and answered `answer`.
pub open spec fn asked_about_child<'a, P, C, D: Fn(&[u8], Vec<&'a P>) -> Option<C>>(
    child: PQAggregatedSignatureChild<'a, P>,
    decode: D,
    answer: Option<C>,
) -> bool {
    &&& child.agg_bytes is Some
    &&& child.pubkey_count > 0 ==> child.pubkeys is Some
    &&& forall|j: int|
        0 <= j < child.pubkey_count ==> #[trigger] child.pubkeys->0@[j] is Some
    &&& exists|encoded: &[u8], pubkeys: Vec<&'a P>|
        {
            &&& encoded@ == child.agg_bytes->0@.take(child.agg_len as int)
            &&& pubkeys@.len() == child.pubkey_count
            &&& forall|j: int|
                0 <= j < child.pubkey_count ==> #[trigger] pubkeys@[j]
                    == &child.pubkeys->0@[j]->0.inner
            &&& #[trigger] call_ensures(decode, (encoded, pubkeys), answer)
        }
}

/// An encoded aggregate that is taken in was asked about.
pub proof fn lemma_asked_about_child<'a, P, C, D: Fn(&[u8], Vec<&'a P>) -> Option<C>>(
    child: PQAggregatedSignatureChild<'a, P>,
    decode: D,
    answer: Option<C>,
)
    requires
        child_pointers_valid(child),
        child_answered(child, decode, answer),
    ensures
        asked_about_child(child, decode, answer),
{
    let (encoded, pubkeys) = choose|encoded: &[u8], pubkeys: Vec<&'a P>|
        {
            &&& encoded@ == items(child.agg_bytes, child.agg_len)
            &&& pubkeys@ == public_keys(child.pubkeys, child.pubkey_count)
            &&& #[trigger] call_ensures(decode, (encoded, pubkeys), answer)
        };
    assert(pubkeys@.len() == child.pubkey_count);
    assert forall|j: int| 0 <= j < child.pubkey_count implies #[trigger] pubkeys@[j]
        == &child.pubkeys->0@[j]->0.inner by {}
    assert(call_ensures(decode, (encoded, pubkeys), answer));
}

/// The decoder was asked about the first `answers.len()` of these encoded aggregates, each with
/// its own public keys, and gave `answers`, in this order.
pub open spec fn asked_about_children<'a, P, C, D: Fn(&[u8], Vec<&'a P>) -> Option<C>>(
    children: Seq<PQAggregatedSignatureChild<'a, P>>,
    decode: D,
    answers: Seq<C>,
) -> bool {
    &&& answers.len() <= children.len()
    &&& forall|i: int|
        0 <= i < answers.len() ==> asked_about_child(
            children[i],
            decode,
            Some(#[trigger] answers[i]),
        )
}

/// Encoded aggregates that are taken in were asked about.
pub proof fn lemma_asked_about_children<'a, P, C, D: Fn(&[u8], Vec<&'a P>) -> Option<C>>(
    children: Seq<PQAggregatedSignatureChild<'a, P>>,
    decode: D,
    taken: Seq<C>,
)
    requires
        children_taken(children, decode, taken),
    ensures
        asked_about_children(children, decode, taken),
{
    assert forall|i: int| 0 <= i < taken.len() implies asked_about_child(
        children[i],
        decode,
        Some(#[trigger] taken[i]),
    ) by {
        assert(child_taken(children[i], decode, taken[i]));
        lemma_asked_about_child(children[i], decode, Some(taken[i]));
    }
}

/// To have been asked about an encoded aggregate is to have been asked about its bytes, as many as
/// it announces, with a vector of its public keys, as many as it announces and each in its place.
pub proof fn law_asked_about_a_child<'a, P, C, D: Fn(&[u8], Vec<&'a P>) -> Option<C>>(
    child: PQAggregatedSignatureChild<'a, P>,
    decode: D,
    answer: Option<C>,
)
    requires
        asked_about_child(child, decode, answer),
    ensures
        child.agg_bytes is Some,
        exists|encoded: &[u8], pubkeys: Vec<&'a P>|
            {
                &&& encoded@ == child.agg_bytes->0@.take(child.agg_len as int)
                &&& pubkeys@.len() == child.pubkey_count
                &&& forall|j: int|
                    0 <= j < child.pubkey_count ==> #[trigger] pubkeys@[j]
                        == &child.pubkeys->0@[j]->0.inner
                &&& #[trigger] call_ensures(decode, (encoded, pubkeys), answer)
            },
{
}

/// To have been asked about encoded aggregates is, of each of them, to have been asked about its
/// bytes, as many as it announces, with a vector of its public keys, as many as it announces and
/// each in its place, and to have given the answer in the same place.
pub proof fn law_asked_about_each_child<'a, P, C, D: Fn(&[u8], Vec<&'a P>) -> Option<C>>(
    children: Seq<PQAggregatedSignatureChild<'a, P>>,
    decode: D,
    answers: Seq<C>,
    i: int,
)
    requires
        asked_about_children(children, decode, answers),
        0 <= i < answers.len(),
    ensures
        children[i].agg_bytes is Some,
        children[i].pubkey_count > 0 ==> children[i].pubkeys is Some,
        forall|j: int|
            0 <= j < children[i].pubkey_count ==> #[trigger] children[i].pubkeys->0@[j] is Some,
        exists|encoded: &[u8], pubkeys: Vec<&'a P>|
            {
                &&& encoded@ == children[i].agg_bytes->0@.take(children[i].agg_len as int)
                &&& pubkeys@.len() == children[i].pubkey_count
                &&& forall|j: int|
                    0 <= j < children[i].pubkey_count ==> #[trigger] pubkeys@[j]
                        == &children[i].pubkeys->0@[j]->0.inner
                &&& #[trigger] call_ensures(decode, (encoded, pubkeys), Some(answers[i]))
            },
{
    assert(asked_about_child(children[i], decode, Some(answers[i])));
}

/// The gathered aggregates are as many as announced, and each is what the decoder answered on the
/// bytes and the public keys of the record in its place.
pub proof fn law_children_are_all_gathered<'a, P, C, D: Fn(&[u8], Vec<&'a P>) -> Option<C>>(
    children: Option<&'a [PQAggregatedSignatureChild<'a, P>]>,
    child_count: usize,
    decode: D,
    out: Vec<C>,
    i: int,
)
    requires
        call_ensures(
            collect_child_aggregations::<P, C, D>,
            (children, child_count, &decode),
            Ok(out),
        ) || call_ensures(
            collect_type1_entries::<P, C, D>,
            (children, child_count, &decode),
            Ok(out),
        ),
    ensures
        out@.len() == child_count,
        child_count > 0 ==> children is Some && asked_about_children(children->0@, decode, out@),
        0 <= i < child_count ==> exists|encoded: &[u8], pubkeys: Vec<&'a P>|
            {
                &&& encoded@ == children->0@[i].agg_bytes->0@.take(children->0@[i].agg_len as int)
                &&& pubkeys@.len() == children->0@[i].pubkey_count
                &&& forall|j: int|
                    0 <= j < children->0@[i].pubkey_count ==> #[trigger] pubkeys@[j]
                        == &children->0@[i].pubkeys->0@[j]->0.inner
                &&& #[trigger] call_ensures(decode, (encoded, pubkeys), Some(out@[i]))
            },
{
    if child_count > 0 {
        lemma_asked_about_children(children->0@, decode, out@);
        if 0 <= i < child_count {
            law_asked_about_each_child(children->0@, decode, out@, i);
        }
    }
}

/// Encoded aggregates are refused only for a reason: a missing array, or a first record that is
/// not taken, in which a pointer is null or which does not decode.
pub proof fn law_children_are_refused_for_a_reason<
    'a,
    P,
    C,
    D: Fn(&[u8], Vec<&'a P>) -> Option<C>,
>(
    children: Option<&'a [PQAggregatedSignatureChild<'a, P>]>,
    child_count: usize,
    decode: D,
    refusal: PQSigningError,
)
    requires
        call_ensures(
            collect_child_aggregations::<P, C, D>,
            (children, child_count, &decode),
            Err(refusal),
        ) || call_ensures(
            collect_type1_entries::<P, C, D>,
            (children, child_count, &decode),
            Err(refusal),
        ),
    ensures
        child_count > 0,
        refusal == PQSigningError::InvalidPointer || refusal == PQSigningError::UnknownError,
        refusal == PQSigningError::InvalidPointer ==> children is None || exists|taken: Seq<C>|
            {
                let child = children->0@[taken.len() as int];
                &&& taken.len() < child_count
                &&& #[trigger] asked_about_children(children->0@, decode, taken)
                &&& child.agg_bytes is None || (child.pubkey_count > 0 && (child.pubkeys is None
                    || exists|j: int|
                    0 <= j < child.pubkey_count && #[trigger] child.pubkeys->0@[j] is None))
            },
        refusal == PQSigningError::UnknownError ==> children is Some && exists|taken: Seq<C>|
            {
                &&& taken.len() < child_count
                &&& #[trigger] asked_about_children(children->0@, decode, taken)
                &&& asked_about_child(children->0@[taken.len() as int], decode, None::<C>)
            },
{
    if refusal == PQSigningError::UnknownError {
        let taken = choose|taken: Seq<C>|
            {
                &&& taken.len() < child_count
                &&& #[trigger] children_taken(children->0@, decode, taken)
                &&& child_pointers_valid(children->0@[taken.len() as int])
                &&& child_answered(children->0@[taken.len() as int], decode, None::<C>)
            };
        lemma_asked_about_child(children->0@[taken.len() as int], decode, None::<C>);
        lemma_asked_about_children(children->0@, decode, taken);
    }
    if refusal == PQSigningError::InvalidPointer && children is Some {
        let taken = choose|taken: Seq<C>|
            {
                &&& taken.len() < child_count
                &&& #[trigger] children_taken(children->0@, decode, taken)
                &&& !child_pointers_valid(children->0@[taken.len() as int])
            };
        let child = children->0@[taken.len() as int];
        assert(!child_pointers_valid(child));
        lemma_asked_about_children(children->0@, decode, taken);
    }
}

/// The gathered public keys of components are as many vectors as components, each as long as its
/// component says, and each key is the one behind the pointer in its place of its own component.
pub proof fn law_component_keys_are_all_gathered<'a, P>(
    components: Option<&'a [PQTypeTwoComponent<'a, P>]>,
    component_count: usize,
    collected: Result<Vec<Vec<&'a P>>, PQSigningError>,
)
    requires
        call_ensures(collect_type2_components::<P>, (components, component_count), collected),
    ensures
        collected matches Ok(out) ==> {
            &&& out@.len() == component_count
            &&& forall|i: int|
                0 <= i < component_count ==> components is Some && (#[trigger] out@[i])@.len()
                    == components->0@[i].pubkey_count
            &&& forall|i: int, j: int|
                0 <= i < component_count && 0 <= j < components->0@[i].pubkey_count ==> {
                    &&& components->0@[i].pubkeys is Some
                    &&& components->0@[i].pubkeys->0@[j] is Some
                    &&& #[trigger] out@[i]@[j] == &components->0@[i].pubkeys->0@[j]->0.inner
                }
        },
        collected matches Err(refusal) ==> {
            &&& refusal == PQSigningError::InvalidPointer
            &&& component_count > 0
            &&& components is None || exists|i: int|
                {
                    &&& 0 <= i < component_count
                    &&& (#[trigger] components->0@[i]).pubkey_count > 0
                    &&& components->0@[i].pubkeys is None || exists|j: int|
                        0 <= j < components->0@[i].pubkey_count
                            && #[trigger] components->0@[i].pubkeys->0@[j] is None
                }
        },
{
    if collected is Ok {
        lemma_component_keys(components, component_count, collected->Ok_0@);
    }
}

/// What it is for the contents of vectors to be the keys of components.
pub proof fn lemma_component_keys<'a, P>(
    components: Option<&'a [PQTypeTwoComponent<'a, P>]>,
    component_count: usize,
    out: Seq<Vec<&'a P>>,
)
    requires
        components_valid(components, component_count),
        nested(out) == component_keys(components, component_count),
    ensures
        out.len() == component_count,
        forall|i: int|
            0 <= i < component_count ==> components is Some && (#[trigger] out[i])@.len()
                == components->0@[i].pubkey_count,
        forall|i: int, j: int|
            0 <= i < component_count && 0 <= j < components->0@[i].pubkey_count ==> {
                &&& components->0@[i].pubkeys is Some
                &&& components->0@[i].pubkeys->0@[j] is Some
                &&& #[trigger] out[i]@[j] == &components->0@[i].pubkeys->0@[j]->0.inner
            },
{
    assert(nested(out).len() == out.len());
    assert forall|i: int| 0 <= i < component_count implies components is Some
        && (#[trigger] out[i])@.len() == components->0@[i].pubkey_count by {
        assert(nested(out)[i] == out[i]@);
    }
    assert forall|i: int, j: int|
        0 <= i < component_count && 0 <= j < components->0@[i].pubkey_count implies {
        &&& components->0@[i].pubkeys is Some
        &&& components->0@[i].pubkeys->0@[j] is Some
        &&& #[trigger] out[i]@[j] == &components->0@[i].pubkeys->0@[j]->0.inner
    } by {
        assert(nested(out)[i] == out[i]@);
        let component = components->0@[i];
        assert(pointers_valid(component.pubkeys, component.pubkey_count));
        let pointer = component.pubkeys->0@[j];
    }
}

/// The gathered bindings are as many as announced, and each has the message and the epoch of the
/// record in its place.
pub proof fn law_bindings_are_all_gathered<'a>(
    bindings: Option<&'a [PQTypeTwoMessageBinding<'a>]>,
    binding_count: usize,
    out: Vec<([u8; MESSAGE_LENGTH], u32)>,
)
    requires
        call_ensures(collect_type2_message_bindings, (bindings, binding_count), Ok(out)),
        forall|i: int|
            0 <= i < binding_count && bindings is Some && (#[trigger] bindings->0@[i]).message is Some
                && bindings->0@[i].message_len == 32 ==> bindings->0@[i].message->0@.len() >= 32,
    ensures
        out@.len() == binding_count,
        forall|i: int|
            0 <= i < binding_count ==> {
                &&& bindings is Some
                &&& bindings->0@[i].message is Some
                &&& bindings->0@[i].message_len == 32
                &&& (#[trigger] out@[i]).0@ == bindings->0@[i].message->0@.take(32)
                &&& out@[i].1 == bindings->0@[i].epoch
            },
{
    assert forall|i: int| 0 <= i < binding_count implies {
        &&& bindings is Some
        &&& bindings->0@[i].message is Some
        &&& bindings->0@[i].message_len == 32
        &&& (#[trigger] out@[i]).0@ == bindings->0@[i].message->0@.take(32)
        &&& out@[i].1 == bindings->0@[i].epoch
    } by {
        let binding = bindings->0@[i];
        assert(binding_refusal(binding) is None);
        lemma_message_at(binding.message->0);
    }
}

/// There is an array whose first `count` bytes are those of `contents`.
pub proof fn lemma_array_of(contents: Seq<u8>, count: nat) -> (array: [u8; MESSAGE_LENGTH])
    requires
        contents.len() == 32,
        count <= 32,
    ensures
        forall|i: int| 0 <= i < count ==> array@[i] == contents[i],
    decreases count,
{
    if count == 0 {
        message_array(contents)
    } else {
        let shorter = lemma_array_of(contents, (count - 1) as nat);
        let array = spec_array_update(shorter, count - 1, contents[count - 1]);
        assert(array@ == shorter@.update(count - 1, contents[count - 1]));
        array
    }
}

/// The message at a pointer has the bytes behind it.
pub proof fn lemma_message_at(memory: &[u8])
    requires
        memory@.len() >= 32,
    ensures
        message_at(Some(memory))@ == memory@.take(32),
{
    let contents = memory@.take(32);
    let array = lemma_array_of(contents, 32);
    assert(array@ =~= contents);
}

/// Bindings are refused only for a reason, which is that of the first one that is refused: an
/// epoch that is no slot, a null message, or a message of another length.
pub proof fn law_bindings_are_refused_for_a_reason<'a>(
    bindings: Option<&'a [PQTypeTwoMessageBinding<'a>]>,
    binding_count: usize,
    refusal: PQSigningError,
)
    requires
        call_ensures(collect_type2_message_bindings, (bindings, binding_count), Err(refusal)),
    ensures
        binding_count > 0,
        bindings is None ==> refusal == PQSigningError::InvalidPointer,
        bindings is Some ==> exists|i: int|
            {
                &&& 0 <= i < binding_count
                &&& refusal == (if (#[trigger] bindings->0@[i]).epoch >= 4294967296 {
                    PQSigningError::InvalidEpoch
                } else if bindings->0@[i].message is None {
                    PQSigningError::InvalidPointer
                } else {
                    PQSigningError::InvalidMessageLength
                })
                &&& bindings->0@[i].epoch < 4294967296 && bindings->0@[i].message is Some
                    ==> bindings->0@[i].message_len != 32
                &&& forall|j: int|
                    0 <= j < i ==> {
                        &&& (#[trigger] bindings->0@[j]).epoch < 4294967296
                        &&& bindings->0@[j].message is Some
                        &&& bindings->0@[j].message_len == 32
                    }
            },
{
    if bindings is Some {
        let i = choose|i: int|
            {
                &&& 0 <= i < binding_count
                &&& binding_refusal(#[trigger] bindings->0@[i]) == Some(refusal)
                &&& forall|j: int|
                    0 <= j < i ==> binding_refusal(#[trigger] bindings->0@[j]) is None
            };
        assert forall|j: int| 0 <= j < i implies {
            &&& (#[trigger] bindings->0@[j]).epoch < 4294967296
            &&& bindings->0@[j].message is Some
            &&& bindings->0@[j].message_len == 32
        } by {
            assert(binding_refusal(bindings->0@[j]) is None);
        }
    }
}

/// What gathering encoded aggregates came to, in terms of what the decoder was asked.
pub proof fn lemma_children_outcome<'a, P, C, D: Fn(&[u8], Vec<&'a P>) -> Option<C>>(
    children: Option<&'a [PQAggregatedSignatureChild<'a, P>]>,
    child_count: usize,
    decode: D,
    collected: Result<Seq<C>, PQSigningError>,
)
    requires
        child_count > 0 ==> children is Some,
        children_collected(children, child_count, decode, collected),
    ensures
        collected matches Ok(decoded) ==> {
            &&& decoded.len() == child_count
            &&& child_count > 0 ==> asked_about_children(children->0@, decode, decoded)
        },
        collected matches Err(refusal) ==> {
            &&& child_count > 0
            &&& refusal == PQSigningError::InvalidPointer || refusal
                == PQSigningError::UnknownError
            &&& refusal == PQSigningError::InvalidPointer ==> exists|taken: Seq<C>|
                {
                    let child = children->0@[taken.len() as int];
                    &&& taken.len() < child_count
                    &&& #[trigger] asked_about_children(children->0@, decode, taken)
                    &&& child.agg_bytes is None || (child.pubkey_count > 0 && (child.pubkeys is None
                        || exists|j: int|
                        0 <= j < child.pubkey_count && #[trigger] child.pubkeys->0@[j] is None))
                }
            &&& refusal == PQSigningError::UnknownError ==> exists|taken: Seq<C>|
                {
                    &&& taken.len() < child_count
                    &&& #[trigger] asked_about_children(children->0@, decode, taken)
                    &&& asked_about_child(children->0@[taken.len() as int], decode, None::<C>)
                }
        },
{
    match collected {
        Ok(decoded) => {
            if child_count > 0 {
                lemma_asked_about_children(children->0@, decode, decoded);
            }
        },
        Err(PQSigningError::InvalidPointer) => {
            let taken = choose|taken: Seq<C>|
                {
                    &&& taken.len() < child_count
                    &&& #[trigger] children_taken(children->0@, decode, taken)
                    &&& !child_pointers_valid(children->0@[taken.len() as int])
                };
            let child = children->0@[taken.len() as int];
            assert(!child_pointers_valid(child));
            lemma_asked_about_children(children->0@, decode, taken);
        },
        Err(_) => {
            let taken = choose|taken: Seq<C>|
                {
                    &&& taken.len() < child_count
                    &&& #[trigger] children_taken(children->0@, decode, taken)
                    &&& child_pointers_valid(children->0@[taken.len() as int])
                    &&& child_answered(children->0@[taken.len() as int], decode, None::<C>)
                };
            lemma_asked_about_child(children->0@[taken.len() as int], decode, None::<C>);
            lemma_asked_about_children(children->0@, decode, taken);
        },
    }
}

} // verus!
