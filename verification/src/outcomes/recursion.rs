//! Aggregating on top of earlier aggregates.
use vstd::prelude::*;
use crate::collect::{children_collected, raw_inputs_collected, raw_inputs_unverified, raw_pairs};
use crate::error::PQSigningError;
use crate::handles::{PQAggregatedSignatureChild, PQRawXmssSignature};
use crate::input::{lemma_message_array, MESSAGE_LENGTH};
use crate::last_error::LastError;
use crate::memory::{output_before, Output};
use crate::outcomes::inputs::{asked_about_child, asked_about_children, lemma_children_outcome};
use crate::proving::{
    aggregate_signatures_impl, aggregation_answered, pq_aggregate_signatures_recursive,
    pq_aggregate_signatures_recursive_unverified, proof_reported, recursive_proving, refused,
    CallState, ProvingAnswer,
};

verus! {

/// An aggregation of signatures and earlier aggregates succeeds only with all of them: the proof
/// system was asked about as many aggregates as announced, each what the decoder gave on the
/// record in its place, and about as many pairs as announced, each made of the key and the
/// signature of the record in its place, with the message, the slot and the rate of the request,
/// and the bytes in the buffer are its answer to that.
pub proof fn law_recursive_impl_is_of_all_the_parts<
    'a,
    P,
    S,
    C,
    V: Fn(&P, u32, &[u8; MESSAGE_LENGTH], &S) -> bool,
    D: Fn(&[u8], Vec<&'a P>) -> Option<C>,
    A: FnOnce(Vec<C>, Vec<(&'a P, &'a S)>, [u8; MESSAGE_LENGTH], u32, usize) -> ProvingAnswer,
>(
    last_error: &mut LastError,
    children: Option<&'a [PQAggregatedSignatureChild<'a, P>]>,
    child_count: usize,
    raw_xmss: Option<&'a [PQRawXmssSignature<'a, P, S>]>,
    raw_xmss_count: usize,
    message: Option<&[u8]>,
    message_len: usize,
    signed: [u8; MESSAGE_LENGTH],
    epoch: u64,
    log_inv_rate: usize,
    buffer: Option<&mut [u8]>,
    buffer_len: usize,
    written_len: Option<&mut usize>,
    verify_inputs: bool,
    xmss_verify: V,
    decode: D,
    aggregate: A,
)
    requires
        call_ensures(
            aggregate_signatures_impl::<P, S, C, V, D, A>,
            (
                last_error,
                children,
                child_count,
                raw_xmss,
                raw_xmss_count,
                message,
                message_len,
                epoch,
                log_inv_rate,
                buffer,
                buffer_len,
                written_len,
                verify_inputs,
                xmss_verify,
                decode,
                aggregate,
            ),
            PQSigningError::Success,
        ),
        message matches Some(memory) ==> message_len == 32 ==> signed@ == memory@.take(32),
    ensures
        child_count > 0 || raw_xmss_count > 0,
        child_count > 0 ==> children is Some,
        raw_xmss_count > 0 ==> raw_xmss is Some,
        message is Some,
        message_len == 32,
        epoch < 4294967296,
        buffer is Some,
        written_len is Some,
        forall|i: int|
            0 <= i < raw_xmss_count ==> {
                &&& (#[trigger] raw_xmss->0@[i]).pubkey is Some
                &&& raw_xmss->0@[i].signature is Some
            },
        forall|i: int|
            0 <= i < raw_xmss_count && verify_inputs ==> call_ensures(
                xmss_verify,
                (
                    &(#[trigger] raw_xmss->0@[i]).pubkey->0.inner,
                    epoch as u32,
                    &signed,
                    &raw_xmss->0@[i].signature->0.inner,
                ),
                true,
            ),
        exists|child_inputs: Vec<C>, raw_inputs: Vec<(&'a P, &'a S)>, bytes: Vec<u8>|
            {
                &&& child_inputs@.len() == child_count
                &&& child_count > 0 ==> asked_about_children(
                    children->0@,
                    decode,
                    child_inputs@,
                )
                &&& raw_inputs@.len() == raw_xmss_count
                &&& forall|i: int|
                    0 <= i < raw_xmss_count ==> (#[trigger] raw_inputs@[i]).0
                        == &raw_xmss->0@[i].pubkey->0.inner && raw_inputs@[i].1
                        == &raw_xmss->0@[i].signature->0.inner
                &&& #[trigger] call_ensures(
                    aggregate,
                    (child_inputs, raw_inputs, signed, epoch as u32, log_inv_rate),
                    Ok(Ok(bytes)),
                )
                &&& bytes@.len() <= buffer_len
                &&& written_len matches Some(written) ==> *final(written) == bytes@.len()
                &&& buffer matches Some(memory) ==> final(memory)@ == bytes@ + memory@.skip(
                    bytes@.len() as int,
                )
            },
        final(last_error)@ == old(last_error)@,
{
    lemma_message_array(signed);
    let before = CallState { output: output_before(buffer, written_len), detail: old(last_error)@ };
    let after = CallState {
        output: Output {
            buffer: match buffer {
                Some(memory) => Some(final(memory)@),
                None => None,
            },
            written_len: match written_len {
                Some(written) => Some(*final(written)),
                None => None,
            },
        },
        detail: final(last_error)@,
    };
    let raw_inputs = choose|raw_inputs: Result<Seq<(&'a P, &'a S)>, PQSigningError>|
        {
            &&& #[trigger] raw_inputs_collected(
                raw_xmss,
                raw_xmss_count,
                &signed,
                epoch as u32,
                verify_inputs,
                xmss_verify,
                raw_inputs,
            )
            &&& recursive_proving(
                raw_inputs,
                children,
                child_count,
                signed,
                epoch as u32,
                log_inv_rate,
                buffer_len,
                decode,
                aggregate,
                before,
                after,
                PQSigningError::Success,
            )
        };
    let pairs = raw_pairs(raw_xmss, raw_xmss_count);
    if raw_inputs is Ok {
        assert(raw_inputs->Ok_0 == pairs);
        let collected = choose|collected: Result<Seq<C>, PQSigningError>|
            {
                &&& #[trigger] children_collected(children, child_count, decode, collected)
                &&& match collected {
                    Err(refusal) => refused(refusal, before, after, PQSigningError::Success),
                    Ok(decoded) => exists|answer: ProvingAnswer|
                        {
                            &&& #[trigger] aggregation_answered(
                                aggregate,
                                decoded,
                                pairs,
                                signed,
                                epoch as u32,
                                log_inv_rate,
                                answer,
                            )
                            &&& proof_reported(
                                answer,
                                "aggregate_type_1"@,
                                buffer_len,
                                before,
                                after,
                                PQSigningError::Success,
                            )
                        },
                }
            };
        lemma_children_outcome(children, child_count, decode, collected);
        if collected is Ok {
            let decoded = collected->Ok_0;
            let answer = choose|answer: ProvingAnswer|
                {
                    &&& #[trigger] aggregation_answered(
                        aggregate,
                        decoded,
                        pairs,
                        signed,
                        epoch as u32,
                        log_inv_rate,
                        answer,
                    )
                    &&& proof_reported(
                        answer,
                        "aggregate_type_1"@,
                        buffer_len,
                        before,
                        after,
                        PQSigningError::Success,
                    )
                };
            let (child_inputs, raw_vector) = choose|
                child_inputs: Vec<C>,
                raw_vector: Vec<(&'a P, &'a S)>,
            |
                {
                    &&& child_inputs@ == decoded
                    &&& raw_vector@ == pairs
                    &&& #[trigger] call_ensures(
                        aggregate,
                        (child_inputs, raw_vector, signed, epoch as u32, log_inv_rate),
                        answer,
                    )
                };
            let bytes = answer->Ok_0->Ok_0;
            assert(answer == Ok::<Result<Vec<u8>, String>, ()>(Ok(bytes)));
            assert(call_ensures(
                aggregate,
                (child_inputs, raw_vector, signed, epoch as u32, log_inv_rate),
                Ok(Ok(bytes)),
            ));
        }
    }
}

/// An aggregation of signatures and earlier aggregates that is in order reaches the proof system
/// with all of them, and its answer is handed on, unless one of them has a null pointer, does not
/// decode or is refused by the scheme.
pub proof fn law_recursive_impl_reaches_the_prover<
    'a,
    P,
    S,
    C,
    V: Fn(&P, u32, &[u8; MESSAGE_LENGTH], &S) -> bool,
    D: Fn(&[u8], Vec<&'a P>) -> Option<C>,
    A: FnOnce(Vec<C>, Vec<(&'a P, &'a S)>, [u8; MESSAGE_LENGTH], u32, usize) -> ProvingAnswer,
>(
    last_error: &mut LastError,
    children: Option<&'a [PQAggregatedSignatureChild<'a, P>]>,
    child_count: usize,
    raw_xmss: Option<&'a [PQRawXmssSignature<'a, P, S>]>,
    raw_xmss_count: usize,
    message: Option<&[u8]>,
    message_len: usize,
    signed: [u8; MESSAGE_LENGTH],
    epoch: u64,
    log_inv_rate: usize,
    buffer: Option<&mut [u8]>,
    buffer_len: usize,
    written_len: Option<&mut usize>,
    verify_inputs: bool,
    xmss_verify: V,
    decode: D,
    aggregate: A,
    status: PQSigningError,
)
    requires
        call_ensures(
            aggregate_signatures_impl::<P, S, C, V, D, A>,
            (
                last_error,
                children,
                child_count,
                raw_xmss,
                raw_xmss_count,
                message,
                message_len,
                epoch,
                log_inv_rate,
                buffer,
                buffer_len,
                written_len,
                verify_inputs,
                xmss_verify,
                decode,
                aggregate,
            ),
            status,
        ),
        child_count > 0 || raw_xmss_count > 0,
        child_count > 0 ==> children is Some,
        raw_xmss_count > 0 ==> raw_xmss is Some,
        message matches Some(memory) && signed@ == memory@.take(32),
        message_len == 32,
        epoch < 4294967296,
        buffer is Some,
        written_len is Some,
    ensures
        ({
            &&& status == PQSigningError::UnknownError
            &&& verify_inputs && raw_xmss is Some && exists|i: int|
                {
                    &&& 0 <= i < raw_xmss_count
                    &&& raw_xmss->0@[i].pubkey is Some
                    &&& raw_xmss->0@[i].signature is Some
                    &&& call_ensures(
                        xmss_verify,
                        (
                            &(#[trigger] raw_xmss->0@[i]).pubkey->0.inner,
                            epoch as u32,
                            &signed,
                            &raw_xmss->0@[i].signature->0.inner,
                        ),
                        false,
                    )
                    &&& forall|j: int|
                        0 <= j < i ==> {
                            &&& (#[trigger] raw_xmss->0@[j]).pubkey is Some
                            &&& raw_xmss->0@[j].signature is Some
                            &&& verify_inputs ==> call_ensures(
                                xmss_verify,
                                (
                                    &raw_xmss->0@[j].pubkey->0.inner,
                                    epoch as u32,
                                    &signed,
                                    &raw_xmss->0@[j].signature->0.inner,
                                ),
                                true,
                            )
                        }
                }
            &&& final(last_error)@ == old(last_error)@
            &&& buffer matches Some(memory) ==> final(memory)@ == memory@
            &&& written_len matches Some(written) ==> *final(written) == *written
        }) || ({
            &&& status == PQSigningError::InvalidPointer
            &&& exists|i: int|
                {
                    &&& 0 <= i < raw_xmss_count
                    &&& (#[trigger] raw_xmss->0@[i]).pubkey is None
                        || raw_xmss->0@[i].signature is None
                    &&& forall|j: int|
                        0 <= j < i ==> {
                            &&& (#[trigger] raw_xmss->0@[j]).pubkey is Some
                            &&& raw_xmss->0@[j].signature is Some
                            &&& verify_inputs ==> call_ensures(
                                xmss_verify,
                                (
                                    &raw_xmss->0@[j].pubkey->0.inner,
                                    epoch as u32,
                                    &signed,
                                    &raw_xmss->0@[j].signature->0.inner,
                                ),
                                true,
                            )
                        }
                }
            &&& final(last_error)@ == old(last_error)@
            &&& buffer matches Some(memory) ==> final(memory)@ == memory@
            &&& written_len matches Some(written) ==> *final(written) == *written
        }) || ({
            &&& status == PQSigningError::InvalidPointer
            &&& forall|j: int|
                0 <= j < raw_xmss_count ==> {
                    &&& (#[trigger] raw_xmss->0@[j]).pubkey is Some
                    &&& raw_xmss->0@[j].signature is Some
                    &&& verify_inputs ==> call_ensures(
                        xmss_verify,
                        (
                            &raw_xmss->0@[j].pubkey->0.inner,
                            epoch as u32,
                            &signed,
                            &raw_xmss->0@[j].signature->0.inner,
                        ),
                        true,
                    )
                }
            &&& child_count > 0
            &&& exists|taken: Seq<C>|
                {
                    let child = children->0@[taken.len() as int];
                    &&& taken.len() < child_count
                    &&& #[trigger] asked_about_children(children->0@, decode, taken)
                    &&& child.agg_bytes is None || (child.pubkey_count > 0 && (child.pubkeys is None
                        || exists|j: int|
                        0 <= j < child.pubkey_count && #[trigger] child.pubkeys->0@[j] is None))
                }
            &&& final(last_error)@ == old(last_error)@
            &&& buffer matches Some(memory) ==> final(memory)@ == memory@
            &&& written_len matches Some(written) ==> *final(written) == *written
        }) || ({
            &&& status == PQSigningError::UnknownError
            &&& forall|j: int|
                0 <= j < raw_xmss_count ==> {
                    &&& (#[trigger] raw_xmss->0@[j]).pubkey is Some
                    &&& raw_xmss->0@[j].signature is Some
                    &&& verify_inputs ==> call_ensures(
                        xmss_verify,
                        (
                            &raw_xmss->0@[j].pubkey->0.inner,
                            epoch as u32,
                            &signed,
                            &raw_xmss->0@[j].signature->0.inner,
                        ),
                        true,
                    )
                }
            &&& child_count > 0
            &&& exists|taken: Seq<C>|
                {
                    &&& taken.len() < child_count
                    &&& #[trigger] asked_about_children(children->0@, decode, taken)
                    &&& asked_about_child(children->0@[taken.len() as int], decode, None::<C>)
                }
            &&& final(last_error)@ == old(last_error)@
            &&& buffer matches Some(memory) ==> final(memory)@ == memory@
            &&& written_len matches Some(written) ==> *final(written) == *written
        }) || exists|child_inputs: Vec<C>, raw_inputs: Vec<(&'a P, &'a S)>, answer: ProvingAnswer|
            {
                &&& forall|j: int|
                    0 <= j < raw_xmss_count ==> {
                        &&& (#[trigger] raw_xmss->0@[j]).pubkey is Some
                        &&& raw_xmss->0@[j].signature is Some
                        &&& verify_inputs ==> call_ensures(
                            xmss_verify,
                            (
                                &raw_xmss->0@[j].pubkey->0.inner,
                                epoch as u32,
                                &signed,
                                &raw_xmss->0@[j].signature->0.inner,
                            ),
                            true,
                        )
                    }
                &&& child_inputs@.len() == child_count
                &&& child_count > 0 ==> asked_about_children(
                    children->0@,
                    decode,
                    child_inputs@,
                )
                &&& raw_inputs@.len() == raw_xmss_count
                &&& forall|i: int|
                    0 <= i < raw_xmss_count ==> (#[trigger] raw_inputs@[i]).0
                        == &raw_xmss->0@[i].pubkey->0.inner && raw_inputs@[i].1
                        == &raw_xmss->0@[i].signature->0.inner
                &&& #[trigger] call_ensures(
                    aggregate,
                    (child_inputs, raw_inputs, signed, epoch as u32, log_inv_rate),
                    answer,
                )
                &&& answer matches Ok(Ok(bytes)) ==> {
                    &&& final(last_error)@ == old(last_error)@
                    &&& buffer is None || written_len is None ==> status
                        == PQSigningError::InvalidPointer
                    &&& buffer is Some && written_len is Some ==> status == (if bytes@.len()
                        <= buffer_len {
                        PQSigningError::Success
                    } else {
                        PQSigningError::UnknownError
                    })
                    &&& buffer is Some ==> (written_len matches Some(written) ==> *final(written)
                        == bytes@.len())
                    &&& written_len is Some && bytes@.len() <= buffer_len ==> (
                    buffer matches Some(memory) ==> final(memory)@ == bytes@ + memory@.skip(
                        bytes@.len() as int,
                    ))
                }
                &&& answer matches Ok(Err(err)) ==> {
                    &&& status == PQSigningError::UnknownError
                    &&& final(last_error)@ == Some(
                        "leanvm-xmss: "@ + "aggregate_type_1"@ + " failed: "@ + err@,
                    )
                    &&& written_len matches Some(written) ==> *final(written) == *written
                }
                &&& answer matches Err(_) ==> {
                    &&& status == PQSigningError::UnknownError
                    &&& final(last_error)@ == old(last_error)@
                    &&& written_len matches Some(written) ==> *final(written) == *written
                }
            },
        status != PQSigningError::Success ==> (buffer matches Some(memory) ==> final(memory)@
            == memory@),
{
    lemma_message_array(signed);
    let before = CallState { output: output_before(buffer, written_len), detail: old(last_error)@ };
    let after = CallState {
        output: Output {
            buffer: match buffer {
                Some(memory) => Some(final(memory)@),
                None => None,
            },
            written_len: match written_len {
                Some(written) => Some(*final(written)),
                None => None,
            },
        },
        detail: final(last_error)@,
    };
    let raw_inputs = choose|raw_inputs: Result<Seq<(&'a P, &'a S)>, PQSigningError>|
        {
            &&& #[trigger] raw_inputs_collected(
                raw_xmss,
                raw_xmss_count,
                &signed,
                epoch as u32,
                verify_inputs,
                xmss_verify,
                raw_inputs,
            )
            &&& recursive_proving(
                raw_inputs,
                children,
                child_count,
                signed,
                epoch as u32,
                log_inv_rate,
                buffer_len,
                decode,
                aggregate,
                before,
                after,
                status,
            )
        };
    let pairs = raw_pairs(raw_xmss, raw_xmss_count);
    if raw_inputs is Ok {
        assert(raw_inputs->Ok_0 == pairs);
        let collected = choose|collected: Result<Seq<C>, PQSigningError>|
            {
                &&& #[trigger] children_collected(children, child_count, decode, collected)
                &&& match collected {
                    Err(refusal) => refused(refusal, before, after, status),
                    Ok(decoded) => exists|answer: ProvingAnswer|
                        {
                            &&& #[trigger] aggregation_answered(
                                aggregate,
                                decoded,
                                pairs,
                                signed,
                                epoch as u32,
                                log_inv_rate,
                                answer,
                            )
                            &&& proof_reported(
                                answer,
                                "aggregate_type_1"@,
                                buffer_len,
                                before,
                                after,
                                status,
                            )
                        },
                }
            };
        lemma_children_outcome(children, child_count, decode, collected);
        if collected is Ok {
            let decoded = collected->Ok_0;
            let answer = choose|answer: ProvingAnswer|
                {
                    &&& #[trigger] aggregation_answered(
                        aggregate,
                        decoded,
                        pairs,
                        signed,
                        epoch as u32,
                        log_inv_rate,
                        answer,
                    )
                    &&& proof_reported(
                        answer,
                        "aggregate_type_1"@,
                        buffer_len,
                        before,
                        after,
                        status,
                    )
                };
            let (child_inputs, raw_vector) = choose|
                child_inputs: Vec<C>,
                raw_vector: Vec<(&'a P, &'a S)>,
            |
                {
                    &&& child_inputs@ == decoded
                    &&& raw_vector@ == pairs
                    &&& #[trigger] call_ensures(
                        aggregate,
                        (child_inputs, raw_vector, signed, epoch as u32, log_inv_rate),
                        answer,
                    )
                };
            assert(call_ensures(
                aggregate,
                (child_inputs, raw_vector, signed, epoch as u32, log_inv_rate),
                answer,
            ));
        }
    }
}

/// An aggregation of signatures and earlier aggregates that is not in order is refused for the
/// first thing that is wrong with it, and changes nothing.
pub proof fn law_recursive_impl_refusals<
    'a,
    P,
    S,
    C,
    V: Fn(&P, u32, &[u8; MESSAGE_LENGTH], &S) -> bool,
    D: Fn(&[u8], Vec<&'a P>) -> Option<C>,
    A: FnOnce(Vec<C>, Vec<(&'a P, &'a S)>, [u8; MESSAGE_LENGTH], u32, usize) -> ProvingAnswer,
>(
    last_error: &mut LastError,
    children: Option<&'a [PQAggregatedSignatureChild<'a, P>]>,
    child_count: usize,
    raw_xmss: Option<&'a [PQRawXmssSignature<'a, P, S>]>,
    raw_xmss_count: usize,
    message: Option<&[u8]>,
    message_len: usize,
    epoch: u64,
    log_inv_rate: usize,
    buffer: Option<&mut [u8]>,
    buffer_len: usize,
    written_len: Option<&mut usize>,
    verify_inputs: bool,
    xmss_verify: V,
    decode: D,
    aggregate: A,
    status: PQSigningError,
)
    requires
        call_ensures(
            aggregate_signatures_impl::<P, S, C, V, D, A>,
            (
                last_error,
                children,
                child_count,
                raw_xmss,
                raw_xmss_count,
                message,
                message_len,
                epoch,
                log_inv_rate,
                buffer,
                buffer_len,
                written_len,
                verify_inputs,
                xmss_verify,
                decode,
                aggregate,
            ),
            status,
        ),
        buffer is None || written_len is None || (child_count > 0 && children is None) || (
        raw_xmss_count > 0 && raw_xmss is None) || message is None || (child_count == 0
            && raw_xmss_count == 0) || epoch >= 4294967296 || message_len != 32,
    ensures
        status == (if buffer is None || written_len is None || (child_count > 0 && children is None)
            || (raw_xmss_count > 0 && raw_xmss is None) || message is None {
            PQSigningError::InvalidPointer
        } else if child_count == 0 && raw_xmss_count == 0 {
            PQSigningError::UnknownError
        } else if epoch >= 4294967296 {
            PQSigningError::InvalidEpoch
        } else {
            PQSigningError::InvalidMessageLength
        }),
        final(last_error)@ == old(last_error)@,
        buffer matches Some(memory) ==> final(memory)@ == memory@,
        written_len matches Some(written) ==> *final(written) == *written,
{
}

/// An aggregation of earlier aggregates and signatures that are to be verified succeeds only with
/// all of them: the proof system was asked about as many aggregates as announced, each what the
/// decoder gave on the record in its place, and about as many pairs as announced, each made of the
/// key and the signature of the record in its place, with the message, the slot and the rate of
/// the request, and the bytes in the buffer are its answer to that.
pub proof fn law_recursive_aggregation_is_of_all_the_parts<
    'a,
    P,
    S,
    C,
    V: Fn(&P, u32, &[u8; MESSAGE_LENGTH], &S) -> bool,
    D: Fn(&[u8], Vec<&'a P>) -> Option<C>,
    A: FnOnce(Vec<C>, Vec<(&'a P, &'a S)>, [u8; MESSAGE_LENGTH], u32, usize) -> ProvingAnswer,
>(
    last_error: &mut LastError,
    children: Option<&'a [PQAggregatedSignatureChild<'a, P>]>,
    child_count: usize,
    raw_xmss: Option<&'a [PQRawXmssSignature<'a, P, S>]>,
    raw_xmss_count: usize,
    message: Option<&[u8]>,
    message_len: usize,
    signed: [u8; MESSAGE_LENGTH],
    epoch: u64,
    log_inv_rate: usize,
    buffer: Option<&mut [u8]>,
    buffer_len: usize,
    written_len: Option<&mut usize>,
    xmss_verify: V,
    decode: D,
    aggregate: A,
)
    requires
        call_ensures(
            pq_aggregate_signatures_recursive::<P, S, C, V, D, A>,
            (
                last_error,
                children,
                child_count,
                raw_xmss,
                raw_xmss_count,
                message,
                message_len,
                epoch,
                log_inv_rate,
                buffer,
                buffer_len,
                written_len,
                xmss_verify,
                decode,
                aggregate,
            ),
            PQSigningError::Success,
        ),
        message matches Some(memory) ==> message_len == 32 ==> signed@ == memory@.take(32),
    ensures
        child_count > 0 || raw_xmss_count > 0,
        child_count > 0 ==> children is Some,
        raw_xmss_count > 0 ==> raw_xmss is Some,
        message is Some,
        message_len == 32,
        epoch < 4294967296,
        buffer is Some,
        written_len is Some,
        forall|i: int|
            0 <= i < raw_xmss_count ==> {
                &&& (#[trigger] raw_xmss->0@[i]).pubkey is Some
                &&& raw_xmss->0@[i].signature is Some
            },
        forall|i: int|
            0 <= i < raw_xmss_count ==> call_ensures(
                xmss_verify,
                (
                    &(#[trigger] raw_xmss->0@[i]).pubkey->0.inner,
                    epoch as u32,
                    &signed,
                    &raw_xmss->0@[i].signature->0.inner,
                ),
                true,
            ),
        exists|child_inputs: Vec<C>, raw_inputs: Vec<(&'a P, &'a S)>, bytes: Vec<u8>|
            {
                &&& child_inputs@.len() == child_count
                &&& child_count > 0 ==> asked_about_children(
                    children->0@,
                    decode,
                    child_inputs@,
                )
                &&& raw_inputs@.len() == raw_xmss_count
                &&& forall|i: int|
                    0 <= i < raw_xmss_count ==> (#[trigger] raw_inputs@[i]).0
                        == &raw_xmss->0@[i].pubkey->0.inner && raw_inputs@[i].1
                        == &raw_xmss->0@[i].signature->0.inner
                &&& #[trigger] call_ensures(
                    aggregate,
                    (child_inputs, raw_inputs, signed, epoch as u32, log_inv_rate),
                    Ok(Ok(bytes)),
                )
                &&& bytes@.len() <= buffer_len
                &&& written_len matches Some(written) ==> *final(written) == bytes@.len()
                &&& buffer matches Some(memory) ==> final(memory)@ == bytes@ + memory@.skip(
                    bytes@.len() as int,
                )
            },
        final(last_error)@ is None,
{
    lemma_message_array(signed);
    let before = CallState { output: output_before(buffer, written_len), detail: None };
    let after = CallState {
        output: Output {
            buffer: match buffer {
                Some(memory) => Some(final(memory)@),
                None => None,
            },
            written_len: match written_len {
                Some(written) => Some(*final(written)),
                None => None,
            },
        },
        detail: final(last_error)@,
    };
    let raw_inputs = choose|raw_inputs: Result<Seq<(&'a P, &'a S)>, PQSigningError>|
        {
            &&& #[trigger] raw_inputs_collected(
                raw_xmss,
                raw_xmss_count,
                &signed,
                epoch as u32,
                true,
                xmss_verify,
                raw_inputs,
            )
            &&& recursive_proving(
                raw_inputs,
                children,
                child_count,
                signed,
                epoch as u32,
                log_inv_rate,
                buffer_len,
                decode,
                aggregate,
                before,
                after,
                PQSigningError::Success,
            )
        };
    let pairs = raw_pairs(raw_xmss, raw_xmss_count);
    if raw_inputs is Ok {
        assert(raw_inputs->Ok_0 == pairs);
        let collected = choose|collected: Result<Seq<C>, PQSigningError>|
            {
                &&& #[trigger] children_collected(children, child_count, decode, collected)
                &&& match collected {
                    Err(refusal) => refused(refusal, before, after, PQSigningError::Success),
                    Ok(decoded) => exists|answer: ProvingAnswer|
                        {
                            &&& #[trigger] aggregation_answered(
                                aggregate,
                                decoded,
                                pairs,
                                signed,
                                epoch as u32,
                                log_inv_rate,
                                answer,
                            )
                            &&& proof_reported(
                                answer,
                                "aggregate_type_1"@,
                                buffer_len,
                                before,
                                after,
                                PQSigningError::Success,
                            )
                        },
                }
            };
        lemma_children_outcome(children, child_count, decode, collected);
        if collected is Ok {
            let decoded = collected->Ok_0;
            let answer = choose|answer: ProvingAnswer|
                {
                    &&& #[trigger] aggregation_answered(
                        aggregate,
                        decoded,
                        pairs,
                        signed,
                        epoch as u32,
                        log_inv_rate,
                        answer,
                    )
                    &&& proof_reported(
                        answer,
                        "aggregate_type_1"@,
                        buffer_len,
                        before,
                        after,
                        PQSigningError::Success,
                    )
                };
            let (child_inputs, raw_vector) = choose|
                child_inputs: Vec<C>,
                raw_vector: Vec<(&'a P, &'a S)>,
            |
                {
                    &&& child_inputs@ == decoded
                    &&& raw_vector@ == pairs
                    &&& #[trigger] call_ensures(
                        aggregate,
                        (child_inputs, raw_vector, signed, epoch as u32, log_inv_rate),
                        answer,
                    )
                };
            let bytes = answer->Ok_0->Ok_0;
            assert(answer == Ok::<Result<Vec<u8>, String>, ()>(Ok(bytes)));
            assert(call_ensures(
                aggregate,
                (child_inputs, raw_vector, signed, epoch as u32, log_inv_rate),
                Ok(Ok(bytes)),
            ));
        }
    }
}

/// An aggregation of earlier aggregates and signatures that are to be verified that is in order
/// reaches the proof system with all of them, and its answer is handed on, unless one of them has
/// a null pointer, does not decode or is refused by the scheme.
pub proof fn law_recursive_aggregation_reaches_the_prover<
    'a,
    P,
    S,
    C,
    V: Fn(&P, u32, &[u8; MESSAGE_LENGTH], &S) -> bool,
    D: Fn(&[u8], Vec<&'a P>) -> Option<C>,
    A: FnOnce(Vec<C>, Vec<(&'a P, &'a S)>, [u8; MESSAGE_LENGTH], u32, usize) -> ProvingAnswer,
>(
    last_error: &mut LastError,
    children: Option<&'a [PQAggregatedSignatureChild<'a, P>]>,
    child_count: usize,
    raw_xmss: Option<&'a [PQRawXmssSignature<'a, P, S>]>,
    raw_xmss_count: usize,
    message: Option<&[u8]>,
    message_len: usize,
    signed: [u8; MESSAGE_LENGTH],
    epoch: u64,
    log_inv_rate: usize,
    buffer: Option<&mut [u8]>,
    buffer_len: usize,
    written_len: Option<&mut usize>,
    xmss_verify: V,
    decode: D,
    aggregate: A,
    status: PQSigningError,
)
    requires
        call_ensures(
            pq_aggregate_signatures_recursive::<P, S, C, V, D, A>,
            (
                last_error,
                children,
                child_count,
                raw_xmss,
                raw_xmss_count,
                message,
                message_len,
                epoch,
                log_inv_rate,
                buffer,
                buffer_len,
                written_len,
                xmss_verify,
                decode,
                aggregate,
            ),
            status,
        ),
        child_count > 0 || raw_xmss_count > 0,
        child_count > 0 ==> children is Some,
        raw_xmss_count > 0 ==> raw_xmss is Some,
        message matches Some(memory) && signed@ == memory@.take(32),
        message_len == 32,
        epoch < 4294967296,
        buffer is Some,
        written_len is Some,
    ensures
        ({
            &&& status == PQSigningError::UnknownError
            &&& raw_xmss is Some && exists|i: int|
                {
                    &&& 0 <= i < raw_xmss_count
                    &&& raw_xmss->0@[i].pubkey is Some
                    &&& raw_xmss->0@[i].signature is Some
                    &&& call_ensures(
                        xmss_verify,
                        (
                            &(#[trigger] raw_xmss->0@[i]).pubkey->0.inner,
                            epoch as u32,
                            &signed,
                            &raw_xmss->0@[i].signature->0.inner,
                        ),
                        false,
                    )
                    &&& forall|j: int|
                        0 <= j < i ==> {
                            &&& (#[trigger] raw_xmss->0@[j]).pubkey is Some
                            &&& raw_xmss->0@[j].signature is Some
                            &&& call_ensures(
                                xmss_verify,
                                (
                                    &raw_xmss->0@[j].pubkey->0.inner,
                                    epoch as u32,
                                    &signed,
                                    &raw_xmss->0@[j].signature->0.inner,
                                ),
                                true,
                            )
                        }
                }
            &&& final(last_error)@ is None
            &&& buffer matches Some(memory) ==> final(memory)@ == memory@
            &&& written_len matches Some(written) ==> *final(written) == *written
        }) || ({
            &&& status == PQSigningError::InvalidPointer
            &&& exists|i: int|
                {
                    &&& 0 <= i < raw_xmss_count
                    &&& (#[trigger] raw_xmss->0@[i]).pubkey is None
                        || raw_xmss->0@[i].signature is None
                    &&& forall|j: int|
                        0 <= j < i ==> {
                            &&& (#[trigger] raw_xmss->0@[j]).pubkey is Some
                            &&& raw_xmss->0@[j].signature is Some
                            &&& call_ensures(
                                xmss_verify,
                                (
                                    &raw_xmss->0@[j].pubkey->0.inner,
                                    epoch as u32,
                                    &signed,
                                    &raw_xmss->0@[j].signature->0.inner,
                                ),
                                true,
                            )
                        }
                }
            &&& final(last_error)@ is None
            &&& buffer matches Some(memory) ==> final(memory)@ == memory@
            &&& written_len matches Some(written) ==> *final(written) == *written
        }) || ({
            &&& status == PQSigningError::InvalidPointer
            &&& forall|j: int|
                0 <= j < raw_xmss_count ==> {
                    &&& (#[trigger] raw_xmss->0@[j]).pubkey is Some
                    &&& raw_xmss->0@[j].signature is Some
                    &&& call_ensures(
                        xmss_verify,
                        (
                            &raw_xmss->0@[j].pubkey->0.inner,
                            epoch as u32,
                            &signed,
                            &raw_xmss->0@[j].signature->0.inner,
                        ),
                        true,
                    )
                }
            &&& child_count > 0
            &&& exists|taken: Seq<C>|
                {
                    let child = children->0@[taken.len() as int];
                    &&& taken.len() < child_count
                    &&& #[trigger] asked_about_children(children->0@, decode, taken)
                    &&& child.agg_bytes is None || (child.pubkey_count > 0 && (child.pubkeys is None
                        || exists|j: int|
                        0 <= j < child.pubkey_count && #[trigger] child.pubkeys->0@[j] is None))
                }
            &&& final(last_error)@ is None
            &&& buffer matches Some(memory) ==> final(memory)@ == memory@
            &&& written_len matches Some(written) ==> *final(written) == *written
        }) || ({
            &&& status == PQSigningError::UnknownError
            &&& forall|j: int|
                0 <= j < raw_xmss_count ==> {
                    &&& (#[trigger] raw_xmss->0@[j]).pubkey is Some
                    &&& raw_xmss->0@[j].signature is Some
                    &&& call_ensures(
                        xmss_verify,
                        (
                            &raw_xmss->0@[j].pubkey->0.inner,
                            epoch as u32,
                            &signed,
                            &raw_xmss->0@[j].signature->0.inner,
                        ),
                        true,
                    )
                }
            &&& child_count > 0
            &&& exists|taken: Seq<C>|
                {
                    &&& taken.len() < child_count
                    &&& #[trigger] asked_about_children(children->0@, decode, taken)
                    &&& asked_about_child(children->0@[taken.len() as int], decode, None::<C>)
                }
            &&& final(last_error)@ is None
            &&& buffer matches Some(memory) ==> final(memory)@ == memory@
            &&& written_len matches Some(written) ==> *final(written) == *written
        }) || exists|child_inputs: Vec<C>, raw_inputs: Vec<(&'a P, &'a S)>, answer: ProvingAnswer|
            {
                &&& forall|j: int|
                    0 <= j < raw_xmss_count ==> {
                        &&& (#[trigger] raw_xmss->0@[j]).pubkey is Some
                        &&& raw_xmss->0@[j].signature is Some
                        &&& call_ensures(
                            xmss_verify,
                            (
                                &raw_xmss->0@[j].pubkey->0.inner,
                                epoch as u32,
                                &signed,
                                &raw_xmss->0@[j].signature->0.inner,
                            ),
                            true,
                        )
                    }
                &&& child_inputs@.len() == child_count
                &&& child_count > 0 ==> asked_about_children(
                    children->0@,
                    decode,
                    child_inputs@,
                )
                &&& raw_inputs@.len() == raw_xmss_count
                &&& forall|i: int|
                    0 <= i < raw_xmss_count ==> (#[trigger] raw_inputs@[i]).0
                        == &raw_xmss->0@[i].pubkey->0.inner && raw_inputs@[i].1
                        == &raw_xmss->0@[i].signature->0.inner
                &&& #[trigger] call_ensures(
                    aggregate,
                    (child_inputs, raw_inputs, signed, epoch as u32, log_inv_rate),
                    answer,
                )
                &&& answer matches Ok(Ok(bytes)) ==> {
                    &&& final(last_error)@ is None
                    &&& buffer is None || written_len is None ==> status
                        == PQSigningError::InvalidPointer
                    &&& buffer is Some && written_len is Some ==> status == (if bytes@.len()
                        <= buffer_len {
                        PQSigningError::Success
                    } else {
                        PQSigningError::UnknownError
                    })
                    &&& buffer is Some ==> (written_len matches Some(written) ==> *final(written)
                        == bytes@.len())
                    &&& written_len is Some && bytes@.len() <= buffer_len ==> (
                    buffer matches Some(memory) ==> final(memory)@ == bytes@ + memory@.skip(
                        bytes@.len() as int,
                    ))
                }
                &&& answer matches Ok(Err(err)) ==> {
                    &&& status == PQSigningError::UnknownError
                    &&& final(last_error)@ == Some(
                        "leanvm-xmss: "@ + "aggregate_type_1"@ + " failed: "@ + err@,
                    )
                    &&& written_len matches Some(written) ==> *final(written) == *written
                }
                &&& answer matches Err(_) ==> {
                    &&& status == PQSigningError::UnknownError
                    &&& final(last_error)@ is None
                    &&& written_len matches Some(written) ==> *final(written) == *written
                }
            },
        status != PQSigningError::Success ==> (buffer matches Some(memory) ==> final(memory)@
            == memory@),
{
    lemma_message_array(signed);
    let before = CallState { output: output_before(buffer, written_len), detail: None };
    let after = CallState {
        output: Output {
            buffer: match buffer {
                Some(memory) => Some(final(memory)@),
                None => None,
            },
            written_len: match written_len {
                Some(written) => Some(*final(written)),
                None => None,
            },
        },
        detail: final(last_error)@,
    };
    let raw_inputs = choose|raw_inputs: Result<Seq<(&'a P, &'a S)>, PQSigningError>|
        {
            &&& #[trigger] raw_inputs_collected(
                raw_xmss,
                raw_xmss_count,
                &signed,
                epoch as u32,
                true,
                xmss_verify,
                raw_inputs,
            )
            &&& recursive_proving(
                raw_inputs,
                children,
                child_count,
                signed,
                epoch as u32,
                log_inv_rate,
                buffer_len,
                decode,
                aggregate,
                before,
                after,
                status,
            )
        };
    let pairs = raw_pairs(raw_xmss, raw_xmss_count);
    if raw_inputs is Ok {
        assert(raw_inputs->Ok_0 == pairs);
        let collected = choose|collected: Result<Seq<C>, PQSigningError>|
            {
                &&& #[trigger] children_collected(children, child_count, decode, collected)
                &&& match collected {
                    Err(refusal) => refused(refusal, before, after, status),
                    Ok(decoded) => exists|answer: ProvingAnswer|
                        {
                            &&& #[trigger] aggregation_answered(
                                aggregate,
                                decoded,
                                pairs,
                                signed,
                                epoch as u32,
                                log_inv_rate,
                                answer,
                            )
                            &&& proof_reported(
                                answer,
                                "aggregate_type_1"@,
                                buffer_len,
                                before,
                                after,
                                status,
                            )
                        },
                }
            };
        lemma_children_outcome(children, child_count, decode, collected);
        if collected is Ok {
            let decoded = collected->Ok_0;
            let answer = choose|answer: ProvingAnswer|
                {
                    &&& #[trigger] aggregation_answered(
                        aggregate,
                        decoded,
                        pairs,
                        signed,
                        epoch as u32,
                        log_inv_rate,
                        answer,
                    )
                    &&& proof_reported(
                        answer,
                        "aggregate_type_1"@,
                        buffer_len,
                        before,
                        after,
                        status,
                    )
                };
            let (child_inputs, raw_vector) = choose|
                child_inputs: Vec<C>,
                raw_vector: Vec<(&'a P, &'a S)>,
            |
                {
                    &&& child_inputs@ == decoded
                    &&& raw_vector@ == pairs
                    &&& #[trigger] call_ensures(
                        aggregate,
                        (child_inputs, raw_vector, signed, epoch as u32, log_inv_rate),
                        answer,
                    )
                };
            assert(call_ensures(
                aggregate,
                (child_inputs, raw_vector, signed, epoch as u32, log_inv_rate),
                answer,
            ));
        }
    }
}

/// An aggregation of earlier aggregates and signatures that are to be verified that is not in
/// order is refused for the first thing that is wrong with it, and changes nothing but that an
/// earlier detail is forgotten.
pub proof fn law_recursive_aggregation_refusals<
    'a,
    P,
    S,
    C,
    V: Fn(&P, u32, &[u8; MESSAGE_LENGTH], &S) -> bool,
    D: Fn(&[u8], Vec<&'a P>) -> Option<C>,
    A: FnOnce(Vec<C>, Vec<(&'a P, &'a S)>, [u8; MESSAGE_LENGTH], u32, usize) -> ProvingAnswer,
>(
    last_error: &mut LastError,
    children: Option<&'a [PQAggregatedSignatureChild<'a, P>]>,
    child_count: usize,
    raw_xmss: Option<&'a [PQRawXmssSignature<'a, P, S>]>,
    raw_xmss_count: usize,
    message: Option<&[u8]>,
    message_len: usize,
    epoch: u64,
    log_inv_rate: usize,
    buffer: Option<&mut [u8]>,
    buffer_len: usize,
    written_len: Option<&mut usize>,
    xmss_verify: V,
    decode: D,
    aggregate: A,
    status: PQSigningError,
)
    requires
        call_ensures(
            pq_aggregate_signatures_recursive::<P, S, C, V, D, A>,
            (
                last_error,
                children,
                child_count,
                raw_xmss,
                raw_xmss_count,
                message,
                message_len,
                epoch,
                log_inv_rate,
                buffer,
                buffer_len,
                written_len,
                xmss_verify,
                decode,
                aggregate,
            ),
            status,
        ),
        buffer is None || written_len is None || (child_count > 0 && children is None) || (
        raw_xmss_count > 0 && raw_xmss is None) || message is None || (child_count == 0
            && raw_xmss_count == 0) || epoch >= 4294967296 || message_len != 32,
    ensures
        status == (if buffer is None || written_len is None || (child_count > 0 && children is None)
            || (raw_xmss_count > 0 && raw_xmss is None) || message is None {
            PQSigningError::InvalidPointer
        } else if child_count == 0 && raw_xmss_count == 0 {
            PQSigningError::UnknownError
        } else if epoch >= 4294967296 {
            PQSigningError::InvalidEpoch
        } else {
            PQSigningError::InvalidMessageLength
        }),
        final(last_error)@ is None,
        buffer matches Some(memory) ==> final(memory)@ == memory@,
        written_len matches Some(written) ==> *final(written) == *written,
{
}

/// An aggregation of earlier aggregates and signatures that are not to be verified succeeds only
/// with all of them: the proof system was asked about as many aggregates as announced, each what
/// the decoder gave on the record in its place, and about as many pairs as announced, each made of
/// the key and the signature of the record in its place, with the message, the slot and the rate
/// of the request, and the bytes in the buffer are its answer to that.
pub proof fn law_unverified_recursive_aggregation_is_of_all_the_parts<
    'a,
    P,
    S,
    C,
    D: Fn(&[u8], Vec<&'a P>) -> Option<C>,
    A: FnOnce(Vec<C>, Vec<(&'a P, &'a S)>, [u8; MESSAGE_LENGTH], u32, usize) -> ProvingAnswer,
>(
    last_error: &mut LastError,
    children: Option<&'a [PQAggregatedSignatureChild<'a, P>]>,
    child_count: usize,
    raw_xmss: Option<&'a [PQRawXmssSignature<'a, P, S>]>,
    raw_xmss_count: usize,
    message: Option<&[u8]>,
    message_len: usize,
    signed: [u8; MESSAGE_LENGTH],
    epoch: u64,
    log_inv_rate: usize,
    buffer: Option<&mut [u8]>,
    buffer_len: usize,
    written_len: Option<&mut usize>,
    decode: D,
    aggregate: A,
)
    requires
        call_ensures(
            pq_aggregate_signatures_recursive_unverified::<P, S, C, D, A>,
            (
                last_error,
                children,
                child_count,
                raw_xmss,
                raw_xmss_count,
                message,
                message_len,
                epoch,
                log_inv_rate,
                buffer,
                buffer_len,
                written_len,
                decode,
                aggregate,
            ),
            PQSigningError::Success,
        ),
        message matches Some(memory) ==> message_len == 32 ==> signed@ == memory@.take(32),
    ensures
        child_count > 0 || raw_xmss_count > 0,
        child_count > 0 ==> children is Some,
        raw_xmss_count > 0 ==> raw_xmss is Some,
        message is Some,
        message_len == 32,
        epoch < 4294967296,
        buffer is Some,
        written_len is Some,
        forall|i: int|
            0 <= i < raw_xmss_count ==> {
                &&& (#[trigger] raw_xmss->0@[i]).pubkey is Some
                &&& raw_xmss->0@[i].signature is Some
            },
        exists|child_inputs: Vec<C>, raw_inputs: Vec<(&'a P, &'a S)>, bytes: Vec<u8>|
            {
                &&& child_inputs@.len() == child_count
                &&& child_count > 0 ==> asked_about_children(
                    children->0@,
                    decode,
                    child_inputs@,
                )
                &&& raw_inputs@.len() == raw_xmss_count
                &&& forall|i: int|
                    0 <= i < raw_xmss_count ==> (#[trigger] raw_inputs@[i]).0
                        == &raw_xmss->0@[i].pubkey->0.inner && raw_inputs@[i].1
                        == &raw_xmss->0@[i].signature->0.inner
                &&& #[trigger] call_ensures(
                    aggregate,
                    (child_inputs, raw_inputs, signed, epoch as u32, log_inv_rate),
                    Ok(Ok(bytes)),
                )
                &&& bytes@.len() <= buffer_len
                &&& written_len matches Some(written) ==> *final(written) == bytes@.len()
                &&& buffer matches Some(memory) ==> final(memory)@ == bytes@ + memory@.skip(
                    bytes@.len() as int,
                )
            },
        final(last_error)@ is None,
{
    lemma_message_array(signed);
    let before = CallState { output: output_before(buffer, written_len), detail: None };
    let after = CallState {
        output: Output {
            buffer: match buffer {
                Some(memory) => Some(final(memory)@),
                None => None,
            },
            written_len: match written_len {
                Some(written) => Some(*final(written)),
                None => None,
            },
        },
        detail: final(last_error)@,
    };
    let raw_inputs = raw_inputs_unverified(raw_xmss, raw_xmss_count);
    let pairs = raw_pairs(raw_xmss, raw_xmss_count);
    if raw_inputs is Ok {
        assert(raw_inputs->Ok_0 == pairs);
        let collected = choose|collected: Result<Seq<C>, PQSigningError>|
            {
                &&& #[trigger] children_collected(children, child_count, decode, collected)
                &&& match collected {
                    Err(refusal) => refused(refusal, before, after, PQSigningError::Success),
                    Ok(decoded) => exists|answer: ProvingAnswer|
                        {
                            &&& #[trigger] aggregation_answered(
                                aggregate,
                                decoded,
                                pairs,
                                signed,
                                epoch as u32,
                                log_inv_rate,
                                answer,
                            )
                            &&& proof_reported(
                                answer,
                                "aggregate_type_1"@,
                                buffer_len,
                                before,
                                after,
                                PQSigningError::Success,
                            )
                        },
                }
            };
        lemma_children_outcome(children, child_count, decode, collected);
        if collected is Ok {
            let decoded = collected->Ok_0;
            let answer = choose|answer: ProvingAnswer|
                {
                    &&& #[trigger] aggregation_answered(
                        aggregate,
                        decoded,
                        pairs,
                        signed,
                        epoch as u32,
                        log_inv_rate,
                        answer,
                    )
                    &&& proof_reported(
                        answer,
                        "aggregate_type_1"@,
                        buffer_len,
                        before,
                        after,
                        PQSigningError::Success,
                    )
                };
            let (child_inputs, raw_vector) = choose|
                child_inputs: Vec<C>,
                raw_vector: Vec<(&'a P, &'a S)>,
            |
                {
                    &&& child_inputs@ == decoded
                    &&& raw_vector@ == pairs
                    &&& #[trigger] call_ensures(
                        aggregate,
                        (child_inputs, raw_vector, signed, epoch as u32, log_inv_rate),
                        answer,
                    )
                };
            let bytes = answer->Ok_0->Ok_0;
            assert(answer == Ok::<Result<Vec<u8>, String>, ()>(Ok(bytes)));
            assert(call_ensures(
                aggregate,
                (child_inputs, raw_vector, signed, epoch as u32, log_inv_rate),
                Ok(Ok(bytes)),
            ));
        }
    }
}

/// An aggregation of earlier aggregates and signatures that are not to be verified that is in
/// order reaches the proof system with all of them, and its answer is handed on, unless one of
/// them has a null pointer or does not decode.
pub proof fn law_unverified_recursive_aggregation_reaches_the_prover<
    'a,
    P,
    S,
    C,
    D: Fn(&[u8], Vec<&'a P>) -> Option<C>,
    A: FnOnce(Vec<C>, Vec<(&'a P, &'a S)>, [u8; MESSAGE_LENGTH], u32, usize) -> ProvingAnswer,
>(
    last_error: &mut LastError,
    children: Option<&'a [PQAggregatedSignatureChild<'a, P>]>,
    child_count: usize,
    raw_xmss: Option<&'a [PQRawXmssSignature<'a, P, S>]>,
    raw_xmss_count: usize,
    message: Option<&[u8]>,
    message_len: usize,
    signed: [u8; MESSAGE_LENGTH],
    epoch: u64,
    log_inv_rate: usize,
    buffer: Option<&mut [u8]>,
    buffer_len: usize,
    written_len: Option<&mut usize>,
    decode: D,
    aggregate: A,
    status: PQSigningError,
)
    requires
        call_ensures(
            pq_aggregate_signatures_recursive_unverified::<P, S, C, D, A>,
            (
                last_error,
                children,
                child_count,
                raw_xmss,
                raw_xmss_count,
                message,
                message_len,
                epoch,
                log_inv_rate,
                buffer,
                buffer_len,
                written_len,
                decode,
                aggregate,
            ),
            status,
        ),
        child_count > 0 || raw_xmss_count > 0,
        child_count > 0 ==> children is Some,
        raw_xmss_count > 0 ==> raw_xmss is Some,
        message matches Some(memory) && signed@ == memory@.take(32),
        message_len == 32,
        epoch < 4294967296,
        buffer is Some,
        written_len is Some,
    ensures
        ({
            &&& status == PQSigningError::InvalidPointer
            &&& exists|i: int|
                {
                    &&& 0 <= i < raw_xmss_count
                    &&& (#[trigger] raw_xmss->0@[i]).pubkey is None
                        || raw_xmss->0@[i].signature is None
                }
            &&& final(last_error)@ is None
            &&& buffer matches Some(memory) ==> final(memory)@ == memory@
            &&& written_len matches Some(written) ==> *final(written) == *written
        }) || ({
            &&& status == PQSigningError::InvalidPointer
            &&& forall|j: int|
                0 <= j < raw_xmss_count ==> {
                    &&& (#[trigger] raw_xmss->0@[j]).pubkey is Some
                    &&& raw_xmss->0@[j].signature is Some
                }
            &&& child_count > 0
            &&& exists|taken: Seq<C>|
                {
                    let child = children->0@[taken.len() as int];
                    &&& taken.len() < child_count
                    &&& #[trigger] asked_about_children(children->0@, decode, taken)
                    &&& child.agg_bytes is None || (child.pubkey_count > 0 && (child.pubkeys is None
                        || exists|j: int|
                        0 <= j < child.pubkey_count && #[trigger] child.pubkeys->0@[j] is None))
                }
            &&& final(last_error)@ is None
            &&& buffer matches Some(memory) ==> final(memory)@ == memory@
            &&& written_len matches Some(written) ==> *final(written) == *written
        }) || ({
            &&& status == PQSigningError::UnknownError
            &&& forall|j: int|
                0 <= j < raw_xmss_count ==> {
                    &&& (#[trigger] raw_xmss->0@[j]).pubkey is Some
                    &&& raw_xmss->0@[j].signature is Some
                }
            &&& child_count > 0
            &&& exists|taken: Seq<C>|
                {
                    &&& taken.len() < child_count
                    &&& #[trigger] asked_about_children(children->0@, decode, taken)
                    &&& asked_about_child(children->0@[taken.len() as int], decode, None::<C>)
                }
            &&& final(last_error)@ is None
            &&& buffer matches Some(memory) ==> final(memory)@ == memory@
            &&& written_len matches Some(written) ==> *final(written) == *written
        }) || exists|child_inputs: Vec<C>, raw_inputs: Vec<(&'a P, &'a S)>, answer: ProvingAnswer|
            {
                &&& forall|j: int|
                    0 <= j < raw_xmss_count ==> {
                        &&& (#[trigger] raw_xmss->0@[j]).pubkey is Some
                        &&& raw_xmss->0@[j].signature is Some
                    }
                &&& child_inputs@.len() == child_count
                &&& child_count > 0 ==> asked_about_children(
                    children->0@,
                    decode,
                    child_inputs@,
                )
                &&& raw_inputs@.len() == raw_xmss_count
                &&& forall|i: int|
                    0 <= i < raw_xmss_count ==> (#[trigger] raw_inputs@[i]).0
                        == &raw_xmss->0@[i].pubkey->0.inner && raw_inputs@[i].1
                        == &raw_xmss->0@[i].signature->0.inner
                &&& #[trigger] call_ensures(
                    aggregate,
                    (child_inputs, raw_inputs, signed, epoch as u32, log_inv_rate),
                    answer,
                )
                &&& answer matches Ok(Ok(bytes)) ==> {
                    &&& final(last_error)@ is None
                    &&& buffer is None || written_len is None ==> status
                        == PQSigningError::InvalidPointer
                    &&& buffer is Some && written_len is Some ==> status == (if bytes@.len()
                        <= buffer_len {
                        PQSigningError::Success
                    } else {
                        PQSigningError::UnknownError
                    })
                    &&& buffer is Some ==> (written_len matches Some(written) ==> *final(written)
                        == bytes@.len())
                    &&& written_len is Some && bytes@.len() <= buffer_len ==> (
                    buffer matches Some(memory) ==> final(memory)@ == bytes@ + memory@.skip(
                        bytes@.len() as int,
                    ))
                }
                &&& answer matches Ok(Err(err)) ==> {
                    &&& status == PQSigningError::UnknownError
                    &&& final(last_error)@ == Some(
                        "leanvm-xmss: "@ + "aggregate_type_1"@ + " failed: "@ + err@,
                    )
                    &&& written_len matches Some(written) ==> *final(written) == *written
                }
                &&& answer matches Err(_) ==> {
                    &&& status == PQSigningError::UnknownError
                    &&& final(last_error)@ is None
                    &&& written_len matches Some(written) ==> *final(written) == *written
                }
            },
        status != PQSigningError::Success ==> (buffer matches Some(memory) ==> final(memory)@
            == memory@),
{
    lemma_message_array(signed);
    let before = CallState { output: output_before(buffer, written_len), detail: None };
    let after = CallState {
        output: Output {
            buffer: match buffer {
                Some(memory) => Some(final(memory)@),
                None => None,
            },
            written_len: match written_len {
                Some(written) => Some(*final(written)),
                None => None,
            },
        },
        detail: final(last_error)@,
    };
    let raw_inputs = raw_inputs_unverified(raw_xmss, raw_xmss_count);
    let pairs = raw_pairs(raw_xmss, raw_xmss_count);
    if raw_inputs is Ok {
        assert(raw_inputs->Ok_0 == pairs);
        let collected = choose|collected: Result<Seq<C>, PQSigningError>|
            {
                &&& #[trigger] children_collected(children, child_count, decode, collected)
                &&& match collected {
                    Err(refusal) => refused(refusal, before, after, status),
                    Ok(decoded) => exists|answer: ProvingAnswer|
                        {
                            &&& #[trigger] aggregation_answered(
                                aggregate,
                                decoded,
                                pairs,
                                signed,
                                epoch as u32,
                                log_inv_rate,
                                answer,
                            )
                            &&& proof_reported(
                                answer,
                                "aggregate_type_1"@,
                                buffer_len,
                                before,
                                after,
                                status,
                            )
                        },
                }
            };
        lemma_children_outcome(children, child_count, decode, collected);
        if collected is Ok {
            let decoded = collected->Ok_0;
            let answer = choose|answer: ProvingAnswer|
                {
                    &&& #[trigger] aggregation_answered(
                        aggregate,
                        decoded,
                        pairs,
                        signed,
                        epoch as u32,
                        log_inv_rate,
                        answer,
                    )
                    &&& proof_reported(
                        answer,
                        "aggregate_type_1"@,
                        buffer_len,
                        before,
                        after,
                        status,
                    )
                };
            let (child_inputs, raw_vector) = choose|
                child_inputs: Vec<C>,
                raw_vector: Vec<(&'a P, &'a S)>,
            |
                {
                    &&& child_inputs@ == decoded
                    &&& raw_vector@ == pairs
                    &&& #[trigger] call_ensures(
                        aggregate,
                        (child_inputs, raw_vector, signed, epoch as u32, log_inv_rate),
                        answer,
                    )
                };
            assert(call_ensures(
                aggregate,
                (child_inputs, raw_vector, signed, epoch as u32, log_inv_rate),
                answer,
            ));
        }
    }
}

/// An aggregation of earlier aggregates and signatures that are not to be verified that is not in
/// order is refused for the first thing that is wrong with it, and changes nothing but that an
/// earlier detail is forgotten.
pub proof fn law_unverified_recursive_aggregation_refusals<
    'a,
    P,
    S,
    C,
    D: Fn(&[u8], Vec<&'a P>) -> Option<C>,
    A: FnOnce(Vec<C>, Vec<(&'a P, &'a S)>, [u8; MESSAGE_LENGTH], u32, usize) -> ProvingAnswer,
>(
    last_error: &mut LastError,
    children: Option<&'a [PQAggregatedSignatureChild<'a, P>]>,
    child_count: usize,
    raw_xmss: Option<&'a [PQRawXmssSignature<'a, P, S>]>,
    raw_xmss_count: usize,
    message: Option<&[u8]>,
    message_len: usize,
    epoch: u64,
    log_inv_rate: usize,
    buffer: Option<&mut [u8]>,
    buffer_len: usize,
    written_len: Option<&mut usize>,
    decode: D,
    aggregate: A,
    status: PQSigningError,
)
    requires
        call_ensures(
            pq_aggregate_signatures_recursive_unverified::<P, S, C, D, A>,
            (
                last_error,
                children,
                child_count,
                raw_xmss,
                raw_xmss_count,
                message,
                message_len,
                epoch,
                log_inv_rate,
                buffer,
                buffer_len,
                written_len,
                decode,
                aggregate,
            ),
            status,
        ),
        buffer is None || written_len is None || (child_count > 0 && children is None) || (
        raw_xmss_count > 0 && raw_xmss is None) || message is None || (child_count == 0
            && raw_xmss_count == 0) || epoch >= 4294967296 || message_len != 32,
    ensures
        status == (if buffer is None || written_len is None || (child_count > 0 && children is None)
            || (raw_xmss_count > 0 && raw_xmss is None) || message is None {
            PQSigningError::InvalidPointer
        } else if child_count == 0 && raw_xmss_count == 0 {
            PQSigningError::UnknownError
        } else if epoch >= 4294967296 {
            PQSigningError::InvalidEpoch
        } else {
            PQSigningError::InvalidMessageLength
        }),
        final(last_error)@ is None,
        buffer matches Some(memory) ==> final(memory)@ == memory@,
        written_len matches Some(written) ==> *final(written) == *written,
{
}

} // verus!
