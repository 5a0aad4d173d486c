//! Calls that produce aggregates: aggregation of signatures, alone or on top of earlier
//! aggregates, merging of single-message aggregates, and splitting of a multi-message one.
//!
//! The proof system is the last argument of each call. It answers `Ok(Ok(bytes))` with an
//! encoded aggregate, `Ok(Err(words))` when it refuses, and `Err(())` when it panicked.
use vstd::prelude::*;
use vstd::slice::slice_subrange;
use crate::collect::{
    children_collected, children_readable, collect_child_aggregations, collect_public_keys,
    collect_raw_xmss_inputs, collect_signatures, collect_type1_entries, collect_type2_components,
    component_keys, components_readable, components_valid, contents, lemma_unverified_inputs,
    nested, pointers_valid, public_keys, raw_inputs_collected, raw_inputs_unverified,
    signatures_at,
};
use crate::error::PQSigningError;
use crate::handles::{
    AggregateInfo, MultiMessageAggregate, PQAggregatedSignatureChild, PQRawXmssSignature,
    PQSignature, PQSignatureSchemePublicKey, PQTypeTwoComponent,
};
use crate::input::{
    epoch_to_u32, message_at, message_from_ptr, message_readable, message_refusal, same_message,
    slot_of_epoch, MESSAGE_LENGTH,
};
use crate::last_error::{aggregation_error, clear_last_error, failure_detail, LastError};
use crate::memory::{
    bytes_answered, items, output_before, readable, writable, write_bytes_to_buffer, Output,
};

verus! {

/// What a step of the proof system comes to.
pub type ProvingAnswer = Result<Result<Vec<u8>, String>, ()>;

/// What a proving call can change: its output memory, and the detail of the last failure.
pub struct CallState {
    pub output: Output,
    pub detail: Option<Seq<char>>,
}

/// A call is refused: it changes nothing.
pub open spec fn refused(
    refusal: PQSigningError,
    before: CallState,
    after: CallState,
    status: PQSigningError,
) -> bool {
    status == refusal && after == before
}

/// A call hands on the answer of the proof system: an aggregate goes to the output buffer, a
/// refusal leaves its words as the detail of the last failure, and a panic leaves nothing.
pub open spec fn proof_reported(
    answer: ProvingAnswer,
    stage: Seq<char>,
    buffer_len: usize,
    before: CallState,
    after: CallState,
    status: PQSigningError,
) -> bool {
    match answer {
        Ok(Ok(bytes)) => {
            &&& bytes_answered(bytes@, buffer_len, before.output, after.output, status)
            &&& after.detail == before.detail
        },
        Ok(Err(err)) => {
            &&& status == PQSigningError::UnknownError
            &&& after.output == before.output
            &&& after.detail == Some(failure_detail(stage, err@))
        },
        Err(_) => refused(PQSigningError::UnknownError, before, after, status),
    }
}

/// Hands on the answer of the proof system.
pub fn report_proof(
    answer: ProvingAnswer,
    stage: &str,
    last_error: &mut LastError,
    buffer: Option<&mut [u8]>,
    buffer_len: usize,
    written_len: Option<&mut usize>,
) -> (status: PQSigningError)
    requires
        writable(buffer, buffer_len),
    ensures
        proof_reported(
            answer,
            stage@,
            buffer_len,
            (CallState {
                output: output_before(buffer, written_len),
                detail: old(last_error)@,
            }),
            (CallState {
                output: Output {
                    buffer: match buffer {
                        Some(memory) => Some(final(memory)@),
                        None => None,
                    },
                    written_len: match written_len {
                        Some(written) => Some(*final(written)),
                        None => None,
                    },
                },
                detail: final(last_error)@,
            }),
            status,
        ),
{
    match answer {
        Ok(Ok(bytes)) => write_bytes_to_buffer(bytes.as_slice(), buffer, buffer_len, written_len),
        Ok(Err(err)) => aggregation_error(last_error, stage, err.as_str()),
        Err(_) => PQSigningError::UnknownError,
    }
}

/// The proof system answered `answer` when it was to aggregate these aggregates and these
/// signatures over `message` in `slot`.
pub open spec fn aggregation_answered<
    'a,
    P,
    S,
    C,
    A: FnOnce(Vec<C>, Vec<(&'a P, &'a S)>, [u8; MESSAGE_LENGTH], u32, usize) -> ProvingAnswer,
>(
    aggregate: A,
    children: Seq<C>,
    pairs: Seq<(&'a P, &'a S)>,
    message: [u8; MESSAGE_LENGTH],
    slot: u32,
    log_inv_rate: usize,
    answer: ProvingAnswer,
) -> bool {
    exists|child_inputs: Vec<C>, raw_inputs: Vec<(&'a P, &'a S)>|
        {
            &&& child_inputs@ == children
            &&& raw_inputs@ == pairs
            &&& #[trigger] call_ensures(
                aggregate,
                (child_inputs, raw_inputs, message, slot, log_inv_rate),
                answer,
            )
        }
}

/// Why an aggregation on top of earlier aggregates is refused before anything is gathered,
/// if it is.
pub open spec fn recursive_refusal<'a, P, S>(
    children: Option<&'a [PQAggregatedSignatureChild<'a, P>]>,
    child_count: usize,
    raw_xmss: Option<&'a [PQRawXmssSignature<'a, P, S>]>,
    raw_xmss_count: usize,
    message: Option<&[u8]>,
    message_len: usize,
    epoch: u64,
    output: Output,
) -> Option<PQSigningError> {
    request_refusal(
        children,
        child_count,
        raw_xmss,
        raw_xmss_count,
        message,
        message_len,
        epoch,
        output.buffer is Some && output.written_len is Some,
    )
}

/// The same, once it is known whether there is somewhere to answer.
pub open spec fn request_refusal<'a, P, S>(
    children: Option<&'a [PQAggregatedSignatureChild<'a, P>]>,
    child_count: usize,
    raw_xmss: Option<&'a [PQRawXmssSignature<'a, P, S>]>,
    raw_xmss_count: usize,
    message: Option<&[u8]>,
    message_len: usize,
    epoch: u64,
    has_output: bool,
) -> Option<PQSigningError> {
    if !has_output {
        Some(PQSigningError::InvalidPointer)
    } else if (child_count > 0 && children is None) || (raw_xmss_count > 0 && raw_xmss is None)
        || message is None {
        Some(PQSigningError::InvalidPointer)
    } else if child_count == 0 && raw_xmss_count == 0 {
        Some(PQSigningError::UnknownError)
    } else if slot_of_epoch(epoch) is Err {
        Some(PQSigningError::InvalidEpoch)
    } else {
        message_refusal(message, message_len)
    }
}

/// Checks a request for an aggregation on top of earlier aggregates, before anything behind the
/// pointers to its arrays is looked at. `has_output` says that neither output pointer is null.
pub fn recursive_request_refusal<'a, P, S>(
    children: Option<&'a [PQAggregatedSignatureChild<'a, P>]>,
    child_count: usize,
    raw_xmss: Option<&'a [PQRawXmssSignature<'a, P, S>]>,
    raw_xmss_count: usize,
    message: Option<&[u8]>,
    message_len: usize,
    epoch: u64,
    has_output: bool,
) -> (refusal: Option<PQSigningError>)
    ensures
        refusal == request_refusal(
            children,
            child_count,
            raw_xmss,
            raw_xmss_count,
            message,
            message_len,
            epoch,
            has_output,
        ),
        forall|output: Output|
            has_output == (output.buffer is Some && output.written_len is Some) ==> #[trigger]
            recursive_refusal(
                children,
                child_count,
                raw_xmss,
                raw_xmss_count,
                message,
                message_len,
                epoch,
                output,
            ) == refusal,
{
    if !has_output {
        return Some(PQSigningError::InvalidPointer);
    }
    if (child_count > 0 && children.is_none()) || (raw_xmss_count > 0 && raw_xmss.is_none())
        || message.is_none() {
        return Some(PQSigningError::InvalidPointer);
    }
    if child_count == 0 && raw_xmss_count == 0 {
        return Some(PQSigningError::UnknownError);
    }
    match epoch_to_u32(epoch) {
        Ok(_) => if message_len != MESSAGE_LENGTH {
            Some(PQSigningError::InvalidMessageLength)
        } else {
            None
        },
        Err(refusal) => Some(refusal),
    }
}

/// What an aggregation on top of earlier aggregates comes to, once it is known what gathering
/// the raw signatures comes to: `raw_inputs`.
///
/// A refusal in there is the answer. Otherwise the earlier aggregates are gathered, with the
/// same consequence; what was gathered goes to the proof system, and its answer is handed
/// on.
pub open spec fn recursive_proving<
    'a,
    P,
    S,
    C,
    D: Fn(&[u8], Vec<&'a P>) -> Option<C>,
    A: FnOnce(Vec<C>, Vec<(&'a P, &'a S)>, [u8; MESSAGE_LENGTH], u32, usize) -> ProvingAnswer,
>(
    raw_inputs: Result<Seq<(&'a P, &'a S)>, PQSigningError>,
    children: Option<&'a [PQAggregatedSignatureChild<'a, P>]>,
    child_count: usize,
    message: [u8; MESSAGE_LENGTH],
    slot: u32,
    log_inv_rate: usize,
    buffer_len: usize,
    decode: D,
    aggregate: A,
    before: CallState,
    after: CallState,
    status: PQSigningError,
) -> bool {
    match raw_inputs {
        Err(refusal) => refused(refusal, before, after, status),
        Ok(pairs) => exists|child_inputs: Result<Seq<C>, PQSigningError>|
            {
                &&& #[trigger] children_collected(children, child_count, decode, child_inputs)
                &&& match child_inputs {
                    Err(refusal) => refused(refusal, before, after, status),
                    Ok(decoded) => exists|answer: ProvingAnswer|
                        {
                            &&& #[trigger] aggregation_answered(
                                aggregate,
                                decoded,
                                pairs,
                                message,
                                slot,
                                log_inv_rate,
                                answer,
                            )
                            &&& proof_reported(
                                answer,
                                "aggregate_type_1"@,
                                buffer_len,
                                before,
                                after,
                                status,
                            )
                        },
                }
            },
    }
}

/// What an aggregation on top of earlier aggregates comes to: the arguments are checked, the
/// raw signatures are gathered, with the scheme asked about each if the inputs are to be
/// verified, and the call goes on from there.
pub open spec fn recursive_aggregation<
    'a,
    P,
    S,
    C,
    V: Fn(&P, u32, &[u8; MESSAGE_LENGTH], &S) -> bool,
    D: Fn(&[u8], Vec<&'a P>) -> Option<C>,
    A: FnOnce(Vec<C>, Vec<(&'a P, &'a S)>, [u8; MESSAGE_LENGTH], u32, usize) -> ProvingAnswer,
>(
    children: Option<&'a [PQAggregatedSignatureChild<'a, P>]>,
    child_count: usize,
    raw_xmss: Option<&'a [PQRawXmssSignature<'a, P, S>]>,
    raw_xmss_count: usize,
    message: Option<&[u8]>,
    message_len: usize,
    epoch: u64,
    log_inv_rate: usize,
    buffer_len: usize,
    verify_inputs: bool,
    xmss_verify: V,
    decode: D,
    aggregate: A,
    before: CallState,
    after: CallState,
    status: PQSigningError,
) -> bool {
    let refusal = recursive_refusal(
        children,
        child_count,
        raw_xmss,
        raw_xmss_count,
        message,
        message_len,
        epoch,
        before.output,
    );
    if refusal is Some {
        refused(refusal->0, before, after, status)
    } else {
        exists|raw_inputs: Result<Seq<(&'a P, &'a S)>, PQSigningError>|
            {
                &&& #[trigger] raw_inputs_collected(
                    raw_xmss,
                    raw_xmss_count,
                    &message_at(message),
                    epoch as u32,
                    verify_inputs,
                    xmss_verify,
                    raw_inputs,
                )
                &&& recursive_proving(
                    raw_inputs,
                    children,
                    child_count,
                    message_at(message),
                    epoch as u32,
                    log_inv_rate,
                    buffer_len,
                    decode,
                    aggregate,
                    before,
                    after,
                    status,
                )
            }
    }
}

/// What an aggregation on top of earlier aggregates comes to if the inputs are not verified.
pub open spec fn recursive_aggregation_unverified<
    'a,
    P,
    S,
    C,
    D: Fn(&[u8], Vec<&'a P>) -> Option<C>,
    A: FnOnce(Vec<C>, Vec<(&'a P, &'a S)>, [u8; MESSAGE_LENGTH], u32, usize) -> ProvingAnswer,
>(
    children: Option<&'a [PQAggregatedSignatureChild<'a, P>]>,
    child_count: usize,
    raw_xmss: Option<&'a [PQRawXmssSignature<'a, P, S>]>,
    raw_xmss_count: usize,
    message: Option<&[u8]>,
    message_len: usize,
    epoch: u64,
    log_inv_rate: usize,
    buffer_len: usize,
    decode: D,
    aggregate: A,
    before: CallState,
    after: CallState,
    status: PQSigningError,
) -> bool {
    let refusal = recursive_refusal(
        children,
        child_count,
        raw_xmss,
        raw_xmss_count,
        message,
        message_len,
        epoch,
        before.output,
    );
    if refusal is Some {
        refused(refusal->0, before, after, status)
    } else {
        recursive_proving(
            raw_inputs_unverified(raw_xmss, raw_xmss_count),
            children,
            child_count,
            message_at(message),
            epoch as u32,
            log_inv_rate,
            buffer_len,
            decode,
            aggregate,
            before,
            after,
            status,
        )
    }
}

/// Aggregates raw signatures and earlier aggregates over one message.
pub fn aggregate_signatures_impl<
    'a,
    P,
    S,
    C,
    V: Fn(&P, u32, &[u8; MESSAGE_LENGTH], &S) -> bool,
    D: Fn(&[u8], Vec<&'a P>) -> Option<C>,
    A: FnOnce(Vec<C>, Vec<(&'a P, &'a S)>, [u8; MESSAGE_LENGTH], u32, usize) -> ProvingAnswer,
>(
    last_error: &mut LastError,
    children: Option<&'a [PQAggregatedSignatureChild<'a, P>]>,
    child_count: usize,
    raw_xmss: Option<&'a [PQRawXmssSignature<'a, P, S>]>,
    raw_xmss_count: usize,
    message: Option<&[u8]>,
    message_len: usize,
    epoch: u64,
    log_inv_rate: usize,
    buffer: Option<&mut [u8]>,
    buffer_len: usize,
    written_len: Option<&mut usize>,
    verify_inputs: bool,
    xmss_verify: V,
    decode: D,
    aggregate: A,
) -> (status: PQSigningError)
    requires
        recursive_refusal(
            children,
            child_count,
            raw_xmss,
            raw_xmss_count,
            message,
            message_len,
            epoch,
            output_before(buffer, written_len),
        ) is None ==> children_readable(children, child_count) && readable(
            raw_xmss,
            raw_xmss_count,
        ),
        message_readable(message, message_len),
        writable(buffer, buffer_len),
        forall|key: &P, slot: u32, signed: &[u8; MESSAGE_LENGTH], signature: &S|
            call_requires(xmss_verify, (key, slot, signed, signature)),
        forall|encoded: &[u8], pubkeys: Vec<&'a P>| call_requires(decode, (encoded, pubkeys)),
        forall|
            child_inputs: Vec<C>,
            raw_inputs: Vec<(&'a P, &'a S)>,
            signed: [u8; MESSAGE_LENGTH],
            slot: u32,
            rate: usize,
        |
            call_requires(aggregate, (child_inputs, raw_inputs, signed, slot, rate)),
    ensures
        recursive_aggregation(
            children,
            child_count,
            raw_xmss,
            raw_xmss_count,
            message,
            message_len,
            epoch,
            log_inv_rate,
            buffer_len,
            verify_inputs,
            xmss_verify,
            decode,
            aggregate,
            (CallState {
                output: output_before(buffer, written_len),
                detail: old(last_error)@,
            }),
            (CallState {
                output: Output {
                    buffer: match buffer {
                        Some(memory) => Some(final(memory)@),
                        None => None,
                    },
                    written_len: match written_len {
                        Some(written) => Some(*final(written)),
                        None => None,
                    },
                },
                detail: final(last_error)@,
            }),
            status,
        ),
{
    let refusal = recursive_request_refusal(
        children,
        child_count,
        raw_xmss,
        raw_xmss_count,
        message,
        message_len,
        epoch,
        buffer.is_some() && written_len.is_some(),
    );
    if let Some(refusal) = refusal {
        return refusal;
    }
    let slot = match epoch_to_u32(epoch) {
        Ok(slot) => slot,
        Err(refusal) => return refusal,
    };
    let signed = match message_from_ptr(message, message_len) {
        Ok(signed) => signed,
        Err(refusal) => return refusal,
    };
    let raw_collected = collect_raw_xmss_inputs(
        raw_xmss,
        raw_xmss_count,
        &signed,
        slot,
        verify_inputs,
        &xmss_verify,
    );
    assert(raw_inputs_collected(
        raw_xmss,
        raw_xmss_count,
        &message_at(message),
        slot,
        verify_inputs,
        xmss_verify,
        contents(raw_collected),
    ));
    let raw_inputs = match raw_collected {
        Ok(raw_inputs) => raw_inputs,
        Err(refusal) => return refusal,
    };
    let child_collected = collect_child_aggregations(children, child_count, &decode);
    assert(children_collected(children, child_count, decode, contents(child_collected)));
    let child_inputs = match child_collected {
        Ok(child_inputs) => child_inputs,
        Err(refusal) => return refusal,
    };
    let ghost decoded = child_inputs@;
    let ghost pairs = raw_inputs@;
    let answer = aggregate(child_inputs, raw_inputs, signed, slot, log_inv_rate);
    assert(aggregation_answered(aggregate, decoded, pairs, signed, slot, log_inv_rate, answer));
    report_proof(answer, "aggregate_type_1", last_error, buffer, buffer_len, written_len)
}

/// The scheme was asked about the pairs in order: it accepted all of them, or it accepted
/// those before one that it refused. No pair is refused if none was to be checked.
pub open spec fn pairs_checked<P, S, V: Fn(&P, u32, &[u8; MESSAGE_LENGTH], &S) -> bool>(
    pairs: Seq<(&P, &S)>,
    message: &[u8; MESSAGE_LENGTH],
    slot: u32,
    verify_inputs: bool,
    xmss_verify: V,
    accepted: bool,
) -> bool {
    if accepted {
        verify_inputs ==> forall|i: int|
            0 <= i < pairs.len() ==> call_ensures(
                xmss_verify,
                ((#[trigger] pairs[i]).0, slot, message, pairs[i].1),
                true,
            )
    } else {
        &&& verify_inputs
        &&& exists|i: int|
            {
                &&& 0 <= i < pairs.len()
                &&& call_ensures(
                    xmss_verify,
                    ((#[trigger] pairs[i]).0, slot, message, pairs[i].1),
                    false,
                )
                &&& forall|j: int|
                    0 <= j < i ==> call_ensures(
                        xmss_verify,
                        ((#[trigger] pairs[j]).0, slot, message, pairs[j].1),
                        true,
                    )
            }
    }
}

/// Pairs keys with signatures, and asks the scheme about each pair if `verify_inputs` is
/// set. There is no answer if the scheme refused one.
pub fn pair_signatures<'a, P, S, V: Fn(&P, u32, &[u8; MESSAGE_LENGTH], &S) -> bool>(
    pubkeys: &Vec<&'a P>,
    signatures: &Vec<&'a S>,
    message: &[u8; MESSAGE_LENGTH],
    slot: u32,
    verify_inputs: bool,
    xmss_verify: &V,
) -> (paired: Option<Vec<(&'a P, &'a S)>>)
    requires
        pubkeys@.len() == signatures@.len(),
        forall|key: &P, at: u32, signed: &[u8; MESSAGE_LENGTH], signature: &S|
            call_requires(*xmss_verify, (key, at, signed, signature)),
    ensures
        pairs_checked(
            pubkeys@.zip_with(signatures@),
            message,
            slot,
            verify_inputs,
            *xmss_verify,
            paired is Some,
        ),
        paired matches Some(pairs) ==> pairs@ == pubkeys@.zip_with(signatures@),
{
    let ghost zipped = pubkeys@.zip_with(signatures@);
    let mut pairs: Vec<(&'a P, &'a S)> = Vec::with_capacity(pubkeys.len());
    let mut i: usize = 0;
    while i < pubkeys.len()
        invariant
            pubkeys@.len() == signatures@.len(),
            zipped == pubkeys@.zip_with(signatures@),
            i <= pubkeys@.len(),
            pairs@.len() == i,
            forall|j: int| 0 <= j < i ==> pairs@[j] == zipped[j],
            verify_inputs ==> forall|j: int|
                0 <= j < i ==> call_ensures(
                    *xmss_verify,
                    ((#[trigger] zipped[j]).0, slot, message, zipped[j].1),
                    true,
                ),
            forall|key: &P, at: u32, signed: &[u8; MESSAGE_LENGTH], signature: &S|
                call_requires(*xmss_verify, (key, at, signed, signature)),
        decreases pubkeys@.len() - i,
    {
        let pubkey = pubkeys[i];
        let signature = signatures[i];
        assert(zipped[i as int] == (pubkey, signature));
        if verify_inputs && !xmss_verify(pubkey, slot, message, signature) {
            return None;
        }
        pairs.push((pubkey, signature));
        i += 1;
    }
    assert(pairs@ =~= zipped);
    Some(pairs)
}

/// Why an aggregation of signatures alone is refused before the scheme is asked, if it is.
pub open spec fn raw_refusal<'a, P, S>(
    pubkeys: Option<&'a [Option<&'a PQSignatureSchemePublicKey<P>>]>,
    signatures: Option<&'a [Option<&'a PQSignature<S>>]>,
    count: usize,
    message: Option<&[u8]>,
    message_len: usize,
    epoch: u64,
) -> Option<PQSigningError> {
    if count == 0 {
        Some(PQSigningError::UnknownError)
    } else if pubkeys is None || signatures is None {
        Some(PQSigningError::InvalidPointer)
    } else if slot_of_epoch(epoch) is Err {
        Some(PQSigningError::InvalidEpoch)
    } else if message_refusal(message, message_len) is Some {
        message_refusal(message, message_len)
    } else if !pointers_valid(pubkeys, count) || !pointers_valid(signatures, count) {
        Some(PQSigningError::InvalidPointer)
    } else {
        None
    }
}

/// What an aggregation of signatures alone comes to, once it is known whether they are
/// `accepted`.
///
/// The arguments are checked before that. The pairs of keys and signatures go to the proof
/// system without any earlier aggregate, and its answer is handed on.
pub open spec fn raw_proving<
    'a,
    P,
    S,
    C,
    A: FnOnce(Vec<C>, Vec<(&'a P, &'a S)>, [u8; MESSAGE_LENGTH], u32, usize) -> ProvingAnswer,
>(
    accepted: bool,
    pubkeys: Option<&'a [Option<&'a PQSignatureSchemePublicKey<P>>]>,
    signatures: Option<&'a [Option<&'a PQSignature<S>>]>,
    count: usize,
    message: Option<&[u8]>,
    message_len: usize,
    epoch: u64,
    log_inv_rate: usize,
    buffer_len: usize,
    aggregate: A,
    before: CallState,
    after: CallState,
    status: PQSigningError,
) -> bool {
    let refusal = raw_refusal(pubkeys, signatures, count, message, message_len, epoch);
    if refusal is Some {
        refused(refusal->0, before, after, status)
    } else if !accepted {
        refused(PQSigningError::UnknownError, before, after, status)
    } else {
        exists|answer: ProvingAnswer|
            {
                &&& #[trigger] aggregation_answered(
                    aggregate,
                    Seq::<C>::empty(),
                    signed_pairs(pubkeys, signatures, count),
                    message_at(message),
                    epoch as u32,
                    log_inv_rate,
                    answer,
                )
                &&& proof_reported(
                    answer,
                    "aggregate_type_1"@,
                    buffer_len,
                    before,
                    after,
                    status,
                )
            }
    }
}

/// The pairs of keys and signatures that an aggregation of signatures alone is about.
pub open spec fn signed_pairs<'a, P, S>(
    pubkeys: Option<&'a [Option<&'a PQSignatureSchemePublicKey<P>>]>,
    signatures: Option<&'a [Option<&'a PQSignature<S>>]>,
    count: usize,
) -> Seq<(&'a P, &'a S)> {
    public_keys(pubkeys, count).zip_with(signatures_at(signatures, count))
}

/// What an aggregation of signatures alone comes to: once the arguments are accepted, the
/// scheme is asked about each signature if the inputs are to be verified, and the call goes
/// on from there.
pub open spec fn raw_aggregation<
    'a,
    P,
    S,
    C,
    V: Fn(&P, u32, &[u8; MESSAGE_LENGTH], &S) -> bool,
    A: FnOnce(Vec<C>, Vec<(&'a P, &'a S)>, [u8; MESSAGE_LENGTH], u32, usize) -> ProvingAnswer,
>(
    pubkeys: Option<&'a [Option<&'a PQSignatureSchemePublicKey<P>>]>,
    signatures: Option<&'a [Option<&'a PQSignature<S>>]>,
    count: usize,
    message: Option<&[u8]>,
    message_len: usize,
    epoch: u64,
    log_inv_rate: usize,
    buffer_len: usize,
    verify_inputs: bool,
    xmss_verify: V,
    aggregate: A,
    before: CallState,
    after: CallState,
    status: PQSigningError,
) -> bool {
    let refusal = raw_refusal(pubkeys, signatures, count, message, message_len, epoch);
    if refusal is Some {
        refused(refusal->0, before, after, status)
    } else {
        exists|accepted: bool|
            {
                &&& #[trigger] pairs_checked(
                    signed_pairs(pubkeys, signatures, count),
                    &message_at(message),
                    epoch as u32,
                    verify_inputs,
                    xmss_verify,
                    accepted,
                )
                &&& raw_proving(
                    accepted,
                    pubkeys,
                    signatures,
                    count,
                    message,
                    message_len,
                    epoch,
                    log_inv_rate,
                    buffer_len,
                    aggregate,
                    before,
                    after,
                    status,
                )
            }
    }
}

/// Stands where no signature is to be checked.
fn accept_any<P, S>(
    _key: &P,
    _slot: u32,
    _message: &[u8; MESSAGE_LENGTH],
    _signature: &S,
) -> (accepted: bool)
    ensures
        accepted,
{
    true
}

/// Aggregates signatures over one message.
pub fn aggregate_raw_signatures<
    'a,
    P,
    S,
    C,
    V: Fn(&P, u32, &[u8; MESSAGE_LENGTH], &S) -> bool,
    A: FnOnce(Vec<C>, Vec<(&'a P, &'a S)>, [u8; MESSAGE_LENGTH], u32, usize) -> ProvingAnswer,
>(
    last_error: &mut LastError,
    pubkeys: Option<&'a [Option<&'a PQSignatureSchemePublicKey<P>>]>,
    signatures: Option<&'a [Option<&'a PQSignature<S>>]>,
    count: usize,
    message: Option<&[u8]>,
    message_len: usize,
    epoch: u64,
    log_inv_rate: usize,
    buffer: Option<&mut [u8]>,
    buffer_len: usize,
    written_len: Option<&mut usize>,
    verify_inputs: bool,
    xmss_verify: V,
    aggregate: A,
) -> (status: PQSigningError)
    requires
        readable(pubkeys, count),
        readable(signatures, count),
        message_readable(message, message_len),
        writable(buffer, buffer_len),
        forall|key: &P, slot: u32, signed: &[u8; MESSAGE_LENGTH], signature: &S|
            call_requires(xmss_verify, (key, slot, signed, signature)),
        forall|
            child_inputs: Vec<C>,
            raw_inputs: Vec<(&'a P, &'a S)>,
            signed: [u8; MESSAGE_LENGTH],
            slot: u32,
            rate: usize,
        |
            call_requires(aggregate, (child_inputs, raw_inputs, signed, slot, rate)),
    ensures
        raw_aggregation(
            pubkeys,
            signatures,
            count,
            message,
            message_len,
            epoch,
            log_inv_rate,
            buffer_len,
            verify_inputs,
            xmss_verify,
            aggregate,
            (CallState { output: output_before(buffer, written_len), detail: None }),
            (CallState {
                output: Output {
                    buffer: match buffer {
                        Some(memory) => Some(final(memory)@),
                        None => None,
                    },
                    written_len: match written_len {
                        Some(written) => Some(*final(written)),
                        None => None,
                    },
                },
                detail: final(last_error)@,
            }),
            status,
        ),
{
    clear_last_error(last_error);
    if count == 0 {
        return PQSigningError::UnknownError;
    }
    if pubkeys.is_none() || signatures.is_none() {
        return PQSigningError::InvalidPointer;
    }
    let slot = match epoch_to_u32(epoch) {
        Ok(slot) => slot,
        Err(refusal) => return refusal,
    };
    let signed = match message_from_ptr(message, message_len) {
        Ok(signed) => signed,
        Err(refusal) => return refusal,
    };
    let keys = match collect_public_keys(pubkeys, count) {
        Ok(keys) => keys,
        Err(refusal) => return refusal,
    };
    let sigs = match collect_signatures(signatures, count) {
        Ok(sigs) => sigs,
        Err(refusal) => return refusal,
    };
    let paired = pair_signatures(&keys, &sigs, &signed, slot, verify_inputs, &xmss_verify);
    assert(pairs_checked(
        signed_pairs(pubkeys, signatures, count),
        &message_at(message),
        slot,
        verify_inputs,
        xmss_verify,
        paired is Some,
    ));
    let raw_xmss = match paired {
        Some(raw_xmss) => raw_xmss,
        None => return PQSigningError::UnknownError,
    };
    let ghost pairs = raw_xmss@;
    let children: Vec<C> = Vec::new();
    assert(children@ =~= Seq::<C>::empty());
    let answer = aggregate(children, raw_xmss, signed, slot, log_inv_rate);
    assert(aggregation_answered(
        aggregate,
        Seq::<C>::empty(),
        pairs,
        signed,
        slot,
        log_inv_rate,
        answer,
    ));
    report_proof(answer, "aggregate_type_1", last_error, buffer, buffer_len, written_len)
}

/// Aggregates signatures over one message, after the scheme has accepted each of them.
pub fn pq_aggregate_signatures<
    'a,
    P,
    S,
    C,
    V: Fn(&P, u32, &[u8; MESSAGE_LENGTH], &S) -> bool,
    A: FnOnce(Vec<C>, Vec<(&'a P, &'a S)>, [u8; MESSAGE_LENGTH], u32, usize) -> ProvingAnswer,
>(
    last_error: &mut LastError,
    pubkeys: Option<&'a [Option<&'a PQSignatureSchemePublicKey<P>>]>,
    signatures: Option<&'a [Option<&'a PQSignature<S>>]>,
    count: usize,
    message: Option<&[u8]>,
    message_len: usize,
    epoch: u64,
    log_inv_rate: usize,
    buffer: Option<&mut [u8]>,
    buffer_len: usize,
    written_len: Option<&mut usize>,
    xmss_verify: V,
    aggregate: A,
) -> (status: PQSigningError)
    requires
        readable(pubkeys, count),
        readable(signatures, count),
        message_readable(message, message_len),
        writable(buffer, buffer_len),
        forall|key: &P, slot: u32, signed: &[u8; MESSAGE_LENGTH], signature: &S|
            call_requires(xmss_verify, (key, slot, signed, signature)),
        forall|
            child_inputs: Vec<C>,
            raw_inputs: Vec<(&'a P, &'a S)>,
            signed: [u8; MESSAGE_LENGTH],
            slot: u32,
            rate: usize,
        |
            call_requires(aggregate, (child_inputs, raw_inputs, signed, slot, rate)),
    ensures
        raw_aggregation(
            pubkeys,
            signatures,
            count,
            message,
            message_len,
            epoch,
            log_inv_rate,
            buffer_len,
            true,
            xmss_verify,
            aggregate,
            (CallState { output: output_before(buffer, written_len), detail: None }),
            (CallState {
                output: Output {
                    buffer: match buffer {
                        Some(memory) => Some(final(memory)@),
                        None => None,
                    },
                    written_len: match written_len {
                        Some(written) => Some(*final(written)),
                        None => None,
                    },
                },
                detail: final(last_error)@,
            }),
            status,
        ),
{
    aggregate_raw_signatures(
        last_error,
        pubkeys,
        signatures,
        count,
        message,
        message_len,
        epoch,
        log_inv_rate,
        buffer,
        buffer_len,
        written_len,
        true,
        xmss_verify,
        aggregate,
    )
}

/// Aggregates signatures over one message without asking the scheme about any of them.
pub fn pq_aggregate_signatures_unverified<
    'a,
    P,
    S,
    C,
    A: FnOnce(Vec<C>, Vec<(&'a P, &'a S)>, [u8; MESSAGE_LENGTH], u32, usize) -> ProvingAnswer,
>(
    last_error: &mut LastError,
    pubkeys: Option<&'a [Option<&'a PQSignatureSchemePublicKey<P>>]>,
    signatures: Option<&'a [Option<&'a PQSignature<S>>]>,
    count: usize,
    message: Option<&[u8]>,
    message_len: usize,
    epoch: u64,
    log_inv_rate: usize,
    buffer: Option<&mut [u8]>,
    buffer_len: usize,
    written_len: Option<&mut usize>,
    aggregate: A,
) -> (status: PQSigningError)
    requires
        readable(pubkeys, count),
        readable(signatures, count),
        message_readable(message, message_len),
        writable(buffer, buffer_len),
        forall|
            child_inputs: Vec<C>,
            raw_inputs: Vec<(&'a P, &'a S)>,
            signed: [u8; MESSAGE_LENGTH],
            slot: u32,
            rate: usize,
        |
            call_requires(aggregate, (child_inputs, raw_inputs, signed, slot, rate)),
    ensures
        raw_proving(
            true,
            pubkeys,
            signatures,
            count,
            message,
            message_len,
            epoch,
            log_inv_rate,
            buffer_len,
            aggregate,
            (CallState { output: output_before(buffer, written_len), detail: None }),
            (CallState {
                output: Output {
                    buffer: match buffer {
                        Some(memory) => Some(final(memory)@),
                        None => None,
                    },
                    written_len: match written_len {
                        Some(written) => Some(*final(written)),
                        None => None,
                    },
                },
                detail: final(last_error)@,
            }),
            status,
        ),
{
    aggregate_raw_signatures(
        last_error,
        pubkeys,
        signatures,
        count,
        message,
        message_len,
        epoch,
        log_inv_rate,
        buffer,
        buffer_len,
        written_len,
        false,
        accept_any::<P, S>,
        aggregate,
    )
}

/// Aggregates raw signatures and earlier aggregates over one message, after the scheme has
/// accepted each raw signature.
pub fn pq_aggregate_signatures_recursive<
    'a,
    P,
    S,
    C,
    V: Fn(&P, u32, &[u8; MESSAGE_LENGTH], &S) -> bool,
    D: Fn(&[u8], Vec<&'a P>) -> Option<C>,
    A: FnOnce(Vec<C>, Vec<(&'a P, &'a S)>, [u8; MESSAGE_LENGTH], u32, usize) -> ProvingAnswer,
>(
    last_error: &mut LastError,
    children: Option<&'a [PQAggregatedSignatureChild<'a, P>]>,
    child_count: usize,
    raw_xmss: Option<&'a [PQRawXmssSignature<'a, P, S>]>,
    raw_xmss_count: usize,
    message: Option<&[u8]>,
    message_len: usize,
    epoch: u64,
    log_inv_rate: usize,
    buffer: Option<&mut [u8]>,
    buffer_len: usize,
    written_len: Option<&mut usize>,
    xmss_verify: V,
    decode: D,
    aggregate: A,
) -> (status: PQSigningError)
    requires
        recursive_refusal(
            children,
            child_count,
            raw_xmss,
            raw_xmss_count,
            message,
            message_len,
            epoch,
            output_before(buffer, written_len),
        ) is None ==> children_readable(children, child_count) && readable(
            raw_xmss,
            raw_xmss_count,
        ),
        message_readable(message, message_len),
        writable(buffer, buffer_len),
        forall|key: &P, slot: u32, signed: &[u8; MESSAGE_LENGTH], signature: &S|
            call_requires(xmss_verify, (key, slot, signed, signature)),
        forall|encoded: &[u8], pubkeys: Vec<&'a P>| call_requires(decode, (encoded, pubkeys)),
        forall|
            child_inputs: Vec<C>,
            raw_inputs: Vec<(&'a P, &'a S)>,
            signed: [u8; MESSAGE_LENGTH],
            slot: u32,
            rate: usize,
        |
            call_requires(aggregate, (child_inputs, raw_inputs, signed, slot, rate)),
    ensures
        recursive_aggregation(
            children,
            child_count,
            raw_xmss,
            raw_xmss_count,
            message,
            message_len,
            epoch,
            log_inv_rate,
            buffer_len,
            true,
            xmss_verify,
            decode,
            aggregate,
            (CallState { output: output_before(buffer, written_len), detail: None }),
            (CallState {
                output: Output {
                    buffer: match buffer {
                        Some(memory) => Some(final(memory)@),
                        None => None,
                    },
                    written_len: match written_len {
                        Some(written) => Some(*final(written)),
                        None => None,
                    },
                },
                detail: final(last_error)@,
            }),
            status,
        ),
{
    clear_last_error(last_error);
    aggregate_signatures_impl(
        last_error,
        children,
        child_count,
        raw_xmss,
        raw_xmss_count,
        message,
        message_len,
        epoch,
        log_inv_rate,
        buffer,
        buffer_len,
        written_len,
        true,
        xmss_verify,
        decode,
        aggregate,
    )
}

/// Aggregates raw signatures and earlier aggregates over one message without asking the
/// scheme about any raw signature.
pub fn pq_aggregate_signatures_recursive_unverified<
    'a,
    P,
    S,
    C,
    D: Fn(&[u8], Vec<&'a P>) -> Option<C>,
    A: FnOnce(Vec<C>, Vec<(&'a P, &'a S)>, [u8; MESSAGE_LENGTH], u32, usize) -> ProvingAnswer,
>(
    last_error: &mut LastError,
    children: Option<&'a [PQAggregatedSignatureChild<'a, P>]>,
    child_count: usize,
    raw_xmss: Option<&'a [PQRawXmssSignature<'a, P, S>]>,
    raw_xmss_count: usize,
    message: Option<&[u8]>,
    message_len: usize,
    epoch: u64,
    log_inv_rate: usize,
    buffer: Option<&mut [u8]>,
    buffer_len: usize,
    written_len: Option<&mut usize>,
    decode: D,
    aggregate: A,
) -> (status: PQSigningError)
    requires
        recursive_refusal(
            children,
            child_count,
            raw_xmss,
            raw_xmss_count,
            message,
            message_len,
            epoch,
            output_before(buffer, written_len),
        ) is None ==> children_readable(children, child_count) && readable(
            raw_xmss,
            raw_xmss_count,
        ),
        message_readable(message, message_len),
        writable(buffer, buffer_len),
        forall|encoded: &[u8], pubkeys: Vec<&'a P>| call_requires(decode, (encoded, pubkeys)),
        forall|
            child_inputs: Vec<C>,
            raw_inputs: Vec<(&'a P, &'a S)>,
            signed: [u8; MESSAGE_LENGTH],
            slot: u32,
            rate: usize,
        |
            call_requires(aggregate, (child_inputs, raw_inputs, signed, slot, rate)),
    ensures
        recursive_aggregation_unverified(
            children,
            child_count,
            raw_xmss,
            raw_xmss_count,
            message,
            message_len,
            epoch,
            log_inv_rate,
            buffer_len,
            decode,
            aggregate,
            (CallState { output: output_before(buffer, written_len), detail: None }),
            (CallState {
                output: Output {
                    buffer: match buffer {
                        Some(memory) => Some(final(memory)@),
                        None => None,
                    },
                    written_len: match written_len {
                        Some(written) => Some(*final(written)),
                        None => None,
                    },
                },
                detail: final(last_error)@,
            }),
            status,
        ),
{
    clear_last_error(last_error);
    proof {
        lemma_unverified_inputs(
            raw_xmss,
            raw_xmss_count,
            &message_at(message),
            epoch as u32,
            accept_any::<P, S>,
        );
    }
    aggregate_signatures_impl(
        last_error,
        children,
        child_count,
        raw_xmss,
        raw_xmss_count,
        message,
        message_len,
        epoch,
        log_inv_rate,
        buffer,
        buffer_len,
        written_len,
        false,
        accept_any::<P, S>,
        decode,
        aggregate,
    )
}

/// The proof system answered `answer` when it was to merge these aggregates.
pub open spec fn merge_answered<C, M: FnOnce(Vec<C>, usize) -> ProvingAnswer>(
    merge: M,
    entries: Seq<C>,
    log_inv_rate: usize,
    answer: ProvingAnswer,
) -> bool {
    exists|type1_entries: Vec<C>|
        type1_entries@ == entries && #[trigger] call_ensures(
            merge,
            (type1_entries, log_inv_rate),
            answer,
        )
}

/// What merging single-message aggregates comes to: the pointers are checked, then the
/// aggregates are gathered, and the first refusal is the answer. What was gathered goes to
/// the proof system, and its answer is handed on.
pub open spec fn merge_outcome<
    'a,
    P,
    C,
    D: Fn(&[u8], Vec<&'a P>) -> Option<C>,
    M: FnOnce(Vec<C>, usize) -> ProvingAnswer,
>(
    entries: Option<&'a [PQAggregatedSignatureChild<'a, P>]>,
    entry_count: usize,
    log_inv_rate: usize,
    buffer_len: usize,
    decode: D,
    merge: M,
    before: CallState,
    after: CallState,
    status: PQSigningError,
) -> bool {
    if before.output.buffer is None || before.output.written_len is None || entry_count == 0
        || entries is None {
        refused(PQSigningError::InvalidPointer, before, after, status)
    } else {
        exists|collected: Result<Seq<C>, PQSigningError>|
            {
                &&& #[trigger] children_collected(entries, entry_count, decode, collected)
                &&& match collected {
                    Err(refusal) => refused(refusal, before, after, status),
                    Ok(decoded) => exists|answer: ProvingAnswer|
                        {
                            &&& #[trigger] merge_answered(merge, decoded, log_inv_rate, answer)
                            &&& proof_reported(
                                answer,
                                "merge_many_type_1"@,
                                buffer_len,
                                before,
                                after,
                                status,
                            )
                        },
                }
            }
    }
}

/// Merges single-message aggregates into a multi-message aggregate.
pub fn pq_merge_many_type_1<
    'a,
    P,
    C,
    D: Fn(&[u8], Vec<&'a P>) -> Option<C>,
    M: FnOnce(Vec<C>, usize) -> ProvingAnswer,
>(
    last_error: &mut LastError,
    entries: Option<&'a [PQAggregatedSignatureChild<'a, P>]>,
    entry_count: usize,
    log_inv_rate: usize,
    buffer: Option<&mut [u8]>,
    buffer_len: usize,
    written_len: Option<&mut usize>,
    decode: D,
    merge: M,
) -> (status: PQSigningError)
    requires
        buffer is Some && written_len is Some ==> children_readable(entries, entry_count),
        writable(buffer, buffer_len),
        forall|encoded: &[u8], pubkeys: Vec<&'a P>| call_requires(decode, (encoded, pubkeys)),
        forall|type1_entries: Vec<C>, rate: usize| call_requires(merge, (type1_entries, rate)),
    ensures
        merge_outcome(
            entries,
            entry_count,
            log_inv_rate,
            buffer_len,
            decode,
            merge,
            (CallState { output: output_before(buffer, written_len), detail: None }),
            (CallState {
                output: Output {
                    buffer: match buffer {
                        Some(memory) => Some(final(memory)@),
                        None => None,
                    },
                    written_len: match written_len {
                        Some(written) => Some(*final(written)),
                        None => None,
                    },
                },
                detail: final(last_error)@,
            }),
            status,
        ),
{
    clear_last_error(last_error);
    if buffer.is_none() || written_len.is_none() {
        return PQSigningError::InvalidPointer;
    }
    if entry_count == 0 || entries.is_none() {
        return PQSigningError::InvalidPointer;
    }
    let collected = collect_type1_entries(entries, entry_count, &decode);
    assert(children_collected(entries, entry_count, decode, contents(collected)));
    let type1_entries = match collected {
        Ok(type1_entries) => type1_entries,
        Err(refusal) => return refusal,
    };
    let ghost decoded = type1_entries@;
    let answer = merge(type1_entries, log_inv_rate);
    assert(merge_answered(merge, decoded, log_inv_rate, answer));
    report_proof(answer, "merge_many_type_1", last_error, buffer, buffer_len, written_len)
}

/// `decode` answered `answer` on these bytes and the public keys of these components.
pub open spec fn multi_decode_answered<
    'a,
    P,
    T,
    D: Fn(&[u8], Vec<Vec<&'a P>>) -> Option<MultiMessageAggregate<T>>,
>(
    decode: D,
    bytes: Seq<u8>,
    keys: Seq<Seq<&'a P>>,
    answer: Option<MultiMessageAggregate<T>>,
) -> bool {
    exists|encoded: &[u8], pks_per_component: Vec<Vec<&'a P>>|
        {
            &&& encoded@ == bytes
            &&& nested(pks_per_component@) == keys
            &&& #[trigger] call_ensures(decode, (encoded, pks_per_component), answer)
        }
}

/// `index` is the first place with the message.
pub open spec fn is_first_with(
    info: Seq<AggregateInfo>,
    message: [u8; MESSAGE_LENGTH],
    index: int,
) -> bool {
    &&& 0 <= index < info.len()
    &&& info[index].message == message
    &&& forall|i: int| 0 <= i < index ==> (#[trigger] info[i]).message != message
}

/// The message occurs in some place.
pub open spec fn occurs(info: Seq<AggregateInfo>, message: [u8; MESSAGE_LENGTH]) -> bool {
    exists|i: int| 0 <= i < info.len() && (#[trigger] info[i]).message == message
}

/// The first place with a message, if there is one.
pub fn message_position(info: &Vec<AggregateInfo>, message: &[u8; MESSAGE_LENGTH]) -> (position:
    Option<usize>)
    ensures
        position matches Some(index) ==> is_first_with(info@, *message, index as int),
        position is Some <==> occurs(info@, *message),
        position is None ==> forall|i: int|
            0 <= i < info@.len() ==> (#[trigger] info@[i]).message != *message,
{
    let mut i: usize = 0;
    while i < info.len()
        invariant
            i <= info@.len(),
            forall|j: int| 0 <= j < i ==> (#[trigger] info@[j]).message != *message,
        decreases info@.len() - i,
    {
        if same_message(&info[i].message, message) {
            return Some(i);
        }
        i += 1;
    }
    None
}

/// Why a split is refused before the aggregate is decoded, if it is.
pub open spec fn split_refusal<'a, P>(
    components: Option<&'a [PQTypeTwoComponent<'a, P>]>,
    component_count: usize,
    type2_bytes: Option<&[u8]>,
    message: Option<&[u8]>,
    message_len: usize,
    output: Output,
) -> Option<PQSigningError> {
    if components is None || type2_bytes is None || message is None || output.buffer is None
        || output.written_len is None {
        Some(PQSigningError::InvalidPointer)
    } else if message_refusal(message, message_len) is Some {
        message_refusal(message, message_len)
    } else if !components_valid(components, component_count) {
        Some(PQSigningError::InvalidPointer)
    } else {
        None
    }
}

/// What splitting a multi-message aggregate comes to.
///
/// The arguments are checked first, then the aggregate is decoded. If it decodes and holds
/// the message, it goes to the proof system with the first place of the message, and the
/// answer is handed on.
pub open spec fn split_outcome<
    'a,
    P,
    T,
    D: Fn(&[u8], Vec<Vec<&'a P>>) -> Option<MultiMessageAggregate<T>>,
    X: FnOnce(MultiMessageAggregate<T>, usize, usize) -> ProvingAnswer,
>(
    components: Option<&'a [PQTypeTwoComponent<'a, P>]>,
    component_count: usize,
    type2_bytes: Option<&[u8]>,
    type2_len: usize,
    message: Option<&[u8]>,
    message_len: usize,
    log_inv_rate: usize,
    buffer_len: usize,
    decode: D,
    split: X,
    before: CallState,
    after: CallState,
    status: PQSigningError,
) -> bool {
    let refusal = split_refusal(
        components,
        component_count,
        type2_bytes,
        message,
        message_len,
        before.output,
    );
    let wanted = message_at(message);
    if refusal is Some {
        refused(refusal->0, before, after, status)
    } else {
        exists|decoded: Option<MultiMessageAggregate<T>>|
            {
                &&& #[trigger] multi_decode_answered(
                    decode,
                    items(type2_bytes, type2_len),
                    component_keys(components, component_count),
                    decoded,
                )
                &&& match decoded {
                    None => refused(PQSigningError::UnknownError, before, after, status),
                    Some(type2) => {
                        ||| {
                            &&& forall|i: int|
                                0 <= i < type2.info@.len() ==> (#[trigger] type2.info@[i]).message
                                    != wanted
                            &&& refused(PQSigningError::UnknownError, before, after, status)
                        }
                        ||| exists|index: usize, answer: ProvingAnswer|
                            {
                                &&& is_first_with(type2.info@, wanted, index as int)
                                &&& #[trigger] call_ensures(
                                    split,
                                    (type2, index, log_inv_rate),
                                    answer,
                                )
                                &&& proof_reported(
                                    answer,
                                    "split_multi_message_aggregate"@,
                                    buffer_len,
                                    before,
                                    after,
                                    status,
                                )
                            }
                    },
                }
            }
    }
}

/// Splits the single-message aggregate of one message off a multi-message aggregate.
pub fn pq_split_type_2_by_message<
    'a,
    P,
    T,
    D: Fn(&[u8], Vec<Vec<&'a P>>) -> Option<MultiMessageAggregate<T>>,
    X: FnOnce(MultiMessageAggregate<T>, usize, usize) -> ProvingAnswer,
>(
    last_error: &mut LastError,
    components: Option<&'a [PQTypeTwoComponent<'a, P>]>,
    component_count: usize,
    type2_bytes: Option<&[u8]>,
    type2_len: usize,
    message: Option<&[u8]>,
    message_len: usize,
    log_inv_rate: usize,
    buffer: Option<&mut [u8]>,
    buffer_len: usize,
    written_len: Option<&mut usize>,
    decode: D,
    split: X,
) -> (status: PQSigningError)
    requires
        type2_bytes is Some && buffer is Some && written_len is Some && message_refusal(
            message,
            message_len,
        ) is None ==> components_readable(components, component_count),
        readable(type2_bytes, type2_len),
        message_readable(message, message_len),
        writable(buffer, buffer_len),
        forall|encoded: &[u8], pks_per_component: Vec<Vec<&'a P>>|
            call_requires(decode, (encoded, pks_per_component)),
        forall|type2: MultiMessageAggregate<T>, index: usize, rate: usize|
            call_requires(split, (type2, index, rate)),
    ensures
        split_outcome(
            components,
            component_count,
            type2_bytes,
            type2_len,
            message,
            message_len,
            log_inv_rate,
            buffer_len,
            decode,
            split,
            (CallState { output: output_before(buffer, written_len), detail: None }),
            (CallState {
                output: Output {
                    buffer: match buffer {
                        Some(memory) => Some(final(memory)@),
                        None => None,
                    },
                    written_len: match written_len {
                        Some(written) => Some(*final(written)),
                        None => None,
                    },
                },
                detail: final(last_error)@,
            }),
            status,
        ),
{
    clear_last_error(last_error);
    if components.is_none() || message.is_none() || buffer.is_none() || written_len.is_none() {
        return PQSigningError::InvalidPointer;
    }
    let encoded = match type2_bytes {
        Some(memory) => slice_subrange(memory, 0, type2_len),
        None => return PQSigningError::InvalidPointer,
    };
    let wanted = match message_from_ptr(message, message_len) {
        Ok(wanted) => wanted,
        Err(refusal) => return refusal,
    };
    let pks_per_component = match collect_type2_components(components, component_count) {
        Ok(pks_per_component) => pks_per_component,
        Err(refusal) => return refusal,
    };
    let decoded = decode(encoded, pks_per_component);
    assert(multi_decode_answered(
        decode,
        items(type2_bytes, type2_len),
        component_keys(components, component_count),
        decoded,
    ));
    let type2 = match decoded {
        Some(type2) => type2,
        None => return PQSigningError::UnknownError,
    };
    let message_index = match message_position(&type2.info, &wanted) {
        Some(message_index) => message_index,
        None => return PQSigningError::UnknownError,
    };
    let ghost handed = type2;
    let answer = split(type2, message_index, log_inv_rate);
    assert(call_ensures(split, (handed, message_index, log_inv_rate), answer));
    report_proof(
        answer,
        "split_multi_message_aggregate",
        last_error,
        buffer,
        buffer_len,
        written_len,
    )
}

} // verus!
