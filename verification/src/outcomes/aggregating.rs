//! Aggregating signatures alone.
use vstd::prelude::*;
use crate::error::PQSigningError;
use crate::handles::{PQSignature, PQSignatureSchemePublicKey};
use crate::input::{lemma_message_array, MESSAGE_LENGTH};
use crate::last_error::LastError;
use crate::memory::{output_before, Output};
use crate::proving::{
    aggregate_raw_signatures, aggregation_answered, pairs_checked, pq_aggregate_signatures,
    pq_aggregate_signatures_unverified, proof_reported, signed_pairs, CallState, ProvingAnswer,
};

verus! {

/// An aggregation of signatures alone succeeds only with every signature of the request: the proof
/// system was asked, without any earlier aggregate, about as many pairs as announced, each made of
/// the key and the signature in its place, with the message, the slot and the rate of the request,
/// and the bytes in the buffer are its answer to that.
pub proof fn law_raw_aggregation_is_of_all_the_signatures<
    'a,
    P,
    S,
    C,
    V: Fn(&P, u32, &[u8; MESSAGE_LENGTH], &S) -> bool,
    A: FnOnce(Vec<C>, Vec<(&'a P, &'a S)>, [u8; MESSAGE_LENGTH], u32, usize) -> ProvingAnswer,
>(
    last_error: &mut LastError,
    pubkeys: Option<&'a [Option<&'a PQSignatureSchemePublicKey<P>>]>,
    signatures: Option<&'a [Option<&'a PQSignature<S>>]>,
    count: usize,
    message: Option<&[u8]>,
    message_len: usize,
    signed: [u8; MESSAGE_LENGTH],
    epoch: u64,
    log_inv_rate: usize,
    buffer: Option<&mut [u8]>,
    buffer_len: usize,
    written_len: Option<&mut usize>,
    verify_inputs: bool,
    xmss_verify: V,
    aggregate: A,
)
    requires
        call_ensures(
            aggregate_raw_signatures::<P, S, C, V, A>,
            (
                last_error,
                pubkeys,
                signatures,
                count,
                message,
                message_len,
                epoch,
                log_inv_rate,
                buffer,
                buffer_len,
                written_len,
                verify_inputs,
                xmss_verify,
                aggregate,
            ),
            PQSigningError::Success,
        ),
        message matches Some(memory) ==> message_len == 32 ==> signed@ == memory@.take(32),
    ensures
        count > 0,
        pubkeys is Some,
        signatures is Some,
        forall|i: int| 0 <= i < count ==> #[trigger] pubkeys->0@[i] is Some,
        forall|i: int| 0 <= i < count ==> #[trigger] signatures->0@[i] is Some,
        message is Some,
        message_len == 32,
        epoch < 4294967296,
        buffer is Some,
        written_len is Some,
        forall|i: int|
            0 <= i < count && verify_inputs ==> call_ensures(
                xmss_verify,
                (
                    &pubkeys->0@[i]->0.inner,
                    epoch as u32,
                    &signed,
                    &(#[trigger] signatures->0@[i])->0.inner,
                ),
                true,
            ),
        exists|children: Vec<C>, raw_xmss: Vec<(&'a P, &'a S)>, bytes: Vec<u8>|
            {
                &&& children@.len() == 0
                &&& raw_xmss@.len() == count
                &&& forall|i: int|
                    0 <= i < count ==> (#[trigger] raw_xmss@[i]).0 == &pubkeys->0@[i]->0.inner
                        && raw_xmss@[i].1 == &signatures->0@[i]->0.inner
                &&& #[trigger] call_ensures(
                    aggregate,
                    (children, raw_xmss, signed, epoch as u32, log_inv_rate),
                    Ok(Ok(bytes)),
                )
                &&& bytes@.len() <= buffer_len
                &&& written_len matches Some(written) ==> *final(written) == bytes@.len()
                &&& buffer matches Some(memory) ==> final(memory)@ == bytes@ + memory@.skip(
                    bytes@.len() as int,
                )
            },
        final(last_error)@ is None,
{
    lemma_message_array(signed);
    let pairs = signed_pairs(pubkeys, signatures, count);
    assert forall|i: int| 0 <= i < count implies pairs[i] == (
        &(#[trigger] pubkeys->0@[i])->0.inner,
        &signatures->0@[i]->0.inner,
    ) by {}
    assert forall|i: int| 0 <= i < count implies pairs[i] == (
        &pubkeys->0@[i]->0.inner,
        &(#[trigger] signatures->0@[i])->0.inner,
    ) by {}
    let answer = choose|answer: ProvingAnswer|
        {
            &&& #[trigger] aggregation_answered(
                aggregate,
                Seq::<C>::empty(),
                pairs,
                signed,
                epoch as u32,
                log_inv_rate,
                answer,
            )
            &&& answer matches Ok(Ok(bytes)) && bytes@.len() <= buffer_len
            &&& written_len matches Some(written) ==> *final(written) == answer->Ok_0->Ok_0@.len()
            &&& buffer matches Some(memory) ==> final(memory)@ == answer->Ok_0->Ok_0@
                + memory@.skip(answer->Ok_0->Ok_0@.len() as int)
        };
    let bytes = answer->Ok_0->Ok_0;
    assert(answer == Ok::<Result<Vec<u8>, String>, ()>(Ok(bytes)));
    let (children, raw_xmss) = choose|children: Vec<C>, raw_xmss: Vec<(&'a P, &'a S)>|
        {
            &&& children@ == Seq::<C>::empty()
            &&& raw_xmss@ == pairs
            &&& #[trigger] call_ensures(
                aggregate,
                (children, raw_xmss, signed, epoch as u32, log_inv_rate),
                answer,
            )
        };
    assert(call_ensures(
        aggregate,
        (children, raw_xmss, signed, epoch as u32, log_inv_rate),
        Ok(Ok(bytes)),
    ));
}

/// An aggregation of signatures alone that is in order is refused by the scheme for one of them,
/// or reaches the proof system with all of them, and its answer is handed on: an aggregate to the
/// buffer, a refusal as the detail of the failure, in its own words, and a panic as a failure
/// without detail.
pub proof fn law_raw_aggregation_reaches_the_prover<
    'a,
    P,
    S,
    C,
    V: Fn(&P, u32, &[u8; MESSAGE_LENGTH], &S) -> bool,
    A: FnOnce(Vec<C>, Vec<(&'a P, &'a S)>, [u8; MESSAGE_LENGTH], u32, usize) -> ProvingAnswer,
>(
    last_error: &mut LastError,
    pubkeys: Option<&'a [Option<&'a PQSignatureSchemePublicKey<P>>]>,
    signatures: Option<&'a [Option<&'a PQSignature<S>>]>,
    count: usize,
    message: Option<&[u8]>,
    message_len: usize,
    signed: [u8; MESSAGE_LENGTH],
    epoch: u64,
    log_inv_rate: usize,
    buffer: Option<&mut [u8]>,
    buffer_len: usize,
    written_len: Option<&mut usize>,
    verify_inputs: bool,
    xmss_verify: V,
    aggregate: A,
    status: PQSigningError,
)
    requires
        call_ensures(
            aggregate_raw_signatures::<P, S, C, V, A>,
            (
                last_error,
                pubkeys,
                signatures,
                count,
                message,
                message_len,
                epoch,
                log_inv_rate,
                buffer,
                buffer_len,
                written_len,
                verify_inputs,
                xmss_verify,
                aggregate,
            ),
            status,
        ),
        count > 0,
        pubkeys is Some,
        signatures is Some,
        forall|i: int| 0 <= i < count ==> #[trigger] pubkeys->0@[i] is Some,
        forall|i: int| 0 <= i < count ==> #[trigger] signatures->0@[i] is Some,
        message matches Some(memory) && signed@ == memory@.take(32),
        message_len == 32,
        epoch < 4294967296,
    ensures
        (verify_inputs && exists|i: int|
            {
                &&& 0 <= i < count
                &&& call_ensures(
                    xmss_verify,
                    (
                        &pubkeys->0@[i]->0.inner,
                        epoch as u32,
                        &signed,
                        &(#[trigger] signatures->0@[i])->0.inner,
                    ),
                    false,
                )
                &&& forall|j: int|
                    0 <= j < i ==> call_ensures(
                        xmss_verify,
                        (
                            &pubkeys->0@[j]->0.inner,
                            epoch as u32,
                            &signed,
                            &(#[trigger] signatures->0@[j])->0.inner,
                        ),
                        true,
                    )
                &&& status == PQSigningError::UnknownError
                &&& final(last_error)@ is None
                &&& buffer matches Some(memory) ==> final(memory)@ == memory@
                &&& written_len matches Some(written) ==> *final(written) == *written
            }) || exists|children: Vec<C>, raw_xmss: Vec<(&'a P, &'a S)>, answer: ProvingAnswer|
            {
                &&& children@.len() == 0
                &&& raw_xmss@.len() == count
                &&& forall|i: int|
                    0 <= i < count ==> (#[trigger] raw_xmss@[i]).0 == &pubkeys->0@[i]->0.inner
                        && raw_xmss@[i].1 == &signatures->0@[i]->0.inner
                &&& forall|i: int|
                    0 <= i < count && verify_inputs ==> call_ensures(
                        xmss_verify,
                        (
                            &pubkeys->0@[i]->0.inner,
                            epoch as u32,
                            &signed,
                            &(#[trigger] signatures->0@[i])->0.inner,
                        ),
                        true,
                    )
                &&& #[trigger] call_ensures(
                    aggregate,
                    (children, raw_xmss, signed, epoch as u32, log_inv_rate),
                    answer,
                )
                &&& answer matches Ok(Ok(bytes)) ==> {
                    &&& final(last_error)@ is None
                    &&& buffer is None || written_len is None ==> status
                        == PQSigningError::InvalidPointer
                    &&& buffer is Some && written_len is Some ==> status == (if bytes@.len()
                        <= buffer_len {
                        PQSigningError::Success
                    } else {
                        PQSigningError::UnknownError
                    })
                    &&& buffer is Some ==> (written_len matches Some(written) ==> *final(written)
                        == bytes@.len())
                    &&& written_len is Some && bytes@.len() <= buffer_len ==> (
                    buffer matches Some(memory) ==> final(memory)@ == bytes@ + memory@.skip(
                        bytes@.len() as int,
                    ))
                }
                &&& answer matches Ok(Err(err)) ==> {
                    &&& status == PQSigningError::UnknownError
                    &&& final(last_error)@ == Some(
                        "leanvm-xmss: "@ + "aggregate_type_1"@ + " failed: "@ + err@,
                    )
                    &&& written_len matches Some(written) ==> *final(written) == *written
                }
                &&& answer matches Err(_) ==> {
                    &&& status == PQSigningError::UnknownError
                    &&& final(last_error)@ is None
                    &&& written_len matches Some(written) ==> *final(written) == *written
                }
            },
        status != PQSigningError::Success ==> (buffer matches Some(memory) ==> final(memory)@
            == memory@),
{
    lemma_message_array(signed);
    let pairs = signed_pairs(pubkeys, signatures, count);
    assert forall|i: int| 0 <= i < count implies pairs[i] == (
        &pubkeys->0@[i]->0.inner,
        &(#[trigger] signatures->0@[i])->0.inner,
    ) by {}
    let before = CallState { output: output_before(buffer, written_len), detail: None };
    let after = CallState {
        output: Output {
            buffer: match buffer {
                Some(memory) => Some(final(memory)@),
                None => None,
            },
            written_len: match written_len {
                Some(written) => Some(*final(written)),
                None => None,
            },
        },
        detail: final(last_error)@,
    };
    if exists|answer: ProvingAnswer|
        {
            &&& #[trigger] aggregation_answered(
                aggregate,
                Seq::<C>::empty(),
                pairs,
                signed,
                epoch as u32,
                log_inv_rate,
                answer,
            )
            &&& proof_reported(answer, "aggregate_type_1"@, buffer_len, before, after, status)
        } {
        let answer = choose|answer: ProvingAnswer|
            {
                &&& #[trigger] aggregation_answered(
                    aggregate,
                    Seq::<C>::empty(),
                    pairs,
                    signed,
                    epoch as u32,
                    log_inv_rate,
                    answer,
                )
                &&& proof_reported(answer, "aggregate_type_1"@, buffer_len, before, after, status)
            };
        let (children, raw_xmss) = choose|children: Vec<C>, raw_xmss: Vec<(&'a P, &'a S)>|
            {
                &&& children@ == Seq::<C>::empty()
                &&& raw_xmss@ == pairs
                &&& #[trigger] call_ensures(
                    aggregate,
                    (children, raw_xmss, signed, epoch as u32, log_inv_rate),
                    answer,
                )
            };
        assert(call_ensures(
            aggregate,
            (children, raw_xmss, signed, epoch as u32, log_inv_rate),
            answer,
        ));
    } else {
        assert(pairs_checked(
            pairs,
            &signed,
            epoch as u32,
            verify_inputs,
            xmss_verify,
            false,
        ));
        let i = choose|i: int|
            {
                &&& 0 <= i < pairs.len()
                &&& call_ensures(
                    xmss_verify,
                    ((#[trigger] pairs[i]).0, epoch as u32, &signed, pairs[i].1),
                    false,
                )
                &&& forall|j: int|
                    0 <= j < i ==> call_ensures(
                        xmss_verify,
                        ((#[trigger] pairs[j]).0, epoch as u32, &signed, pairs[j].1),
                        true,
                    )
            };
        assert(signatures->0@[i] is Some);
    }
}

/// An aggregation of signatures alone that is not in order is refused for the first thing that is
/// wrong with it, and changes nothing but that an earlier detail is forgotten.
pub proof fn law_raw_aggregation_refusals<
    'a,
    P,
    S,
    C,
    V: Fn(&P, u32, &[u8; MESSAGE_LENGTH], &S) -> bool,
    A: FnOnce(Vec<C>, Vec<(&'a P, &'a S)>, [u8; MESSAGE_LENGTH], u32, usize) -> ProvingAnswer,
>(
    last_error: &mut LastError,
    pubkeys: Option<&'a [Option<&'a PQSignatureSchemePublicKey<P>>]>,
    signatures: Option<&'a [Option<&'a PQSignature<S>>]>,
    count: usize,
    message: Option<&[u8]>,
    message_len: usize,
    epoch: u64,
    log_inv_rate: usize,
    buffer: Option<&mut [u8]>,
    buffer_len: usize,
    written_len: Option<&mut usize>,
    verify_inputs: bool,
    xmss_verify: V,
    aggregate: A,
    status: PQSigningError,
)
    requires
        call_ensures(
            aggregate_raw_signatures::<P, S, C, V, A>,
            (
                last_error,
                pubkeys,
                signatures,
                count,
                message,
                message_len,
                epoch,
                log_inv_rate,
                buffer,
                buffer_len,
                written_len,
                verify_inputs,
                xmss_verify,
                aggregate,
            ),
            status,
        ),
        count == 0 || pubkeys is None || signatures is None || epoch >= 4294967296 || message is None
            || message_len != 32 || exists|i: int|
            0 <= i < count && (#[trigger] pubkeys->0@[i] is None || signatures->0@[i] is None),
    ensures
        status == (if count == 0 {
            PQSigningError::UnknownError
        } else if pubkeys is None || signatures is None {
            PQSigningError::InvalidPointer
        } else if epoch >= 4294967296 {
            PQSigningError::InvalidEpoch
        } else if message is None {
            PQSigningError::InvalidPointer
        } else if message_len != 32 {
            PQSigningError::InvalidMessageLength
        } else {
            PQSigningError::InvalidPointer
        }),
        final(last_error)@ is None,
        buffer matches Some(memory) ==> final(memory)@ == memory@,
        written_len matches Some(written) ==> *final(written) == *written,
{
    if count > 0 && pubkeys is Some && signatures is Some && epoch < 4294967296 && message is Some
        && message_len == 32 {
        let i = choose|i: int|
            0 <= i < count && (#[trigger] pubkeys->0@[i] is None || signatures->0@[i] is None);
        let pointer = signatures->0@[i];
    }
}

/// An aggregation of signatures that are to be verified succeeds only with every signature of the
/// request: the proof system was asked, without any earlier aggregate, about as many pairs as
/// announced, each made of the key and the signature in its place, with the message, the slot and
/// the rate of the request, and the bytes in the buffer are its answer to that.
pub proof fn law_flat_aggregation_is_of_all_the_signatures<
    'a,
    P,
    S,
    C,
    V: Fn(&P, u32, &[u8; MESSAGE_LENGTH], &S) -> bool,
    A: FnOnce(Vec<C>, Vec<(&'a P, &'a S)>, [u8; MESSAGE_LENGTH], u32, usize) -> ProvingAnswer,
>(
    last_error: &mut LastError,
    pubkeys: Option<&'a [Option<&'a PQSignatureSchemePublicKey<P>>]>,
    signatures: Option<&'a [Option<&'a PQSignature<S>>]>,
    count: usize,
    message: Option<&[u8]>,
    message_len: usize,
    signed: [u8; MESSAGE_LENGTH],
    epoch: u64,
    log_inv_rate: usize,
    buffer: Option<&mut [u8]>,
    buffer_len: usize,
    written_len: Option<&mut usize>,
    xmss_verify: V,
    aggregate: A,
)
    requires
        call_ensures(
            pq_aggregate_signatures::<P, S, C, V, A>,
            (
                last_error,
                pubkeys,
                signatures,
                count,
                message,
                message_len,
                epoch,
                log_inv_rate,
                buffer,
                buffer_len,
                written_len,
                xmss_verify,
                aggregate,
            ),
            PQSigningError::Success,
        ),
        message matches Some(memory) ==> message_len == 32 ==> signed@ == memory@.take(32),
    ensures
        count > 0,
        pubkeys is Some,
        signatures is Some,
        forall|i: int| 0 <= i < count ==> #[trigger] pubkeys->0@[i] is Some,
        forall|i: int| 0 <= i < count ==> #[trigger] signatures->0@[i] is Some,
        message is Some,
        message_len == 32,
        epoch < 4294967296,
        buffer is Some,
        written_len is Some,
        forall|i: int|
            0 <= i < count ==> call_ensures(
                xmss_verify,
                (
                    &pubkeys->0@[i]->0.inner,
                    epoch as u32,
                    &signed,
                    &(#[trigger] signatures->0@[i])->0.inner,
                ),
                true,
            ),
        exists|children: Vec<C>, raw_xmss: Vec<(&'a P, &'a S)>, bytes: Vec<u8>|
            {
                &&& children@.len() == 0
                &&& raw_xmss@.len() == count
                &&& forall|i: int|
                    0 <= i < count ==> (#[trigger] raw_xmss@[i]).0 == &pubkeys->0@[i]->0.inner
                        && raw_xmss@[i].1 == &signatures->0@[i]->0.inner
                &&& #[trigger] call_ensures(
                    aggregate,
                    (children, raw_xmss, signed, epoch as u32, log_inv_rate),
                    Ok(Ok(bytes)),
                )
                &&& bytes@.len() <= buffer_len
                &&& written_len matches Some(written) ==> *final(written) == bytes@.len()
                &&& buffer matches Some(memory) ==> final(memory)@ == bytes@ + memory@.skip(
                    bytes@.len() as int,
                )
            },
        final(last_error)@ is None,
{
    lemma_message_array(signed);
    let pairs = signed_pairs(pubkeys, signatures, count);
    assert forall|i: int| 0 <= i < count implies pairs[i] == (
        &(#[trigger] pubkeys->0@[i])->0.inner,
        &signatures->0@[i]->0.inner,
    ) by {}
    assert forall|i: int| 0 <= i < count implies pairs[i] == (
        &pubkeys->0@[i]->0.inner,
        &(#[trigger] signatures->0@[i])->0.inner,
    ) by {}
    let answer = choose|answer: ProvingAnswer|
        {
            &&& #[trigger] aggregation_answered(
                aggregate,
                Seq::<C>::empty(),
                pairs,
                signed,
                epoch as u32,
                log_inv_rate,
                answer,
            )
            &&& answer matches Ok(Ok(bytes)) && bytes@.len() <= buffer_len
            &&& written_len matches Some(written) ==> *final(written) == answer->Ok_0->Ok_0@.len()
            &&& buffer matches Some(memory) ==> final(memory)@ == answer->Ok_0->Ok_0@
                + memory@.skip(answer->Ok_0->Ok_0@.len() as int)
        };
    let bytes = answer->Ok_0->Ok_0;
    assert(answer == Ok::<Result<Vec<u8>, String>, ()>(Ok(bytes)));
    let (children, raw_xmss) = choose|children: Vec<C>, raw_xmss: Vec<(&'a P, &'a S)>|
        {
            &&& children@ == Seq::<C>::empty()
            &&& raw_xmss@ == pairs
            &&& #[trigger] call_ensures(
                aggregate,
                (children, raw_xmss, signed, epoch as u32, log_inv_rate),
                answer,
            )
        };
    assert(call_ensures(
        aggregate,
        (children, raw_xmss, signed, epoch as u32, log_inv_rate),
        Ok(Ok(bytes)),
    ));
}

/// An aggregation of signatures that are to be verified that is in order is refused by the scheme
/// for one of them, or reaches the proof system with all of them, and its answer is handed on: an
/// aggregate to the buffer, a refusal as the detail of the failure, in its own words, and a panic
/// as a failure without detail.
pub proof fn law_flat_aggregation_reaches_the_prover<
    'a,
    P,
    S,
    C,
    V: Fn(&P, u32, &[u8; MESSAGE_LENGTH], &S) -> bool,
    A: FnOnce(Vec<C>, Vec<(&'a P, &'a S)>, [u8; MESSAGE_LENGTH], u32, usize) -> ProvingAnswer,
>(
    last_error: &mut LastError,
    pubkeys: Option<&'a [Option<&'a PQSignatureSchemePublicKey<P>>]>,
    signatures: Option<&'a [Option<&'a PQSignature<S>>]>,
    count: usize,
    message: Option<&[u8]>,
    message_len: usize,
    signed: [u8; MESSAGE_LENGTH],
    epoch: u64,
    log_inv_rate: usize,
    buffer: Option<&mut [u8]>,
    buffer_len: usize,
    written_len: Option<&mut usize>,
    xmss_verify: V,
    aggregate: A,
    status: PQSigningError,
)
    requires
        call_ensures(
            pq_aggregate_signatures::<P, S, C, V, A>,
            (
                last_error,
                pubkeys,
                signatures,
                count,
                message,
                message_len,
                epoch,
                log_inv_rate,
                buffer,
                buffer_len,
                written_len,
                xmss_verify,
                aggregate,
            ),
            status,
        ),
        count > 0,
        pubkeys is Some,
        signatures is Some,
        forall|i: int| 0 <= i < count ==> #[trigger] pubkeys->0@[i] is Some,
        forall|i: int| 0 <= i < count ==> #[trigger] signatures->0@[i] is Some,
        message matches Some(memory) && signed@ == memory@.take(32),
        message_len == 32,
        epoch < 4294967296,
    ensures
        (exists|i: int|
            {
                &&& 0 <= i < count
                &&& call_ensures(
                    xmss_verify,
                    (
                        &pubkeys->0@[i]->0.inner,
                        epoch as u32,
                        &signed,
                        &(#[trigger] signatures->0@[i])->0.inner,
                    ),
                    false,
                )
                &&& forall|j: int|
                    0 <= j < i ==> call_ensures(
                        xmss_verify,
                        (
                            &pubkeys->0@[j]->0.inner,
                            epoch as u32,
                            &signed,
                            &(#[trigger] signatures->0@[j])->0.inner,
                        ),
                        true,
                    )
                &&& status == PQSigningError::UnknownError
                &&& final(last_error)@ is None
                &&& buffer matches Some(memory) ==> final(memory)@ == memory@
                &&& written_len matches Some(written) ==> *final(written) == *written
            }) || exists|children: Vec<C>, raw_xmss: Vec<(&'a P, &'a S)>, answer: ProvingAnswer|
            {
                &&& children@.len() == 0
                &&& raw_xmss@.len() == count
                &&& forall|i: int|
                    0 <= i < count ==> (#[trigger] raw_xmss@[i]).0 == &pubkeys->0@[i]->0.inner
                        && raw_xmss@[i].1 == &signatures->0@[i]->0.inner
                &&& forall|i: int|
                    0 <= i < count ==> call_ensures(
                        xmss_verify,
                        (
                            &pubkeys->0@[i]->0.inner,
                            epoch as u32,
                            &signed,
                            &(#[trigger] signatures->0@[i])->0.inner,
                        ),
                        true,
                    )
                &&& #[trigger] call_ensures(
                    aggregate,
                    (children, raw_xmss, signed, epoch as u32, log_inv_rate),
                    answer,
                )
                &&& answer matches Ok(Ok(bytes)) ==> {
                    &&& final(last_error)@ is None
                    &&& buffer is None || written_len is None ==> status
                        == PQSigningError::InvalidPointer
                    &&& buffer is Some && written_len is Some ==> status == (if bytes@.len()
                        <= buffer_len {
                        PQSigningError::Success
                    } else {
                        PQSigningError::UnknownError
                    })
                    &&& buffer is Some ==> (written_len matches Some(written) ==> *final(written)
                        == bytes@.len())
                    &&& written_len is Some && bytes@.len() <= buffer_len ==> (
                    buffer matches Some(memory) ==> final(memory)@ == bytes@ + memory@.skip(
                        bytes@.len() as int,
                    ))
                }
                &&& answer matches Ok(Err(err)) ==> {
                    &&& status == PQSigningError::UnknownError
                    &&& final(last_error)@ == Some(
                        "leanvm-xmss: "@ + "aggregate_type_1"@ + " failed: "@ + err@,
                    )
                    &&& written_len matches Some(written) ==> *final(written) == *written
                }
                &&& answer matches Err(_) ==> {
                    &&& status == PQSigningError::UnknownError
                    &&& final(last_error)@ is None
                    &&& written_len matches Some(written) ==> *final(written) == *written
                }
            },
        status != PQSigningError::Success ==> (buffer matches Some(memory) ==> final(memory)@
            == memory@),
{
    lemma_message_array(signed);
    let pairs = signed_pairs(pubkeys, signatures, count);
    assert forall|i: int| 0 <= i < count implies pairs[i] == (
        &pubkeys->0@[i]->0.inner,
        &(#[trigger] signatures->0@[i])->0.inner,
    ) by {}
    let before = CallState { output: output_before(buffer, written_len), detail: None };
    let after = CallState {
        output: Output {
            buffer: match buffer {
                Some(memory) => Some(final(memory)@),
                None => None,
            },
            written_len: match written_len {
                Some(written) => Some(*final(written)),
                None => None,
            },
        },
        detail: final(last_error)@,
    };
    if exists|answer: ProvingAnswer|
        {
            &&& #[trigger] aggregation_answered(
                aggregate,
                Seq::<C>::empty(),
                pairs,
                signed,
                epoch as u32,
                log_inv_rate,
                answer,
            )
            &&& proof_reported(answer, "aggregate_type_1"@, buffer_len, before, after, status)
        } {
        let answer = choose|answer: ProvingAnswer|
            {
                &&& #[trigger] aggregation_answered(
                    aggregate,
                    Seq::<C>::empty(),
                    pairs,
                    signed,
                    epoch as u32,
                    log_inv_rate,
                    answer,
                )
                &&& proof_reported(answer, "aggregate_type_1"@, buffer_len, before, after, status)
            };
        let (children, raw_xmss) = choose|children: Vec<C>, raw_xmss: Vec<(&'a P, &'a S)>|
            {
                &&& children@ == Seq::<C>::empty()
                &&& raw_xmss@ == pairs
                &&& #[trigger] call_ensures(
                    aggregate,
                    (children, raw_xmss, signed, epoch as u32, log_inv_rate),
                    answer,
                )
            };
        assert(call_ensures(
            aggregate,
            (children, raw_xmss, signed, epoch as u32, log_inv_rate),
            answer,
        ));
    } else {
        assert(pairs_checked(
            pairs,
            &signed,
            epoch as u32,
            true,
            xmss_verify,
            false,
        ));
        let i = choose|i: int|
            {
                &&& 0 <= i < pairs.len()
                &&& call_ensures(
                    xmss_verify,
                    ((#[trigger] pairs[i]).0, epoch as u32, &signed, pairs[i].1),
                    false,
                )
                &&& forall|j: int|
                    0 <= j < i ==> call_ensures(
                        xmss_verify,
                        ((#[trigger] pairs[j]).0, epoch as u32, &signed, pairs[j].1),
                        true,
                    )
            };
        assert(signatures->0@[i] is Some);
    }
}

/// An aggregation of signatures that are to be verified that is not in order is refused for the
/// first thing that is wrong with it, and changes nothing but that an earlier detail is forgotten.
pub proof fn law_flat_aggregation_refusals<
    'a,
    P,
    S,
    C,
    V: Fn(&P, u32, &[u8; MESSAGE_LENGTH], &S) -> bool,
    A: FnOnce(Vec<C>, Vec<(&'a P, &'a S)>, [u8; MESSAGE_LENGTH], u32, usize) -> ProvingAnswer,
>(
    last_error: &mut LastError,
    pubkeys: Option<&'a [Option<&'a PQSignatureSchemePublicKey<P>>]>,
    signatures: Option<&'a [Option<&'a PQSignature<S>>]>,
    count: usize,
    message: Option<&[u8]>,
    message_len: usize,
    epoch: u64,
    log_inv_rate: usize,
    buffer: Option<&mut [u8]>,
    buffer_len: usize,
    written_len: Option<&mut usize>,
    xmss_verify: V,
    aggregate: A,
    status: PQSigningError,
)
    requires
        call_ensures(
            pq_aggregate_signatures::<P, S, C, V, A>,
            (
                last_error,
                pubkeys,
                signatures,
                count,
                message,
                message_len,
                epoch,
                log_inv_rate,
                buffer,
                buffer_len,
                written_len,
                xmss_verify,
                aggregate,
            ),
            status,
        ),
        count == 0 || pubkeys is None || signatures is None || epoch >= 4294967296 || message is None
            || message_len != 32 || exists|i: int|
            0 <= i < count && (#[trigger] pubkeys->0@[i] is None || signatures->0@[i] is None),
    ensures
        status == (if count == 0 {
            PQSigningError::UnknownError
        } else if pubkeys is None || signatures is None {
            PQSigningError::InvalidPointer
        } else if epoch >= 4294967296 {
            PQSigningError::InvalidEpoch
        } else if message is None {
            PQSigningError::InvalidPointer
        } else if message_len != 32 {
            PQSigningError::InvalidMessageLength
        } else {
            PQSigningError::InvalidPointer
        }),
        final(last_error)@ is None,
        buffer matches Some(memory) ==> final(memory)@ == memory@,
        written_len matches Some(written) ==> *final(written) == *written,
{
    if count > 0 && pubkeys is Some && signatures is Some && epoch < 4294967296 && message is Some
        && message_len == 32 {
        let i = choose|i: int|
            0 <= i < count && (#[trigger] pubkeys->0@[i] is None || signatures->0@[i] is None);
        let pointer = signatures->0@[i];
    }
}

/// An aggregation of signatures that are not to be verified succeeds only with every signature of
/// the request: the proof system was asked, without any earlier aggregate, about as many pairs as
/// announced, each made of the key and the signature in its place, with the message, the slot and
/// the rate of the request, and the bytes in the buffer are its answer to that.
pub proof fn law_unverified_aggregation_is_of_all_the_signatures<
    'a,
    P,
    S,
    C,
    A: FnOnce(Vec<C>, Vec<(&'a P, &'a S)>, [u8; MESSAGE_LENGTH], u32, usize) -> ProvingAnswer,
>(
    last_error: &mut LastError,
    pubkeys: Option<&'a [Option<&'a PQSignatureSchemePublicKey<P>>]>,
    signatures: Option<&'a [Option<&'a PQSignature<S>>]>,
    count: usize,
    message: Option<&[u8]>,
    message_len: usize,
    signed: [u8; MESSAGE_LENGTH],
    epoch: u64,
    log_inv_rate: usize,
    buffer: Option<&mut [u8]>,
    buffer_len: usize,
    written_len: Option<&mut usize>,
    aggregate: A,
)
    requires
        call_ensures(
            pq_aggregate_signatures_unverified::<P, S, C, A>,
            (
                last_error,
                pubkeys,
                signatures,
                count,
                message,
                message_len,
                epoch,
                log_inv_rate,
                buffer,
                buffer_len,
                written_len,
                aggregate,
            ),
            PQSigningError::Success,
        ),
        message matches Some(memory) ==> message_len == 32 ==> signed@ == memory@.take(32),
    ensures
        count > 0,
        pubkeys is Some,
        signatures is Some,
        forall|i: int| 0 <= i < count ==> #[trigger] pubkeys->0@[i] is Some,
        forall|i: int| 0 <= i < count ==> #[trigger] signatures->0@[i] is Some,
        message is Some,
        message_len == 32,
        epoch < 4294967296,
        buffer is Some,
        written_len is Some,
        exists|children: Vec<C>, raw_xmss: Vec<(&'a P, &'a S)>, bytes: Vec<u8>|
            {
                &&& children@.len() == 0
                &&& raw_xmss@.len() == count
                &&& forall|i: int|
                    0 <= i < count ==> (#[trigger] raw_xmss@[i]).0 == &pubkeys->0@[i]->0.inner
                        && raw_xmss@[i].1 == &signatures->0@[i]->0.inner
                &&& #[trigger] call_ensures(
                    aggregate,
                    (children, raw_xmss, signed, epoch as u32, log_inv_rate),
                    Ok(Ok(bytes)),
                )
                &&& bytes@.len() <= buffer_len
                &&& written_len matches Some(written) ==> *final(written) == bytes@.len()
                &&& buffer matches Some(memory) ==> final(memory)@ == bytes@ + memory@.skip(
                    bytes@.len() as int,
                )
            },
        final(last_error)@ is None,
{
    lemma_message_array(signed);
    let pairs = signed_pairs(pubkeys, signatures, count);
    let answer = choose|answer: ProvingAnswer|
        {
            &&& #[trigger] aggregation_answered(
                aggregate,
                Seq::<C>::empty(),
                pairs,
                signed,
                epoch as u32,
                log_inv_rate,
                answer,
            )
            &&& answer matches Ok(Ok(bytes)) && bytes@.len() <= buffer_len
            &&& written_len matches Some(written) ==> *final(written) == answer->Ok_0->Ok_0@.len()
            &&& buffer matches Some(memory) ==> final(memory)@ == answer->Ok_0->Ok_0@
                + memory@.skip(answer->Ok_0->Ok_0@.len() as int)
        };
    let bytes = answer->Ok_0->Ok_0;
    assert(answer == Ok::<Result<Vec<u8>, String>, ()>(Ok(bytes)));
    let (children, raw_xmss) = choose|children: Vec<C>, raw_xmss: Vec<(&'a P, &'a S)>|
        {
            &&& children@ == Seq::<C>::empty()
            &&& raw_xmss@ == pairs
            &&& #[trigger] call_ensures(
                aggregate,
                (children, raw_xmss, signed, epoch as u32, log_inv_rate),
                answer,
            )
        };
    assert(call_ensures(
        aggregate,
        (children, raw_xmss, signed, epoch as u32, log_inv_rate),
        Ok(Ok(bytes)),
    ));
}

/// An aggregation of signatures that are not to be verified that is in order reaches the proof
/// system with all of them, and its answer is handed on: an aggregate to the buffer, a refusal as
/// the detail of the failure, in its own words, and a panic as a failure without detail.
pub proof fn law_unverified_aggregation_reaches_the_prover<
    'a,
    P,
    S,
    C,
    A: FnOnce(Vec<C>, Vec<(&'a P, &'a S)>, [u8; MESSAGE_LENGTH], u32, usize) -> ProvingAnswer,
>(
    last_error: &mut LastError,
    pubkeys: Option<&'a [Option<&'a PQSignatureSchemePublicKey<P>>]>,
    signatures: Option<&'a [Option<&'a PQSignature<S>>]>,
    count: usize,
    message: Option<&[u8]>,
    message_len: usize,
    signed: [u8; MESSAGE_LENGTH],
    epoch: u64,
    log_inv_rate: usize,
    buffer: Option<&mut [u8]>,
    buffer_len: usize,
    written_len: Option<&mut usize>,
    aggregate: A,
    status: PQSigningError,
)
    requires
        call_ensures(
            pq_aggregate_signatures_unverified::<P, S, C, A>,
            (
                last_error,
                pubkeys,
                signatures,
                count,
                message,
                message_len,
                epoch,
                log_inv_rate,
                buffer,
                buffer_len,
                written_len,
                aggregate,
            ),
            status,
        ),
        count > 0,
        pubkeys is Some,
        signatures is Some,
        forall|i: int| 0 <= i < count ==> #[trigger] pubkeys->0@[i] is Some,
        forall|i: int| 0 <= i < count ==> #[trigger] signatures->0@[i] is Some,
        message matches Some(memory) && signed@ == memory@.take(32),
        message_len == 32,
        epoch < 4294967296,
    ensures
        exists|children: Vec<C>, raw_xmss: Vec<(&'a P, &'a S)>, answer: ProvingAnswer|
            {
                &&& children@.len() == 0
                &&& raw_xmss@.len() == count
                &&& forall|i: int|
                    0 <= i < count ==> (#[trigger] raw_xmss@[i]).0 == &pubkeys->0@[i]->0.inner
                        && raw_xmss@[i].1 == &signatures->0@[i]->0.inner
                &&& #[trigger] call_ensures(
                    aggregate,
                    (children, raw_xmss, signed, epoch as u32, log_inv_rate),
                    answer,
                )
                &&& answer matches Ok(Ok(bytes)) ==> {
                    &&& final(last_error)@ is None
                    &&& buffer is None || written_len is None ==> status
                        == PQSigningError::InvalidPointer
                    &&& buffer is Some && written_len is Some ==> status == (if bytes@.len()
                        <= buffer_len {
                        PQSigningError::Success
                    } else {
                        PQSigningError::UnknownError
                    })
                    &&& buffer is Some ==> (written_len matches Some(written) ==> *final(written)
                        == bytes@.len())
                    &&& written_len is Some && bytes@.len() <= buffer_len ==> (
                    buffer matches Some(memory) ==> final(memory)@ == bytes@ + memory@.skip(
                        bytes@.len() as int,
                    ))
                }
                &&& answer matches Ok(Err(err)) ==> {
                    &&& status == PQSigningError::UnknownError
                    &&& final(last_error)@ == Some(
                        "leanvm-xmss: "@ + "aggregate_type_1"@ + " failed: "@ + err@,
                    )
                    &&& written_len matches Some(written) ==> *final(written) == *written
                }
                &&& answer matches Err(_) ==> {
                    &&& status == PQSigningError::UnknownError
                    &&& final(last_error)@ is None
                    &&& written_len matches Some(written) ==> *final(written) == *written
                }
            },
        status != PQSigningError::Success ==> (buffer matches Some(memory) ==> final(memory)@
            == memory@),
{
    lemma_message_array(signed);
    let pairs = signed_pairs(pubkeys, signatures, count);
    assert forall|i: int| 0 <= i < count implies pairs[i] == (
        &pubkeys->0@[i]->0.inner,
        &(#[trigger] signatures->0@[i])->0.inner,
    ) by {}
    let before = CallState { output: output_before(buffer, written_len), detail: None };
    let after = CallState {
        output: Output {
            buffer: match buffer {
                Some(memory) => Some(final(memory)@),
                None => None,
            },
            written_len: match written_len {
                Some(written) => Some(*final(written)),
                None => None,
            },
        },
        detail: final(last_error)@,
    };
    if exists|answer: ProvingAnswer|
        {
            &&& #[trigger] aggregation_answered(
                aggregate,
                Seq::<C>::empty(),
                pairs,
                signed,
                epoch as u32,
                log_inv_rate,
                answer,
            )
            &&& proof_reported(answer, "aggregate_type_1"@, buffer_len, before, after, status)
        } {
        let answer = choose|answer: ProvingAnswer|
            {
                &&& #[trigger] aggregation_answered(
                    aggregate,
                    Seq::<C>::empty(),
                    pairs,
                    signed,
                    epoch as u32,
                    log_inv_rate,
                    answer,
                )
                &&& proof_reported(answer, "aggregate_type_1"@, buffer_len, before, after, status)
            };
        let (children, raw_xmss) = choose|children: Vec<C>, raw_xmss: Vec<(&'a P, &'a S)>|
            {
                &&& children@ == Seq::<C>::empty()
                &&& raw_xmss@ == pairs
                &&& #[trigger] call_ensures(
                    aggregate,
                    (children, raw_xmss, signed, epoch as u32, log_inv_rate),
                    answer,
                )
            };
        assert(call_ensures(
            aggregate,
            (children, raw_xmss, signed, epoch as u32, log_inv_rate),
            answer,
        ));
    }
}

/// An aggregation of signatures that are not to be verified that is not in order is refused for
/// the first thing that is wrong with it, and changes nothing but that an earlier detail is
/// forgotten.
pub proof fn law_unverified_aggregation_refusals<
    'a,
    P,
    S,
    C,
    A: FnOnce(Vec<C>, Vec<(&'a P, &'a S)>, [u8; MESSAGE_LENGTH], u32, usize) -> ProvingAnswer,
>(
    last_error: &mut LastError,
    pubkeys: Option<&'a [Option<&'a PQSignatureSchemePublicKey<P>>]>,
    signatures: Option<&'a [Option<&'a PQSignature<S>>]>,
    count: usize,
    message: Option<&[u8]>,
    message_len: usize,
    epoch: u64,
    log_inv_rate: usize,
    buffer: Option<&mut [u8]>,
    buffer_len: usize,
    written_len: Option<&mut usize>,
    aggregate: A,
    status: PQSigningError,
)
    requires
        call_ensures(
            pq_aggregate_signatures_unverified::<P, S, C, A>,
            (
                last_error,
                pubkeys,
                signatures,
                count,
                message,
                message_len,
                epoch,
                log_inv_rate,
                buffer,
                buffer_len,
                written_len,
                aggregate,
            ),
            status,
        ),
        count == 0 || pubkeys is None || signatures is None || epoch >= 4294967296 || message is None
            || message_len != 32 || exists|i: int|
            0 <= i < count && (#[trigger] pubkeys->0@[i] is None || signatures->0@[i] is None),
    ensures
        status == (if count == 0 {
            PQSigningError::UnknownError
        } else if pubkeys is None || signatures is None {
            PQSigningError::InvalidPointer
        } else if epoch >= 4294967296 {
            PQSigningError::InvalidEpoch
        } else if message is None {
            PQSigningError::InvalidPointer
        } else if message_len != 32 {
            PQSigningError::InvalidMessageLength
        } else {
            PQSigningError::InvalidPointer
        }),
        final(last_error)@ is None,
        buffer matches Some(memory) ==> final(memory)@ == memory@,
        written_len matches Some(written) ==> *final(written) == *written,
{
    if count > 0 && pubkeys is Some && signatures is Some && epoch < 4294967296 && message is Some
        && message_len == 32 {
        let i = choose|i: int|
            0 <= i < count && (#[trigger] pubkeys->0@[i] is None || signatures->0@[i] is None);
        let pointer = signatures->0@[i];
    }
}

} // verus!
