//! Merging and splitting, and what becomes of an answer of the proof system.
use vstd::prelude::*;
use crate::collect::{children_collected, component_keys, nested, pointers_valid};
use crate::error::PQSigningError;
use crate::handles::{
    AggregateInfo, MultiMessageAggregate, PQAggregatedSignatureChild, PQRawXmssSignature,
    PQTypeTwoComponent,
};
use crate::input::{lemma_message_array, message_array, message_at, MESSAGE_LENGTH};
use crate::last_error::LastError;
use crate::memory::{items, output_before, Output};
use crate::outcomes::inputs::{
    asked_about_child, asked_about_children, law_asked_about_each_child, lemma_children_outcome,
    lemma_component_keys, lemma_message_at,
};
use crate::proving::{
    is_first_with, merge_answered, message_position, multi_decode_answered, occurs, pair_signatures,
    pq_merge_many_type_1, pq_split_type_2_by_message, proof_reported, recursive_request_refusal,
    refused, report_proof, CallState, ProvingAnswer,
};
use crate::verifying::{matches_expected, verdict};

verus! {

/// A merge succeeds only with every entry of the request: the proof system was asked to merge as
/// many aggregates as announced, each what the decoder gave on the entry in its place, at the rate
/// of the request, and the bytes in the buffer are its answer to that.
pub proof fn law_merge_is_of_all_the_entries<
    'a,
    P,
    C,
    D: Fn(&[u8], Vec<&'a P>) -> Option<C>,
    M: FnOnce(Vec<C>, usize) -> ProvingAnswer,
>(
    last_error: &mut LastError,
    entries: Option<&'a [PQAggregatedSignatureChild<'a, P>]>,
    entry_count: usize,
    log_inv_rate: usize,
    buffer: Option<&mut [u8]>,
    buffer_len: usize,
    written_len: Option<&mut usize>,
    decode: D,
    merge: M,
)
    requires
        call_ensures(
            pq_merge_many_type_1::<P, C, D, M>,
            (
                last_error,
                entries,
                entry_count,
                log_inv_rate,
                buffer,
                buffer_len,
                written_len,
                decode,
                merge,
            ),
            PQSigningError::Success,
        ),
    ensures
        entry_count > 0,
        entries is Some,
        buffer is Some,
        written_len is Some,
        exists|type1_entries: Vec<C>, bytes: Vec<u8>|
            {
                &&& type1_entries@.len() == entry_count
                &&& asked_about_children(entries->0@, decode, type1_entries@)
                &&& #[trigger] call_ensures(
                    merge,
                    (type1_entries, log_inv_rate),
                    Ok(Ok(bytes)),
                )
                &&& bytes@.len() <= buffer_len
                &&& written_len matches Some(written) ==> *final(written) == bytes@.len()
                &&& buffer matches Some(memory) ==> final(memory)@ == bytes@ + memory@.skip(
                    bytes@.len() as int,
                )
            },
        final(last_error)@ is None,
{
    let before = CallState { output: output_before(buffer, written_len), detail: None };
    let after = CallState {
        output: Output {
            buffer: match buffer {
                Some(memory) => Some(final(memory)@),
                None => None,
            },
            written_len: match written_len {
                Some(written) => Some(*final(written)),
                None => None,
            },
        },
        detail: final(last_error)@,
    };
    let collected = choose|collected: Result<Seq<C>, PQSigningError>|
        {
            &&& #[trigger] children_collected(entries, entry_count, decode, collected)
            &&& match collected {
                Err(refusal) => refused(refusal, before, after, PQSigningError::Success),
                Ok(decoded) => exists|answer: ProvingAnswer|
                    {
                        &&& #[trigger] merge_answered(merge, decoded, log_inv_rate, answer)
                        &&& proof_reported(
                            answer,
                            "merge_many_type_1"@,
                            buffer_len,
                            before,
                            after,
                            PQSigningError::Success,
                        )
                    },
            }
        };
    lemma_children_outcome(entries, entry_count, decode, collected);
    if collected is Ok {
        let decoded = collected->Ok_0;
        let answer = choose|answer: ProvingAnswer|
            {
                &&& #[trigger] merge_answered(merge, decoded, log_inv_rate, answer)
                &&& proof_reported(
                    answer,
                    "merge_many_type_1"@,
                    buffer_len,
                    before,
                    after,
                    PQSigningError::Success,
                )
            };
        let type1_entries = choose|type1_entries: Vec<C>|
            type1_entries@ == decoded && #[trigger] call_ensures(
                merge,
                (type1_entries, log_inv_rate),
                answer,
            );
        let bytes = answer->Ok_0->Ok_0;
        assert(answer == Ok::<Result<Vec<u8>, String>, ()>(Ok(bytes)));
        assert(call_ensures(merge, (type1_entries, log_inv_rate), Ok(Ok(bytes))));
    }
}

/// The `i`-th aggregate of a merge that succeeds is what the decoder gave on the bytes of the
/// `i`-th entry and the public keys of that entry, all of them and each in its place.
pub proof fn law_merged_entries_keep_their_places<
    'a,
    P,
    C,
    D: Fn(&[u8], Vec<&'a P>) -> Option<C>,
    M: FnOnce(Vec<C>, usize) -> ProvingAnswer,
>(
    last_error: &mut LastError,
    entries: Option<&'a [PQAggregatedSignatureChild<'a, P>]>,
    entry_count: usize,
    log_inv_rate: usize,
    buffer: Option<&mut [u8]>,
    buffer_len: usize,
    written_len: Option<&mut usize>,
    decode: D,
    merge: M,
    i: int,
)
    requires
        call_ensures(
            pq_merge_many_type_1::<P, C, D, M>,
            (
                last_error,
                entries,
                entry_count,
                log_inv_rate,
                buffer,
                buffer_len,
                written_len,
                decode,
                merge,
            ),
            PQSigningError::Success,
        ),
        0 <= i < entry_count,
    ensures
        exists|type1_entries: Vec<C>, bytes: Vec<u8>, encoded: &[u8], pubkeys: Vec<&'a P>|
            {
                &&& type1_entries@.len() == entry_count
                &&& encoded@ == entries->0@[i].agg_bytes->0@.take(entries->0@[i].agg_len as int)
                &&& pubkeys@.len() == entries->0@[i].pubkey_count
                &&& forall|j: int|
                    0 <= j < entries->0@[i].pubkey_count ==> #[trigger] pubkeys@[j]
                        == &entries->0@[i].pubkeys->0@[j]->0.inner
                &&& #[trigger] call_ensures(decode, (encoded, pubkeys), Some(type1_entries@[i]))
                &&& #[trigger] call_ensures(
                    merge,
                    (type1_entries, log_inv_rate),
                    Ok(Ok(bytes)),
                )
                &&& bytes@.len() <= buffer_len
                &&& written_len matches Some(written) ==> *final(written) == bytes@.len()
                &&& buffer matches Some(memory) ==> final(memory)@ == bytes@ + memory@.skip(
                    bytes@.len() as int,
                )
            },
{
    law_merge_is_of_all_the_entries(
        last_error,
        entries,
        entry_count,
        log_inv_rate,
        buffer,
        buffer_len,
        written_len,
        decode,
        merge,
    );
    let (type1_entries, bytes) = choose|type1_entries: Vec<C>, bytes: Vec<u8>|
            {
                &&& type1_entries@.len() == entry_count
                &&& asked_about_children(entries->0@, decode, type1_entries@)
                &&& #[trigger] call_ensures(
                    merge,
                    (type1_entries, log_inv_rate),
                    Ok(Ok(bytes)),
                )
                &&& bytes@.len() <= buffer_len
                &&& written_len matches Some(written) ==> *final(written) == bytes@.len()
                &&& buffer matches Some(memory) ==> final(memory)@ == bytes@ + memory@.skip(
                    bytes@.len() as int,
                )
            };
    law_asked_about_each_child(entries->0@, decode, type1_entries@, i);
    let (encoded, pubkeys) = choose|encoded: &[u8], pubkeys: Vec<&'a P>|
        {
            &&& encoded@ == entries->0@[i].agg_bytes->0@.take(entries->0@[i].agg_len as int)
            &&& pubkeys@.len() == entries->0@[i].pubkey_count
            &&& forall|j: int|
                0 <= j < entries->0@[i].pubkey_count ==> #[trigger] pubkeys@[j]
                    == &entries->0@[i].pubkeys->0@[j]->0.inner
            &&& #[trigger] call_ensures(decode, (encoded, pubkeys), Some(type1_entries@[i]))
        };
    assert(call_ensures(decode, (encoded, pubkeys), Some(type1_entries@[i])));
}

/// A merge that is in order reaches the proof system with all the entries, and its answer is
/// handed on, unless one of them has a null pointer or does not decode.
pub proof fn law_merge_reaches_the_prover<
    'a,
    P,
    C,
    D: Fn(&[u8], Vec<&'a P>) -> Option<C>,
    M: FnOnce(Vec<C>, usize) -> ProvingAnswer,
>(
    last_error: &mut LastError,
    entries: Option<&'a [PQAggregatedSignatureChild<'a, P>]>,
    entry_count: usize,
    log_inv_rate: usize,
    buffer: Option<&mut [u8]>,
    buffer_len: usize,
    written_len: Option<&mut usize>,
    decode: D,
    merge: M,
    status: PQSigningError,
)
    requires
        call_ensures(
            pq_merge_many_type_1::<P, C, D, M>,
            (
                last_error,
                entries,
                entry_count,
                log_inv_rate,
                buffer,
                buffer_len,
                written_len,
                decode,
                merge,
            ),
            status,
        ),
        entry_count > 0,
        entries is Some,
        buffer is Some,
        written_len is Some,
    ensures
        ({
            &&& status == PQSigningError::InvalidPointer
            &&& exists|taken: Seq<C>|
                {
                    let entry = entries->0@[taken.len() as int];
                    &&& taken.len() < entry_count
                    &&& #[trigger] asked_about_children(entries->0@, decode, taken)
                    &&& entry.agg_bytes is None || (entry.pubkey_count > 0 && (entry.pubkeys is None
                        || exists|j: int|
                        0 <= j < entry.pubkey_count && #[trigger] entry.pubkeys->0@[j] is None))
                }
            &&& final(last_error)@ is None
            &&& buffer matches Some(memory) ==> final(memory)@ == memory@
            &&& written_len matches Some(written) ==> *final(written) == *written
        }) || ({
            &&& status == PQSigningError::UnknownError
            &&& exists|taken: Seq<C>|
                {
                    &&& taken.len() < entry_count
                    &&& #[trigger] asked_about_children(entries->0@, decode, taken)
                    &&& asked_about_child(entries->0@[taken.len() as int], decode, None::<C>)
                }
            &&& final(last_error)@ is None
            &&& buffer matches Some(memory) ==> final(memory)@ == memory@
            &&& written_len matches Some(written) ==> *final(written) == *written
        }) || exists|type1_entries: Vec<C>, answer: ProvingAnswer|
            {
                &&& type1_entries@.len() == entry_count
                &&& asked_about_children(entries->0@, decode, type1_entries@)
                &&& #[trigger] call_ensures(merge, (type1_entries, log_inv_rate), answer)
                &&& answer matches Ok(Ok(bytes)) ==> {
                    &&& final(last_error)@ is None
                    &&& buffer is None || written_len is None ==> status
                        == PQSigningError::InvalidPointer
                    &&& buffer is Some && written_len is Some ==> status == (if bytes@.len()
                        <= buffer_len {
                        PQSigningError::Success
                    } else {
                        PQSigningError::UnknownError
                    })
                    &&& buffer is Some ==> (written_len matches Some(written) ==> *final(written)
                        == bytes@.len())
                    &&& written_len is Some && bytes@.len() <= buffer_len ==> (
                    buffer matches Some(memory) ==> final(memory)@ == bytes@ + memory@.skip(
                        bytes@.len() as int,
                    ))
                }
                &&& answer matches Ok(Err(err)) ==> {
                    &&& status == PQSigningError::UnknownError
                    &&& final(last_error)@ == Some(
                        "leanvm-xmss: "@ + "merge_many_type_1"@ + " failed: "@ + err@,
                    )
                    &&& written_len matches Some(written) ==> *final(written) == *written
                }
                &&& answer matches Err(_) ==> {
                    &&& status == PQSigningError::UnknownError
                    &&& final(last_error)@ is None
                    &&& written_len matches Some(written) ==> *final(written) == *written
                }
            },
        status != PQSigningError::Success ==> (buffer matches Some(memory) ==> final(memory)@
            == memory@),
{
    let before = CallState { output: output_before(buffer, written_len), detail: None };
    let after = CallState {
        output: Output {
            buffer: match buffer {
                Some(memory) => Some(final(memory)@),
                None => None,
            },
            written_len: match written_len {
                Some(written) => Some(*final(written)),
                None => None,
            },
        },
        detail: final(last_error)@,
    };
    let collected = choose|collected: Result<Seq<C>, PQSigningError>|
        {
            &&& #[trigger] children_collected(entries, entry_count, decode, collected)
            &&& match collected {
                Err(refusal) => refused(refusal, before, after, status),
                Ok(decoded) => exists|answer: ProvingAnswer|
                    {
                        &&& #[trigger] merge_answered(merge, decoded, log_inv_rate, answer)
                        &&& proof_reported(
                            answer,
                            "merge_many_type_1"@,
                            buffer_len,
                            before,
                            after,
                            status,
                        )
                    },
            }
        };
    lemma_children_outcome(entries, entry_count, decode, collected);
    if collected is Ok {
        let decoded = collected->Ok_0;
        let answer = choose|answer: ProvingAnswer|
            {
                &&& #[trigger] merge_answered(merge, decoded, log_inv_rate, answer)
                &&& proof_reported(
                    answer,
                    "merge_many_type_1"@,
                    buffer_len,
                    before,
                    after,
                    status,
                )
            };
        let type1_entries = choose|type1_entries: Vec<C>|
            type1_entries@ == decoded && #[trigger] call_ensures(
                merge,
                (type1_entries, log_inv_rate),
                answer,
            );
        assert(call_ensures(merge, (type1_entries, log_inv_rate), answer));
    }
}

/// A merge that is not in order is refused, and changes nothing but that an earlier detail is
/// forgotten.
pub proof fn law_merge_refusals<
    'a,
    P,
    C,
    D: Fn(&[u8], Vec<&'a P>) -> Option<C>,
    M: FnOnce(Vec<C>, usize) -> ProvingAnswer,
>(
    last_error: &mut LastError,
    entries: Option<&'a [PQAggregatedSignatureChild<'a, P>]>,
    entry_count: usize,
    log_inv_rate: usize,
    buffer: Option<&mut [u8]>,
    buffer_len: usize,
    written_len: Option<&mut usize>,
    decode: D,
    merge: M,
    status: PQSigningError,
)
    requires
        call_ensures(
            pq_merge_many_type_1::<P, C, D, M>,
            (
                last_error,
                entries,
                entry_count,
                log_inv_rate,
                buffer,
                buffer_len,
                written_len,
                decode,
                merge,
            ),
            status,
        ),
        buffer is None || written_len is None || entry_count == 0 || entries is None,
    ensures
        status == PQSigningError::InvalidPointer,
        final(last_error)@ is None,
        buffer matches Some(memory) ==> final(memory)@ == memory@,
        written_len matches Some(written) ==> *final(written) == *written,
{
}

/// A split succeeds only with the aggregate and the message of the request: the decoder was asked
/// about the bytes of the aggregate with one vector of keys for each component, which holds every
/// key of that component in its place, the proof system was asked to split what that gave at the
/// first place with the message, at the rate of the request, and the bytes in the buffer are its
/// answer.
pub proof fn law_split_is_of_the_wanted_message<
    'a,
    P,
    T,
    D: Fn(&[u8], Vec<Vec<&'a P>>) -> Option<MultiMessageAggregate<T>>,
    X: FnOnce(MultiMessageAggregate<T>, usize, usize) -> ProvingAnswer,
>(
    last_error: &mut LastError,
    components: Option<&'a [PQTypeTwoComponent<'a, P>]>,
    component_count: usize,
    type2_bytes: Option<&[u8]>,
    type2_len: usize,
    message: Option<&[u8]>,
    message_len: usize,
    log_inv_rate: usize,
    buffer: Option<&mut [u8]>,
    buffer_len: usize,
    written_len: Option<&mut usize>,
    decode: D,
    split: X,
)
    requires
        call_ensures(
            pq_split_type_2_by_message::<P, T, D, X>,
            (
                last_error,
                components,
                component_count,
                type2_bytes,
                type2_len,
                message,
                message_len,
                log_inv_rate,
                buffer,
                buffer_len,
                written_len,
                decode,
                split,
            ),
            PQSigningError::Success,
        ),
        message matches Some(memory) ==> message_len == 32 ==> memory@.len() >= 32,
    ensures
        components is Some,
        type2_bytes is Some,
        message is Some,
        message_len == 32,
        buffer is Some,
        written_len is Some,
        exists|
            encoded: &[u8],
            pks_per_component: Vec<Vec<&'a P>>,
            type2: MultiMessageAggregate<T>,
            index: usize,
            bytes: Vec<u8>,
        |
            {
                &&& encoded@ == type2_bytes->0@.take(type2_len as int)
                &&& pks_per_component@.len() == component_count
                &&& forall|i: int|
                    0 <= i < component_count ==> (#[trigger] pks_per_component@[i])@.len()
                        == components->0@[i].pubkey_count
                &&& forall|i: int, j: int|
                    0 <= i < component_count && 0 <= j < components->0@[i].pubkey_count
                        ==> #[trigger] pks_per_component@[i]@[j]
                        == &components->0@[i].pubkeys->0@[j]->0.inner
                &&& #[trigger] call_ensures(decode, (encoded, pks_per_component), Some(type2))
                &&& index < type2.info@.len()
                &&& type2.info@[index as int].message@ == message->0@.take(32)
                &&& forall|i: int|
                    0 <= i < index ==> (#[trigger] type2.info@[i]).message@
                        != message->0@.take(32)
                &&& #[trigger] call_ensures(
                    split,
                    (type2, index, log_inv_rate),
                    Ok(Ok(bytes)),
                )
                &&& bytes@.len() <= buffer_len
                &&& written_len matches Some(written) ==> *final(written) == bytes@.len()
                &&& buffer matches Some(memory) ==> final(memory)@ == bytes@ + memory@.skip(
                    bytes@.len() as int,
                )
            },
        final(last_error)@ is None,
{
    let before = CallState { output: output_before(buffer, written_len), detail: None };
    let after = CallState {
        output: Output {
            buffer: match buffer {
                Some(memory) => Some(final(memory)@),
                None => None,
            },
            written_len: match written_len {
                Some(written) => Some(*final(written)),
                None => None,
            },
        },
        detail: final(last_error)@,
    };
    lemma_message_at(message->0);
    let wanted = message_at(message);
    let bytes = items(type2_bytes, type2_len);
    let keys = component_keys(components, component_count);
    let decoded = choose|decoded: Option<MultiMessageAggregate<T>>|
        {
            &&& #[trigger] multi_decode_answered(decode, bytes, keys, decoded)
            &&& match decoded {
                None => refused(PQSigningError::UnknownError, before, after, PQSigningError::Success),
                Some(type2) => {
                    ||| {
                        &&& forall|i: int|
                            0 <= i < type2.info@.len() ==> (#[trigger] type2.info@[i]).message
                                != wanted
                        &&& refused(PQSigningError::UnknownError, before, after, PQSigningError::Success)
                    }
                    ||| exists|index: usize, answer: ProvingAnswer|
                        {
                            &&& is_first_with(type2.info@, wanted, index as int)
                            &&& #[trigger] call_ensures(
                                split,
                                (type2, index, log_inv_rate),
                                answer,
                            )
                            &&& proof_reported(
                                answer,
                                "split_multi_message_aggregate"@,
                                buffer_len,
                                before,
                                after,
                                PQSigningError::Success,
                            )
                        }
                },
            }
        };
    let (encoded, pks) = choose|encoded: &[u8], pks: Vec<Vec<&'a P>>|
        {
            &&& encoded@ == bytes
            &&& nested(pks@) == keys
            &&& #[trigger] call_ensures(decode, (encoded, pks), decoded)
        };
    lemma_component_keys(components, component_count, pks@);
    assert(call_ensures(decode, (encoded, pks), decoded));
    if decoded is Some {
        let type2 = decoded->0;
        assert forall|i: int| 0 <= i < type2.info@.len() implies ((
        #[trigger] type2.info@[i]).message == wanted <==> type2.info@[i].message@
            == message->0@.take(32)) by {
            lemma_message_array(type2.info@[i].message);
            lemma_message_array(wanted);
        }
        let (index, answer) = choose|index: usize, answer: ProvingAnswer|
            {
                &&& is_first_with(type2.info@, wanted, index as int)
                &&& #[trigger] call_ensures(split, (type2, index, log_inv_rate), answer)
                &&& proof_reported(
                    answer,
                    "split_multi_message_aggregate"@,
                    buffer_len,
                    before,
                    after,
                    PQSigningError::Success,
                )
            };
        let bytes = answer->Ok_0->Ok_0;
        assert(answer == Ok::<Result<Vec<u8>, String>, ()>(Ok(bytes)));
        assert(call_ensures(decode, (encoded, pks), Some(type2)));
        assert(call_ensures(split, (type2, index, log_inv_rate), Ok(Ok(bytes))));
    }
}

/// A split that is in order goes its way: the decoder is asked about the aggregate with every key
/// of every component in its place, and the proof system, if the message occurs in what that gave,
/// about its first place, and the answer is handed on.
pub proof fn law_split_reaches_the_prover<
    'a,
    P,
    T,
    D: Fn(&[u8], Vec<Vec<&'a P>>) -> Option<MultiMessageAggregate<T>>,
    X: FnOnce(MultiMessageAggregate<T>, usize, usize) -> ProvingAnswer,
>(
    last_error: &mut LastError,
    components: Option<&'a [PQTypeTwoComponent<'a, P>]>,
    component_count: usize,
    type2_bytes: Option<&[u8]>,
    type2_len: usize,
    message: Option<&[u8]>,
    message_len: usize,
    log_inv_rate: usize,
    buffer: Option<&mut [u8]>,
    buffer_len: usize,
    written_len: Option<&mut usize>,
    decode: D,
    split: X,
    status: PQSigningError,
)
    requires
        call_ensures(
            pq_split_type_2_by_message::<P, T, D, X>,
            (
                last_error,
                components,
                component_count,
                type2_bytes,
                type2_len,
                message,
                message_len,
                log_inv_rate,
                buffer,
                buffer_len,
                written_len,
                decode,
                split,
            ),
            status,
        ),
        components is Some,
        type2_bytes is Some,
        message matches Some(memory) && memory@.len() >= 32,
        message_len == 32,
        buffer is Some,
        written_len is Some,
        forall|i: int|
            0 <= i < component_count && (#[trigger] components->0@[i]).pubkey_count > 0
                ==> components->0@[i].pubkeys is Some,
        forall|i: int, j: int|
            0 <= i < component_count && 0 <= j < components->0@[i].pubkey_count
                ==> #[trigger] components->0@[i].pubkeys->0@[j] is Some,
    ensures
        exists|
            encoded: &[u8],
            pks_per_component: Vec<Vec<&'a P>>,
            decoded: Option<MultiMessageAggregate<T>>,
        |
            {
                &&& encoded@ == type2_bytes->0@.take(type2_len as int)
                &&& pks_per_component@.len() == component_count
                &&& forall|i: int|
                    0 <= i < component_count ==> (#[trigger] pks_per_component@[i])@.len()
                        == components->0@[i].pubkey_count
                &&& forall|i: int, j: int|
                    0 <= i < component_count && 0 <= j < components->0@[i].pubkey_count
                        ==> #[trigger] pks_per_component@[i]@[j]
                        == &components->0@[i].pubkeys->0@[j]->0.inner
                &&& #[trigger] call_ensures(decode, (encoded, pks_per_component), decoded)
                &&& decoded is None ==> {
                    &&& status == PQSigningError::UnknownError
                    &&& final(last_error)@ is None
                    &&& buffer matches Some(memory) ==> final(memory)@ == memory@
                    &&& written_len matches Some(written) ==> *final(written) == *written
                }
                &&& decoded matches Some(type2) ==> {
                    if forall|i: int|
                        0 <= i < type2.info@.len() ==> (#[trigger] type2.info@[i]).message@
                            != message->0@.take(32) {
                        &&& status == PQSigningError::UnknownError
                        &&& final(last_error)@ is None
                        &&& buffer matches Some(memory) ==> final(memory)@ == memory@
                        &&& written_len matches Some(written) ==> *final(written) == *written
                    } else {
                        exists|index: usize, answer: ProvingAnswer|
                            {
                                &&& index < type2.info@.len()
                                &&& type2.info@[index as int].message@ == message->0@.take(32)
                                &&& forall|i: int|
                                    0 <= i < index ==> (#[trigger] type2.info@[i]).message@
                                        != message->0@.take(32)
                                &&& #[trigger] call_ensures(
                                    split,
                                    (type2, index, log_inv_rate),
                                    answer,
                                )
                                &&& answer matches Ok(Ok(bytes)) ==> {
                                    &&& final(last_error)@ is None
                                    &&& buffer is None || written_len is None ==> status
                                        == PQSigningError::InvalidPointer
                                    &&& buffer is Some && written_len is Some ==> status == (if bytes@.len()
                                        <= buffer_len {
                                        PQSigningError::Success
                                    } else {
                                        PQSigningError::UnknownError
                                    })
                                    &&& buffer is Some ==> (written_len matches Some(written) ==> *final(written)
                                        == bytes@.len())
                                    &&& written_len is Some && bytes@.len() <= buffer_len ==> (
                                    buffer matches Some(memory) ==> final(memory)@ == bytes@ + memory@.skip(
                                        bytes@.len() as int,
                                    ))
                                }
                                &&& answer matches Ok(Err(err)) ==> {
                                    &&& status == PQSigningError::UnknownError
                                    &&& final(last_error)@ == Some(
                                        "leanvm-xmss: "@ + "split_multi_message_aggregate"@ + " failed: "@ + err@,
                                    )
                                    &&& written_len matches Some(written) ==> *final(written) == *written
                                }
                                &&& answer matches Err(_) ==> {
                                    &&& status == PQSigningError::UnknownError
                                    &&& final(last_error)@ is None
                                    &&& written_len matches Some(written) ==> *final(written) == *written
                                }
                            }
                    }
                }
            },
        status != PQSigningError::Success ==> (buffer matches Some(memory) ==> final(memory)@
            == memory@),
{
    let before = CallState { output: output_before(buffer, written_len), detail: None };
    let after = CallState {
        output: Output {
            buffer: match buffer {
                Some(memory) => Some(final(memory)@),
                None => None,
            },
            written_len: match written_len {
                Some(written) => Some(*final(written)),
                None => None,
            },
        },
        detail: final(last_error)@,
    };
    assert forall|i: int| 0 <= i < component_count implies pointers_valid(
        (#[trigger] components->0@[i]).pubkeys,
        components->0@[i].pubkey_count,
    ) by {
        let component = components->0@[i];
        assert forall|j: int| 0 <= j < component.pubkey_count implies (
        #[trigger] component.pubkeys->0@[j]) is Some by {
            assert(components->0@[i].pubkeys->0@[j] is Some);
        }
    }
    lemma_message_at(message->0);
    let wanted = message_at(message);
    let bytes = items(type2_bytes, type2_len);
    let keys = component_keys(components, component_count);
    let decoded = choose|decoded: Option<MultiMessageAggregate<T>>|
        {
            &&& #[trigger] multi_decode_answered(decode, bytes, keys, decoded)
            &&& match decoded {
                None => refused(PQSigningError::UnknownError, before, after, status),
                Some(type2) => {
                    ||| {
                        &&& forall|i: int|
                            0 <= i < type2.info@.len() ==> (#[trigger] type2.info@[i]).message
                                != wanted
                        &&& refused(PQSigningError::UnknownError, before, after, status)
                    }
                    ||| exists|index: usize, answer: ProvingAnswer|
                        {
                            &&& is_first_with(type2.info@, wanted, index as int)
                            &&& #[trigger] call_ensures(
                                split,
                                (type2, index, log_inv_rate),
                                answer,
                            )
                            &&& proof_reported(
                                answer,
                                "split_multi_message_aggregate"@,
                                buffer_len,
                                before,
                                after,
                                status,
                            )
                        }
                },
            }
        };
    let (encoded, pks) = choose|encoded: &[u8], pks: Vec<Vec<&'a P>>|
        {
            &&& encoded@ == bytes
            &&& nested(pks@) == keys
            &&& #[trigger] call_ensures(decode, (encoded, pks), decoded)
        };
    lemma_component_keys(components, component_count, pks@);
    assert(call_ensures(decode, (encoded, pks), decoded));
    if decoded is Some {
        let type2 = decoded->0;
        assert forall|i: int| 0 <= i < type2.info@.len() implies ((
        #[trigger] type2.info@[i]).message == wanted <==> type2.info@[i].message@
            == message->0@.take(32)) by {
            lemma_message_array(type2.info@[i].message);
            lemma_message_array(wanted);
        }
        if exists|i: int| 0 <= i < type2.info@.len() && (#[trigger] type2.info@[i]).message@
            == message->0@.take(32) {
            let place = choose|i: int|
                0 <= i < type2.info@.len() && (#[trigger] type2.info@[i]).message@
                    == message->0@.take(32);
            assert(type2.info@[place].message == wanted);
            let (index, answer) = choose|index: usize, answer: ProvingAnswer|
                {
                    &&& is_first_with(type2.info@, wanted, index as int)
                    &&& #[trigger] call_ensures(split, (type2, index, log_inv_rate), answer)
                    &&& proof_reported(
                        answer,
                        "split_multi_message_aggregate"@,
                        buffer_len,
                        before,
                        after,
                        status,
                    )
                };
            assert(call_ensures(split, (type2, index, log_inv_rate), answer));
        } else {
            assert forall|index: usize| !#[trigger] is_first_with(
                type2.info@,
                wanted,
                index as int,
            ) by {
                if is_first_with(type2.info@, wanted, index as int) {
                    assert(type2.info@[index as int].message@ == message->0@.take(32));
                }
            }
        }
    }
}

/// A split that is not in order is refused for the first thing that is wrong with it, and changes
/// nothing but that an earlier detail is forgotten.
pub proof fn law_split_refusals<
    'a,
    P,
    T,
    D: Fn(&[u8], Vec<Vec<&'a P>>) -> Option<MultiMessageAggregate<T>>,
    X: FnOnce(MultiMessageAggregate<T>, usize, usize) -> ProvingAnswer,
>(
    last_error: &mut LastError,
    components: Option<&'a [PQTypeTwoComponent<'a, P>]>,
    component_count: usize,
    type2_bytes: Option<&[u8]>,
    type2_len: usize,
    message: Option<&[u8]>,
    message_len: usize,
    log_inv_rate: usize,
    buffer: Option<&mut [u8]>,
    buffer_len: usize,
    written_len: Option<&mut usize>,
    decode: D,
    split: X,
    status: PQSigningError,
)
    requires
        call_ensures(
            pq_split_type_2_by_message::<P, T, D, X>,
            (
                last_error,
                components,
                component_count,
                type2_bytes,
                type2_len,
                message,
                message_len,
                log_inv_rate,
                buffer,
                buffer_len,
                written_len,
                decode,
                split,
            ),
            status,
        ),
        components is None || type2_bytes is None || message is None || buffer is None
            || written_len is None || message_len != 32 || exists|i: int|
            {
                &&& 0 <= i < component_count
                &&& (#[trigger] components->0@[i]).pubkey_count > 0
                &&& components->0@[i].pubkeys is None || exists|j: int|
                    0 <= j < components->0@[i].pubkey_count
                        && #[trigger] components->0@[i].pubkeys->0@[j] is None
            },
    ensures
        status == (if components is None || type2_bytes is None || message is None || buffer is None
            || written_len is None {
            PQSigningError::InvalidPointer
        } else if message_len != 32 {
            PQSigningError::InvalidMessageLength
        } else {
            PQSigningError::InvalidPointer
        }),
        final(last_error)@ is None,
        buffer matches Some(memory) ==> final(memory)@ == memory@,
        written_len matches Some(written) ==> *final(written) == *written,
{
}

/// An answer of the proof system is handed on: an aggregate to the buffer, a refusal as the detail
/// of the failure, in its own words, and a panic as a failure without detail.
pub proof fn law_answer_is_handed_on(
    answer: ProvingAnswer,
    stage: &str,
    last_error: &mut LastError,
    buffer: &mut [u8],
    buffer_len: usize,
    written_len: &mut usize,
    status: PQSigningError,
)
    requires
        call_ensures(
            report_proof,
            (answer, stage, last_error, Some(buffer), buffer_len, Some(written_len)),
            status,
        ),
    ensures
        answer matches Ok(Ok(bytes)) ==> {
            &&& final(last_error)@ == old(last_error)@
            &&& *final(written_len) == bytes@.len()
            &&& bytes@.len() <= buffer_len ==> status == PQSigningError::Success && final(buffer)@
                == bytes@ + old(buffer)@.skip(bytes@.len() as int)
            &&& bytes@.len() > buffer_len ==> status == PQSigningError::UnknownError
                && final(buffer)@ == old(buffer)@
        },
        answer matches Ok(Err(err)) ==> {
            &&& status == PQSigningError::UnknownError
            &&& final(last_error)@ == Some("leanvm-xmss: "@ + stage@ + " failed: "@ + err@)
            &&& final(buffer)@ == old(buffer)@
            &&& *final(written_len) == *old(written_len)
        },
        answer matches Err(_) ==> {
            &&& status == PQSigningError::UnknownError
            &&& final(last_error)@ == old(last_error)@
            &&& final(buffer)@ == old(buffer)@
            &&& *final(written_len) == *old(written_len)
        },
{
}

/// The pairs are as many as the keys, each of the key and the signature in its place, and the
/// scheme accepted every one if they were to be checked.
pub proof fn law_pairs_are_all_made<'a, P, S, V: Fn(&P, u32, &[u8; MESSAGE_LENGTH], &S) -> bool>(
    pubkeys: Vec<&'a P>,
    signatures: Vec<&'a S>,
    message: &[u8; MESSAGE_LENGTH],
    slot: u32,
    verify_inputs: bool,
    xmss_verify: V,
    paired: Option<Vec<(&'a P, &'a S)>>,
)
    requires
        call_ensures(
            pair_signatures::<P, S, V>,
            (&pubkeys, &signatures, message, slot, verify_inputs, &xmss_verify),
            paired,
        ),
        pubkeys@.len() == signatures@.len(),
    ensures
        paired matches Some(pairs) ==> {
            &&& pairs@.len() == pubkeys@.len()
            &&& forall|i: int|
                0 <= i < pubkeys@.len() ==> {
                    &&& (#[trigger] pairs@[i]).0 == pubkeys@[i]
                    &&& pairs@[i].1 == signatures@[i]
                    &&& verify_inputs ==> call_ensures(
                        xmss_verify,
                        (pubkeys@[i], slot, message, signatures@[i]),
                        true,
                    )
                }
        },
        paired is None ==> verify_inputs && exists|i: int|
            {
                &&& 0 <= i < pubkeys@.len()
                &&& call_ensures(
                    xmss_verify,
                    (#[trigger] pubkeys@[i], slot, message, signatures@[i]),
                    false,
                )
            },
{
    let zipped = pubkeys@.zip_with(signatures@);
    assert forall|i: int| 0 <= i < pubkeys@.len() implies #[trigger] zipped[i] == (
        pubkeys@[i],
        signatures@[i],
    ) by {}
    if paired is Some && verify_inputs {
        assert forall|i: int| 0 <= i < pubkeys@.len() implies call_ensures(
            xmss_verify,
            (#[trigger] pubkeys@[i], slot, message, signatures@[i]),
            true,
        ) by {
            assert(zipped[i] == (pubkeys@[i], signatures@[i]));
        }
    }
    if paired is Some {
        assert forall|i: int| 0 <= i < pubkeys@.len() implies #[trigger] paired->0@[i] == (
            pubkeys@[i],
            signatures@[i],
        ) by {
            assert(zipped[i] == (pubkeys@[i], signatures@[i]));
        }
    }
    if paired is None {
        let i = choose|i: int|
            {
                &&& 0 <= i < zipped.len()
                &&& call_ensures(
                    xmss_verify,
                    ((#[trigger] zipped[i]).0, slot, message, zipped[i].1),
                    false,
                )
            };
        assert(zipped[i] == (pubkeys@[i], signatures@[i]));
    }
}

/// The position of a message is its first place, and there is none exactly if it does not occur.
pub proof fn law_position_is_the_first_place(
    info: Vec<AggregateInfo>,
    message: &[u8; MESSAGE_LENGTH],
    position: Option<usize>,
)
    requires
        call_ensures(message_position, (&info, message), position),
    ensures
        position matches Some(index) ==> {
            &&& index < info@.len()
            &&& info@[index as int].message@ == message@
            &&& forall|i: int| 0 <= i < index ==> (#[trigger] info@[i]).message@ != message@
        },
        position is None ==> forall|i: int|
            0 <= i < info@.len() ==> (#[trigger] info@[i]).message@ != message@,
{
    assert forall|i: int|
        0 <= i < info@.len() && (#[trigger] info@[i]).message@ == message@ implies info@[i].message
        == *message by {
        lemma_message_array(info@[i].message);
        lemma_message_array(*message);
        assert(message_array(info@[i].message@) == message_array(message@));
        assert(occurs(info@, *message));
    }
}

/// What an aggregate says was signed is as expected exactly if every message and every slot is the
/// expected one in its place.
pub proof fn law_expected_in_every_place(
    info: Vec<AggregateInfo>,
    expected: Vec<([u8; MESSAGE_LENGTH], u32)>,
    same: bool,
)
    requires
        call_ensures(matches_expected, (&info, &expected), same),
        info@.len() == expected@.len(),
    ensures
        same <==> forall|i: int|
            0 <= i < info@.len() ==> (#[trigger] info@[i]).message@ == expected@[i].0@
                && info@[i].slot == expected@[i].1,
{
    assert forall|i: int| 0 <= i < info@.len() implies ((#[trigger] info@[i]).message
        == expected@[i].0 <==> info@[i].message@ == expected@[i].0@) by {
        lemma_message_array(info@[i].message);
        lemma_message_array(expected@[i].0);
    }
}

/// The number for a verdict.
pub proof fn law_verdicts_have_numbers(valid: bool, code: i32)
    requires
        call_ensures(verdict, (valid,), code),
    ensures
        code == 1 <==> valid,
        code == 0 <==> !valid,
{
}

/// A request for an aggregation on top of earlier aggregates is refused before anything is read
/// for the first thing that is wrong with it, and not otherwise.
pub proof fn law_requests_are_refused_for_a_reason<'a, P, S>(
    children: Option<&'a [PQAggregatedSignatureChild<'a, P>]>,
    child_count: usize,
    raw_xmss: Option<&'a [PQRawXmssSignature<'a, P, S>]>,
    raw_xmss_count: usize,
    message: Option<&[u8]>,
    message_len: usize,
    epoch: u64,
    has_output: bool,
    refusal: Option<PQSigningError>,
)
    requires
        call_ensures(
            recursive_request_refusal::<P, S>,
            (
                children,
                child_count,
                raw_xmss,
                raw_xmss_count,
                message,
                message_len,
                epoch,
                has_output,
            ),
            refusal,
        ),
    ensures
        refusal == (if !has_output || (child_count > 0 && children is None) || (raw_xmss_count > 0
            && raw_xmss is None) || message is None {
            Some(PQSigningError::InvalidPointer)
        } else if child_count == 0 && raw_xmss_count == 0 {
            Some(PQSigningError::UnknownError)
        } else if epoch >= 4294967296 {
            Some(PQSigningError::InvalidEpoch)
        } else if message_len != 32 {
            Some(PQSigningError::InvalidMessageLength)
        } else {
            None
        }),
{
}

} // verus!
