//! Gathering the arrays that a call brings: pointers are checked in order, and the first
//! item that is refused decides the answer.
use vstd::prelude::*;
use vstd::slice::slice_subrange;
use crate::error::PQSigningError;
use crate::handles::{
    PQAggregatedSignatureChild, PQRawXmssSignature, PQSignature, PQSignatureSchemePublicKey,
    PQTypeTwoComponent, PQTypeTwoMessageBinding,
};
use crate::input::{
    epoch_to_u32, message_at, message_from_ptr, message_readable, message_refusal, slot_of_epoch,
    MESSAGE_LENGTH,
};
use crate::memory::{items, readable};

verus! {

/// A non-empty array of pointers is there, and none of its pointers is null.
pub open spec fn pointers_valid<T>(pointers: Option<&[Option<T>]>, count: usize) -> bool {
    count > 0 ==> {
        &&& pointers is Some
        &&& forall|i: int| 0 <= i < count ==> (#[trigger] pointers->0@[i]) is Some
    }
}

/// The public keys behind an array of valid pointers.
pub open spec fn public_keys<'a, P>(
    keys: Option<&'a [Option<&'a PQSignatureSchemePublicKey<P>>]>,
    count: usize,
) -> Seq<&'a P> {
    Seq::new(count as nat, |i: int| &keys->0@[i]->0.inner)
}

/// The signatures behind an array of valid pointers.
pub open spec fn signatures_at<'a, S>(
    signatures: Option<&'a [Option<&'a PQSignature<S>>]>,
    count: usize,
) -> Seq<&'a S> {
    Seq::new(count as nat, |i: int| &signatures->0@[i]->0.inner)
}

/// Gathers the public keys behind an array of pointers.
pub fn collect_public_keys<'a, P>(
    keys: Option<&'a [Option<&'a PQSignatureSchemePublicKey<P>>]>,
    count: usize,
) -> (collected: Result<Vec<&'a P>, PQSigningError>)
    requires
        readable(keys, count),
    ensures
        collected is Ok <==> pointers_valid(keys, count),
        collected matches Ok(out) ==> out@ == public_keys(keys, count),
        collected matches Err(refusal) ==> refusal == PQSigningError::InvalidPointer,
{
    if count == 0 {
        let out: Vec<&'a P> = Vec::new();
        assert(out@ =~= public_keys(keys, count));
        return Ok(out);
    }
    match keys {
        None => Err(PQSigningError::InvalidPointer),
        Some(key_ptrs) => {
            let mut out: Vec<&'a P> = Vec::with_capacity(count);
            let mut i: usize = 0;
            while i < count
                invariant
                    keys == Some(key_ptrs),
                    i <= count <= key_ptrs@.len(),
                    out@.len() == i,
                    forall|j: int| 0 <= j < i ==> (#[trigger] key_ptrs@[j]) is Some,
                    forall|j: int| 0 <= j < i ==> out@[j] == &key_ptrs@[j]->0.inner,
                decreases count - i,
            {
                match key_ptrs[i] {
                    None => {
                        return Err(PQSigningError::InvalidPointer);
                    },
                    Some(key) => {
                        out.push(&key.inner);
                    },
                }
                i += 1;
            }
            assert(out@ =~= public_keys(keys, count));
            Ok(out)
        },
    }
}

/// Gathers the signatures behind an array of pointers.
pub fn collect_signatures<'a, S>(
    signatures: Option<&'a [Option<&'a PQSignature<S>>]>,
    count: usize,
) -> (collected: Result<Vec<&'a S>, PQSigningError>)
    requires
        readable(signatures, count),
    ensures
        collected is Ok <==> pointers_valid(signatures, count),
        collected matches Ok(out) ==> out@ == signatures_at(signatures, count),
        collected matches Err(refusal) ==> refusal == PQSigningError::InvalidPointer,
{
    if count == 0 {
        let out: Vec<&'a S> = Vec::new();
        assert(out@ =~= signatures_at(signatures, count));
        return Ok(out);
    }
    match signatures {
        None => Err(PQSigningError::InvalidPointer),
        Some(sig_ptrs) => {
            let mut out: Vec<&'a S> = Vec::with_capacity(count);
            let mut i: usize = 0;
            while i < count
                invariant
                    signatures == Some(sig_ptrs),
                    i <= count <= sig_ptrs@.len(),
                    out@.len() == i,
                    forall|j: int| 0 <= j < i ==> (#[trigger] sig_ptrs@[j]) is Some,
                    forall|j: int| 0 <= j < i ==> out@[j] == &sig_ptrs@[j]->0.inner,
                decreases count - i,
            {
                match sig_ptrs[i] {
                    None => {
                        return Err(PQSigningError::InvalidPointer);
                    },
                    Some(signature) => {
                        out.push(&signature.inner);
                    },
                }
                i += 1;
            }
            assert(out@ =~= signatures_at(signatures, count));
            Ok(out)
        },
    }
}

/// Both pointers of a raw signature lead somewhere.
pub open spec fn raw_pointers_valid<P, S>(input: PQRawXmssSignature<P, S>) -> bool {
    input.pubkey is Some && input.signature is Some
}

/// A raw signature is taken in: its pointers are valid, and the scheme accepted it if it was
/// to be checked.
pub open spec fn raw_input_taken<P, S, V: Fn(&P, u32, &[u8; MESSAGE_LENGTH], &S) -> bool>(
    input: PQRawXmssSignature<P, S>,
    message: &[u8; MESSAGE_LENGTH],
    epoch: u32,
    verify_inputs: bool,
    xmss_verify: V,
) -> bool {
    &&& raw_pointers_valid(input)
    &&& verify_inputs ==> call_ensures(
        xmss_verify,
        (&input.pubkey->0.inner, epoch, message, &input.signature->0.inner),
        true,
    )
}

/// The key and signature pairs of an array of raw signatures.
pub open spec fn raw_pairs<'a, P, S>(
    raw_xmss: Option<&'a [PQRawXmssSignature<'a, P, S>]>,
    raw_xmss_count: usize,
) -> Seq<(&'a P, &'a S)> {
    Seq::new(
        raw_xmss_count as nat,
        |i: int| (&raw_xmss->0@[i].pubkey->0.inner, &raw_xmss->0@[i].signature->0.inner),
    )
}

/// What gathering an array of raw signatures comes to.
///
/// It succeeds when every raw signature is taken in. Otherwise the array is missing, or the
/// first one that is not taken in has a null pointer (`InvalidPointer`) or a signature that
/// the scheme refused (`UnknownError`).
pub open spec fn raw_inputs_collected<
    'a,
    P,
    S,
    V: Fn(&P, u32, &[u8; MESSAGE_LENGTH], &S) -> bool,
>(
    raw_xmss: Option<&'a [PQRawXmssSignature<'a, P, S>]>,
    raw_xmss_count: usize,
    message: &[u8; MESSAGE_LENGTH],
    epoch: u32,
    verify_inputs: bool,
    xmss_verify: V,
    collected: Result<Seq<(&'a P, &'a S)>, PQSigningError>,
) -> bool {
    match collected {
        Ok(pairs) => {
            &&& raw_xmss_count > 0 ==> raw_xmss is Some
            &&& pairs == raw_pairs(raw_xmss, raw_xmss_count)
            &&& forall|i: int|
                0 <= i < raw_xmss_count ==> raw_input_taken(
                    #[trigger] raw_xmss->0@[i],
                    message,
                    epoch,
                    verify_inputs,
                    xmss_verify,
                )
        },
        Err(PQSigningError::InvalidPointer) => {
            &&& raw_xmss_count > 0
            &&& raw_xmss is None || exists|i: int|
                {
                    &&& 0 <= i < raw_xmss_count
                    &&& !raw_pointers_valid(#[trigger] raw_xmss->0@[i])
                    &&& forall|j: int|
                        0 <= j < i ==> raw_input_taken(
                            #[trigger] raw_xmss->0@[j],
                            message,
                            epoch,
                            verify_inputs,
                            xmss_verify,
                        )
                }
        },
        Err(PQSigningError::UnknownError) => {
            &&& verify_inputs
            &&& raw_xmss is Some
            &&& exists|i: int|
                {
                    &&& 0 <= i < raw_xmss_count
                    &&& raw_pointers_valid(#[trigger] raw_xmss->0@[i])
                    &&& call_ensures(
                        xmss_verify,
                        (
                            &raw_xmss->0@[i].pubkey->0.inner,
                            epoch,
                            message,
                            &raw_xmss->0@[i].signature->0.inner,
                        ),
                        false,
                    )
                    &&& forall|j: int|
                        0 <= j < i ==> raw_input_taken(
                            #[trigger] raw_xmss->0@[j],
                            message,
                            epoch,
                            verify_inputs,
                            xmss_verify,
                        )
                }
        },
        Err(_) => false,
    }
}

/// What gathering an array of raw signatures comes to if none is checked against its key.
pub open spec fn raw_inputs_unverified<'a, P, S>(
    raw_xmss: Option<&'a [PQRawXmssSignature<'a, P, S>]>,
    raw_xmss_count: usize,
) -> Result<Seq<(&'a P, &'a S)>, PQSigningError> {
    if raw_xmss_count == 0 || (raw_xmss is Some && forall|i: int|
        0 <= i < raw_xmss_count ==> raw_pointers_valid(#[trigger] raw_xmss->0@[i])) {
        Ok(raw_pairs(raw_xmss, raw_xmss_count))
    } else {
        Err(PQSigningError::InvalidPointer)
    }
}

/// Gathering raw signatures that are not checked has one outcome.
pub proof fn lemma_unverified_inputs<
    'a,
    P,
    S,
    V: Fn(&P, u32, &[u8; MESSAGE_LENGTH], &S) -> bool,
>(
    raw_xmss: Option<&'a [PQRawXmssSignature<'a, P, S>]>,
    raw_xmss_count: usize,
    message: &[u8; MESSAGE_LENGTH],
    epoch: u32,
    xmss_verify: V,
)
    ensures
        forall|collected: Result<Seq<(&'a P, &'a S)>, PQSigningError>| #[trigger]
            raw_inputs_collected(
                raw_xmss,
                raw_xmss_count,
                message,
                epoch,
                false,
                xmss_verify,
                collected,
            ) ==> collected == raw_inputs_unverified(raw_xmss, raw_xmss_count),
{
}

/// The contents of a gathered vector, or why there is none.
pub open spec fn contents<T>(collected: Result<Vec<T>, PQSigningError>) -> Result<
    Seq<T>,
    PQSigningError,
> {
    match collected {
        Ok(out) => Ok(out@),
        Err(refusal) => Err(refusal),
    }
}

/// Gathers raw signatures, each checked against its key if `verify_inputs` is set.
pub fn collect_raw_xmss_inputs<'a, P, S, V: Fn(&P, u32, &[u8; MESSAGE_LENGTH], &S) -> bool>(
    raw_xmss: Option<&'a [PQRawXmssSignature<'a, P, S>]>,
    raw_xmss_count: usize,
    message: &[u8; MESSAGE_LENGTH],
    epoch: u32,
    verify_inputs: bool,
    xmss_verify: &V,
) -> (collected: Result<Vec<(&'a P, &'a S)>, PQSigningError>)
    requires
        readable(raw_xmss, raw_xmss_count),
        forall|key: &P, slot: u32, signed: &[u8; MESSAGE_LENGTH], signature: &S|
            call_requires(*xmss_verify, (key, slot, signed, signature)),
    ensures
        raw_inputs_collected(
            raw_xmss,
            raw_xmss_count,
            message,
            epoch,
            verify_inputs,
            *xmss_verify,
            contents(collected),
        ),
{
    if raw_xmss_count == 0 {
        let out: Vec<(&'a P, &'a S)> = Vec::new();
        assert(out@ =~= raw_pairs(raw_xmss, raw_xmss_count));
        return Ok(out);
    }
    match raw_xmss {
        None => Err(PQSigningError::InvalidPointer),
        Some(raw_inputs) => {
            let mut out: Vec<(&'a P, &'a S)> = Vec::with_capacity(raw_xmss_count);
            let mut i: usize = 0;
            while i < raw_xmss_count
                invariant
                    raw_xmss == Some(raw_inputs),
                    i <= raw_xmss_count <= raw_inputs@.len(),
                    out@.len() == i,
                    forall|j: int|
                        0 <= j < i ==> raw_input_taken(
                            #[trigger] raw_inputs@[j],
                            message,
                            epoch,
                            verify_inputs,
                            *xmss_verify,
                        ),
                    forall|j: int|
                        0 <= j < i ==> out@[j] == (
                            &raw_inputs@[j].pubkey->0.inner,
                            &raw_inputs@[j].signature->0.inner,
                        ),
                    forall|key: &P, slot: u32, signed: &[u8; MESSAGE_LENGTH], signature: &S|
                        call_requires(*xmss_verify, (key, slot, signed, signature)),
                decreases raw_xmss_count - i,
            {
                let raw_input = &raw_inputs[i];
                match (raw_input.pubkey, raw_input.signature) {
                    (Some(public_key), Some(signature)) => {
                        if verify_inputs && !xmss_verify(
                            &public_key.inner,
                            epoch,
                            message,
                            &signature.inner,
                        ) {
                            return Err(PQSigningError::UnknownError);
                        }
                        out.push((&public_key.inner, &signature.inner));
                    },
                    _ => {
                        assert(!raw_pointers_valid(raw_inputs@[i as int]));
                        return Err(PQSigningError::InvalidPointer);
                    },
                }
                i += 1;
            }
            assert(out@ =~= raw_pairs(raw_xmss, raw_xmss_count));
            Ok(out)
        },
    }
}

/// The memory behind the pointers of an encoded aggregate holds what they announce.
pub open spec fn child_readable<P>(child: PQAggregatedSignatureChild<P>) -> bool {
    readable(child.pubkeys, child.pubkey_count) && readable(child.agg_bytes, child.agg_len)
}

/// The same for an array of encoded aggregates.
pub open spec fn children_readable<'a, P>(
    children: Option<&'a [PQAggregatedSignatureChild<'a, P>]>,
    child_count: usize,
) -> bool {
    &&& readable(children, child_count)
    &&& children matches Some(inputs) ==> forall|i: int|
        0 <= i < child_count ==> child_readable(#[trigger] inputs@[i])
}

/// The pointers of an encoded aggregate, those to its public keys with it, are valid.
pub open spec fn child_pointers_valid<P>(child: PQAggregatedSignatureChild<P>) -> bool {
    child.agg_bytes is Some && pointers_valid(child.pubkeys, child.pubkey_count)
}

/// `decode` answered `answer` on these bytes and these public keys.
pub open spec fn decode_answered<'a, P, C, D: Fn(&[u8], Vec<&'a P>) -> Option<C>>(
    decode: D,
    bytes: Seq<u8>,
    keys: Seq<&'a P>,
    answer: Option<C>,
) -> bool {
    exists|encoded: &[u8], pubkeys: Vec<&'a P>|
        {
            &&& encoded@ == bytes
            &&& pubkeys@ == keys
            &&& #[trigger] call_ensures(decode, (encoded, pubkeys), answer)
        }
}

/// `decode` answered `answer` on an encoded aggregate.
pub open spec fn child_answered<'a, P, C, D: Fn(&[u8], Vec<&'a P>) -> Option<C>>(
    child: PQAggregatedSignatureChild<'a, P>,
    decode: D,
    answer: Option<C>,
) -> bool {
    decode_answered(
        decode,
        items(child.agg_bytes, child.agg_len),
        public_keys(child.pubkeys, child.pubkey_count),
        answer,
    )
}

/// An encoded aggregate is taken in as `decoded`.
pub open spec fn child_taken<'a, P, C, D: Fn(&[u8], Vec<&'a P>) -> Option<C>>(
    child: PQAggregatedSignatureChild<'a, P>,
    decode: D,
    decoded: C,
) -> bool {
    child_pointers_valid(child) && child_answered(child, decode, Some(decoded))
}

/// The first `taken.len()` encoded aggregates are taken in, as `taken`.
pub open spec fn children_taken<'a, P, C, D: Fn(&[u8], Vec<&'a P>) -> Option<C>>(
    children: Seq<PQAggregatedSignatureChild<'a, P>>,
    decode: D,
    taken: Seq<C>,
) -> bool {
    &&& taken.len() <= children.len()
    &&& forall|i: int|
        0 <= i < taken.len() ==> child_taken(#[trigger] children[i], decode, taken[i])
}

/// What gathering an array of encoded aggregates comes to.
///
/// It succeeds when every one is taken in. Otherwise the array is missing, or the first one
/// that is not taken in has an invalid pointer (`InvalidPointer`) or does not decode
/// (`UnknownError`).
pub open spec fn children_collected<'a, P, C, D: Fn(&[u8], Vec<&'a P>) -> Option<C>>(
    children: Option<&'a [PQAggregatedSignatureChild<'a, P>]>,
    child_count: usize,
    decode: D,
    collected: Result<Seq<C>, PQSigningError>,
) -> bool {
    match collected {
        Ok(decoded) => {
            &&& child_count > 0 ==> children is Some
            &&& decoded.len() == child_count
            &&& child_count > 0 ==> children_taken(children->0@, decode, decoded)
        },
        Err(PQSigningError::InvalidPointer) => {
            &&& child_count > 0
            &&& children is None || exists|taken: Seq<C>|
                {
                    &&& taken.len() < child_count
                    &&& #[trigger] children_taken(children->0@, decode, taken)
                    &&& !child_pointers_valid(children->0@[taken.len() as int])
                }
        },
        Err(PQSigningError::UnknownError) => {
            &&& children is Some
            &&& exists|taken: Seq<C>|
                {
                    &&& taken.len() < child_count
                    &&& #[trigger] children_taken(children->0@, decode, taken)
                    &&& child_pointers_valid(children->0@[taken.len() as int])
                    &&& child_answered(children->0@[taken.len() as int], decode, None::<C>)
                }
        },
        Err(_) => false,
    }
}

/// Gathers single-message aggregates to aggregate further, each decoded with the public keys
/// of its signers.
pub fn collect_child_aggregations<'a, P, C, D: Fn(&[u8], Vec<&'a P>) -> Option<C>>(
    children: Option<&'a [PQAggregatedSignatureChild<'a, P>]>,
    child_count: usize,
    decode: &D,
) -> (collected: Result<Vec<C>, PQSigningError>)
    requires
        children_readable(children, child_count),
        forall|encoded: &[u8], pubkeys: Vec<&'a P>| call_requires(*decode, (encoded, pubkeys)),
    ensures
        children_collected(children, child_count, *decode, contents(collected)),
{
    if child_count == 0 {
        return Ok(Vec::new());
    }
    match children {
        None => Err(PQSigningError::InvalidPointer),
        Some(child_inputs) => {
            let mut out: Vec<C> = Vec::with_capacity(child_count);
            let mut i: usize = 0;
            while i < child_count
                invariant
                    children == Some(child_inputs),
                    children_readable(children, child_count),
                    i <= child_count,
                    out@.len() == i,
                    children_taken(child_inputs@, *decode, out@),
                    forall|encoded: &[u8], pubkeys: Vec<&'a P>|
                        call_requires(*decode, (encoded, pubkeys)),
                decreases child_count - i,
            {
                let child = &child_inputs[i];
                let proof_bytes = match child.agg_bytes {
                    None => {
                        assert(!child_pointers_valid(child_inputs@[out@.len() as int]));
                        return Err(PQSigningError::InvalidPointer);
                    },
                    Some(memory) => slice_subrange(memory, 0, child.agg_len),
                };
                let pubkeys = match collect_public_keys(child.pubkeys, child.pubkey_count) {
                    Ok(pubkeys) => pubkeys,
                    Err(refusal) => {
                        assert(!child_pointers_valid(child_inputs@[out@.len() as int]));
                        return Err(refusal);
                    },
                };
                assert(proof_bytes@ == items(child.agg_bytes, child.agg_len));
                match decode(proof_bytes, pubkeys) {
                    None => {
                        assert(child_answered(*child, *decode, None::<C>));
                        return Err(PQSigningError::UnknownError);
                    },
                    Some(aggregated) => {
                        assert(child_taken(*child, *decode, aggregated));
                        out.push(aggregated);
                    },
                }
                i += 1;
            }
            Ok(out)
        },
    }
}

/// Gathers single-message aggregates to merge, each decoded with the public keys of its
/// signers.
pub fn collect_type1_entries<'a, P, C, D: Fn(&[u8], Vec<&'a P>) -> Option<C>>(
    entries: Option<&'a [PQAggregatedSignatureChild<'a, P>]>,
    entry_count: usize,
    decode: &D,
) -> (collected: Result<Vec<C>, PQSigningError>)
    requires
        children_readable(entries, entry_count),
        forall|encoded: &[u8], pubkeys: Vec<&'a P>| call_requires(*decode, (encoded, pubkeys)),
    ensures
        children_collected(entries, entry_count, *decode, contents(collected)),
{
    collect_child_aggregations(entries, entry_count, decode)
}

/// The decoder is a function: it has one answer for the same bytes and the same public keys.
pub open spec fn decodes_one_way<'a, P, C, D: Fn(&[u8], Vec<&'a P>) -> Option<C>>(
    decode: D,
) -> bool {
    forall|bytes: Seq<u8>, keys: Seq<&'a P>, a: Option<C>, b: Option<C>|
        #![trigger decode_answered(decode, bytes, keys, a), decode_answered(decode, bytes, keys, b)]
        decode_answered(decode, bytes, keys, a) && decode_answered(decode, bytes, keys, b) ==> a
            == b
}

/// Two runs over the same encoded aggregates take the same ones in alike, as far as both go.
proof fn lemma_taken_alike<'a, P, C, D: Fn(&[u8], Vec<&'a P>) -> Option<C>>(
    children: Seq<PQAggregatedSignatureChild<'a, P>>,
    decode: D,
    a: Seq<C>,
    b: Seq<C>,
)
    requires
        decodes_one_way::<P, C, D>(decode),
        children_taken(children, decode, a),
        children_taken(children, decode, b),
    ensures
        forall|i: int| 0 <= i < a.len() && i < b.len() ==> #[trigger] a[i] == b[i],
{
    assert forall|i: int| 0 <= i < a.len() && i < b.len() implies #[trigger] a[i] == b[i] by {
        assert(child_taken(children[i], decode, a[i]));
        assert(child_taken(children[i], decode, b[i]));
    }
}

/// The aggregates that were taken in before gathering ended.
spec fn gathered_before<'a, P, C, D: Fn(&[u8], Vec<&'a P>) -> Option<C>>(
    children: Option<&'a [PQAggregatedSignatureChild<'a, P>]>,
    child_count: usize,
    decode: D,
    collected: Result<Seq<C>, PQSigningError>,
) -> Seq<C> {
    match collected {
        Ok(decoded) => decoded,
        Err(PQSigningError::InvalidPointer) => choose|taken: Seq<C>|
            {
                &&& taken.len() < child_count
                &&& #[trigger] children_taken(children->0@, decode, taken)
                &&& !child_pointers_valid(children->0@[taken.len() as int])
            },
        Err(_) => choose|taken: Seq<C>|
            {
                &&& taken.len() < child_count
                &&& #[trigger] children_taken(children->0@, decode, taken)
                &&& child_pointers_valid(children->0@[taken.len() as int])
                &&& child_answered(children->0@[taken.len() as int], decode, None::<C>)
            },
    }
}

/// Gathering the same encoded aggregates has one outcome, whether they are to be merged or to be
/// aggregated further: the same aggregates in the same order, or the same refusal, if the decoder
/// is a function.
pub proof fn law_type1_entries_are_gathered_like_children<
    'a,
    P,
    C,
    D: Fn(&[u8], Vec<&'a P>) -> Option<C>,
>(
    entries: Option<&'a [PQAggregatedSignatureChild<'a, P>]>,
    entry_count: usize,
    decode: D,
    as_entries: Result<Vec<C>, PQSigningError>,
    as_children: Result<Vec<C>, PQSigningError>,
)
    requires
        readable(entries, entry_count),
        decodes_one_way::<P, C, D>(decode),
        children_collected(entries, entry_count, decode, contents(as_entries)),
        children_collected(entries, entry_count, decode, contents(as_children)),
    ensures
        contents(as_entries) == contents(as_children),
{
    if entry_count > 0 && entries is Some {
        let children = entries->0@;
        let a = gathered_before(entries, entry_count, decode, contents(as_entries));
        let b = gathered_before(entries, entry_count, decode, contents(as_children));
        lemma_taken_alike(children, decode, a, b);
        if a.len() < b.len() {
            assert(child_taken(children[a.len() as int], decode, b[a.len() as int]));
        }
        if b.len() < a.len() {
            assert(child_taken(children[b.len() as int], decode, a[b.len() as int]));
        }
        assert(a =~= b);
    } else if entry_count == 0 {
        assert(contents(as_entries)->Ok_0 =~= contents(as_children)->Ok_0);
    }
}

/// The memory behind the pointers of an array of components holds what they announce.
pub open spec fn components_readable<'a, P>(
    components: Option<&'a [PQTypeTwoComponent<'a, P>]>,
    component_count: usize,
) -> bool {
    &&& readable(components, component_count)
    &&& components matches Some(inputs) ==> forall|i: int|
        0 <= i < component_count ==> readable(
            (#[trigger] inputs@[i]).pubkeys,
            inputs@[i].pubkey_count,
        )
}

/// A non-empty array of components is there, and all its pointers are valid.
pub open spec fn components_valid<'a, P>(
    components: Option<&'a [PQTypeTwoComponent<'a, P>]>,
    component_count: usize,
) -> bool {
    component_count > 0 ==> {
        &&& components is Some
        &&& forall|i: int|
            0 <= i < component_count ==> pointers_valid(
                (#[trigger] components->0@[i]).pubkeys,
                components->0@[i].pubkey_count,
            )
    }
}

/// The public keys of each component of a valid array.
pub open spec fn component_keys<'a, P>(
    components: Option<&'a [PQTypeTwoComponent<'a, P>]>,
    component_count: usize,
) -> Seq<Seq<&'a P>> {
    Seq::new(
        component_count as nat,
        |i: int| public_keys(components->0@[i].pubkeys, components->0@[i].pubkey_count),
    )
}

/// The contents of the vectors in a vector.
pub open spec fn nested<T>(vectors: Seq<Vec<T>>) -> Seq<Seq<T>> {
    vectors.map_values(|vector: Vec<T>| vector@)
}

/// Gathers the public keys of each component.
pub fn collect_type2_components<'a, P>(
    components: Option<&'a [PQTypeTwoComponent<'a, P>]>,
    component_count: usize,
) -> (collected: Result<Vec<Vec<&'a P>>, PQSigningError>)
    requires
        components_readable(components, component_count),
    ensures
        collected is Ok <==> components_valid(components, component_count),
        collected matches Ok(out) ==> nested(out@) == component_keys(components, component_count),
        collected matches Err(refusal) ==> refusal == PQSigningError::InvalidPointer,
{
    if component_count == 0 {
        let out: Vec<Vec<&'a P>> = Vec::new();
        assert(nested(out@) =~= component_keys(components, component_count));
        return Ok(out);
    }
    match components {
        None => Err(PQSigningError::InvalidPointer),
        Some(inputs) => {
            let mut out: Vec<Vec<&'a P>> = Vec::with_capacity(component_count);
            let mut i: usize = 0;
            while i < component_count
                invariant
                    components == Some(inputs),
                    components_readable(components, component_count),
                    i <= component_count,
                    out@.len() == i,
                    forall|j: int|
                        0 <= j < i ==> pointers_valid(
                            (#[trigger] inputs@[j]).pubkeys,
                            inputs@[j].pubkey_count,
                        ),
                    forall|j: int|
                        0 <= j < i ==> (#[trigger] out@[j])@ == public_keys(
                            inputs@[j].pubkeys,
                            inputs@[j].pubkey_count,
                        ),
                decreases component_count - i,
            {
                let component = &inputs[i];
                match collect_public_keys(component.pubkeys, component.pubkey_count) {
                    Ok(pubkeys) => {
                        out.push(pubkeys);
                    },
                    Err(refusal) => {
                        assert(!pointers_valid(
                            inputs@[i as int].pubkeys,
                            inputs@[i as int].pubkey_count,
                        ));
                        return Err(refusal);
                    },
                }
                i += 1;
            }
            assert(nested(out@) =~= component_keys(components, component_count));
            Ok(out)
        },
    }
}

/// The memory behind the pointers of an array of bindings holds what they announce.
pub open spec fn bindings_readable<'a>(
    bindings: Option<&'a [PQTypeTwoMessageBinding<'a>]>,
    binding_count: usize,
) -> bool {
    &&& readable(bindings, binding_count)
    &&& bindings matches Some(inputs) ==> forall|i: int|
        0 <= i < binding_count ==> message_readable(
            (#[trigger] inputs@[i]).message,
            inputs@[i].message_len,
        )
}

/// Why a binding is refused, if it is.
pub open spec fn binding_refusal(binding: PQTypeTwoMessageBinding) -> Option<PQSigningError> {
    if slot_of_epoch(binding.epoch) is Err {
        Some(PQSigningError::InvalidEpoch)
    } else {
        message_refusal(binding.message, binding.message_len)
    }
}

/// The message and the slot of an accepted binding.
pub open spec fn bound_message(binding: PQTypeTwoMessageBinding) -> (
    [u8; MESSAGE_LENGTH],
    u32,
) {
    (message_at(binding.message), binding.epoch as u32)
}

/// What gathering an array of bindings comes to.
///
/// It succeeds when none is refused. Otherwise the array is missing, or the answer is why the
/// first one that is refused is refused.
pub open spec fn bindings_collected<'a>(
    bindings: Option<&'a [PQTypeTwoMessageBinding<'a>]>,
    binding_count: usize,
    collected: Result<Seq<([u8; MESSAGE_LENGTH], u32)>, PQSigningError>,
) -> bool {
    match collected {
        Ok(expected) => {
            &&& binding_count > 0 ==> bindings is Some
            &&& expected.len() == binding_count
            &&& forall|i: int|
                0 <= i < binding_count ==> {
                    &&& binding_refusal(#[trigger] bindings->0@[i]) is None
                    &&& expected[i] == bound_message(bindings->0@[i])
                }
        },
        Err(refusal) => {
            &&& binding_count > 0
            &&& if bindings is None {
                refusal == PQSigningError::InvalidPointer
            } else {
                exists|i: int|
                    {
                        &&& 0 <= i < binding_count
                        &&& binding_refusal(#[trigger] bindings->0@[i]) == Some(refusal)
                        &&& forall|j: int|
                            0 <= j < i ==> binding_refusal(#[trigger] bindings->0@[j]) is None
                    }
            }
        },
    }
}

/// Gathers the messages and slots that a caller expects.
pub fn collect_type2_message_bindings<'a>(
    bindings: Option<&'a [PQTypeTwoMessageBinding<'a>]>,
    binding_count: usize,
) -> (collected: Result<Vec<([u8; MESSAGE_LENGTH], u32)>, PQSigningError>)
    requires
        bindings_readable(bindings, binding_count),
    ensures
        bindings_collected(bindings, binding_count, contents(collected)),
{
    if binding_count == 0 {
        return Ok(Vec::new());
    }
    match bindings {
        None => Err(PQSigningError::InvalidPointer),
        Some(inputs) => {
            let mut out: Vec<([u8; MESSAGE_LENGTH], u32)> = Vec::with_capacity(binding_count);
            let mut i: usize = 0;
            while i < binding_count
                invariant
                    bindings == Some(inputs),
                    bindings_readable(bindings, binding_count),
                    i <= binding_count,
                    out@.len() == i,
                    forall|j: int|
                        0 <= j < i ==> {
                            &&& binding_refusal(#[trigger] inputs@[j]) is None
                            &&& out@[j] == bound_message(inputs@[j])
                        },
                decreases binding_count - i,
            {
                let binding = &inputs[i];
                let epoch = match epoch_to_u32(binding.epoch) {
                    Ok(epoch) => epoch,
                    Err(refusal) => {
                        assert(binding_refusal(inputs@[i as int]) == Some(refusal));
                        return Err(refusal);
                    },
                };
                match message_from_ptr(binding.message, binding.message_len) {
                    Ok(message) => {
                        out.push((message, epoch));
                    },
                    Err(refusal) => {
                        assert(binding_refusal(inputs@[i as int]) == Some(refusal));
                        return Err(refusal);
                    },
                }
                i += 1;
            }
            Ok(out)
        },
    }
}

} // verus!
