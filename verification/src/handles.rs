//! The values that callers hold: keys, signatures, and the records that bring several of
//! them to one call.
use std::ops::RangeInclusive;
use vstd::prelude::*;
use crate::input::MESSAGE_LENGTH;

verus! {

/// `RangeInclusive::start` is the lower bound of a range, as long as the range was not
/// iterated to its end; what it is after that is left open.
pub assume_specification<Idx>[ RangeInclusive::<Idx>::start ](range: &RangeInclusive<Idx>) -> (start:
    &Idx)
    ensures
        !range@.exhausted ==> *start == range@.start,
;

/// `RangeInclusive::end` is the upper bound of a range, as long as the range was not
/// iterated to its end; what it is after that is left open.
pub assume_specification<Idx>[ RangeInclusive::<Idx>::end ](range: &RangeInclusive<Idx>) -> (end:
    &Idx)
    ensures
        !range@.exhausted ==> *end == range@.end,
;

/// A secret key of the scheme, `key`, with the first and the last slot that it can sign for.
pub struct XmssSecretKey<K> {
    pub key: K,
    pub first_slot: u32,
    pub last_slot: u32,
}

impl<K> XmssSecretKey<K> {
    /// The key can sign for `slot`.
    pub open spec fn is_active_at(self, slot: u32) -> bool {
        self.first_slot <= slot <= self.last_slot
    }

    /// The slots that the key can sign for.
    pub fn activation_slots(&self) -> (slots: RangeInclusive<u32>)
        ensures
            slots@.start == self.first_slot,
            slots@.end == self.last_slot,
            !slots@.exhausted,
    {
        RangeInclusive::new(self.first_slot, self.last_slot)
    }
}

/// A caller's secret key.
pub struct PQSignatureSchemeSecretKey<K> {
    pub inner: XmssSecretKey<K>,
}

/// A caller's public key.
pub struct PQSignatureSchemePublicKey<P> {
    pub inner: P,
}

/// A caller's signature.
pub struct PQSignature<S> {
    pub inner: S,
}

/// A signature with the public key that it is to be checked against.
pub struct PQRawXmssSignature<'a, P, S> {
    pub pubkey: Option<&'a PQSignatureSchemePublicKey<P>>,
    pub signature: Option<&'a PQSignature<S>>,
}

/// An aggregate in its encoded form, which holds no public keys, with the public keys of
/// its signers.
pub struct PQAggregatedSignatureChild<'a, P> {
    pub pubkeys: Option<&'a [Option<&'a PQSignatureSchemePublicKey<P>>]>,
    pub pubkey_count: usize,
    pub agg_bytes: Option<&'a [u8]>,
    pub agg_len: usize,
}

/// The public keys of the signers of one message of a multi-message aggregate.
pub struct PQTypeTwoComponent<'a, P> {
    pub pubkeys: Option<&'a [Option<&'a PQSignatureSchemePublicKey<P>>]>,
    pub pubkey_count: usize,
}

/// The message and the epoch that a caller expects in one place of a multi-message
/// aggregate.
pub struct PQTypeTwoMessageBinding<'a> {
    pub message: Option<&'a [u8]>,
    pub message_len: usize,
    pub epoch: u64,
}

/// What an aggregate says was signed: a message, in a slot.
#[derive(Clone, Copy)]
pub struct AggregateInfo {
    pub message: [u8; MESSAGE_LENGTH],
    pub slot: u32,
}

/// A decoded single-message aggregate: what it says was signed, and the proof.
pub struct SingleMessageAggregate<T> {
    pub info: AggregateInfo,
    pub inner: T,
}

/// A decoded multi-message aggregate: what it says was signed, message by message, and the
/// proof.
pub struct MultiMessageAggregate<T> {
    pub info: Vec<AggregateInfo>,
    pub inner: T,
}

/// The epochs from `start` up to, but not including, `end`.
#[derive(Debug, Clone, Copy, PartialEq, Eq, Structural)]
pub struct PQRange {
    pub start: u64,
    pub end: u64,
}

impl PQRange {
    /// The epochs from slot `first` through slot `last`.
    pub open spec fn of_slots(first: u32, last: u32) -> PQRange {
        PQRange { start: first as u64, end: (last + 1) as u64 }
    }

    /// `epoch` lies in the range.
    pub open spec fn holds(self, epoch: u64) -> bool {
        self.start <= epoch < self.end
    }
}

impl From<RangeInclusive<u32>> for PQRange {
    fn from(range: RangeInclusive<u32>) -> (epochs: Self)
        ensures
            !range@.exhausted ==> epochs == PQRange::of_slots(range@.start, range@.end),
    {
        PQRange { start: *range.start() as u64, end: *range.end() as u64 + 1 }
    }
}

impl vstd::std_specs::convert::FromSpecImpl<RangeInclusive<u32>> for PQRange {
    /// The bounds of a range that was iterated to its end are left open, so no function
    /// gives the result for every range; the clause at `from` does for every other.
    open spec fn obeys_from_spec() -> bool {
        false
    }

    open spec fn from_spec(range: RangeInclusive<u32>) -> PQRange {
        PQRange::of_slots(range@.start, range@.end)
    }
}

} // verus!
