//! The detail of the last failure, and wiping.
use vstd::prelude::*;
use vstd::utf8::encode_utf8;
use crate::error::{pq_error_description, PQSigningError};
use crate::handles::PQSignatureSchemeSecretKey;
use crate::last_error::{
    aggregation_error, clear_last_error, cstring_from_message, pq_take_last_error_message,
    pq_xmss_aggregation_setup_prover, pq_xmss_aggregation_setup_prover_without_arena,
    pq_xmss_aggregation_setup_verifier, set_last_error, LastError,
};
use crate::wipe::{
    law_guard_leaves_no_trace, move_allocation, pq_secret_key_free, secure_zero_allocation,
    Reallocation, WipeDeallocationGuard, WipingAllocator,
};

verus! {

/// A detail that is kept is handed out once, as the bytes of its UTF-8 encoding with a space in
/// the place of every zero, and nothing is handed out after that.
pub proof fn law_detail_is_taken_once(
    message: String,
    kept: &mut LastError,
    first: &mut LastError,
    taken: Option<Vec<u8>>,
    second: &mut LastError,
    again: Option<Vec<u8>>,
)
    requires
        call_ensures(set_last_error, (kept, message), ()),
        *old(first) == *final(kept),
        call_ensures(pq_take_last_error_message, (first,), taken),
        *old(second) == *final(first),
        call_ensures(pq_take_last_error_message, (second,), again),
    ensures
        taken is Some,
        taken->0@.len() == encode_utf8(message@).len(),
        forall|i: int|
            0 <= i < encode_utf8(message@).len() ==> #[trigger] taken->0@[i] == (if encode_utf8(
                message@,
            )[i] == 0 {
                0x20u8
            } else {
                encode_utf8(message@)[i]
            }),
        again is None,
{
}

/// What was kept last is what is handed out.
pub proof fn law_last_detail_counts(
    earlier: String,
    message: String,
    first: &mut LastError,
    second: &mut LastError,
    fresh: &mut LastError,
)
    requires
        call_ensures(set_last_error, (first, earlier), ()),
        *old(second) == *final(first),
        call_ensures(set_last_error, (second, message), ()),
        call_ensures(set_last_error, (fresh, message), ()),
    ensures
        final(second)@ == final(fresh)@,
        final(second)@ == Some(message@),
{
}

/// Nothing is handed out when nothing was kept, or when what was kept was forgotten.
pub proof fn law_nothing_is_taken_of_nothing(
    empty: LastError,
    cleared: &mut LastError,
    first: &mut LastError,
    taken: Option<Vec<u8>>,
)
    requires
        call_ensures(LastError::new, (), empty),
        call_ensures(clear_last_error, (cleared,), ()),
        *old(first) == empty || *old(first) == *final(cleared),
        call_ensures(pq_take_last_error_message, (first,), taken),
    ensures
        taken is None,
{
}

/// A C string has the bytes of the UTF-8 encoding of its message, with a space in the place of
/// every zero.
pub proof fn law_c_string_is_the_message(message: String, bytes: Vec<u8>)
    requires
        call_ensures(cstring_from_message, (message,), bytes),
    ensures
        bytes@.len() == encode_utf8(message@).len(),
        forall|i: int|
            0 <= i < encode_utf8(message@).len() ==> #[trigger] bytes@[i] == (if encode_utf8(
                message@,
            )[i] == 0 {
                0x20u8
            } else {
                encode_utf8(message@)[i]
            }),
{
}

/// A refusal of the proof system is kept with the step and its own words, in this order.
pub proof fn law_refusal_is_kept_in_words(
    last_error: &mut LastError,
    stage: &str,
    err: &str,
    status: PQSigningError,
)
    requires
        call_ensures(aggregation_error, (last_error, stage, err), status),
    ensures
        status == PQSigningError::UnknownError,
        final(last_error)@ == Some("leanvm-xmss: "@ + stage@ + " failed: "@ + err@),
{
}

/// Preparing the prover asks for it, forgets an earlier detail, and keeps one exactly if the
/// preparation panicked.
pub proof fn law_prover_setup_keeps_its_failure<F: FnOnce() -> Result<(), ()>>(
    last_error: &mut LastError,
    setup: F,
)
    requires
        call_ensures(pq_xmss_aggregation_setup_prover::<F>, (last_error, setup), ())
            || call_ensures(
            pq_xmss_aggregation_setup_prover_without_arena::<F>,
            (last_error, setup),
            (),
        ),
    ensures
        exists|answer: Result<(), ()>|
            {
                &&& #[trigger] call_ensures(setup, (), answer)
                &&& answer is Ok ==> final(last_error)@ is None
                &&& answer is Err ==> final(last_error)@ == Some(
                    "leanvm-xmss: prover setup failed"@,
                )
            },
{
}

/// Preparing the verifier asks for it.
pub proof fn law_verifier_setup_is_asked_for<F: FnOnce() -> Result<(), ()>>(setup: F)
    requires
        call_ensures(pq_xmss_aggregation_setup_verifier::<F>, (setup,), ()),
    ensures
        exists|answer: Result<(), ()>| call_ensures(setup, (), answer),
{
}

/// Every status code has its description.
pub proof fn law_status_words(error: PQSigningError, description: &'static str)
    requires
        call_ensures(pq_error_description, (error,), description),
    ensures
        error == PQSigningError::Success ==> description@ == "Success"@,
        error == PQSigningError::EncodingAttemptsExceeded ==> description@
            == "Encoding attempts exceeded"@,
        error == PQSigningError::InvalidPointer ==> description@ == "Invalid pointer"@,
        error == PQSigningError::InvalidMessageLength ==> description@
            == "Invalid message length"@,
        error == PQSigningError::InvalidEpoch ==> description@ == "Invalid epoch"@,
        error == PQSigningError::UnknownError ==> description@ == "Unknown error"@,
{
}

/// A block that is released while the allocator wipes holds nothing but zeros, and is counted; one
/// that is released while it does not is left alone, and is not. Neither changes whether the
/// allocator wipes.
pub proof fn law_released_blocks(
    allocator: &mut WipingAllocator,
    allocation: &mut [u8],
    wipes: bool,
    wipes_after: bool,
    count: usize,
    count_after: usize,
)
    requires
        call_ensures(WipingAllocator::wipes, (&*old(allocator),), wipes),
        call_ensures(WipingAllocator::wiped_allocation_count, (&*old(allocator),), count),
        call_ensures(WipingAllocator::dealloc, (allocator, allocation), ()),
        call_ensures(WipingAllocator::wipes, (&*final(allocator),), wipes_after),
        call_ensures(WipingAllocator::wiped_allocation_count, (&*final(allocator),), count_after),
    ensures
        final(allocation)@.len() == old(allocation)@.len(),
        wipes ==> forall|i: int| 0 <= i < old(allocation)@.len() ==> final(allocation)@[i] == 0,
        !wipes ==> final(allocation)@ == old(allocation)@,
        wipes && count < usize::MAX ==> count_after == count + 1,
        !wipes ==> count_after == count,
        wipes_after == wipes,
{
}

/// An allocator wipes exactly while a guard is held: not at first, always once one more was taken,
/// and, with any number of guards, if the number is not zero.
pub proof fn law_guards_make_it_wipe(
    fresh: WipingAllocator,
    fresh_wipes: bool,
    fresh_count: usize,
    guards: usize,
    guarded: WipingAllocator,
    guarded_wipes: bool,
    allocator: &mut WipingAllocator,
    guard: WipeDeallocationGuard,
    held_wipes: bool,
)
    requires
        call_ensures(WipingAllocator::new, (), fresh),
        call_ensures(WipingAllocator::wipes, (&fresh,), fresh_wipes),
        call_ensures(WipingAllocator::wiped_allocation_count, (&fresh,), fresh_count),
        call_ensures(WipingAllocator::with_guards, (guards,), guarded),
        call_ensures(WipingAllocator::wipes, (&guarded,), guarded_wipes),
        call_ensures(WipeDeallocationGuard::new, (allocator,), guard),
        call_ensures(WipingAllocator::wipes, (&*final(allocator),), held_wipes),
    ensures
        !fresh_wipes,
        fresh_count == 0,
        guarded_wipes <==> guards > 0,
        held_wipes,
{
}

/// A guard that is given back leaves the allocator as it was before the guard was taken.
pub proof fn law_guards_are_given_back(
    taken: &mut WipingAllocator,
    guard: WipeDeallocationGuard,
    given: &mut WipingAllocator,
)
    requires
        call_ensures(WipeDeallocationGuard::new, (taken,), guard),
        *old(given) == *final(taken),
        call_ensures(WipeDeallocationGuard::release, (guard, given), ()),
    ensures
        *final(given) == *old(taken),
{
    law_guard_leaves_no_trace(*old(taken), *final(taken), *final(given));
}

/// With two guards taken and one given back, the allocator still wipes.
pub proof fn law_one_guard_is_enough(
    first: &mut WipingAllocator,
    one: WipeDeallocationGuard,
    second: &mut WipingAllocator,
    two: WipeDeallocationGuard,
    given: &mut WipingAllocator,
    wipes: bool,
)
    requires
        call_ensures(WipeDeallocationGuard::new, (first,), one),
        *old(second) == *final(first),
        call_ensures(WipeDeallocationGuard::new, (second,), two),
        *old(given) == *final(second),
        call_ensures(WipeDeallocationGuard::release, (one, given), ()),
        call_ensures(WipingAllocator::wipes, (&*final(given),), wipes),
    ensures
        wipes,
{
}

/// A block is resized by the underlying allocator while nothing is wiped, and otherwise moved if
/// the size, rounded up to the alignment, is at most `isize::MAX`.
pub proof fn law_resizing_moves_while_wiping(
    allocator: WipingAllocator,
    wipes: bool,
    align: usize,
    new_size: usize,
    answer: Reallocation,
)
    requires
        call_ensures(WipingAllocator::wipes, (&allocator,), wipes),
        call_ensures(WipingAllocator::realloc, (&allocator, align, new_size), answer),
    ensures
        answer == Reallocation::Delegate <==> !wipes,
        wipes ==> (answer == Reallocation::Move <==> new_size + align <= isize::MAX + 1),
        answer == Reallocation::Refuse ==> wipes,
{
}

/// Zeroing a block reaches every byte of it.
pub proof fn law_zeroing_reaches_every_byte(allocation: &mut [u8])
    requires
        call_ensures(secure_zero_allocation, (allocation,), ()),
    ensures
        final(allocation)@.len() == old(allocation)@.len(),
        forall|i: int| 0 <= i < old(allocation)@.len() ==> final(allocation)@[i] == 0,
{
}

/// Moving a block copies every byte that fits, leaves the rest of the new block alone, and wipes
/// the old one.
pub proof fn law_moving_copies_what_fits(allocation: &mut [u8], new_allocation: &mut [u8])
    requires
        call_ensures(move_allocation, (allocation, new_allocation), ()),
    ensures
        final(new_allocation)@.len() == old(new_allocation)@.len(),
        forall|i: int|
            0 <= i < old(new_allocation)@.len() ==> #[trigger] final(new_allocation)@[i] == (if i
                < old(allocation)@.len() {
                old(allocation)@[i]
            } else {
                old(new_allocation)@[i]
            }),
        final(allocation)@.len() == old(allocation)@.len(),
        forall|i: int| 0 <= i < old(allocation)@.len() ==> final(allocation)@[i] == 0,
{
}

/// A secret key is dropped while the allocator wipes, and what is counted meanwhile stays counted.
/// After that the allocator wipes again as it did before.
pub proof fn law_secret_key_is_dropped_under_a_guard<
    K,
    F: FnOnce(Box<PQSignatureSchemeSecretKey<K>>, &mut WipingAllocator),
>(
    allocator: &mut WipingAllocator,
    secret: Box<PQSignatureSchemeSecretKey<K>>,
    drop_key: F,
    wipes: bool,
    wipes_after: bool,
    count: usize,
)
    requires
        forall|any: Box<PQSignatureSchemeSecretKey<K>>, held: &mut WipingAllocator| #[trigger]
            call_ensures(drop_key, (any, held), ()) ==> final(held).guards() == held.guards(),
        call_ensures(
            pq_secret_key_free::<K, F>,
            (allocator, Some(secret), drop_key),
            (),
        ),
        call_ensures(WipingAllocator::wipes, (&*old(allocator),), wipes),
        call_ensures(WipingAllocator::wipes, (&*final(allocator),), wipes_after),
        call_ensures(WipingAllocator::wiped_allocation_count, (&*final(allocator),), count),
    ensures
        exists|held: &mut WipingAllocator|
            {
                &&& #[trigger] call_ensures(drop_key, (secret, held), ())
                &&& held.guards() > 0
                &&& held.wiped() == old(allocator).wiped()
                &&& count == final(held).wiped()
            },
        wipes_after == wipes,
{
}

/// A null pointer to a secret key is passed over.
pub proof fn law_null_secret_key_is_passed_over<
    K,
    F: FnOnce(Box<PQSignatureSchemeSecretKey<K>>, &mut WipingAllocator),
>(allocator: &mut WipingAllocator, drop_key: F)
    requires
        call_ensures(pq_secret_key_free::<K, F>, (allocator, None, drop_key), ()),
    ensures
        *final(allocator) == *old(allocator),
{
}

} // verus!
