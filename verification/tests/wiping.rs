use std::cell::Cell;

use leanvm_xmss::wipe::{move_allocation, secure_zero_allocation};
use leanvm_xmss::{
    pq_secret_key_free, PQSignatureSchemeSecretKey, Reallocation, WipeDeallocationGuard,
    WipingAllocator, XmssSecretKey,
};

#[test]
fn test_secret_drop_wipes_nested_allocations() {
    let mut allocator = WipingAllocator::new();
    let before = allocator.wiped_allocation_count();
    // The memory of a vector of 64 bytes, and of the box that holds the vector.
    let mut contents = vec![0xabu8; 64];
    let mut holder = vec![0x11u8; 24];
    {
        let wipe_guard = WipeDeallocationGuard::new(&mut allocator);
        allocator.dealloc(&mut contents);
        allocator.dealloc(&mut holder);
        wipe_guard.release(&mut allocator);
    }
    let after = allocator.wiped_allocation_count();
    assert!(after >= before + 2);
    assert_eq!(after, before + 2);
    assert_eq!(contents, vec![0u8; 64]);
    assert_eq!(holder, vec![0u8; 24]);
}

#[test]
fn nothing_is_wiped_without_a_guard() {
    let mut allocator = WipingAllocator::new();
    let mut block = vec![0xabu8; 8];
    assert!(!allocator.wipes());
    allocator.dealloc(&mut block);
    assert_eq!(block, vec![0xabu8; 8]);
    assert_eq!(allocator.wiped_allocation_count(), 0);
}

#[test]
fn wiping_lasts_until_the_last_guard() {
    let mut allocator = WipingAllocator::new();
    let first = WipeDeallocationGuard::new(&mut allocator);
    let second = WipeDeallocationGuard::new(&mut allocator);
    first.release(&mut allocator);
    let mut block = vec![1u8; 3];
    allocator.dealloc(&mut block);
    assert_eq!(block, vec![0u8; 3]);
    second.release(&mut allocator);
    let mut late = vec![1u8; 3];
    allocator.dealloc(&mut late);
    assert_eq!(late, vec![1u8; 3]);
    assert_eq!(allocator.wiped_allocation_count(), 1);
}

#[test]
fn resizing_is_delegated_without_a_guard() {
    let allocator = WipingAllocator::new();
    assert_eq!(allocator.realloc(8, 100), Reallocation::Delegate);
    assert_eq!(allocator.realloc(8, usize::MAX), Reallocation::Delegate);
}

#[test]
fn resizing_moves_under_a_guard() {
    let allocator = WipingAllocator::with_guards(1);
    let most = isize::MAX as usize;
    assert_eq!(allocator.realloc(8, 100), Reallocation::Move);
    assert_eq!(allocator.realloc(8, most - 7), Reallocation::Move);
    assert_eq!(allocator.realloc(8, most - 6), Reallocation::Refuse);
    assert_eq!(allocator.realloc(1, most), Reallocation::Move);
    assert_eq!(allocator.realloc(1, most + 1), Reallocation::Refuse);
}

#[test]
fn moving_keeps_what_fits_and_wipes_the_rest() {
    let mut old_block = vec![1u8, 2, 3];
    let mut longer = vec![9u8; 5];
    move_allocation(&mut old_block, &mut longer);
    assert_eq!(longer, vec![1, 2, 3, 9, 9]);
    assert_eq!(old_block, vec![0; 3]);

    let mut old_block = vec![1u8, 2, 3];
    let mut shorter = vec![9u8; 2];
    move_allocation(&mut old_block, &mut shorter);
    assert_eq!(shorter, vec![1, 2]);
    assert_eq!(old_block, vec![0; 3]);
}

#[test]
fn zeroing_reaches_every_byte() {
    let mut block = vec![0xffu8; 17];
    secure_zero_allocation(&mut block);
    assert_eq!(block, vec![0u8; 17]);
}

fn secret_key(key: u64) -> Box<PQSignatureSchemeSecretKey<u64>> {
    Box::new(PQSignatureSchemeSecretKey {
        inner: XmssSecretKey {
            key,
            first_slot: 0,
            last_slot: 1,
        },
    })
}

#[test]
fn a_secret_key_is_released_under_a_guard() {
    let mut allocator = WipingAllocator::new();
    let seen = Cell::new(0u64);
    pq_secret_key_free(&mut allocator, Some(secret_key(5)), |secret, held| {
        assert!(held.wipes());
        seen.set(secret.inner.key);
    });
    assert_eq!(seen.get(), 5);
    assert!(!allocator.wipes());
    assert_eq!(allocator.wiped_allocation_count(), 0);
}

#[test]
fn every_block_of_a_secret_key_is_wiped_and_counted() {
    let mut allocator = WipingAllocator::new();
    let mut handle = vec![1u8; 16];
    let mut nested = vec![2u8; 64];
    for _ in 0..2 {
        pq_secret_key_free(&mut allocator, Some(secret_key(5)), |_secret, held| {
            held.dealloc(&mut nested);
            held.dealloc(&mut handle);
        });
    }
    assert_eq!(handle, vec![0u8; 16]);
    assert_eq!(nested, vec![0u8; 64]);
    assert_eq!(allocator.wiped_allocation_count(), 4);
    assert!(!allocator.wipes());
}

#[test]
fn a_null_secret_key_is_passed_over() {
    let mut allocator = WipingAllocator::new();
    let calls = Cell::new(0);
    pq_secret_key_free(
        &mut allocator,
        None::<Box<PQSignatureSchemeSecretKey<u64>>>,
        |_secret, _held| calls.set(calls.get() + 1),
    );
    assert_eq!(calls.get(), 0);
    assert!(!allocator.wipes());
    assert_eq!(allocator.wiped_allocation_count(), 0);
}
