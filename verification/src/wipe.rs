//! Wiping of memory that held a secret: while a guard is held, every heap block is zeroed
//! before it goes back to the allocator.
//!
//! A heap block is the slice of its bytes. Where blocks come from and go to is the business
//! of the underlying allocator.
use vstd::prelude::*;
use crate::handles::PQSignatureSchemeSecretKey;

verus! {

/// Every byte is zero.
pub open spec fn is_wiped(block: Seq<u8>) -> bool {
    forall|i: int| 0 <= i < block.len() ==> block[i] == 0
}

/// The layout of a block of `size` bytes at an alignment exists: the size, rounded up to the
/// alignment, is at most `isize::MAX`.
pub open spec fn layout_exists(size: usize, align: usize) -> bool {
    size + (align - 1) <= isize::MAX
}

/// What a request to resize a block is answered with.
#[derive(Debug, Clone, Copy, PartialEq, Eq, Structural)]
pub enum Reallocation {
    /// The underlying allocator resizes the block.
    Delegate,
    /// There is no such block.
    Refuse,
    /// A new block takes over the contents, and the old one is wiped and released.
    Move,
}

/// An allocator that wipes the blocks that are released while a guard is held.
pub struct WipingAllocator {
    wiping_deallocations: usize,
    wiped_allocation_count: usize,
}

impl WipingAllocator {
    /// The number of guards that are held.
    pub closed spec fn guards(self) -> usize {
        self.wiping_deallocations
    }

    /// The number of blocks that were wiped and released.
    pub closed spec fn wiped(self) -> usize {
        self.wiped_allocation_count
    }

    /// No guard is held, and nothing was wiped.
    pub fn new() -> (allocator: WipingAllocator)
        ensures
            allocator.guards() == 0,
            allocator.wiped() == 0,
    {
        WipingAllocator { wiping_deallocations: 0, wiped_allocation_count: 0 }
    }

    /// The allocator while `guards` guards are held and nothing was wiped.
    pub fn with_guards(guards: usize) -> (allocator: WipingAllocator)
        ensures
            allocator.guards() == guards,
            allocator.wiped() == 0,
    {
        WipingAllocator { wiping_deallocations: guards, wiped_allocation_count: 0 }
    }

    /// The number of blocks that were wiped and released. It starts over when it no longer
    /// fits.
    pub fn wiped_allocation_count(&self) -> (count: usize)
        ensures
            count == self.wiped(),
    {
        self.wiped_allocation_count
    }

    /// Whether a block that is released now is to be wiped.
    pub fn wipes(&self) -> (wipes: bool)
        ensures
            wipes == (self.guards() > 0),
    {
        self.wiping_deallocations > 0
    }

    /// Readies a block for its release.
    pub fn dealloc(&mut self, allocation: &mut [u8])
        ensures
            block_released(*old(self), old(allocation)@, *final(self), final(allocation)@),
    {
        if self.wipes() {
            secure_zero_allocation(allocation);
            self.wiped_allocation_count = self.wiped_allocation_count.wrapping_add(1);
        }
    }

    /// How a block at this alignment is to be resized to `new_size` bytes.
    pub fn realloc(&self, align: usize, new_size: usize) -> (answer: Reallocation)
        requires
            1 <= align <= isize::MAX + 1,
        ensures
            answer == (if self.guards() == 0 {
                Reallocation::Delegate
            } else if layout_exists(new_size, align) {
                Reallocation::Move
            } else {
                Reallocation::Refuse
            }),
    {
        if !self.wipes() {
            return Reallocation::Delegate;
        }
        if new_size <= isize::MAX as usize - (align - 1) {
            Reallocation::Move
        } else {
            Reallocation::Refuse
        }
    }
}

/// A guard is taken.
pub open spec fn guard_taken(before: WipingAllocator, after: WipingAllocator) -> bool {
    after.guards() == before.guards() + 1 && after.wiped() == before.wiped()
}

/// A guard is given back.
pub open spec fn guard_given_back(before: WipingAllocator, after: WipingAllocator) -> bool {
    after.guards() == before.guards() - 1 && after.wiped() == before.wiped()
}

/// A block with the contents `block` is readied for its release and holds `released` then:
/// zeros if a guard is held, and what it held otherwise.
pub open spec fn block_released(
    before: WipingAllocator,
    block: Seq<u8>,
    after: WipingAllocator,
    released: Seq<u8>,
) -> bool {
    &&& after.guards() == before.guards()
    &&& released.len() == block.len()
    &&& if before.guards() > 0 {
        &&& is_wiped(released)
        &&& after.wiped() == before.wiped().wrapping_add(1)
    } else {
        &&& released == block
        &&& after.wiped() == before.wiped()
    }
}

/// Overwrites a block with zeros.
pub fn secure_zero_allocation(allocation: &mut [u8])
    ensures
        final(allocation)@.len() == old(allocation)@.len(),
        is_wiped(final(allocation)@),
{
    let ghost len = allocation@.len();
    let mut offset: usize = 0;
    while offset < allocation.len()
        invariant
            allocation@.len() == len,
            offset <= len,
            forall|i: int| 0 <= i < offset ==> allocation@[i] == 0,
        decreases len - offset,
    {
        allocation[offset] = 0;
        offset += 1;
    }
}

/// The shorter of two lengths.
pub open spec fn common_len(a: nat, b: nat) -> nat {
    if a < b {
        a
    } else {
        b
    }
}

/// Moves the contents of a block to a new one, as far as they fit, and wipes the old one.
pub fn move_allocation(allocation: &mut [u8], new_allocation: &mut [u8])
    ensures
        final(new_allocation)@ == old(allocation)@.take(
            common_len(old(allocation)@.len(), old(new_allocation)@.len()) as int,
        ) + old(new_allocation)@.skip(
            common_len(old(allocation)@.len(), old(new_allocation)@.len()) as int,
        ),
        final(allocation)@.len() == old(allocation)@.len(),
        is_wiped(final(allocation)@),
{
    let ghost old_block = allocation@;
    let ghost new_block = new_allocation@;
    let mut copied: usize = 0;
    while copied < allocation.len() && copied < new_allocation.len()
        invariant
            allocation@ == old_block,
            new_allocation@.len() == new_block.len(),
            copied <= old_block.len(),
            copied <= new_block.len(),
            forall|i: int| 0 <= i < copied ==> new_allocation@[i] == old_block[i],
            forall|i: int| copied <= i < new_block.len() ==> new_allocation@[i] == new_block[i],
        decreases old_block.len() - copied,
    {
        new_allocation[copied] = allocation[copied];
        copied += 1;
    }
    assert(new_allocation@ =~= old_block.take(copied as int) + new_block.skip(copied as int));
    secure_zero_allocation(allocation);
}

/// As long as it is held, every block that is released is wiped.
pub struct WipeDeallocationGuard {
    _private: (),
}

impl WipeDeallocationGuard {
    /// Takes a guard.
    pub fn new(allocator: &mut WipingAllocator) -> (guard: WipeDeallocationGuard)
        requires
            old(allocator).guards() < usize::MAX,
        ensures
            guard_taken(*old(allocator), *final(allocator)),
    {
        allocator.wiping_deallocations = allocator.wiping_deallocations + 1;
        WipeDeallocationGuard { _private: () }
    }

    /// Gives the guard back.
    pub fn release(self, allocator: &mut WipingAllocator)
        requires
            old(allocator).guards() > 0,
        ensures
            guard_given_back(*old(allocator), *final(allocator)),
    {
        allocator.wiping_deallocations = allocator.wiping_deallocations - 1;
    }
}

/// Releases a secret key: a guard is held while `drop_key` releases the blocks of the key, each
/// by way of the allocator that it is handed. A null pointer is passed over.
///
/// What `drop_key` does to the allocator stays, and only the guard is given back: the blocks
/// that it wiped are counted.
pub fn pq_secret_key_free<
    K,
    F: FnOnce(Box<PQSignatureSchemeSecretKey<K>>, &mut WipingAllocator),
>(allocator: &mut WipingAllocator, key: Option<Box<PQSignatureSchemeSecretKey<K>>>, drop_key: F)
    requires
        old(allocator).guards() < usize::MAX,
        forall|secret: Box<PQSignatureSchemeSecretKey<K>>, held: &mut WipingAllocator|
            call_requires(drop_key, (secret, held)),
        forall|secret: Box<PQSignatureSchemeSecretKey<K>>, held: &mut WipingAllocator| #[trigger]
            call_ensures(drop_key, (secret, held), ()) ==> final(held).guards() == held.guards(),
    ensures
        key is None ==> *final(allocator) == *old(allocator),
        key matches Some(secret) ==> exists|held: &mut WipingAllocator|
            {
                &&& guard_taken(*old(allocator), *held)
                &&& #[trigger] call_ensures(drop_key, (secret, held), ())
                &&& guard_given_back(*final(held), *final(allocator))
            },
{
    match key {
        None => {},
        Some(secret) => {
            let guard = WipeDeallocationGuard::new(allocator);
            drop_key(secret, &mut *allocator);
            guard.release(allocator);
        },
    }
}

/// A block that is released while a guard is held is wiped.
pub proof fn law_block_is_wiped_under_guard(
    start: WipingAllocator,
    held: WipingAllocator,
    block: Seq<u8>,
    after: WipingAllocator,
    released: Seq<u8>,
)
    requires
        guard_taken(start, held),
        block_released(held, block, after, released),
    ensures
        is_wiped(released),
        after.wiped() == start.wiped().wrapping_add(1),
{
}

/// The blocks are released one after the other.
pub open spec fn blocks_released(
    before: WipingAllocator,
    blocks: Seq<Seq<u8>>,
    after: WipingAllocator,
    released: Seq<Seq<u8>>,
) -> bool
    decreases blocks.len(),
{
    &&& released.len() == blocks.len()
    &&& if blocks.len() == 0 {
        after == before
    } else {
        exists|next: WipingAllocator|
            {
                &&& #[trigger] block_released(before, blocks[0], next, released[0])
                &&& blocks_released(next, blocks.drop_first(), after, released.drop_first())
            }
    }
}

/// While a guard is held, every one of the blocks is wiped, and each is counted.
proof fn lemma_blocks_are_wiped(
    before: WipingAllocator,
    blocks: Seq<Seq<u8>>,
    after: WipingAllocator,
    released: Seq<Seq<u8>>,
)
    requires
        before.guards() > 0,
        before.wiped() + blocks.len() <= usize::MAX,
        blocks_released(before, blocks, after, released),
    ensures
        after.guards() == before.guards(),
        after.wiped() == before.wiped() + blocks.len(),
        forall|i: int| 0 <= i < released.len() ==> is_wiped(#[trigger] released[i]),
    decreases blocks.len(),
{
    if blocks.len() > 0 {
        let next = choose|next: WipingAllocator|
            {
                &&& #[trigger] block_released(before, blocks[0], next, released[0])
                &&& blocks_released(next, blocks.drop_first(), after, released.drop_first())
            };
        lemma_blocks_are_wiped(next, blocks.drop_first(), after, released.drop_first());
        assert forall|i: int| 0 <= i < released.len() implies is_wiped(#[trigger] released[i]) by {
            if i > 0 {
                assert(released.drop_first()[i - 1] == released[i]);
            }
        }
    }
}

/// Releasing a secret, however many blocks it is made of, wipes every one of them, counts each
/// as long as the count does not start over, and leaves the guards as they were.
pub proof fn law_secret_drop_wipes_every_block(
    start: WipingAllocator,
    held: WipingAllocator,
    blocks: Seq<Seq<u8>>,
    dropped: WipingAllocator,
    released: Seq<Seq<u8>>,
    end: WipingAllocator,
)
    requires
        start.wiped() + blocks.len() <= usize::MAX,
        guard_taken(start, held),
        blocks_released(held, blocks, dropped, released),
        guard_given_back(dropped, end),
    ensures
        forall|i: int| 0 <= i < released.len() ==> is_wiped(#[trigger] released[i]),
        end.guards() == start.guards(),
        end.wiped() == start.wiped() + blocks.len(),
{
    lemma_blocks_are_wiped(held, blocks, dropped, released);
}

/// A block that is released is wiped as long as one of two guards is still held.
pub proof fn law_wiping_lasts_until_the_last_guard(
    start: WipingAllocator,
    first: WipingAllocator,
    second: WipingAllocator,
    one_left: WipingAllocator,
    block: Seq<u8>,
    after: WipingAllocator,
    released: Seq<u8>,
)
    requires
        guard_taken(start, first),
        guard_taken(first, second),
        guard_given_back(second, one_left),
        block_released(one_left, block, after, released),
    ensures
        is_wiped(released),
{
}

/// Taking a guard and giving it back changes nothing, so that blocks that are released
/// afterwards are treated as before.
pub proof fn law_guard_leaves_no_trace(
    start: WipingAllocator,
    held: WipingAllocator,
    end: WipingAllocator,
)
    requires
        guard_taken(start, held),
        guard_given_back(held, end),
    ensures
        end == start,
{
}

} // verus!
