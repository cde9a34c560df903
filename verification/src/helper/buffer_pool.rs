//! The policy of the cache of memory blocks that backs pooled Arrow buffers.
use vstd::prelude::*;

verus! {

/// Most blocks the cache keeps; further released blocks are freed.
pub const MAX_CACHED_BLOCKS: usize = 16;

/// Position of the first cached block of at least `capacity` bytes, if any.
pub open spec fn first_fit<B>(entries: Seq<(usize, B)>, capacity: usize) -> Option<int> {
    if exists|i: int| 0 <= i < entries.len() && entries[i].0 >= capacity {
        Some(
            choose|i: int|
                0 <= i < entries.len() && entries[i].0 >= capacity && forall|j: int|
                    0 <= j < i ==> entries[j].0 < capacity,
        )
    } else {
        None
    }
}

/// A cache of released memory blocks, each with its size in bytes.
pub struct BlockCache<B> {
    entries: Vec<(usize, B)>,
}

impl<B> View for BlockCache<B> {
    type V = Seq<(usize, B)>;

    closed spec fn view(&self) -> Seq<(usize, B)> {
        self.entries@
    }
}

impl<B> BlockCache<B> {
    /// Creates an empty cache.
    pub fn new() -> (c: Self)
        ensures
            c@ == Seq::<(usize, B)>::empty(),
    {
        BlockCache { entries: Vec::new() }
    }

    /// The number of cached blocks.
    pub fn len(&self) -> (n: usize)
        ensures
            n == self@.len(),
    {
        self.entries.len()
    }

    /// Takes out the first cached block of at least `capacity` bytes; the last cached
    /// block takes its place. Returns `None`, leaving the cache as it is, when no cached
    /// block is large enough.
    pub fn acquire_block(&mut self, capacity: usize) -> (r: Option<B>)
        ensures
            match first_fit(old(self)@, capacity) {
                Some(i) => r == Some(old(self)@[i].1) && final(self)@ == old(self)@.update(
                    i,
                    old(self)@.last(),
                ).drop_last(),
                None => r is None && final(self)@ == old(self)@,
            },
            final(self)@.len() <= old(self)@.len(),
    {
        let mut i: usize = 0;
        while i < self.entries.len()
            invariant
                0 <= i <= self.entries@.len(),
                self.entries@ == old(self)@,
                forall|j: int| 0 <= j < i ==> self.entries@[j].0 < capacity,
            decreases self.entries@.len() - i,
        {
            if self.entries[i].0 >= capacity {
                proof {
                    let k = i as int;
                    assert(0 <= k < old(self)@.len() && old(self)@[k].0 >= capacity && forall|
                        j: int,
                    |
                        0 <= j < k ==> old(self)@[j].0 < capacity);
                    let c = choose|c: int|
                        0 <= c < old(self)@.len() && old(self)@[c].0 >= capacity && forall|j: int|
                            0 <= j < c ==> old(self)@[j].0 < capacity;
                    assert(c == k) by {
                        if c < k {
                        } else if c > k {
                            assert(old(self)@[k].0 < capacity);
                        }
                    }
                }
                let (_, block) = self.entries.swap_remove(i);
                return Some(block);
            }
            i += 1;
        }
        None
    }

    /// Keeps a released block of `size` bytes while the cache holds fewer than
    /// `MAX_CACHED_BLOCKS` blocks; otherwise the block is dropped and freed.
    pub fn release_block(&mut self, size: usize, block: B)
        ensures
            old(self)@.len() < MAX_CACHED_BLOCKS ==> final(self)@ == old(self)@.push((size, block)),
            old(self)@.len() >= MAX_CACHED_BLOCKS ==> final(self)@ == old(self)@,
            old(self)@.len() <= MAX_CACHED_BLOCKS ==> final(self)@.len() <= MAX_CACHED_BLOCKS,
    {
        if self.entries.len() < MAX_CACHED_BLOCKS {
            self.entries.push((size, block));
        }
    }
}

} // verus!
