//! The memory arena backing one layout session.
//!
//! A session owns exactly one arena: a contiguous byte block allocated at
//! construction time, sized by the engine's minimum-memory query, and released
//! exactly once when the session is dropped (the block is a privately owned
//! `Vec<u8>`, so Rust's ownership discipline rules out double release or
//! use after release by construction).
//!
//! During a declaration pass the arena is consumed as a bump allocator: each
//! declared element reserves a fixed-size record.  `begin` resets the bump
//! cursor, reusing the block for the next pass.

use vstd::prelude::*;

verus! {

/// The maximum number of elements one declaration pass may open.
pub const MAX_ELEMENT_COUNT: usize = 1024;

/// The bytes of arena storage one declared element reserves.
pub const ELEMENT_RECORD_BYTES: usize = 64;

/// The byte count the sizing query reports: enough for a full pass of up to
/// `MAX_ELEMENT_COUNT` elements.
pub open spec fn spec_min_memory_size() -> nat {
    (MAX_ELEMENT_COUNT * ELEMENT_RECORD_BYTES) as nat
}

/// The engine's memory-sizing query: the minimum number of bytes an arena
/// must hold so that any declaration pass within the element budget
/// completes without overflowing the block.
pub fn min_memory_size() -> (n: usize)
    ensures
        n == spec_min_memory_size(),
{
    MAX_ELEMENT_COUNT * ELEMENT_RECORD_BYTES
}

/// One pre-sized memory block owning all working storage for one layout
/// universe, consumed by bump allocation during a pass.
pub struct Arena {
    bytes: Vec<u8>,
    used: usize,
}

impl Arena {
    /// The size of the owned block, fixed at creation.
    pub closed spec fn capacity(self) -> nat {
        self.bytes@.len()
    }

    /// The bytes reserved so far in the current pass.
    pub closed spec fn used(self) -> nat {
        self.used as nat
    }

    /// Allocates a zeroed block of exactly `size` bytes with the bump cursor
    /// at the start.
    pub fn create(size: usize) -> (a: Arena)
        ensures
            a.capacity() == size,
            a.used() == 0,
    {
        let mut bytes: Vec<u8> = Vec::new();
        while bytes.len() < size
            invariant
                bytes@.len() <= size,
            decreases size - bytes.len(),
        {
            bytes.push(0);
        }
        Arena { bytes, used: 0 }
    }

    /// Moves the bump cursor back to the start of the block, repurposing the
    /// storage for a fresh pass.
    pub fn reset(&mut self)
        ensures
            final(self).capacity() == old(self).capacity(),
            final(self).used() == 0,
    {
        self.used = 0;
    }

    /// Reserves `n` more bytes of the block.
    pub fn bump(&mut self, n: usize)
        requires
            old(self).used() + n <= old(self).capacity(),
        ensures
            final(self).capacity() == old(self).capacity(),
            final(self).used() == old(self).used() + n,
    {
        let cap = self.bytes.len();
        self.used = self.used + n;
    }
}

} // verus!
