//! The zero device: reads give zero bytes, writes are discarded.
use vstd::prelude::*;

verus! {

/// What a poll of a device reports.
#[derive(Debug, Clone, Copy, PartialEq, Eq, Structural)]
pub struct PollStatus {
    pub read: bool,
    pub write: bool,
    pub error: bool,
}

/// The inode of the zero device.
#[derive(Debug, Clone, Copy, PartialEq, Eq, Structural)]
pub struct ZeroINode {
    pub id: u64,
}

impl ZeroINode {
    /// A zero device numbered from the inode counter `next_id`, which moves on
    /// by one (wrapping).
    pub fn new(next_id: &mut u64) -> (r: Self)
        ensures
            r.id == *old(next_id),
            *final(next_id) == (if *old(next_id) == u64::MAX { 0 } else { (*old(next_id) + 1) as u64 }),
    {
        let id = *next_id;
        *next_id = if id == u64::MAX { 0 } else { id + 1 };
        ZeroINode { id }
    }

    /// Fills `buf` with zeros, whatever the offset, and returns its length.
    pub fn read_at(&self, offset: usize, buf: &mut [u8]) -> (r: usize)
        ensures
            r == old(buf)@.len(),
            final(buf)@ == Seq::new(old(buf)@.len(), |i: int| 0u8),
    {
        let n = buf.len();
        let mut i: usize = 0;
        while i < n
            invariant
                n == buf@.len(),
                n == old(buf)@.len(),
                i <= n,
                forall|j: int| 0 <= j < i ==> buf@[j] == 0u8,
            decreases n - i,
        {
            buf[i] = 0;
            i = i + 1;
        }
        assert(buf@ =~= Seq::new(old(buf)@.len(), |i: int| 0u8));
        n
    }

    /// Discards the write: nothing is written.
    pub fn write_at(&self, offset: usize, buf: &[u8]) -> (r: usize)
        ensures
            r == 0,
    {
        0
    }

    /// Always readable, never writable, no error.
    pub fn poll(&self) -> (r: PollStatus)
        ensures
            r == (PollStatus { read: true, write: false, error: false }),
    {
        PollStatus { read: true, write: false, error: false }
    }
}

} // verus!
