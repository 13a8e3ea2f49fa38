//! A byte reservoir that the state machines parse from.
//!
//! The driver copies bytes in at the write end, the machines consume them at
//! the read end, and a persistent counter remembers how many bytes have been
//! filled since the last reset so that buffer offsets can be translated back
//! into file offsets.

use vstd::prelude::*;

verus! {

/// A contiguous byte container with a capacity fixed at construction.
///
/// `position` is the first unread byte, `end` is one past the last written
/// byte, and `read_bytes` counts every byte ever filled since the last
/// [`Buffer::reset`].  The unread window is `buf[position..end]`.
pub struct Buffer {
    /// Backing storage; its length is the capacity and never changes.
    pub buf: Vec<u8>,
    /// Index of the first unread byte.
    pub position: usize,
    /// One past the index of the last written byte.
    pub end: usize,
    /// Total bytes filled since construction or the last reset.
    pub read_bytes: u64,
}

impl Buffer {
    /// Structural invariant: the two indices stay within the storage.
    pub open spec fn wf(self) -> bool {
        self.position <= self.end <= self.buf@.len()
    }

    /// The capacity chosen at construction.
    pub open spec fn cap(self) -> int {
        self.buf@.len() as int
    }

    /// The unread bytes, in order.
    pub open spec fn data(self) -> Seq<u8> {
        self.buf@.subrange(self.position as int, self.end as int)
    }

    /// How much free space the write end has.
    pub open spec fn space_len(self) -> int {
        self.cap() - self.end
    }

    /// Creates a buffer of the given capacity, empty, with the read counter
    /// at zero.
    pub fn with_capacity(cap: usize) -> (r: Buffer)
        ensures
            r.wf(),
            r.cap() == cap,
            r.data() == Seq::<u8>::empty(),
            r.position == 0,
            r.read_bytes == 0,
    {
        let r = Buffer { buf: vec![0u8; cap], position: 0, end: 0, read_bytes: 0 };
        proof {
            assert(r.data() =~= Seq::<u8>::empty());
        }
        r
    }

    /// Empties the buffer and zeroes the read counter.
    pub fn reset(&mut self)
        requires
            old(self).wf(),
        ensures
            final(self).wf(),
            final(self).cap() == old(self).cap(),
            final(self).data() == Seq::<u8>::empty(),
            final(self).position == 0,
            final(self).read_bytes == 0,
    {
        self.position = 0;
        self.end = 0;
        self.read_bytes = 0;
        proof {
            assert(self.data() =~= Seq::<u8>::empty());
        }
    }

    /// The number of bytes filled since the last reset.
    pub fn read_bytes(&self) -> (r: u64)
        ensures
            r == self.read_bytes,
    {
        self.read_bytes
    }

    /// How many unread bytes the buffer holds.
    pub fn available_data(&self) -> (r: usize)
        requires
            self.wf(),
        ensures
            r == self.data().len(),
    {
        self.end - self.position
    }

    /// How many bytes can still be written before the buffer is full.
    pub fn available_space(&self) -> (r: usize)
        requires
            self.wf(),
        ensures
            r == self.space_len(),
    {
        self.buf.len() - self.end
    }

    /// Moves the unread window down to the start of the storage, so that the
    /// space freed by consumption can be filled again.
    pub fn shift(&mut self)
        requires
            old(self).wf(),
        ensures
            final(self).wf(),
            final(self).cap() == old(self).cap(),
            final(self).data() == old(self).data(),
            final(self).read_bytes == old(self).read_bytes,
            final(self).position == 0,
    {
        let n = self.end - self.position;
        let mut i: usize = 0;
        while i < n
            invariant
                self.position + n == self.end <= self.buf@.len(),
                i <= n,
                self.buf@.len() == old(self).buf@.len(),
                self.position == old(self).position,
                self.end == old(self).end,
                self.read_bytes == old(self).read_bytes,
                forall|j: int| 0 <= j < i ==> self.buf@[j] == old(self).data()[j],
                forall|j: int|
                    self.position + i <= j < self.buf@.len() ==> self.buf@[j] == old(self).buf@[j],
            decreases n - i,
        {
            let b = self.buf[self.position + i];
            self.buf[i] = b;
            i += 1;
        }
        self.position = 0;
        self.end = n;
        proof {
            assert(self.data() =~= old(self).data());
        }
    }

    /// Copies up to `limit` bytes from the start of `src` into the free
    /// space, and returns how many were actually taken: the least of `limit`,
    /// `src.len()`, and the free space.  The read counter advances by the
    /// same amount.
    pub fn fill(&mut self, src: &[u8], limit: usize) -> (n: usize)
        requires
            old(self).wf(),
            old(self).read_bytes + limit <= u64::MAX,
        ensures
            final(self).wf(),
            final(self).cap() == old(self).cap(),
            n == vstd::math::min(
                vstd::math::min(limit as int, src@.len() as int),
                old(self).space_len(),
            ),
            final(self).data() == old(self).data() + src@.subrange(0, n as int),
            final(self).read_bytes == old(self).read_bytes + n,
            final(self).position == old(self).position,
    {
        let mut n = src.len();
        if limit < n {
            n = limit;
        }
        let space = self.buf.len() - self.end;
        if space < n {
            n = space;
        }
        let mut i: usize = 0;
        while i < n
            invariant
                self.end + n <= self.buf@.len(),
                self.end + n <= usize::MAX,
                n <= src@.len(),
                n <= limit,
                i <= n,
                self.buf@.len() == old(self).buf@.len(),
                self.position == old(self).position,
                self.end == old(self).end,
                self.read_bytes == old(self).read_bytes,
                self.position <= self.end,
                forall|j: int| 0 <= j < self.end ==> self.buf@[j] == old(self).buf@[j],
                forall|j: int| 0 <= j < i ==> self.buf@[self.end + j] == src@[j],
            decreases n - i,
        {
            let b = src[i];
            self.buf[self.end + i] = b;
            i += 1;
        }
        self.end = self.end + n;
        self.read_bytes = self.read_bytes + n as u64;
        proof {
            assert(self.data() =~= old(self).data() + src@.subrange(0, n as int));
        }
        n
    }

    /// Drops the first `n` unread bytes.
    pub fn consume(&mut self, n: usize)
        requires
            old(self).wf(),
            n <= old(self).data().len(),
        ensures
            final(self).wf(),
            final(self).cap() == old(self).cap(),
            final(self).data() == old(self).data().skip(n as int),
            final(self).read_bytes == old(self).read_bytes,
    {
        self.position = self.position + n;
        proof {
            assert(self.data() =~= old(self).data().skip(n as int));
        }
    }

    /// Copies the unread window out as an owned vector.
    pub fn data_to_vec(&self) -> (v: Vec<u8>)
        requires
            self.wf(),
        ensures
            v@ == self.data(),
    {
        let s = vstd::slice::slice_subrange(self.buf.as_slice(), self.position, self.end);
        vstd::slice::slice_to_vec(s)
    }

    /// Translates a target file offset into the offset the driver should
    /// read from next, accounting for the bytes already absorbed since the
    /// last reset.
    pub fn read_offset(&self, offset: u64) -> (r: u64)
        requires
            self.read_bytes + offset <= u64::MAX,
        ensures
            r == self.read_bytes + offset,
    {
        self.read_bytes + offset
    }
}

} // verus!
