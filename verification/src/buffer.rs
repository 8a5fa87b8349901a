//! A double buffer over two fixed-size byte pages.
//!
//! One page is readable, the other writable. Each page is a contiguous
//! region, so readers and writers always see a contiguous slice of bytes
//! and no wraparound arithmetic is needed. When the reader has drained its
//! page and the writer holds data (or the writer's page is full and the
//! reader is drained), the two pages exchange roles: a "flip".
//!
//! Viewed abstractly, the buffer is a bounded FIFO queue of bytes: the
//! readable window followed by the bytes written since the last flip.

use vstd::prelude::*;

verus! {

/// A fixed-capacity double buffer of bytes.
///
/// Bytes enter through [`FlipBuffer::with_write`] and leave, in the same
/// order, through [`FlipBuffer::with_read`] and [`FlipBuffer::consume`].
/// At most `capacity` bytes can sit unread on each page, so at most
/// `2 * capacity` bytes are held at any time.
pub struct FlipBuffer {
    read_page: Vec<u8>,
    write_page: Vec<u8>,
    read_cursor: usize,
    read_max: usize,
    write_cursor: usize,
}

impl View for FlipBuffer {
    type V = Seq<u8>;

    /// The bytes currently held, oldest first: the readable window of the
    /// read page followed by everything written to the write page.
    closed spec fn view(&self) -> Seq<u8> {
        self.read_page@.subrange(self.read_cursor as int, self.read_max as int)
            + self.write_page@.subrange(0, self.write_cursor as int)
    }
}

impl FlipBuffer {
    /// The size of each page: the most that one flip can hand over.
    pub closed spec fn capacity(self) -> nat {
        self.read_page@.len()
    }

    /// Well-formedness: both pages have the same length and every cursor
    /// stays inside its page.
    pub closed spec fn wf(self) -> bool {
        &&& self.write_page@.len() == self.read_page@.len()
        &&& self.read_cursor <= self.read_max
        &&& self.read_max <= self.read_page@.len()
        &&& self.write_cursor <= self.write_page@.len()
    }

    /// How many bytes are readable without a flip.
    pub closed spec fn readable_len(self) -> nat {
        (self.read_max - self.read_cursor) as nat
    }

    /// How many bytes sit on the write page, not yet handed to the reader.
    pub closed spec fn pending_len(self) -> nat {
        self.write_cursor as nat
    }

    /// Whether a read request flips first: the readable window is empty
    /// and the write page holds data to hand over.
    pub open spec fn read_flips(self) -> bool {
        self.readable_len() == 0 && self.pending_len() > 0
    }

    /// Whether a write request flips first: the write page is full and
    /// the readable window is drained, so the read page can be reclaimed.
    pub open spec fn write_flips(self) -> bool {
        self.pending_len() == self.capacity() && self.readable_len() == 0
    }

    /// The length of the readable window that a read request will see:
    /// the current window, or, when it is empty, whatever a flip of the
    /// write page would hand over.
    pub open spec fn read_ready_len(self) -> nat {
        if self.read_flips() {
            self.pending_len()
        } else {
            self.readable_len()
        }
    }

    /// How many bytes the next write request may accept: the rest of the
    /// write page, or a whole fresh page when the write page is full and
    /// the readable window is drained, so that a flip reclaims it.
    pub open spec fn spec_write_space(self) -> nat {
        if self.write_flips() {
            self.capacity()
        } else {
            (self.capacity() - self.pending_len()) as nat
        }
    }

    /// Law: buffering is bounded. The held bytes are exactly the readable
    /// window followed by the pending bytes, so the buffer never holds
    /// more than two pages' worth of unread data: no unbounded queuing.
    pub proof fn lemma_bounded_contents(self)
        requires
            self.wf(),
        ensures
            self@.len() == self.readable_len() + self.pending_len(),
            self@.len() <= 2 * self.capacity(),
    {
    }

    /// Law: bytes are conserved, in order. A write appends the accepted
    /// bytes whole to the back of the held sequence and a read takes them
    /// from the front, so splitting the held bytes at any consumption
    /// point loses and duplicates nothing: what a reader has consumed and
    /// what is still held together make up exactly what was written in.
    pub proof fn lemma_byte_conservation(held: Seq<u8>, accepted: Seq<u8>, consumed: int)
        requires
            0 <= consumed <= held.len(),
        ensures
            (held + accepted).take(held.len() as int) == held,
            (held + accepted).skip(held.len() as int) == accepted,
            held.take(consumed) + held.skip(consumed) == held,
    {
        assert((held + accepted).take(held.len() as int) =~= held);
        assert((held + accepted).skip(held.len() as int) =~= accepted);
        assert(held.take(consumed) + held.skip(consumed) =~= held);
    }

    /// Law: the capacity gates writes. While the write page has room, a
    /// write may fill exactly that room; once the page holds `capacity`
    /// bytes, not one more byte is accepted until the readable window is
    /// drained, whereupon a flip reclaims a whole page.
    pub proof fn lemma_capacity_gate(self)
        requires
            self.wf(),
        ensures
            self.pending_len() < self.capacity() ==> self.spec_write_space()
                == self.capacity() - self.pending_len(),
            self.pending_len() == self.capacity() && self.readable_len() > 0
                ==> self.spec_write_space() == 0,
            self.pending_len() == self.capacity() && self.readable_len() == 0
                ==> self.spec_write_space() == self.capacity(),
    {
    }

    /// Creates an empty buffer whose pages each hold `capacity` bytes.
    pub fn new(capacity: usize) -> (r: FlipBuffer)
        ensures
            r.wf(),
            r@ == Seq::<u8>::empty(),
            r.capacity() == capacity,
            r.readable_len() == 0,
            r.pending_len() == 0,
    {
        let r = FlipBuffer {
            read_page: vec![0u8; capacity],
            write_page: vec![0u8; capacity],
            read_cursor: 0,
            read_max: 0,
            write_cursor: 0,
        };
        proof {
            assert(r@ =~= Seq::<u8>::empty());
        }
        r
    }

    /// Exchanges the roles of the two pages. The write page becomes
    /// readable, bounded by how far the writer got; the read page becomes
    /// writable from offset zero. Only legal once the reader has drained
    /// its window, so no unread byte is ever lost.
    fn flip_buffers(&mut self)
        requires
            old(self).wf(),
            old(self).readable_len() == 0,
        ensures
            final(self).wf(),
            final(self)@ == old(self)@,
            final(self).capacity() == old(self).capacity(),
            final(self).readable_len() == old(self).pending_len(),
            final(self).pending_len() == 0,
    {
        let written = self.write_cursor;
        self.read_cursor = 0;
        self.read_max = written;
        self.write_cursor = 0;
        core::mem::swap(&mut self.read_page, &mut self.write_page);
        proof {
            assert(self@ =~= old(self)@);
        }
    }

    /// A read request: returns a copy of the readable window, flipping
    /// first when the window is empty and the write page holds data. The
    /// returned bytes are the oldest bytes held; nothing is consumed until
    /// [`FlipBuffer::consume`] is called.
    pub fn with_read(&mut self) -> (r: Vec<u8>)
        requires
            old(self).wf(),
        ensures
            final(self).wf(),
            final(self)@ == old(self)@,
            final(self).capacity() == old(self).capacity(),
            r@.len() == old(self).read_ready_len(),
            final(self).readable_len() == r@.len(),
            final(self).pending_len() == if old(self).read_flips() {
                0
            } else {
                old(self).pending_len()
            },
            r@ == final(self)@.take(r@.len() as int),
    {
        if self.read_cursor == self.read_max && self.write_cursor > 0 {
            self.flip_buffers();
        }
        let mut r: Vec<u8> = Vec::new();
        let mut i = self.read_cursor;
        while i < self.read_max
            invariant
                self.wf(),
                self.read_cursor <= i <= self.read_max,
                r@ == self.read_page@.subrange(self.read_cursor as int, i as int),
            decreases self.read_max - i,
        {
            let b = self.read_page[i];
            r.push(b);
            i = i + 1;
            proof {
                assert(r@ =~= self.read_page@.subrange(self.read_cursor as int, i as int));
            }
        }
        proof {
            assert(r@ =~= self@.take(r@.len() as int));
        }
        r
    }

    /// Removes `amount` bytes from the front of the readable window, after
    /// a caller of [`FlipBuffer::with_read`] has disposed of that many.
    /// Claiming more than the window holds is a contract violation, not an
    /// accepted input.
    pub fn consume(&mut self, amount: usize)
        requires
            old(self).wf(),
            amount <= old(self).readable_len(),
        ensures
            final(self).wf(),
            final(self)@ == old(self)@.skip(amount as int),
            final(self).capacity() == old(self).capacity(),
            final(self).readable_len() == old(self).readable_len() - amount,
            final(self).pending_len() == old(self).pending_len(),
    {
        self.read_cursor = self.read_cursor + amount;
        proof {
            assert(self@ =~= old(self)@.skip(amount as int));
        }
    }

    /// A write request: appends as much of `data` as the write page can
    /// take, flipping first when the page is full and the readable window
    /// is drained. Returns how many bytes were accepted; the rest must
    /// wait until the reader drains and a flip reclaims the other page.
    pub fn with_write(&mut self, data: &[u8]) -> (n: usize)
        requires
            old(self).wf(),
        ensures
            final(self).wf(),
            final(self).capacity() == old(self).capacity(),
            n == if data@.len() <= old(self).spec_write_space() {
                data@.len()
            } else {
                old(self).spec_write_space()
            },
            final(self)@ == old(self)@ + data@.take(n as int),
            final(self).readable_len() == if old(self).write_flips() {
                old(self).capacity()
            } else {
                old(self).readable_len()
            },
            final(self).pending_len() == if old(self).write_flips() {
                n as int
            } else {
                old(self).pending_len() + n
            },
    {
        if self.write_cursor == self.write_page.len() && self.read_cursor == self.read_max {
            self.flip_buffers();
        }
        let space = self.write_page.len() - self.write_cursor;
        let n = if data.len() <= space {
            data.len()
        } else {
            space
        };
        let ghost mid = *self;
        let mut i: usize = 0;
        while i < n
            invariant
                mid.wf(),
                self.read_page == mid.read_page,
                self.read_cursor == mid.read_cursor,
                self.read_max == mid.read_max,
                self.write_page@.len() == mid.write_page@.len(),
                i <= n,
                n <= data@.len(),
                mid.write_cursor + n <= mid.write_page@.len(),
                mid.write_cursor + n <= usize::MAX,
                self.write_cursor == mid.write_cursor + i,
                forall|j: int|
                    0 <= j < mid.write_cursor ==> self.write_page@[j] == mid.write_page@[j],
                forall|j: int|
                    0 <= j < i ==> self.write_page@[mid.write_cursor + j] == data@[j],
            decreases n - i,
        {
            let c = self.write_cursor;
            self.write_page[c] = data[i];
            self.write_cursor = c + 1;
            i = i + 1;
        }
        proof {
            assert(self@ =~= mid@ + data@.take(n as int));
        }
        n
    }

    /// How many bytes the next [`FlipBuffer::with_write`] call may accept.
    pub fn write_space(&self) -> (n: usize)
        requires
            self.wf(),
        ensures
            n == self.spec_write_space(),
    {
        if self.write_cursor == self.write_page.len() && self.read_cursor == self.read_max {
            self.write_page.len()
        } else {
            self.write_page.len() - self.write_cursor
        }
    }
}

} // verus!
