//! Fixed-capacity byte queue between the serial receiver and the command loop.
//!
//! One slot of the backing array always stays free, so that an empty queue
//! (`head == tail`) can be told from a full one. A byte offered to a full queue
//! is dropped; bytes already queued are never overwritten. No call blocks or
//! allocates. Both ends of the queue are reached through exclusive access: an
//! embedding that fills it from an interrupt handler has to keep that handler
//! from running while the command loop takes bytes out.

use vstd::prelude::*;

verus! {

/// Number of slots in the backing array.
pub const UART_BUF_SIZE: usize = 256;

/// What a full queue holds: one byte less than there are slots.
pub open spec fn capacity() -> nat {
    (UART_BUF_SIZE - 1) as nat
}

/// The queue after `byte` is offered to it: appended, or dropped when the queue is full.
pub open spec fn after_push(queue: Seq<u8>, byte: u8) -> Seq<u8> {
    if queue.len() < capacity() {
        queue.push(byte)
    } else {
        queue
    }
}

/// The queue after its oldest byte, if any, is taken.
pub open spec fn after_pop(queue: Seq<u8>) -> Seq<u8> {
    if queue.len() > 0 {
        queue.drop_first()
    } else {
        queue
    }
}

/// The byte that a pop takes from `queue`.
pub open spec fn popped(queue: Seq<u8>) -> Option<u8> {
    if queue.len() > 0 {
        Some(queue.first())
    } else {
        None
    }
}

/// The queue after every byte of `bytes` is offered to it in order.
pub open spec fn after_push_all(queue: Seq<u8>, bytes: Seq<u8>) -> Seq<u8>
    decreases bytes.len(),
{
    if bytes.len() == 0 {
        queue
    } else {
        after_push(after_push_all(queue, bytes.drop_last()), bytes.last())
    }
}

/// Index of the slot that lies `offset` places after slot `start`.
spec fn slot_after(start: int, offset: int) -> int {
    if start + offset < UART_BUF_SIZE {
        start + offset
    } else {
        start + offset - UART_BUF_SIZE
    }
}

/// Byte queue over a fixed array, with `head` the next slot to write and
/// `tail` the next slot to read.
pub struct RingBuffer {
    buf: [u8; UART_BUF_SIZE],
    head: usize,
    tail: usize,
}

impl View for RingBuffer {
    type V = Seq<u8>;

    /// The queued bytes, oldest first.
    closed spec fn view(&self) -> Seq<u8> {
        Seq::new(self.count(), |i: int| self.buf@[slot_after(self.tail as int, i)])
    }
}

impl RingBuffer {
    #[verifier::type_invariant]
    spec fn indices_in_range(&self) -> bool {
        self.head < UART_BUF_SIZE && self.tail < UART_BUF_SIZE
    }

    spec fn count(&self) -> nat {
        if self.head >= self.tail {
            (self.head - self.tail) as nat
        } else {
            (self.head + UART_BUF_SIZE - self.tail) as nat
        }
    }

    /// An empty queue.
    pub fn new() -> (ring: Self)
        ensures
            ring@ == Seq::<u8>::empty(),
    {
        RingBuffer { buf: [0u8; UART_BUF_SIZE], head: 0, tail: 0 }
    }

    /// Number of queued bytes.
    pub fn len(&self) -> (n: usize)
        ensures
            n == self@.len(),
            n <= capacity(),
    {
        proof {
            use_type_invariant(self);
        }
        if self.head >= self.tail {
            self.head - self.tail
        } else {
            self.head + UART_BUF_SIZE - self.tail
        }
    }

    /// Whether nothing is queued.
    pub fn is_empty(&self) -> (empty: bool)
        ensures
            empty == (self@.len() == 0),
    {
        proof {
            use_type_invariant(self);
        }
        self.head == self.tail
    }

    /// Whether the next byte offered would be dropped.
    pub fn is_full(&self) -> (full: bool)
        ensures
            full == (self@.len() == capacity()),
    {
        proof {
            use_type_invariant(self);
        }
        (self.head + 1) % UART_BUF_SIZE == self.tail
    }

    /// Offers `byte` to the queue. A full queue drops it and stays as it was;
    /// the result says whether the byte was stored.
    pub fn push(&mut self, byte: u8) -> (stored: bool)
        ensures
            stored == (old(self)@.len() < capacity()),
            final(self)@ == after_push(old(self)@, byte),
            final(self)@.len() <= capacity(),
    {
        proof {
            use_type_invariant(&*self);
        }
        let head = self.head;
        let next = (head + 1) % UART_BUF_SIZE;
        if next != self.tail {
            self.buf[head] = byte;
            self.head = next;
            true
        } else {
            false
        }
    }

    /// Takes the oldest queued byte, or `None` from an empty queue.
    pub fn pop(&mut self) -> (byte: Option<u8>)
        ensures
            byte == popped(old(self)@),
            final(self)@ == after_pop(old(self)@),
            final(self)@.len() <= capacity(),
    {
        proof {
            use_type_invariant(&*self);
        }
        let tail = self.tail;
        if tail != self.head {
            let byte = self.buf[tail];
            self.tail = (tail + 1) % UART_BUF_SIZE;
            Some(byte)
        } else {
            None
        }
    }
}

/// One call on the queue.
pub enum RingOp {
    Push(u8),
    Pop,
}

/// The queue after the calls `ops` are made on it in order.
pub open spec fn after_ops(queue: Seq<u8>, ops: Seq<RingOp>) -> Seq<u8>
    decreases ops.len(),
{
    if ops.len() == 0 {
        queue
    } else {
        let before = after_ops(queue, ops.drop_last());
        match ops.last() {
            RingOp::Push(byte) => after_push(before, byte),
            RingOp::Pop => after_pop(before),
        }
    }
}

/// The bytes that the pushes among `ops` store, in the order of the pushes.
pub open spec fn stored_by(queue: Seq<u8>, ops: Seq<RingOp>) -> Seq<u8>
    decreases ops.len(),
{
    if ops.len() == 0 {
        Seq::empty()
    } else {
        let earlier = stored_by(queue, ops.drop_last());
        match ops.last() {
            RingOp::Push(byte) => if after_ops(queue, ops.drop_last()).len() < capacity() {
                earlier.push(byte)
            } else {
                earlier
            },
            RingOp::Pop => earlier,
        }
    }
}

/// The bytes that the pops among `ops` return, in the order of the pops.
pub open spec fn popped_by(queue: Seq<u8>, ops: Seq<RingOp>) -> Seq<u8>
    decreases ops.len(),
{
    if ops.len() == 0 {
        Seq::empty()
    } else {
        let earlier = popped_by(queue, ops.drop_last());
        match ops.last() {
            RingOp::Push(_) => earlier,
            RingOp::Pop => match popped(after_ops(queue, ops.drop_last())) {
                Some(byte) => earlier.push(byte),
                None => earlier,
            },
        }
    }
}

/// First in, first out: however pushes and pops are mixed, the bytes that the
/// pops return, followed by the bytes still queued, are the bytes queued at the
/// start followed by the bytes that the pushes stored, in the order of the pushes.
pub proof fn lemma_pops_follow_push_order(queue: Seq<u8>, ops: Seq<RingOp>)
    ensures
        popped_by(queue, ops) + after_ops(queue, ops) == queue + stored_by(queue, ops),
    decreases ops.len(),
{
    if ops.len() > 0 {
        lemma_pops_follow_push_order(queue, ops.drop_last());
        let before = after_ops(queue, ops.drop_last());
        let stored_before = stored_by(queue, ops.drop_last());
        if let RingOp::Push(byte) = ops.last() {
            if before.len() < capacity() {
                assert(queue + stored_before.push(byte) =~= (queue + stored_before).push(byte));
            }
        }
    }
}

/// A run of pushes stores the bytes that fit, in order, and drops the rest.
pub proof fn lemma_push_all_stores_what_fits(queue: Seq<u8>, bytes: Seq<u8>)
    requires
        queue.len() <= capacity(),
    ensures
        bytes.len() <= capacity() - queue.len() ==> after_push_all(queue, bytes) == queue + bytes,
        bytes.len() > capacity() - queue.len() ==> after_push_all(queue, bytes) == queue
            + bytes.take(capacity() - queue.len()),
    decreases bytes.len(),
{
    if bytes.len() > 0 {
        lemma_push_all_stores_what_fits(queue, bytes.drop_last());
    }
}

/// One byte more than an empty queue can hold: the last byte is dropped, and
/// all bytes before it are queued in order.
pub proof fn lemma_one_push_too_many_drops_the_last(bytes: Seq<u8>)
    requires
        bytes.len() == capacity() + 1,
    ensures
        after_push_all(Seq::empty(), bytes.drop_last()) == bytes.drop_last(),
        after_push_all(Seq::empty(), bytes) == bytes.drop_last(),
{
    lemma_push_all_stores_what_fits(Seq::empty(), bytes.drop_last());
    lemma_push_all_stores_what_fits(Seq::empty(), bytes);
}

} // verus!
