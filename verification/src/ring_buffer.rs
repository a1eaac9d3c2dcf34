//! Fixed-capacity circular queue of decoded bytes.
//!
//! The queue never allocates and never blocks. When it is full a new byte is
//! dropped: data that has not been read yet is never overwritten.

use vstd::prelude::*;

verus! {

/// Number of slots in the ring. One slot always stays free so that a full
/// queue can be told from an empty one; at most `BUFFER_SIZE - 1` bytes are
/// queued at any time.
pub const BUFFER_SIZE: usize = 128;

/// The queue after one `write` of `data`: the byte goes to the back, unless
/// `BUFFER_SIZE - 1` bytes are queued already.
pub open spec fn after_write(queue: Seq<u8>, data: u8) -> Seq<u8> {
    if queue.len() < BUFFER_SIZE - 1 {
        queue.push(data)
    } else {
        queue
    }
}

/// The byte that one `read` returns: the oldest one, if there is any.
pub open spec fn next_unit(queue: Seq<u8>) -> Option<u8> {
    if queue.len() == 0 {
        None
    } else {
        Some(queue[0])
    }
}

/// The queue after one `read`.
pub open spec fn after_read(queue: Seq<u8>) -> Seq<u8> {
    if queue.len() == 0 {
        queue
    } else {
        queue.skip(1)
    }
}

/// The queue after writing every byte of `units`, first to last.
pub open spec fn after_writes(queue: Seq<u8>, units: Seq<u8>) -> Seq<u8>
    decreases units.len(),
{
    if units.len() == 0 {
        queue
    } else {
        after_write(after_writes(queue, units.drop_last()), units.last())
    }
}

/// The queue after `count` reads.
pub open spec fn after_reads(queue: Seq<u8>, count: nat) -> Seq<u8>
    decreases count,
{
    if count == 0 {
        queue
    } else {
        after_read(after_reads(queue, (count - 1) as nat))
    }
}

/// A circular FIFO queue of bytes with a fixed number of slots.
///
/// `head` is the index of the next byte to read and `tail` the index of the
/// next slot to fill. The queue is empty when the two are equal, and full
/// when `tail` is one step behind `head`.
pub struct RingBuffer {
    head: usize,
    tail: usize,
    inner: [u8; BUFFER_SIZE],
}

impl View for RingBuffer {
    type V = Seq<u8>;

    /// The queued bytes, oldest first.
    closed spec fn view(&self) -> Seq<u8> {
        Seq::new(self.occupancy(), |i: int| self.inner@[(self.head + i) % (BUFFER_SIZE as int)])
    }
}

impl RingBuffer {
    /// Index of the slot that the next `read` takes its byte from.
    pub closed spec fn head(self) -> int {
        self.head as int
    }

    /// Index of the slot that the next `write` fills.
    pub closed spec fn tail(self) -> int {
        self.tail as int
    }

    /// Both indices lie inside the ring. This holds of every buffer that a
    /// program holds.
    #[verifier::type_invariant]
    pub closed spec fn well_formed(self) -> bool {
        self.head < BUFFER_SIZE && self.tail < BUFFER_SIZE
    }

    /// Number of slots from `head` forward around the ring to `tail`.
    spec fn occupancy(self) -> nat {
        ((self.tail - self.head) % (BUFFER_SIZE as int)) as nat
    }

    /// No buffer ever holds more than `BUFFER_SIZE - 1` bytes.
    pub proof fn lemma_occupancy_bounded(self)
        ensures
            self@.len() <= BUFFER_SIZE - 1,
    {
    }

    /// The buffer is empty exactly when `head` and `tail` are equal, and full
    /// exactly when `tail` is one step behind `head`.
    pub proof fn lemma_empty_and_full(self)
        requires
            self.well_formed(),
        ensures
            0 <= self.head() < BUFFER_SIZE,
            0 <= self.tail() < BUFFER_SIZE,
            self@.len() == 0 <==> self.head() == self.tail(),
            self@.len() == BUFFER_SIZE - 1 <==> (self.tail() + 1) % (BUFFER_SIZE as int)
                == self.head(),
    {
    }

    /// An empty queue.
    pub fn new() -> (buffer: Self)
        ensures
            buffer@ == Seq::<u8>::empty(),
            buffer.head() == 0,
            buffer.tail() == 0,
    {
        Self { head: 0, tail: 0, inner: [0; BUFFER_SIZE] }
    }

    /// Removes and returns the oldest queued byte and moves `head` one slot
    /// on. With nothing queued it returns `None` and leaves the buffer
    /// exactly as it was.
    pub fn read(&mut self) -> (unit: Option<u8>)
        ensures
            unit == next_unit(old(self)@),
            final(self)@ == after_read(old(self)@),
            final(self)@.len() <= BUFFER_SIZE - 1,
            old(self)@.len() == 0 ==> *final(self) == *old(self),
            old(self)@.len() > 0 ==> final(self).head() == (old(self).head() + 1) % (
            BUFFER_SIZE as int),
            final(self).tail() == old(self).tail(),
    {
        proof {
            use_type_invariant(&*self);
        }
        if self.head == self.tail {
            None
        } else {
            let tmp_pos = self.head;
            self.head = (self.head + 1) % BUFFER_SIZE;
            Some(self.inner[tmp_pos])
        }
    }

    /// Appends `data` and moves `tail` one slot on, unless `BUFFER_SIZE - 1`
    /// bytes are queued already: then `data` is dropped and the buffer stays
    /// exactly as it was.
    pub fn write(&mut self, data: u8)
        ensures
            final(self)@ == after_write(old(self)@, data),
            final(self)@.len() <= BUFFER_SIZE - 1,
            old(self)@.len() >= BUFFER_SIZE - 1 ==> *final(self) == *old(self),
            old(self)@.len() < BUFFER_SIZE - 1 ==> final(self).tail() == (old(self).tail() + 1) % (
            BUFFER_SIZE as int),
            final(self).head() == old(self).head(),
    {
        proof {
            use_type_invariant(&*self);
        }
        let tmp_pos = (self.tail + 1) % BUFFER_SIZE;
        if tmp_pos == self.head {
            return ;
        }
        self.inner[self.tail] = data;
        self.tail = tmp_pos;
    }
}

/// Reading `count` times removes the `count` oldest bytes, or all of them
/// where fewer are queued.
pub proof fn lemma_after_reads(queue: Seq<u8>, count: nat)
    ensures
        after_reads(queue, count) == if count <= queue.len() {
            queue.skip(count as int)
        } else {
            Seq::<u8>::empty()
        },
    decreases count,
{
    if count > 0 {
        lemma_after_reads(queue, (count - 1) as nat);
    }
}

/// Overflow keeps the oldest data: writing `units` to a queue leaves the
/// bytes that were queued before, followed by as many of the first bytes of
/// `units` as fit, and drops the rest. The queue never holds more than
/// `BUFFER_SIZE - 1` bytes.
pub proof fn lemma_writes_keep_oldest(queue: Seq<u8>, units: Seq<u8>)
    requires
        queue.len() <= BUFFER_SIZE - 1,
    ensures
        after_writes(queue, units).len() <= BUFFER_SIZE - 1,
        queue.len() + units.len() <= BUFFER_SIZE - 1 ==> after_writes(queue, units) == queue
            + units,
        queue.len() + units.len() >= BUFFER_SIZE ==> after_writes(queue, units) == (queue
            + units).take(BUFFER_SIZE - 1),
    decreases units.len(),
{
    if units.len() > 0 {
        lemma_writes_keep_oldest(queue, units.drop_last());
        assert(queue + units == (queue + units.drop_last()).push(units.last()));
    }
}

/// First in, first out: after writing at most `BUFFER_SIZE - 1` bytes to an
/// empty queue, successive reads return exactly those bytes in the order in
/// which they were written, and the read after the last of them returns
/// `None`.
pub proof fn lemma_reads_return_writes_in_order(units: Seq<u8>)
    requires
        units.len() <= BUFFER_SIZE - 1,
    ensures
        after_writes(Seq::empty(), units) == units,
        forall|i: nat|
            i < units.len() ==> next_unit(#[trigger] after_reads(units, i)) == Some(
                units[i as int],
            ),
        next_unit(after_reads(units, units.len())) == None::<u8>,
{
    lemma_writes_keep_oldest(Seq::empty(), units);
    assert(Seq::<u8>::empty() + units == units);
    assert forall|i: nat| i < units.len() implies next_unit(#[trigger] after_reads(units, i))
        == Some(units[i as int]) by {
        lemma_after_reads(units, i);
    }
    lemma_after_reads(units, units.len());
}

} // verus!
