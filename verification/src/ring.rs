//! Fixed-capacity first-in/first-out buffer of audio samples, shared between
//! the capture side (producer) and the playback side (consumer) of the audio
//! pipeline.
//!
//! A sample travels through the pipeline as the 32-bit encoding of one audio
//! frame; the all-zero encoding stands for silence. On overflow the incoming
//! (newest) sample is discarded, never an older one; on underflow the consumer
//! receives silence. Neither side ever blocks.

use vstd::prelude::*;

verus! {

/// Bounded queue of audio samples with ring storage: a fixed backing vector,
/// a head index and a length. Oldest sample first.
pub struct SampleBuffer {
    slots: Vec<u32>,
    head: usize,
    len: usize,
}

impl SampleBuffer {
    /// The backing vector is fully allocated, and head and length stay inside it.
    pub closed spec fn wf(&self) -> bool {
        &&& self.slots@.len() >= 1
        &&& self.head < self.slots@.len()
        &&& self.len <= self.slots@.len()
    }

    /// The fixed number of samples the buffer can hold.
    pub closed spec fn capacity(&self) -> int {
        self.slots@.len() as int
    }

    /// Position in the backing vector of the i-th queued sample.
    spec fn slot_of(&self, i: int) -> int {
        if self.head + i < self.slots@.len() {
            self.head + i
        } else {
            self.head + i - self.slots@.len()
        }
    }

    /// The queued samples, oldest first.
    pub closed spec fn contents(&self) -> Seq<u32> {
        Seq::new(self.len as nat, |i: int| self.slots@[self.slot_of(i)])
    }

    /// A fresh, empty buffer of the given capacity.
    pub fn new(capacity: usize) -> (b: SampleBuffer)
        requires
            capacity >= 1,
        ensures
            b.wf(),
            b.capacity() == capacity,
            b.contents() == Seq::<u32>::empty(),
    {
        let mut slots: Vec<u32> = Vec::new();
        let mut i: usize = 0;
        while i < capacity
            invariant
                i <= capacity,
                slots@.len() == i,
            decreases capacity - i,
        {
            slots.push(0u32);
            i = i + 1;
        }
        let b = SampleBuffer { slots, head: 0, len: 0 };
        proof {
            assert(b.contents() =~= Seq::<u32>::empty());
        }
        b
    }

    /// Producer side: queue one sample. When the buffer is full the incoming
    /// sample is discarded and the queued ones are left untouched; the result
    /// says whether the sample was kept.
    pub fn push(&mut self, sample: u32) -> (kept: bool)
        requires
            old(self).wf(),
        ensures
            final(self).wf(),
            final(self).capacity() == old(self).capacity(),
            kept == (old(self).contents().len() < old(self).capacity()),
            kept ==> final(self).contents() == old(self).contents().push(sample),
            !kept ==> final(self).contents() == old(self).contents(),
    {
        let cap = self.slots.len();
        if self.len == cap {
            proof {
                assert(self.contents() =~= old(self).contents());
            }
            return false;
        }
        let tail = if self.head >= cap - self.len {
            self.head - (cap - self.len)
        } else {
            self.head + self.len
        };
        self.slots.set(tail, sample);
        self.len = self.len + 1;
        proof {
            assert(self.contents() =~= old(self).contents().push(sample));
        }
        true
    }

    /// Consumer side: dequeue the oldest sample, or learn that none is queued.
    pub fn pop(&mut self) -> (r: Option<u32>)
        requires
            old(self).wf(),
        ensures
            final(self).wf(),
            final(self).capacity() == old(self).capacity(),
            old(self).contents().len() > 0 ==> (r == Some(old(self).contents()[0])
                && final(self).contents() == old(self).contents().drop_first()),
            old(self).contents().len() == 0 ==> (r == None::<u32>
                && final(self).contents() == old(self).contents()),
    {
        if self.len == 0 {
            proof {
                assert(self.contents() =~= old(self).contents());
            }
            return None;
        }
        let n = self.slots.len();
        let sample = self.slots[self.head];
        self.head = if self.head + 1 == n { 0 } else { self.head + 1 };
        self.len = self.len - 1;
        proof {
            assert(self.contents() =~= old(self).contents().drop_first());
        }
        Some(sample)
    }

    /// Consumer side, playback policy: the oldest queued sample, or silence
    /// (the zero sample) when the buffer is empty. Never blocks, never fails.
    pub fn pop_or_silence(&mut self) -> (sample: u32)
        requires
            old(self).wf(),
        ensures
            final(self).wf(),
            final(self).capacity() == old(self).capacity(),
            old(self).contents().len() > 0 ==> (sample == old(self).contents()[0]
                && final(self).contents() == old(self).contents().drop_first()),
            old(self).contents().len() == 0 ==> (sample == 0u32
                && final(self).contents() == old(self).contents()),
    {
        match self.pop() {
            Some(s) => s,
            None => 0u32,
        }
    }

    /// How many samples are queued.
    pub fn len(&self) -> (n: usize)
        requires
            self.wf(),
        ensures
            n == self.contents().len(),
    {
        self.len
    }

    /// Whether no sample is queued.
    pub fn is_empty(&self) -> (e: bool)
        requires
            self.wf(),
        ensures
            e == (self.contents().len() == 0),
    {
        self.len == 0
    }
}

/// One operation on the sample buffer: the producer queues a sample, or the
/// consumer asks for one.
pub enum RingOp {
    Push(u32),
    Pop,
}

/// The samples still queued after a sequence of operations on an initially
/// empty buffer of capacity `cap`, under the overflow policy (a push onto a
/// full buffer discards the incoming sample) and the underflow policy (a pop
/// of an empty buffer changes nothing). Mirrors what `push` and `pop` ensure
/// of `contents`.
pub open spec fn buffer_after(cap: nat, ops: Seq<RingOp>) -> Seq<u32>
    decreases ops.len(),
{
    if ops.len() == 0 {
        Seq::empty()
    } else {
        let prev = buffer_after(cap, ops.drop_last());
        match ops.last() {
            RingOp::Push(s) => if prev.len() < cap {
                prev.push(s)
            } else {
                prev
            },
            RingOp::Pop => if prev.len() > 0 {
                prev.drop_first()
            } else {
                prev
            },
        }
    }
}

/// The pushed samples that the buffer accepted (was not full for), in push
/// order.
pub open spec fn kept_after(cap: nat, ops: Seq<RingOp>) -> Seq<u32>
    decreases ops.len(),
{
    if ops.len() == 0 {
        Seq::empty()
    } else {
        let prev = buffer_after(cap, ops.drop_last());
        let kept = kept_after(cap, ops.drop_last());
        match ops.last() {
            RingOp::Push(s) => if prev.len() < cap {
                kept.push(s)
            } else {
                kept
            },
            RingOp::Pop => kept,
        }
    }
}

/// The samples handed to the consumer, in pop order. A pop of an empty buffer
/// hands out silence instead and is not counted here.
pub open spec fn popped_after(cap: nat, ops: Seq<RingOp>) -> Seq<u32>
    decreases ops.len(),
{
    if ops.len() == 0 {
        Seq::empty()
    } else {
        let prev = buffer_after(cap, ops.drop_last());
        let popped = popped_after(cap, ops.drop_last());
        match ops.last() {
            RingOp::Push(_) => popped,
            RingOp::Pop => if prev.len() > 0 {
                popped.push(prev[0])
            } else {
                popped
            },
        }
    }
}

/// Law of the sample buffer: under any interleaving of pushes and pops, the
/// samples already handed out, followed by the samples still queued, are
/// exactly the accepted pushes, in push order. So no sample is ever
/// reordered, the oldest unread samples are preserved up to capacity, and on
/// overflow only the newest (incoming) sample is lost.
pub proof fn lemma_fifo_order(cap: nat, ops: Seq<RingOp>)
    ensures
        popped_after(cap, ops) + buffer_after(cap, ops) == kept_after(cap, ops),
    decreases ops.len(),
{
    if ops.len() == 0 {
        assert(popped_after(cap, ops) + buffer_after(cap, ops) =~= kept_after(cap, ops));
    } else {
        let prev = buffer_after(cap, ops.drop_last());
        let popped = popped_after(cap, ops.drop_last());
        let kept = kept_after(cap, ops.drop_last());
        lemma_fifo_order(cap, ops.drop_last());
        match ops.last() {
            RingOp::Push(s) => {
                if prev.len() < cap {
                    assert(popped + prev.push(s) =~= (popped + prev).push(s));
                }
            },
            RingOp::Pop => {
                if prev.len() > 0 {
                    assert(popped.push(prev[0]) + prev.drop_first() =~= popped + prev);
                }
            },
        }
    }
}

} // verus!
