//! A fixed-capacity buffer holding the most recent frame of samples.

use vstd::prelude::*;

verus! {

/// A frame as a buffer of `capacity` slots stores it: its first `capacity`
/// samples in arrival order, then silence up to the capacity.
pub open spec fn fit(frame: Seq<u32>, capacity: nat) -> Seq<u32> {
    Seq::new(capacity, |i: int| if i < frame.len() { frame[i] } else { 0u32 })
}

/// A frame of `capacity` silent samples.
pub open spec fn silence(capacity: nat) -> Seq<u32> {
    Seq::new(capacity, |i: int| 0u32)
}

/// What a buffer holding `contents` holds after `frames` were written to it
/// one after another.
pub open spec fn after_writes(contents: Seq<u32>, frames: Seq<Seq<u32>>) -> Seq<u32>
    decreases frames.len(),
{
    if frames.len() == 0 {
        contents
    } else {
        fit(frames.last(), after_writes(contents, frames.drop_last()).len())
    }
}

/// The latest frame written by a producer, for a consumer to poll.
///
/// The view is the stored frame; its length is the capacity, fixed when the
/// buffer is made.
#[derive(Debug)]
pub struct PollingBuffer {
    slots: Vec<u32>,
}

impl View for PollingBuffer {
    type V = Seq<u32>;

    closed spec fn view(&self) -> Seq<u32> {
        self.slots@
    }
}

impl PollingBuffer {
    /// A silent buffer of `capacity` slots.
    pub fn new(capacity: usize) -> (buffer: PollingBuffer)
        ensures
            buffer@ == silence(capacity as nat),
    {
        let mut slots: Vec<u32> = Vec::new();
        let mut i: usize = 0;
        while i < capacity
            invariant
                i <= capacity,
                slots@.len() == i,
                forall|k: int| 0 <= k < i ==> slots@[k] == 0u32,
            decreases capacity - i,
        {
            slots.push(0u32);
            i += 1;
        }
        assert(slots@ =~= silence(capacity as nat));
        PollingBuffer { slots }
    }

    /// The number of slots.
    pub fn capacity(&self) -> (n: usize)
        ensures
            n == self@.len(),
    {
        self.slots.len()
    }

    /// Replaces the stored frame by `frame`, cut or padded with silence to
    /// the capacity. Nothing is allocated.
    pub fn write(&mut self, frame: &[u32])
        ensures
            final(self)@ == fit(frame@, old(self)@.len()),
    {
        let capacity: usize = self.slots.len();
        let given: usize = frame.len();
        let mut i: usize = 0;
        while i < capacity
            invariant
                i <= capacity,
                given == frame@.len(),
                self.slots@.len() == capacity,
                capacity == old(self).slots@.len(),
                forall|k: int| 0 <= k < i ==> self.slots@[k] == fit(frame@, capacity as nat)[k],
            decreases capacity - i,
        {
            let sample: u32 = if i < given { frame[i] } else { 0u32 };
            self.slots.set(i, sample);
            i += 1;
        }
        assert(self.slots@ =~= fit(frame@, capacity as nat));
    }

    /// A copy of the stored frame, independent of later writes.
    pub fn poll(&self) -> (frame: Vec<u32>)
        ensures
            frame@ == self@,
    {
        let mut frame: Vec<u32> = Vec::with_capacity(self.slots.len());
        let mut i: usize = 0;
        while i < self.slots.len()
            invariant
                i <= self.slots@.len(),
                frame@.len() == i,
                forall|k: int| 0 <= k < i ==> frame@[k] == self.slots@[k],
            decreases self.slots@.len() - i,
        {
            frame.push(self.slots[i]);
            i += 1;
        }
        assert(frame@ =~= self.slots@);
        frame
    }
}

/// A frame of exactly the capacity is stored as it is.
pub proof fn lemma_fit_exact(frame: Seq<u32>)
    ensures
        fit(frame, frame.len()) == frame,
{
    assert(fit(frame, frame.len()) =~= frame);
}

/// Any run of writes keeps the capacity.
pub proof fn lemma_after_writes_len(contents: Seq<u32>, frames: Seq<Seq<u32>>)
    ensures
        after_writes(contents, frames).len() == contents.len(),
    decreases frames.len(),
{
    if frames.len() > 0 {
        lemma_after_writes_len(contents, frames.drop_last());
    }
}

/// The last write wins: after a run of writes with no poll in between, the
/// buffer holds the last frame, cut or padded to the capacity, and nothing of
/// the frames before it or of what it held at the start.
pub proof fn lemma_last_write_wins(contents: Seq<u32>, frames: Seq<Seq<u32>>)
    requires
        frames.len() > 0,
    ensures
        after_writes(contents, frames) == fit(frames.last(), contents.len()),
{
    lemma_after_writes_len(contents, frames.drop_last());
}

/// No mixing of frames: a poll at any point of a run of writes to a
/// buffer that started silent sees silence if nothing was written yet, and
/// else exactly the frame written last before it, cut or padded to the
/// capacity.
pub proof fn lemma_poll_sees_one_frame(capacity: nat, frames: Seq<Seq<u32>>, written: int)
    requires
        0 <= written <= frames.len(),
    ensures
        after_writes(silence(capacity), frames.take(written)) == if written == 0 {
            silence(capacity)
        } else {
            fit(frames[written - 1], capacity)
        },
{
    if written > 0 {
        lemma_last_write_wins(silence(capacity), frames.take(written));
    }
}

} // verus!
