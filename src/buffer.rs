//! The sample buffer between the capture side, which appends gated frames,
//! and the transcription side, which takes everything out at once.
use vstd::prelude::*;
use crate::gate::{gated, gate_samples};

verus! {

/// One flat sequence of samples, in the order in which they were appended.
pub struct SampleBuffer {
    samples: Vec<u32>,
}

/// What a full drain hands out (first) and what it leaves behind (second).
pub open spec fn drain_result(contents: Seq<u32>) -> (Seq<u32>, Seq<u32>) {
    (contents, Seq::empty())
}

/// The contents after appending each frame of `frames`, in that order and
/// through the noise filter, to a buffer that held `start`.
pub open spec fn after_appends(start: Seq<u32>, frames: Seq<Seq<u32>>, threshold: u32) -> Seq<u32>
    decreases frames.len(),
{
    if frames.len() == 0 {
        start
    } else {
        after_appends(start, frames.drop_last(), threshold) + gated(frames.last(), threshold)
    }
}

/// What the noise filter lets through of each frame, frame by frame.
pub open spec fn gated_frames(frames: Seq<Seq<u32>>, threshold: u32) -> Seq<Seq<u32>> {
    frames.map_values(|f: Seq<u32>| gated(f, threshold))
}

impl View for SampleBuffer {
    type V = Seq<u32>;

    closed spec fn view(&self) -> Seq<u32> {
        self.samples@
    }
}

impl SampleBuffer {
    /// An empty buffer.
    pub fn new() -> (r: SampleBuffer)
        ensures
            r@ == Seq::<u32>::empty(),
    {
        SampleBuffer { samples: Vec::new() }
    }

    /// Number of samples held.
    pub fn len(&self) -> (r: usize)
        ensures
            r == self@.len(),
    {
        self.samples.len()
    }

    /// Whether nothing is held.
    pub fn is_empty(&self) -> (r: bool)
        ensures
            r == (self@.len() == 0),
    {
        self.samples.len() == 0
    }

    /// Appends the samples as they are, after those already held.
    pub fn append(&mut self, samples: &[u32])
        ensures
            final(self)@ == old(self)@ + samples@,
    {
        let mut i: usize = 0;
        while i < samples.len()
            invariant
                i <= samples@.len(),
                self@ == old(self)@ + samples@.subrange(0, i as int),
            decreases samples@.len() - i,
        {
            self.samples.push(samples[i]);
            i += 1;
            assert(self@ =~= old(self)@ + samples@.subrange(0, i as int));
        }
        assert(samples@.subrange(0, samples@.len() as int) =~= samples@);
    }

    /// One delivery of the capture side: the samples of `frame` whose absolute
    /// amplitude lies strictly above the threshold are appended in order; the
    /// others are dropped. A frame with none above it leaves the buffer as it was.
    pub fn append_gated(&mut self, frame: &[u32], threshold: u32)
        ensures
            final(self)@ == old(self)@ + gated(frame@, threshold),
    {
        let kept = gate_samples(frame, threshold);
        self.append(kept.as_slice());
    }

    /// Removes and returns everything held, leaving the buffer empty. An empty
    /// result means that there was nothing to process.
    pub fn drain(&mut self) -> (r: Vec<u32>)
        ensures
            (r@, final(self)@) == drain_result(old(self)@),
    {
        let mut out: Vec<u32> = Vec::new();
        std::mem::swap(&mut self.samples, &mut out);
        out
    }

    /// Drains the buffer only once it holds at least `min_len` samples (and at
    /// least one); below that it returns an empty chunk and keeps accumulating.
    pub fn take_chunk(&mut self, min_len: usize) -> (r: Vec<u32>)
        ensures
            old(self)@.len() == 0 || old(self)@.len() < min_len ==> r@.len() == 0
                && final(self)@ == old(self)@,
            old(self)@.len() != 0 && old(self)@.len() >= min_len ==> (r@, final(self)@)
                == drain_result(old(self)@),
    {
        if self.samples.len() == 0 || self.samples.len() < min_len {
            Vec::new()
        } else {
            self.drain()
        }
    }
}

/// Two drains in a row, with no append between them, hand out a non-empty
/// sequence at most once: the second one always comes back empty.
pub proof fn lemma_second_drain_empty(contents: Seq<u32>)
    ensures
        drain_result(drain_result(contents).1).0.len() == 0,
{
}

/// Frames appended one after another (in the order in which they reached the
/// buffer) and then drained once: the drain hands out exactly the gated frames
/// laid end to end, so no sample is lost or duplicated and each frame's samples
/// stay together and in their own order.
pub proof fn lemma_appends_then_drain(frames: Seq<Seq<u32>>, threshold: u32)
    ensures
        drain_result(after_appends(Seq::empty(), frames, threshold)).0 == gated_frames(
            frames,
            threshold,
        ).flatten(),
    decreases frames.len(),
{
    lemma_after_appends_flatten(Seq::empty(), frames, threshold);
}

proof fn lemma_after_appends_flatten(start: Seq<u32>, frames: Seq<Seq<u32>>, threshold: u32)
    ensures
        after_appends(start, frames, threshold) =~= start + gated_frames(frames, threshold).flatten(),
    decreases frames.len(),
{
    if frames.len() == 0 {
        assert(gated_frames(frames, threshold) =~= Seq::<Seq<u32>>::empty());
    } else {
        let init = frames.drop_last();
        lemma_after_appends_flatten(start, init, threshold);
        assert(gated_frames(frames, threshold) =~= gated_frames(init, threshold).push(
            gated(frames.last(), threshold),
        ));
        gated_frames(init, threshold).lemma_flatten_push(gated(frames.last(), threshold));
    }
}

} // verus!
