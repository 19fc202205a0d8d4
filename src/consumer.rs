//! The transcription side: one wake-up of the consumer, from the drain of the
//! sample buffer to the update it emits.
use vstd::prelude::*;
use crate::buffer::{SampleBuffer, drain_result};
use crate::transcript::{BackendOutcome, update_of, update_text};

verus! {

/// Wake period of the consumer, in milliseconds, when none is configured.
pub const DEFAULT_WAKE_PERIOD_MS: u64 = 200;

/// Fewest buffered samples worth a batch inference, when none is configured.
pub const DEFAULT_MIN_CHUNK: usize = 8000;

/// A speech-to-text engine that takes chunks of samples (IEEE-754 bit
/// patterns, see the noise filter) and reports what it made of each.
pub trait TranscriptionBackend {
    /// Runs the engine on one chunk.
    fn process_chunk(&mut self, chunk: &Vec<u32>) -> BackendOutcome;
}

/// How one cycle of the consumer ended.
pub enum CycleOutcome {
    /// Nothing, or too little, was buffered: the backend was not called.
    Skipped,
    /// The backend failed on the chunk: nothing is emitted.
    BackendError,
    /// The backend ran and produced no text: nothing is emitted.
    Silent,
    /// The backend ran and produced this update, to be emitted.
    Update(String),
}

/// The cycle outcome that follows from what the backend reported.
pub open spec fn concluded(outcome: BackendOutcome, r: CycleOutcome) -> bool {
    match outcome {
        BackendOutcome::Failed => r is BackendError,
        _ => match update_of(outcome) {
            Option::Some(t) => r matches CycleOutcome::Update(u) && u@ == t,
            Option::None => r is Silent,
        },
    }
}

/// Whether a cycle with `buffered` samples waiting leaves the buffer alone.
pub open spec fn skips(buffered: nat, min_chunk: usize) -> bool {
    buffered == 0 || buffered < min_chunk
}

impl CycleOutcome {
    /// The update that this cycle emits, if any.
    pub fn emitted(&self) -> (r: Option<String>)
        ensures
            match self {
                CycleOutcome::Update(t) => r matches Option::Some(u) && u@ == t@,
                _ => r is None,
            },
    {
        match self {
            CycleOutcome::Update(t) => Option::Some(t.clone()),
            _ => Option::None,
        }
    }
}

/// Turns what the backend reported on a chunk into the cycle's outcome.
pub fn conclude(outcome: &BackendOutcome) -> (r: CycleOutcome)
    ensures
        concluded(*outcome, r),
{
    match outcome {
        BackendOutcome::Failed => CycleOutcome::BackendError,
        _ => match update_text(outcome) {
            Option::Some(t) => CycleOutcome::Update(t),
            Option::None => CycleOutcome::Silent,
        },
    }
}

/// Runs the backend on a chunk taken from the buffer. An empty chunk is
/// skipped without calling the backend, which is left as it was.
pub fn transcribe_chunk<B: TranscriptionBackend>(chunk: &Vec<u32>, backend: &mut B) -> (r:
    CycleOutcome)
    ensures
        chunk@.len() == 0 ==> r is Skipped && *final(backend) == *old(backend),
        chunk@.len() != 0 ==> !(r is Skipped),
{
    if chunk.len() == 0 {
        return CycleOutcome::Skipped;
    }
    let outcome = backend.process_chunk(chunk);
    conclude(&outcome)
}

/// One wake-up of the consumer. When the buffer holds nothing, or fewer than
/// `min_chunk` samples, the cycle is skipped: the buffer and the backend are
/// left as they were. Otherwise the buffer is drained, the whole chunk goes to
/// the backend, and the outcome follows from its report.
pub fn run_cycle<B: TranscriptionBackend>(
    buffer: &mut SampleBuffer,
    backend: &mut B,
    min_chunk: usize,
) -> (r: CycleOutcome)
    ensures
        skips(old(buffer)@.len(), min_chunk) ==> r is Skipped && final(buffer)@ == old(buffer)@
            && *final(backend) == *old(backend),
        !skips(old(buffer)@.len(), min_chunk) ==> !(r is Skipped) && final(buffer)@ == drain_result(
            old(buffer)@,
        ).1,
{
    let chunk = buffer.take_chunk(min_chunk);
    transcribe_chunk(&chunk, backend)
}

} // verus!
