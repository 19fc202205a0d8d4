//! Live captioning pipeline: a noise gate over captured samples, the sample
//! buffer shared by the capture and transcription sides, the transcription
//! cycle, transcript assembly, input-device choice and the session lifecycle.
pub mod buffer;
pub mod consumer;
pub mod device;
pub mod gate;
pub mod session;
pub mod transcript;

pub use gate::{passes, gate_samples, DEFAULT_NOISE_THRESHOLD};
pub use buffer::SampleBuffer;
pub use transcript::{BackendOutcome, DisplayPolicy, Transcript, join_segments, update_text};
pub use consumer::{CycleOutcome, TranscriptionBackend, conclude, run_cycle, transcribe_chunk, DEFAULT_MIN_CHUNK, DEFAULT_WAKE_PERIOD_MS};
pub use device::{CaptureIntent, DeviceChoice, DeviceError, choose_device, loopback_keywords, matches_keyword};
pub use session::Session;
