//! Waveform summaries of audio files.
//!
//! A file is decoded once, its samples are reduced to one peak per fiftieth of
//! a second, and the summary is kept in memory under a key derived from the
//! file's metadata, so that a second request for the same file is answered
//! without decoding.
//!
//! Decoding itself, file access and transport are the caller's part: the
//! library takes metadata and decoded samples as plain values and decides
//! everything that follows from them.

pub mod decode;
pub mod error;
pub mod key;
pub mod peaks;
pub mod processor;
pub mod response;
pub mod store;
pub mod waveform;

pub use error::{AudioError, ErrorKind};
pub use key::SourceDescriptor;
pub use processor::{AnalysisStep, AudioProcessor};
pub use response::ApiResponse;
pub use waveform::{ImportResult, PeakCache, StreamDuration, WaveformData};
