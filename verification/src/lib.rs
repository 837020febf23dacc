//! Transcription of a WAV recording by a speech-recognition engine: the
//! decoding of the recording into normalised samples, the engine's fixed
//! configuration, and the order in which a run proceeds and reports.

pub mod audio;
pub mod config;
pub mod session;
pub mod single;
