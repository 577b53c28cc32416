//! Voice-triggered transcription front end: the verified ingestion pipeline.
//!
//! A hardware audio callback converts each raw frame to mono 16 kHz samples,
//! classifies it as speech or silence, debounces the decision with a trailing
//! hysteresis window, and accumulates speech audio in a bounded ring buffer.
//! A background worker polls the buffer and drains a finished utterance only
//! once the speech gate has closed, handing the samples to the transcription stage.

pub mod buffer;
pub mod converter;
pub mod gate;
pub mod ingest;
pub mod vad;
pub mod worker;
