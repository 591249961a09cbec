//! Verified core of a live speech-to-text pipeline.
//!
//! The library holds the logic of the pipeline: the ordered transcript
//! buffer, the audio chunking accumulator, the little-endian sample
//! encoding of the streaming recognizer protocol, the recording
//! controller's state machine, timestamped file naming, and the batch
//! segment format. Device capture, subprocess plumbing and file output
//! live outside the library and hand it plain values.

pub mod batch;
pub mod chunker;
pub mod codec;
pub mod controller;
pub mod text;
pub mod timefmt;
pub mod transcript;
