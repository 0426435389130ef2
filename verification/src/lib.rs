//! Decoder library for the Kansas City Standard cassette-tape encoding and
//! its NASCOM, Acorn and MSX variants.
//!
//! The decoding pipeline turns a stream of audio samples into a stream of
//! bytes in five stages: a zero-crossing detector, a frequency identifier,
//! a high/low tone classifier, a UART-style framing state machine, and a
//! splitter that groups the decoded bytes into contiguous error-free runs.
//! Each stage is a small streaming transducer with a verified contract.

pub mod config;
pub mod fid;
pub mod hli;
pub mod pipeline;
pub mod signal;
pub mod splitter;
pub mod text;
pub mod uart;
pub mod zcd;

pub use config::DecoderConfig;
pub use config::Symbol;
pub use fid::Frequency;
pub use fid::FrequencyIdentifier;
pub use hli::HiLowIdentifier;
pub use pipeline::DecodePipeline;
pub use pipeline::FinishOutcome;
pub use pipeline::StepOutcome;
pub use signal::Channels;
pub use signal::DecoderError;
pub use signal::Parity;
pub use signal::Preset;
pub use signal::SignalCondition;
pub use signal::ZeroCrossingDirection;
pub use splitter::Artifact;
pub use splitter::Splitter;
pub use uart::Decoder;
pub use uart::DecoderState;
pub use uart::DecoderStateDataBit;
pub use uart::DecoderStateParity;
pub use uart::DecoderStateStartBit;
pub use uart::DecoderStateStopBit;
pub use zcd::ZeroCrossingDetector;
