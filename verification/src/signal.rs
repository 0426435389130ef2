//! The closed enumerations shared by all pipeline stages: signal levels,
//! zero-crossing directions, parity modes, channel selection, presets, and
//! the decoder's error taxonomy.

use vstd::prelude::*;

verus! {

/// The logical level of one decoded bit period: the two async-serial levels,
/// or `Error` when the classifier could not recognise the tone.
#[derive(Debug, Clone, Copy, PartialEq, Eq, Structural)]
pub enum SignalCondition {
    Space,
    Mark,
    Error,
}

/// The direction of a zero crossing: the sign of the sample after the crossing.
#[derive(Debug, Clone, Copy, PartialEq, Eq, Structural)]
pub enum ZeroCrossingDirection {
    Pos,
    Neg,
}

/// The parity mode of the framing state machine.
#[derive(Debug, Clone, Copy, PartialEq, Eq, Structural)]
pub enum Parity {
    NONE,
    EVEN,
    ODD,
    MARK,
    SPACE,
}

/// Which channels of a multi-channel recording to decode.
#[derive(Debug, Clone, Copy, PartialEq, Eq, Structural)]
pub enum Channels {
    Specific(u8),
    All,
}

/// A named decoder configuration.
#[derive(Debug, Clone, Copy, PartialEq, Eq, Structural)]
pub enum Preset {
    Std,
    NASCOM,
    Acorn,
    MSX1200,
    MSX2400,
}

/// Everything that can go wrong while decoding. `Sync`, `Parity` and `Signal`
/// are framing errors raised by the state machine; `Config` is raised at
/// construction time; `IO` and `Other` carry messages from outside the core.
#[derive(Debug, Clone)]
pub enum DecoderError {
    Sync,
    Parity,
    Signal,
    Config,
    IO(String),
    Other(String),
}

impl vstd::std_specs::cmp::PartialEqSpecImpl for DecoderError {
    open spec fn obeys_eq_spec() -> bool {
        true
    }

    open spec fn eq_spec(&self, other: &DecoderError) -> bool {
        match (self, other) {
            (DecoderError::Sync, DecoderError::Sync) => true,
            (DecoderError::Parity, DecoderError::Parity) => true,
            (DecoderError::Signal, DecoderError::Signal) => true,
            (DecoderError::Config, DecoderError::Config) => true,
            (DecoderError::IO(a), DecoderError::IO(b)) => a@ == b@,
            (DecoderError::Other(a), DecoderError::Other(b)) => a@ == b@,
            _ => false,
        }
    }
}

impl PartialEq for DecoderError {
    fn eq(&self, other: &DecoderError) -> bool {
        match (self, other) {
            (DecoderError::Sync, DecoderError::Sync) => true,
            (DecoderError::Parity, DecoderError::Parity) => true,
            (DecoderError::Signal, DecoderError::Signal) => true,
            (DecoderError::Config, DecoderError::Config) => true,
            (DecoderError::IO(a), DecoderError::IO(b)) => *a == *b,
            (DecoderError::Other(a), DecoderError::Other(b)) => *a == *b,
            _ => false,
        }
    }
}

} // verus!
