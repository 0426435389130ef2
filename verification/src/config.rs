//! Decoder configuration: the two tone symbols, framing parameters, preset
//! catalogue and construction-time validation.

use vstd::prelude::*;

use crate::signal::Channels;
use crate::signal::Parity;
use crate::signal::Preset;
use crate::signal::SignalCondition;

verus! {

/// The smallest and largest accepted counts of start, stop and data bits.
pub const MIN_NUM_STARTBITS: usize = 1;

pub const MAX_NUM_STARTBITS: usize = 2;

pub const MIN_NUM_STOPBITS: usize = 1;

pub const MAX_NUM_STOPBITS: usize = 2;

pub const MIN_NUM_DATABITS: usize = 7;

pub const MAX_NUM_DATABITS: usize = 8;

/// One of the two tones: its frequency in Hz, how many full periods of it
/// make up one bit, and which signal level it stands for.
#[derive(Debug, Clone, Copy, PartialEq, Eq, Structural)]
pub struct Symbol {
    pub frequency: usize,
    pub periods: usize,
    pub signal: SignalCondition,
}

/// The full, immutable configuration of one decode run. `symbols.0` is the
/// low tone and `symbols.1` the high tone.
#[derive(Debug, Clone, Copy)]
pub struct DecoderConfig {
    pub startbits: (usize, SignalCondition),
    pub num_databits: usize,
    pub parity: Parity,
    pub stopbits: (usize, SignalCondition),
    pub channels: Channels,
    pub symbols: (Symbol, Symbol),
    pub frequency_tolerance: usize,
}

/// A configuration is accepted iff its bit counts lie within the supported
/// ranges: 7 or 8 data bits, 1 or 2 start bits, 1 or 2 stop bits.
pub open spec fn valid_config(c: DecoderConfig) -> bool {
    &&& MIN_NUM_DATABITS <= c.num_databits <= MAX_NUM_DATABITS
    &&& MIN_NUM_STARTBITS <= c.startbits.0 <= MAX_NUM_STARTBITS
    &&& MIN_NUM_STOPBITS <= c.stopbits.0 <= MAX_NUM_STOPBITS
}

/// The configuration that each preset stands for.
pub open spec fn spec_preset(preset: Preset) -> DecoderConfig {
    match preset {
        Preset::Std => (DecoderConfig {
            startbits: (1, SignalCondition::Space),
            num_databits: 8,
            parity: Parity::NONE,
            stopbits: (2, SignalCondition::Mark),
            channels: Channels::All,
            symbols: (
                Symbol { frequency: 1200, periods: 4, signal: SignalCondition::Space },
                Symbol { frequency: 2400, periods: 8, signal: SignalCondition::Mark },
            ),
            frequency_tolerance: 10,
        }),
        Preset::NASCOM | Preset::Acorn => (DecoderConfig {
            startbits: (1, SignalCondition::Space),
            num_databits: 8,
            parity: Parity::NONE,
            stopbits: (1, SignalCondition::Mark),
            channels: Channels::All,
            symbols: (
                Symbol { frequency: 1200, periods: 1, signal: SignalCondition::Space },
                Symbol { frequency: 2400, periods: 2, signal: SignalCondition::Mark },
            ),
            frequency_tolerance: 10,
        }),
        Preset::MSX1200 => (DecoderConfig {
            startbits: (1, SignalCondition::Space),
            num_databits: 8,
            parity: Parity::NONE,
            stopbits: (2, SignalCondition::Mark),
            channels: Channels::All,
            symbols: (
                Symbol { frequency: 1200, periods: 1, signal: SignalCondition::Space },
                Symbol { frequency: 2400, periods: 2, signal: SignalCondition::Mark },
            ),
            frequency_tolerance: 10,
        }),
        Preset::MSX2400 => (DecoderConfig {
            startbits: (1, SignalCondition::Space),
            num_databits: 8,
            parity: Parity::NONE,
            stopbits: (2, SignalCondition::Mark),
            channels: Channels::All,
            symbols: (
                Symbol { frequency: 2400, periods: 1, signal: SignalCondition::Space },
                Symbol { frequency: 4800, periods: 2, signal: SignalCondition::Mark },
            ),
            frequency_tolerance: 10,
        }),
    }
}

impl DecoderConfig {
    /// The configuration of the given preset. Every preset is valid.
    pub fn get_preset(preset: &Preset) -> (r: DecoderConfig)
        ensures
            r == spec_preset(*preset),
            valid_config(r),
    {
        match preset {
            Preset::Std => DecoderConfig {
                startbits: (1, SignalCondition::Space),
                num_databits: 8,
                parity: Parity::NONE,
                stopbits: (2, SignalCondition::Mark),
                channels: Channels::All,
                symbols: (
                    Symbol { frequency: 1200, periods: 4, signal: SignalCondition::Space },
                    Symbol { frequency: 2400, periods: 8, signal: SignalCondition::Mark },
                ),
                frequency_tolerance: 10,
            },
            Preset::NASCOM | Preset::Acorn => DecoderConfig {
                startbits: (1, SignalCondition::Space),
                num_databits: 8,
                parity: Parity::NONE,
                stopbits: (1, SignalCondition::Mark),
                channels: Channels::All,
                symbols: (
                    Symbol { frequency: 1200, periods: 1, signal: SignalCondition::Space },
                    Symbol { frequency: 2400, periods: 2, signal: SignalCondition::Mark },
                ),
                frequency_tolerance: 10,
            },
            Preset::MSX1200 => DecoderConfig {
                startbits: (1, SignalCondition::Space),
                num_databits: 8,
                parity: Parity::NONE,
                stopbits: (2, SignalCondition::Mark),
                channels: Channels::All,
                symbols: (
                    Symbol { frequency: 1200, periods: 1, signal: SignalCondition::Space },
                    Symbol { frequency: 2400, periods: 2, signal: SignalCondition::Mark },
                ),
                frequency_tolerance: 10,
            },
            Preset::MSX2400 => DecoderConfig {
                startbits: (1, SignalCondition::Space),
                num_databits: 8,
                parity: Parity::NONE,
                stopbits: (2, SignalCondition::Mark),
                channels: Channels::All,
                symbols: (
                    Symbol { frequency: 2400, periods: 1, signal: SignalCondition::Space },
                    Symbol { frequency: 4800, periods: 2, signal: SignalCondition::Mark },
                ),
                frequency_tolerance: 10,
            },
        }
    }

    /// `Some(*self)` iff the bit counts are within the supported ranges.
    pub fn validate(&self) -> (r: Option<DecoderConfig>)
        ensures
            r == (if valid_config(*self) {
                Some(*self)
            } else {
                None::<DecoderConfig>
            }),
    {
        if self.num_databits >= MIN_NUM_DATABITS && self.num_databits <= MAX_NUM_DATABITS
            && self.startbits.0 >= MIN_NUM_STARTBITS && self.startbits.0 <= MAX_NUM_STARTBITS
            && self.stopbits.0 >= MIN_NUM_STOPBITS && self.stopbits.0 <= MAX_NUM_STOPBITS {
            Some(*self)
        } else {
            None
        }
    }
}

impl Default for DecoderConfig {
    /// The default configuration is the NASCOM preset.
    fn default() -> (r: DecoderConfig)
        ensures
            r == spec_preset(Preset::NASCOM),
    {
        DecoderConfig::get_preset(&Preset::NASCOM)
    }
}

} // verus!
