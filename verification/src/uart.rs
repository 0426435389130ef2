//! The UART-style framing state machine: it consumes a stream of
//! `SignalCondition` levels and assembles start bits, data bits, an optional
//! parity bit and stop bits into whole bytes.
//!
//! Every transition is specified by a spec-level step function
//! (`spec_decoder_step`) and the executable machine is proved to follow it
//! exactly. Data bits are stored LSB-first in a byte that is being built up,
//! so the assembled byte needs no separate packing step; bit `i` of the
//! buffer contributes `2^i` to the output.

use vstd::prelude::*;

use crate::config::valid_config;
use crate::config::DecoderConfig;
use crate::signal::DecoderError;
use crate::signal::Parity;
use crate::signal::SignalCondition;

verus! {

/// Waiting for the configured number of start bits; `idx` of them have
/// been seen so far.
#[derive(Debug, Clone, Copy)]
pub struct DecoderStateStartBit {
    pub config: DecoderConfig,
    pub idx: usize,
}

/// Collecting data bits LSB-first: `data` holds the `idx` bits received so
/// far, and every bit at position `idx` or above is still zero.
#[derive(Debug, Clone, Copy)]
pub struct DecoderStateDataBit {
    pub config: DecoderConfig,
    pub data: u8,
    pub idx: usize,
}

/// All data bits are in; waiting for the parity bit.
#[derive(Debug, Clone, Copy)]
pub struct DecoderStateParity {
    pub config: DecoderConfig,
    pub data: u8,
}

/// Waiting for the configured number of stop bits; `num_stopbits_received`
/// of them have been seen so far.
#[derive(Debug, Clone, Copy)]
pub struct DecoderStateStopBit {
    pub config: DecoderConfig,
    pub data: u8,
    pub num_stopbits_received: usize,
}

/// The machine's state. `DataOut` is transient: it only ever appears as the
/// return value of the terminal transition, never as a resting state.
#[derive(Debug, Clone, Copy)]
pub enum DecoderState {
    WaitForStartBit(DecoderStateStartBit),
    WaitForDataBit(DecoderStateDataBit),
    WaitForParity(DecoderStateParity),
    WaitForStopBit(DecoderStateStopBit),
    DataOut(u8),
}

impl DecoderStateStartBit {
    pub open spec fn wf(self) -> bool {
        &&& valid_config(self.config)
        &&& self.idx < self.config.startbits.0
    }
}

impl DecoderStateDataBit {
    pub open spec fn wf(self) -> bool {
        &&& valid_config(self.config)
        &&& self.idx < self.config.num_databits
        &&& (self.data as u16) >> (self.idx as u16) == 0
    }
}

impl DecoderStateParity {
    pub open spec fn wf(self) -> bool {
        &&& valid_config(self.config)
        &&& self.config.parity != Parity::NONE
        &&& (self.data as u16) >> (self.config.num_databits as u16) == 0
    }
}

impl DecoderStateStopBit {
    pub open spec fn wf(self) -> bool {
        &&& valid_config(self.config)
        &&& self.num_stopbits_received < self.config.stopbits.0
        &&& (self.data as u16) >> (self.config.num_databits as u16) == 0
    }
}

/// Well-formedness of a state with respect to the configuration `c` that the
/// machine was built with.
pub open spec fn state_wf(c: DecoderConfig, st: DecoderState) -> bool {
    match st {
        DecoderState::WaitForStartBit(s) => s.config == c && s.wf(),
        DecoderState::WaitForDataBit(s) => s.config == c && s.wf(),
        DecoderState::WaitForParity(s) => s.config == c && s.wf(),
        DecoderState::WaitForStopBit(s) => s.config == c && s.wf(),
        DecoderState::DataOut(_) => true,
    }
}

/// The state the machine starts in and returns to after every reset.
pub open spec fn initial_state(c: DecoderConfig) -> DecoderState {
    DecoderState::WaitForStartBit(DecoderStateStartBit { config: c, idx: 0 })
}

/// The number of one-bits in a byte.
pub open spec fn popcount8(d: u8) -> int {
    (d & 1) + ((d >> 1u8) & 1) + ((d >> 2u8) & 1) + ((d >> 3u8) & 1) + ((d >> 4u8) & 1) + ((d
        >> 5u8) & 1) + ((d >> 6u8) & 1) + ((d >> 7u8) & 1)
}

/// One step while waiting for start bits: the configured level advances the
/// count; `Error` raises `Signal`; a wrong level mid-sequence raises `Sync`,
/// but while still idling (no start bit seen yet) it is ignored.
pub open spec fn spec_start_step(st: DecoderStateStartBit, level: SignalCondition) -> Result<
    DecoderState,
    DecoderError,
> {
    if level == st.config.startbits.1 {
        if st.idx + 1 >= st.config.startbits.0 {
            Ok(
                DecoderState::WaitForDataBit(
                    DecoderStateDataBit { config: st.config, data: 0, idx: 0 },
                ),
            )
        } else {
            Ok(
                DecoderState::WaitForStartBit(
                    DecoderStateStartBit { config: st.config, idx: (st.idx + 1) as usize },
                ),
            )
        }
    } else if level == SignalCondition::Error {
        Err(DecoderError::Signal)
    } else if st.idx > 0 {
        Err(DecoderError::Sync)
    } else {
        Ok(DecoderState::WaitForStartBit(st))
    }
}

/// One step while collecting data bits: `Mark` stores a one, `Space` a zero,
/// `Error` raises `Signal`. When all data bits are in, the machine moves on
/// to the parity bit if parity checking is configured, else to the stop bits.
pub open spec fn spec_data_step(st: DecoderStateDataBit, level: SignalCondition) -> Result<
    DecoderState,
    DecoderError,
> {
    if level == SignalCondition::Error {
        Err(DecoderError::Signal)
    } else {
        let data2 = if level == SignalCondition::Mark {
            st.data | (1u8 << st.idx)
        } else {
            st.data
        };
        if st.idx + 1 >= st.config.num_databits {
            if st.config.parity != Parity::NONE {
                Ok(
                    DecoderState::WaitForParity(
                        DecoderStateParity { config: st.config, data: data2 },
                    ),
                )
            } else {
                Ok(
                    DecoderState::WaitForStopBit(
                        DecoderStateStopBit {
                            config: st.config,
                            data: data2,
                            num_stopbits_received: 0,
                        },
                    ),
                )
            }
        } else {
            Ok(
                DecoderState::WaitForDataBit(
                    DecoderStateDataBit {
                        config: st.config,
                        data: data2,
                        idx: (st.idx + 1) as usize,
                    },
                ),
            )
        }
    }
}

/// Whether a parity bit at `level` is accepted for the data bits in `data`.
/// The count of marks starts from the data bits; a `Space` parity bit flips
/// it, any other level leaves it alone. An `Error` input therefore passes
/// the even and odd modes whenever the data bits alone satisfy them, and
/// always fails the fixed `MARK` and `SPACE` modes; when it fails, it is
/// reported as a parity mismatch, not as a signal error.
pub open spec fn spec_parity_accepts(cfg_parity: Parity, data: u8, level: SignalCondition) -> bool {
    let marks_count_is_even = if level == SignalCondition::Space {
        !(popcount8(data) % 2 == 0)
    } else {
        popcount8(data) % 2 == 0
    };
    match cfg_parity {
        Parity::EVEN => marks_count_is_even,
        Parity::ODD => !marks_count_is_even,
        Parity::MARK => level == SignalCondition::Mark,
        Parity::SPACE => level == SignalCondition::Space,
        Parity::NONE => false,
    }
}

/// One step on the parity bit: accepted moves to the stop bits, anything
/// else raises `Parity`.
pub open spec fn spec_parity_step(st: DecoderStateParity, level: SignalCondition) -> Result<
    DecoderState,
    DecoderError,
> {
    if spec_parity_accepts(st.config.parity, st.data, level) {
        Ok(
            DecoderState::WaitForStopBit(
                DecoderStateStopBit { config: st.config, data: st.data, num_stopbits_received: 0 },
            ),
        )
    } else {
        Err(DecoderError::Parity)
    }
}

/// One step while waiting for stop bits: the configured level advances the
/// count and the last one releases the assembled byte; `Error` raises
/// `Signal`; any other level raises `Sync`.
pub open spec fn spec_stop_step(st: DecoderStateStopBit, level: SignalCondition) -> Result<
    DecoderState,
    DecoderError,
> {
    if level == st.config.stopbits.1 {
        if st.num_stopbits_received + 1 < st.config.stopbits.0 {
            Ok(
                DecoderState::WaitForStopBit(
                    DecoderStateStopBit {
                        config: st.config,
                        data: st.data,
                        num_stopbits_received: (st.num_stopbits_received + 1) as usize,
                    },
                ),
            )
        } else {
            Ok(DecoderState::DataOut(st.data))
        }
    } else if level == SignalCondition::Error {
        Err(DecoderError::Signal)
    } else {
        Err(DecoderError::Sync)
    }
}

/// One full step of the machine: the current state consumes the level; a
/// released byte or a framing error resets the state to `initial_state`.
pub open spec fn spec_decoder_step(
    c: DecoderConfig,
    st: DecoderState,
    level: SignalCondition,
) -> (DecoderState, Result<u8, Option<DecoderError>>) {
    let step = match st {
        DecoderState::WaitForStartBit(s) => spec_start_step(s, level),
        DecoderState::WaitForDataBit(s) => spec_data_step(s, level),
        DecoderState::WaitForParity(s) => spec_parity_step(s, level),
        DecoderState::WaitForStopBit(s) => spec_stop_step(s, level),
        DecoderState::DataOut(_) => Ok(st),
    };
    match step {
        Ok(DecoderState::DataOut(b)) => (initial_state(c), Ok(b)),
        Ok(st2) => (st2, Err(None)),
        Err(e) => (initial_state(c), Err(Some(e))),
    }
}

proof fn lemma_set_bit_keeps_bound(d: u8, i: usize)
    requires
        i < 8,
        (d as u16) >> (i as u16) == 0,
    ensures
        ((d | (1u8 << i)) as u16) >> ((i as u16) + 1) == 0,
        (d as u16) >> ((i as u16) + 1) == 0,
{
    assert(((d | (1u8 << i)) as u16) >> ((i as u16) + 1) == 0 && (d as u16) >> ((i as u16) + 1)
        == 0) by (bit_vector)
        requires
            i < 8,
            (d as u16) >> (i as u16) == 0,
    ;
}

impl DecoderStateStartBit {
    pub fn new(config: DecoderConfig) -> (r: DecoderStateStartBit)
        ensures
            r == (DecoderStateStartBit { config, idx: 0 }),
    {
        DecoderStateStartBit { config, idx: 0 }
    }

    pub fn process(&mut self, level: SignalCondition) -> (r: Result<DecoderState, DecoderError>)
        requires
            old(self).wf(),
        ensures
            r == spec_start_step(*old(self), level),
            r matches Ok(st) ==> state_wf(old(self).config, st),
    {
        if level == self.config.startbits.1 {
            self.idx = self.idx + 1;
            if self.idx >= self.config.startbits.0 {
                proof {
                    assert((0u8 as u16) >> (0usize as u16) == 0) by (bit_vector);
                }
                Ok(DecoderState::WaitForDataBit(DecoderStateDataBit::new(self.config)))
            } else {
                Ok(DecoderState::WaitForStartBit(*self))
            }
        } else if level == SignalCondition::Error {
            Err(DecoderError::Signal)
        } else if self.idx > 0 {
            Err(DecoderError::Sync)
        } else {
            Ok(DecoderState::WaitForStartBit(*self))
        }
    }
}

impl DecoderStateDataBit {
    pub fn new(config: DecoderConfig) -> (r: DecoderStateDataBit)
        ensures
            r == (DecoderStateDataBit { config, data: 0, idx: 0 }),
    {
        DecoderStateDataBit { config, data: 0, idx: 0 }
    }

    pub fn process(&mut self, level: SignalCondition) -> (r: Result<DecoderState, DecoderError>)
        requires
            old(self).wf(),
        ensures
            r == spec_data_step(*old(self), level),
            r matches Ok(st) ==> state_wf(old(self).config, st),
    {
        if level == SignalCondition::Error {
            return Err(DecoderError::Signal);
        }
        proof {
            lemma_set_bit_keeps_bound(self.data, self.idx);
        }
        if level == SignalCondition::Mark {
            self.data = self.data | (1u8 << self.idx);
        }
        self.idx = self.idx + 1;
        if self.idx >= self.config.num_databits {
            if self.config.parity != Parity::NONE {
                Ok(DecoderState::WaitForParity(DecoderStateParity::new(self.config, self.data)))
            } else {
                Ok(DecoderState::WaitForStopBit(DecoderStateStopBit::new(self.config, self.data)))
            }
        } else {
            Ok(DecoderState::WaitForDataBit(*self))
        }
    }
}

impl DecoderStateParity {
    pub fn new(config: DecoderConfig, data: u8) -> (r: DecoderStateParity)
        ensures
            r == (DecoderStateParity { config, data }),
    {
        DecoderStateParity { config, data }
    }

    pub fn process(&mut self, level: SignalCondition) -> (r: Result<DecoderState, DecoderError>)
        requires
            old(self).wf(),
        ensures
            r == spec_parity_step(*old(self), level),
            r matches Ok(st) ==> state_wf(old(self).config, st),
    {
        let d = self.data;
        let ones: u32 = ((d & 1) as u32) + (((d >> 1u8) & 1) as u32) + (((d >> 2u8) & 1) as u32) + (
        ((d >> 3u8) & 1) as u32) + (((d >> 4u8) & 1) as u32) + (((d >> 5u8) & 1) as u32) + (((d
            >> 6u8) & 1) as u32) + (((d >> 7u8) & 1) as u32);
        let mut marks_count_is_even = ones % 2 == 0;
        if level == SignalCondition::Space {
            marks_count_is_even = !marks_count_is_even;
        }
        let parity_valid = match self.config.parity {
            Parity::EVEN => marks_count_is_even,
            Parity::ODD => !marks_count_is_even,
            Parity::MARK => level == SignalCondition::Mark,
            Parity::SPACE => level == SignalCondition::Space,
            Parity::NONE => {
                proof {
                    assert(false);
                }
                false
            },
        };
        if parity_valid {
            Ok(DecoderState::WaitForStopBit(DecoderStateStopBit::new(self.config, self.data)))
        } else {
            Err(DecoderError::Parity)
        }
    }
}

impl DecoderStateStopBit {
    pub fn new(config: DecoderConfig, data: u8) -> (r: DecoderStateStopBit)
        ensures
            r == (DecoderStateStopBit { config, data, num_stopbits_received: 0 }),
    {
        DecoderStateStopBit { config, data, num_stopbits_received: 0 }
    }

    pub fn process(&mut self, level: SignalCondition) -> (r: Result<DecoderState, DecoderError>)
        requires
            old(self).wf(),
        ensures
            r == spec_stop_step(*old(self), level),
            r matches Ok(st) ==> state_wf(old(self).config, st),
    {
        if level == self.config.stopbits.1 {
            self.num_stopbits_received = self.num_stopbits_received + 1;
            if self.num_stopbits_received < self.config.stopbits.0 {
                Ok(DecoderState::WaitForStopBit(*self))
            } else {
                Ok(DecoderState::DataOut(self.data))
            }
        } else if level == SignalCondition::Error {
            Err(DecoderError::Signal)
        } else {
            Err(DecoderError::Sync)
        }
    }
}

/// The framing state machine together with the configuration it was built
/// with. Between calls the state is always a resting state: never `DataOut`.
#[derive(Debug, Clone)]
pub struct Decoder {
    pub config: DecoderConfig,
    pub state: DecoderState,
}

impl Decoder {
    pub open spec fn wf(self) -> bool {
        &&& valid_config(self.config)
        &&& state_wf(self.config, self.state)
        &&& !(self.state is DataOut)
    }

    /// Builds a machine in the initial state; `None` iff the configuration
    /// is rejected by validation.
    pub fn new(config: DecoderConfig) -> (r: Option<Decoder>)
        ensures
            r is Some <==> valid_config(config),
            r matches Some(d) ==> d.config == config && d.state == initial_state(config) && d.wf(),
    {
        match config.validate() {
            Some(c) => Some(Decoder { config: c, state: DecoderState::WaitForStartBit(DecoderStateStartBit::new(c)) }),
            None => None,
        }
    }

    /// Returns the machine to the initial wait-for-start state; the
    /// configuration is kept.
    pub fn reset(&mut self)
        ensures
            final(self).config == old(self).config,
            final(self).state == initial_state(old(self).config),
            valid_config(old(self).config) ==> final(self).wf(),
    {
        self.state = DecoderState::WaitForStartBit(DecoderStateStartBit::new(self.config));
    }

    /// One step of the machine, exactly as `spec_decoder_step` describes it:
    /// `Ok(byte)` when a byte was completed this step, `Err(None)` when the
    /// input was consumed without completing one, `Err(Some(kind))` on a
    /// framing error. After `Ok` or `Err(Some(..))` the state is back at
    /// `initial_state`.
    pub fn process(&mut self, input: SignalCondition) -> (r: Result<u8, Option<DecoderError>>)
        requires
            old(self).wf(),
        ensures
            final(self).wf(),
            final(self).config == old(self).config,
            ({
                let (st2, rr) = spec_decoder_step(old(self).config, old(self).state, input);
                final(self).state == st2 && r == rr
            }),
    {
        let step = match self.state {
            DecoderState::WaitForStartBit(mut s) => s.process(input),
            DecoderState::WaitForDataBit(mut s) => s.process(input),
            DecoderState::WaitForParity(mut s) => s.process(input),
            DecoderState::WaitForStopBit(mut s) => s.process(input),
            DecoderState::DataOut(_) => vstd::pervasive::unreached(),
        };
        match step {
            Ok(DecoderState::DataOut(val)) => {
                self.reset();
                Ok(val)
            },
            Ok(st2) => {
                self.state = st2;
                Err(None)
            },
            Err(e) => {
                self.reset();
                Err(Some(e))
            },
        }
    }
}

/// After any framing error the next resting state is the initial
/// `WaitForStartBit` state, regardless of the prior state; the same holds
/// after a completed byte.
pub proof fn lemma_framing_error_resets(c: DecoderConfig, st: DecoderState, level: SignalCondition)
    ensures
        ({
            let (st2, r) = spec_decoder_step(c, st, level);
            &&& (r matches Err(Some(_)) ==> st2 == initial_state(c))
            &&& (r is Ok ==> st2 == initial_state(c))
        }),
{
}

/// A byte released by a machine whose well-formed state was built for `c`
/// fits in `c.num_databits` bits: with 7 data bits the top bit is zero.
pub proof fn lemma_byte_fits_databits(c: DecoderConfig, st: DecoderState, level: SignalCondition)
    requires
        valid_config(c),
        state_wf(c, st),
        !(st is DataOut),
    ensures
        ({
            let (st2, r) = spec_decoder_step(c, st, level);
            r matches Ok(b) ==> (b as u16) >> (c.num_databits as u16) == 0
        }),
{
}


/// The whole machine run over a stream of levels, folding
/// `spec_decoder_step` from the front and collecting every step's result.
pub open spec fn spec_decoder_run(
    c: DecoderConfig,
    st: DecoderState,
    inputs: Seq<SignalCondition>,
) -> (DecoderState, Seq<Result<u8, Option<DecoderError>>>)
    decreases inputs.len(),
{
    if inputs.len() == 0 {
        (st, Seq::empty())
    } else {
        let (st1, r) = spec_decoder_step(c, st, inputs[0]);
        let (st2, rest) = spec_decoder_run(c, st1, inputs.drop_first());
        (st2, seq![r] + rest)
    }
}

/// Bit `i` of `b`, LSB first.
pub open spec fn bit_of(b: u8, i: int) -> bool {
    (b >> (i as u8)) & 1 == 1
}

/// The signal level that carries one data bit: `Mark` for one, `Space`
/// for zero.
pub open spec fn level_of_bit(bit: bool) -> SignalCondition {
    if bit {
        SignalCondition::Mark
    } else {
        SignalCondition::Space
    }
}

/// The data-bit levels of `b`, LSB first, `n` of them.
pub open spec fn encode_data_bits(b: u8, n: int) -> Seq<SignalCondition> {
    Seq::new(n as nat, |i: int| level_of_bit(bit_of(b, i)))
}

/// The parity-bit level that the machine accepts for the data bits of
/// `b` under parity mode `p`.
pub open spec fn parity_level_for(p: Parity, b: u8) -> SignalCondition {
    match p {
        Parity::EVEN => if popcount8(b) % 2 == 0 {
            SignalCondition::Mark
        } else {
            SignalCondition::Space
        },
        Parity::ODD => if popcount8(b) % 2 == 0 {
            SignalCondition::Space
        } else {
            SignalCondition::Mark
        },
        Parity::MARK => SignalCondition::Mark,
        Parity::SPACE => SignalCondition::Space,
        Parity::NONE => SignalCondition::Mark,
    }
}

/// A correctly timed frame for the byte `b` under configuration `c`: the
/// configured start bits, the data bits LSB first, the matching parity bit
/// where parity is configured, and the configured stop bits.
pub open spec fn encode_frame(c: DecoderConfig, b: u8) -> Seq<SignalCondition> {
    Seq::new(c.startbits.0 as nat, |i: int| c.startbits.1) + encode_data_bits(
        b,
        c.num_databits as int,
    ) + (if c.parity != Parity::NONE {
        seq![parity_level_for(c.parity, b)]
    } else {
        Seq::<SignalCondition>::empty()
    }) + Seq::new(c.stopbits.0 as nat, |i: int| c.stopbits.1)
}

/// Running a concatenation runs the two parts in sequence.
proof fn lemma_run_append(
    c: DecoderConfig,
    st: DecoderState,
    s1: Seq<SignalCondition>,
    s2: Seq<SignalCondition>,
)
    ensures
        ({
            let (m, r1) = spec_decoder_run(c, st, s1);
            let (f, r2) = spec_decoder_run(c, m, s2);
            spec_decoder_run(c, st, s1 + s2).0 == f && spec_decoder_run(c, st, s1 + s2).1 =~= r1
                + r2
        }),
    decreases s1.len(),
{
    if s1.len() == 0 {
        assert(s1 + s2 =~= s2);
        assert(spec_decoder_run(c, st, s1).1 + spec_decoder_run(
            c,
            spec_decoder_run(c, st, s1).0,
            s2,
        ).1 =~= spec_decoder_run(c, st, s2).1);
    } else {
        let (st1, r) = spec_decoder_step(c, st, s1[0]);
        assert((s1 + s2)[0] == s1[0]);
        assert((s1 + s2).drop_first() =~= s1.drop_first() + s2);
        lemma_run_append(c, st1, s1.drop_first(), s2);
        let (m, r1) = spec_decoder_run(c, st, s1);
        let (f, r2) = spec_decoder_run(c, m, s2);
        assert(seq![r] + (spec_decoder_run(c, st1, s1.drop_first()).1 + r2) =~= r1 + r2);
    }
}

/// Running a single level is a single step.
proof fn lemma_run_one(c: DecoderConfig, st: DecoderState, level: SignalCondition)
    ensures
        spec_decoder_run(c, st, seq![level]).0 == spec_decoder_step(c, st, level).0,
        spec_decoder_run(c, st, seq![level]).1 =~= seq![spec_decoder_step(c, st, level).1],
{
    reveal_with_fuel(spec_decoder_run, 3);
    let s = seq![level];
    assert(s[0] == level);
    assert(s.drop_first() =~= Seq::<SignalCondition>::empty());
    assert(spec_decoder_run(c, spec_decoder_step(c, st, level).0, s.drop_first()).1 =~= Seq::<
        Result<u8, Option<DecoderError>>,
    >::empty());
}

/// Feeding the configured number of start bits takes the machine from the
/// initial state to the data phase, with no byte and no error.
proof fn lemma_start_phase(c: DecoderConfig, b: u8)
    requires
        valid_config(c),
        c.startbits.1 != SignalCondition::Error,
    ensures
        ({
            let s = Seq::new(c.startbits.0 as nat, |i: int| c.startbits.1);
            let (st2, outs) = spec_decoder_run(c, initial_state(c), s);
            &&& st2 == DecoderState::WaitForDataBit(
                DecoderStateDataBit { config: c, data: 0, idx: 0 },
            )
            &&& outs =~= Seq::new(c.startbits.0 as nat, |i: int| Err::<u8, Option<DecoderError>>(None))
        }),
{
    let s = Seq::new(c.startbits.0 as nat, |i: int| c.startbits.1);
    let expected = Seq::new(c.startbits.0 as nat, |i: int| Err::<u8, Option<DecoderError>>(None));
    if c.startbits.0 == 1 {
        assert(s =~= seq![c.startbits.1]);
        lemma_run_one(c, initial_state(c), c.startbits.1);
        assert(expected =~= seq![Err::<u8, Option<DecoderError>>(None)]);
    } else {
        assert(s =~= seq![c.startbits.1] + seq![c.startbits.1]);
        let mid = spec_decoder_step(c, initial_state(c), c.startbits.1).0;
        lemma_run_append(c, initial_state(c), seq![c.startbits.1], seq![c.startbits.1]);
        lemma_run_one(c, initial_state(c), c.startbits.1);
        lemma_run_one(c, mid, c.startbits.1);
        assert(expected =~= seq![Err::<u8, Option<DecoderError>>(None)] + seq![
            Err::<u8, Option<DecoderError>>(None)
        ]);
    }
}

proof fn lemma_data_bit_accumulate(d: u8, b: u8, i: u8)
    requires
        i < 8,
        (d as u16) == (b as u16) & (((1u16 << (i as u16)) - 1) as u16),
    ensures
        ({
            let d2 = if bit_of(b, i as int) {
                d | (1u8 << (i as usize))
            } else {
                d
            };
            (d2 as u16) == (b as u16) & (((1u16 << ((i + 1) as u16)) - 1) as u16)
        }),
{
    assert(((if (b >> i) & 1 == 1 {
        d | (1u8 << (i as usize))
    } else {
        d
    }) as u16) == (b as u16) & (((1u16 << ((i + 1) as u16)) - 1) as u16)) by (bit_vector)
        requires
            i < 8,
            (d as u16) == (b as u16) & (((1u16 << (i as u16)) - 1) as u16),
    ;
    assert((1u8 << (i as usize)) == (1u8 << i)) by (bit_vector)
        requires
            i < 8,
    ;
}

/// Feeding the remaining data bits of `b` from position `i` on takes the
/// machine to the parity phase (or straight to the stop phase when no
/// parity is configured) with exactly the byte `b` assembled, and no byte
/// and no error on the way.
proof fn lemma_data_phase(c: DecoderConfig, b: u8, d: u8, i: usize)
    requires
        valid_config(c),
        (b as u16) >> (c.num_databits as u16) == 0,
        i < c.num_databits,
        (d as u16) == (b as u16) & (((1u16 << (i as u16)) - 1) as u16),
    ensures
        ({
            let n = c.num_databits as int;
            let s = Seq::new((n - i) as nat, |j: int| level_of_bit(bit_of(b, i + j)));
            let st = DecoderState::WaitForDataBit(DecoderStateDataBit { config: c, data: d, idx: i });
            let (st2, outs) = spec_decoder_run(c, st, s);
            &&& st2 == (if c.parity != Parity::NONE {
                DecoderState::WaitForParity(DecoderStateParity { config: c, data: b })
            } else {
                DecoderState::WaitForStopBit(
                    DecoderStateStopBit { config: c, data: b, num_stopbits_received: 0 },
                )
            })
            &&& outs =~= Seq::new((n - i) as nat, |j: int| Err::<u8, Option<DecoderError>>(None))
        }),
    decreases c.num_databits - i,
{
    let n = c.num_databits as int;
    let s = Seq::new((n - i) as nat, |j: int| level_of_bit(bit_of(b, i + j)));
    let st = DecoderState::WaitForDataBit(DecoderStateDataBit { config: c, data: d, idx: i });
    let level = level_of_bit(bit_of(b, i as int));
    assert(s[0] == level);
    lemma_data_bit_accumulate(d, b, i as u8);
    let d2 = if bit_of(b, i as int) {
        d | (1u8 << i)
    } else {
        d
    };
    let (st1, r0) = spec_decoder_step(c, st, level);
    assert(r0 == Err::<u8, Option<DecoderError>>(None));
    if i + 1 == c.num_databits {
        let n16 = c.num_databits as u16;
        assert((d2 as u16) == (b as u16) & (((1u16 << n16) - 1) as u16));
        assert(d2 == b) by (bit_vector)
            requires
                (d2 as u16) == (b as u16) & (((1u16 << n16) - 1) as u16),
                (b as u16) >> n16 == 0,
                n16 <= 8,
        ;
        assert(s.len() == 1);
        assert(s =~= seq![level]);
        lemma_run_one(c, st, level);
        assert(Seq::new((n - i) as nat, |j: int| Err::<u8, Option<DecoderError>>(None)) =~= seq![
            Err::<u8, Option<DecoderError>>(None)
        ]);
    } else {
        let s_rest = Seq::new((n - i - 1) as nat, |j: int| level_of_bit(bit_of(b, i + 1 + j)));
        assert(s.drop_first() =~= s_rest);
        lemma_data_phase(c, b, d2, (i + 1) as usize);
        assert(seq![r0] + Seq::new((n - i - 1) as nat, |j: int| Err::<u8, Option<DecoderError>>(None))
            =~= Seq::new((n - i) as nat, |j: int| Err::<u8, Option<DecoderError>>(None)));
    }
}

/// The parity level chosen for `b` is accepted by the parity check.
proof fn lemma_parity_phase(c: DecoderConfig, b: u8)
    requires
        valid_config(c),
        c.parity != Parity::NONE,
    ensures
        spec_parity_step(
            DecoderStateParity { config: c, data: b },
            parity_level_for(c.parity, b),
        ) == Ok::<DecoderState, DecoderError>(
            DecoderState::WaitForStopBit(
                DecoderStateStopBit { config: c, data: b, num_stopbits_received: 0 },
            ),
        ),
{
}

/// Feeding the configured number of stop bits releases the byte on the
/// last one and resets the machine; the steps before the last produce no
/// byte and no error.
proof fn lemma_stop_phase(c: DecoderConfig, b: u8)
    requires
        valid_config(c),
        c.stopbits.1 != SignalCondition::Error,
    ensures
        ({
            let s = Seq::new(c.stopbits.0 as nat, |i: int| c.stopbits.1);
            let st = DecoderState::WaitForStopBit(
                DecoderStateStopBit { config: c, data: b, num_stopbits_received: 0 },
            );
            let (st2, outs) = spec_decoder_run(c, st, s);
            &&& st2 == initial_state(c)
            &&& outs =~= Seq::new(
                (c.stopbits.0 - 1) as nat,
                |i: int| Err::<u8, Option<DecoderError>>(None),
            ).push(Ok(b))
        }),
{
    let s = Seq::new(c.stopbits.0 as nat, |i: int| c.stopbits.1);
    let st = DecoderState::WaitForStopBit(
        DecoderStateStopBit { config: c, data: b, num_stopbits_received: 0 },
    );
    if c.stopbits.0 == 1 {
        assert(s =~= seq![c.stopbits.1]);
        lemma_run_one(c, st, c.stopbits.1);
        assert(Seq::new(0nat, |i: int| Err::<u8, Option<DecoderError>>(None)).push(Ok(b)) =~= seq![
            Ok::<u8, Option<DecoderError>>(b)
        ]);
    } else {
        assert(s =~= seq![c.stopbits.1] + seq![c.stopbits.1]);
        let mid = spec_decoder_step(c, st, c.stopbits.1).0;
        lemma_run_append(c, st, seq![c.stopbits.1], seq![c.stopbits.1]);
        lemma_run_one(c, st, c.stopbits.1);
        lemma_run_one(c, mid, c.stopbits.1);
        assert(Seq::new(1nat, |i: int| Err::<u8, Option<DecoderError>>(None)).push(Ok(b)) =~= seq![
            Err::<u8, Option<DecoderError>>(None)
        ] + seq![Ok::<u8, Option<DecoderError>>(b)]);
    }
}

/// The byte round trip: encoding any byte that fits the configured data
/// bits as a correctly timed frame and feeding that frame to the machine
/// in its initial state yields no byte, no error on every step but the
/// last, and exactly `Ok(b)` on the last, with the machine back in its
/// initial state.
pub proof fn lemma_byte_round_trip(c: DecoderConfig, b: u8)
    requires
        valid_config(c),
        c.startbits.1 != SignalCondition::Error,
        c.stopbits.1 != SignalCondition::Error,
        (b as u16) >> (c.num_databits as u16) == 0,
    ensures
        ({
            let inputs = encode_frame(c, b);
            let (st2, outs) = spec_decoder_run(c, initial_state(c), inputs);
            &&& st2 == initial_state(c)
            &&& outs.len() == inputs.len()
            &&& inputs.len() > 0
            &&& outs.last() == Ok::<u8, Option<DecoderError>>(b)
            &&& forall|i: int|
                0 <= i < outs.len() - 1 ==> outs[i] == Err::<u8, Option<DecoderError>>(None)
        }),
{
    let n = c.num_databits as int;
    let s_start = Seq::new(c.startbits.0 as nat, |i: int| c.startbits.1);
    let s_data = encode_data_bits(b, n);
    let s_par = if c.parity != Parity::NONE {
        seq![parity_level_for(c.parity, b)]
    } else {
        Seq::<SignalCondition>::empty()
    };
    let s_stop = Seq::new(c.stopbits.0 as nat, |i: int| c.stopbits.1);
    let inputs = encode_frame(c, b);
    assert(inputs =~= s_start + s_data + s_par + s_stop);

    lemma_start_phase(c, b);
    let st_data = DecoderState::WaitForDataBit(DecoderStateDataBit { config: c, data: 0, idx: 0 });
    assert((0u8 as u16) == (b as u16) & (((1u16 << 0u16) - 1) as u16)) by (bit_vector);
    assert(s_data =~= Seq::new(n as nat, |j: int| level_of_bit(bit_of(b, 0 + j))));
    lemma_data_phase(c, b, 0, 0);
    let st_after_data = if c.parity != Parity::NONE {
        DecoderState::WaitForParity(DecoderStateParity { config: c, data: b })
    } else {
        DecoderState::WaitForStopBit(
            DecoderStateStopBit { config: c, data: b, num_stopbits_received: 0 },
        )
    };
    let st_stop = DecoderState::WaitForStopBit(
        DecoderStateStopBit { config: c, data: b, num_stopbits_received: 0 },
    );
    if c.parity != Parity::NONE {
        lemma_parity_phase(c, b);
        lemma_run_one(c, st_after_data, parity_level_for(c.parity, b));
    }
    lemma_stop_phase(c, b);

    lemma_run_append(c, initial_state(c), s_start, s_data);
    let (st_ad, r_sd) = spec_decoder_run(c, initial_state(c), s_start + s_data);
    assert(st_ad == st_after_data);
    lemma_run_append(c, initial_state(c), s_start + s_data, s_par);
    assert((s_start + s_data) + s_par =~= s_start + s_data + s_par);
    let (st_ap, r_sdp) = spec_decoder_run(c, initial_state(c), s_start + s_data + s_par);
    assert(st_ap == st_stop);
    lemma_run_append(c, initial_state(c), s_start + s_data + s_par, s_stop);
    assert((s_start + s_data + s_par) + s_stop =~= inputs);

    let (st2, outs) = spec_decoder_run(c, initial_state(c), inputs);
    assert(st2 == initial_state(c));
    assert(outs =~= r_sdp + spec_decoder_run(c, st_stop, s_stop).1);
    assert(outs.len() == inputs.len());
    assert(outs.last() == Ok::<u8, Option<DecoderError>>(b));
    assert forall|i: int| 0 <= i < outs.len() - 1 implies outs[i] == Err::<u8, Option<
        DecoderError,
    >>(None) by {
    }
}

} // verus!
