//! The whole decoding pipeline for one channel and one crossing direction:
//! zero-crossing detection, frequency identification, tone classification,
//! framing, and run splitting, composed into a single streaming transducer
//! that consumes one indexed sample per step.
//!
//! The caller feeds samples in index order and finally calls `finish`,
//! which clocks out a possibly in-progress byte with one synthetic `Mark`
//! (otherwise a byte ending exactly at the stream's end would be lost) and
//! flushes the last run.

use vstd::prelude::*;

use crate::config::valid_config;
use crate::config::DecoderConfig;
use crate::fid::spec_fid_step;
use crate::fid::FrequencyIdentifier;
use crate::hli::hli_config_ok;
use crate::hli::spec_hli_step;
use crate::hli::HiLowIdentifier;
use crate::signal::DecoderError;
use crate::signal::SignalCondition;
use crate::signal::ZeroCrossingDirection;
use crate::splitter::close_rel;
use crate::splitter::push_rel;
use crate::splitter::Artifact;
use crate::splitter::Splitter;
use crate::uart::spec_decoder_step;
use crate::uart::Decoder;
use crate::zcd::spec_zcd_step;
use crate::zcd::ZeroCrossingDetector;

verus! {

/// What one pipeline step hands back: at most one closed run, and the
/// framing error raised this step, if any, for the caller's log.
pub struct StepOutcome {
    pub artifact: Option<Artifact>,
    pub error: Option<DecoderError>,
}

/// What `finish` hands back: a run closed by the synthetic `Mark` (if it
/// raised a framing error), the final flushed run, and the framing error
/// raised by the synthetic `Mark`, if any.
pub struct FinishOutcome {
    pub pre_flush: Option<Artifact>,
    pub final_flush: Option<Artifact>,
    pub error: Option<DecoderError>,
}

/// The front end of the pipeline: one sample through detector, frequency
/// identifier and classifier, to at most one indexed signal level.
pub open spec fn spec_front_end_step(
    zcd: ZeroCrossingDetector,
    fid: FrequencyIdentifier,
    hli: HiLowIdentifier,
    index: usize,
    sample: i64,
) -> (ZeroCrossingDetector, FrequencyIdentifier, HiLowIdentifier, Option<
    (usize, SignalCondition),
>) {
    let (zcd2, crossing) = spec_zcd_step(zcd, index, sample);
    match crossing {
        None => (zcd2, fid, hli, None),
        Some(c) => {
            let (fid2, freq) = spec_fid_step(fid, c.0, c.1);
            match freq {
                None => (zcd2, fid2, hli, None),
                Some(fp) => {
                    let (hli2, symbol) = spec_hli_step(hli, fp.0, fp.1);
                    (zcd2, fid2, hli2, symbol)
                },
            }
        },
    }
}

/// The framing error carried by a decoder step result, if any.
pub open spec fn framing_error_of(r: Result<u8, Option<DecoderError>>) -> Option<DecoderError> {
    match r {
        Err(Some(e)) => Some(e),
        _ => None,
    }
}

/// The framing state machine only ever raises `Sync`, `Parity` or
/// `Signal`.
pub proof fn lemma_decoder_step_errors(c: DecoderConfig, st: crate::uart::DecoderState, level: SignalCondition)
    ensures
        ({
            let (st2, r) = spec_decoder_step(c, st, level);
            r matches Err(Some(e)) ==> (e == DecoderError::Sync || e == DecoderError::Parity || e
                == DecoderError::Signal)
        }),
{
}

/// A configuration the pipeline can be built from: valid bit counts, tone
/// parameters that fit the classifier's integer types, and classifier
/// checks that pass. `symbols.0` is the low tone and `symbols.1` the high
/// tone.
pub open spec fn pipeline_config_ok(c: DecoderConfig) -> bool {
    &&& valid_config(c)
    &&& c.symbols.0.frequency <= u32::MAX
    &&& c.symbols.1.frequency <= u32::MAX
    &&& c.symbols.0.periods <= u8::MAX
    &&& c.symbols.1.periods <= u8::MAX
    &&& c.frequency_tolerance <= 50
    &&& hli_config_ok(
        c.symbols.1.frequency as u32,
        c.symbols.0.frequency as u32,
        c.frequency_tolerance as u8,
        (c.symbols.0.periods as u8, c.symbols.0.signal),
        (c.symbols.1.periods as u8, c.symbols.1.signal),
    )
}

/// One decoding pipeline. Its state is exactly the five stages' states.
pub struct DecodePipeline {
    pub zcd: ZeroCrossingDetector,
    pub fid: FrequencyIdentifier,
    pub hli: HiLowIdentifier,
    pub decoder: Decoder,
    pub splitter: Splitter,
}

impl DecodePipeline {
    pub open spec fn wf(self) -> bool {
        &&& self.zcd.wf()
        &&& self.hli.wf()
        &&& self.decoder.wf()
        &&& self.splitter.wf()
    }

    /// The earliest sample index the next step may carry: matching
    /// crossings must not move backwards.
    pub open spec fn next_index_floor(self) -> usize {
        match self.fid.last_sample_idx {
            Some(prev) => prev,
            None => 0,
        }
    }

    /// Builds the pipeline for one channel cut and one crossing direction;
    /// `None` iff the configuration cannot drive it. Runs shorter than
    /// `min_run_len` bytes are discarded when they close.
    pub fn new(
        config: &DecoderConfig,
        zc_direction: ZeroCrossingDirection,
        sample_rate: u32,
        hysteresis: i64,
        min_run_len: usize,
    ) -> (r: Option<DecodePipeline>)
        requires
            hysteresis >= 0,
        ensures
            r is Some <==> pipeline_config_ok(*config),
            r matches Some(p) ==> {
                &&& p.wf()
                &&& p.zcd == (ZeroCrossingDetector { last_sample: 0i64, hysteresis })
                &&& p.fid == (FrequencyIdentifier {
                    start_direction: zc_direction,
                    last_sample_idx: None::<usize>,
                    sample_frequency: sample_rate,
                })
                &&& p.hli == (HiLowIdentifier {
                    high_frequency: config.symbols.1.frequency as u32,
                    low_frequency: config.symbols.0.frequency as u32,
                    tolerance_percent: config.frequency_tolerance as u8,
                    low_symbol: (config.symbols.0.periods as u8, config.symbols.0.signal),
                    high_symbol: (config.symbols.1.periods as u8, config.symbols.1.signal),
                    accumulated_periods: 0u64,
                })
                &&& p.decoder.config == *config
                &&& p.decoder.state == crate::uart::initial_state(*config)
                &&& p.splitter.min_len == min_run_len
                &&& p.splitter.run_start == 0
                &&& p.splitter.buffer@ == Seq::<u8>::empty()
                &&& p.splitter.history@ == Seq::<u8>::empty()
                &&& p.splitter.emitted@ == Seq::<u8>::empty()
            },
    {
        if config.symbols.0.frequency > u32::MAX as usize || config.symbols.1.frequency
            > u32::MAX as usize || config.symbols.0.periods > u8::MAX as usize
            || config.symbols.1.periods > u8::MAX as usize || config.frequency_tolerance > 50 {
            return None;
        }
        let hli = match HiLowIdentifier::new(
            config.symbols.1.frequency as u32,
            config.symbols.0.frequency as u32,
            config.frequency_tolerance as u8,
            (config.symbols.0.periods as u8, config.symbols.0.signal),
            (config.symbols.1.periods as u8, config.symbols.1.signal),
        ) {
            Some(h) => h,
            None => {
                return None;
            },
        };
        let decoder = match Decoder::new(*config) {
            Some(d) => d,
            None => {
                return None;
            },
        };
        Some(
            DecodePipeline {
                zcd: ZeroCrossingDetector::new(hysteresis),
                fid: FrequencyIdentifier::new(zc_direction, sample_rate),
                hli,
                decoder,
                splitter: Splitter::new(min_run_len),
            },
        )
    }

    /// One indexed sample through the whole pipeline. The front end moves
    /// as its three step functions say; when it emits a signal level, the
    /// framing machine consumes it and the splitter takes the result.
    pub fn step(&mut self, index: usize, sample: i64) -> (r: StepOutcome)
        requires
            old(self).wf(),
            index >= old(self).next_index_floor(),
        ensures
            final(self).wf(),
            final(self).decoder.config == old(self).decoder.config,
            final(self).splitter.min_len == old(self).splitter.min_len,
            ({
                let (zcd2, fid2, hli2, symbol) = spec_front_end_step(
                    old(self).zcd,
                    old(self).fid,
                    old(self).hli,
                    index,
                    sample,
                );
                &&& final(self).zcd == zcd2
                &&& final(self).fid == fid2
                &&& final(self).hli == hli2
                &&& match symbol {
                    None => {
                        &&& final(self).decoder == old(self).decoder
                        &&& final(self).splitter == old(self).splitter
                        &&& r.artifact is None
                        &&& r.error is None
                    },
                    Some(s) => {
                        let (dst, res) = spec_decoder_step(
                            old(self).decoder.config,
                            old(self).decoder.state,
                            s.1,
                        );
                        &&& final(self).decoder.state == dst
                        &&& r.error == framing_error_of(res)
                        &&& push_rel(old(self).splitter, s.0, res, final(self).splitter, r.artifact)
                    },
                }
            }),
    {
        let crossing = self.zcd.process((index, sample));
        let symbol = match crossing {
            None => None,
            Some(c) => match self.fid.process(c) {
                None => None,
                Some(fp) => self.hli.process(fp),
            },
        };
        match symbol {
            None => StepOutcome { artifact: None, error: None },
            Some((emit_index, level)) => {
                proof {
                    lemma_decoder_step_errors(self.decoder.config, self.decoder.state, level);
                }
                let res = self.decoder.process(level);
                let error = match &res {
                    Err(Some(DecoderError::Sync)) => Some(DecoderError::Sync),
                    Err(Some(DecoderError::Parity)) => Some(DecoderError::Parity),
                    Err(Some(DecoderError::Signal)) => Some(DecoderError::Signal),
                    _ => None,
                };
                let artifact = self.splitter.push(emit_index, res);
                StepOutcome { artifact, error }
            },
        }
    }

    /// End of stream: one synthetic `Mark` at index zero clocks out a
    /// possibly in-progress byte, then the last run is flushed. The
    /// splitter goes through the two transitions `push_rel` and
    /// `close_rel` describe, in that order.
    pub fn finish(&mut self) -> (r: FinishOutcome)
        requires
            old(self).wf(),
        ensures
            final(self).wf(),
            final(self).zcd == old(self).zcd,
            final(self).fid == old(self).fid,
            final(self).hli == old(self).hli,
            final(self).decoder.config == old(self).decoder.config,
            ({
                let (dst, res) = spec_decoder_step(
                    old(self).decoder.config,
                    old(self).decoder.state,
                    SignalCondition::Mark,
                );
                &&& final(self).decoder.state == dst
                &&& r.error == framing_error_of(res)
                &&& exists|mid: Splitter|
                    #[trigger] push_rel(old(self).splitter, 0, res, mid, r.pre_flush) && close_rel(
                        mid,
                        0,
                        final(self).splitter,
                        r.final_flush,
                    )
            }),
    {
        proof {
            lemma_decoder_step_errors(
                self.decoder.config,
                self.decoder.state,
                SignalCondition::Mark,
            );
        }
        let res = self.decoder.process(SignalCondition::Mark);
        let error = match &res {
            Err(Some(DecoderError::Sync)) => Some(DecoderError::Sync),
            Err(Some(DecoderError::Parity)) => Some(DecoderError::Parity),
            Err(Some(DecoderError::Signal)) => Some(DecoderError::Signal),
            _ => None,
        };
        let pre_flush = self.splitter.push(0, res);
        let ghost mid = self.splitter;
        let final_flush = self.splitter.close_run(0);
        proof {
            assert(push_rel(old(self).splitter, 0, res, mid, pre_flush) && close_rel(
                mid,
                0,
                self.splitter,
                final_flush,
            ));
        }
        FinishOutcome { pre_flush, final_flush, error }
    }
}

} // verus!
