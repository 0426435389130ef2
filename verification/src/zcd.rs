//! Zero-crossing detection with hysteresis.
//!
//! Samples are signed amplitudes on an arbitrary linear scale (for PCM
//! input: the raw sample value re-centred around zero); the detector only
//! ever compares signs and magnitudes, so the scale does not matter as long
//! as the hysteresis threshold is given on the same scale. Samples whose
//! magnitude stays below the threshold are suppressed entirely, so the
//! detector compares each confident sample against the last confident
//! polarity, not against the most recent raw sample.

use vstd::prelude::*;

use crate::signal::ZeroCrossingDirection;

verus! {

/// A sample is confident when its magnitude reaches the hysteresis
/// threshold.
pub open spec fn confident(sample: int, hysteresis: int) -> bool {
    sample >= hysteresis || sample <= -hysteresis
}

/// Zero is treated as positive.
pub open spec fn sign_is_positive(sample: int) -> bool {
    sample >= 0
}

/// Detects sign changes between consecutive confident samples.
#[derive(Debug, Clone, Copy)]
pub struct ZeroCrossingDetector {
    pub last_sample: i64,
    pub hysteresis: i64,
}

/// One step of the detector: a suppressed sample changes nothing; a
/// confident one replaces `last_sample` and is reported iff its sign
/// differs from the previous confident sample's sign.
pub open spec fn spec_zcd_step(st: ZeroCrossingDetector, index: usize, sample: i64) -> (
    ZeroCrossingDetector,
    Option<(usize, ZeroCrossingDirection)>,
) {
    if !confident(sample as int, st.hysteresis as int) {
        (st, None)
    } else {
        let st2 = ZeroCrossingDetector { last_sample: sample, hysteresis: st.hysteresis };
        if sign_is_positive(sample as int) != sign_is_positive(st.last_sample as int) {
            (
                st2,
                Some(
                    (
                        index,
                        if sign_is_positive(sample as int) {
                            ZeroCrossingDirection::Pos
                        } else {
                            ZeroCrossingDirection::Neg
                        },
                    ),
                ),
            )
        } else {
            (st2, None)
        }
    }
}

/// The whole detector run over a stream of indexed samples, folding
/// `spec_zcd_step` from the front.
pub open spec fn spec_zcd_run(st: ZeroCrossingDetector, inputs: Seq<(usize, i64)>) -> (
    ZeroCrossingDetector,
    Seq<(usize, ZeroCrossingDirection)>,
)
    decreases inputs.len(),
{
    if inputs.len() == 0 {
        (st, Seq::empty())
    } else {
        let (st1, out) = spec_zcd_step(st, inputs[0].0, inputs[0].1);
        let (st2, rest) = spec_zcd_run(st1, inputs.drop_first());
        (
            st2,
            match out {
                Some(o) => seq![o] + rest,
                None => rest,
            },
        )
    }
}

impl ZeroCrossingDetector {
    pub open spec fn wf(self) -> bool {
        self.hysteresis >= 0
    }

    /// A fresh detector: the initial confident polarity is positive
    /// (`last_sample` zero); the threshold is stored as a magnitude.
    pub fn new(hysteresis: i64) -> (r: ZeroCrossingDetector)
        requires
            hysteresis > i64::MIN,
        ensures
            r.last_sample == 0,
            r.hysteresis as int == (if hysteresis < 0 {
                -(hysteresis as int)
            } else {
                hysteresis as int
            }),
            r.wf(),
    {
        ZeroCrossingDetector {
            last_sample: 0,
            hysteresis: if hysteresis < 0 {
                -hysteresis
            } else {
                hysteresis
            },
        }
    }

    /// One step, exactly as `spec_zcd_step` describes it. The reported
    /// direction is the sign of the sample after the crossing.
    pub fn process(&mut self, input: (usize, i64)) -> (r: Option<(usize, ZeroCrossingDirection)>)
        requires
            old(self).wf(),
        ensures
            final(self).wf(),
            ({
                let (st2, out) = spec_zcd_step(*old(self), input.0, input.1);
                *final(self) == st2 && r == out
            }),
    {
        let (last_sample_index, sample) = input;
        if sample > -self.hysteresis && sample < self.hysteresis {
            return None;
        }
        let last_sample = self.last_sample;
        self.last_sample = sample;
        if (sample >= 0) != (last_sample >= 0) {
            if sample >= 0 {
                Some((last_sample_index, ZeroCrossingDirection::Pos))
            } else {
                Some((last_sample_index, ZeroCrossingDirection::Neg))
            }
        } else {
            None
        }
    }
}

/// A stream whose samples all stay below the hysteresis threshold produces
/// no output and leaves the detector unchanged.
pub proof fn lemma_quiet_stream_emits_nothing(st: ZeroCrossingDetector, inputs: Seq<(usize, i64)>)
    requires
        forall|i: int|
            0 <= i < inputs.len() ==> !confident(#[trigger] inputs[i].1 as int, st.hysteresis as int),
    ensures
        spec_zcd_run(st, inputs).0 == st,
        spec_zcd_run(st, inputs).1 =~= Seq::<(usize, ZeroCrossingDirection)>::empty(),
    decreases inputs.len(),
{
    if inputs.len() != 0 {
        assert(inputs[0] == inputs[0]);
        assert(forall|i: int|
            0 <= i < inputs.drop_first().len() ==> !confident(
                #[trigger] inputs.drop_first()[i].1 as int,
                st.hysteresis as int,
            ));
        lemma_quiet_stream_emits_nothing(st, inputs.drop_first());
    }
}

/// The confident samples of a stream, in order, as mathematical integers.
pub open spec fn confident_samples(hysteresis: int, inputs: Seq<(usize, i64)>) -> Seq<int>
    decreases inputs.len(),
{
    if inputs.len() == 0 {
        Seq::empty()
    } else {
        let rest = confident_samples(hysteresis, inputs.drop_first());
        if confident(inputs[0].1 as int, hysteresis) {
            seq![inputs[0].1 as int] + rest
        } else {
            rest
        }
    }
}

/// How often the sign changes between consecutive samples of `samples`,
/// starting from the sign of `last`.
pub open spec fn sign_flips(last: int, samples: Seq<int>) -> int
    decreases samples.len(),
{
    if samples.len() == 0 {
        0
    } else {
        (if sign_is_positive(samples[0]) != sign_is_positive(last) {
            1int
        } else {
            0int
        }) + sign_flips(samples[0], samples.drop_first())
    }
}

/// The number of crossings the detector reports equals the number of sign
/// flips between consecutive confident samples, starting from the last
/// confident polarity held by the detector.
pub proof fn lemma_output_count_is_sign_flips(st: ZeroCrossingDetector, inputs: Seq<(usize, i64)>)
    ensures
        spec_zcd_run(st, inputs).1.len() == sign_flips(
            st.last_sample as int,
            confident_samples(st.hysteresis as int, inputs),
        ),
    decreases inputs.len(),
{
    if inputs.len() != 0 {
        let (st1, out) = spec_zcd_step(st, inputs[0].0, inputs[0].1);
        lemma_output_count_is_sign_flips(st1, inputs.drop_first());
        let h = st.hysteresis as int;
        let s0 = inputs[0].1 as int;
        let cs = confident_samples(h, inputs.drop_first());
        if confident(s0, h) {
            assert((seq![s0] + cs).drop_first() =~= cs);
            assert((seq![s0] + cs)[0] == s0);
        }
    }
}

} // verus!
