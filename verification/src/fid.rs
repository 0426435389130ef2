//! Frequency identification: the spacing between two consecutive zero
//! crossings of the same direction is one full period of the tone, so the
//! instantaneous frequency is `sample_rate / (index - last_index)` Hz.
//!
//! A frequency is kept as the exact rational `sample_rate / delta` rather
//! than as a rounded quotient; downstream band checks compare such
//! rationals by cross-multiplication, which is exact.

use vstd::prelude::*;

use crate::signal::ZeroCrossingDirection;

verus! {

/// The exact instantaneous frequency `sample_rate / delta` Hz, where
/// `delta` is the sample distance between two same-direction crossings.
/// `delta` is zero only for two crossings at the same index, which no band
/// ever contains.
#[derive(Debug, Clone, Copy, PartialEq, Eq, Structural)]
pub struct Frequency {
    pub sample_rate: u32,
    pub delta: usize,
}

/// Turns crossings of the chosen direction into instantaneous frequencies;
/// crossings of the other direction are discarded, which makes the stage
/// tolerant of single missed transitions of the opposite polarity.
#[derive(Debug, Clone, Copy)]
pub struct FrequencyIdentifier {
    pub start_direction: ZeroCrossingDirection,
    pub last_sample_idx: Option<usize>,
    pub sample_frequency: u32,
}

/// One step: a crossing of the wrong direction changes nothing; a matching
/// crossing becomes the new reference point and, when a previous reference
/// exists, emits the frequency of the period between the two.
pub open spec fn spec_fid_step(
    st: FrequencyIdentifier,
    index: usize,
    direction: ZeroCrossingDirection,
) -> (FrequencyIdentifier, Option<(usize, Frequency)>) {
    if direction != st.start_direction {
        (st, None)
    } else {
        let st2 = FrequencyIdentifier {
            start_direction: st.start_direction,
            last_sample_idx: Some(index),
            sample_frequency: st.sample_frequency,
        };
        match st.last_sample_idx {
            Some(prev) => (
                st2,
                Some(
                    (
                        index,
                        Frequency {
                            sample_rate: st.sample_frequency,
                            delta: (index - prev) as usize,
                        },
                    ),
                ),
            ),
            None => (st2, None),
        }
    }
}

/// The whole identifier run over a stream of crossings, folding
/// `spec_fid_step` from the front.
pub open spec fn spec_fid_run(
    st: FrequencyIdentifier,
    inputs: Seq<(usize, ZeroCrossingDirection)>,
) -> (FrequencyIdentifier, Seq<(usize, Frequency)>)
    decreases inputs.len(),
{
    if inputs.len() == 0 {
        (st, Seq::empty())
    } else {
        let (st1, out) = spec_fid_step(st, inputs[0].0, inputs[0].1);
        let (st2, rest) = spec_fid_run(st1, inputs.drop_first());
        (
            st2,
            match out {
                Some(o) => seq![o] + rest,
                None => rest,
            },
        )
    }
}

impl FrequencyIdentifier {
    /// A fresh identifier for the chosen crossing direction: no reference
    /// crossing seen yet.
    pub fn new(start_direction: ZeroCrossingDirection, sample_frequency: u32) -> (r:
        FrequencyIdentifier)
        ensures
            r == (FrequencyIdentifier {
                start_direction,
                last_sample_idx: None::<usize>,
                sample_frequency,
            }),
    {
        FrequencyIdentifier { start_direction, last_sample_idx: None, sample_frequency }
    }

    /// One step, exactly as `spec_fid_step` describes it. Matching
    /// crossings must not move backwards in the stream.
    pub fn process(&mut self, input: (usize, ZeroCrossingDirection)) -> (r: Option<
        (usize, Frequency),
    >)
        requires
            old(self).last_sample_idx is Some && input.1 == old(self).start_direction ==> input.0
                >= old(self).last_sample_idx.unwrap(),
        ensures
            ({
                let (st2, out) = spec_fid_step(*old(self), input.0, input.1);
                *final(self) == st2 && r == out
            }),
    {
        let (sample_index, direction) = input;
        if direction != self.start_direction {
            return None;
        }
        let idx = self.last_sample_idx;
        self.last_sample_idx = Some(sample_index);
        match idx {
            Some(idx) => Some(
                (
                    sample_index,
                    Frequency { sample_rate: self.sample_frequency, delta: sample_index - idx },
                ),
            ),
            None => None,
        }
    }
}

/// The indices of the crossings that match the chosen direction, in order.
pub open spec fn matching_indices(
    dir: ZeroCrossingDirection,
    inputs: Seq<(usize, ZeroCrossingDirection)>,
) -> Seq<usize>
    decreases inputs.len(),
{
    if inputs.len() == 0 {
        Seq::empty()
    } else {
        let rest = matching_indices(dir, inputs.drop_first());
        if inputs[0].1 == dir {
            seq![inputs[0].0] + rest
        } else {
            rest
        }
    }
}

/// The frequencies of the periods between consecutive indices of `idxs`:
/// for each adjacent pair, one point at the later index whose frequency is
/// `rate / (difference of the pair)`.
pub open spec fn pairwise_frequencies(rate: u32, idxs: Seq<usize>) -> Seq<(usize, Frequency)>
    decreases idxs.len(),
{
    if idxs.len() < 2 {
        Seq::empty()
    } else {
        seq![(idxs[1], Frequency { sample_rate: rate, delta: (idxs[1] - idxs[0]) as usize })]
            + pairwise_frequencies(rate, idxs.drop_first())
    }
}

/// A sequence of indices that never decreases.
pub open spec fn indices_ascending(idxs: Seq<usize>) -> bool {
    forall|i: int, j: int| 0 <= i < j < idxs.len() ==> idxs[i] <= idxs[j]
}

/// The identifier's reference point, if any, followed by the matching
/// indices of the stream: every period the run can measure.
pub open spec fn reference_chain(
    st: FrequencyIdentifier,
    inputs: Seq<(usize, ZeroCrossingDirection)>,
) -> Seq<usize> {
    match st.last_sample_idx {
        Some(prev) => seq![prev] + matching_indices(st.start_direction, inputs),
        None => matching_indices(st.start_direction, inputs),
    }
}

/// Over any stream whose matching crossings move forward, the identifier
/// emits exactly one frequency point per consecutive pair of matching
/// crossings: at the later index, with the exact frequency
/// `sample_rate / Δindex`.
pub proof fn lemma_fid_run_outputs(
    st: FrequencyIdentifier,
    inputs: Seq<(usize, ZeroCrossingDirection)>,
)
    requires
        indices_ascending(reference_chain(st, inputs)),
    ensures
        spec_fid_run(st, inputs).1 =~= pairwise_frequencies(
            st.sample_frequency,
            reference_chain(st, inputs),
        ),
    decreases inputs.len(),
{
    let chain = reference_chain(st, inputs);
    if inputs.len() != 0 {
        let (st1, out) = spec_fid_step(st, inputs[0].0, inputs[0].1);
        let rest = inputs.drop_first();
        let m_rest = matching_indices(st.start_direction, rest);
        if inputs[0].1 == st.start_direction {
            let m = matching_indices(st.start_direction, inputs);
            assert(m == seq![inputs[0].0] + m_rest);
            assert(reference_chain(st1, rest) == seq![inputs[0].0] + m_rest);
            match st.last_sample_idx {
                Some(prev) => {
                    assert(chain =~= seq![prev, inputs[0].0] + m_rest);
                    assert(chain.drop_first() =~= reference_chain(st1, rest));
                    assert(indices_ascending(reference_chain(st1, rest)));
                    lemma_fid_run_outputs(st1, rest);
                    assert(chain[0] == prev && chain[1] == inputs[0].0);
                },
                None => {
                    assert(chain =~= reference_chain(st1, rest));
                    lemma_fid_run_outputs(st1, rest);
                },
            }
        } else {
            assert(reference_chain(st1, rest) =~= chain);
            lemma_fid_run_outputs(st1, rest);
        }
    }
}

/// Over an ascending chain the emitted points are themselves ascending in
/// index: the identifier's output is monotonic.
pub proof fn lemma_pairwise_frequencies_ascending(rate: u32, idxs: Seq<usize>)
    requires
        indices_ascending(idxs),
    ensures
        forall|i: int, j: int|
            0 <= i < j < pairwise_frequencies(rate, idxs).len() ==> #[trigger] pairwise_frequencies(
                rate,
                idxs,
            )[i].0 <= #[trigger] pairwise_frequencies(rate, idxs)[j].0,
    decreases idxs.len(),
{
    if idxs.len() >= 2 {
        assert(indices_ascending(idxs.drop_first()));
        lemma_pairwise_frequencies_ascending(rate, idxs.drop_first());
        let p = pairwise_frequencies(rate, idxs);
        let p_rest = pairwise_frequencies(rate, idxs.drop_first());
        assert forall|i: int, j: int| 0 <= i < j < p.len() implies #[trigger] p[i].0
            <= #[trigger] p[j].0 by {
            if i == 0 {
                assert(p[0].0 == idxs[1]);
                assert(p[j] == p_rest[j - 1]);
                if j - 1 == 0 {
                    assert(p_rest[0].0 == idxs.drop_first()[1]);
                    assert(idxs.drop_first()[1] == idxs[2]);
                } else {
                    assert(p_rest[0].0 <= p_rest[j - 1].0);
                    assert(p_rest[0].0 == idxs[2]);
                }
            } else {
                assert(p[i] == p_rest[i - 1] && p[j] == p_rest[j - 1]);
            }
        }
    }
}

} // verus!
