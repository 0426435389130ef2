//! High/low tone classification: maps an instantaneous frequency to a
//! `Mark` or `Space` symbol once enough periods of the same tone have been
//! counted, and to `Error` when the frequency lies outside both tolerance
//! bands.
//!
//! A band is the half-open interval `[c - c*tol/100, c + c*tol/100)` around
//! a centre frequency `c`. Membership of the exact rational frequency
//! `rate/delta` is decided by cross-multiplication, which is exact integer
//! arithmetic: `rate/delta` lies in the band iff
//! `c*(100-tol)*delta <= rate*100 < c*(100+tol)*delta`.

use vstd::prelude::*;

use crate::fid::Frequency;
use crate::signal::SignalCondition;

verus! {

/// Whether the plain frequency `f` Hz lies in the band around `center`.
pub open spec fn point_in_band(center: int, tol: int, f: int) -> bool {
    &&& center * (100 - tol) <= f * 100
    &&& f * 100 < center * (100 + tol)
}

/// Whether the rational frequency `f.sample_rate / f.delta` Hz lies in the
/// band around `center`. A zero `delta` (an infinite frequency) lies in no
/// band.
pub open spec fn in_band(center: int, tol: int, f: Frequency) -> bool {
    &&& center * (100 - tol) * (f.delta as int) <= (f.sample_rate as int) * 100
    &&& (f.sample_rate as int) * 100 < center * (100 + tol) * (f.delta as int)
}

/// Classifies frequencies into the two configured tone symbols.
#[derive(Debug, Clone, Copy)]
pub struct HiLowIdentifier {
    pub high_frequency: u32,
    pub low_frequency: u32,
    pub tolerance_percent: u8,
    pub low_symbol: (u8, SignalCondition),
    pub high_symbol: (u8, SignalCondition),
    pub accumulated_periods: u64,
}

/// The construction-time checks: the two tolerance bands must not contain
/// each other's centre, the tolerance is at most 50 percent, and the two
/// symbols must map to different signals.
pub open spec fn hli_config_ok(
    frequency_high: u32,
    frequency_low: u32,
    tolerance_percent: u8,
    low_symbol: (u8, SignalCondition),
    high_symbol: (u8, SignalCondition),
) -> bool {
    !(point_in_band(frequency_high as int, tolerance_percent as int, frequency_low as int)
        || point_in_band(frequency_low as int, tolerance_percent as int, frequency_high as int)
        || tolerance_percent > 50 || low_symbol.1 == high_symbol.1)
}

/// The period counter after one more period: it saturates instead of
/// wrapping, which can only matter after `u64::MAX` consecutive periods.
pub open spec fn spec_saturating_inc(acc: u64) -> u64 {
    if acc == u64::MAX {
        u64::MAX
    } else {
        (acc + 1) as u64
    }
}

/// One step of the classifier: every input counts one period. A frequency
/// in the high (low) band emits that symbol's signal and resets the counter
/// once the symbol's required periods have accumulated, and is silent
/// before that; a frequency outside both bands emits `Error` and leaves the
/// counter alone.
pub open spec fn spec_hli_step(st: HiLowIdentifier, index: usize, f: Frequency) -> (
    HiLowIdentifier,
    Option<(usize, SignalCondition)>,
) {
    let acc = spec_saturating_inc(st.accumulated_periods);
    if in_band(st.high_frequency as int, st.tolerance_percent as int, f) {
        if acc < st.high_symbol.0 as u64 {
            (with_accumulator(st, acc), None)
        } else {
            (with_accumulator(st, 0), Some((index, st.high_symbol.1)))
        }
    } else if in_band(st.low_frequency as int, st.tolerance_percent as int, f) {
        if acc < st.low_symbol.0 as u64 {
            (with_accumulator(st, acc), None)
        } else {
            (with_accumulator(st, 0), Some((index, st.low_symbol.1)))
        }
    } else {
        (with_accumulator(st, acc), Some((index, SignalCondition::Error)))
    }
}

/// The classifier with its period counter replaced.
pub open spec fn with_accumulator(st: HiLowIdentifier, acc: u64) -> HiLowIdentifier {
    HiLowIdentifier {
        high_frequency: st.high_frequency,
        low_frequency: st.low_frequency,
        tolerance_percent: st.tolerance_percent,
        low_symbol: st.low_symbol,
        high_symbol: st.high_symbol,
        accumulated_periods: acc,
    }
}

/// Whether the plain frequency `f` Hz lies in the band around `center`;
/// computed in 64 bits, which cannot overflow.
fn check_point_in_band(center: u32, tol: u8, f: u32) -> (r: bool)
    requires
        tol <= 100,
    ensures
        r == point_in_band(center as int, tol as int, f as int),
{
    let c = center as u64;
    proof {
        lemma_band_product_no_overflow(center as int, (100 - tol) as int, 1);
        lemma_band_product_no_overflow(center as int, (100 + tol) as int, 1);
    }
    let lo = c * ((100 - tol) as u64);
    let hi = c * ((100 + tol) as u64);
    let f100 = (f as u64) * 100;
    lo <= f100 && f100 < hi
}

/// Whether the rational frequency `f` lies in the band around `center`;
/// computed in 128 bits, which cannot overflow.
fn check_in_band(center: u32, tol: u8, f: Frequency) -> (r: bool)
    requires
        tol <= 100,
    ensures
        r == in_band(center as int, tol as int, f),
{
    let c = center as u128;
    let d = f.delta as u128;
    proof {
        lemma_band_product_no_overflow(center as int, (100 - tol) as int, f.delta as int);
        lemma_band_product_no_overflow(center as int, (100 + tol) as int, f.delta as int);
    }
    let lo = c * ((100 - tol) as u128) * d;
    let hi = c * ((100 + tol) as u128) * d;
    let rate100 = (f.sample_rate as u128) * 100;
    lo <= rate100 && rate100 < hi
}

proof fn lemma_band_product_no_overflow(c: int, m: int, d: int)
    requires
        0 <= c <= 0xffff_ffff,
        0 <= m <= 200,
        0 <= d <= 0xffff_ffff_ffff_ffff,
    ensures
        c * m * d <= 0xffff_ffff * 200 * 0xffff_ffff_ffff_ffff,
        c * m <= 0xffff_ffff * 200,
{
    assert(c * m * d <= 0xffff_ffff * 200 * 0xffff_ffff_ffff_ffff && c * m <= 0xffff_ffff * 200)
        by (nonlinear_arith)
        requires
            0 <= c <= 0xffff_ffff,
            0 <= m <= 200,
            0 <= d <= 0xffff_ffff_ffff_ffff,
    ;
}

impl HiLowIdentifier {
    /// The tolerance a classifier was built with never exceeds 50 percent.
    pub open spec fn wf(self) -> bool {
        self.tolerance_percent <= 50
    }

    /// Builds a classifier; `None` iff the configuration checks fail.
    pub fn new(
        frequency_high: u32,
        frequency_low: u32,
        tolerance_percent: u8,
        low_symbol: (u8, SignalCondition),
        high_symbol: (u8, SignalCondition),
    ) -> (r: Option<HiLowIdentifier>)
        ensures
            r is Some <==> hli_config_ok(
                frequency_high,
                frequency_low,
                tolerance_percent,
                low_symbol,
                high_symbol,
            ),
            r matches Some(h) ==> h == (HiLowIdentifier {
                high_frequency: frequency_high,
                low_frequency: frequency_low,
                tolerance_percent,
                low_symbol,
                high_symbol,
                accumulated_periods: 0,
            }) && h.wf(),
    {
        if tolerance_percent > 50 {
            return None;
        }
        if check_point_in_band(frequency_high, tolerance_percent, frequency_low)
            || check_point_in_band(frequency_low, tolerance_percent, frequency_high)
            || low_symbol.1 == high_symbol.1 {
            return None;
        }
        Some(
            HiLowIdentifier {
                high_frequency: frequency_high,
                low_frequency: frequency_low,
                tolerance_percent,
                low_symbol,
                high_symbol,
                accumulated_periods: 0,
            },
        )
    }

    /// One step, exactly as `spec_hli_step` describes it.
    pub fn process(&mut self, input: (usize, Frequency)) -> (r: Option<(usize, SignalCondition)>)
        requires
            old(self).wf(),
        ensures
            final(self).wf(),
            ({
                let (st2, out) = spec_hli_step(*old(self), input.0, input.1);
                *final(self) == st2 && r == out
            }),
    {
        let (sample_index, frequency) = input;
        let acc = if self.accumulated_periods == u64::MAX {
            u64::MAX
        } else {
            self.accumulated_periods + 1
        };
        if check_in_band(self.high_frequency, self.tolerance_percent, frequency) {
            if acc < self.high_symbol.0 as u64 {
                self.accumulated_periods = acc;
                None
            } else {
                self.accumulated_periods = 0;
                Some((sample_index, self.high_symbol.1))
            }
        } else if check_in_band(self.low_frequency, self.tolerance_percent, frequency) {
            if acc < self.low_symbol.0 as u64 {
                self.accumulated_periods = acc;
                None
            } else {
                self.accumulated_periods = 0;
                Some((sample_index, self.low_symbol.1))
            }
        } else {
            self.accumulated_periods = acc;
            Some((sample_index, SignalCondition::Error))
        }
    }
}

/// The period counter resets to zero exactly on the steps that emit a
/// `Mark` or `Space` symbol, and never otherwise; and a frequency outside
/// both bands always emits `Error`.
pub proof fn lemma_accumulator_resets_on_emission(st: HiLowIdentifier, index: usize, f: Frequency)
    requires
        st.low_symbol.1 != SignalCondition::Error,
        st.high_symbol.1 != SignalCondition::Error,
    ensures
        ({
            let (st2, out) = spec_hli_step(st, index, f);
            &&& (st2.accumulated_periods == 0 <==> (out matches Some(o) && o.1
                != SignalCondition::Error))
            &&& (!in_band(st.high_frequency as int, st.tolerance_percent as int, f) && !in_band(
                st.low_frequency as int,
                st.tolerance_percent as int,
                f,
            ) ==> out == Some((index, SignalCondition::Error)))
        }),
{
}

} // verus!
