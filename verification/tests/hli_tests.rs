use kcs_decoder::Frequency;
use kcs_decoder::HiLowIdentifier;
use kcs_decoder::SignalCondition;

fn nascom_classifier() -> HiLowIdentifier {
    // High tone 2400 Hz carries Mark after 2 periods; low tone 1200 Hz
    // carries Space after 1 period; 10 percent tolerance.
    HiLowIdentifier::new(
        2400,
        1200,
        10,
        (1, SignalCondition::Space),
        (2, SignalCondition::Mark),
    )
    .unwrap()
}

#[test]
fn classifier_counts_periods_before_emitting() {
    let mut hli = nascom_classifier();
    // 4800/2 = 2400 Hz: first period accumulates, second emits Mark.
    let f = Frequency { sample_rate: 4800, delta: 2 };
    assert_eq!(hli.process((10, f)), None);
    assert_eq!(hli.process((12, f)), Some((12, SignalCondition::Mark)));
    // The counter was reset, so the next high period is silent again.
    assert_eq!(hli.process((14, f)), None);
}

#[test]
fn classifier_low_band_emits_space() {
    let mut hli = nascom_classifier();
    // 4800/4 = 1200 Hz: one period suffices.
    let f = Frequency { sample_rate: 4800, delta: 4 };
    assert_eq!(hli.process((4, f)), Some((4, SignalCondition::Space)));
}

#[test]
fn classifier_out_of_band_is_error_and_keeps_counter() {
    let mut hli = nascom_classifier();
    // 4800/3 = 1600 Hz: outside both 10 percent bands.
    let noise = Frequency { sample_rate: 4800, delta: 3 };
    assert_eq!(hli.process((7, noise)), Some((7, SignalCondition::Error)));
    assert_eq!(hli.accumulated_periods, 1);
    // The period already counted still counts toward the next Mark: one
    // more high period completes the two required.
    let high = Frequency { sample_rate: 4800, delta: 2 };
    assert_eq!(hli.process((9, high)), Some((9, SignalCondition::Mark)));
    assert_eq!(hli.accumulated_periods, 0);
}

#[test]
fn classifier_band_edges_are_half_open() {
    let mut hli = nascom_classifier();
    // The low band is [1080, 1320): 13200/10 = 1320 Hz lies outside,
    // 10800/10 = 1080 Hz inside.
    let at_upper = Frequency { sample_rate: 13200, delta: 10 };
    assert_eq!(hli.process((1, at_upper)), Some((1, SignalCondition::Error)));
    let at_lower = Frequency { sample_rate: 10800, delta: 10 };
    assert_eq!(hli.process((2, at_lower)), Some((2, SignalCondition::Space)));
}

#[test]
fn classifier_zero_delta_is_error() {
    let mut hli = nascom_classifier();
    // Two crossings at the same index: an infinite frequency, in no band.
    let inf = Frequency { sample_rate: 4800, delta: 0 };
    assert_eq!(hli.process((3, inf)), Some((3, SignalCondition::Error)));
}

#[test]
fn classifier_construction_checks() {
    // Overlapping bands: 950 lies inside the 10 percent band of 1000.
    assert!(HiLowIdentifier::new(
        1000,
        950,
        10,
        (1, SignalCondition::Space),
        (2, SignalCondition::Mark)
    )
    .is_none());
    // Tolerance over 50 percent.
    assert!(HiLowIdentifier::new(
        2400,
        1200,
        51,
        (1, SignalCondition::Space),
        (2, SignalCondition::Mark)
    )
    .is_none());
    // The two symbols must carry different signals.
    assert!(HiLowIdentifier::new(
        2400,
        1200,
        10,
        (1, SignalCondition::Mark),
        (2, SignalCondition::Mark)
    )
    .is_none());
    // The NASCOM parameters are accepted.
    assert!(HiLowIdentifier::new(
        2400,
        1200,
        10,
        (1, SignalCondition::Space),
        (2, SignalCondition::Mark)
    )
    .is_some());
}
