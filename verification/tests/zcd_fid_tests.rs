use kcs_decoder::Frequency;
use kcs_decoder::FrequencyIdentifier;
use kcs_decoder::ZeroCrossingDetector;
use kcs_decoder::ZeroCrossingDirection;

#[test]
fn zerocrossingdetector_transition_both_ways() {
    let mut zc = ZeroCrossingDetector::new(0);
    let data = [0i64, -1, -1, 1, 1, 1, -1, -1].into_iter();
    let output = data
        .enumerate()
        .filter_map(|val| zc.process(val))
        .collect::<Vec<_>>();

    assert_eq!(
        output,
        vec![
            (1, ZeroCrossingDirection::Neg),
            (3, ZeroCrossingDirection::Pos),
            (6, ZeroCrossingDirection::Neg)
        ]
    );
}

#[test]
fn zerocrossingdetector_hysteresis() {
    // Amplitudes in hundredths of full scale; the threshold is 0.10 of
    // full scale. The transition is not reported until the sample at
    // index 8, the first that clears the threshold with a negative sign.
    let mut zc = ZeroCrossingDetector::new(10);

    let data = [0i64, 100, 100, -9, 1, 0, 100, 100, -11, 9].into_iter();
    let output = data
        .enumerate()
        .filter_map(|val| zc.process(val))
        .collect::<Vec<_>>();

    assert_eq!(output, vec![(8, ZeroCrossingDirection::Neg)]);
}

#[test]
fn zerocrossingdetector_quiet_stream_is_silent() {
    let mut zc = ZeroCrossingDetector::new(50);
    let data = [0i64, 49, -49, 12, -3, 30, -30, 49, -49].into_iter();
    let output = data
        .enumerate()
        .filter_map(|val| zc.process(val))
        .collect::<Vec<_>>();
    assert_eq!(output, vec![]);
}

#[test]
fn zerocrossingdetector_negative_hysteresis_is_magnitude() {
    let mut a = ZeroCrossingDetector::new(-10);
    let mut b = ZeroCrossingDetector::new(10);
    for (i, s) in [0i64, 100, -9, -11, 100].into_iter().enumerate() {
        assert_eq!(a.process((i, s)), b.process((i, s)));
    }
}

#[test]
fn frequency_identifier_valid_signal() {
    let sample_frequency = 4000u32;
    let mut frq_identifier =
        FrequencyIdentifier::new(ZeroCrossingDirection::Pos, sample_frequency);

    // Periods when looking from pos->pos:
    // 4, 5, 100
    // When looking from neg->neg:
    // 4, 80
    let data = [
        (0, ZeroCrossingDirection::Pos),
        (2, ZeroCrossingDirection::Neg),
        (4, ZeroCrossingDirection::Pos),
        (6, ZeroCrossingDirection::Neg),
        (9, ZeroCrossingDirection::Pos),
        (86, ZeroCrossingDirection::Neg),
        (109, ZeroCrossingDirection::Pos),
    ];
    let output = data
        .into_iter()
        .filter_map(|val| frq_identifier.process(val))
        .collect::<Vec<_>>();

    // 4000/4 = 1000 Hz, 4000/5 = 800 Hz, 4000/100 = 40 Hz.
    assert_eq!(
        output,
        vec![
            (4, Frequency { sample_rate: 4000, delta: 4 }),
            (9, Frequency { sample_rate: 4000, delta: 5 }),
            (109, Frequency { sample_rate: 4000, delta: 100 })
        ]
    );

    // Invert the direction but use same input data
    let mut frq_identifier =
        FrequencyIdentifier::new(ZeroCrossingDirection::Neg, sample_frequency);

    let output = data
        .into_iter()
        .filter_map(|val| frq_identifier.process(val))
        .collect::<Vec<_>>();

    // 4000/4 = 1000 Hz, 4000/80 = 50 Hz.
    assert_eq!(
        output,
        vec![
            (6, Frequency { sample_rate: 4000, delta: 4 }),
            (86, Frequency { sample_rate: 4000, delta: 80 })
        ]
    );
}

#[test]
fn frequency_identifier_missing_transitions() {
    // It does not matter if transitions are missing, i.e. two of the same
    // directions follow each other. It will only look for either Pos or
    // Neg depending on the config and ignore the other.
    let sample_frequency = 4000u32;
    let mut frq_identifier =
        FrequencyIdentifier::new(ZeroCrossingDirection::Pos, sample_frequency);

    let data = [
        (0, ZeroCrossingDirection::Pos),
        (2, ZeroCrossingDirection::Pos),
        (6, ZeroCrossingDirection::Neg),
        (600, ZeroCrossingDirection::Neg),
        (6, ZeroCrossingDirection::Neg),
        (6, ZeroCrossingDirection::Neg),
        (7, ZeroCrossingDirection::Pos),
    ];

    let output = data
        .into_iter()
        .filter_map(|val| frq_identifier.process(val))
        .collect::<Vec<_>>();

    // 4000/2 = 2000 Hz, 4000/5 = 800 Hz.
    assert_eq!(
        output,
        vec![
            (2, Frequency { sample_rate: 4000, delta: 2 }),
            (7, Frequency { sample_rate: 4000, delta: 5 })
        ]
    );
}
