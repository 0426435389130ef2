use kcs_decoder::Decoder;
use kcs_decoder::DecoderConfig;
use kcs_decoder::DecoderError;
use kcs_decoder::DecoderState;
use kcs_decoder::SignalCondition;

#[test]
fn decoder_8n1_byte_success() {
    let mut decoder = Decoder::new(DecoderConfig::default()).unwrap();

    // Two bytes: 0b10000000 (0x80) and 0b01010101 (0x55)
    let data: Vec<(usize, SignalCondition)> = vec![
        (0, SignalCondition::Mark),   // Idle
        (1, SignalCondition::Mark),   // Idle
        (9, SignalCondition::Space),  // Start bit
        (10, SignalCondition::Space), // Data bit 0
        (11, SignalCondition::Space), // Data bit 1
        (12, SignalCondition::Space), // Data bit 2
        (13, SignalCondition::Space), // Data bit 3
        (14, SignalCondition::Space), // Data bit 4
        (15, SignalCondition::Space), // Data bit 5
        (16, SignalCondition::Space), // Data bit 6
        (17, SignalCondition::Mark),  // Data bit 7
        (18, SignalCondition::Mark),  // Stop bit
        (29, SignalCondition::Space), // Start bit
        (30, SignalCondition::Mark),  // Data bit 0
        (31, SignalCondition::Space), // Data bit 1
        (32, SignalCondition::Mark),  // Data bit 2
        (33, SignalCondition::Space), // Data bit 3
        (34, SignalCondition::Mark),  // Data bit 4
        (35, SignalCondition::Space), // Data bit 5
        (36, SignalCondition::Mark),  // Data bit 6
        (37, SignalCondition::Space), // Data bit 7
        (38, SignalCondition::Mark),  // Stop bit
        (40, SignalCondition::Mark),  // Idle
    ];

    let output = data
        .into_iter()
        .map(|(idx, val)| (idx, decoder.process(val)))
        .filter(|(_idx, val)| {
            val.as_ref().is_ok()
                | (val.as_ref().is_err() && val.as_ref().err().unwrap().is_some())
        })
        .collect::<Vec<_>>();

    assert_eq!(output, vec![(18usize, Ok(0x80)), (38, Ok(0x55)),]);
}

#[test]
fn decoder_8n1_byte_missing_stop_bit() {
    let mut decoder = Decoder::new(DecoderConfig::default()).unwrap();

    // One byte 0b01111111 framed correctly until the stop position, where a
    // Space arrives instead of the expected Mark.
    let data: Vec<(usize, SignalCondition)> = vec![
        (0, SignalCondition::Mark),   // Idle
        (1, SignalCondition::Mark),   // Idle
        (9, SignalCondition::Space),  // Start bit
        (10, SignalCondition::Mark),  // Data bit 0
        (11, SignalCondition::Mark),  // Data bit 1
        (12, SignalCondition::Mark),  // Data bit 2
        (13, SignalCondition::Mark),  // Data bit 3
        (14, SignalCondition::Mark),  // Data bit 4
        (15, SignalCondition::Mark),  // Data bit 5
        (16, SignalCondition::Mark),  // Data bit 6
        (17, SignalCondition::Space), // Data bit 7
        (18, SignalCondition::Space), // Stop bit
        (19, SignalCondition::Mark),  // Idle
    ];

    let output = data
        .into_iter()
        .map(|(idx, val)| (idx, decoder.process(val)))
        .filter(|(_idx, val)| {
            val.as_ref().is_ok()
                | (val.as_ref().is_err() && val.as_ref().err().unwrap().is_some())
        })
        .collect::<Vec<_>>();

    assert_eq!(output, vec![(18, Err(Some(DecoderError::Sync)))]);
}

#[test]
fn decoder_8n1_byte_missing_error_input() {
    let mut decoder = Decoder::new(DecoderConfig::default()).unwrap();

    // A single Error level in the middle of the data phase.
    let data: Vec<(usize, SignalCondition)> = vec![
        (0, SignalCondition::Mark),   // Idle
        (1, SignalCondition::Mark),   // Idle
        (9, SignalCondition::Space),  // Start bit
        (10, SignalCondition::Mark),  // Data bit 0
        (11, SignalCondition::Mark),  // Data bit 1
        (12, SignalCondition::Mark),  // Data bit 2
        (13, SignalCondition::Mark),  // Data bit 3
        (14, SignalCondition::Mark),  // Data bit 4
        (15, SignalCondition::Error), // Data bit 5
        (16, SignalCondition::Mark),  // Data bit 6
        (17, SignalCondition::Space), // Data bit 7
        (18, SignalCondition::Space), // Stop bit
    ];

    let output = data
        .into_iter()
        .map(|(idx, val)| (idx, decoder.process(val)))
        .filter(|(_idx, val)| {
            val.as_ref().is_ok()
                | (val.as_ref().is_err() && val.as_ref().err().unwrap().is_some())
        })
        .collect::<Vec<_>>();

    assert_eq!(output, vec![(15, Err(Some(DecoderError::Signal))),]);
}

#[test]
fn decoder_resets_to_wait_start_after_framing_error() {
    let mut decoder = Decoder::new(DecoderConfig::default()).unwrap();

    // Start plus some data bits, then an Error: the state machine must be
    // back in the initial wait-for-start state with no start bits counted.
    assert_eq!(decoder.process(SignalCondition::Space), Err(None));
    assert_eq!(decoder.process(SignalCondition::Mark), Err(None));
    assert_eq!(decoder.process(SignalCondition::Mark), Err(None));
    assert_eq!(
        decoder.process(SignalCondition::Error),
        Err(Some(DecoderError::Signal))
    );
    assert!(matches!(
        decoder.state,
        DecoderState::WaitForStartBit(s) if s.idx == 0
    ));

    // After the reset a clean frame decodes normally.
    assert_eq!(decoder.process(SignalCondition::Space), Err(None));
    for _ in 0..8 {
        assert_eq!(decoder.process(SignalCondition::Mark), Err(None));
    }
    assert_eq!(decoder.process(SignalCondition::Mark), Ok(0xff));
}

#[test]
fn decoder_two_start_bits_and_parity() {
    // 2 start bits (Space), 7 data bits, even parity, 2 stop bits (Mark).
    let mut config = DecoderConfig::get_preset(&kcs_decoder::Preset::Std);
    config.startbits = (2, SignalCondition::Space);
    config.num_databits = 7;
    config.parity = kcs_decoder::Parity::EVEN;
    config.stopbits = (2, SignalCondition::Mark);
    let mut decoder = Decoder::new(config).unwrap();

    // Byte 0b0101001 = 0x29: bits LSB first 1,0,0,1,0,1,0 -> three marks.
    let bits = [true, false, false, true, false, true, false];
    assert_eq!(decoder.process(SignalCondition::Space), Err(None));
    assert_eq!(decoder.process(SignalCondition::Space), Err(None));
    for bit in bits {
        let level = if bit { SignalCondition::Mark } else { SignalCondition::Space };
        assert_eq!(decoder.process(level), Err(None));
    }
    // Three marks: odd count, so the accepted even-parity bit is Space.
    assert_eq!(decoder.process(SignalCondition::Space), Err(None));
    assert_eq!(decoder.process(SignalCondition::Mark), Err(None));
    assert_eq!(decoder.process(SignalCondition::Mark), Ok(0x29));
}

#[test]
fn decoder_parity_mismatch_reports_parity_error() {
    let mut config = DecoderConfig::default();
    config.parity = kcs_decoder::Parity::MARK;
    let mut decoder = Decoder::new(config).unwrap();

    assert_eq!(decoder.process(SignalCondition::Space), Err(None));
    for _ in 0..8 {
        assert_eq!(decoder.process(SignalCondition::Space), Err(None));
    }
    // Mark parity demands a Mark; a Space must be rejected.
    assert_eq!(
        decoder.process(SignalCondition::Space),
        Err(Some(DecoderError::Parity))
    );
}

#[test]
fn decoder_rejects_invalid_config() {
    let mut config = DecoderConfig::default();
    config.num_databits = 9;
    assert!(Decoder::new(config).is_none());

    let mut config = DecoderConfig::default();
    config.num_databits = 6;
    assert!(Decoder::new(config).is_none());

    let mut config = DecoderConfig::default();
    config.startbits = (0, SignalCondition::Space);
    assert!(Decoder::new(config).is_none());

    let mut config = DecoderConfig::default();
    config.stopbits = (3, SignalCondition::Mark);
    assert!(Decoder::new(config).is_none());

    let mut config = DecoderConfig::default();
    let validated = config.validate();
    assert!(validated.is_some());
    config.num_databits = 7;
    assert!(config.validate().is_some());
}

#[test]
fn decoder_error_in_parity_phase_follows_count() {
    // Under even parity an Error level in the parity slot flips nothing:
    // it passes when the data bits already have an even mark count, and is
    // reported as a parity mismatch (not a signal error) when they do not.
    let mut config = DecoderConfig::default();
    config.parity = kcs_decoder::Parity::EVEN;
    let mut decoder = Decoder::new(config).unwrap();

    // Byte 0x03: two marks, even count; the Error parity bit is accepted.
    assert_eq!(decoder.process(SignalCondition::Space), Err(None));
    assert_eq!(decoder.process(SignalCondition::Mark), Err(None));
    assert_eq!(decoder.process(SignalCondition::Mark), Err(None));
    for _ in 0..6 {
        assert_eq!(decoder.process(SignalCondition::Space), Err(None));
    }
    assert_eq!(decoder.process(SignalCondition::Error), Err(None));
    assert_eq!(decoder.process(SignalCondition::Mark), Ok(0x03));

    // Byte 0x01: one mark, odd count; the same Error input is rejected.
    assert_eq!(decoder.process(SignalCondition::Space), Err(None));
    assert_eq!(decoder.process(SignalCondition::Mark), Err(None));
    for _ in 0..7 {
        assert_eq!(decoder.process(SignalCondition::Space), Err(None));
    }
    assert_eq!(
        decoder.process(SignalCondition::Error),
        Err(Some(DecoderError::Parity))
    );
}
