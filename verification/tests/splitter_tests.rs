use kcs_decoder::DecoderError;
use kcs_decoder::Splitter;

#[test]
fn splitter_closes_run_on_framing_error() {
    let mut s = Splitter::new(2);
    assert!(s.push(5, Ok(0x41)).is_none());
    assert!(s.push(6, Ok(0x42)).is_none());
    assert!(s.push(7, Ok(0x43)).is_none());
    let artifact = s.push(8, Err(Some(DecoderError::Sync))).unwrap();
    assert_eq!(artifact.start_index, 0);
    assert_eq!(artifact.data, vec![0x41, 0x42, 0x43]);
    assert_eq!(s.run_start, 8);
}

#[test]
fn splitter_discards_short_runs() {
    let mut s = Splitter::new(2);
    assert!(s.push(5, Ok(0x41)).is_none());
    // One byte is below the two-byte minimum: closed silently.
    assert!(s.push(6, Err(Some(DecoderError::Signal))).is_none());
    // The next run starts at the error's index.
    assert!(s.push(7, Ok(0x42)).is_none());
    assert!(s.push(8, Ok(0x43)).is_none());
    let artifact = s.push(9, Err(Some(DecoderError::Parity))).unwrap();
    assert_eq!(artifact.start_index, 6);
    assert_eq!(artifact.data, vec![0x42, 0x43]);
}

#[test]
fn splitter_ignores_out_of_band_errors() {
    let mut s = Splitter::new(1);
    assert!(s.push(5, Ok(0x41)).is_none());
    // IO and Other errors and quiet steps do not close the run.
    assert!(s.push(6, Err(Some(DecoderError::IO(String::from("gone"))))).is_none());
    assert!(s.push(7, Err(Some(DecoderError::Other(String::from("odd"))))).is_none());
    assert!(s.push(8, Err(None)).is_none());
    let artifact = s.close_run(0).unwrap();
    assert_eq!(artifact.start_index, 0);
    assert_eq!(artifact.data, vec![0x41]);
}

#[test]
fn splitter_final_flush() {
    let mut s = Splitter::new(1);
    assert!(s.push(3, Ok(0x10)).is_none());
    assert!(s.push(4, Ok(0x20)).is_none());
    let artifact = s.close_run(0).unwrap();
    assert_eq!(artifact.start_index, 0);
    assert_eq!(artifact.data, vec![0x10, 0x20]);
    // Nothing left: a second flush hands out nothing under a minimum of 1.
    assert!(s.close_run(0).is_none());
}
