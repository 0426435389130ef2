use kcs_decoder::text::timestamp_minutes_seconds;
use kcs_decoder::text::ASCII_filter;

#[test]
fn ascii_filter_keeps_printable_text_and_line_breaks() {
    let input = b"He\x01llo\n\x80world\r\n\x07";
    let out = ASCII_filter(input).unwrap();
    assert_eq!(out, "Hello\nworld\r\n");
}

#[test]
fn ascii_filter_empty_input() {
    let out = ASCII_filter(b"").unwrap();
    assert_eq!(out, "");
}

#[test]
fn ascii_filter_drops_everything_unprintable() {
    let input = [0u8, 1, 2, 31, 128, 200, 255];
    let out = ASCII_filter(&input).unwrap();
    assert_eq!(out, "");
}

#[test]
fn timestamp_splits_minutes_and_seconds() {
    // 125 seconds of audio at 44100 samples per second.
    assert_eq!(timestamp_minutes_seconds(44100 * 125, 44100), (2, 5));
    assert_eq!(timestamp_minutes_seconds(0, 44100), (0, 0));
    // 59 seconds stays below a minute.
    assert_eq!(timestamp_minutes_seconds(48000 * 59, 48000), (0, 59));
}
