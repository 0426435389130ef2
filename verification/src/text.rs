//! Text-level helpers: parsing the closed enumerations from their
//! human-readable names, filtering decoded bytes down to printable ASCII,
//! and splitting a sample count into a minutes/seconds timestamp.
//!
//! Parsing is total and goes by the first character, case-insensitively
//! (ASCII case only); unknown or empty inputs fall back to a documented
//! default. The two MSX presets are told apart by the substring `2400`.

use vstd::prelude::*;
use vstd::string::StringSliceAdditionalSpecFns;

use crate::signal::Channels;
use crate::signal::Parity;
use crate::signal::Preset;
use crate::signal::SignalCondition;

verus! {

/// An ASCII lower-case letter mapped to upper case; anything else is kept.
pub open spec fn spec_ascii_upper(c: u8) -> u8 {
    if 97 <= c && c <= 122 {
        (c - 32) as u8
    } else {
        c
    }
}

fn ascii_upper(c: u8) -> (r: u8)
    ensures
        r == spec_ascii_upper(c),
{
    if c >= 97 && c <= 122 {
        c - 32
    } else {
        c
    }
}

/// The bytes `2400` occur at position `i`.
pub open spec fn spec_match_2400_at(bytes: Seq<u8>, i: int) -> bool {
    &&& i + 4 <= bytes.len()
    &&& bytes[i] == 50
    &&& bytes[i + 1] == 52
    &&& bytes[i + 2] == 48
    &&& bytes[i + 3] == 48
}

/// The bytes `2400` occur somewhere.
pub open spec fn spec_contains_2400(bytes: Seq<u8>) -> bool {
    exists|i: int| 0 <= i && spec_match_2400_at(bytes, i)
}

fn find_2400(bytes: &[u8]) -> (r: bool)
    ensures
        r == spec_contains_2400(bytes@),
{
    let n = bytes.len();
    if n < 4 {
        return false;
    }
    let end = n - 4;
    let mut k: usize = 0;
    while k <= end
        invariant
            n == bytes@.len(),
            4 <= n,
            end == n - 4,
            k <= end + 1,
            forall|i: int| 0 <= i < k ==> !spec_match_2400_at(bytes@, i),
        decreases end + 1 - k,
    {
        if bytes[k] == 50 && bytes[k + 1] == 52 && bytes[k + 2] == 48 && bytes[k + 3] == 48 {
            proof {
                assert(spec_match_2400_at(bytes@, k as int));
            }
            return true;
        }
        k = k + 1;
    }
    proof {
        assert forall|i: int| 0 <= i implies !spec_match_2400_at(bytes@, i) by {
            if i + 4 <= bytes@.len() {
                assert(i < k);
            }
        }
    }
    false
}

/// `All`, or a single decimal digit naming one channel; anything else,
/// including an empty name, means `All`.
pub open spec fn spec_parse_channels(bytes: Seq<u8>) -> Channels {
    if bytes.len() == 0 {
        Channels::All
    } else {
        let c = spec_ascii_upper(bytes[0]);
        if 48 <= c && c <= 57 {
            Channels::Specific((c - 48) as u8)
        } else {
            Channels::All
        }
    }
}

/// `S`tandard, `N`ASCOM, `A`corn, or `M`SX (with `2400` somewhere in the
/// name for the 2400-baud variant); an empty or unknown name falls back to
/// the documented default, `Std`.
pub open spec fn spec_parse_preset(bytes: Seq<u8>) -> Preset {
    if bytes.len() == 0 {
        Preset::Std
    } else {
        let c = spec_ascii_upper(bytes[0]);
        if c == 83 {
            Preset::Std
        } else if c == 78 {
            Preset::NASCOM
        } else if c == 65 {
            Preset::Acorn
        } else if c == 77 {
            if spec_contains_2400(bytes) {
                Preset::MSX2400
            } else {
                Preset::MSX1200
            }
        } else {
            Preset::Std
        }
    }
}

/// `E`ven, `O`dd, `M`ark, `S`pace or `N`one; anything else, including an
/// empty name, means `NONE`.
pub open spec fn spec_parse_parity(bytes: Seq<u8>) -> Parity {
    if bytes.len() == 0 {
        Parity::NONE
    } else {
        let c = spec_ascii_upper(bytes[0]);
        if c == 69 {
            Parity::EVEN
        } else if c == 79 {
            Parity::ODD
        } else if c == 77 {
            Parity::MARK
        } else if c == 83 {
            Parity::SPACE
        } else {
            Parity::NONE
        }
    }
}

/// `M`ark or `S`pace; anything else, including an empty name, means
/// `Error`.
pub open spec fn spec_parse_signal_condition(bytes: Seq<u8>) -> SignalCondition {
    if bytes.len() == 0 {
        SignalCondition::Error
    } else {
        let c = spec_ascii_upper(bytes[0]);
        if c == 77 {
            SignalCondition::Mark
        } else if c == 83 {
            SignalCondition::Space
        } else {
            SignalCondition::Error
        }
    }
}

impl Channels {
    /// Parses a channel selection from its name.
    pub fn parse(value: &str) -> (r: Channels)
        ensures
            r == spec_parse_channels(value.spec_bytes()),
    {
        let bytes = value.as_bytes();
        if bytes.len() == 0 {
            return Channels::All;
        }
        let c = ascii_upper(bytes[0]);
        if c >= 48 && c <= 57 {
            Channels::Specific(c - 48)
        } else {
            Channels::All
        }
    }
}

impl Preset {
    /// Parses a preset from its name.
    pub fn parse(value: &str) -> (r: Preset)
        ensures
            r == spec_parse_preset(value.spec_bytes()),
    {
        let bytes = value.as_bytes();
        if bytes.len() == 0 {
            return Preset::Std;
        }
        let c = ascii_upper(bytes[0]);
        if c == 83 {
            Preset::Std
        } else if c == 78 {
            Preset::NASCOM
        } else if c == 65 {
            Preset::Acorn
        } else if c == 77 {
            if find_2400(bytes) {
                Preset::MSX2400
            } else {
                Preset::MSX1200
            }
        } else {
            Preset::Std
        }
    }
}

impl Parity {
    /// Parses a parity mode from its name.
    pub fn parse(value: &str) -> (r: Parity)
        ensures
            r == spec_parse_parity(value.spec_bytes()),
    {
        let bytes = value.as_bytes();
        if bytes.len() == 0 {
            return Parity::NONE;
        }
        let c = ascii_upper(bytes[0]);
        if c == 69 {
            Parity::EVEN
        } else if c == 79 {
            Parity::ODD
        } else if c == 77 {
            Parity::MARK
        } else if c == 83 {
            Parity::SPACE
        } else {
            Parity::NONE
        }
    }
}

impl SignalCondition {
    /// Parses a signal level from its name.
    pub fn parse(value: &str) -> (r: SignalCondition)
        ensures
            r == spec_parse_signal_condition(value.spec_bytes()),
    {
        let bytes = value.as_bytes();
        if bytes.len() == 0 {
            return SignalCondition::Error;
        }
        let c = ascii_upper(bytes[0]);
        if c == 77 {
            SignalCondition::Mark
        } else if c == 83 {
            SignalCondition::Space
        } else {
            SignalCondition::Error
        }
    }
}

/// The bytes worth keeping when turning decoded data into readable text:
/// printable ASCII, carriage return and line feed.
pub open spec fn keep_ascii() -> spec_fn(u8) -> bool {
    |c: u8| (32 <= c && c <= 127) || c == 13 || c == 10
}

/// The characters of the printable-ASCII part of a byte string.
pub open spec fn ascii_filtered(bytes: Seq<u8>) -> Seq<char> {
    bytes.filter(keep_ascii()).map_values(|c: u8| c as char)
}

/// Relies on `String::from_utf8`: bytes below 128 are valid UTF-8 and
/// decode to exactly those characters.
#[verifier::external_body]
fn string_from_ascii_bytes(bytes: Vec<u8>) -> (r: Option<String>)
    requires
        forall|i: int| 0 <= i < bytes@.len() ==> bytes@[i] < 128,
    ensures
        r is Some,
        r.unwrap()@ == bytes@.map_values(|c: u8| c as char),
{
    String::from_utf8(bytes).ok()
}

/// Keeps the printable ASCII of `in_string`, with line breaks, and hands
/// it back as text.
#[allow(non_snake_case)]
pub fn ASCII_filter(in_string: &[u8]) -> (r: Option<String>)
    ensures
        r matches Some(s) && s@ == ascii_filtered(in_string@),
{
    let n = in_string.len();
    let mut kept: Vec<u8> = Vec::new();
    let mut i: usize = 0;
    proof {
        assert(in_string@.take(0) =~= Seq::<u8>::empty());
        reveal(Seq::filter);
    }
    while i < n
        invariant
            n == in_string@.len(),
            i <= n,
            kept@ == in_string@.take(i as int).filter(keep_ascii()),
        decreases n - i,
    {
        let c = in_string[i];
        if (c >= 32 && c <= 127) || c == 13 || c == 10 {
            kept.push(c);
        }
        proof {
            reveal(Seq::filter);
            assert(in_string@.take(i + 1).drop_last() =~= in_string@.take(i as int));
            assert(in_string@.take(i + 1).last() == c);
            if keep_ascii()(c) {
                assert(kept@ == in_string@.take(i as int).filter(keep_ascii()).push(c));
            }
            assert(kept@ == in_string@.take(i + 1).filter(keep_ascii()));
        }
        i = i + 1;
    }
    proof {
        assert(in_string@.take(n as int) =~= in_string@);
        assert forall|j: int| 0 <= j < kept@.len() implies kept@[j] < 128 by {
            in_string@.lemma_filter_pred(keep_ascii(), j);
        }
    }
    let r = string_from_ascii_bytes(kept);
    r
}

/// The whole minutes and the leftover seconds that `samples` samples last
/// at `samplerate` samples per second.
pub fn timestamp_minutes_seconds(samples: usize, samplerate: usize) -> (r: (usize, usize))
    requires
        samplerate > 0,
    ensures
        r.0 == (samples / samplerate) / 60,
        r.1 == (samples / samplerate) % 60,
        r.1 < 60,
{
    let seconds = samples / samplerate;
    (seconds / 60, seconds % 60)
}

} // verus!
