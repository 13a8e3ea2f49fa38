//! Text encodings of entry names and comments.
//!
//! A ZIP archive stores names and comments as raw bytes.  Modern archives
//! flag them as UTF-8; older ones used the local OEM code page, most often
//! CP 437, or Shift-JIS on Japanese systems.  This module decodes all
//! three and carries the character-detection step that picks one.

use vstd::prelude::*;
use crate::error::{Error, EncodingError};
use vstd::string::StringSliceAdditionalSpecFns;

verus! {

broadcast use vstd::string::group_string_axioms;

/// The character a CP 437 byte decodes to.  Bytes below 0x80 are ASCII; the
/// high half is the classic IBM PC glyph table.
pub open spec fn spec_cp437_char(b: u8) -> char {
    if b < 0x80 {
        b as char
    } else {
        match b {
            0x80 => '\u{00C7}',
            0x81 => '\u{00FC}',
            0x82 => '\u{00E9}',
            0x83 => '\u{00E2}',
            0x84 => '\u{00E4}',
            0x85 => '\u{00E0}',
            0x86 => '\u{00E5}',
            0x87 => '\u{00E7}',
            0x88 => '\u{00EA}',
            0x89 => '\u{00EB}',
            0x8A => '\u{00E8}',
            0x8B => '\u{00EF}',
            0x8C => '\u{00EE}',
            0x8D => '\u{00EC}',
            0x8E => '\u{00C4}',
            0x8F => '\u{00C5}',
            0x90 => '\u{00C9}',
            0x91 => '\u{00E6}',
            0x92 => '\u{00C6}',
            0x93 => '\u{00F4}',
            0x94 => '\u{00F6}',
            0x95 => '\u{00F2}',
            0x96 => '\u{00FB}',
            0x97 => '\u{00F9}',
            0x98 => '\u{00FF}',
            0x99 => '\u{00D6}',
            0x9A => '\u{00DC}',
            0x9B => '\u{00A2}',
            0x9C => '\u{00A3}',
            0x9D => '\u{00A5}',
            0x9E => '\u{20A7}',
            0x9F => '\u{0192}',
            0xA0 => '\u{00E1}',
            0xA1 => '\u{00ED}',
            0xA2 => '\u{00F3}',
            0xA3 => '\u{00FA}',
            0xA4 => '\u{00F1}',
            0xA5 => '\u{00D1}',
            0xA6 => '\u{00AA}',
            0xA7 => '\u{00BA}',
            0xA8 => '\u{00BF}',
            0xA9 => '\u{2310}',
            0xAA => '\u{00AC}',
            0xAB => '\u{00BD}',
            0xAC => '\u{00BC}',
            0xAD => '\u{00A1}',
            0xAE => '\u{00AB}',
            0xAF => '\u{00BB}',
            0xB0 => '\u{2591}',
            0xB1 => '\u{2592}',
            0xB2 => '\u{2593}',
            0xB3 => '\u{2502}',
            0xB4 => '\u{2524}',
            0xB5 => '\u{2561}',
            0xB6 => '\u{2562}',
            0xB7 => '\u{2556}',
            0xB8 => '\u{2555}',
            0xB9 => '\u{2563}',
            0xBA => '\u{2551}',
            0xBB => '\u{2557}',
            0xBC => '\u{255D}',
            0xBD => '\u{255C}',
            0xBE => '\u{255B}',
            0xBF => '\u{2510}',
            0xC0 => '\u{2514}',
            0xC1 => '\u{2534}',
            0xC2 => '\u{252C}',
            0xC3 => '\u{251C}',
            0xC4 => '\u{2500}',
            0xC5 => '\u{253C}',
            0xC6 => '\u{255E}',
            0xC7 => '\u{255F}',
            0xC8 => '\u{255A}',
            0xC9 => '\u{2554}',
            0xCA => '\u{2569}',
            0xCB => '\u{2566}',
            0xCC => '\u{2560}',
            0xCD => '\u{2550}',
            0xCE => '\u{256C}',
            0xCF => '\u{2567}',
            0xD0 => '\u{2568}',
            0xD1 => '\u{2564}',
            0xD2 => '\u{2565}',
            0xD3 => '\u{2559}',
            0xD4 => '\u{2558}',
            0xD5 => '\u{2552}',
            0xD6 => '\u{2553}',
            0xD7 => '\u{256B}',
            0xD8 => '\u{256A}',
            0xD9 => '\u{2518}',
            0xDA => '\u{250C}',
            0xDB => '\u{2588}',
            0xDC => '\u{2584}',
            0xDD => '\u{258C}',
            0xDE => '\u{2590}',
            0xDF => '\u{2580}',
            0xE0 => '\u{03B1}',
            0xE1 => '\u{00DF}',
            0xE2 => '\u{0393}',
            0xE3 => '\u{03C0}',
            0xE4 => '\u{03A3}',
            0xE5 => '\u{03C3}',
            0xE6 => '\u{00B5}',
            0xE7 => '\u{03C4}',
            0xE8 => '\u{03A6}',
            0xE9 => '\u{0398}',
            0xEA => '\u{03A9}',
            0xEB => '\u{03B4}',
            0xEC => '\u{221E}',
            0xED => '\u{03C6}',
            0xEE => '\u{03B5}',
            0xEF => '\u{2229}',
            0xF0 => '\u{2261}',
            0xF1 => '\u{00B1}',
            0xF2 => '\u{2265}',
            0xF3 => '\u{2264}',
            0xF4 => '\u{2320}',
            0xF5 => '\u{2321}',
            0xF6 => '\u{00F7}',
            0xF7 => '\u{2248}',
            0xF8 => '\u{00B0}',
            0xF9 => '\u{2219}',
            0xFA => '\u{00B7}',
            0xFB => '\u{221A}',
            0xFC => '\u{207F}',
            0xFD => '\u{00B2}',
            0xFE => '\u{25A0}',
            0xFF => '\u{00A0}',
            _ => ' ',
        }
    }
}

/// The CP 437 decoding of a whole byte sequence.
pub open spec fn spec_cp437(s: Seq<u8>) -> Seq<char> {
    Seq::new(s.len(), |i: int| spec_cp437_char(s[i]))
}

/// Decodes one CP 437 byte.
pub fn cp437_char(b: u8) -> (r: char)
    ensures
        r == spec_cp437_char(b),
{
    if b < 0x80 {
        b as char
    } else {
        match b {
            0x80 => '\u{00C7}',
            0x81 => '\u{00FC}',
            0x82 => '\u{00E9}',
            0x83 => '\u{00E2}',
            0x84 => '\u{00E4}',
            0x85 => '\u{00E0}',
            0x86 => '\u{00E5}',
            0x87 => '\u{00E7}',
            0x88 => '\u{00EA}',
            0x89 => '\u{00EB}',
            0x8A => '\u{00E8}',
            0x8B => '\u{00EF}',
            0x8C => '\u{00EE}',
            0x8D => '\u{00EC}',
            0x8E => '\u{00C4}',
            0x8F => '\u{00C5}',
            0x90 => '\u{00C9}',
            0x91 => '\u{00E6}',
            0x92 => '\u{00C6}',
            0x93 => '\u{00F4}',
            0x94 => '\u{00F6}',
            0x95 => '\u{00F2}',
            0x96 => '\u{00FB}',
            0x97 => '\u{00F9}',
            0x98 => '\u{00FF}',
            0x99 => '\u{00D6}',
            0x9A => '\u{00DC}',
            0x9B => '\u{00A2}',
            0x9C => '\u{00A3}',
            0x9D => '\u{00A5}',
            0x9E => '\u{20A7}',
            0x9F => '\u{0192}',
            0xA0 => '\u{00E1}',
            0xA1 => '\u{00ED}',
            0xA2 => '\u{00F3}',
            0xA3 => '\u{00FA}',
            0xA4 => '\u{00F1}',
            0xA5 => '\u{00D1}',
            0xA6 => '\u{00AA}',
            0xA7 => '\u{00BA}',
            0xA8 => '\u{00BF}',
            0xA9 => '\u{2310}',
            0xAA => '\u{00AC}',
            0xAB => '\u{00BD}',
            0xAC => '\u{00BC}',
            0xAD => '\u{00A1}',
            0xAE => '\u{00AB}',
            0xAF => '\u{00BB}',
            0xB0 => '\u{2591}',
            0xB1 => '\u{2592}',
            0xB2 => '\u{2593}',
            0xB3 => '\u{2502}',
            0xB4 => '\u{2524}',
            0xB5 => '\u{2561}',
            0xB6 => '\u{2562}',
            0xB7 => '\u{2556}',
            0xB8 => '\u{2555}',
            0xB9 => '\u{2563}',
            0xBA => '\u{2551}',
            0xBB => '\u{2557}',
            0xBC => '\u{255D}',
            0xBD => '\u{255C}',
            0xBE => '\u{255B}',
            0xBF => '\u{2510}',
            0xC0 => '\u{2514}',
            0xC1 => '\u{2534}',
            0xC2 => '\u{252C}',
            0xC3 => '\u{251C}',
            0xC4 => '\u{2500}',
            0xC5 => '\u{253C}',
            0xC6 => '\u{255E}',
            0xC7 => '\u{255F}',
            0xC8 => '\u{255A}',
            0xC9 => '\u{2554}',
            0xCA => '\u{2569}',
            0xCB => '\u{2566}',
            0xCC => '\u{2560}',
            0xCD => '\u{2550}',
            0xCE => '\u{256C}',
            0xCF => '\u{2567}',
            0xD0 => '\u{2568}',
            0xD1 => '\u{2564}',
            0xD2 => '\u{2565}',
            0xD3 => '\u{2559}',
            0xD4 => '\u{2558}',
            0xD5 => '\u{2552}',
            0xD6 => '\u{2553}',
            0xD7 => '\u{256B}',
            0xD8 => '\u{256A}',
            0xD9 => '\u{2518}',
            0xDA => '\u{250C}',
            0xDB => '\u{2588}',
            0xDC => '\u{2584}',
            0xDD => '\u{258C}',
            0xDE => '\u{2590}',
            0xDF => '\u{2580}',
            0xE0 => '\u{03B1}',
            0xE1 => '\u{00DF}',
            0xE2 => '\u{0393}',
            0xE3 => '\u{03C0}',
            0xE4 => '\u{03A3}',
            0xE5 => '\u{03C3}',
            0xE6 => '\u{00B5}',
            0xE7 => '\u{03C4}',
            0xE8 => '\u{03A6}',
            0xE9 => '\u{0398}',
            0xEA => '\u{03A9}',
            0xEB => '\u{03B4}',
            0xEC => '\u{221E}',
            0xED => '\u{03C6}',
            0xEE => '\u{03B5}',
            0xEF => '\u{2229}',
            0xF0 => '\u{2261}',
            0xF1 => '\u{00B1}',
            0xF2 => '\u{2265}',
            0xF3 => '\u{2264}',
            0xF4 => '\u{2320}',
            0xF5 => '\u{2321}',
            0xF6 => '\u{00F7}',
            0xF7 => '\u{2248}',
            0xF8 => '\u{00B0}',
            0xF9 => '\u{2219}',
            0xFA => '\u{00B7}',
            0xFB => '\u{221A}',
            0xFC => '\u{207F}',
            0xFD => '\u{00B2}',
            0xFE => '\u{25A0}',
            0xFF => '\u{00A0}',
            _ => ' ',
        }
    }
}

/// Decodes a CP 437 byte sequence.  Every byte sequence decodes.
pub fn decode_cp437(bytes: &[u8]) -> (r: String)
    ensures
        r@ == spec_cp437(bytes@),
{
    let mut out = String::new();
    let n = bytes.len();
    let mut i: usize = 0;
    while i < n
        invariant
            n == bytes@.len(),
            i <= n,
            out@ == spec_cp437(bytes@.subrange(0, i as int)),
        decreases n - i,
    {
        let c = cp437_char(bytes[i]);
        out.append(char_to_str(c).as_str());
        i += 1;
        proof {
            assert(spec_cp437(bytes@.subrange(0, i as int)) =~= spec_cp437(
                bytes@.subrange(0, i as int - 1),
            ) + seq![spec_cp437_char(bytes@[i as int - 1])]);
        }
    }
    proof {
        assert(bytes@.subrange(0, n as int) =~= bytes@);
    }
    out
}

/// Relies on `String::from` for `char`: the result is the one-character
/// string holding exactly that character.
#[verifier::external_body]
fn char_to_str(c: char) -> (r: String)
    ensures
        r@ == seq![c],
{
    String::from(c)
}


/// The character encodings a ZIP archive's names can use.
#[derive(Clone, Copy, Debug, PartialEq, Eq, Structural)]
pub enum Encoding {
    /// UTF-8, the modern default, declared by a header flag.
    Utf8,
    /// IBM code page 437, the historical default.
    Cp437,
    /// Shift-JIS, common in archives from Japanese systems.
    ShiftJis,
}

/// What decoding a byte sequence with an encoding must yield.
pub open spec fn spec_decode(e: Encoding, bytes: Seq<u8>) -> Result<Seq<char>, Error> {
    match e {
        Encoding::Utf8 => if vstd::utf8::valid_utf8(bytes) {
            Ok(vstd::utf8::decode_utf8(bytes))
        } else {
            Err(Error::Encoding(EncodingError::InvalidUtf8))
        },
        Encoding::Cp437 => Ok(spec_cp437(bytes)),
        Encoding::ShiftJis => Ok(shift_jis_of(bytes)),
    }
}

impl Encoding {
    /// The stable label under which this encoding is reported.
    pub fn label(&self) -> (r: &'static str)
        ensures
            r@ == match *self {
                Encoding::Utf8 => "utf-8"@,
                Encoding::Cp437 => "cp437"@,
                Encoding::ShiftJis => "shift-jis"@,
            },
    {
        match *self {
            Encoding::Utf8 => "utf-8",
            Encoding::Cp437 => "cp437",
            Encoding::ShiftJis => "shift-jis",
        }
    }

    /// Decodes a name or comment with this encoding.  Only UTF-8 can
    /// reject its input; the other two decode every byte sequence.
    pub fn decode(self, bytes: &[u8]) -> (r: Result<String, Error>)
        ensures
            match r {
                Ok(s) => spec_decode(self, bytes@) matches Ok(cs) && cs == s@,
                Err(e) => spec_decode(self, bytes@) matches Err(e2) && e == e2,
            },
    {
        match self {
            Encoding::Utf8 => match utf8_to_string(bytes) {
                Some(s) => Ok(s),
                None => Err(Error::Encoding(EncodingError::InvalidUtf8)),
            },
            Encoding::Cp437 => Ok(decode_cp437(bytes)),
            Encoding::ShiftJis => Ok(decode_shift_jis(bytes)),
        }
    }
}

/// Relies on `core::str::from_utf8`: it accepts exactly the valid UTF-8
/// byte sequences, and the returned string slice is those very bytes.
pub assume_specification[ core::str::from_utf8 ](v: &[u8]) -> (r: Result<
    &str,
    core::str::Utf8Error,
>)
    ensures
        r is Ok <==> vstd::utf8::valid_utf8(v@),
        r matches Ok(s) ==> s.spec_bytes() == v@,
;

#[verifier::external_type_specification]
#[verifier::external_body]
pub struct ExUtf8Error(core::str::Utf8Error);

/// Decodes UTF-8 bytes into an owned string, or nothing when the bytes are
/// not valid UTF-8.
pub fn utf8_to_string(bytes: &[u8]) -> (r: Option<String>)
    ensures
        r is Some <==> vstd::utf8::valid_utf8(bytes@),
        r matches Some(s) ==> s@ == vstd::utf8::decode_utf8(bytes@),
{
    match core::str::from_utf8(bytes) {
        Ok(s) => {
            proof {
                vstd::utf8::encode_utf8_decode_utf8(s@);
            }
            Some(s.to_owned())
        },
        Err(_) => None,
    }
}

/// The characters that encoding_rs's Shift-JIS decoder yields for a byte
/// sequence, unmappable sequences replaced.  The result depends on the
/// bytes alone.
pub uninterp spec fn shift_jis_of(bytes: Seq<u8>) -> Seq<char>;

/// Relies on encoding_rs's `Encoding::decode_without_bom_handling` on the
/// SHIFT_JIS encoding: a pure function of the input bytes that never fails,
/// decoding Shift-JIS with replacement characters.
#[verifier::external_body]
fn decode_shift_jis(bytes: &[u8]) -> (r: String)
    ensures
        r@ == shift_jis_of(bytes@),
{
    let (cow, _had_errors) = encoding_rs::SHIFT_JIS.decode_without_bom_handling(bytes);
    cow.into_owned()
}

/// What the character detector's guess narrowed down to: the two encodings
/// the directory walk distinguishes, or anything else.
#[derive(Clone, Copy, Debug, PartialEq, Eq, Structural)]
pub enum DetectorGuess {
    /// The detector guessed Shift-JIS.
    ShiftJis,
    /// The detector guessed UTF-8.
    Utf8,
    /// The detector guessed some other encoding.
    Other,
}

#[verifier::external_type_specification]
#[verifier::external_body]
pub struct ExEncodingDetector(chardetng::EncodingDetector);

/// Relies on chardetng's `EncodingDetector::new`: a fresh detector.
#[verifier::external_body]
pub fn detector_new() -> chardetng::EncodingDetector {
    chardetng::EncodingDetector::new()
}

/// Relies on chardetng's `EncodingDetector::feed`.  The stream is never
/// marked last here, so the call cannot panic: `feed` only panics after a
/// call with `last` set, and this crate never makes one.
#[verifier::external_body]
pub fn detector_feed(detector: &mut chardetng::EncodingDetector, bytes: &[u8]) {
    detector.feed(bytes, false);
}

/// Relies on chardetng's `EncodingDetector::guess` with no top-level domain
/// hint (which is the only panic condition) and UTF-8 allowed, compared
/// against encoding_rs's SHIFT_JIS and UTF_8 statics.  Nothing is assumed
/// of the guess; the caller decides what to do with each outcome.
#[verifier::external_body]
pub fn detector_guess(detector: &chardetng::EncodingDetector) -> DetectorGuess {
    let guess = detector.guess(None, true);
    if guess == encoding_rs::SHIFT_JIS {
        DetectorGuess::ShiftJis
    } else if guess == encoding_rs::UTF_8 {
        DetectorGuess::Utf8
    } else {
        DetectorGuess::Other
    }
}

/// The encoding the directory walk settles on, given whether every name
/// was flagged UTF-8, the detector's guess, and whether any fed byte was in
/// the CP 437 box-drawing range.
pub open spec fn spec_encoding_decision(
    all_utf8: bool,
    guess: DetectorGuess,
    had_suspicious_chars_for_cp437: bool,
) -> Encoding {
    if all_utf8 {
        Encoding::Utf8
    } else {
        match guess {
            DetectorGuess::ShiftJis => if had_suspicious_chars_for_cp437 {
                Encoding::ShiftJis
            } else {
                // chardetng mistakes box-drawing CP 437 names for
                // Shift-JIS; without any lead-byte-range characters,
                // CP 437 is the better bet
                Encoding::Cp437
            },
            DetectorGuess::Utf8 => Encoding::Utf8,
            DetectorGuess::Other => Encoding::Cp437,
        }
    }
}

/// Settles the encoding from the detector's guess and the two scan facts.
pub fn encoding_decision(
    all_utf8: bool,
    guess: DetectorGuess,
    had_suspicious_chars_for_cp437: bool,
) -> (r: Encoding)
    ensures
        r == spec_encoding_decision(all_utf8, guess, had_suspicious_chars_for_cp437),
{
    if all_utf8 {
        Encoding::Utf8
    } else {
        match guess {
            DetectorGuess::ShiftJis => if had_suspicious_chars_for_cp437 {
                Encoding::ShiftJis
            } else {
                Encoding::Cp437
            },
            DetectorGuess::Utf8 => Encoding::Utf8,
            DetectorGuess::Other => Encoding::Cp437,
        }
    }
}

/// A byte in `0xB0..=0xDF`: a box-drawing glyph in CP 437, a legitimate
/// lead or kana byte in Shift-JIS.
pub open spec fn suspicious_in(s: Seq<u8>) -> bool {
    exists|i: int| 0 <= i < s.len() && 0xB0 <= #[trigger] s[i] <= 0xDF
}

/// Scans a byte sequence for characters in the CP 437 box-drawing range.
pub fn scan_suspicious(bytes: &[u8]) -> (r: bool)
    ensures
        r == suspicious_in(bytes@),
{
    let n = bytes.len();
    let mut i: usize = 0;
    while i < n
        invariant
            n == bytes@.len(),
            i <= n,
            !suspicious_in(bytes@.subrange(0, i as int)),
        decreases n - i,
    {
        let b = bytes[i];
        if 0xB0 <= b && b <= 0xDF {
            proof {
                assert(bytes@[i as int] == b);
            }
            return true;
        }
        i += 1;
        proof {
            let pre = bytes@.subrange(0, i as int);
            assert forall|j: int| 0 <= j < pre.len() implies !(0xB0 <= #[trigger] pre[j]
                <= 0xDF) by {
                assert(pre[j] == bytes@[j]);
            }
        }
    }
    proof {
        assert(bytes@.subrange(0, n as int) =~= bytes@);
    }
    false
}

/// A box-drawing-range byte stands in a concatenation exactly when it
/// stands in one of the parts.
pub proof fn lemma_suspicious_concat(a: Seq<u8>, b: Seq<u8>)
    ensures
        suspicious_in(a + b) <==> (suspicious_in(a) || suspicious_in(b)),
{
    if suspicious_in(a) {
        let i = choose|i: int| 0 <= i < a.len() && 0xB0 <= #[trigger] a[i] <= 0xDF;
        assert((a + b)[i] == a[i]);
    }
    if suspicious_in(b) {
        let i = choose|i: int| 0 <= i < b.len() && 0xB0 <= #[trigger] b[i] <= 0xDF;
        assert((a + b)[a.len() + i] == b[i]);
    }
    if suspicious_in(a + b) {
        let i = choose|i: int| 0 <= i < (a + b).len() && 0xB0 <= #[trigger] (a + b)[i] <= 0xDF;
        if i < a.len() {
            assert(a[i] == (a + b)[i]);
        } else {
            assert(b[i - a.len()] == (a + b)[i]);
        }
    }
}

} // verus!
