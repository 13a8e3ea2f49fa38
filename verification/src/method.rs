//! Compression methods a ZIP entry can declare.

use vstd::prelude::*;

verus! {

/// A compression method, as declared in a central directory or local file
/// header.  The numeric codes are assigned by the ZIP specification.
#[derive(Clone, Copy, Debug, PartialEq, Eq, Structural)]
pub enum Method {
    /// No compression: the payload is stored verbatim (code 0).
    Store,
    /// Deflate (code 8).
    Deflate,
    /// Enhanced deflate (code 9).
    Deflate64,
    /// Bzip2 (code 12).
    Bzip2,
    /// Raw LZMA (code 14).
    Lzma,
    /// Zstandard (code 93).
    Zstd,
    /// MP3 (code 94).
    Mp3,
    /// Xz (code 95).
    Xz,
    /// Jpeg (code 96).
    Jpeg,
    /// WavPack (code 97).
    WavPack,
    /// Ppmd version I rev 1 (code 98).
    Ppmd,
    /// WinZip AES encryption wrapping another method (code 99).
    Aex,
    /// Any other method code.
    Other(u16),
}

impl Method {
    /// The method that a numeric code denotes.
    pub open spec fn spec_from_u16(code: u16) -> Method {
        match code {
            0 => Method::Store,
            8 => Method::Deflate,
            9 => Method::Deflate64,
            12 => Method::Bzip2,
            14 => Method::Lzma,
            93 => Method::Zstd,
            94 => Method::Mp3,
            95 => Method::Xz,
            96 => Method::Jpeg,
            97 => Method::WavPack,
            98 => Method::Ppmd,
            99 => Method::Aex,
            _ => Method::Other(code),
        }
    }

    /// Maps a numeric method code to a [`Method`].
    pub fn from_u16(code: u16) -> (r: Method)
        ensures
            r == Method::spec_from_u16(code),
    {
        match code {
            0 => Method::Store,
            8 => Method::Deflate,
            9 => Method::Deflate64,
            12 => Method::Bzip2,
            14 => Method::Lzma,
            93 => Method::Zstd,
            94 => Method::Mp3,
            95 => Method::Xz,
            96 => Method::Jpeg,
            97 => Method::WavPack,
            98 => Method::Ppmd,
            99 => Method::Aex,
            _ => Method::Other(code),
        }
    }

    /// The numeric code that denotes this method.
    pub open spec fn spec_to_u16(self) -> u16 {
        match self {
            Method::Store => 0,
            Method::Deflate => 8,
            Method::Deflate64 => 9,
            Method::Bzip2 => 12,
            Method::Lzma => 14,
            Method::Zstd => 93,
            Method::Mp3 => 94,
            Method::Xz => 95,
            Method::Jpeg => 96,
            Method::WavPack => 97,
            Method::Ppmd => 98,
            Method::Aex => 99,
            Method::Other(code) => code,
        }
    }

    /// Maps this method back to its numeric code.
    pub fn to_u16(self) -> (r: u16)
        ensures
            r == self.spec_to_u16(),
    {
        match self {
            Method::Store => 0,
            Method::Deflate => 8,
            Method::Deflate64 => 9,
            Method::Bzip2 => 12,
            Method::Lzma => 14,
            Method::Zstd => 93,
            Method::Mp3 => 94,
            Method::Xz => 95,
            Method::Jpeg => 96,
            Method::WavPack => 97,
            Method::Ppmd => 98,
            Method::Aex => 99,
            Method::Other(code) => code,
        }
    }
}

} // verus!
