//! The error taxonomy of the parsing engine.
//!
//! Every error is returned by value from a state machine's `process` call;
//! the machine is consumed on error and is not resumable.

use vstd::prelude::*;
use crate::method::Method;

verus! {

/// A structural problem with the archive itself: the bytes do not form the
/// record the parser was owed at that position, or a declared quantity does
/// not match what was actually read.
#[derive(Clone, Copy, Debug, PartialEq, Eq, Structural)]
pub enum FormatError {
    /// No end-of-central-directory signature was found anywhere in the
    /// scanned tail of the file.
    DirectoryEndSignatureNotFound,
    /// A zip64 end-of-central-directory locator was present, but the record
    /// it points to does not parse.
    Directory64EndRecordInvalid,
    /// The central directory offset declared by the end-of-central-directory
    /// record lies outside the file.
    DirectoryOffsetPointsOutsideFile,
    /// The number of central directory records read does not match the count
    /// the end-of-central-directory record announced.  Only the low 16 bits
    /// are compared, so a non-zip64 archive with 65536 or more entries does
    /// not trip this.
    InvalidCentralRecord { expected: u16, actual: u16 },
    /// The bytes at an entry's header offset do not form a local file header.
    InvalidLocalHeader,
    /// The bytes after an entry's payload do not form a data descriptor.
    InvalidDataDescriptor,
    /// An extra field block is malformed, or an AE-x extra field declares an
    /// unknown mode.
    InvalidExtraField,
    /// The decompressed payload does not have the size the entry declared.
    WrongSize { expected: u64, actual: u64 },
    /// The decompressed payload does not have the CRC-32 the entry declared.
    WrongChecksum { expected: u32, actual: u32 },
}

/// A name, comment or archive comment that the chosen encoding cannot
/// decode.
#[derive(Clone, Copy, Debug, PartialEq, Eq, Structural)]
pub enum EncodingError {
    /// The bytes are flagged or detected as UTF-8 but are not valid UTF-8.
    InvalidUtf8,
}

/// A method the engine knows of but cannot decompress.
#[derive(Clone, Copy, Debug, PartialEq, Eq, Structural)]
pub enum UnsupportedError {
    /// The method code is not one the engine recognizes at all.
    MethodNotSupported(Method),
    /// The method is recognized, but its codec is not part of this build.
    MethodNotEnabled(Method),
}

/// The engine performs no I/O itself; these are the only conditions under
/// which it reports an I/O-shaped failure to the driver.
#[derive(Clone, Copy, Debug, PartialEq, Eq, Structural)]
pub enum IoError {
    /// The driver could produce no further bytes although the machine still
    /// wanted input.
    UnexpectedEof,
    /// A `process` call was made with nothing to do: no input was fed and no
    /// output could be produced.
    NoProgress,
}

/// Any error the parsing engine can return.
#[derive(Clone, Copy, Debug, PartialEq, Eq, Structural)]
pub enum Error {
    /// The archive or an entry is malformed.
    Format(FormatError),
    /// The archive or an entry uses a method the engine cannot decompress.
    Unsupported(UnsupportedError),
    /// A name or comment could not be decoded.
    Encoding(EncodingError),
    /// The driver starved or over-drove the machine.
    Io(IoError),
}

impl Error {
    /// A short human-readable description of this error.
    pub fn message(&self) -> String {
        match self {
            Error::Format(FormatError::DirectoryEndSignatureNotFound) => {
                "end of central directory signature not found".to_owned()
            },
            Error::Format(FormatError::Directory64EndRecordInvalid) => {
                "zip64 end of central directory record is invalid".to_owned()
            },
            Error::Format(FormatError::DirectoryOffsetPointsOutsideFile) => {
                "central directory offset points outside the file".to_owned()
            },
            Error::Format(FormatError::InvalidCentralRecord { .. }) => {
                "central directory record count does not match".to_owned()
            },
            Error::Format(FormatError::InvalidLocalHeader) => {
                "invalid local file header".to_owned()
            },
            Error::Format(FormatError::InvalidDataDescriptor) => {
                "invalid data descriptor".to_owned()
            },
            Error::Format(FormatError::InvalidExtraField) => {
                "invalid extra field".to_owned()
            },
            Error::Format(FormatError::WrongSize { .. }) => {
                "decompressed size does not match the declared size".to_owned()
            },
            Error::Format(FormatError::WrongChecksum { .. }) => {
                "decompressed checksum does not match the declared checksum".to_owned()
            },
            Error::Unsupported(UnsupportedError::MethodNotSupported(_)) => {
                "compression method is not supported".to_owned()
            },
            Error::Unsupported(UnsupportedError::MethodNotEnabled(_)) => {
                "compression method is not enabled in this build".to_owned()
            },
            Error::Encoding(EncodingError::InvalidUtf8) => {
                "name or comment is not valid utf-8".to_owned()
            },
            Error::Io(IoError::UnexpectedEof) => {
                "unexpected end of input".to_owned()
            },
            Error::Io(IoError::NoProgress) => {
                "no progress could be made".to_owned()
            },
        }
    }
}

} // verus!
