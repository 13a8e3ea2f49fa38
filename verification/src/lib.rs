//! A sans-I/O ZIP archive parsing engine.
//!
//! Two cooperating state machines parse a ZIP archive: [`archive::ArchiveFsm`]
//! locates the end-of-central-directory records and walks the central
//! directory, and [`entry_fsm::EntryFsm`] parses one entry's local header,
//! streams its payload through a decompressor, and validates sizes and
//! checksums.  Every byte region the parser recognizes is journaled in
//! [`ranges::ParsedRanges`].

pub mod method;
pub mod error;
pub mod buffer;
pub mod ranges;
pub mod le;
pub mod records;
pub mod extras;
pub mod encoding;
pub mod entry;
pub mod crc;
pub mod decompress;
pub mod fsm;
pub mod entry_fsm;
pub mod eocd;
pub mod archive;
pub mod drive;
pub mod report;
