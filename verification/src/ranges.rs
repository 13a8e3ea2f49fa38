//! The forensic journal of recognized byte regions.
//!
//! Every region a state machine recognizes is appended here as a half-open
//! interval tagged with the kind of structure it held.  The journal never
//! coalesces or de-duplicates: its order is parse order.

use vstd::prelude::*;

verus! {

/// The kind of structure a parsed region held.
#[derive(Clone, Copy, Debug, PartialEq, Eq, Structural)]
pub enum RangeKind {
    /// The classic end-of-central-directory record, comment included.
    EndOfCentralDirectoryRecord,
    /// The fixed-size zip64 end-of-central-directory locator.
    Zip64EndOfCentralDirectoryLocator,
    /// The zip64 end-of-central-directory record.
    Zip64EndOfCentralDirectoryRecord,
    /// One central directory file header.
    CentralDirectoryHeader,
    /// One local file header, name and extra block included.
    LocalFileHeader,
    /// One entry's (possibly compressed) payload.
    FileData,
    /// One data descriptor, optional signature included.
    DataDescriptor,
}

impl RangeKind {
    /// The stable label under which this kind is reported.
    pub fn label(&self) -> (r: &'static str)
        ensures
            r@ == match *self {
                RangeKind::EndOfCentralDirectoryRecord => "end of central directory record"@,
                RangeKind::Zip64EndOfCentralDirectoryLocator => (
                "zip64 end of central directory locator"@
                ),
                RangeKind::Zip64EndOfCentralDirectoryRecord => (
                "zip64 end of central directory record"@
                ),
                RangeKind::CentralDirectoryHeader => "central directory header"@,
                RangeKind::LocalFileHeader => "local file header"@,
                RangeKind::FileData => "file data"@,
                RangeKind::DataDescriptor => "data descriptor"@,
            },
    {
        match *self {
            RangeKind::EndOfCentralDirectoryRecord => "end of central directory record",
            RangeKind::Zip64EndOfCentralDirectoryLocator => {
                "zip64 end of central directory locator"
            },
            RangeKind::Zip64EndOfCentralDirectoryRecord => {
                "zip64 end of central directory record"
            },
            RangeKind::CentralDirectoryHeader => "central directory header",
            RangeKind::LocalFileHeader => "local file header",
            RangeKind::FileData => "file data",
            RangeKind::DataDescriptor => "data descriptor",
        }
    }
}

/// One recognized region: the half-open interval `[start, end)`, what it
/// contained, and, for per-entry regions, the entry's name.
#[derive(Clone, Debug)]
pub struct ParsedRange {
    /// First byte of the region.
    pub start: u64,
    /// One past the last byte of the region.
    pub end: u64,
    /// The kind of structure parsed there.
    pub contains: RangeKind,
    /// The decoded name of the entry the region belongs to, if any.
    pub filename: Option<String>,
}

/// The append-only journal of recognized regions, in parse order.
#[derive(Clone, Debug)]
pub struct ParsedRanges(pub Vec<ParsedRange>);

impl View for ParsedRanges {
    type V = Seq<ParsedRange>;

    open spec fn view(&self) -> Seq<ParsedRange> {
        self.0@
    }
}

impl ParsedRanges {
    /// Every journaled region is a non-empty interval inside `[0, size]`.
    pub open spec fn bounded_by(self, size: int) -> bool {
        forall|i: int|
            0 <= i < self@.len() ==> (#[trigger] self@[i]).start < self@[i].end <= size
    }

    /// An empty journal.
    pub fn new() -> (r: ParsedRanges)
        ensures
            r@ == Seq::<ParsedRange>::empty(),
    {
        ParsedRanges(Vec::new())
    }

    /// Appends the region `[start, end)`.
    pub fn insert_range(&mut self, start: u64, end: u64, contains: RangeKind, filename: Option<
        String,
    >)
        ensures
            final(self)@ == old(self)@.push(
                ParsedRange { start, end, contains, filename },
            ),
    {
        self.0.push(ParsedRange { start, end, contains, filename });
    }

    /// Appends the region starting at `offset` and running for `length`
    /// bytes.
    pub fn insert_offset_length(
        &mut self,
        offset: u64,
        length: u64,
        contains: RangeKind,
        filename: Option<String>,
    )
        requires
            offset + length <= u64::MAX,
        ensures
            final(self)@ == old(self)@.push(
                ParsedRange { start: offset, end: (offset + length) as u64, contains, filename },
            ),
    {
        self.insert_range(offset, offset + length, contains, filename);
    }

    /// Moves every region of `other` to the end of this journal, leaving
    /// `other` empty.
    pub fn append(&mut self, other: &mut ParsedRanges)
        ensures
            final(self)@ == old(self)@ + old(other)@,
            final(other)@ == Seq::<ParsedRange>::empty(),
    {
        self.0.append(&mut other.0);
    }
}

} // verus!
