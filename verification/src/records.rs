//! Pure decoders from bytes to owned ZIP records.
//!
//! Each parser works on a window of buffered bytes and reports one of three
//! outcomes: the record was parsed completely, the window ended before the
//! record did, or the bytes cannot be this record at all.  The spec
//! functions pin down exactly which bytes give which outcome.

use vstd::prelude::*;
use crate::le::{le16, le32, le64, read_u16, read_u32, read_u64};

verus! {

/// Outcome of running a record parser against a window.
pub enum Parsed<T> {
    /// The record parsed; it spans `usize` bytes of the window.
    Complete(T, usize),
    /// The window ended before the record did; more input may finish it.
    Incomplete,
    /// The bytes at this position are not this kind of record.
    Invalid,
}

/// The bytes of `pat` appear at offset `i` of `s`.
pub open spec fn sig_at(s: Seq<u8>, i: int, pat: Seq<u8>) -> bool {
    &&& i + pat.len() <= s.len()
    &&& forall|j: int| 0 <= j < pat.len() ==> s[i + j] == pat[j]
}

/// Some byte of `pat` that the window still covers differs from the window:
/// the bytes at `i` can never become `pat`, however much input arrives.
pub open spec fn prefix_conflict(s: Seq<u8>, i: int, pat: Seq<u8>) -> bool {
    exists|j: int| 0 <= j < pat.len() && i + j < s.len() && #[trigger] s[i + j] != pat[j]
}

/// How a four-byte signature compares against the window at a position.
pub enum SigCheck {
    /// All four bytes are present and equal.
    Matched,
    /// The window ended first, but what it covers agrees.
    Short,
    /// A covered byte differs.
    Conflict,
}

/// Compares the four-byte signature `b0 b1 b2 b3` against the window at
/// `at`.
fn check_sig4(data: &[u8], at: usize, b0: u8, b1: u8, b2: u8, b3: u8) -> (r: SigCheck)
    requires
        at <= data@.len(),
    ensures
        match r {
            SigCheck::Matched => sig_at(data@, at as int, seq![b0, b1, b2, b3]),
            SigCheck::Short => {
                &&& !prefix_conflict(data@, at as int, seq![b0, b1, b2, b3])
                &&& at + 4 > data@.len()
            },
            SigCheck::Conflict => prefix_conflict(data@, at as int, seq![b0, b1, b2, b3]),
        },
{
    let ghost pat = seq![b0, b1, b2, b3];
    let n = data.len();
    if at >= n {
        return SigCheck::Short;
    }
    if data[at] != b0 {
        proof {
            assert(data@[at + 0] != pat[0]);
        }
        return SigCheck::Conflict;
    }
    if at + 1 >= n {
        return SigCheck::Short;
    }
    if data[at + 1] != b1 {
        proof {
            assert(data@[at + 1] != pat[1]);
        }
        return SigCheck::Conflict;
    }
    if at + 2 >= n {
        return SigCheck::Short;
    }
    if data[at + 2] != b2 {
        proof {
            assert(data@[at + 2] != pat[2]);
        }
        return SigCheck::Conflict;
    }
    if at + 3 >= n {
        return SigCheck::Short;
    }
    if data[at + 3] != b3 {
        proof {
            assert(data@[at + 3] != pat[3]);
        }
        return SigCheck::Conflict;
    }
    SigCheck::Matched
}

/// The classic end-of-central-directory record, comment included.
///
/// All counts and offsets are the 32-bit-era fields; a zip64 archive
/// overrides them through [`EndOfCentralDirectory64Record`].
#[derive(Clone, Debug)]
pub struct EndOfCentralDirectoryRecord {
    /// Number of this disk.
    pub disk_nbr: u16,
    /// Disk on which the central directory starts.
    pub dir_disk_nbr: u16,
    /// Number of central directory records on this disk.
    pub disk_records: u16,
    /// Total number of central directory records.
    pub directory_records: u16,
    /// Size of the central directory in bytes.
    pub directory_size: u32,
    /// Offset of the start of the central directory.
    pub directory_offset: u32,
    /// The archive comment, raw.
    pub comment: Vec<u8>,
}

/// The end-of-central-directory signature, little-endian `0x06054b50`.
pub open spec fn eocd_sig() -> Seq<u8> {
    seq![0x50u8, 0x4bu8, 0x05u8, 0x06u8]
}

/// A complete end-of-central-directory record stands at `i` and its declared
/// comment reaches exactly to the end of the window.  The backward scan
/// accepts only such positions, which is what lets it see through comments
/// that themselves contain the signature bytes.
pub open spec fn eocd_terminal_at(s: Seq<u8>, i: int) -> bool {
    &&& sig_at(s, i, eocd_sig())
    &&& i + 22 <= s.len()
    &&& i + 22 + le16(s, i + 20) == s.len()
}

/// `r` holds exactly the fields of the end-of-central-directory record at
/// `i`.
pub open spec fn eocd_fields(s: Seq<u8>, i: int, r: EndOfCentralDirectoryRecord) -> bool {
    &&& r.disk_nbr == le16(s, i + 4)
    &&& r.dir_disk_nbr == le16(s, i + 6)
    &&& r.disk_records == le16(s, i + 8)
    &&& r.directory_records == le16(s, i + 10)
    &&& r.directory_size == le32(s, i + 12)
    &&& r.directory_offset == le32(s, i + 16)
    &&& r.comment@ == s.subrange(i + 22, i + 22 + le16(s, i + 20))
}

/// Scans the window for the end-of-central-directory record, from the last
/// possible start toward the beginning, and returns the record standing at
/// the highest position whose declared comment reaches exactly to the end of
/// the window.
pub fn find_eocd(data: &[u8]) -> (r: Option<(usize, EndOfCentralDirectoryRecord)>)
    ensures
        match r {
            Some((i, rec)) => {
                &&& eocd_terminal_at(data@, i as int)
                &&& eocd_fields(data@, i as int, rec)
                &&& forall|j: int| i < j ==> !eocd_terminal_at(data@, j)
            },
            None => forall|j: int| 0 <= j ==> !eocd_terminal_at(data@, j),
        },
{
    let n = data.len();
    if n < 22 {
        return None;
    }
    let mut i: usize = n - 22;
    loop
        invariant
            n == data@.len(),
            22 <= n,
            i <= n - 22,
            forall|j: int| i < j ==> !eocd_terminal_at(data@, j),
        decreases i,
    {
        let mut candidate = false;
        match check_sig4(data, i, 0x50, 0x4b, 0x05, 0x06) {
            SigCheck::Matched => {
                let comment_len = read_u16(data, i + 20);
                if comment_len as usize == n - (i + 22) {
                    candidate = true;
                }
            },
            _ => {},
        }
        if candidate {
            let comment = vstd::slice::slice_to_vec(
                vstd::slice::slice_subrange(data, i + 22, n),
            );
            let rec = EndOfCentralDirectoryRecord {
                disk_nbr: read_u16(data, i + 4),
                dir_disk_nbr: read_u16(data, i + 6),
                disk_records: read_u16(data, i + 8),
                directory_records: read_u16(data, i + 10),
                directory_size: read_u32(data, i + 12),
                directory_offset: read_u32(data, i + 16),
                comment,
            };
            return Some((i, rec));
        }
        proof {
            assert(!eocd_terminal_at(data@, i as int));
        }
        if i == 0 {
            return None;
        }
        i = i - 1;
    }
}

/// Length on disk of the zip64 end-of-central-directory locator.
pub const EOCD64_LOCATOR_LENGTH: usize = 20;

/// The fixed-size record immediately preceding the end-of-central-directory
/// record in a zip64 archive, pointing at the zip64 record.
#[derive(Clone, Copy, Debug)]
pub struct EndOfCentralDirectory64Locator {
    /// Disk on which the zip64 end-of-central-directory record starts.
    pub dir_disk_number: u32,
    /// Offset of the zip64 end-of-central-directory record.
    pub directory_offset: u64,
    /// Total number of disks.
    pub total_disks: u32,
}

/// The locator signature, little-endian `0x07064b50`.
pub open spec fn eocd64_locator_sig() -> Seq<u8> {
    seq![0x50u8, 0x4bu8, 0x06u8, 0x07u8]
}

/// A complete locator stands at `i`.
pub open spec fn eocd64_locator_at(s: Seq<u8>, i: int) -> bool {
    &&& sig_at(s, i, eocd64_locator_sig())
    &&& i + 20 <= s.len()
}

/// `r` holds exactly the fields of the locator at `i`.
pub open spec fn eocd64_locator_fields(s: Seq<u8>, i: int, r: EndOfCentralDirectory64Locator,
) -> bool {
    &&& r.dir_disk_number == le32(s, i + 4)
    &&& r.directory_offset == le64(s, i + 8)
    &&& r.total_disks == le32(s, i + 16)
}

/// Parses the zip64 end-of-central-directory locator at `at`.  An `Invalid`
/// outcome means the locator is legitimately absent: the archive is not
/// zip64.
pub fn parse_eocd64_locator(data: &[u8], at: usize) -> (r: Parsed<
    EndOfCentralDirectory64Locator,
>)
    requires
        at <= data@.len(),
    ensures
        match r {
            Parsed::Complete(v, n) => {
                &&& eocd64_locator_at(data@, at as int)
                &&& eocd64_locator_fields(data@, at as int, v)
                &&& n == 20
            },
            Parsed::Incomplete => {
                &&& !prefix_conflict(data@, at as int, eocd64_locator_sig())
                &&& at + 20 > data@.len()
            },
            Parsed::Invalid => prefix_conflict(data@, at as int, eocd64_locator_sig()),
        },
{
    match check_sig4(data, at, 0x50, 0x4b, 0x06, 0x07) {
        SigCheck::Conflict => Parsed::Invalid,
        SigCheck::Short => Parsed::Incomplete,
        SigCheck::Matched => {
            if data.len() - at < 20 {
                return Parsed::Incomplete;
            }
            let v = EndOfCentralDirectory64Locator {
                dir_disk_number: read_u32(data, at + 4),
                directory_offset: read_u64(data, at + 8),
                total_disks: read_u32(data, at + 16),
            };
            Parsed::Complete(v, 20)
        },
    }
}

/// The zip64 end-of-central-directory record, which widens every count and
/// offset of the classic record to 64 bits.
#[derive(Clone, Copy, Debug)]
pub struct EndOfCentralDirectory64Record {
    /// Size of the record, not counting the signature and this field.
    pub record_size: u64,
    /// Version made by.
    pub creator_version: u16,
    /// Version needed to extract.
    pub reader_version: u16,
    /// Number of this disk.
    pub disk_nbr: u32,
    /// Disk on which the central directory starts.
    pub dir_disk_nbr: u32,
    /// Number of central directory records on this disk.
    pub disk_records: u64,
    /// Total number of central directory records.
    pub directory_records: u64,
    /// Size of the central directory in bytes.
    pub directory_size: u64,
    /// Offset of the start of the central directory.
    pub directory_offset: u64,
}

/// The zip64 end-of-central-directory signature, little-endian `0x06064b50`.
pub open spec fn eocd64_sig() -> Seq<u8> {
    seq![0x50u8, 0x4bu8, 0x06u8, 0x06u8]
}

/// A complete zip64 end-of-central-directory record stands at `i`: its
/// declared size covers at least the fixed fields and the whole record fits
/// in the window.
pub open spec fn eocd64_at(s: Seq<u8>, i: int) -> bool {
    &&& sig_at(s, i, eocd64_sig())
    &&& i + 12 <= s.len()
    &&& le64(s, i + 4) >= 44
    &&& i + 12 + le64(s, i + 4) <= s.len()
}

/// The span on disk of the zip64 record at `i`.
pub open spec fn eocd64_record_len(s: Seq<u8>, i: int) -> int {
    12 + le64(s, i + 4)
}

/// `r` holds exactly the fields of the zip64 record at `i`.
pub open spec fn eocd64_fields(s: Seq<u8>, i: int, r: EndOfCentralDirectory64Record) -> bool {
    &&& r.record_size == le64(s, i + 4)
    &&& r.creator_version == le16(s, i + 12)
    &&& r.reader_version == le16(s, i + 14)
    &&& r.disk_nbr == le32(s, i + 16)
    &&& r.dir_disk_nbr == le32(s, i + 20)
    &&& r.disk_records == le64(s, i + 24)
    &&& r.directory_records == le64(s, i + 32)
    &&& r.directory_size == le64(s, i + 40)
    &&& r.directory_offset == le64(s, i + 48)
}

/// Parses the zip64 end-of-central-directory record at `at`.
pub fn parse_eocd64(data: &[u8], at: usize) -> (r: Parsed<EndOfCentralDirectory64Record>)
    requires
        at <= data@.len(),
    ensures
        match r {
            Parsed::Complete(v, n) => {
                &&& eocd64_at(data@, at as int)
                &&& eocd64_fields(data@, at as int, v)
                &&& n == eocd64_record_len(data@, at as int)
            },
            Parsed::Incomplete => {
                &&& !prefix_conflict(data@, at as int, eocd64_sig())
                &&& (at + 12 > data@.len() || (le64(data@, at as int + 4) >= 44 && at + 12 + le64(
                    data@,
                    at as int + 4,
                ) > data@.len()))
            },
            Parsed::Invalid => {
                prefix_conflict(data@, at as int, eocd64_sig()) || (sig_at(
                    data@,
                    at as int,
                    eocd64_sig(),
                ) && at + 12 <= data@.len() && le64(data@, at as int + 4) < 44)
            },
        },
{
    match check_sig4(data, at, 0x50, 0x4b, 0x06, 0x06) {
        SigCheck::Conflict => Parsed::Invalid,
        SigCheck::Short => Parsed::Incomplete,
        SigCheck::Matched => {
            let n = data.len();
            if n - at < 12 {
                return Parsed::Incomplete;
            }
            let record_size = read_u64(data, at + 4);
            if record_size < 44 {
                return Parsed::Invalid;
            }
            let avail = n - (at + 12);
            if record_size > avail as u64 {
                return Parsed::Incomplete;
            }
            let v = EndOfCentralDirectory64Record {
                record_size,
                creator_version: read_u16(data, at + 12),
                reader_version: read_u16(data, at + 14),
                disk_nbr: read_u32(data, at + 16),
                dir_disk_nbr: read_u32(data, at + 20),
                disk_records: read_u64(data, at + 24),
                directory_records: read_u64(data, at + 32),
                directory_size: read_u64(data, at + 40),
                directory_offset: read_u64(data, at + 48),
            };
            Parsed::Complete(v, 12 + record_size as usize)
        },
    }
}

/// The data descriptor trailing an entry whose local header had the
/// sizes-unknown flag set.  Sizes are stored here in 64-bit form whatever
/// their width on disk.
#[derive(Clone, Copy, Debug)]
pub struct DataDescriptorRecord {
    /// CRC-32 of the entry's decompressed payload.
    pub crc32: u32,
    /// Compressed size of the payload.
    pub compressed_size: u64,
    /// Decompressed size of the payload.
    pub uncompressed_size: u64,
}

/// The optional data descriptor signature, little-endian `0x08074b50`.
pub open spec fn dd_sig() -> Seq<u8> {
    seq![0x50u8, 0x4bu8, 0x07u8, 0x08u8]
}

/// The span of the descriptor's fields after any signature: a CRC plus two
/// sizes of the given width.
pub open spec fn dd_body_len(is_zip64: bool) -> int {
    if is_zip64 {
        20
    } else {
        12
    }
}

/// `r` holds exactly the descriptor fields standing at `i` (the position
/// after any signature).
pub open spec fn dd_fields(s: Seq<u8>, i: int, is_zip64: bool, r: DataDescriptorRecord) -> bool {
    &&& r.crc32 == le32(s, i)
    &&& if is_zip64 {
        r.compressed_size == le64(s, i + 4) && r.uncompressed_size == le64(s, i + 12)
    } else {
        r.compressed_size == le32(s, i + 4) && r.uncompressed_size == le32(s, i + 8)
    }
}

/// Parses the data descriptor at `at`.  The four-byte signature may or may
/// not precede the fields: the signed form is tried first, and only if its
/// signature can never match do the bytes count as the unsigned form.
pub fn parse_data_descriptor(data: &[u8], at: usize, is_zip64: bool) -> (r: Parsed<
    DataDescriptorRecord,
>)
    requires
        at <= data@.len(),
    ensures
        match r {
            Parsed::Complete(v, n) => {
                if sig_at(data@, at as int, dd_sig()) {
                    &&& n == 4 + dd_body_len(is_zip64)
                    &&& at + n <= data@.len()
                    &&& dd_fields(data@, at as int + 4, is_zip64, v)
                } else {
                    &&& prefix_conflict(data@, at as int, dd_sig())
                    &&& n == dd_body_len(is_zip64)
                    &&& at + n <= data@.len()
                    &&& dd_fields(data@, at as int, is_zip64, v)
                }
            },
            Parsed::Incomplete => {
                if prefix_conflict(data@, at as int, dd_sig()) {
                    at + dd_body_len(is_zip64) > data@.len()
                } else {
                    at + 4 + dd_body_len(is_zip64) > data@.len()
                }
            },
            Parsed::Invalid => false,
        },
{
    let body = if is_zip64 { 20 } else { 12 };
    match check_sig4(data, at, 0x50, 0x4b, 0x07, 0x08) {
        SigCheck::Matched => {
            if data.len() - (at + 4) < body {
                return Parsed::Incomplete;
            }
            let v = read_dd_body(data, at + 4, is_zip64);
            Parsed::Complete(v, 4 + body)
        },
        SigCheck::Short => Parsed::Incomplete,
        SigCheck::Conflict => {
            if data.len() - at < body {
                return Parsed::Incomplete;
            }
            let v = read_dd_body(data, at, is_zip64);
            Parsed::Complete(v, body)
        },
    }
}

/// Reads the descriptor fields standing at `at`.
fn read_dd_body(data: &[u8], at: usize, is_zip64: bool) -> (r: DataDescriptorRecord)
    requires
        at + dd_body_len(is_zip64) <= data@.len(),
    ensures
        dd_fields(data@, at as int, is_zip64, r),
{
    proof {
        vstd::slice::axiom_spec_len::<u8>(data);
    }
    if is_zip64 {
        DataDescriptorRecord {
            crc32: read_u32(data, at),
            compressed_size: read_u64(data, at + 4),
            uncompressed_size: read_u64(data, at + 12),
        }
    } else {
        DataDescriptorRecord {
            crc32: read_u32(data, at),
            compressed_size: read_u32(data, at + 4) as u64,
            uncompressed_size: read_u32(data, at + 8) as u64,
        }
    }
}

/// A "version made by" or "version needed" field: the host system in the
/// high byte and the ZIP specification version in the low byte.
#[derive(Clone, Copy, Debug, PartialEq, Eq, Structural)]
pub struct Version {
    /// The host system the field attributes belong to (3 is Unix).
    pub host_system: u8,
    /// The ZIP specification version, in tenths.
    pub version: u8,
}

/// `v` holds exactly the version field standing at `i`.
pub open spec fn version_fields(s: Seq<u8>, i: int, v: Version) -> bool {
    &&& v.version == s[i]
    &&& v.host_system == s[i + 1]
}

/// An MS-DOS date and time pair, as stored in every header.
#[derive(Clone, Copy, Debug, PartialEq, Eq, Structural)]
pub struct MsdosTimestamp {
    /// Seconds/2 in bits 0-4, minutes in bits 5-10, hours in bits 11-15.
    pub time: u16,
    /// Day in bits 0-4, month in bits 5-8, years since 1980 in bits 9-15.
    pub date: u16,
}

/// A central directory file header, as stored: counts, offsets and the raw
/// name, extra and comment byte blocks.
#[derive(Clone, Debug)]
pub struct CentralDirectoryFileHeaderRecord {
    /// Version made by.
    pub creator_version: Version,
    /// Version needed to extract.
    pub reader_version: Version,
    /// General purpose bit flags.
    pub flags: u16,
    /// Compression method code.
    pub method: u16,
    /// Last modification date and time.
    pub modified: MsdosTimestamp,
    /// CRC-32 of the decompressed payload.
    pub crc32: u32,
    /// Compressed size; `u32::MAX` defers to the zip64 extra field.
    pub compressed_size: u32,
    /// Decompressed size; `u32::MAX` defers to the zip64 extra field.
    pub uncompressed_size: u32,
    /// Disk on which the entry starts.
    pub disk_nbr_start: u16,
    /// Internal file attributes.
    pub internal_attrs: u16,
    /// External file attributes; hosts store the file mode here.
    pub external_attrs: u32,
    /// Offset of the entry's local file header.
    pub header_offset: u32,
    /// The entry name, raw.
    pub name: Vec<u8>,
    /// The extra field block, raw.
    pub extra: Vec<u8>,
    /// The entry comment, raw.
    pub comment: Vec<u8>,
}

/// The central directory header signature, little-endian `0x02014b50`.
pub open spec fn cdh_sig() -> Seq<u8> {
    seq![0x50u8, 0x4bu8, 0x01u8, 0x02u8]
}

/// The span of the central directory header at `i`: the fixed part plus the
/// declared name, extra and comment lengths.
pub open spec fn cdh_record_len(s: Seq<u8>, i: int) -> int {
    46 + le16(s, i + 28) + le16(s, i + 30) + le16(s, i + 32)
}

/// A complete central directory header stands at `i`.
pub open spec fn cdh_at(s: Seq<u8>, i: int) -> bool {
    &&& sig_at(s, i, cdh_sig())
    &&& i + 46 <= s.len()
    &&& i + cdh_record_len(s, i) <= s.len()
}

/// `r` holds exactly the fields of the central directory header at `i`.
pub open spec fn cdh_fields(s: Seq<u8>, i: int, r: CentralDirectoryFileHeaderRecord) -> bool {
    &&& version_fields(s, i + 4, r.creator_version)
    &&& version_fields(s, i + 6, r.reader_version)
    &&& r.flags == le16(s, i + 8)
    &&& r.method == le16(s, i + 10)
    &&& r.modified.time == le16(s, i + 12)
    &&& r.modified.date == le16(s, i + 14)
    &&& r.crc32 == le32(s, i + 16)
    &&& r.compressed_size == le32(s, i + 20)
    &&& r.uncompressed_size == le32(s, i + 24)
    &&& r.disk_nbr_start == le16(s, i + 34)
    &&& r.internal_attrs == le16(s, i + 36)
    &&& r.external_attrs == le32(s, i + 38)
    &&& r.header_offset == le32(s, i + 42)
    &&& r.name@ == s.subrange(i + 46, i + 46 + le16(s, i + 28))
    &&& r.extra@ == s.subrange(i + 46 + le16(s, i + 28), i + 46 + le16(s, i + 28) + le16(s, i + 30))
    &&& r.comment@ == s.subrange(
        i + 46 + le16(s, i + 28) + le16(s, i + 30),
        i + cdh_record_len(s, i),
    )
}

/// How many complete central directory headers stand in a row from `at`:
/// the length of the maximal run the directory walk consumes before the
/// window ends it.
pub open spec fn cdh_run_len(s: Seq<u8>, at: int) -> int
    decreases s.len() - at,
{
    if 0 <= at && cdh_at(s, at) && cdh_record_len(s, at) >= 46 {
        1 + cdh_run_len(s, at + cdh_record_len(s, at))
    } else {
        0
    }
}

/// Parses the central directory file header at `at`.
pub fn parse_central_directory_header(data: &[u8], at: usize) -> (r: Parsed<
    CentralDirectoryFileHeaderRecord,
>)
    requires
        at <= data@.len(),
    ensures
        match r {
            Parsed::Complete(v, n) => {
                &&& cdh_at(data@, at as int)
                &&& cdh_fields(data@, at as int, v)
                &&& n == cdh_record_len(data@, at as int)
            },
            Parsed::Incomplete => {
                &&& !prefix_conflict(data@, at as int, cdh_sig())
                &&& at + cdh_record_len(data@, at as int) > data@.len()
            },
            Parsed::Invalid => prefix_conflict(data@, at as int, cdh_sig()),
        },
{
    match check_sig4(data, at, 0x50, 0x4b, 0x01, 0x02) {
        SigCheck::Conflict => Parsed::Invalid,
        SigCheck::Short => Parsed::Incomplete,
        SigCheck::Matched => {
            let n = data.len();
            if n - at < 46 {
                return Parsed::Incomplete;
            }
            let name_len = read_u16(data, at + 28) as usize;
            let extra_len = read_u16(data, at + 30) as usize;
            let comment_len = read_u16(data, at + 32) as usize;
            if n - (at + 46) < name_len + extra_len + comment_len {
                return Parsed::Incomplete;
            }
            let name_start = at + 46;
            let extra_start = name_start + name_len;
            let comment_start = extra_start + extra_len;
            let total = 46 + name_len + extra_len + comment_len;
            let v = CentralDirectoryFileHeaderRecord {
                creator_version: Version {
                    version: data[at + 4],
                    host_system: data[at + 5],
                },
                reader_version: Version {
                    version: data[at + 6],
                    host_system: data[at + 7],
                },
                flags: read_u16(data, at + 8),
                method: read_u16(data, at + 10),
                modified: MsdosTimestamp {
                    time: read_u16(data, at + 12),
                    date: read_u16(data, at + 14),
                },
                crc32: read_u32(data, at + 16),
                compressed_size: read_u32(data, at + 20),
                uncompressed_size: read_u32(data, at + 24),
                disk_nbr_start: read_u16(data, at + 34),
                internal_attrs: read_u16(data, at + 36),
                external_attrs: read_u32(data, at + 38),
                header_offset: read_u32(data, at + 42),
                name: vstd::slice::slice_to_vec(
                    vstd::slice::slice_subrange(data, name_start, extra_start),
                ),
                extra: vstd::slice::slice_to_vec(
                    vstd::slice::slice_subrange(data, extra_start, comment_start),
                ),
                comment: vstd::slice::slice_to_vec(
                    vstd::slice::slice_subrange(data, comment_start, comment_start + comment_len),
                ),
            };
            Parsed::Complete(v, total)
        },
    }
}

/// Data that follows the name and extra block of a local header for certain
/// methods.
#[derive(Clone, Copy, Debug, PartialEq, Eq, Structural)]
pub enum MethodSpecific {
    /// The method carries no extra header data.
    Absent,
    /// Raw LZMA: version of the encoder and the size of its property block.
    Lzma {
        /// Encoder major version.
        major: u8,
        /// Encoder minor version.
        minor: u8,
        /// Size of the LZMA property block that follows in the payload.
        properties_size: u16,
    },
}

/// A local file header, as stored at an entry's header offset.
#[derive(Clone, Debug)]
pub struct LocalFileHeaderRecord {
    /// Version needed to extract.
    pub reader_version: Version,
    /// General purpose bit flags.
    pub flags: u16,
    /// Compression method code.
    pub method: u16,
    /// Last modification date and time.
    pub modified: MsdosTimestamp,
    /// CRC-32 of the decompressed payload; zero when a data descriptor
    /// follows the payload.
    pub crc32: u32,
    /// Compressed size; `u32::MAX` defers to the zip64 extra field.
    pub compressed_size: u32,
    /// Decompressed size; `u32::MAX` defers to the zip64 extra field.
    pub uncompressed_size: u32,
    /// The entry name, raw.
    pub name: Vec<u8>,
    /// The extra field block, raw.
    pub extra: Vec<u8>,
    /// Method-specific data following the header.
    pub method_specific: MethodSpecific,
}

impl LocalFileHeaderRecord {
    /// Bit 3 of the flags: the sizes and CRC were unknown when the header
    /// was written and a data descriptor follows the payload.
    pub open spec fn spec_has_data_descriptor(&self) -> bool {
        self.flags & 8 != 0
    }

    /// Whether a data descriptor follows this entry's payload.
    pub fn has_data_descriptor(&self) -> (r: bool)
        ensures
            r == self.spec_has_data_descriptor(),
    {
        self.flags & 8 != 0
    }
}

/// The local file header signature, little-endian `0x04034b50`.
pub open spec fn lfh_sig() -> Seq<u8> {
    seq![0x50u8, 0x4bu8, 0x03u8, 0x04u8]
}

/// The span of the local file header at `i`: the fixed part, the declared
/// name and extra lengths, and for raw LZMA the four-byte property header.
pub open spec fn lfh_record_len(s: Seq<u8>, i: int) -> int {
    30 + le16(s, i + 26) + le16(s, i + 28) + if le16(s, i + 8) == 14 {
        4int
    } else {
        0int
    }
}

/// A complete local file header stands at `i`.
pub open spec fn lfh_at(s: Seq<u8>, i: int) -> bool {
    &&& sig_at(s, i, lfh_sig())
    &&& i + 30 <= s.len()
    &&& i + lfh_record_len(s, i) <= s.len()
}

/// `r` holds exactly the fields of the local file header at `i`.
pub open spec fn lfh_fields(s: Seq<u8>, i: int, r: LocalFileHeaderRecord) -> bool {
    &&& version_fields(s, i + 4, r.reader_version)
    &&& r.flags == le16(s, i + 6)
    &&& r.method == le16(s, i + 8)
    &&& r.modified.time == le16(s, i + 10)
    &&& r.modified.date == le16(s, i + 12)
    &&& r.crc32 == le32(s, i + 14)
    &&& r.compressed_size == le32(s, i + 18)
    &&& r.uncompressed_size == le32(s, i + 22)
    &&& r.name@ == s.subrange(i + 30, i + 30 + le16(s, i + 26))
    &&& r.extra@ == s.subrange(i + 30 + le16(s, i + 26), i + 30 + le16(s, i + 26) + le16(s, i + 28))
    &&& if le16(s, i + 8) == 14 {
        let m = i + 30 + le16(s, i + 26) + le16(s, i + 28);
        r.method_specific == (MethodSpecific::Lzma {
            major: s[m],
            minor: s[m + 1],
            properties_size: le16(s, m + 2) as u16,
        })
    } else {
        r.method_specific == MethodSpecific::Absent
    }
}

/// Parses the local file header at `at`.
pub fn parse_local_file_header(data: &[u8], at: usize) -> (r: Parsed<LocalFileHeaderRecord>)
    requires
        at <= data@.len(),
    ensures
        match r {
            Parsed::Complete(v, n) => {
                &&& lfh_at(data@, at as int)
                &&& lfh_fields(data@, at as int, v)
                &&& n == lfh_record_len(data@, at as int)
            },
            Parsed::Incomplete => {
                &&& !prefix_conflict(data@, at as int, lfh_sig())
                &&& at + lfh_record_len(data@, at as int) > data@.len()
            },
            Parsed::Invalid => prefix_conflict(data@, at as int, lfh_sig()),
        },
{
    match check_sig4(data, at, 0x50, 0x4b, 0x03, 0x04) {
        SigCheck::Conflict => Parsed::Invalid,
        SigCheck::Short => Parsed::Incomplete,
        SigCheck::Matched => {
            let n = data.len();
            if n - at < 30 {
                return Parsed::Incomplete;
            }
            let method = read_u16(data, at + 8);
            let name_len = read_u16(data, at + 26) as usize;
            let extra_len = read_u16(data, at + 28) as usize;
            let lzma_len: usize = if method == 14 { 4 } else { 0 };
            if n - (at + 30) < name_len + extra_len + lzma_len {
                return Parsed::Incomplete;
            }
            let name_start = at + 30;
            let extra_start = name_start + name_len;
            let after_extra = extra_start + extra_len;
            let method_specific = if method == 14 {
                MethodSpecific::Lzma {
                    major: data[after_extra],
                    minor: data[after_extra + 1],
                    properties_size: read_u16(data, after_extra + 2),
                }
            } else {
                MethodSpecific::Absent
            };
            let v = LocalFileHeaderRecord {
                reader_version: Version {
                    version: data[at + 4],
                    host_system: data[at + 5],
                },
                flags: read_u16(data, at + 6),
                method,
                modified: MsdosTimestamp {
                    time: read_u16(data, at + 10),
                    date: read_u16(data, at + 12),
                },
                crc32: read_u32(data, at + 14),
                compressed_size: read_u32(data, at + 18),
                uncompressed_size: read_u32(data, at + 22),
                name: vstd::slice::slice_to_vec(
                    vstd::slice::slice_subrange(data, name_start, extra_start),
                ),
                extra: vstd::slice::slice_to_vec(
                    vstd::slice::slice_subrange(data, extra_start, after_extra),
                ),
                method_specific,
            };
            Parsed::Complete(v, 30 + name_len + extra_len + lzma_len)
        },
    }
}

} // verus!
