//! The normalized per-file record and its construction from raw headers.
//!
//! A raw header stores sizes in 32 bits with a sentinel deferring to the
//! zip64 extra field, timestamps in up to three competing forms, and names
//! as undecoded bytes.  [`Entry`] is the reconciled view: 64-bit sizes,
//! one timestamp, decoded names.

use vstd::prelude::*;
use crate::encoding::{spec_decode, Encoding};
use crate::error::Error;
use crate::extras::{parse_extras, spec_extras, ExtraAexField, ExtraParse, Zip64Needs};
use crate::method::Method;
use crate::records::{CentralDirectoryFileHeaderRecord, LocalFileHeaderRecord, MsdosTimestamp};

verus! {

/// A moment in time, as seconds since the unix epoch.
#[derive(Clone, Copy, Debug, PartialEq, Eq, Structural)]
pub struct Timestamp {
    /// Seconds since 1970-01-01 00:00:00 UTC.
    pub epoch_seconds: i64,
}

/// A file mode in unix form: `0o40000` marks a directory, the low bits are
/// permissions.
#[derive(Clone, Copy, Debug, PartialEq, Eq, Structural)]
pub struct Mode(pub u32);

/// The directory bit of [`Mode`].
pub const MODE_DIR: u32 = 0o40000;

/// Days from the unix epoch to the given civil date, for dates from 1980
/// on.  This is the classic era-based civil calendar computation.
pub open spec fn spec_days_from_civil(y: int, m: int, d: int) -> int {
    let y2 = if m <= 2 {
        y - 1
    } else {
        y
    };
    let era = y2 / 400;
    let yoe = y2 - era * 400;
    let mp = (m + 9) % 12;
    let doy = (153 * mp + 2) / 5 + d - 1;
    let doe = yoe * 365 + yoe / 4 - yoe / 100 + doy;
    era * 146097 + doe - 719468
}

/// The unix time an MS-DOS date and time pair denotes, when its fields are
/// a real calendar date; garbage fields denote nothing.
pub open spec fn spec_dos_to_epoch(ts: MsdosTimestamp) -> Option<int> {
    let day = ts.date % 32;
    let month = (ts.date / 32) % 16;
    let year = 1980 + ts.date / 512;
    let second = 2 * (ts.time % 32);
    let minute = (ts.time / 32) % 64;
    let hour = ts.time / 2048;
    if 1 <= month <= 12 && 1 <= day <= 31 && hour <= 23 && minute <= 59 && second <= 59 {
        Some(
            spec_days_from_civil(year as int, month as int, day as int) * 86400 + hour * 3600
                + minute * 60 + second,
        )
    } else {
        None
    }
}

/// The unix time an NTFS timestamp (100-nanosecond ticks since 1601)
/// denotes, rounded toward 1601.
pub open spec fn spec_ntfs_to_epoch(ticks: u64) -> int {
    ticks / 10_000_000 - 11_644_473_600
}

/// Converts an MS-DOS date and time pair to unix time; a pair whose fields
/// are no real calendar date converts to nothing.
pub fn dos_to_epoch(ts: MsdosTimestamp) -> (r: Option<i64>)
    ensures
        match r {
            Some(v) => spec_dos_to_epoch(ts) == Some(v as int),
            None => spec_dos_to_epoch(ts) is None,
        },
{
    let day = (ts.date % 32) as u64;
    let month = ((ts.date / 32) % 16) as u64;
    let year = (1980 + ts.date / 512) as u64;
    let second = (2 * (ts.time % 32)) as u64;
    let minute = ((ts.time / 32) % 64) as u64;
    let hour = (ts.time / 2048) as u64;
    if 1 <= month && month <= 12 && 1 <= day && day <= 31 && hour <= 23 && minute <= 59 && second
        <= 59 {
        let y2 = if month <= 2 {
            year - 1
        } else {
            year
        };
        let era = y2 / 400;
        let yoe = y2 - era * 400;
        let mp = (month + 9) % 12;
        let doy = (153 * mp + 2) / 5 + day - 1;
        let doe = yoe * 365 + yoe / 4 - yoe / 100 + doy;
        let days = (era * 146097 + doe) as i64 - 719468;
        Some(days * 86400 + (hour * 3600 + minute * 60 + second) as i64)
    } else {
        None
    }
}

/// Converts an NTFS timestamp to unix time.
pub fn ntfs_to_epoch(ticks: u64) -> (r: i64)
    ensures
        r == spec_ntfs_to_epoch(ticks),
{
    (ticks / 10_000_000) as i64 - 11_644_473_600
}

/// The modification time an entry ends up with: the extended-timestamp
/// field wins, then the NTFS times, then the Info-ZIP unix times, then the
/// MS-DOS pair, and the epoch itself when even that is no real date.
pub open spec fn spec_modified(ex: ExtraParse, dos: MsdosTimestamp) -> Timestamp {
    if ex.timestamp_mtime is Some {
        Timestamp { epoch_seconds: ex.timestamp_mtime.unwrap() as i64 }
    } else if ex.ntfs_mtime is Some {
        Timestamp { epoch_seconds: spec_ntfs_to_epoch(ex.ntfs_mtime.unwrap()) as i64 }
    } else if ex.unix_mtime is Some {
        Timestamp { epoch_seconds: ex.unix_mtime.unwrap() as i64 }
    } else {
        match spec_dos_to_epoch(dos) {
            Some(v) => Timestamp { epoch_seconds: v as i64 },
            None => Timestamp { epoch_seconds: 0 },
        }
    }
}

/// The creation time an entry ends up with, if any: only NTFS stores one.
pub open spec fn spec_created(ex: ExtraParse) -> Option<Timestamp> {
    match ex.ntfs_ctime {
        Some(t) => Some(Timestamp { epoch_seconds: spec_ntfs_to_epoch(t) as i64 }),
        None => None,
    }
}

/// The access time an entry ends up with, if any: NTFS wins over the
/// Info-ZIP unix field.
pub open spec fn spec_accessed(ex: ExtraParse) -> Option<Timestamp> {
    if ex.ntfs_atime is Some {
        Some(Timestamp { epoch_seconds: spec_ntfs_to_epoch(ex.ntfs_atime.unwrap()) as i64 })
    } else if ex.unix_atime is Some {
        Some(Timestamp { epoch_seconds: ex.unix_atime.unwrap() as i64 })
    } else {
        None
    }
}

/// Picks the modification time from the parsed extras and the MS-DOS pair.
pub fn modified_of(ex: &ExtraParse, dos: MsdosTimestamp) -> (r: Timestamp)
    ensures
        r == spec_modified(*ex, dos),
{
    match ex.timestamp_mtime {
        Some(t) => Timestamp { epoch_seconds: t as i64 },
        None => match ex.ntfs_mtime {
            Some(t) => Timestamp { epoch_seconds: ntfs_to_epoch(t) },
            None => match ex.unix_mtime {
                Some(t) => Timestamp { epoch_seconds: t as i64 },
                None => match dos_to_epoch(dos) {
                    Some(v) => Timestamp { epoch_seconds: v },
                    None => Timestamp { epoch_seconds: 0 },
                },
            },
        },
    }
}

/// The file mode an entry ends up with.  A unix-family host stores a unix
/// mode in the high half of the external attributes; a DOS-family host
/// stores DOS attributes, of which the directory and read-only bits
/// translate.  A raw name ending in a slash byte marks a directory
/// whatever the host said; in all three supported encodings that byte is
/// exactly a trailing `/` character.
pub open spec fn spec_mode(host_system: u8, external_attrs: u32, raw_name: Seq<u8>) -> Mode {
    let base: u32 = if host_system == 3 || host_system == 19 {
        external_attrs >> 16
    } else if host_system == 0 || host_system == 10 || host_system == 14 {
        let dos: u32 = if external_attrs & 0x10 != 0 {
            0o40777
        } else {
            0o666
        };
        if external_attrs & 0x01 != 0 {
            dos & !0o222
        } else {
            dos
        }
    } else {
        0
    };
    if raw_name.len() > 0 && raw_name[raw_name.len() - 1] == 0x2f {
        Mode(base | MODE_DIR)
    } else {
        Mode(base)
    }
}

/// Computes the file mode from the creator's host system, the external
/// attributes, and the raw name bytes.
pub fn mode_of(host_system: u8, external_attrs: u32, raw_name: &[u8]) -> (r: Mode)
    ensures
        r == spec_mode(host_system, external_attrs, raw_name@),
{
    let base: u32 = if host_system == 3 || host_system == 19 {
        external_attrs >> 16
    } else if host_system == 0 || host_system == 10 || host_system == 14 {
        let dos: u32 = if external_attrs & 0x10 != 0 {
            0o40777
        } else {
            0o666
        };
        if external_attrs & 0x01 != 0 {
            dos & !0o222
        } else {
            dos
        }
    } else {
        0
    };
    let n = raw_name.len();
    if n > 0 && raw_name[n - 1] == 0x2f {
        Mode(base | MODE_DIR)
    } else {
        Mode(base)
    }
}

/// The normalized per-file record: decoded names, one timestamp per role,
/// 64-bit sizes whatever the storage width, and the entry's AE-x framing
/// when it is encrypted.
#[derive(Clone, Debug)]
pub struct Entry {
    /// The decoded entry name.
    pub name: String,
    /// The decoded entry comment.
    pub comment: String,
    /// Modification time.
    pub modified: Timestamp,
    /// Creation time, when the archive stored one.
    pub created: Option<Timestamp>,
    /// Access time, when the archive stored one.
    pub accessed: Option<Timestamp>,
    /// Unix owner, when the archive stored one.
    pub uid: Option<u32>,
    /// Unix group, when the archive stored one.
    pub gid: Option<u32>,
    /// The compression method.
    pub method: Method,
    /// CRC-32 of the decompressed payload; zero when deferred to a data
    /// descriptor.
    pub crc32: u32,
    /// Compressed size in bytes.
    pub compressed_size: u64,
    /// Decompressed size in bytes.
    pub uncompressed_size: u64,
    /// Offset of the entry's local file header in the file.
    pub header_offset: u64,
    /// The file mode.
    pub mode: Mode,
    /// The AE-x framing, when the entry is encrypted.
    pub aex: Option<ExtraAexField>,
}

/// Which zip64 widenings a central directory header asks for.
pub open spec fn spec_central_needs(rec: CentralDirectoryFileHeaderRecord) -> Zip64Needs {
    Zip64Needs {
        uncompressed: rec.uncompressed_size == u32::MAX,
        compressed: rec.compressed_size == u32::MAX,
        header_offset: rec.header_offset == u32::MAX,
    }
}

/// The entry a central directory header denotes, given the archive's
/// encoding and its implicit prefix length, provided both its name and its
/// comment decode.
pub open spec fn spec_central_entry(
    rec: CentralDirectoryFileHeaderRecord,
    encoding: Encoding,
    global_offset: u64,
    e: Entry,
) -> bool {
    let ex = spec_extras(rec.extra@, spec_central_needs(rec));
    &&& spec_decode(encoding, rec.name@) matches Ok(cs) && e.name@ == cs
    &&& spec_decode(encoding, rec.comment@) matches Ok(cs) && e.comment@ == cs
    &&& e.modified == spec_modified(ex, rec.modified)
    &&& e.created == spec_created(ex)
    &&& e.accessed == spec_accessed(ex)
    &&& e.uid == ex.uid
    &&& e.gid == ex.gid
    &&& e.method == Method::spec_from_u16(rec.method)
    &&& e.crc32 == rec.crc32
    &&& e.compressed_size == match ex.zip64_compressed {
        Some(v) => v,
        None => rec.compressed_size as u64,
    }
    &&& e.uncompressed_size == match ex.zip64_uncompressed {
        Some(v) => v,
        None => rec.uncompressed_size as u64,
    }
    &&& e.header_offset == vstd::wrapping::u64_specs::wrapping_add(
        match ex.zip64_header_offset {
            Some(v) => v,
            None => rec.header_offset as u64,
        },
        global_offset,
    )
    &&& e.mode == spec_mode(rec.creator_version.host_system, rec.external_attrs, rec.name@)
    &&& e.aex == ex.aex
}

impl CentralDirectoryFileHeaderRecord {
    /// Normalizes this header into an [`Entry`].  Fails exactly when the
    /// name or the comment does not decode under `encoding`.
    pub fn as_entry(&self, encoding: Encoding, global_offset: u64) -> (r: Result<Entry, Error>)
        ensures
            match r {
                Ok(e) => spec_central_entry(*self, encoding, global_offset, e),
                Err(er) => {
                    ||| spec_decode(encoding, self.name@) matches Err(e2) && er == e2
                    ||| spec_decode(encoding, self.comment@) matches Err(e2) && er == e2
                },
            },
    {
        let name = match encoding.decode(self.name.as_slice()) {
            Ok(s) => s,
            Err(e) => {
                return Err(e);
            },
        };
        let comment = match encoding.decode(self.comment.as_slice()) {
            Ok(s) => s,
            Err(e) => {
                return Err(e);
            },
        };
        let needs = Zip64Needs {
            uncompressed: self.uncompressed_size == u32::MAX,
            compressed: self.compressed_size == u32::MAX,
            header_offset: self.header_offset == u32::MAX,
        };
        let ex = parse_extras(self.extra.as_slice(), needs);
        let modified = modified_of(&ex, self.modified);
        let created = match ex.ntfs_ctime {
            Some(t) => Some(Timestamp { epoch_seconds: ntfs_to_epoch(t) }),
            None => None,
        };
        let accessed = match ex.ntfs_atime {
            Some(t) => Some(Timestamp { epoch_seconds: ntfs_to_epoch(t) }),
            None => match ex.unix_atime {
                Some(t) => Some(Timestamp { epoch_seconds: t as i64 }),
                None => None,
            },
        };
        let compressed_size = match ex.zip64_compressed {
            Some(v) => v,
            None => self.compressed_size as u64,
        };
        let uncompressed_size = match ex.zip64_uncompressed {
            Some(v) => v,
            None => self.uncompressed_size as u64,
        };
        let base_offset = match ex.zip64_header_offset {
            Some(v) => v,
            None => self.header_offset as u64,
        };
        let mode = mode_of(self.creator_version.host_system, self.external_attrs, self.name.as_slice());
        Ok(
            Entry {
                name,
                comment,
                modified,
                created,
                accessed,
                uid: ex.uid,
                gid: ex.gid,
                method: Method::from_u16(self.method),
                crc32: self.crc32,
                compressed_size,
                uncompressed_size,
                header_offset: base_offset.wrapping_add(global_offset),
                mode,
                aex: ex.aex,
            },
        )
    }
}

/// Which zip64 widenings a local file header asks for.  A local header
/// never stores its own offset, so that widening is never asked for.
pub open spec fn spec_local_needs(rec: LocalFileHeaderRecord) -> Zip64Needs {
    Zip64Needs {
        uncompressed: rec.uncompressed_size == u32::MAX,
        compressed: rec.compressed_size == u32::MAX,
        header_offset: false,
    }
}

/// The encoding a local header declares for its own name: UTF-8 when the
/// flag is set, CP 437 otherwise.
pub open spec fn spec_local_encoding(rec: LocalFileHeaderRecord) -> Encoding {
    if rec.flags & 0x800 != 0 {
        Encoding::Utf8
    } else {
        Encoding::Cp437
    }
}

/// The entry a local file header denotes on its own, provided its name
/// decodes.  The header offset is zero: a local header does not know where
/// it stands.
pub open spec fn spec_local_entry(rec: LocalFileHeaderRecord, e: Entry) -> bool {
    let ex = spec_extras(rec.extra@, spec_local_needs(rec));
    &&& spec_decode(spec_local_encoding(rec), rec.name@) matches Ok(cs) && e.name@ == cs
    &&& e.comment@ == Seq::<char>::empty()
    &&& e.modified == spec_modified(ex, rec.modified)
    &&& e.created == spec_created(ex)
    &&& e.accessed == spec_accessed(ex)
    &&& e.uid == ex.uid
    &&& e.gid == ex.gid
    &&& e.method == Method::spec_from_u16(rec.method)
    &&& e.crc32 == rec.crc32
    &&& e.compressed_size == match ex.zip64_compressed {
        Some(v) => v,
        None => rec.compressed_size as u64,
    }
    &&& e.uncompressed_size == match ex.zip64_uncompressed {
        Some(v) => v,
        None => rec.uncompressed_size as u64,
    }
    &&& e.header_offset == 0
    &&& e.mode == spec_mode(0, 0, rec.name@)
    &&& e.aex == ex.aex
}

impl LocalFileHeaderRecord {
    /// Normalizes this local header into an [`Entry`].  Fails exactly when
    /// the name does not decode under the header's own declared encoding.
    pub fn as_entry(&self) -> (r: Result<Entry, Error>)
        ensures
            match r {
                Ok(e) => spec_local_entry(*self, e),
                Err(er) => spec_decode(spec_local_encoding(*self), self.name@) matches Err(e2)
                    && er == e2,
            },
    {
        let encoding = if self.flags & 0x800 != 0 {
            Encoding::Utf8
        } else {
            Encoding::Cp437
        };
        let name = match encoding.decode(self.name.as_slice()) {
            Ok(s) => s,
            Err(e) => {
                return Err(e);
            },
        };
        let needs = Zip64Needs {
            uncompressed: self.uncompressed_size == u32::MAX,
            compressed: self.compressed_size == u32::MAX,
            header_offset: false,
        };
        let ex = parse_extras(self.extra.as_slice(), needs);
        let modified = modified_of(&ex, self.modified);
        let created = match ex.ntfs_ctime {
            Some(t) => Some(Timestamp { epoch_seconds: ntfs_to_epoch(t) }),
            None => None,
        };
        let accessed = match ex.ntfs_atime {
            Some(t) => Some(Timestamp { epoch_seconds: ntfs_to_epoch(t) }),
            None => match ex.unix_atime {
                Some(t) => Some(Timestamp { epoch_seconds: t as i64 }),
                None => None,
            },
        };
        let compressed_size = match ex.zip64_compressed {
            Some(v) => v,
            None => self.compressed_size as u64,
        };
        let uncompressed_size = match ex.zip64_uncompressed {
            Some(v) => v,
            None => self.uncompressed_size as u64,
        };
        let mode = mode_of(0, 0, self.name.as_slice());
        Ok(
            Entry {
                name,
                comment: String::new(),
                modified,
                created,
                accessed,
                uid: ex.uid,
                gid: ex.gid,
                method: Method::from_u16(self.method),
                crc32: self.crc32,
                compressed_size,
                uncompressed_size,
                header_offset: 0,
                mode,
                aex: ex.aex,
            },
        )
    }
}

} // verus!
