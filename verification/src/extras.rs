//! The extra-field block walker.
//!
//! Both kinds of header carry an extra block: a run of `(tag, size,
//! payload)` sub-records.  The walker collects exactly the fields the entry
//! builder needs: zip64 size widenings, the three timestamp families, unix
//! ownership, and the AE-x encryption descriptor.

use vstd::prelude::*;
use crate::le::{le16, le32, le64, read_u16, read_u32, read_u64};

verus! {

/// The WinZip AES extra field: how an AE-x entry is framed.
#[derive(Clone, Copy, Debug, PartialEq, Eq, Structural)]
pub struct ExtraAexField {
    /// 1 for AE-1 (CRC kept), 2 for AE-2 (CRC zeroed).
    pub version: u16,
    /// The two vendor bytes, `AE` = 0x4541.
    pub vendor_id: u16,
    /// Key strength: 1, 2 or 3, giving a salt of 8, 12 or 16 bytes.
    pub mode: u8,
    /// The compression method of the plaintext before encryption.
    pub original_method: u16,
}

/// Everything the entry builder reads out of an extra block.  Every field
/// keeps the raw stored value; conversions happen in the builder.
#[derive(Clone, Copy, Debug, PartialEq, Eq, Structural)]
pub struct ExtraParse {
    /// 64-bit decompressed size from the zip64 field, when looked for and
    /// present.
    pub zip64_uncompressed: Option<u64>,
    /// 64-bit compressed size from the zip64 field, when looked for and
    /// present.
    pub zip64_compressed: Option<u64>,
    /// 64-bit header offset from the zip64 field, when looked for and
    /// present.
    pub zip64_header_offset: Option<u64>,
    /// Modification time from the extended-timestamp field, as stored: unix
    /// seconds.
    pub timestamp_mtime: Option<u32>,
    /// Access and modification times from the Info-ZIP unix field, as
    /// stored: unix seconds.
    pub unix_atime: Option<u32>,
    /// See [`ExtraParse::unix_atime`].
    pub unix_mtime: Option<u32>,
    /// Owner from a unix field.
    pub uid: Option<u32>,
    /// Group from a unix field.
    pub gid: Option<u32>,
    /// Modification, access and creation times from the NTFS field, as
    /// stored: 100-nanosecond ticks since 1601.
    pub ntfs_mtime: Option<u64>,
    /// See [`ExtraParse::ntfs_mtime`].
    pub ntfs_atime: Option<u64>,
    /// See [`ExtraParse::ntfs_mtime`].
    pub ntfs_ctime: Option<u64>,
    /// The AE-x descriptor.
    pub aex: Option<ExtraAexField>,
}

impl ExtraParse {
    /// The walker's starting point: nothing found yet.
    pub open spec fn spec_empty() -> ExtraParse {
        ExtraParse {
            zip64_uncompressed: None,
            zip64_compressed: None,
            zip64_header_offset: None,
            timestamp_mtime: None,
            unix_atime: None,
            unix_mtime: None,
            uid: None,
            gid: None,
            ntfs_mtime: None,
            ntfs_atime: None,
            ntfs_ctime: None,
            aex: None,
        }
    }
}

/// Which zip64 widenings the header asked for by storing a sentinel.
#[derive(Clone, Copy, Debug, PartialEq, Eq, Structural)]
pub struct Zip64Needs {
    /// The stored decompressed size was `u32::MAX`.
    pub uncompressed: bool,
    /// The stored compressed size was `u32::MAX`.
    pub compressed: bool,
    /// The stored header offset was `u32::MAX`.
    pub header_offset: bool,
}

/// The little-endian value of the `k` bytes at `i`, for the field widths
/// the unix extra fields use in practice.  Any other width reads as absent.
pub open spec fn le_sized(s: Seq<u8>, i: int, k: int) -> Option<int> {
    if k == 1 {
        Some(s[i] as int)
    } else if k == 2 {
        Some(le16(s, i))
    } else if k == 4 {
        Some(le32(s, i))
    } else if k == 8 {
        Some(le64(s, i))
    } else {
        None
    }
}

/// The first NTFS attribute sub-block carrying times: `(mtime, atime,
/// ctime)` in 100-nanosecond ticks since 1601, if any sub-block from `i` on
/// is a complete tag-1 block of at least 24 bytes.
pub open spec fn spec_ntfs_times(p: Seq<u8>, i: int) -> Option<(u64, u64, u64)>
    decreases p.len() - i,
{
    if i < 0 || i + 4 > p.len() {
        None
    } else {
        let tag = le16(p, i);
        let sz = le16(p, i + 2);
        if i + 4 + sz > p.len() {
            None
        } else if tag == 1 && sz >= 24 {
            Some(
                (
                    le64(p, i + 4) as u64,
                    le64(p, i + 12) as u64,
                    le64(p, i + 20) as u64,
                ),
            )
        } else {
            spec_ntfs_times(p, i + 4 + sz)
        }
    }
}

/// What one sub-record does to the accumulator.  `p` is the sub-record's
/// payload alone.
pub open spec fn spec_apply_extra(acc: ExtraParse, tag: int, p: Seq<u8>, needs: Zip64Needs,
) -> ExtraParse {
    if tag == 0x0001 {
        spec_apply_zip64(acc, p, needs)
    } else if tag == 0x5455 {
        if p.len() >= 5 && p[0] & 1 == 1 {
            ExtraParse { timestamp_mtime: Some(le32(p, 1) as u32), ..acc }
        } else {
            acc
        }
    } else if tag == 0x000d {
        if p.len() >= 12 {
            ExtraParse {
                unix_atime: Some(le32(p, 0) as u32),
                unix_mtime: Some(le32(p, 4) as u32),
                uid: Some(le16(p, 8) as u32),
                gid: Some(le16(p, 10) as u32),
                ..acc
            }
        } else {
            acc
        }
    } else if tag == 0x7875 {
        spec_apply_new_unix(acc, p)
    } else if tag == 0x000a {
        match spec_ntfs_times(p, 4) {
            Some((m, a, c)) => ExtraParse {
                ntfs_mtime: Some(m),
                ntfs_atime: Some(a),
                ntfs_ctime: Some(c),
                ..acc
            },
            None => acc,
        }
    } else if tag == 0x9901 {
        if p.len() >= 7 {
            ExtraParse {
                aex: Some(
                    ExtraAexField {
                        version: le16(p, 0) as u16,
                        vendor_id: le16(p, 2) as u16,
                        mode: p[4],
                        original_method: le16(p, 5) as u16,
                    },
                ),
                ..acc
            }
        } else {
            acc
        }
    } else {
        acc
    }
}

/// The zip64 field: a 64-bit value for each quantity the header asked to
/// widen, in the fixed order decompressed size, compressed size, header
/// offset.  A value asked for but not covered by the payload stays absent.
pub open spec fn spec_apply_zip64(acc: ExtraParse, p: Seq<u8>, needs: Zip64Needs) -> ExtraParse {
    let n_unc: int = if needs.uncompressed {
        8
    } else {
        0
    };
    let n_comp: int = if needs.compressed {
        8
    } else {
        0
    };
    ExtraParse {
        zip64_uncompressed: if needs.uncompressed && p.len() >= 8 {
            Some(le64(p, 0) as u64)
        } else {
            acc.zip64_uncompressed
        },
        zip64_compressed: if needs.compressed && p.len() >= n_unc + 8 {
            Some(le64(p, n_unc) as u64)
        } else {
            acc.zip64_compressed
        },
        zip64_header_offset: if needs.header_offset && p.len() >= n_unc + n_comp + 8 {
            Some(le64(p, n_unc + n_comp) as u64)
        } else {
            acc.zip64_header_offset
        },
        ..acc
    }
}

/// The new-unix field: sized owner and group values after a version byte.
/// A value wider than 32 bits, or one the payload does not cover, stays
/// absent.
pub open spec fn spec_apply_new_unix(acc: ExtraParse, p: Seq<u8>) -> ExtraParse {
    if p.len() >= 2 {
        let uid_size = p[1] as int;
        if 2 + uid_size + 1 <= p.len() {
            let uid_val = le_sized(p, 2, uid_size);
            let gid_size = p[2 + uid_size] as int;
            if 3 + uid_size + gid_size <= p.len() {
                let gid_val = le_sized(p, 3 + uid_size, gid_size);
                ExtraParse {
                    uid: match uid_val {
                        Some(v) if v <= u32::MAX => Some(v as u32),
                        _ => acc.uid,
                    },
                    gid: match gid_val {
                        Some(v) if v <= u32::MAX => Some(v as u32),
                        _ => acc.gid,
                    },
                    ..acc
                }
            } else {
                acc
            }
        } else {
            acc
        }
    } else {
        acc
    }
}

/// The walk from offset `i` on, starting from `acc`: each complete
/// sub-record is applied in order; the walk stops at the first sub-record
/// the block does not cover.
pub open spec fn spec_extras_from(s: Seq<u8>, i: int, acc: ExtraParse, needs: Zip64Needs,
) -> ExtraParse
    decreases s.len() - i,
{
    if i < 0 || i + 4 > s.len() {
        acc
    } else {
        let tag = le16(s, i);
        let sz = le16(s, i + 2);
        if i + 4 + sz > s.len() {
            acc
        } else {
            spec_extras_from(
                s,
                i + 4 + sz,
                spec_apply_extra(acc, tag, s.subrange(i + 4, i + 4 + sz), needs),
                needs,
            )
        }
    }
}

/// What the whole extra block yields.
pub open spec fn spec_extras(s: Seq<u8>, needs: Zip64Needs) -> ExtraParse {
    spec_extras_from(s, 0, ExtraParse::spec_empty(), needs)
}

/// Walks the extra block and collects every field the entry builder needs.
pub fn parse_extras(extra: &[u8], needs: Zip64Needs) -> (r: ExtraParse)
    ensures
        r == spec_extras(extra@, needs),
{
    let mut acc = ExtraParse {
        zip64_uncompressed: None,
        zip64_compressed: None,
        zip64_header_offset: None,
        timestamp_mtime: None,
        unix_atime: None,
        unix_mtime: None,
        uid: None,
        gid: None,
        ntfs_mtime: None,
        ntfs_atime: None,
        ntfs_ctime: None,
        aex: None,
    };
    let n = extra.len();
    let mut i: usize = 0;
    loop
        invariant
            n == extra@.len(),
            i <= n,
            spec_extras(extra@, needs) == spec_extras_from(extra@, i as int, acc, needs),
        decreases n - i,
    {
        if n - i < 4 {
            return acc;
        }
        let tag = read_u16(extra, i);
        let sz = read_u16(extra, i + 2) as usize;
        if n - (i + 4) < sz {
            return acc;
        }
        let payload = vstd::slice::slice_subrange(extra, i + 4, i + 4 + sz);
        acc = apply_extra(acc, tag, payload, needs);
        i = i + 4 + sz;
    }
}

/// Applies one sub-record to the accumulator.
fn apply_extra(acc: ExtraParse, tag: u16, p: &[u8], needs: Zip64Needs) -> (r: ExtraParse)
    ensures
        r == spec_apply_extra(acc, tag as int, p@, needs),
{
    if tag == 0x0001 {
        apply_zip64(acc, p, needs)
    } else if tag == 0x5455 {
        if p.len() >= 5 && p[0] & 1 == 1 {
            ExtraParse { timestamp_mtime: Some(read_u32(p, 1)), ..acc }
        } else {
            acc
        }
    } else if tag == 0x000d {
        if p.len() >= 12 {
            ExtraParse {
                unix_atime: Some(read_u32(p, 0)),
                unix_mtime: Some(read_u32(p, 4)),
                uid: Some(read_u16(p, 8) as u32),
                gid: Some(read_u16(p, 10) as u32),
                ..acc
            }
        } else {
            acc
        }
    } else if tag == 0x7875 {
        apply_new_unix(acc, p)
    } else if tag == 0x000a {
        match ntfs_times(p) {
            Some((m, a, c)) => ExtraParse {
                ntfs_mtime: Some(m),
                ntfs_atime: Some(a),
                ntfs_ctime: Some(c),
                ..acc
            },
            None => acc,
        }
    } else if tag == 0x9901 {
        if p.len() >= 7 {
            ExtraParse {
                aex: Some(
                    ExtraAexField {
                        version: read_u16(p, 0),
                        vendor_id: read_u16(p, 2),
                        mode: p[4],
                        original_method: read_u16(p, 5),
                    },
                ),
                ..acc
            }
        } else {
            acc
        }
    } else {
        acc
    }
}

/// Applies a zip64 sub-record.
fn apply_zip64(acc: ExtraParse, p: &[u8], needs: Zip64Needs) -> (r: ExtraParse)
    ensures
        r == spec_apply_zip64(acc, p@, needs),
{
    let mut r = acc;
    let mut at: usize = 0;
    let n = p.len();
    if needs.uncompressed {
        if n >= 8 {
            r.zip64_uncompressed = Some(read_u64(p, 0));
        }
        at = 8;
    }
    if needs.compressed {
        if n >= at + 8 && at <= n {
            r.zip64_compressed = Some(read_u64(p, at));
        }
        at = at + 8;
    }
    if needs.header_offset {
        if at <= n && n - at >= 8 {
            r.zip64_header_offset = Some(read_u64(p, at));
        }
    }
    r
}

/// Applies a new-unix sub-record.
fn apply_new_unix(acc: ExtraParse, p: &[u8]) -> (r: ExtraParse)
    ensures
        r == spec_apply_new_unix(acc, p@),
{
    let n = p.len();
    if n < 2 {
        return acc;
    }
    let uid_size = p[1] as usize;
    if n < 2 + uid_size + 1 {
        return acc;
    }
    let uid_val = read_le_sized(p, 2, uid_size);
    let gid_size = p[2 + uid_size] as usize;
    if n < 3 + uid_size + gid_size {
        return acc;
    }
    let gid_val = read_le_sized(p, 3 + uid_size, gid_size);
    let mut r = acc;
    match uid_val {
        Some(v) => { r.uid = Some(v); },
        None => {},
    }
    match gid_val {
        Some(v) => { r.gid = Some(v); },
        None => {},
    }
    r
}

/// Reads the `k`-byte little-endian value at `at`, for the practical
/// field widths, when it fits in 32 bits.
fn read_le_sized(p: &[u8], at: usize, k: usize) -> (r: Option<u32>)
    requires
        at + k <= p@.len(),
    ensures
        match r {
            Some(v) => le_sized(p@, at as int, k as int) matches Some(x) && x == v,
            None => match le_sized(p@, at as int, k as int) {
                Some(x) => x > u32::MAX,
                None => true,
            },
        },
{
    proof {
        vstd::slice::axiom_spec_len::<u8>(p);
    }
    if k == 1 {
        Some(p[at] as u32)
    } else if k == 2 {
        Some(read_u16(p, at) as u32)
    } else if k == 4 {
        Some(read_u32(p, at))
    } else if k == 8 {
        let v = read_u64(p, at);
        if v <= u32::MAX as u64 {
            Some(v as u32)
        } else {
            None
        }
    } else {
        None
    }
}

/// Scans the NTFS sub-blocks after the four reserved bytes for the first
/// tag-1 attribute carrying times.
fn ntfs_times(p: &[u8]) -> (r: Option<(u64, u64, u64)>)
    ensures
        r == spec_ntfs_times(p@, 4),
{
    let n = p.len();
    let mut i: usize = 4;
    loop
        invariant
            n == p@.len(),
            4 <= i,
            spec_ntfs_times(p@, 4) == spec_ntfs_times(p@, i as int),
        decreases n + 4 - i,
    {
        if i > n || n - i < 4 {
            return None;
        }
        let tag = read_u16(p, i);
        let sz = read_u16(p, i + 2) as usize;
        if n - (i + 4) < sz {
            return None;
        }
        if tag == 1 && sz >= 24 {
            return Some((read_u64(p, i + 4), read_u64(p, i + 12), read_u64(p, i + 20)));
        }
        i = i + 4 + sz;
    }
}

} // verus!
