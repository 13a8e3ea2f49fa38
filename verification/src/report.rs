//! The flat, report-facing view of an entry's two headers.
//!
//! The linter's output pairs each central directory record with the local
//! header found at its offset, both flattened into plain records with
//! decoded names and normalized metadata, ready for serialization by the
//! caller.

use vstd::prelude::*;
use crate::decompress::AexData;
use crate::encoding::spec_decode;
use crate::entry::{
    spec_accessed,
    spec_created,
    spec_local_encoding,
    spec_local_entry,
    spec_local_needs,
    spec_mode,
    spec_modified,
    Entry,
    Mode,
    Timestamp,
};
use crate::error::Error;
use crate::extras::{spec_extras, ExtraAexField};
use crate::method::Method;
use crate::records::{
    CentralDirectoryFileHeaderRecord,
    LocalFileHeaderRecord,
    MethodSpecific,
    Version,
};

verus! {

/// One central directory record, flattened for the report: raw counts and
/// attributes beside the entry's decoded name, comment and normalized
/// metadata.
#[derive(Clone, Debug)]
pub struct CentralDirectoryFileHeader {
    /// Version made by.
    pub creator_version: Version,
    /// Version needed to extract.
    pub reader_version: Version,
    /// General purpose bit flags.
    pub flags: u16,
    /// Compression method.
    pub method: Method,
    /// Modification time, normalized.
    pub modified: Timestamp,
    /// CRC-32 of the decompressed payload.
    pub crc32: u32,
    /// Compressed size as stored, 32 bits.
    pub compressed_size: u32,
    /// Decompressed size as stored, 32 bits.
    pub uncompressed_size: u32,
    /// Disk on which the entry starts.
    pub disk_nbr_start: u16,
    /// Internal file attributes.
    pub internal_attrs: u16,
    /// External file attributes.
    pub external_attrs: u32,
    /// Offset of the local header as stored, 32 bits.
    pub header_offset: u32,
    /// The decoded entry name.
    pub name: String,
    /// The raw extra block.
    pub extra: Vec<u8>,
    /// The decoded entry comment.
    pub comment: String,
    /// The file mode.
    pub mode: Mode,
    /// The AE-x descriptor, for encrypted entries.
    pub aex: Option<ExtraAexField>,
}

impl CentralDirectoryFileHeader {
    /// Flattens a raw central directory record and its normalized entry
    /// into the report shape.
    pub fn from_rc_zip(value: &CentralDirectoryFileHeaderRecord, entry: &Entry) -> (r:
        CentralDirectoryFileHeader)
        ensures
            r.creator_version == value.creator_version,
            r.reader_version == value.reader_version,
            r.flags == value.flags,
            r.method == Method::spec_from_u16(value.method),
            r.modified == entry.modified,
            r.crc32 == value.crc32,
            r.compressed_size == value.compressed_size,
            r.uncompressed_size == value.uncompressed_size,
            r.disk_nbr_start == value.disk_nbr_start,
            r.internal_attrs == value.internal_attrs,
            r.external_attrs == value.external_attrs,
            r.header_offset == value.header_offset,
            r.name@ == entry.name@,
            r.extra@ == value.extra@,
            r.comment@ == entry.comment@,
            r.mode == entry.mode,
            r.aex == entry.aex,
    {
        CentralDirectoryFileHeader {
            creator_version: value.creator_version,
            reader_version: value.reader_version,
            flags: value.flags,
            method: Method::from_u16(value.method),
            modified: entry.modified,
            crc32: value.crc32,
            compressed_size: value.compressed_size,
            uncompressed_size: value.uncompressed_size,
            disk_nbr_start: value.disk_nbr_start,
            internal_attrs: value.internal_attrs,
            external_attrs: value.external_attrs,
            header_offset: value.header_offset,
            name: clone_string(&entry.name),
            extra: clone_bytes(&value.extra),
            comment: clone_string(&entry.comment),
            mode: entry.mode,
            aex: entry.aex,
        }
    }
}

/// One local file header, flattened for the report: the stored fields
/// beside the metadata its own extra block yields.
#[derive(Clone, Debug)]
pub struct LocalFileHeader {
    /// Version needed to extract.
    pub reader_version: Version,
    /// General purpose bit flags.
    pub flags: u16,
    /// Compression method.
    pub method: Method,
    /// Modification time, normalized.
    pub modified: Timestamp,
    /// Creation time, when the header stored one.
    pub created: Option<Timestamp>,
    /// Access time, when the header stored one.
    pub accessed: Option<Timestamp>,
    /// CRC-32 of the decompressed payload.
    pub crc32: u32,
    /// Compressed size, zip64-widened.
    pub compressed_size: u64,
    /// Decompressed size, zip64-widened.
    pub uncompressed_size: u64,
    /// Offset of the local header; zero when only the header itself was
    /// parsed, which does not know where it stands.
    pub header_offset: u64,
    /// Unix owner, when the header stored one.
    pub uid: Option<u32>,
    /// Unix group, when the header stored one.
    pub gid: Option<u32>,
    /// The decoded entry name.
    pub name: String,
    /// The raw extra block.
    pub extra: Vec<u8>,
    /// Method-specific data following the header.
    pub method_specific: MethodSpecific,
    /// The file mode.
    pub mode: Mode,
    /// The AE-x descriptor, for encrypted entries.
    pub aex: Option<ExtraAexField>,
    /// Salt, verifier and authentication code captured from an AE-x
    /// payload.
    pub aex_data: Option<AexData>,
}

impl LocalFileHeader {
    /// Flattens a raw local header, with the side data captured while the
    /// payload streamed, into the report shape.  Fails exactly when the
    /// header's name does not decode under its own declared encoding.
    pub fn from_rc_zip(value: &LocalFileHeaderRecord, aex_data: Option<AexData>) -> (r: Result<
        LocalFileHeader,
        Error,
    >)
        ensures
            match r {
                Ok(h) => {
                    let ex = spec_extras(value.extra@, spec_local_needs(*value));
                    &&& spec_decode(spec_local_encoding(*value), value.name@) matches Ok(cs)
                        && h.name@ == cs
                    &&& h.reader_version == value.reader_version
                    &&& h.flags == value.flags
                    &&& h.method == Method::spec_from_u16(value.method)
                    &&& h.modified == spec_modified(ex, value.modified)
                    &&& h.created == spec_created(ex)
                    &&& h.accessed == spec_accessed(ex)
                    &&& h.crc32 == value.crc32
                    &&& h.compressed_size == match ex.zip64_compressed {
                        Some(v) => v,
                        None => value.compressed_size as u64,
                    }
                    &&& h.uncompressed_size == match ex.zip64_uncompressed {
                        Some(v) => v,
                        None => value.uncompressed_size as u64,
                    }
                    &&& h.header_offset == 0
                    &&& h.uid == ex.uid
                    &&& h.gid == ex.gid
                    &&& h.extra@ == value.extra@
                    &&& h.method_specific == value.method_specific
                    &&& h.mode == spec_mode(0, 0, value.name@)
                    &&& h.aex == ex.aex
                    &&& h.aex_data == aex_data
                },
                Err(er) => spec_decode(spec_local_encoding(*value), value.name@) matches Err(e2)
                    && er == e2,
            },
    {
        let entry = match value.as_entry() {
            Ok(e) => e,
            Err(e) => {
                return Err(e);
            },
        };
        Ok(
            LocalFileHeader {
                reader_version: value.reader_version,
                flags: value.flags,
                method: entry.method,
                modified: entry.modified,
                created: entry.created,
                accessed: entry.accessed,
                crc32: value.crc32,
                compressed_size: entry.compressed_size,
                uncompressed_size: entry.uncompressed_size,
                header_offset: entry.header_offset,
                uid: entry.uid,
                gid: entry.gid,
                name: entry.name,
                extra: clone_bytes(&value.extra),
                method_specific: value.method_specific,
                mode: entry.mode,
                aex: entry.aex,
                aex_data,
            },
        )
    }
}

/// Copies a string.
fn clone_string(s: &String) -> (r: String)
    ensures
        r@ == s@,
{
    s.clone()
}

/// Copies a byte vector.
fn clone_bytes(v: &Vec<u8>) -> (r: Vec<u8>)
    ensures
        r@ == v@,
{
    v.clone()
}

} // verus!
