//! Drivers for archives held in memory.
//!
//! The state machines are sans-I/O; these drivers feed them from a byte
//! vector, which is all a caller needs for in-memory parsing and what the
//! tests run against.  File-backed callers run the same loop with their
//! own reads.

use vstd::prelude::*;
use crate::archive::{Archive, ArchiveFsm};
use crate::crc::crc32_of;
use crate::decompress::{spec_salt_size, AexData};
use crate::entry::Entry;
use crate::entry_fsm::EntryFsm;
use crate::error::{Error, FormatError, IoError};
use crate::fsm::FsmResult;
use crate::ranges::ParsedRanges;
use crate::method::Method;
use crate::le::le16;
use crate::records::{eocd_terminal_at, lfh_record_len, LocalFileHeaderRecord};

verus! {

/// Parses a whole archive held in memory.
///
/// The missing-signature error comes if and only if no position of a
/// non-empty file carries an end-of-central-directory record whose
/// comment reaches the end, and a count-mismatch error always carries the
/// declared record count beside a count that really differs from it in
/// the low 16 bits.
#[verifier::loop_isolation(false)]
pub fn parse_archive(data: &Vec<u8>) -> (r: Result<Archive, Error>)
    ensures
        r matches Ok(a) ==> {
            &&& a.wf()
            &&& a.size == data@.len()
            &&& eocd_terminal_at(data@, a.eocd.dir.offset as int)
            &&& crate::records::eocd_fields(data@, a.eocd.dir.offset as int, a.eocd.dir.inner)
            &&& forall|j: int| a.eocd.dir.offset < j ==> !eocd_terminal_at(data@, j)
        },
        r == Err::<Archive, Error>(Error::Format(FormatError::DirectoryEndSignatureNotFound))
            ==> forall|j: int| 0 <= j ==> !eocd_terminal_at(data@, j),
        (data@.len() > 0 && (forall|j: int| 0 <= j ==> !eocd_terminal_at(data@, j))) ==> r
            == Err::<Archive, Error>(Error::Format(FormatError::DirectoryEndSignatureNotFound)),
        r matches Err(Error::Format(FormatError::InvalidCentralRecord { expected, actual }))
            ==> expected != actual,
{
    let size = data.len() as u64;
    let mut fsm = ArchiveFsm::new(size);
    loop
        invariant
            fsm.wf(),
            fsm.size == size,
            size == data@.len(),
            fsm.state matches crate::archive::ArchiveState::ReadEocd { .. } ==> fsm.buffer.data()
                == data@.subrange(0, fsm.buffer.read_bytes as int),
            (size > 0 && (forall|j: int| 0 <= j ==> !eocd_terminal_at(data@, j))) ==> (
            fsm.state matches crate::archive::ArchiveState::ReadEocd { .. }
                && fsm.buffer.read_bytes < size),
            fsm.carried_eocdr() matches Some(loc) ==> {
                &&& eocd_terminal_at(data@, loc.offset as int)
                &&& crate::records::eocd_fields(data@, loc.offset as int, loc.inner)
                &&& forall|j: int| loc.offset < j ==> !eocd_terminal_at(data@, j)
            },
        decreases fsm.state_rank(), fsm.remaining(),
    {
        let offset = match fsm.wants_read() {
            Some(o) => o,
            // the archive machine always has an offset to read from
            None => vstd::pervasive::unreached(),
        };
        let n: usize = if offset < size {
            let src = vstd::slice::slice_subrange(data.as_slice(), offset as usize, data.len());
            let ghost pre = fsm.buffer.read_bytes as int;
            let filled = fsm.fill(src);
            proof {
                if fsm.state matches crate::archive::ArchiveState::ReadEocd { .. } {
                    assert(src@.subrange(0, filled as int) =~= data@.subrange(
                        pre,
                        pre + filled,
                    ));
                    assert(fsm.buffer.data() =~= data@.subrange(
                        0,
                        fsm.buffer.read_bytes as int,
                    ));
                }
            }
            filled
        } else {
            0
        };
        if n == 0 {
            // the machine wants bytes the file does not have
            return Err(Error::Io(IoError::UnexpectedEof));
        }
        proof {
            if fsm.state matches crate::archive::ArchiveState::ReadEocd { .. }
                && fsm.buffer.read_bytes == size {
                assert(fsm.buffer.data() =~= data@);
            }
        }
        match fsm.process() {
            Ok(FsmResult::Done(a)) => {
                return Ok(a);
            },
            Ok(FsmResult::Continue(f)) => {
                fsm = f;
            },
            Err(e) => {
                return Err(e);
            },
        }
    }
}

/// Everything reading one entry yields: the decompressed payload, the
/// parsed local header, the AE-x side data for encrypted entries, and the
/// range journal that was lent in.
pub struct EntryOutput {
    /// The decompressed payload.
    pub bytes: Vec<u8>,
    /// The entry's local file header.
    pub local_header: Option<LocalFileHeaderRecord>,
    /// Salt, verifier and authentication code of an AE-x entry.
    pub aex_data: Option<AexData>,
    /// The journal, with this entry's regions appended.
    pub parsed_ranges: Option<ParsedRanges>,
}

/// Reads and decompresses one entry of an archive held in memory,
/// starting at the entry's header offset.
///
/// On success and for an unencrypted entry, the payload is exactly the
/// entry's declared decompressed size and, when a checksum was declared in
/// the central directory, hashes to it.  For a stored entry, the payload
/// is the very bytes standing after the local header: storing is the
/// identity, so what went into the archive comes back out.
#[verifier::loop_isolation(false)]
#[verifier::rlimit(100)]
pub fn read_entry(data: &Vec<u8>, entry: Entry, parsed_ranges: Option<ParsedRanges>) -> (r:
    Result<EntryOutput, Error>)
    ensures
        match r {
            Ok(o) => {
                &&& (entry.aex is None ==> o.bytes@.len() == entry.uncompressed_size)
                &&& (entry.aex is None && entry.crc32 != 0 ==> crc32_of(o.bytes@)
                    == entry.crc32)
                &&& o.local_header is Some
                &&& (o.aex_data matches Some(ad) ==> {
                    &&& ad.password_verification_value@.len() == 2
                    &&& ad.authentication_code@.len() == 10
                    &&& entry.aex matches Some(x) && Some(ad.salt_value@.len() as int)
                        == spec_salt_size(x.mode)
                })
                &&& (o.local_header matches Some(h) ==> ((Method::spec_from_u16(h.method)
                    == Method::Store && entry.header_offset < data@.len()) ==> {
                    let ps = entry.header_offset + lfh_record_len(
                        data@.skip(entry.header_offset as int),
                        0,
                    );
                    &&& o.bytes@.len() == entry.compressed_size
                    &&& (ps + entry.compressed_size <= data@.len() ==> o.bytes@
                        == data@.subrange(ps, ps + entry.compressed_size))
                }))
            },
            Err(e) => {
                &&& (e matches Error::Format(FormatError::WrongSize { expected, actual }) ==> {
                    &&& entry.aex is None
                    &&& expected == entry.uncompressed_size
                    &&& expected != actual
                })
                &&& (e matches Error::Unsupported(u) ==> true)
            },
        },
        // a recognized entry standing past the end of the data makes no
        // progress, and one whose offset holds bytes that can never become
        // a local header fails as an invalid local header
        (crate::entry_fsm::spec_method_recognized(entry.method) && entry.header_offset
            >= data@.len()) ==> (r matches Err(e2) && e2 == Error::Io(IoError::NoProgress)),
        (crate::entry_fsm::spec_method_recognized(entry.method) && entry.header_offset
            < data@.len() && crate::records::prefix_conflict(
            data@.skip(entry.header_offset as int),
            0,
            crate::records::lfh_sig(),
        )) ==> (r matches Err(e3) && e3 == Error::Format(FormatError::InvalidLocalHeader)),
{
    let ghost entry0 = entry;
    let header_offset = entry.header_offset;
    let mut fsm = match EntryFsm::new(Some(entry), None, parsed_ranges) {
        Ok(f) => f,
        Err(e) => {
            return Err(e);
        },
    };
    let start: usize = if header_offset >= data.len() as u64 {
        data.len()
    } else {
        header_offset as usize
    };
    let ghost start0 = start;
    let mut cursor: usize = start;
    let mut collected: Vec<u8> = Vec::new();
    let mut chunk: Vec<u8> = vec![0u8; 65536];
    let ghost mut payload_start: int = 0;
    loop
        invariant
            fsm.wf(),
            fsm.entry matches Some(e) && e == entry0,
            collected@ == fsm.emitted_seq(),
            start0 <= cursor <= data@.len(),
            fsm.buffer.read_bytes == cursor - start0,
            chunk@.len() == 65536,
            fsm.buffer.data().len() <= fsm.buffer.read_bytes,
            fsm.buffer.data() == data@.subrange(
                cursor - fsm.buffer.data().len(),
                cursor as int,
            ),
            fsm.state_rank() <= 2 ==> {
                &&& start0 <= payload_start
                &&& payload_start + fsm.fed_seq().len() <= data@.len()
                &&& fsm.fed_seq() == data@.subrange(
                    payload_start,
                    payload_start + fsm.fed_seq().len(),
                )
                &&& payload_start == start0 + lfh_record_len(data@.skip(start0 as int), 0)
            },
            fsm.state is ReadData ==> payload_start + fsm.fed_seq().len() == cursor
                - fsm.buffer.data().len(),
            fsm.state is ReadLocalHeader ==> fsm.buffer.data().len()
                == fsm.buffer.read_bytes,
            (crate::entry_fsm::spec_method_recognized(entry0.method) && entry0.header_offset
                >= data@.len()) ==> (fsm.state is ReadLocalHeader && fsm.buffer.data().len() == 0
                && cursor == data@.len()),
            (crate::entry_fsm::spec_method_recognized(entry0.method) && entry0.header_offset
                < data@.len() && crate::records::prefix_conflict(
                data@.skip(entry0.header_offset as int),
                0,
                crate::records::lfh_sig(),
            )) ==> (fsm.state is ReadLocalHeader && cursor == start0 && fsm.buffer.position
                == 0),
            fsm.buffer.cap() == crate::entry_fsm::ENTRY_BUF_CAPACITY,
        decreases
                fsm.state_rank(),
                (data@.len() - cursor) + fsm.buffer.data().len(),
                data@.len() - cursor,
    {
        let mut filled: usize = 0;
        if fsm.wants_read() {
            let src = vstd::slice::slice_subrange(data.as_slice(), cursor, data.len());
            let ghost pre_cursor = cursor as int;
            let ghost pre_buf = fsm.buffer.data();
            filled = fsm.fill(src);
            cursor = cursor + filled;
            proof {
                if crate::entry_fsm::spec_method_recognized(entry0.method)
                    && entry0.header_offset < data@.len() && crate::records::prefix_conflict(
                    data@.skip(entry0.header_offset as int),
                    0,
                    crate::records::lfh_sig(),
                ) {
                    // the sign that these bytes are no local header sits in
                    // the first four, which this fill just buffered
                    let tail = data@.skip(start0 as int);
                    let j = choose|j: int|
                        0 <= j < crate::records::lfh_sig().len() && j < tail.len()
                            && #[trigger] tail[j] != crate::records::lfh_sig()[j];
                    assert(filled >= vstd::math::min(4, tail.len() as int));
                    assert(0 + j < fsm.buffer.data().len() && fsm.buffer.data()[0 + j]
                        != crate::records::lfh_sig()[j]);
                    assert(crate::records::prefix_conflict(
                        fsm.buffer.data(),
                        0,
                        crate::records::lfh_sig(),
                    ));
                }
                assert(src@.subrange(0, filled as int) =~= data@.subrange(
                    pre_cursor,
                    pre_cursor + filled,
                ));
                assert(fsm.buffer.data() == pre_buf + data@.subrange(
                    pre_cursor,
                    pre_cursor + filled,
                ));
                assert(fsm.buffer.data() =~= data@.subrange(
                    cursor - fsm.buffer.data().len(),
                    cursor as int,
                ));
            }
        }
        let ghost pre_fsm = fsm;
        match fsm.process(chunk.as_mut_slice()) {
            Ok(FsmResult::Continue((f, o))) => {
                proof {
                    let prebuf = pre_fsm.buffer.data();
                    let consumed = prebuf.len() - f.buffer.data().len();
                    assert(f.buffer.data() == prebuf.skip(consumed as int));
                    assert(prebuf == data@.subrange(cursor - prebuf.len(), cursor as int));
                    assert(f.buffer.data() =~= data@.subrange(
                        cursor - f.buffer.data().len(),
                        cursor as int,
                    ));
                    if pre_fsm.state_rank() == 3 && f.state_rank() <= 2 {
                        // the header just completed: the payload starts
                        // right after it
                        let hlen = lfh_record_len(prebuf, 0);
                        payload_start = (cursor - prebuf.len()) + hlen;
                        let tail = data@.skip(start0 as int);
                        assert(cursor - prebuf.len() == start0);
                        assert(forall|k: int|
                            0 <= k < prebuf.len() ==> prebuf[k] == #[trigger] tail[k]);
                        assert(le16(prebuf, 8) == le16(tail, 8));
                        assert(le16(prebuf, 26) == le16(tail, 26));
                        assert(le16(prebuf, 28) == le16(tail, 28));
                        assert(lfh_record_len(tail, 0) == hlen);
                        assert(f.fed_seq() =~= data@.subrange(
                            payload_start,
                            payload_start + f.fed_seq().len(),
                        ));
                    } else if pre_fsm.state is ReadData {
                        assert(f.fed_seq() =~= data@.subrange(
                            payload_start,
                            payload_start + f.fed_seq().len(),
                        ));
                    }
                }
                let written = vstd::slice::slice_subrange(chunk.as_slice(), 0, o.bytes_written);
                collected.extend_from_slice(written);
                if o.bytes_written == 0 && o.bytes_read == 0 && filled == 0 {
                    // neither input nor output moved: the entry runs past
                    // the end of the data
                    return Err(Error::Io(IoError::NoProgress));
                }
                fsm = f;
            },
            Ok(FsmResult::Done(d)) => {
                proof {
                    if pre_fsm.state_rank() <= 2 {
                        assert(collected@ =~= data@.subrange(
                            payload_start,
                            payload_start + pre_fsm.fed_seq().len(),
                        ) || !(d.local_header matches Some(h)
                            && Method::spec_from_u16(h.method) == Method::Store));
                    }
                }
                return Ok(
                    EntryOutput {
                        bytes: collected,
                        local_header: d.local_header,
                        aex_data: d.aex_data,
                        parsed_ranges: d.parsed_ranges,
                    },
                );
            },
            Err(e) => {
                return Err(e);
            },
        }
    }
}

} // verus!
