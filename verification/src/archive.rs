//! The archive-level state machine and its product.
//!
//! From a known total file size, the machine locates the
//! end-of-central-directory record by a backward scan, follows the zip64
//! locator when there is room for one, walks the whole central directory,
//! detects the name encoding, and yields an [`Archive`].

use vstd::prelude::*;
use crate::buffer::Buffer;
use crate::encoding::{
    detector_feed,
    detector_guess,
    detector_new,
    encoding_decision,
    scan_suspicious,
    suspicious_in,
    Encoding,
};
use crate::entry::{spec_central_entry, Entry};
use crate::eocd::{EndOfCentralDirectory, Located};
use crate::error::{Error, FormatError};
use crate::fsm::FsmResult;
use crate::ranges::{ParsedRanges, RangeKind};
use crate::le::le64;
use crate::records::{
    cdh_record_len,
    cdh_run_len,
    cdh_sig,
    eocd64_at,
    eocd64_fields,
    eocd64_locator_at,
    eocd64_locator_sig,
    eocd64_sig,
    eocd_fields,
    eocd_terminal_at,
    find_eocd,
    parse_central_directory_header,
    parse_eocd64,
    parse_eocd64_locator,
    prefix_conflict,
    sig_at,
    CentralDirectoryFileHeaderRecord,
    EndOfCentralDirectory64Record,
    EndOfCentralDirectoryRecord,
    Parsed,
    EOCD64_LOCATOR_LENGTH,
};

verus! {

/// A fully parsed archive: the central directory view.
#[derive(Clone, Debug)]
pub struct Archive {
    /// Total size of the file in bytes.
    pub size: u64,
    /// The combined end-of-central-directory view.
    pub eocd: EndOfCentralDirectory,
    /// The raw central directory records, in file order.
    pub directory_headers: Vec<CentralDirectoryFileHeaderRecord>,
    /// The normalized entries, aligned with `directory_headers` by index.
    pub entries: Vec<Entry>,
    /// The decoded archive comment.
    pub comment: String,
    /// The encoding the names were decoded with.
    pub encoding: Encoding,
    /// The journal of recognized byte regions.
    pub parsed_ranges: ParsedRanges,
}

impl Archive {
    /// What every successfully parsed archive satisfies: the journal only
    /// holds regions inside the file, entries and raw records align
    /// one-to-one, their count matches the declared record count in the
    /// low 16 bits, and each entry is its record normalized.
    pub open spec fn wf(self) -> bool {
        &&& self.parsed_ranges.bounded_by(self.size as int)
        &&& self.entries@.len() == self.directory_headers@.len()
        &&& self.entries@.len() as int % 0x10000 == self.eocd.spec_directory_records() as int
            % 0x10000
        &&& forall|i: int|
            0 <= i < self.entries@.len() ==> spec_central_entry(
                #[trigger] self.directory_headers@[i],
                self.encoding,
                self.eocd.global_offset,
                self.entries@[i],
            )
        &&& crate::encoding::spec_decode(self.encoding, self.eocd.dir.inner.comment@) matches Ok(
        cs,
        ) && self.comment@ == cs
        &&& self.eocd.directory_offset < self.size
    }
}

/// Whether every central directory record flags its name as UTF-8.
pub open spec fn spec_all_utf8(headers: Seq<CentralDirectoryFileHeaderRecord>) -> bool {
    forall|i: int| 0 <= i < headers.len() ==> (#[trigger] headers[i].flags) & 0x800 != 0
}

/// Cap on how many name and comment bytes are fed to the detector.
pub const DETECTOR_FEED_CAP: usize = 4096;

/// The bytes fed to the character detector: the names and comments of the
/// non-UTF-8 records from `i` on, starting with `total` bytes already fed,
/// stopping once the cap is reached.
pub open spec fn spec_fed(
    headers: Seq<CentralDirectoryFileHeaderRecord>,
    i: int,
    total: int,
) -> Seq<u8>
    decreases headers.len() - i,
{
    if i < 0 || i >= headers.len() {
        Seq::<u8>::empty()
    } else if headers[i].flags & 0x800 != 0 {
        spec_fed(headers, i + 1, total)
    } else {
        let name = headers[i].name@;
        let t1 = total + name.len();
        if t1 >= DETECTOR_FEED_CAP {
            name
        } else {
            let comment = headers[i].comment@;
            let t2 = t1 + comment.len();
            if t2 >= DETECTOR_FEED_CAP {
                name + comment
            } else {
                name + comment + spec_fed(headers, i + 1, t2)
            }
        }
    }
}

/// Picks the encoding of the archive's names: UTF-8 when every record
/// flags it, otherwise by character detection over the first of the
/// non-UTF-8 name and comment bytes, with the Shift-JIS guess demoted to
/// CP 437 unless a box-drawing-range byte was actually seen.
fn detect_encoding(headers: &Vec<CentralDirectoryFileHeaderRecord>) -> (r: Encoding)
    ensures
        spec_all_utf8(headers@) ==> r == Encoding::Utf8,
        !spec_all_utf8(headers@) && !suspicious_in(spec_fed(headers@, 0, 0)) ==> r
            != Encoding::ShiftJis,
{
    let ghost whole_fed = spec_fed(headers@, 0, 0);
    let mut detector = detector_new();
    let mut all_utf8 = true;
    let mut suspicious = false;
    let mut total: usize = 0;
    let mut stopped = false;
    let ghost mut fed_so_far = Seq::<u8>::empty();
    let n = headers.len();
    let mut i: usize = 0;
    while i < n && !stopped
        invariant
            n == headers@.len(),
            i <= n,
            !stopped ==> total == fed_so_far.len() && total < DETECTOR_FEED_CAP,
            suspicious == suspicious_in(fed_so_far),
            all_utf8 == (forall|j: int|
                0 <= j < i ==> (#[trigger] headers@[j].flags) & 0x800 != 0),
            !stopped ==> whole_fed == fed_so_far + spec_fed(headers@, i as int, total as int),
            stopped ==> whole_fed == fed_so_far && !all_utf8,
            whole_fed == spec_fed(headers@, 0, 0),
        decreases n - i,
    {
        let h = &headers[i];
        if h.flags & 0x800 == 0 {
            all_utf8 = false;
            detector_feed(&mut detector, h.name.as_slice());
            let s1 = scan_suspicious(h.name.as_slice());
            proof {
                crate::encoding::lemma_suspicious_concat(fed_so_far, h.name@);
            }
            suspicious = suspicious || s1;
            proof {
                fed_so_far = fed_so_far + h.name@;
            }
            if h.name.len() >= DETECTOR_FEED_CAP - total {
                stopped = true;
                proof {
                    assert(whole_fed =~= fed_so_far);
                }
            } else {
                total = total + h.name.len();
                detector_feed(&mut detector, h.comment.as_slice());
                let s2 = scan_suspicious(h.comment.as_slice());
                proof {
                    crate::encoding::lemma_suspicious_concat(fed_so_far, h.comment@);
                }
                suspicious = suspicious || s2;
                proof {
                    fed_so_far = fed_so_far + h.comment@;
                }
                if h.comment.len() >= DETECTOR_FEED_CAP - total {
                    stopped = true;
                    proof {
                        assert(whole_fed =~= fed_so_far);
                    }
                } else {
                    total = total + h.comment.len();
                }
            }
        }
        i += 1;
    }
    if all_utf8 {
        Encoding::Utf8
    } else {
        let guess = detector_guess(&detector);
        proof {
            if !stopped {
                assert(spec_fed(headers@, i as int, total as int) =~= Seq::<u8>::empty());
                assert(whole_fed =~= fed_so_far);
            }
        }
        encoding_decision(false, guess, suspicious)
    }
}

/// Where the archive machine stands.
pub enum ArchiveState {
    /// Scanning the tail of the file for the end-of-central-directory
    /// record.
    ReadEocd {
        /// How many tail bytes are scanned; this engine scans the whole
        /// file.
        haystack_size: u64,
    },
    /// Probing for a zip64 locator right before the end record.
    ReadEocd64Locator {
        /// The end record, as found.
        eocdr: Located<EndOfCentralDirectoryRecord>,
    },
    /// Reading the zip64 end-of-central-directory record.
    ReadEocd64 {
        /// Where the locator said the zip64 record stands.
        eocdr64_offset: u64,
        /// The end record, as found.
        eocdr: Located<EndOfCentralDirectoryRecord>,
    },
    /// Walking the central directory records.
    ReadCentralDirectory {
        /// The combined end-of-central-directory view.
        eocd: EndOfCentralDirectory,
        /// The records read so far.
        directory_headers: Vec<CentralDirectoryFileHeaderRecord>,
        /// File offset of the next record.
        current_header_offset: u64,
    },
}

/// A state machine that parses a ZIP archive's central directory.
///
/// The machine performs no I/O: [`ArchiveFsm::wants_read`] says which file
/// offset the driver should read from, the driver copies bytes in with
/// [`ArchiveFsm::fill`], and [`ArchiveFsm::process`] works on them until
/// it yields [`FsmResult::Done`] with the [`Archive`].
pub struct ArchiveFsm {
    /// Total size of the file.
    pub size: u64,
    /// Where the machine stands.
    pub state: ArchiveState,
    /// The machine's input reservoir.
    pub buffer: Buffer,
    /// The journal of recognized byte regions.
    pub parsed_ranges: ParsedRanges,
}

impl ArchiveFsm {
    /// How far along the machine is; strictly falls at every state change.
    pub open spec fn state_rank(self) -> int {
        match self.state {
            ArchiveState::ReadEocd { .. } => 3,
            ArchiveState::ReadEocd64Locator { .. } => 2,
            ArchiveState::ReadEocd64 { .. } => 1,
            ArchiveState::ReadCentralDirectory { .. } => 0,
        }
    }

    /// The file offset the current state starts reading from.
    pub open spec fn read_base(self) -> int {
        match self.state {
            ArchiveState::ReadEocd { haystack_size } => self.size - haystack_size,
            ArchiveState::ReadEocd64Locator { eocdr } => eocdr.offset - EOCD64_LOCATOR_LENGTH,
            ArchiveState::ReadEocd64 { eocdr64_offset, .. } => eocdr64_offset as int,
            ArchiveState::ReadCentralDirectory { eocd, .. } => eocd.directory_offset as int,
        }
    }

    /// How many file bytes are left to feed the current state.
    pub open spec fn remaining(self) -> int {
        if self.read_base() + self.buffer.read_bytes <= self.size {
            self.size - self.read_base() - self.buffer.read_bytes
        } else {
            0
        }
    }

    /// The machine's invariant.
    pub open spec fn wf(self) -> bool {
        &&& self.buffer.wf()
        &&& self.buffer.cap() == self.size
        &&& self.size <= usize::MAX
        &&& self.parsed_ranges.bounded_by(self.size as int)
        &&& match self.state {
            ArchiveState::ReadEocd { haystack_size } => {
                &&& haystack_size == self.size
                &&& self.buffer.position == 0
                &&& self.buffer.read_bytes == self.buffer.data().len()
                &&& self.buffer.read_bytes <= haystack_size
            },
            ArchiveState::ReadEocd64Locator { eocdr } => {
                &&& EOCD64_LOCATOR_LENGTH <= eocdr.offset <= self.size
                &&& self.buffer.position == 0
                &&& self.buffer.read_bytes == self.buffer.data().len()
                &&& self.buffer.read_bytes + eocdr.offset - EOCD64_LOCATOR_LENGTH <= self.size
            },
            ArchiveState::ReadEocd64 { eocdr64_offset, eocdr } => {
                &&& EOCD64_LOCATOR_LENGTH <= eocdr.offset <= self.size
                &&& self.buffer.position == 0
                &&& self.buffer.read_bytes == self.buffer.data().len()
                &&& (eocdr64_offset <= self.size ==> self.buffer.read_bytes + eocdr64_offset
                    <= self.size)
                &&& (eocdr64_offset > self.size ==> self.buffer.read_bytes == 0)
            },
            ArchiveState::ReadCentralDirectory { eocd, current_header_offset, .. } => {
                &&& eocd.directory_offset < self.size
                &&& eocd.directory_offset <= current_header_offset
                &&& current_header_offset + self.buffer.data().len() == eocd.directory_offset
                    + self.buffer.read_bytes
                &&& self.buffer.read_bytes + eocd.directory_offset <= self.size
            },
        }
    }

    /// Creates a machine for a file of the given total size.  The machine
    /// buffers the whole haystack it scans, so the size must fit in
    /// memory-index range.
    pub fn new(size: u64) -> (r: ArchiveFsm)
        requires
            size <= usize::MAX,
        ensures
            r.wf(),
            r.size == size,
            r.state matches ArchiveState::ReadEocd { haystack_size } && haystack_size == size,
            r.parsed_ranges@ == Seq::<crate::ranges::ParsedRange>::empty(),
            r.buffer.data() == Seq::<u8>::empty(),
            r.buffer.read_bytes == 0,
    {
        ArchiveFsm {
            size,
            state: ArchiveState::ReadEocd { haystack_size: size },
            buffer: Buffer::with_capacity(size as usize),
            parsed_ranges: ParsedRanges::new(),
        }
    }

    /// The file offset the driver should read from next.
    pub fn wants_read(&self) -> (r: Option<u64>)
        requires
            self.wf(),
        ensures
            r matches Some(o) && o == self.read_base() + self.buffer.read_bytes,
    {
        match &self.state {
            ArchiveState::ReadEocd { haystack_size } => {
                Some(self.buffer.read_offset(self.size - haystack_size))
            },
            ArchiveState::ReadEocd64Locator { eocdr } => {
                Some(self.buffer.read_offset(eocdr.offset - EOCD64_LOCATOR_LENGTH as u64))
            },
            ArchiveState::ReadEocd64 { eocdr64_offset, .. } => {
                Some(self.buffer.read_offset(*eocdr64_offset))
            },
            ArchiveState::ReadCentralDirectory { eocd, .. } => {
                Some(self.buffer.read_offset(eocd.directory_offset))
            },
        }
    }

    /// Copies driver bytes into the machine's buffer and returns how many
    /// were taken: as many as fit, shifting the unread window down first
    /// when the buffer is full, as the original I/O loop did through its
    /// space accessor.  The precondition only excludes bytes the file does
    /// not have: a driver that reads the file at [`ArchiveFsm::wants_read`]
    /// gets at most `size - offset` bytes back and meets it by
    /// construction.
    pub fn fill(&mut self, src: &[u8]) -> (n: usize)
        requires
            old(self).wf(),
            old(self).read_base() + old(self).buffer.read_bytes + src@.len() <= old(self).size,
        ensures
            final(self).wf(),
            final(self).size == old(self).size,
            final(self).state == old(self).state,
            final(self).parsed_ranges == old(self).parsed_ranges,
            n == vstd::math::min(
                src@.len() as int,
                if old(self).buffer.space_len() == 0 {
                    old(self).buffer.cap() - old(self).buffer.data().len()
                } else {
                    old(self).buffer.space_len()
                },
            ),
            final(self).remaining() == old(self).remaining() - n,
            final(self).buffer.data() == old(self).buffer.data() + src@.subrange(0, n as int),
            final(self).buffer.read_bytes == old(self).buffer.read_bytes + n,
    {
        if self.buffer.available_space() == 0 {
            self.buffer.shift();
        }
        self.buffer.fill(src, src.len())
    }

    /// The end record the machine has settled on, as its current state
    /// carries it; the scan state has none yet.
    pub open spec fn carried_eocdr(self) -> Option<Located<EndOfCentralDirectoryRecord>> {
        match self.state {
            ArchiveState::ReadEocd { .. } => None,
            ArchiveState::ReadEocd64Locator { eocdr } => Some(eocdr),
            ArchiveState::ReadEocd64 { eocdr, .. } => Some(eocdr),
            ArchiveState::ReadCentralDirectory { eocd, .. } => Some(eocd.dir),
        }
    }

    /// The end record the haystack scan settled on, as the next state
    /// carries it: the record parsed at `off`, with room for a locator
    /// deciding which state comes next.
    pub open spec fn spec_scan_result(h: Seq<u8>, off: int, st: ArchiveState) -> bool {
        match st {
            ArchiveState::ReadEocd64Locator { eocdr } => {
                &&& eocdr.offset == off
                &&& eocd_fields(h, off, eocdr.inner)
                &&& off >= EOCD64_LOCATOR_LENGTH
            },
            ArchiveState::ReadCentralDirectory {
                eocd,
                directory_headers,
                current_header_offset,
            } => {
                &&& eocd.dir.offset == off
                &&& eocd_fields(h, off, eocd.dir.inner)
                &&& eocd.dir64 is None
                &&& off < EOCD64_LOCATOR_LENGTH
                &&& directory_headers@.len() == 0
                &&& current_header_offset == eocd.directory_offset
            },
            _ => false,
        }
    }

    /// Works on the buffered bytes.
    ///
    /// While the machine continues it makes real progress: a state whose
    /// bytes are all buffered must be left, a stalled state is returned
    /// untouched with the reason visible in its window, and the directory
    /// walk consumes every completely-parsed header.  Every transition
    /// carries the very records parsed out of the window it consumed.
    /// When it is done, the archive satisfies [`Archive::wf`] and extends
    /// the records the machine had already gathered.
    #[verifier::loop_isolation(false)]
    #[verifier::rlimit(100)]
    pub fn process(self) -> (r: Result<FsmResult<ArchiveFsm, Archive>, Error>)
        requires
            self.wf(),
        ensures
            match r {
                Ok(FsmResult::Continue(f)) => {
                    &&& f.wf()
                    &&& f.size == self.size
                    &&& f.state_rank() <= self.state_rank()
                    &&& (f.state_rank() == self.state_rank() ==> f.remaining()
                        == self.remaining())
                    &&& (self.state matches ArchiveState::ReadEocd { haystack_size } ==> (
                    if self.buffer.read_bytes < haystack_size {
                        f == self
                    } else {
                        !(f.state is ReadEocd)
                    }))
                    &&& ((self.state is ReadEocd && !(f.state is ReadEocd)) ==> (exists|off: int|
                        {
                            &&& #[trigger] eocd_terminal_at(self.buffer.data(), off)
                            &&& ArchiveFsm::spec_scan_result(self.buffer.data(), off, f.state)
                            &&& forall|j: int|
                                off < j ==> !eocd_terminal_at(self.buffer.data(), j)
                        }))
                    &&& ((self.state is ReadEocd && !(f.state is ReadEocd)) ==> {
                        &&& f.parsed_ranges@.len() == self.parsed_ranges@.len() + 1
                        &&& f.parsed_ranges@.subrange(0, self.parsed_ranges@.len() as int)
                            == self.parsed_ranges@
                        &&& f.parsed_ranges@.last().contains
                            == RangeKind::EndOfCentralDirectoryRecord
                        &&& f.parsed_ranges@.last().end == self.size
                    })
                    &&& ((self.state is ReadEocd64Locator && f.state is ReadEocd64) ==> {
                        &&& f.parsed_ranges@.len() == self.parsed_ranges@.len() + 1
                        &&& f.parsed_ranges@.subrange(0, self.parsed_ranges@.len() as int)
                            == self.parsed_ranges@
                        &&& f.parsed_ranges@.last().contains
                            == RangeKind::Zip64EndOfCentralDirectoryLocator
                    })
                    &&& ((self.state is ReadEocd64Locator && f.state is ReadCentralDirectory)
                        ==> f.parsed_ranges == self.parsed_ranges)
                    &&& ((self.state is ReadEocd64 && f.state is ReadCentralDirectory) ==> {
                        &&& f.parsed_ranges@.len() == self.parsed_ranges@.len() + 1
                        &&& f.parsed_ranges@.subrange(0, self.parsed_ranges@.len() as int)
                            == self.parsed_ranges@
                        &&& f.parsed_ranges@.last().contains
                            == RangeKind::Zip64EndOfCentralDirectoryRecord
                    })
                    &&& (self.state matches ArchiveState::ReadEocd64Locator { eocdr } ==> {
                        &&& (f.state is ReadEocd64Locator ==> f == self
                            && self.buffer.data().len() < EOCD64_LOCATOR_LENGTH
                            && !prefix_conflict(self.buffer.data(), 0, eocd64_locator_sig()))
                        &&& (f.state matches ArchiveState::ReadEocd64 {
                            eocdr64_offset,
                            eocdr: e2,
                        } ==> {
                            &&& e2 == eocdr
                            &&& eocd64_locator_at(self.buffer.data(), 0)
                            &&& eocdr64_offset == le64(self.buffer.data(), 8)
                        })
                        &&& (f.state matches ArchiveState::ReadCentralDirectory {
                            eocd,
                            directory_headers,
                            current_header_offset,
                        } ==> {
                            &&& prefix_conflict(self.buffer.data(), 0, eocd64_locator_sig())
                            &&& eocd.dir == eocdr
                            &&& eocd.dir64 is None
                            &&& directory_headers@.len() == 0
                            &&& current_header_offset == eocd.directory_offset
                        })
                    })
                    &&& (self.state matches ArchiveState::ReadEocd64 { eocdr64_offset, eocdr }
                        ==> {
                        &&& (f.state is ReadEocd64 ==> f == self && !prefix_conflict(
                            self.buffer.data(),
                            0,
                            eocd64_sig(),
                        ) && (self.buffer.data().len() < 12 || (le64(self.buffer.data(), 4) >= 44
                            && 12 + le64(self.buffer.data(), 4) > self.buffer.data().len())))
                        &&& (f.state matches ArchiveState::ReadCentralDirectory {
                            eocd,
                            directory_headers,
                            current_header_offset,
                        } ==> {
                            &&& eocd.dir == eocdr
                            &&& eocd.dir64 matches Some(l) && l.offset == eocdr64_offset
                                && eocd64_at(self.buffer.data(), 0) && eocd64_fields(
                                self.buffer.data(),
                                0,
                                l.inner,
                            )
                            &&& directory_headers@.len() == 0
                            &&& current_header_offset == eocd.directory_offset
                        })
                    })
                    &&& (self.state matches ArchiveState::ReadCentralDirectory {
                        eocd,
                        directory_headers,
                        current_header_offset,
                    } ==> (f.state matches ArchiveState::ReadCentralDirectory {
                        eocd: e2,
                        directory_headers: h2,
                        current_header_offset: c2,
                    } && {
                        let consumed = self.buffer.data().len() - f.buffer.data().len();
                        &&& e2 == eocd
                        &&& h2@.len() == directory_headers@.len() + cdh_run_len(
                            self.buffer.data(),
                            0,
                        )
                        &&& h2@.subrange(0, directory_headers@.len() as int)
                            == directory_headers@
                        &&& f.buffer.data() == self.buffer.data().skip(consumed as int)
                        &&& c2 == current_header_offset + consumed
                        &&& !prefix_conflict(self.buffer.data(), consumed as int, cdh_sig())
                        &&& consumed + cdh_record_len(self.buffer.data(), consumed as int)
                            > self.buffer.data().len()
                    }))
                },
                Ok(FsmResult::Done(a)) => {
                    &&& a.wf()
                    &&& a.size == self.size
                    &&& self.state is ReadCentralDirectory
                    &&& (self.state matches ArchiveState::ReadCentralDirectory {
                        eocd,
                        directory_headers,
                        ..
                    } ==> {
                        &&& a.eocd == eocd
                        &&& a.directory_headers@.len() == directory_headers@.len() + cdh_run_len(
                            self.buffer.data(),
                            0,
                        )
                        &&& a.directory_headers@.subrange(0, directory_headers@.len() as int)
                            == directory_headers@
                        &&& a.parsed_ranges@.len() == self.parsed_ranges@.len() + cdh_run_len(
                            self.buffer.data(),
                            0,
                        )
                        &&& a.parsed_ranges@.subrange(0, self.parsed_ranges@.len() as int)
                            == self.parsed_ranges@
                        &&& forall|k: int|
                            self.parsed_ranges@.len() <= k < a.parsed_ranges@.len() ==> (
                            #[trigger] a.parsed_ranges@[k]).contains
                                == RangeKind::CentralDirectoryHeader
                    })
                    &&& (spec_all_utf8(a.directory_headers@) ==> a.encoding == Encoding::Utf8)
                    &&& ((!spec_all_utf8(a.directory_headers@) && !suspicious_in(
                        spec_fed(a.directory_headers@, 0, 0),
                    )) ==> a.encoding != Encoding::ShiftJis)
                },
                Err(e) => {
                    &&& (e == Error::Format(FormatError::DirectoryEndSignatureNotFound) ==> {
                        &&& self.state matches ArchiveState::ReadEocd { .. }
                        &&& forall|j: int| 0 <= j ==> !eocd_terminal_at(self.buffer.data(), j)
                    })
                    &&& (e matches Error::Format(FormatError::InvalidCentralRecord {
                        expected,
                        actual,
                    }) ==> (expected != actual && (self.state matches
                    ArchiveState::ReadCentralDirectory { eocd, directory_headers, .. } ==> (
                    actual as int == eocd.spec_directory_records() as int % 0x10000
                        && expected as int == (directory_headers@.len() + cdh_run_len(
                        self.buffer.data(),
                        0,
                    )) % 0x10000))))
                    &&& (e == Error::Format(FormatError::Directory64EndRecordInvalid) ==> {
                        &&& self.state is ReadEocd64
                        &&& (prefix_conflict(self.buffer.data(), 0, eocd64_sig()) || (sig_at(
                            self.buffer.data(),
                            0,
                            eocd64_sig(),
                        ) && 12 <= self.buffer.data().len() && le64(self.buffer.data(), 4)
                            < 44))
                    })
                    &&& (self.state is ReadEocd ==> (e == Error::Format(
                        FormatError::DirectoryEndSignatureNotFound,
                    ) || exists|off: int|
                        0 <= off && #[trigger] eocd_terminal_at(self.buffer.data(), off)))
                    &&& (self.state matches ArchiveState::ReadEocd { haystack_size }
                        ==> self.buffer.read_bytes >= haystack_size)
                    &&& (e == Error::Format(FormatError::DirectoryOffsetPointsOutsideFile)
                        ==> {
                        &&& !(self.state is ReadCentralDirectory)
                        &&& (self.state matches ArchiveState::ReadEocd64Locator { eocdr }
                            ==> EndOfCentralDirectory::spec_effective_offset(
                            self.size,
                            eocdr,
                            None,
                        ) >= self.size)
                        &&& (self.state is ReadEocd ==> exists|off: int|
                            {
                                &&& 0 <= off < EOCD64_LOCATOR_LENGTH
                                &&& #[trigger] eocd_terminal_at(self.buffer.data(), off)
                            })
                        &&& (self.state is ReadEocd64 ==> eocd64_at(self.buffer.data(), 0))
                    })
                },
            },
    {
        let ArchiveFsm { size, state, mut buffer, mut parsed_ranges } = self;
        match state {
            ArchiveState::ReadEocd { haystack_size } => {
                if buffer.read_bytes() < haystack_size {
                    // the whole haystack must be buffered before the scan
                    return Ok(
                        FsmResult::Continue(
                            ArchiveFsm {
                                size,
                                state: ArchiveState::ReadEocd { haystack_size },
                                buffer,
                                parsed_ranges,
                            },
                        ),
                    );
                }
                let data = buffer.data_to_vec();
                match find_eocd(data.as_slice()) {
                    None => Err(Error::Format(FormatError::DirectoryEndSignatureNotFound)),
                    Some((offset, rec)) => {
                        buffer.reset();
                        let eocdr_offset = offset as u64;
                        let record_len = 22 + rec.comment.len() as u64;
                        parsed_ranges.insert_range(
                            eocdr_offset,
                            eocdr_offset + record_len,
                            RangeKind::EndOfCentralDirectoryRecord,
                            None,
                        );
                        let located = Located { offset: eocdr_offset, inner: rec };
                        if eocdr_offset < EOCD64_LOCATOR_LENGTH as u64 {
                            // no room for a zip64 locator before the end
                            // record: definitely not a zip64 archive
                            let eocd = match EndOfCentralDirectory::new(size, located, None) {
                                Ok(e) => e,
                                Err(e) => {
                                    return Err(e);
                                },
                            };
                            let current_header_offset = eocd.directory_offset;
                            Ok(
                                FsmResult::Continue(
                                    ArchiveFsm {
                                        size,
                                        state: ArchiveState::ReadCentralDirectory {
                                            eocd,
                                            directory_headers: Vec::new(),
                                            current_header_offset,
                                        },
                                        buffer,
                                        parsed_ranges,
                                    },
                                ),
                            )
                        } else {
                            Ok(
                                FsmResult::Continue(
                                    ArchiveFsm {
                                        size,
                                        state: ArchiveState::ReadEocd64Locator { eocdr: located },
                                        buffer,
                                        parsed_ranges,
                                    },
                                ),
                            )
                        }
                    },
                }
            },
            ArchiveState::ReadEocd64Locator { eocdr } => {
                let data = buffer.data_to_vec();
                match parse_eocd64_locator(data.as_slice(), 0) {
                    Parsed::Incomplete => Ok(
                        FsmResult::Continue(
                            ArchiveFsm {
                                size,
                                state: ArchiveState::ReadEocd64Locator { eocdr },
                                buffer,
                                parsed_ranges,
                            },
                        ),
                    ),
                    Parsed::Invalid => {
                        // no zip64 locator stands there: the archive is
                        // simply not zip64
                        buffer.reset();
                        let eocd = match EndOfCentralDirectory::new(size, eocdr, None) {
                            Ok(e) => e,
                            Err(e) => {
                                return Err(e);
                            },
                        };
                        let current_header_offset = eocd.directory_offset;
                        Ok(
                            FsmResult::Continue(
                                ArchiveFsm {
                                    size,
                                    state: ArchiveState::ReadCentralDirectory {
                                        eocd,
                                        directory_headers: Vec::new(),
                                        current_header_offset,
                                    },
                                    buffer,
                                    parsed_ranges,
                                },
                            ),
                        )
                    },
                    Parsed::Complete(locator, _) => {
                        buffer.reset();
                        parsed_ranges.insert_range(
                            eocdr.offset - EOCD64_LOCATOR_LENGTH as u64,
                            eocdr.offset,
                            RangeKind::Zip64EndOfCentralDirectoryLocator,
                            None,
                        );
                        Ok(
                            FsmResult::Continue(
                                ArchiveFsm {
                                    size,
                                    state: ArchiveState::ReadEocd64 {
                                        eocdr64_offset: locator.directory_offset,
                                        eocdr,
                                    },
                                    buffer,
                                    parsed_ranges,
                                },
                            ),
                        )
                    },
                }
            },
            ArchiveState::ReadEocd64 { eocdr64_offset, eocdr } => {
                let data = buffer.data_to_vec();
                match parse_eocd64(data.as_slice(), 0) {
                    Parsed::Incomplete => Ok(
                        FsmResult::Continue(
                            ArchiveFsm {
                                size,
                                state: ArchiveState::ReadEocd64 { eocdr64_offset, eocdr },
                                buffer,
                                parsed_ranges,
                            },
                        ),
                    ),
                    // the locator pointed here, so a record that does not
                    // parse is fatal
                    Parsed::Invalid => Err(Error::Format(FormatError::Directory64EndRecordInvalid)),
                    Parsed::Complete(rec64, consumed) => {
                        buffer.reset();
                        parsed_ranges.insert_range(
                            eocdr64_offset,
                            eocdr64_offset + consumed as u64,
                            RangeKind::Zip64EndOfCentralDirectoryRecord,
                            None,
                        );
                        let eocd = match EndOfCentralDirectory::new(
                            size,
                            eocdr,
                            Some(Located { offset: eocdr64_offset, inner: rec64 }),
                        ) {
                            Ok(e) => e,
                            Err(e) => {
                                return Err(e);
                            },
                        };
                        let current_header_offset = eocd.directory_offset;
                        Ok(
                            FsmResult::Continue(
                                ArchiveFsm {
                                    size,
                                    state: ArchiveState::ReadCentralDirectory {
                                        eocd,
                                        directory_headers: Vec::new(),
                                        current_header_offset,
                                    },
                                    buffer,
                                    parsed_ranges,
                                },
                            ),
                        )
                    },
                }
            },
            ArchiveState::ReadCentralDirectory {
                eocd,
                directory_headers,
                current_header_offset,
            } => ArchiveFsm::process_central_directory(
                size,
                eocd,
                directory_headers,
                current_header_offset,
                buffer,
                parsed_ranges,
            ),
        }
    }

    /// The directory walk: parses every completely buffered central
    /// directory header, and at the walk's natural end checks the count,
    /// detects the encoding and builds the archive.  Carries exactly the
    /// walk-related part of [`ArchiveFsm::process`]'s contract.
    #[verifier::loop_isolation(false)]
    #[verifier::rlimit(100)]
    fn process_central_directory(
        size: u64,
        eocd: EndOfCentralDirectory,
        mut directory_headers: Vec<CentralDirectoryFileHeaderRecord>,
        mut current_header_offset: u64,
        mut buffer: Buffer,
        mut parsed_ranges: ParsedRanges,
    ) -> (r: Result<FsmResult<ArchiveFsm, Archive>, Error>)
        requires
            buffer.wf(),
            buffer.cap() == size,
            size <= usize::MAX,
            parsed_ranges.bounded_by(size as int),
            eocd.directory_offset < size,
            eocd.directory_offset <= current_header_offset,
            current_header_offset + buffer.data().len() == eocd.directory_offset
                + buffer.read_bytes,
            buffer.read_bytes + eocd.directory_offset <= size,
        ensures
            match r {
                Ok(FsmResult::Continue(f)) => {
                    &&& f.wf()
                    &&& f.size == size
                    &&& (f.state matches ArchiveState::ReadCentralDirectory {
                        eocd: e2,
                        directory_headers: h2,
                        current_header_offset: c2,
                    } && {
                        let consumed = buffer.data().len() - f.buffer.data().len();
                        &&& e2 == eocd
                        &&& h2@.len() == directory_headers@.len() + cdh_run_len(
                            buffer.data(),
                            0,
                        )
                        &&& h2@.subrange(0, directory_headers@.len() as int)
                            == directory_headers@
                        &&& f.buffer.data() == buffer.data().skip(consumed as int)
                        &&& f.buffer.read_bytes == buffer.read_bytes
                        &&& c2 == current_header_offset + consumed
                        &&& !prefix_conflict(buffer.data(), consumed as int, cdh_sig())
                        &&& consumed + cdh_record_len(buffer.data(), consumed as int)
                            > buffer.data().len()
                    })
                },
                Ok(FsmResult::Done(a)) => {
                    &&& a.wf()
                    &&& a.size == size
                    &&& a.eocd == eocd
                    &&& a.directory_headers@.len() == directory_headers@.len() + cdh_run_len(
                        buffer.data(),
                        0,
                    )
                    &&& a.directory_headers@.subrange(0, directory_headers@.len() as int)
                        == directory_headers@
                    &&& a.parsed_ranges@.len() == parsed_ranges@.len() + cdh_run_len(
                        buffer.data(),
                        0,
                    )
                    &&& a.parsed_ranges@.subrange(0, parsed_ranges@.len() as int)
                        == parsed_ranges@
                    &&& forall|k: int|
                        parsed_ranges@.len() <= k < a.parsed_ranges@.len() ==> (
                        #[trigger] a.parsed_ranges@[k]).contains
                            == RangeKind::CentralDirectoryHeader
                    &&& (spec_all_utf8(a.directory_headers@) ==> a.encoding == Encoding::Utf8)
                    &&& ((!spec_all_utf8(a.directory_headers@) && !suspicious_in(
                        spec_fed(a.directory_headers@, 0, 0),
                    )) ==> a.encoding != Encoding::ShiftJis)
                },
                Err(e) => {
                    &&& (e matches Error::Format(FormatError::InvalidCentralRecord {
                        expected,
                        actual,
                    }) ==> (expected != actual && actual as int
                        == eocd.spec_directory_records() as int % 0x10000 && expected as int == (
                    directory_headers@.len() + cdh_run_len(buffer.data(), 0)) % 0x10000))
                    &&& !(e == Error::Format(FormatError::DirectoryEndSignatureNotFound))
                    &&& !(e == Error::Format(FormatError::Directory64EndRecordInvalid))
                    &&& !(e == Error::Format(FormatError::DirectoryOffsetPointsOutsideFile))
                },
            },
    {
        let data = buffer.data_to_vec();
        let ghost cur0 = current_header_offset;
        let ghost headers0 = directory_headers@;
        let ghost ranges0 = parsed_ranges@;
        let mut at: usize = 0;
        loop
            invariant
                data@ == buffer.data(),
                buffer.wf(),
                buffer.cap() == size,
                size <= usize::MAX,
                parsed_ranges.bounded_by(size as int),
                at <= data@.len(),
                eocd.directory_offset < size,
                eocd.directory_offset <= current_header_offset,
                current_header_offset == cur0 + at,
                current_header_offset + (data@.len() - at) == eocd.directory_offset
                    + buffer.read_bytes,
                buffer.read_bytes + eocd.directory_offset <= size,
                directory_headers@.len() >= headers0.len(),
                directory_headers@.subrange(0, headers0.len() as int) == headers0,
                cdh_run_len(data@, 0) == (directory_headers@.len() - headers0.len())
                    + cdh_run_len(data@, at as int),
                parsed_ranges@.len() == ranges0.len() + (directory_headers@.len()
                    - headers0.len()),
                parsed_ranges@.subrange(0, ranges0.len() as int) == ranges0,
                forall|k: int|
                    ranges0.len() <= k < parsed_ranges@.len() ==> (
                    #[trigger] parsed_ranges@[k]).contains
                        == RangeKind::CentralDirectoryHeader,
            decreases data@.len() - at,
        {
            match parse_central_directory_header(data.as_slice(), at) {
                Parsed::Complete(rec, n) => {
                    let ghost pr0 = parsed_ranges@;
                    current_header_offset = ArchiveFsm::take_header(
                        size,
                        &eocd,
                        &mut directory_headers,
                        &mut parsed_ranges,
                        current_header_offset,
                        rec,
                        n,
                    );
                    proof {
                        // one more header of the run is consumed
                        assert(cdh_run_len(data@, at as int) == 1 + cdh_run_len(
                            data@,
                            at + n,
                        ));
                        assert(directory_headers@.subrange(
                            0,
                            headers0.len() as int,
                        ) =~= headers0);
                        assert(parsed_ranges@.subrange(
                            0,
                            ranges0.len() as int,
                        ) =~= ranges0);
                        assert forall|k: int|
                            ranges0.len() <= k < parsed_ranges@.len() implies (
                        #[trigger] parsed_ranges@[k]).contains
                            == RangeKind::CentralDirectoryHeader by {
                            if k < pr0.len() {
                                assert(parsed_ranges@[k] == parsed_ranges@.subrange(
                                    0,
                                    pr0.len() as int,
                                )[k]);
                            }
                        }
                    }
                    at = at + n;
                },
                Parsed::Incomplete => {
                    // the next header runs past the window: keep
                    // what parsed and ask for more
                    buffer.consume(at);
                    proof {
                        assert(cdh_run_len(data@, at as int) == 0);
                        assert(buffer.data() =~= data@.skip(at as int));
                    }
                    return Ok(
                        FsmResult::Continue(
                            ArchiveFsm {
                                size,
                                state: ArchiveState::ReadCentralDirectory {
                                    eocd,
                                    directory_headers,
                                    current_header_offset,
                                },
                                buffer,
                                parsed_ranges,
                            },
                        ),
                    );
                },
                Parsed::Invalid => {
                    // the normal end of the walk: something other
                    // than a central header stands here
                    proof {
                        assert(!crate::records::cdh_at(data@, at as int));
                        assert(cdh_run_len(data@, at as int) == 0);
                    }
                    return ArchiveFsm::finish_directory(
                        size,
                        eocd,
                        directory_headers,
                        parsed_ranges,
                    );
                },
            }
        }
    }

    /// The name a header's journal region is labeled with: the entry
    /// name read as UTF-8, or nothing when it does not decode.  The walk
    /// does not know the archive's encoding yet when it journals, so this
    /// provisional reading mirrors the final one only for UTF-8 archives.
    fn journal_name(rec: &CentralDirectoryFileHeaderRecord, global_offset: u64) -> (r: Option<
        String,
    >) {
        match rec.as_entry(Encoding::Utf8, global_offset) {
            Ok(e) => Some(e.name),
            Err(_) => None,
        }
    }

    /// Takes one parsed header: journals its span under its provisional
    /// name and appends it to the gathered records.
    fn take_header(
        size: u64,
        eocd: &EndOfCentralDirectory,
        directory_headers: &mut Vec<CentralDirectoryFileHeaderRecord>,
        parsed_ranges: &mut ParsedRanges,
        current_header_offset: u64,
        rec: CentralDirectoryFileHeaderRecord,
        n: usize,
    ) -> (new_offset: u64)
        requires
            0 < n,
            current_header_offset + n <= size,
            old(parsed_ranges).bounded_by(size as int),
        ensures
            final(directory_headers)@ == old(directory_headers)@.push(rec),
            final(parsed_ranges)@.len() == old(parsed_ranges)@.len() + 1,
            final(parsed_ranges)@.subrange(0, old(parsed_ranges)@.len() as int) == old(
                parsed_ranges,
            )@,
            final(parsed_ranges)@.last().contains == RangeKind::CentralDirectoryHeader,
            final(parsed_ranges).bounded_by(size as int),
            new_offset == current_header_offset + n,
    {
        let filename = ArchiveFsm::journal_name(&rec, eocd.global_offset);
        parsed_ranges.insert_range(
            current_header_offset,
            current_header_offset + n as u64,
            RangeKind::CentralDirectoryHeader,
            filename,
        );
        directory_headers.push(rec);
        proof {
            assert(parsed_ranges@.subrange(
                0,
                parsed_ranges@.len() - 1,
            ) =~= old(parsed_ranges)@);
        }
        current_header_offset + n as u64
    }

    /// The walk's natural end: checks the record count in its low 16
    /// bits, detects the name encoding, normalizes every record into an
    /// entry, decodes the archive comment and yields the archive.
    #[verifier::rlimit(100)]
    fn finish_directory(
        size: u64,
        eocd: EndOfCentralDirectory,
        directory_headers: Vec<CentralDirectoryFileHeaderRecord>,
        parsed_ranges: ParsedRanges,
    ) -> (r: Result<FsmResult<ArchiveFsm, Archive>, Error>)
        requires
            parsed_ranges.bounded_by(size as int),
            eocd.directory_offset < size,
        ensures
            match r {
                Ok(FsmResult::Done(a)) => {
                    &&& a.wf()
                    &&& a.size == size
                    &&& a.eocd == eocd
                    &&& a.directory_headers == directory_headers
                    &&& a.parsed_ranges == parsed_ranges
                    &&& (spec_all_utf8(a.directory_headers@) ==> a.encoding == Encoding::Utf8)
                    &&& ((!spec_all_utf8(a.directory_headers@) && !suspicious_in(
                        spec_fed(a.directory_headers@, 0, 0),
                    )) ==> a.encoding != Encoding::ShiftJis)
                },
                Ok(FsmResult::Continue(f)) => false,
                Err(e) => {
                    &&& (e matches Error::Format(f9) ==> f9 matches
                        FormatError::InvalidCentralRecord { .. })
                    &&& !(e is Io)
                    &&& !(e is Unsupported)
                    &&& (e matches Error::Format(FormatError::InvalidCentralRecord {
                        expected,
                        actual,
                    }) ==> {
                        &&& expected != actual
                        &&& actual as int == eocd.spec_directory_records() as int % 0x10000
                        &&& expected as int == directory_headers@.len() as int % 0x10000
                    })
                },
            },
    {
        let expected = (directory_headers.len() % 0x10000) as u16;
        let actual = (eocd.directory_records() % 0x10000) as u16;
        if expected != actual {
            return Err(Error::Format(FormatError::InvalidCentralRecord { expected, actual }));
        }
        let encoding = detect_encoding(&directory_headers);
        let mut entries: Vec<Entry> = Vec::new();
        let count = directory_headers.len();
        let mut i: usize = 0;
        while i < count
            invariant
                count == directory_headers@.len(),
                i <= count,
                entries@.len() == i,
                forall|k: int|
                    0 <= k < i ==> spec_central_entry(
                        #[trigger] directory_headers@[k],
                        encoding,
                        eocd.global_offset,
                        entries@[k],
                    ),
            decreases count - i,
        {
            match directory_headers[i].as_entry(encoding, eocd.global_offset) {
                Ok(e) => entries.push(e),
                Err(e) => {
                    return Err(e);
                },
            }
            i += 1;
        }
        let comment = match encoding.decode(eocd.comment().as_slice()) {
            Ok(c) => c,
            Err(e) => {
                return Err(e);
            },
        };
        Ok(
            FsmResult::Done(
                Archive { size, eocd, directory_headers, entries, comment, encoding, parsed_ranges },
            ),
        )
    }
}

/// Every byte range a successful parse journals is a non-empty interval
/// inside the file: for every range `[s, e)` of the archive's journal,
/// `0 <= s < e <= size`.
pub proof fn lemma_parsed_ranges_bounded(a: Archive)
    requires
        a.wf(),
    ensures
        a.parsed_ranges.bounded_by(a.size as int),
        forall|i: int|
            0 <= i < a.parsed_ranges@.len() ==> (#[trigger] a.parsed_ranges@[i]).start
                < a.parsed_ranges@[i].end <= a.size,
{
}

/// A successful parse yields exactly one entry per raw central directory
/// record, and their count equals the declared record count in the low 16
/// bits, so a non-zip64 archive with 65536 or more entries still parses.
pub proof fn lemma_entry_counts_align(a: Archive)
    requires
        a.wf(),
    ensures
        a.entries@.len() == a.directory_headers@.len(),
        a.entries@.len() as int % 0x10000 == a.eocd.spec_directory_records() as int % 0x10000,
{
}

} // verus!
