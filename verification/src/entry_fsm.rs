//! The per-entry state machine.
//!
//! Starting at an entry's local file header, the machine parses the
//! header, streams the payload through the method's decompressor while
//! hashing what comes out, parses the trailing data descriptor when the
//! header announced one, and validates the decompressed size and CRC-32
//! against what the entry declared.
//!
//! The machine performs no I/O: the driver fills bytes in with
//! [`EntryFsm::fill`] and calls [`EntryFsm::process`] until it yields
//! [`FsmResult::Done`].

use vstd::prelude::*;
use crate::buffer::Buffer;
use crate::crc::{crc32_of, hasher_fed, hasher_finalize, hasher_new, hasher_update};
use crate::decompress::{
    spec_salt_size,
    AexData,
    AnyDecompressor,
    DecompressOutcome,
    HasMoreInput,
};
use crate::entry::Entry;
use crate::error::{Error, FormatError, IoError, UnsupportedError};
use crate::fsm::FsmResult;
use crate::method::Method;
use crate::ranges::{ParsedRanges, RangeKind};
use crate::records::{
    dd_body_len,
    dd_sig,
    lfh_at,
    lfh_record_len,
    lfh_sig,
    parse_data_descriptor,
    parse_local_file_header,
    prefix_conflict,
    DataDescriptorRecord,
    LocalFileHeaderRecord,
    Parsed,
};

verus! {

/// What the data phase measured: how many bytes came out and their hash.
pub struct EntryReadMetrics {
    /// Total decompressed bytes.
    pub uncompressed_size: u64,
    /// CRC-32 of the decompressed bytes.
    pub crc32: u32,
}

/// Where the machine stands.
pub enum State {
    /// Parsing the local file header.
    ReadLocalHeader,
    /// Streaming the payload through the decompressor.
    ReadData {
        /// Whether a data descriptor follows the payload.
        has_data_descriptor: bool,
        /// Whether the descriptor will carry 64-bit sizes.
        is_zip64: bool,
        /// Compressed bytes fed to the decompressor so far.
        compressed_bytes: u64,
        /// Decompressed bytes produced so far.
        uncompressed_bytes: u64,
        /// Running CRC-32 of the decompressed bytes.
        hasher: crc32fast::Hasher,
        /// The method's codec.
        decompressor: AnyDecompressor,
        /// File offset where the payload starts.
        data_start: u64,
        /// The very bytes fed so far.
        fed: Ghost<Seq<u8>>,
        /// The very bytes produced so far.
        emitted: Ghost<Seq<u8>>,
    },
    /// Parsing the data descriptor after the payload.
    ReadDataDescriptor {
        /// Whether the descriptor carries 64-bit sizes.
        is_zip64: bool,
        /// What the data phase measured.
        metrics: EntryReadMetrics,
        /// File offset where the descriptor starts.
        data_descriptor_start: u64,
        /// The very bytes the data phase consumed.
        fed: Ghost<Seq<u8>>,
        /// The very bytes the data phase produced.
        emitted: Ghost<Seq<u8>>,
    },
    /// Checking size and checksum.
    Validate {
        /// What the data phase measured.
        metrics: EntryReadMetrics,
        /// The parsed data descriptor, when there was one.
        descriptor: Option<DataDescriptorRecord>,
        /// The very bytes the data phase consumed.
        fed: Ghost<Seq<u8>>,
        /// The very bytes the data phase produced.
        emitted: Ghost<Seq<u8>>,
    },
}

/// Capacity of the machine's own buffer.
pub const ENTRY_BUF_CAPACITY: usize = 262144;

/// Everything a finished machine hands back: the buffer for reuse, the
/// parsed local header, the AE-x side data for encrypted entries, and the
/// range journal it was lent.
pub struct EntryDone {
    /// The machine's buffer, to be reused for the next entry.
    pub buffer: Buffer,
    /// The local file header that was parsed.
    pub local_header: Option<LocalFileHeaderRecord>,
    /// Salt, verifier and authentication code of an AE-x entry.
    pub aex_data: Option<AexData>,
    /// The range journal, with this entry's regions appended.
    pub parsed_ranges: Option<ParsedRanges>,
}

/// A state machine that parses one ZIP entry.
pub struct EntryFsm {
    /// Where the machine stands.
    pub state: State,
    /// The entry being read: supplied by the caller from the central
    /// directory, or derived from the local header.
    pub entry: Option<Entry>,
    /// The local header, once parsed.
    pub local_header: Option<LocalFileHeaderRecord>,
    /// The machine's input reservoir.
    pub buffer: Buffer,
    /// The journal this entry's regions are appended to, when the caller
    /// lent one.
    pub parsed_ranges: Option<ParsedRanges>,
    /// Salt, verifier and authentication code, captured from an AE-x
    /// payload.
    pub aex_data: Option<AexData>,
}

/// The methods the engine recognizes: everything else is rejected when
/// the machine is created.
pub open spec fn spec_method_recognized(m: Method) -> bool {
    ||| m == Method::Store
    ||| m == Method::Deflate
    ||| m == Method::Deflate64
    ||| m == Method::Bzip2
    ||| m == Method::Lzma
    ||| m == Method::Zstd
    ||| m == Method::Aex
}

impl EntryFsm {
    /// How far along the machine is; strictly falls at every state change.
    pub open spec fn state_rank(self) -> int {
        match self.state {
            State::ReadLocalHeader => 3,
            State::ReadData { .. } => 2,
            State::ReadDataDescriptor { .. } => 1,
            State::Validate { .. } => 0,
        }
    }

    /// The decompressed bytes the machine has produced so far.
    pub open spec fn emitted_seq(self) -> Seq<u8> {
        match self.state {
            State::ReadLocalHeader => Seq::<u8>::empty(),
            State::ReadData { emitted, .. } => emitted@,
            State::ReadDataDescriptor { emitted, .. } => emitted@,
            State::Validate { emitted, .. } => emitted@,
        }
    }

    /// The compressed bytes the machine has fed to its decompressor so
    /// far.
    pub open spec fn fed_seq(self) -> Seq<u8> {
        match self.state {
            State::ReadLocalHeader => Seq::<u8>::empty(),
            State::ReadData { fed, .. } => fed@,
            State::ReadDataDescriptor { fed, .. } => fed@,
            State::Validate { fed, .. } => fed@,
        }
    }

    /// The machine never feeds its decompressor more than the entry's
    /// compressed size, however much the driver buffers.
    pub open spec fn feeds_within_budget(self) -> bool {
        self.state matches State::ReadData { .. } ==> {
            &&& self.entry matches Some(e)
            &&& self.fed_seq().len() <= e.compressed_size
        }
    }

    /// However much the driver buffers, a well-formed machine has fed its
    /// decompressor at most the entry's compressed size, and every
    /// `process` turn keeps it that way.
    pub proof fn lemma_feeds_within_budget(self)
        requires
            self.wf(),
        ensures
            self.feeds_within_budget(),
            self.state matches State::ReadData { .. } ==> self.fed_seq().len()
                <= self.entry.unwrap().compressed_size,
    {
    }

    /// The machine's invariant.
    pub open spec fn wf(self) -> bool {
        &&& self.buffer.wf()
        &&& self.feeds_within_budget()
        &&& match self.state {
            State::ReadLocalHeader => true,
            State::ReadData {
                compressed_bytes,
                uncompressed_bytes,
                hasher,
                decompressor,
                fed,
                emitted,
                ..
            } => {
                &&& self.entry matches Some(e)
                &&& decompressor.wf()
                &&& fed@.len() == compressed_bytes
                &&& emitted@.len() == uncompressed_bytes
                &&& uncompressed_bytes <= compressed_bytes
                &&& hasher_fed(hasher) == emitted@
                &&& (decompressor is Store ==> emitted@ == fed@)
                &&& (decompressor matches AnyDecompressor::Aex(a) ==> (self.entry matches Some(e2)
                    && e2.aex matches Some(x) && a.aex == x))
                &&& (self.local_header matches Some(h) && (Method::spec_from_u16(h.method)
                    == Method::Store ==> decompressor is Store))
            },
            State::ReadDataDescriptor { metrics, fed, emitted, .. } => {
                &&& self.entry is Some
                &&& self.local_header is Some
                &&& metrics.uncompressed_size == emitted@.len()
                &&& metrics.crc32 == crc32_of(emitted@)
                &&& fed@.len() == self.entry.unwrap().compressed_size
                &&& (Method::spec_from_u16(self.local_header.unwrap().method) == Method::Store
                    ==> emitted@ == fed@)
            },
            State::Validate { metrics, fed, emitted, .. } => {
                &&& self.entry is Some
                &&& self.local_header is Some
                &&& metrics.uncompressed_size == emitted@.len()
                &&& metrics.crc32 == crc32_of(emitted@)
                &&& fed@.len() == self.entry.unwrap().compressed_size
                &&& (Method::spec_from_u16(self.local_header.unwrap().method) == Method::Store
                    ==> emitted@ == fed@)
            },
        }
        &&& (self.aex_data matches Some(d) ==> {
            &&& d.password_verification_value@.len() == 2
            &&& d.authentication_code@.len() == 10
            &&& self.entry matches Some(e) && e.aex matches Some(x) && Some(
                d.salt_value@.len() as int,
            ) == spec_salt_size(x.mode)
        })
    }

    /// Creates a machine for one entry.
    ///
    /// When the caller knows the entry from the central directory and its
    /// method is not one the engine recognizes, the machine is refused
    /// right here rather than mid-stream.  A caller-provided buffer lets
    /// one buffer serve many entries; it must be at least
    /// [`ENTRY_BUF_CAPACITY`] bytes.
    pub fn new(entry: Option<Entry>, buffer: Option<Buffer>, parsed_ranges: Option<ParsedRanges>,
    ) -> (r: Result<EntryFsm, Error>)
        requires
            buffer matches Some(b) ==> b.wf() && b.cap() >= ENTRY_BUF_CAPACITY,
        ensures
            match r {
                Ok(fsm) => {
                    &&& fsm.wf()
                    &&& fsm.state is ReadLocalHeader
                    &&& fsm.entry == entry
                    &&& fsm.parsed_ranges == parsed_ranges
                    &&& fsm.local_header is None
                    &&& fsm.aex_data is None
                    &&& (entry matches Some(e) ==> spec_method_recognized(e.method))
                    &&& (buffer matches Some(b) ==> fsm.buffer == b)
                    &&& (buffer is None ==> fsm.buffer.read_bytes == 0 && fsm.buffer.data()
                        == Seq::<u8>::empty() && fsm.buffer.cap() == ENTRY_BUF_CAPACITY
                        && fsm.buffer.position == 0)
                },
                Err(e) => {
                    &&& entry matches Some(en) && !spec_method_recognized(en.method)
                    &&& e == Error::Unsupported(
                        UnsupportedError::MethodNotSupported(entry.unwrap().method),
                    )
                },
            },
    {
        match &entry {
            Some(e) => {
                let recognized = match e.method {
                    Method::Store => true,
                    Method::Deflate => true,
                    Method::Deflate64 => true,
                    Method::Bzip2 => true,
                    Method::Lzma => true,
                    Method::Zstd => true,
                    Method::Aex => true,
                    _ => false,
                };
                if !recognized {
                    return Err(
                        Error::Unsupported(UnsupportedError::MethodNotSupported(e.method)),
                    );
                }
            },
            None => {},
        }
        let buffer = match buffer {
            Some(b) => b,
            None => Buffer::with_capacity(ENTRY_BUF_CAPACITY),
        };
        Ok(
            EntryFsm {
                state: State::ReadLocalHeader,
                entry,
                local_header: None,
                buffer,
                parsed_ranges,
                aex_data: None,
            },
        )
    }

    /// Whether the driver should fill more bytes in before the next
    /// `process` call.
    pub fn wants_read(&self) -> (r: bool)
        requires
            self.wf(),
        ensures
            r == match self.state {
                State::ReadLocalHeader => true,
                State::ReadData { .. } => self.buffer.space_len() > 0,
                State::ReadDataDescriptor { .. } => true,
                State::Validate { .. } => false,
            },
    {
        match &self.state {
            State::ReadLocalHeader => true,
            State::ReadData { .. } => self.buffer.available_space() > 0,
            State::ReadDataDescriptor { .. } => true,
            State::Validate { .. } => false,
        }
    }

    /// Copies driver bytes into the machine's buffer; returns how many
    /// were taken.
    pub fn fill(&mut self, src: &[u8]) -> (n: usize)
        requires
            old(self).wf(),
            old(self).buffer.read_bytes + src@.len() <= u64::MAX,
        ensures
            final(self).wf(),
            n == vstd::math::min(
                src@.len() as int,
                if old(self).buffer.space_len() == 0 {
                    old(self).buffer.cap() - old(self).buffer.data().len()
                } else {
                    old(self).buffer.space_len()
                },
            ),
            final(self).buffer.data() == old(self).buffer.data() + src@.subrange(0, n as int),
            final(self).buffer.cap() == old(self).buffer.cap(),
            final(self).buffer.read_bytes == old(self).buffer.read_bytes + n,
            old(self).buffer.position == 0 ==> final(self).buffer.position == 0,
            final(self).state == old(self).state,
            final(self).entry == old(self).entry,
            final(self).local_header == old(self).local_header,
            final(self).parsed_ranges == old(self).parsed_ranges,
            final(self).aex_data == old(self).aex_data,
    {
        if self.buffer.available_space() == 0 {
            self.buffer.shift();
        }
        self.buffer.fill(src, src.len())
    }

    /// The parsed local header, once the machine is past it.
    pub fn local_header_entry(&self) -> (r: &Option<LocalFileHeaderRecord>)
        ensures
            r == self.local_header,
    {
        &self.local_header
    }

    /// What completing the local header leaves behind: the header parsed
    /// from the front of the buffered bytes and consumed, the entry
    /// derived from it when the caller supplied none, the header's span
    /// journaled, and the data phase set up fresh.
    pub open spec fn spec_header_done(pre: EntryFsm, post: EntryFsm) -> bool {
        let win = pre.buffer.data();
        let len = crate::records::lfh_record_len(win, 0);
        &&& crate::records::lfh_at(win, 0)
        &&& post.local_header matches Some(h) && crate::records::lfh_fields(win, 0, h)
        &&& post.buffer.data() == win.skip(len)
        &&& post.buffer.read_bytes == pre.buffer.read_bytes
        &&& post.buffer.cap() == pre.buffer.cap()
        &&& (pre.entry is Some ==> post.entry == pre.entry)
        &&& (pre.entry is None ==> (post.entry matches Some(e) && crate::entry::spec_local_entry(
            post.local_header.unwrap(),
            e,
        )))
        &&& post.aex_data == pre.aex_data
        &&& match post.state {
            State::ReadData {
                has_data_descriptor,
                is_zip64,
                compressed_bytes,
                uncompressed_bytes,
                data_start,
                ..
            } => {
                let h = post.local_header.unwrap();
                &&& has_data_descriptor == h.spec_has_data_descriptor()
                &&& is_zip64 == (h.compressed_size == u32::MAX || h.uncompressed_size
                    == u32::MAX)
                &&& compressed_bytes == 0
                &&& uncompressed_bytes == 0
                &&& data_start == vstd::wrapping::u64_specs::wrapping_add(
                    post.entry.unwrap().header_offset,
                    len as u64,
                )
            },
            _ => false,
        }
        &&& match (pre.parsed_ranges, post.parsed_ranges) {
            (Some(pr), Some(po)) => {
                &&& po@.len() == pr@.len() + 1
                &&& po@.subrange(0, pr@.len() as int) == pr@
                &&& po@.last().start == post.entry.unwrap().header_offset
                &&& po@.last().end == vstd::wrapping::u64_specs::wrapping_add(
                    post.entry.unwrap().header_offset,
                    len as u64,
                )
                &&& po@.last().contains == RangeKind::LocalFileHeader
                &&& po@.last().filename matches Some(s) && s@ == post.entry.unwrap().name@
            },
            (None, None) => true,
            _ => false,
        }
    }

    /// Tries to complete the local header from the buffered bytes.
    /// `Ok(true)` means the header is done and the data phase is set up;
    /// `Ok(false)` means the buffer ended inside the header and nothing
    /// changed.
    fn internal_process_local_header(&mut self) -> (r: Result<bool, Error>)
        requires
            old(self).wf(),
            old(self).state is ReadLocalHeader,
        ensures
            final(self).wf(),
            match r {
                Ok(true) => {
                    &&& EntryFsm::spec_header_done(*old(self), *final(self))
                    &&& final(self).state_rank() == 2
                    &&& final(self).emitted_seq() == Seq::<u8>::empty()
                    &&& final(self).fed_seq() == Seq::<u8>::empty()
                },
                Ok(false) => {
                    &&& *final(self) == *old(self)
                    &&& !crate::records::prefix_conflict(
                        old(self).buffer.data(),
                        0,
                        crate::records::lfh_sig(),
                    )
                    &&& crate::records::lfh_record_len(old(self).buffer.data(), 0) > old(
                        self,
                    ).buffer.data().len()
                },
                Err(e) => {
                    &&& (e matches Error::Format(f) ==> (f is InvalidLocalHeader
                        || f is InvalidExtraField))
                    &&& (e == Error::Format(FormatError::InvalidLocalHeader) <==> prefix_conflict(
                        old(self).buffer.data(),
                        0,
                        lfh_sig(),
                    ))
                    &&& (lfh_at(old(self).buffer.data(), 0) || prefix_conflict(
                        old(self).buffer.data(),
                        0,
                        lfh_sig(),
                    ))
                    &&& final(self).state is ReadLocalHeader
                    &&& final(self).buffer == old(self).buffer
                },
            },
    {
        let data = self.buffer.data_to_vec();
        match parse_local_file_header(data.as_slice(), 0) {
            Parsed::Complete(header, consumed) => {
                if self.entry.is_none() {
                    let derived = match header.as_entry() {
                        Ok(e) => e,
                        Err(e) => {
                            return Err(e);
                        },
                    };
                    self.entry = Some(derived);
                }
                let method = Method::from_u16(header.method);
                let decompressor = match AnyDecompressor::new(method, self.entry.as_ref()) {
                    Ok(d) => d,
                    Err(e) => {
                        return Err(e);
                    },
                };
                let header_offset = match &self.entry {
                    Some(e) => e.header_offset,
                    None => 0,
                };
                let length = consumed as u64;
                let data_start = header_offset.wrapping_add(length);
                match &mut self.parsed_ranges {
                    Some(pr) => {
                        let name = match &self.entry {
                            Some(e) => e.name.clone(),
                            None => String::new(),
                        };
                        pr.insert_range(
                            header_offset,
                            data_start,
                            RangeKind::LocalFileHeader,
                            Some(name),
                        );
                    },
                    None => {},
                }
                self.state = State::ReadData {
                    has_data_descriptor: header.has_data_descriptor(),
                    is_zip64: header.compressed_size == u32::MAX || header.uncompressed_size
                        == u32::MAX,
                    compressed_bytes: 0,
                    uncompressed_bytes: 0,
                    hasher: hasher_new(),
                    decompressor,
                    data_start,
                    fed: Ghost(Seq::<u8>::empty()),
                    emitted: Ghost(Seq::<u8>::empty()),
                };
                self.local_header = Some(header);
                self.buffer.consume(consumed);
                proof {
                    match (&old(self).parsed_ranges, &self.parsed_ranges) {
                        (Some(a), Some(b)) => {
                            assert(b@.subrange(0, a@.len() as int) =~= a@);
                        },
                        _ => {},
                    }
                }
                Ok(true)
            },
            Parsed::Incomplete => Ok(false),
            Parsed::Invalid => Err(Error::Format(FormatError::InvalidLocalHeader)),
        }
    }

    /// Like `process`, but stops once the local header is parsed, so the
    /// caller can look at the entry before deciding how to drive the rest.
    /// Yields nothing while the header is still incomplete: fill more
    /// bytes in and call again.  Past the header stage the call is a pure
    /// read: nothing is consumed and nothing changes.
    pub fn process_till_header(&mut self) -> (r: Result<Option<&Entry>, Error>)
        requires
            old(self).wf(),
        ensures
            final(self).wf(),
            !(old(self).state is ReadLocalHeader) ==> *final(self) == *old(self),
            match r {
                Ok(opt) => {
                    &&& (opt matches Some(e) ==> (final(self).entry matches Some(e2) && e2 == *e))
                    &&& (opt is None ==> final(self).entry is None)
                    &&& (old(self).state is ReadLocalHeader ==> {
                        ||| (EntryFsm::spec_header_done(*old(self), *final(self))
                            && final(self).state_rank() == 2)
                        ||| (*final(self) == *old(self) && !prefix_conflict(
                            old(self).buffer.data(),
                            0,
                            lfh_sig(),
                        ) && lfh_record_len(old(self).buffer.data(), 0)
                            > old(self).buffer.data().len())
                    })
                },
                Err(e) => {
                    &&& old(self).state is ReadLocalHeader
                    &&& (e matches Error::Format(f2) ==> (f2 is InvalidLocalHeader
                        || f2 is InvalidExtraField))
                    &&& (e == Error::Format(FormatError::InvalidLocalHeader) <==> prefix_conflict(
                        old(self).buffer.data(),
                        0,
                        lfh_sig(),
                    ))
                },
            },
    {
        let run = match &self.state {
            State::ReadLocalHeader => true,
            _ => false,
        };
        if run {
            match self.internal_process_local_header() {
                Ok(_) => {},
                Err(e) => {
                    return Err(e);
                },
            }
        }
        Ok(self.entry.as_ref())
    }

    /// One turn of the machine.
    ///
    /// While the machine continues, the decompressed bytes it has produced
    /// grow by exactly the prefix of `out` it reports written, and it
    /// never feeds its decompressor beyond the entry's compressed size.
    /// When it is done and the entry is not AE-x encrypted, the bytes
    /// produced over the whole run are exactly the entry's decompressed
    /// size and, when a checksum was declared, hash to it.
    #[verifier::rlimit(100)]
    pub fn process(self, out: &mut [u8]) -> (r: Result<
        FsmResult<(EntryFsm, DecompressOutcome), EntryDone>,
        Error,
    >)
        requires
            self.wf(),
        ensures
            match r {
                Ok(FsmResult::Continue((f, o))) => {
                    &&& f.wf()
                    &&& f.state_rank() <= self.state_rank()
                    &&& f.buffer.cap() == self.buffer.cap()
                    &&& f.buffer.read_bytes == self.buffer.read_bytes
                    &&& f.buffer.data().len() + o.bytes_read <= self.buffer.data().len()
                    &&& o.bytes_written <= old(out)@.len()
                    &&& o.bytes_written <= o.bytes_read || o.bytes_read == 0
                    &&& final(out)@.len() == old(out)@.len()
                    &&& f.emitted_seq() == self.emitted_seq() + final(out)@.subrange(
                        0,
                        o.bytes_written as int,
                    )
                    &&& forall|j: int|
                        o.bytes_written <= j < old(out)@.len() ==> final(out)@[j] == old(out)@[j]
                    &&& (self.entry is Some ==> f.entry == self.entry)
                    &&& (o.bytes_written > 0 ==> o.bytes_read > 0)
                    &&& (f.state_rank() == self.state_rank() && o.bytes_read == 0
                        && o.bytes_written == 0 ==> f.buffer.data() == self.buffer.data())
                    &&& f.buffer.data() == self.buffer.data().skip(
                        self.buffer.data().len() - f.buffer.data().len(),
                    )
                    &&& (self.state is ReadData ==> {
                        &&& self.fed_seq().len() <= f.fed_seq().len()
                        &&& f.fed_seq().len() - self.fed_seq().len() <= self.buffer.data().len()
                        &&& f.fed_seq() == self.fed_seq() + self.buffer.data().subrange(
                            0,
                            f.fed_seq().len() - self.fed_seq().len(),
                        )
                    })
                    &&& ((self.state is ReadDataDescriptor || self.state is Validate)
                        ==> f.fed_seq() == self.fed_seq())
                    &&& ((self.state is ReadLocalHeader && f.state is ReadLocalHeader)
                        ==> f.buffer.data() == self.buffer.data() && o.bytes_read == 0
                        && o.bytes_written == 0)
                    &&& ((self.state is ReadData && f.state is ReadData) ==> (
                    self.buffer.data().len() - f.buffer.data().len() == f.fed_seq().len()
                        - self.fed_seq().len() && o.bytes_read == f.fed_seq().len()
                        - self.fed_seq().len()))
                    &&& ((self.state is ReadLocalHeader && f.state_rank() <= 2) ==> {
                        let hlen = crate::records::lfh_record_len(self.buffer.data(), 0);
                        &&& crate::records::lfh_at(self.buffer.data(), 0)
                        &&& hlen + f.fed_seq().len() <= self.buffer.data().len()
                        &&& f.fed_seq() == self.buffer.data().subrange(
                            hlen,
                            hlen + f.fed_seq().len(),
                        )
                        &&& (f.state is ReadData ==> self.buffer.data().len()
                            - f.buffer.data().len() == hlen + f.fed_seq().len())
                    })
                },
                Ok(FsmResult::Done(d)) => {
                    &&& final(out)@.len() == old(out)@.len()
                    &&& forall|j: int|
                        0 <= j < old(out)@.len() ==> final(out)@[j] == old(out)@[j]
                    &&& d.local_header is Some
                    &&& (self.parsed_ranges is Some <==> d.parsed_ranges is Some)
                    &&& (self.parsed_ranges matches Some(pr0) ==> (d.parsed_ranges matches Some(
                        pr,
                    ) ==> {
                        &&& pr0@.len() <= pr@.len() <= pr0@.len() + 3
                        &&& pr@.subrange(0, pr0@.len() as int) == pr0@
                        &&& (self.state is Validate ==> pr@ == pr0@)
                        &&& (self.state is ReadDataDescriptor ==> pr@.len() == pr0@.len() + 1
                            && pr@.last().contains == RangeKind::DataDescriptor)
                        &&& (self.state is ReadData ==> {
                            &&& pr0@.len() < pr@.len() <= pr0@.len() + 2
                            &&& pr@[pr0@.len() as int].contains == RangeKind::FileData
                            &&& (pr@.len() == pr0@.len() + 2 ==> pr@.last().contains
                                == RangeKind::DataDescriptor)
                        })
                    }))
                    &&& (self.entry matches Some(e) ==> {
                        &&& (e.aex is None ==> self.emitted_seq().len() == e.uncompressed_size)
                        &&& (e.aex is None && e.crc32 != 0 ==> crc32_of(self.emitted_seq())
                            == e.crc32)
                    })
                    &&& (self.state matches State::Validate { descriptor: Some(dd), .. } ==> (
                    self.entry matches Some(e2) ==> (e2.aex is None && e2.crc32 == 0 && dd.crc32
                        != 0 ==> crc32_of(self.emitted_seq()) == dd.crc32)))
                    &&& (d.aex_data matches Some(ad) ==> {
                        &&& ad.password_verification_value@.len() == 2
                        &&& ad.authentication_code@.len() == 10
                        &&& (ad.salt_value@.len() == 8 || ad.salt_value@.len() == 12
                            || ad.salt_value@.len() == 16)
                    })
                    &&& (d.local_header matches Some(h) && Method::spec_from_u16(h.method)
                        == Method::Store ==> self.emitted_seq() == self.fed_seq() && (
                    self.entry matches Some(e3) ==> self.fed_seq().len() == e3.compressed_size))
                    &&& ((d.aex_data is Some && self.entry is Some) ==> (
                    self.entry.unwrap().aex matches Some(x) && Some(
                        d.aex_data.unwrap().salt_value@.len() as int,
                    ) == spec_salt_size(x.mode)))
                },
                Err(e) => {
                    &&& (e matches Error::Format(FormatError::WrongSize { expected, actual })
                        ==> (self.entry matches Some(en) ==> {
                        &&& en.aex is None
                        &&& expected == en.uncompressed_size
                        &&& actual == self.emitted_seq().len()
                        &&& expected != actual
                    }))
                    &&& (e matches Error::Format(FormatError::WrongChecksum { expected, actual })
                        ==> (self.entry matches Some(en) ==> {
                        &&& en.aex is None
                        &&& actual == crc32_of(self.emitted_seq())
                        &&& expected != 0
                        &&& expected != actual
                        &&& (en.crc32 != 0 ==> expected == en.crc32)
                        &&& (self.state matches State::Validate { descriptor: Some(dd), .. }
                            ==> (en.crc32 == 0 ==> expected == dd.crc32))
                    }))
                },
            },
            // a fully buffered header is completed the turn it is seen, and
            // bytes that can never become one fail the same turn
            (self.state is ReadLocalHeader && lfh_at(self.buffer.data(), 0)) ==> !(r matches Ok(
                FsmResult::Continue((f, o)),
            ) && f.state is ReadLocalHeader),
            (self.state is ReadLocalHeader && prefix_conflict(self.buffer.data(), 0, lfh_sig()))
                ==> (r matches Err(e2) && e2 == Error::Format(FormatError::InvalidLocalHeader)),
            self.state is ReadLocalHeader ==> ((r matches Ok(FsmResult::Done(d2))) ==> lfh_at(
                self.buffer.data(),
                0,
            )),
            // with input to feed and room to write, the data phase consumes
            // or moves on
            (self.state matches State::ReadData { .. } && self.buffer.data().len() > 0 && old(
                out,
            )@.len() > 0 && self.fed_seq().len() < self.entry.unwrap().compressed_size) ==> (
            r matches Ok(FsmResult::Continue((f, o))) ==> (f.state_rank() < 2
                || f.buffer.data().len() < self.buffer.data().len())),
            // a stalled descriptor parse leaves the machine untouched, and
            // only because the window ends inside the descriptor
            self.state matches State::ReadDataDescriptor { is_zip64, .. } ==> (r matches Ok(
                FsmResult::Continue((f, o)),
            ) ==> (f == self && (if prefix_conflict(self.buffer.data(), 0, dd_sig()) {
                dd_body_len(is_zip64) > self.buffer.data().len()
            } else {
                4 + dd_body_len(is_zip64) > self.buffer.data().len()
            }))),
            // validation never yields another turn
            self.state is Validate ==> !(r matches Ok(FsmResult::Continue(c2))),
            // at validation the outcome is decided: a size mismatch earns
            // the size error, then a checksum mismatch the checksum error,
            // and otherwise - always, for an encrypted entry - the machine
            // finishes
            self.state matches State::Validate { metrics, descriptor, .. } ==> (
            self.entry matches Some(e4) ==> ({
                let expected_crc: u32 = if e4.crc32 != 0 {
                    e4.crc32
                } else {
                    match descriptor {
                        Some(d4) => d4.crc32,
                        None => 0u32,
                    }
                };
                &&& ((e4.aex is None && e4.uncompressed_size != metrics.uncompressed_size) ==> (
                r matches Err(e5) && e5 == Error::Format(
                    FormatError::WrongSize {
                        expected: e4.uncompressed_size,
                        actual: metrics.uncompressed_size,
                    },
                )))
                &&& ((e4.aex is None && e4.uncompressed_size == metrics.uncompressed_size
                    && expected_crc != 0 && expected_crc != metrics.crc32) ==> (r matches Err(
                    e6,
                ) && e6 == Error::Format(
                    FormatError::WrongChecksum { expected: expected_crc, actual: metrics.crc32 },
                )))
                &&& ((e4.aex is Some || (e4.uncompressed_size == metrics.uncompressed_size && (
                expected_crc == 0 || expected_crc == metrics.crc32))) ==> r matches Ok(
                    FsmResult::Done(d7),
                ))
            })),
            // the header stage fails only once the window has decided: a
            // complete header whose metadata is bad, or bytes that can
            // never become one
            (self.state is ReadLocalHeader && r is Err) ==> (lfh_at(self.buffer.data(), 0)
                || prefix_conflict(self.buffer.data(), 0, lfh_sig())),
        decreases self.state_rank(),
    {
        let ghost self0 = self;
        let EntryFsm { state, entry, local_header, mut buffer, mut parsed_ranges, mut aex_data } =
            self;
        match state {
            State::ReadLocalHeader => {
                let mut fsm = EntryFsm {
                    state: State::ReadLocalHeader,
                    entry,
                    local_header,
                    buffer,
                    parsed_ranges,
                    aex_data,
                };
                let done = match fsm.internal_process_local_header() {
                    Ok(b) => b,
                    Err(e) => {
                        return Err(e);
                    },
                };
                if done {
                    let ghost mid = fsm;
                    let r = fsm.process(out);
                    proof {
                        // the payload the recursion fed starts right after
                        // the header this call consumed
                        match &r {
                            Ok(FsmResult::Continue((f2, _))) => {
                                let pre = self.buffer.data();
                                let hlen = crate::records::lfh_record_len(pre, 0);
                                assert(mid.buffer.data() == pre.skip(hlen));
                                assert(f2.fed_seq() =~= pre.subrange(
                                    hlen,
                                    hlen + f2.fed_seq().len(),
                                ));
                            },
                            _ => {},
                        }
                    }
                    r
                } else {
                    Ok(FsmResult::Continue((fsm, DecompressOutcome { bytes_read: 0, bytes_written: 0 })))
                }
            },
            State::ReadData {
                has_data_descriptor,
                is_zip64,
                compressed_bytes,
                uncompressed_bytes,
                mut hasher,
                mut decompressor,
                data_start,
                fed,
                emitted,
            } => {
                let e_compressed_size = match &entry {
                    Some(e) => e.compressed_size,
                    None => 0,
                };
                let in_vec = buffer.data_to_vec();
                if in_vec.len() == 0 && compressed_bytes < e_compressed_size {
                    let fsm = EntryFsm {
                        state: State::ReadData {
                            has_data_descriptor,
                            is_zip64,
                            compressed_bytes,
                            uncompressed_bytes,
                            hasher,
                            decompressor,
                            data_start,
                            fed,
                            emitted,
                        },
                        entry,
                        local_header,
                        buffer,
                        parsed_ranges,
                        aex_data,
                    };
                    proof {
                        assert(fsm.emitted_seq() =~= fsm.emitted_seq() + out@.subrange(0, 0));
                    }
                    return Ok(
                        FsmResult::Continue(
                            (fsm, DecompressOutcome { bytes_read: 0, bytes_written: 0 }),
                        ),
                    );
                }
                // never feed the decompressor beyond the entry's compressed size
                let budget = e_compressed_size - compressed_bytes;
                let in_len: usize = if (in_vec.len() as u64) < budget {
                    in_vec.len()
                } else {
                    budget as usize
                };
                let bytes_fed_this_turn = in_len;
                let has_more_input = if compressed_bytes + in_len as u64 == e_compressed_size {
                    HasMoreInput::No
                } else {
                    HasMoreInput::Yes
                };
                let in_slice = vstd::slice::slice_subrange(in_vec.as_slice(), 0, in_len);
                let o = match decompressor.decompress(in_slice, out, has_more_input) {
                    Ok(o) => o,
                    Err(e) => {
                        return Err(e);
                    },
                };
                buffer.consume(o.bytes_read);
                let compressed_bytes = compressed_bytes + o.bytes_read as u64;
                let ghost fed2 = fed@ + in_slice@.subrange(0, o.bytes_read as int);
                let ghost emitted2 = emitted@ + out@.subrange(0, o.bytes_written as int);
                if o.bytes_written == 0 && compressed_bytes == e_compressed_size {
                    // all payload fed and nothing more comes out: the data
                    // phase is over
                    let file_data_end = data_start.wrapping_add(compressed_bytes);
                    match &mut parsed_ranges {
                        Some(pr) => {
                            let name = match &entry {
                                Some(e) => e.name.clone(),
                                None => String::new(),
                            };
                            pr.insert_range(
                                data_start,
                                file_data_end,
                                RangeKind::FileData,
                                Some(name),
                            );
                        },
                        None => {},
                    }
                    match &mut decompressor {
                        AnyDecompressor::Aex(aex_dec) => {
                            aex_data = aex_dec.take_aex_data();
                        },
                        _ => {},
                    }
                    let metrics = EntryReadMetrics {
                        uncompressed_size: uncompressed_bytes,
                        crc32: hasher_finalize(hasher),
                    };
                    let next_state = if has_data_descriptor {
                        State::ReadDataDescriptor {
                            is_zip64,
                            metrics,
                            data_descriptor_start: file_data_end,
                            fed: Ghost(fed2),
                            emitted: Ghost(emitted2),
                        }
                    } else {
                        State::Validate {
                            metrics,
                            descriptor: None,
                            fed: Ghost(fed2),
                            emitted: Ghost(emitted2),
                        }
                    };
                    let fsm = EntryFsm {
                        state: next_state,
                        entry,
                        local_header,
                        buffer,
                        parsed_ranges,
                        aex_data,
                    };
                    proof {
                        assert(emitted2 =~= emitted@);
                    }
                    let ghost mid = fsm;
                    let r2 = fsm.process(out);
                    proof {
                        // the file-data region this turn journaled stays
                        // right after the caller's regions, whatever the
                        // descriptor stage appends behind it
                        match &r2 {
                            Ok(FsmResult::Done(d)) => {
                                match (&self0.parsed_ranges, &mid.parsed_ranges, &d.parsed_ranges) {
                                    (Some(pr0), Some(pr1), Some(pr)) => {
                                        assert(pr1@.subrange(0, pr0@.len() as int) =~= pr0@);
                                        assert(pr@.subrange(0, pr0@.len() as int) =~= pr0@);
                                        assert(pr@[pr0@.len() as int] == pr1@[pr0@.len() as int]);
                                    },
                                    _ => {},
                                }
                            },
                            _ => {},
                        }
                    }
                    return r2;
                } else if o.bytes_written == 0 && o.bytes_read == 0 && bytes_fed_this_turn == 0 {
                    // a turn with nothing to feed and nothing to write is a
                    // driver bug
                    return Err(Error::Io(IoError::NoProgress));
                }
                let out_written = vstd::slice::slice_subrange(out, 0, o.bytes_written);
                hasher_update(&mut hasher, out_written);
                let uncompressed_bytes = uncompressed_bytes + o.bytes_written as u64;
                proof {
                    match decompressor {
                        AnyDecompressor::Store(_) => {
                            assert(emitted2 =~= fed2);
                        },
                        _ => {},
                    }
                }
                let fsm = EntryFsm {
                    state: State::ReadData {
                        has_data_descriptor,
                        is_zip64,
                        compressed_bytes,
                        uncompressed_bytes,
                        hasher,
                        decompressor,
                        data_start,
                        fed: Ghost(fed2),
                        emitted: Ghost(emitted2),
                    },
                    entry,
                    local_header,
                    buffer,
                    parsed_ranges,
                    aex_data,
                };
                Ok(FsmResult::Continue((fsm, o)))
            },
            State::ReadDataDescriptor { is_zip64, metrics, data_descriptor_start, fed, emitted } => {
                let data = buffer.data_to_vec();
                match parse_data_descriptor(data.as_slice(), 0, is_zip64) {
                    Parsed::Complete(descriptor, consumed) => {
                        buffer.consume(consumed);
                        match &mut parsed_ranges {
                            Some(pr) => {
                                let name = match &entry {
                                    Some(e) => e.name.clone(),
                                    None => String::new(),
                                };
                                pr.insert_range(
                                    data_descriptor_start,
                                    data_descriptor_start.wrapping_add(consumed as u64),
                                    RangeKind::DataDescriptor,
                                    Some(name),
                                );
                            },
                            None => {},
                        }
                        let fsm = EntryFsm {
                            state: State::Validate {
                                metrics,
                                descriptor: Some(descriptor),
                                fed,
                                emitted,
                            },
                            entry,
                            local_header,
                            buffer,
                            parsed_ranges,
                            aex_data,
                        };
                        fsm.process(out)
                    },
                    Parsed::Incomplete => {
                        let fsm = EntryFsm {
                            state: State::ReadDataDescriptor {
                                is_zip64,
                                metrics,
                                data_descriptor_start,
                                fed,
                                emitted,
                            },
                            entry,
                            local_header,
                            buffer,
                            parsed_ranges,
                            aex_data,
                        };
                        proof {
                            assert(fsm.emitted_seq() =~= fsm.emitted_seq() + out@.subrange(
                                0,
                                0,
                            ));
                        }
                        Ok(
                            FsmResult::Continue(
                                (fsm, DecompressOutcome { bytes_read: 0, bytes_written: 0 }),
                            ),
                        )
                    },
                    Parsed::Invalid => Err(Error::Format(FormatError::InvalidDataDescriptor)),
                }
            },
            State::Validate { metrics, descriptor, fed, emitted } => {
                let e = match &entry {
                    Some(e) => e,
                    // a machine cannot reach validation without an entry
                    None => vstd::pervasive::unreached(),
                };
                let expected_crc32 = if e.crc32 != 0 {
                    e.crc32
                } else {
                    match &descriptor {
                        Some(d) => d.crc32,
                        None => 0,
                    }
                };
                let aex_absent = match &e.aex {
                    Some(_) => false,
                    None => true,
                };
                // an AE-x payload is ciphertext: its size and checksum
                // cannot match the plaintext declaration, so both checks
                // are skipped
                if e.uncompressed_size != metrics.uncompressed_size && aex_absent {
                    return Err(
                        Error::Format(
                            FormatError::WrongSize {
                                expected: e.uncompressed_size,
                                actual: metrics.uncompressed_size,
                            },
                        ),
                    );
                }
                if expected_crc32 != 0 && expected_crc32 != metrics.crc32 && aex_absent {
                    return Err(
                        Error::Format(
                            FormatError::WrongChecksum {
                                expected: expected_crc32,
                                actual: metrics.crc32,
                            },
                        ),
                    );
                }
                Ok(
                    FsmResult::Done(
                        EntryDone { buffer, local_header, aex_data, parsed_ranges },
                    ),
                )
            },
        }
    }
}

} // verus!
