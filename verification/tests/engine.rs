//! End-to-end tests driving the state machines over synthetic archives.


use ziplinter::archive::Archive;
use ziplinter::drive::{parse_archive, read_entry};
use ziplinter::error::{EncodingError, Error, FormatError, IoError, UnsupportedError};
use ziplinter::method::Method;
use ziplinter::ranges::RangeKind;

/// Unwraps the error of a result whose success value has no equality.
fn expect_err<T>(r: Result<T, Error>) -> Error {
    match r {
        Err(e) => e,
        Ok(_) => panic!("expected an error"),
    }
}


/// Little-endian helpers.
fn le16(v: u16) -> Vec<u8> {
    v.to_le_bytes().to_vec()
}

fn le32(v: u32) -> Vec<u8> {
    v.to_le_bytes().to_vec()
}

fn le64(v: u64) -> Vec<u8> {
    v.to_le_bytes().to_vec()
}

struct EntrySpec {
    name: Vec<u8>,
    payload: Vec<u8>,
    method: u16,
    crc32: u32,
    uncompressed_size: u32,
    flags: u16,
    extra_local: Vec<u8>,
    extra_central: Vec<u8>,
    trailer: Vec<u8>,
}

impl EntrySpec {
    fn store(name: &str, payload: &[u8]) -> EntrySpec {
        EntrySpec {
            name: name.as_bytes().to_vec(),
            payload: payload.to_vec(),
            method: 0,
            crc32: crc32fast::hash(payload),
            uncompressed_size: payload.len() as u32,
            flags: 0,
            extra_local: Vec::new(),
            extra_central: Vec::new(),
            trailer: Vec::new(),
        }
    }
}

/// Builds a classic archive from entry descriptions and an archive
/// comment.
fn build_archive(entries: &[EntrySpec], comment: &[u8], records_override: Option<u16>) -> Vec<u8> {
    let mut out: Vec<u8> = Vec::new();
    let mut offsets: Vec<u32> = Vec::new();
    for e in entries {
        offsets.push(out.len() as u32);
        out.extend_from_slice(&[0x50, 0x4b, 0x03, 0x04]);
        out.extend_from_slice(&le16(20)); // reader version
        out.extend_from_slice(&le16(e.flags));
        out.extend_from_slice(&le16(e.method));
        out.extend_from_slice(&le16(0)); // dos time
        out.extend_from_slice(&le16(0x5821)); // dos date 2024-01-01
        if e.flags & 8 != 0 {
            out.extend_from_slice(&le32(0));
            out.extend_from_slice(&le32(0));
            out.extend_from_slice(&le32(0));
        } else {
            out.extend_from_slice(&le32(e.crc32));
            out.extend_from_slice(&le32(e.payload.len() as u32));
            out.extend_from_slice(&le32(e.uncompressed_size));
        }
        out.extend_from_slice(&le16(e.name.len() as u16));
        out.extend_from_slice(&le16(e.extra_local.len() as u16));
        out.extend_from_slice(&e.name);
        out.extend_from_slice(&e.extra_local);
        out.extend_from_slice(&e.payload);
        out.extend_from_slice(&e.trailer);
    }
    let dir_offset = out.len() as u32;
    for (e, off) in entries.iter().zip(offsets.iter()) {
        out.extend_from_slice(&[0x50, 0x4b, 0x01, 0x02]);
        out.extend_from_slice(&le16(20)); // creator: msdos host, version 20
        out.extend_from_slice(&le16(20)); // reader version
        out.extend_from_slice(&le16(e.flags));
        out.extend_from_slice(&le16(e.method));
        out.extend_from_slice(&le16(0));
        out.extend_from_slice(&le16(0x5821));
        out.extend_from_slice(&le32(e.crc32));
        out.extend_from_slice(&le32(e.payload.len() as u32));
        out.extend_from_slice(&le32(e.uncompressed_size));
        out.extend_from_slice(&le16(e.name.len() as u16));
        out.extend_from_slice(&le16(e.extra_central.len() as u16));
        out.extend_from_slice(&le16(0)); // comment len
        out.extend_from_slice(&le16(0)); // disk nbr start
        out.extend_from_slice(&le16(0)); // internal attrs
        out.extend_from_slice(&le32(0)); // external attrs
        out.extend_from_slice(&le32(*off));
        out.extend_from_slice(&e.name);
        out.extend_from_slice(&e.extra_central);
    }
    let dir_size = out.len() as u32 - dir_offset;
    let records = records_override.unwrap_or(entries.len() as u16);
    out.extend_from_slice(&[0x50, 0x4b, 0x05, 0x06]);
    out.extend_from_slice(&le16(0));
    out.extend_from_slice(&le16(0));
    out.extend_from_slice(&le16(records));
    out.extend_from_slice(&le16(records));
    out.extend_from_slice(&le32(dir_size));
    out.extend_from_slice(&le32(dir_offset));
    out.extend_from_slice(&le16(comment.len() as u16));
    out.extend_from_slice(comment);
    out
}

fn parse_ok(data: &Vec<u8>) -> Archive {
    match parse_archive(data) {
        Ok(a) => a,
        Err(e) => panic!("expected a successful parse, got {:?}", e),
    }
}

#[test]
fn single_store_entry_round_trips() {
    let data = build_archive(&[EntrySpec::store("a.txt", b"hello\n")], b"", None);
    let archive = parse_ok(&data);
    assert_eq!(archive.entries.len(), 1);
    assert_eq!(archive.entries[0].name, "a.txt");
    assert_eq!(archive.entries[0].uncompressed_size, 6);
    assert_eq!(archive.entries[0].crc32, 0x363A3020);
    assert_eq!(archive.entries[0].method, Method::Store);
    assert_eq!(archive.entries.len(), archive.directory_headers.len());
    assert_eq!(
        archive.entries.len() as u16,
        archive.eocd.directory_records() as u16
    );
    let out = read_entry(&data, archive.entries[0].clone(), None).unwrap();
    assert_eq!(out.bytes, b"hello\n".to_vec());
    assert!(out.local_header.is_some());
}

#[test]
fn two_store_entries_and_their_ranges() {
    let data = build_archive(
        &[
            EntrySpec::store("a.txt", b"hello"),
            EntrySpec::store("b/c.txt", b"world"),
        ],
        b"",
        None,
    );
    let archive = parse_ok(&data);
    assert_eq!(archive.entries.len(), 2);
    assert_eq!(archive.entries[0].name, "a.txt");
    assert_eq!(archive.entries[1].name, "b/c.txt");
    let out0 = read_entry(&data, archive.entries[0].clone(), Some(archive.parsed_ranges.clone()))
        .unwrap();
    assert_eq!(out0.bytes, b"hello".to_vec());
    let ranges = out0.parsed_ranges.unwrap();
    let out1 = read_entry(&data, archive.entries[1].clone(), Some(ranges)).unwrap();
    assert_eq!(out1.bytes, b"world".to_vec());
    let ranges = out1.parsed_ranges.unwrap();
    let count = |kind: RangeKind| ranges.0.iter().filter(|r| r.contains == kind).count();
    assert_eq!(count(RangeKind::EndOfCentralDirectoryRecord), 1);
    assert_eq!(count(RangeKind::CentralDirectoryHeader), 2);
    assert_eq!(count(RangeKind::LocalFileHeader), 2);
    assert_eq!(count(RangeKind::FileData), 2);
    for r in ranges.0.iter() {
        assert!(r.start < r.end && r.end <= data.len() as u64);
    }
}

#[test]
fn eocd_found_past_signature_in_comment() {
    // the comment itself contains the EOCD signature bytes followed by junk
    let mut comment: Vec<u8> = Vec::new();
    comment.extend_from_slice(b"before ");
    comment.extend_from_slice(&[0x50, 0x4b, 0x05, 0x06]);
    comment.extend_from_slice(b" junk junk junk");
    let data = build_archive(&[EntrySpec::store("a.txt", b"x")], &comment, None);
    let archive = parse_ok(&data);
    assert_eq!(archive.comment.as_bytes(), &comment[..]);
    // the real record stands at the end, past the red herring
    let eocd_len = 22 + comment.len() as u64;
    assert_eq!(archive.eocd.dir.offset, data.len() as u64 - eocd_len);
}

#[test]
fn empty_archive_parses() {
    let data = build_archive(&[], b"", None);
    let archive = parse_ok(&data);
    assert_eq!(archive.entries.len(), 0);
    assert_eq!(archive.comment, "");
}

#[test]
fn missing_eocd_signature_is_reported() {
    let data: Vec<u8> = vec![0u8; 64];
    assert_eq!(expect_err(parse_archive(&data)), Error::Format(FormatError::DirectoryEndSignatureNotFound));
}

#[test]
fn record_count_mismatch_is_reported() {
    let data = build_archive(&[EntrySpec::store("a.txt", b"x")], b"", Some(5));
    assert_eq!(expect_err(parse_archive(&data)), Error::Format(FormatError::InvalidCentralRecord { expected: 1, actual: 5 }));
}

#[test]
fn sixty_five_thousand_entries_do_not_trip_the_count_check() {
    // 65535 entries fit the 16-bit count exactly; the check must pass
    let mut entries = Vec::new();
    for _ in 0..65535 {
        entries.push(EntrySpec {
            name: Vec::new(),
            payload: Vec::new(),
            method: 0,
            crc32: 0,
            uncompressed_size: 0,
            flags: 0x800,
            extra_local: Vec::new(),
            extra_central: Vec::new(),
            trailer: Vec::new(),
        });
    }
    let data = build_archive(&entries, b"", None);
    let archive = parse_ok(&data);
    assert_eq!(archive.entries.len(), 65535);
}

#[test]
fn truncated_central_directory_reports_eof() {
    // a central header signature with too few bytes behind it
    let mut data: Vec<u8> = Vec::new();
    data.extend_from_slice(&[0x50, 0x4b, 0x01, 0x02]);
    data.extend_from_slice(&[0u8; 10]);
    let dir_size = data.len() as u32;
    data.extend_from_slice(&[0x50, 0x4b, 0x05, 0x06]);
    data.extend_from_slice(&le16(0));
    data.extend_from_slice(&le16(0));
    data.extend_from_slice(&le16(1));
    data.extend_from_slice(&le16(1));
    data.extend_from_slice(&le32(dir_size));
    data.extend_from_slice(&le32(0));
    data.extend_from_slice(&le16(0));
    assert_eq!(expect_err(parse_archive(&data)), Error::Io(IoError::UnexpectedEof));
}

#[test]
fn directory_offset_outside_file_is_reported() {
    // a directory claimed far outside the file, with a directory size that
    // leaves no plausible position inside it either
    let mut data: Vec<u8> = vec![0u8; 10];
    data.extend_from_slice(&[0x50, 0x4b, 0x05, 0x06]);
    data.extend_from_slice(&le16(0));
    data.extend_from_slice(&le16(0));
    data.extend_from_slice(&le16(0));
    data.extend_from_slice(&le16(0));
    data.extend_from_slice(&le32(0xFFFF_FFF0)); // directory size
    data.extend_from_slice(&le32(0xFFFF_FF00)); // directory offset
    data.extend_from_slice(&le16(0));
    assert_eq!(expect_err(parse_archive(&data)), Error::Format(FormatError::DirectoryOffsetPointsOutsideFile));
}

#[test]
fn invalid_utf8_name_is_reported() {
    let mut e = EntrySpec::store("", b"x");
    e.name = vec![0xFF, 0xFE];
    e.flags = 0x800; // names declared UTF-8, but this one is not
    let data = build_archive(&[e], b"", None);
    assert_eq!(expect_err(parse_archive(&data)), Error::Encoding(EncodingError::InvalidUtf8));
}

#[test]
fn zip64_archive_parses_through_the_locator() {
    // one store entry whose sizes defer to the zip64 extra field, with the
    // zip64 end record and locator between the directory and the end record
    let payload = b"zip64 payload";
    let crc = crc32fast::hash(payload);
    let mut zip64_extra: Vec<u8> = Vec::new();
    zip64_extra.extend_from_slice(&le16(0x0001));
    zip64_extra.extend_from_slice(&le16(16));
    zip64_extra.extend_from_slice(&le64(payload.len() as u64)); // uncompressed
    zip64_extra.extend_from_slice(&le64(payload.len() as u64)); // compressed

    let mut data: Vec<u8> = Vec::new();
    // local header
    data.extend_from_slice(&[0x50, 0x4b, 0x03, 0x04]);
    data.extend_from_slice(&le16(45));
    data.extend_from_slice(&le16(0));
    data.extend_from_slice(&le16(0));
    data.extend_from_slice(&le16(0));
    data.extend_from_slice(&le16(0x5821));
    data.extend_from_slice(&le32(crc));
    data.extend_from_slice(&le32(payload.len() as u32));
    data.extend_from_slice(&le32(payload.len() as u32));
    data.extend_from_slice(&le16(5));
    data.extend_from_slice(&le16(0));
    data.extend_from_slice(b"big.b");
    data.extend_from_slice(payload);
    // central directory
    let dir_offset = data.len() as u64;
    data.extend_from_slice(&[0x50, 0x4b, 0x01, 0x02]);
    data.extend_from_slice(&le16(45));
    data.extend_from_slice(&le16(45));
    data.extend_from_slice(&le16(0));
    data.extend_from_slice(&le16(0));
    data.extend_from_slice(&le16(0));
    data.extend_from_slice(&le16(0x5821));
    data.extend_from_slice(&le32(crc));
    data.extend_from_slice(&le32(0xFFFF_FFFF));
    data.extend_from_slice(&le32(0xFFFF_FFFF));
    data.extend_from_slice(&le16(5));
    data.extend_from_slice(&le16(zip64_extra.len() as u16));
    data.extend_from_slice(&le16(0));
    data.extend_from_slice(&le16(0));
    data.extend_from_slice(&le16(0));
    data.extend_from_slice(&le32(0));
    data.extend_from_slice(&le32(0)); // header offset
    data.extend_from_slice(b"big.b");
    data.extend_from_slice(&zip64_extra);
    let dir_size = data.len() as u64 - dir_offset;
    // zip64 end of central directory record
    let eocd64_offset = data.len() as u64;
    data.extend_from_slice(&[0x50, 0x4b, 0x06, 0x06]);
    data.extend_from_slice(&le64(44));
    data.extend_from_slice(&le16(45));
    data.extend_from_slice(&le16(45));
    data.extend_from_slice(&le32(0));
    data.extend_from_slice(&le32(0));
    data.extend_from_slice(&le64(1));
    data.extend_from_slice(&le64(1));
    data.extend_from_slice(&le64(dir_size));
    data.extend_from_slice(&le64(dir_offset));
    // locator
    data.extend_from_slice(&[0x50, 0x4b, 0x06, 0x07]);
    data.extend_from_slice(&le32(0));
    data.extend_from_slice(&le64(eocd64_offset));
    data.extend_from_slice(&le32(1));
    // classic end record
    data.extend_from_slice(&[0x50, 0x4b, 0x05, 0x06]);
    data.extend_from_slice(&le16(0));
    data.extend_from_slice(&le16(0));
    data.extend_from_slice(&le16(1));
    data.extend_from_slice(&le16(1));
    data.extend_from_slice(&le32(dir_size as u32));
    data.extend_from_slice(&le32(dir_offset as u32));
    data.extend_from_slice(&le16(0));

    let archive = parse_ok(&data);
    assert!(archive.eocd.dir64.is_some());
    assert_eq!(archive.entries.len(), 1);
    assert_eq!(archive.entries[0].compressed_size, payload.len() as u64);
    assert_eq!(archive.entries[0].uncompressed_size, payload.len() as u64);
    let kinds: Vec<RangeKind> = archive.parsed_ranges.0.iter().map(|r| r.contains).collect();
    assert!(kinds.contains(&RangeKind::Zip64EndOfCentralDirectoryLocator));
    assert!(kinds.contains(&RangeKind::Zip64EndOfCentralDirectoryRecord));
    let out = read_entry(&data, archive.entries[0].clone(), None).unwrap();
    assert_eq!(out.bytes, payload.to_vec());
}

#[test]
fn corrupt_zip64_record_is_fatal() {
    // a locator stands before the end record, but it points at bytes that
    // are no zip64 end record
    let mut data: Vec<u8> = vec![0u8; 8];
    data.extend_from_slice(&[0x50, 0x4b, 0x06, 0x07]);
    data.extend_from_slice(&le32(0));
    data.extend_from_slice(&le64(0)); // points at the zero bytes
    data.extend_from_slice(&le32(1));
    data.extend_from_slice(&[0x50, 0x4b, 0x05, 0x06]);
    data.extend_from_slice(&le16(0));
    data.extend_from_slice(&le16(0));
    data.extend_from_slice(&le16(0));
    data.extend_from_slice(&le16(0));
    data.extend_from_slice(&le32(0));
    data.extend_from_slice(&le32(0));
    data.extend_from_slice(&le16(0));
    assert_eq!(expect_err(parse_archive(&data)), Error::Format(FormatError::Directory64EndRecordInvalid));
}

#[test]
fn kana_names_detect_as_shift_jis() {
    // a Japanese phrase in Shift-JIS; its trail bytes overlap the CP 437
    // box-drawing range, so the Shift-JIS guess must be believed
    let phrase = "\u{65B0}\u{3057}\u{3044}\u{30D5}\u{30A9}\u{30EB}\u{30C0}";
    let (encoded, _, _) = encoding_rs::SHIFT_JIS.encode(phrase);
    let mut name: Vec<u8> = Vec::new();
    for _ in 0..4 {
        name.extend_from_slice(&encoded);
    }
    let mut e = EntrySpec::store("", b"x");
    e.name = name;
    let data = build_archive(&[e], b"", None);
    let archive = parse_ok(&data);
    assert_eq!(archive.encoding, ziplinter::encoding::Encoding::ShiftJis);
    assert_eq!(archive.entries[0].name, phrase.repeat(4));
}

#[test]
fn prefixed_archive_adjusts_every_offset() {
    // a self-extractor-style prefix: the stored offsets are short by the
    // prefix length, and the machine corrects them from where the records
    // really stood
    let inner = build_archive(&[EntrySpec::store("p.txt", b"prefixed!")], b"", None);
    let mut data: Vec<u8> = vec![0xEEu8; 64];
    data.extend_from_slice(&inner);
    let archive = parse_ok(&data);
    assert_eq!(archive.eocd.global_offset, 64);
    assert_eq!(archive.entries[0].header_offset, 64);
    let out = read_entry(&data, archive.entries[0].clone(), None).unwrap();
    assert_eq!(out.bytes, b"prefixed!".to_vec());
}

#[test]
fn cp437_names_fall_back_without_lead_bytes() {
    // a name of pure box-drawing bytes is either kept as CP 437 outright
    // or demoted to it from a Shift-JIS guess; either way the entry name
    // decodes through the CP 437 table
    let mut e = EntrySpec::store("", b"x");
    e.name = vec![0xC9, 0xCD, 0xCD, 0xBB]; // double-line box corners
    let data = build_archive(&[e], b"", None);
    let archive = parse_ok(&data);
    assert_ne!(archive.encoding, ziplinter::encoding::Encoding::Utf8);
    if archive.encoding == ziplinter::encoding::Encoding::Cp437 {
        assert_eq!(archive.entries[0].name, "\u{2554}\u{2550}\u{2550}\u{2557}");
    }
}
