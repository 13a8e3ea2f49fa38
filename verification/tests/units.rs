//! Unit tests of the decoders, conversions and small building blocks.

use ziplinter::buffer::Buffer;
use ziplinter::encoding::{encoding_decision, Encoding};
use ziplinter::encoding::DetectorGuess as G;
use ziplinter::entry::{dos_to_epoch, ntfs_to_epoch};
use ziplinter::eocd::{EndOfCentralDirectory, Located};
use ziplinter::error::{Error, FormatError};
use ziplinter::method::Method;
use ziplinter::ranges::{ParsedRanges, RangeKind};
use ziplinter::records::{EndOfCentralDirectoryRecord, MsdosTimestamp};

#[test]
fn cp437_decodes_ascii_and_high_glyphs() {
    let s = ziplinter::encoding::decode_cp437(b"abc");
    assert_eq!(s, "abc");
    // 0x80 is the C-cedilla glyph, 0xB0 a shade block, 0xFF a non-breaking
    // space
    let s = ziplinter::encoding::decode_cp437(&[0x80, 0xB0, 0xFF]);
    assert_eq!(s, "\u{00C7}\u{2591}\u{00A0}");
}

#[test]
fn utf8_decoding_accepts_exactly_valid_utf8() {
    let s = ziplinter::encoding::utf8_to_string("héllo".as_bytes()).unwrap();
    assert_eq!(s, "héllo");
    assert!(ziplinter::encoding::utf8_to_string(&[0xFF, 0xFE]).is_none());
}

#[test]
fn shift_jis_names_decode_to_kana() {
    // 0x83 0x65 is the katakana TE in Shift-JIS
    let r = Encoding::ShiftJis.decode(&[0x83, 0x65]).unwrap();
    assert_eq!(r, "\u{30C6}");
}

#[test]
fn encoding_decision_follows_the_cp437_heuristic() {
    // every name flagged UTF-8 wins outright
    assert_eq!(encoding_decision(true, G::ShiftJis, true), Encoding::Utf8);
    // a Shift-JIS guess holds only when lead-range bytes were seen
    assert_eq!(encoding_decision(false, G::ShiftJis, true), Encoding::ShiftJis);
    // otherwise the guess is a box-drawing false positive
    assert_eq!(encoding_decision(false, G::ShiftJis, false), Encoding::Cp437);
    assert_eq!(encoding_decision(false, G::Utf8, false), Encoding::Utf8);
    assert_eq!(encoding_decision(false, G::Other, true), Encoding::Cp437);
}

#[test]
fn method_codes_round_trip() {
    assert_eq!(Method::from_u16(0), Method::Store);
    assert_eq!(Method::from_u16(8), Method::Deflate);
    assert_eq!(Method::from_u16(9), Method::Deflate64);
    assert_eq!(Method::from_u16(12), Method::Bzip2);
    assert_eq!(Method::from_u16(14), Method::Lzma);
    assert_eq!(Method::from_u16(93), Method::Zstd);
    assert_eq!(Method::from_u16(99), Method::Aex);
    assert_eq!(Method::from_u16(4242), Method::Other(4242));
    assert_eq!(Method::from_u16(4242).to_u16(), 4242);
    assert_eq!(Method::Zstd.to_u16(), 93);
}

#[test]
fn range_kinds_have_stable_labels() {
    assert_eq!(
        RangeKind::EndOfCentralDirectoryRecord.label(),
        "end of central directory record"
    );
    assert_eq!(
        RangeKind::Zip64EndOfCentralDirectoryLocator.label(),
        "zip64 end of central directory locator"
    );
    assert_eq!(
        RangeKind::Zip64EndOfCentralDirectoryRecord.label(),
        "zip64 end of central directory record"
    );
    assert_eq!(RangeKind::CentralDirectoryHeader.label(), "central directory header");
    assert_eq!(RangeKind::LocalFileHeader.label(), "local file header");
    assert_eq!(RangeKind::FileData.label(), "file data");
    assert_eq!(RangeKind::DataDescriptor.label(), "data descriptor");
}

#[test]
fn encodings_have_stable_labels() {
    assert_eq!(Encoding::Utf8.label(), "utf-8");
    assert_eq!(Encoding::Cp437.label(), "cp437");
    assert_eq!(Encoding::ShiftJis.label(), "shift-jis");
}

#[test]
fn dos_timestamps_convert_to_unix_time() {
    // 2024-01-01 00:00:00 in MS-DOS form
    let ts = MsdosTimestamp { time: 0, date: 0x5821 };
    assert_eq!(dos_to_epoch(ts), Some(1_704_067_200));
    // 1980-01-01 00:00:01 (DOS stores two-second steps)
    let ts = MsdosTimestamp { time: 0, date: (0 << 9) | (1 << 5) | 1 };
    assert_eq!(dos_to_epoch(ts), Some(315_532_800));
    // a zeroed pair has month and day zero: no real date
    let ts = MsdosTimestamp { time: 0, date: 0 };
    assert_eq!(dos_to_epoch(ts), None);
}

#[test]
fn ntfs_timestamps_convert_to_unix_time() {
    // the unix epoch itself, in 100-nanosecond ticks since 1601
    assert_eq!(ntfs_to_epoch(116_444_736_000_000_000), 0);
    assert_eq!(ntfs_to_epoch(116_444_736_010_000_000), 1);
}

#[test]
fn parsed_ranges_append_in_order() {
    let mut a = ParsedRanges::new();
    a.insert_range(0, 4, RangeKind::LocalFileHeader, Some("x".to_string()));
    a.insert_offset_length(4, 6, RangeKind::FileData, None);
    let mut b = ParsedRanges::new();
    b.insert_range(10, 12, RangeKind::DataDescriptor, None);
    a.append(&mut b);
    assert_eq!(a.0.len(), 3);
    assert_eq!(b.0.len(), 0);
    assert_eq!(a.0[0].start, 0);
    assert_eq!(a.0[0].end, 4);
    assert_eq!(a.0[1].start, 4);
    assert_eq!(a.0[1].end, 10);
    assert_eq!(a.0[2].contains, RangeKind::DataDescriptor);
}

#[test]
fn buffer_tracks_fill_consume_and_shift() {
    let mut b = Buffer::with_capacity(8);
    assert_eq!(b.available_space(), 8);
    let n = b.fill(b"abcdef", 6);
    assert_eq!(n, 6);
    assert_eq!(b.available_data(), 6);
    assert_eq!(b.read_bytes(), 6);
    b.consume(4);
    assert_eq!(b.available_data(), 2);
    assert_eq!(b.available_space(), 2);
    b.shift();
    assert_eq!(b.available_space(), 6);
    assert_eq!(b.data_to_vec(), b"ef".to_vec());
    let n = b.fill(b"ghijklm", 7);
    assert_eq!(n, 6); // clamped by the free space
    assert_eq!(b.data_to_vec(), b"efghijkl".to_vec());
    assert_eq!(b.read_offset(100), 112);
    b.reset();
    assert_eq!(b.available_data(), 0);
    assert_eq!(b.read_bytes(), 0);
}

#[test]
fn implicit_prefix_adjusts_the_directory_offset() {
    // the end record claims the directory at offset 0, but it really ends
    // right before the record at offset 30: the archive carries a 10-byte
    // prefix
    let rec = EndOfCentralDirectoryRecord {
        disk_nbr: 0,
        dir_disk_nbr: 0,
        disk_records: 1,
        directory_records: 1,
        directory_size: 20,
        directory_offset: 0,
        comment: Vec::new(),
    };
    let eocd = EndOfCentralDirectory::new(100, Located { offset: 30, inner: rec }, None).unwrap();
    assert_eq!(eocd.directory_offset, 10);
    assert_eq!(eocd.global_offset, 10);
    assert_eq!(eocd.directory_records(), 1);
}

#[test]
fn hopeless_directory_offset_is_refused() {
    let rec = EndOfCentralDirectoryRecord {
        disk_nbr: 0,
        dir_disk_nbr: 0,
        disk_records: 1,
        directory_records: 1,
        directory_size: 0,
        directory_offset: 500,
        comment: Vec::new(),
    };
    // computed position equals the stored one, and both lie past the file
    match EndOfCentralDirectory::new(100, Located { offset: 500, inner: rec }, None) {
        Err(Error::Format(FormatError::DirectoryOffsetPointsOutsideFile)) => {},
        other => panic!("expected a refusal, got {:?}", other.map(|e| e.directory_offset)),
    }
}

#[test]
fn error_messages_name_the_problem() {
    let e = Error::Format(FormatError::DirectoryEndSignatureNotFound);
    assert!(e.message().contains("end of central directory"));
    let e = Error::Format(FormatError::WrongSize { expected: 2, actual: 1 });
    assert!(e.message().contains("size"));
}
