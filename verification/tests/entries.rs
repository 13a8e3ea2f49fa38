//! Tests of the per-entry machine: descriptors, AE-x, validation, and the
//! errors each kind of malformed entry earns.


use ziplinter::drive::{parse_archive, read_entry};
use ziplinter::entry_fsm::EntryFsm;
use ziplinter::error::{Error, FormatError, IoError, UnsupportedError};
use ziplinter::method::Method;
use ziplinter::report::{CentralDirectoryFileHeader, LocalFileHeader};

/// Unwraps the error of a result whose success value has no equality.
fn expect_err<T>(r: Result<T, Error>) -> Error {
    match r {
        Err(e) => e,
        Ok(_) => panic!("expected an error"),
    }
}


fn le16(v: u16) -> Vec<u8> {
    v.to_le_bytes().to_vec()
}

fn le32(v: u32) -> Vec<u8> {
    v.to_le_bytes().to_vec()
}

/// Builds a one-entry archive with full control over the stored fields.
#[allow(clippy::too_many_arguments)]
fn one_entry_archive(
    name: &[u8],
    payload: &[u8],
    method: u16,
    flags: u16,
    local_crc: u32,
    central_crc: u32,
    central_uncompressed: u32,
    extra: &[u8],
    trailer: &[u8],
) -> Vec<u8> {
    let mut out: Vec<u8> = Vec::new();
    out.extend_from_slice(&[0x50, 0x4b, 0x03, 0x04]);
    out.extend_from_slice(&le16(20));
    out.extend_from_slice(&le16(flags));
    out.extend_from_slice(&le16(method));
    out.extend_from_slice(&le16(0));
    out.extend_from_slice(&le16(0x5821));
    if flags & 8 != 0 {
        out.extend_from_slice(&le32(0));
        out.extend_from_slice(&le32(0));
        out.extend_from_slice(&le32(0));
    } else {
        out.extend_from_slice(&le32(local_crc));
        out.extend_from_slice(&le32(payload.len() as u32));
        out.extend_from_slice(&le32(central_uncompressed));
    }
    out.extend_from_slice(&le16(name.len() as u16));
    out.extend_from_slice(&le16(extra.len() as u16));
    out.extend_from_slice(name);
    out.extend_from_slice(extra);
    out.extend_from_slice(payload);
    out.extend_from_slice(trailer);
    let dir_offset = out.len() as u32;
    out.extend_from_slice(&[0x50, 0x4b, 0x01, 0x02]);
    out.extend_from_slice(&le16(20));
    out.extend_from_slice(&le16(20));
    out.extend_from_slice(&le16(flags));
    out.extend_from_slice(&le16(method));
    out.extend_from_slice(&le16(0));
    out.extend_from_slice(&le16(0x5821));
    out.extend_from_slice(&le32(central_crc));
    out.extend_from_slice(&le32(payload.len() as u32));
    out.extend_from_slice(&le32(central_uncompressed));
    out.extend_from_slice(&le16(name.len() as u16));
    out.extend_from_slice(&le16(extra.len() as u16));
    out.extend_from_slice(&le16(0));
    out.extend_from_slice(&le16(0));
    out.extend_from_slice(&le16(0));
    out.extend_from_slice(&le32(0));
    out.extend_from_slice(&le32(0));
    out.extend_from_slice(name);
    out.extend_from_slice(extra);
    let dir_size = out.len() as u32 - dir_offset;
    out.extend_from_slice(&[0x50, 0x4b, 0x05, 0x06]);
    out.extend_from_slice(&le16(0));
    out.extend_from_slice(&le16(0));
    out.extend_from_slice(&le16(1));
    out.extend_from_slice(&le16(1));
    out.extend_from_slice(&le32(dir_size));
    out.extend_from_slice(&le32(dir_offset));
    out.extend_from_slice(&le16(0));
    out
}

fn aex_extra(mode: u8, original_method: u16) -> Vec<u8> {
    let mut e: Vec<u8> = Vec::new();
    e.extend_from_slice(&le16(0x9901));
    e.extend_from_slice(&le16(7));
    e.extend_from_slice(&le16(2)); // AE-2
    e.extend_from_slice(&le16(0x4541)); // "AE"
    e.push(mode);
    e.extend_from_slice(&le16(original_method));
    e
}

#[test]
fn data_descriptor_supplies_the_checksum() {
    // sizes and checksum deferred to the descriptor: the local header
    // stores zeros and the central record's checksum is zero too
    let payload = b"described data";
    let crc = crc32fast::hash(payload);
    let mut trailer: Vec<u8> = Vec::new();
    trailer.extend_from_slice(&[0x50, 0x4b, 0x07, 0x08]);
    trailer.extend_from_slice(&le32(crc));
    trailer.extend_from_slice(&le32(payload.len() as u32));
    trailer.extend_from_slice(&le32(payload.len() as u32));
    let data = one_entry_archive(
        b"d.txt",
        payload,
        0,
        8,
        0,
        0,
        payload.len() as u32,
        &[],
        &trailer,
    );
    let archive = parse_archive(&data).unwrap();
    assert_eq!(archive.entries[0].crc32, 0);
    let out = read_entry(&data, archive.entries[0].clone(), None).unwrap();
    assert_eq!(out.bytes, payload.to_vec());
}

#[test]
fn data_descriptor_checksum_mismatch_is_reported() {
    let payload = b"described data";
    let crc = crc32fast::hash(payload) ^ 0xDEAD_BEEF;
    let mut trailer: Vec<u8> = Vec::new();
    trailer.extend_from_slice(&[0x50, 0x4b, 0x07, 0x08]);
    trailer.extend_from_slice(&le32(crc));
    trailer.extend_from_slice(&le32(payload.len() as u32));
    trailer.extend_from_slice(&le32(payload.len() as u32));
    let data = one_entry_archive(
        b"d.txt",
        payload,
        0,
        8,
        0,
        0,
        payload.len() as u32,
        &[],
        &trailer,
    );
    let archive = parse_archive(&data).unwrap();
    match read_entry(&data, archive.entries[0].clone(), None) {
        Err(Error::Format(FormatError::WrongChecksum { expected, actual })) => {
            assert_eq!(expected, crc);
            assert_eq!(actual, crc32fast::hash(payload));
        },
        other => panic!("expected a checksum error, got {:?}", other.map(|_| ())),
    }
}

#[test]
fn wrong_size_is_reported_with_both_sizes() {
    // the central record declares 1000 bytes; the stored payload is 999
    let payload = vec![0x41u8; 999];
    let crc = crc32fast::hash(&payload);
    let data = one_entry_archive(b"s.txt", &payload, 0, 0, crc, crc, 1000, &[], &[]);
    let archive = parse_archive(&data).unwrap();
    assert_eq!(expect_err(read_entry(&data, archive.entries[0].clone(), None)), Error::Format(FormatError::WrongSize { expected: 1000, actual: 999 }));
}

#[test]
fn wrong_checksum_is_reported() {
    let payload = b"checksummed";
    let crc = crc32fast::hash(payload);
    let data = one_entry_archive(
        b"c.txt",
        payload,
        0,
        0,
        crc ^ 1,
        crc ^ 1,
        payload.len() as u32,
        &[],
        &[],
    );
    let archive = parse_archive(&data).unwrap();
    assert_eq!(expect_err(read_entry(&data, archive.entries[0].clone(), None)), Error::Format(FormatError::WrongChecksum { expected: crc ^ 1, actual: crc }));
}

#[test]
fn aex_entry_yields_salt_verifier_and_mac() {
    // AE-x mode 3: 16-byte salt, 2-byte verifier, ciphertext, 10-byte MAC
    let mut payload: Vec<u8> = Vec::new();
    payload.extend_from_slice(&[0x11u8; 16]); // salt
    payload.extend_from_slice(&[0x22, 0x33]); // verifier
    payload.extend_from_slice(b"ciphertextciphertext");
    payload.extend_from_slice(&[0x44u8; 10]); // authentication code
    let extra = aex_extra(3, 0);
    // AE-2 zeroes the checksum; sizes cannot match the plaintext and are
    // not checked for encrypted entries
    let data = one_entry_archive(b"e.bin", &payload, 99, 0, 0, 0, 12345, &extra, &[]);
    let archive = parse_archive(&data).unwrap();
    let entry = &archive.entries[0];
    assert_eq!(entry.method, Method::Aex);
    let aex = entry.aex.expect("the AE-x extra field must be parsed");
    assert_eq!(aex.mode, 3);
    assert_eq!(aex.vendor_id, 0x4541);
    let out = read_entry(&data, entry.clone(), None).unwrap();
    let side = out.aex_data.expect("an AE-x entry must yield its side data");
    assert_eq!(side.salt_value, vec![0x11u8; 16]);
    assert_eq!(side.password_verification_value, vec![0x22, 0x33]);
    assert_eq!(side.authentication_code, vec![0x44u8; 10]);
}

#[test]
fn aex_mode_sets_salt_size() {
    // mode 1 gives an 8-byte salt
    let mut payload: Vec<u8> = Vec::new();
    payload.extend_from_slice(&[0x11u8; 8]);
    payload.extend_from_slice(&[0x22, 0x33]);
    payload.extend_from_slice(b"ct");
    payload.extend_from_slice(&[0x44u8; 10]);
    let extra = aex_extra(1, 0);
    let data = one_entry_archive(b"e.bin", &payload, 99, 0, 0, 0, 0, &extra, &[]);
    let archive = parse_archive(&data).unwrap();
    let out = read_entry(&data, archive.entries[0].clone(), None).unwrap();
    let side = out.aex_data.unwrap();
    assert_eq!(side.salt_value.len(), 8);
}

#[test]
fn aex_with_unknown_mode_is_a_format_error() {
    let payload = vec![0u8; 40];
    let extra = aex_extra(9, 0);
    let data = one_entry_archive(b"e.bin", &payload, 99, 0, 0, 0, 0, &extra, &[]);
    let archive = parse_archive(&data).unwrap();
    assert_eq!(expect_err(read_entry(&data, archive.entries[0].clone(), None)), Error::Format(FormatError::InvalidExtraField));
}

#[test]
fn unsupported_method_is_refused_when_the_machine_is_made() {
    let payload = b"x";
    let data = one_entry_archive(b"u.bin", payload, 77, 0, 0, 0, 1, &[], &[]);
    let archive = parse_archive(&data).unwrap();
    let entry = archive.entries[0].clone();
    assert_eq!(entry.method, Method::Other(77));
    // the refusal comes from the constructor, before any byte is fed
    match EntryFsm::new(Some(entry), None, None) {
        Err(Error::Unsupported(UnsupportedError::MethodNotSupported(Method::Other(77)))) => {},
        other => panic!("expected an early refusal, got {:?}", other.map(|_| ())),
    }
}

#[test]
fn compiled_out_codec_is_reported_as_not_enabled() {
    let payload = b"\x05";
    let data = one_entry_archive(b"d.bin", payload, 8, 0, 0, 0, 1, &[], &[]);
    let archive = parse_archive(&data).unwrap();
    assert_eq!(expect_err(read_entry(&data, archive.entries[0].clone(), None)), Error::Unsupported(UnsupportedError::MethodNotEnabled(Method::Deflate)));
}

#[test]
fn garbage_at_header_offset_is_an_invalid_local_header() {
    let payload = b"x";
    let data = one_entry_archive(b"g.txt", payload, 0, 0, 0, 0, 1, &[], &[]);
    let archive = parse_archive(&data).unwrap();
    let mut entry = archive.entries[0].clone();
    entry.header_offset = 10; // points into the middle of the header
    assert_eq!(expect_err(read_entry(&data, entry, None)), Error::Format(FormatError::InvalidLocalHeader));
}

#[test]
fn entry_past_end_of_data_makes_no_progress() {
    let payload = b"x";
    let data = one_entry_archive(b"p.txt", payload, 0, 0, 0, 0, 1, &[], &[]);
    let archive = parse_archive(&data).unwrap();
    let mut entry = archive.entries[0].clone();
    entry.header_offset = data.len() as u64 + 100;
    assert_eq!(expect_err(read_entry(&data, entry, None)), Error::Io(IoError::NoProgress));
}

#[test]
fn zip64_sizes_widen_in_the_local_header_too() {
    // the local header may defer to its own zip64 extra field
    let payload = b"wide";
    let crc = crc32fast::hash(payload);
    let mut extra: Vec<u8> = Vec::new();
    extra.extend_from_slice(&le16(0x0001));
    extra.extend_from_slice(&le16(16));
    extra.extend_from_slice(&(payload.len() as u64).to_le_bytes());
    extra.extend_from_slice(&(payload.len() as u64).to_le_bytes());
    let mut data: Vec<u8> = Vec::new();
    data.extend_from_slice(&[0x50, 0x4b, 0x03, 0x04]);
    data.extend_from_slice(&le16(45));
    data.extend_from_slice(&le16(0));
    data.extend_from_slice(&le16(0));
    data.extend_from_slice(&le16(0));
    data.extend_from_slice(&le16(0x5821));
    data.extend_from_slice(&le32(crc));
    data.extend_from_slice(&le32(0xFFFF_FFFF));
    data.extend_from_slice(&le32(0xFFFF_FFFF));
    data.extend_from_slice(&le16(5));
    data.extend_from_slice(&le16(extra.len() as u16));
    data.extend_from_slice(b"w.bin");
    data.extend_from_slice(&extra);
    data.extend_from_slice(payload);
    let mut fsm = EntryFsm::new(None, None, None).unwrap();
    let mut out = vec![0u8; 256];
    let mut collected: Vec<u8> = Vec::new();
    let mut cursor = 0usize;
    let header = loop {
        if fsm.wants_read() {
            cursor += fsm.fill(&data[cursor..]);
        }
        match fsm.process(&mut out).unwrap() {
            ziplinter::fsm::FsmResult::Continue((f, o)) => {
                collected.extend_from_slice(&out[..o.bytes_written]);
                fsm = f;
            },
            ziplinter::fsm::FsmResult::Done(d) => break d,
        }
    };
    assert_eq!(collected, payload.to_vec());
    let lh = header.local_header.unwrap();
    assert_eq!(lh.compressed_size, 0xFFFF_FFFF);
    assert_eq!(lh.uncompressed_size, 0xFFFF_FFFF);
}

#[test]
fn process_till_header_exposes_the_entry() {
    let payload = b"peek";
    let crc = crc32fast::hash(payload);
    let data = one_entry_archive(b"peek.txt", payload, 0, 0, crc, crc, 4, &[], &[]);
    let mut fsm = EntryFsm::new(None, None, None).unwrap();
    fsm.fill(&data);
    let entry = fsm.process_till_header().unwrap().expect("the header is fully buffered");
    assert_eq!(entry.name, "peek.txt");
    assert_eq!(entry.method, Method::Store);
    assert_eq!(entry.compressed_size, 4);
}

#[test]
fn report_headers_flatten_the_records() {
    let payload = b"flat";
    let crc = crc32fast::hash(payload);
    let data = one_entry_archive(b"f.txt", payload, 0, 0, crc, crc, 4, &[], &[]);
    let archive = parse_archive(&data).unwrap();
    let flat = CentralDirectoryFileHeader::from_rc_zip(
        &archive.directory_headers[0],
        &archive.entries[0],
    );
    assert_eq!(flat.name, "f.txt");
    assert_eq!(flat.method, Method::Store);
    assert_eq!(flat.crc32, crc);
    assert_eq!(flat.uncompressed_size, 4);

    let out = read_entry(&data, archive.entries[0].clone(), None).unwrap();
    let local = LocalFileHeader::from_rc_zip(&out.local_header.unwrap(), out.aex_data).unwrap();
    assert_eq!(local.name, "f.txt");
    assert_eq!(local.crc32, crc);
    assert_eq!(local.compressed_size, 4);
    assert!(local.aex.is_none());
}

#[test]
fn extra_fields_populate_timestamps_and_ownership() {
    // an extended-timestamp field and a new-unix field on the central
    // record
    let mut extra: Vec<u8> = Vec::new();
    extra.extend_from_slice(&le16(0x5455)); // extended timestamp
    extra.extend_from_slice(&le16(5));
    extra.push(1); // modification time present
    extra.extend_from_slice(&le32(1_700_000_000));
    extra.extend_from_slice(&le16(0x7875)); // new unix
    extra.extend_from_slice(&le16(11));
    extra.push(1); // version
    extra.push(4); // uid size
    extra.extend_from_slice(&le32(1000));
    extra.push(4); // gid size
    extra.extend_from_slice(&le32(100));
    let payload = b"meta";
    let crc = crc32fast::hash(payload);
    let data = one_entry_archive(b"m.txt", payload, 0, 0, crc, crc, 4, &extra, &[]);
    let archive = parse_archive(&data).unwrap();
    let e = &archive.entries[0];
    assert_eq!(e.modified.epoch_seconds, 1_700_000_000);
    assert_eq!(e.uid, Some(1000));
    assert_eq!(e.gid, Some(100));
}

#[test]
fn dos_timestamp_is_the_fallback() {
    let payload = b"dos";
    let crc = crc32fast::hash(payload);
    let data = one_entry_archive(b"t.txt", payload, 0, 0, crc, crc, 3, &[], &[]);
    let archive = parse_archive(&data).unwrap();
    // the builder stores 2024-01-01 00:00:00 as the MS-DOS pair
    assert_eq!(archive.entries[0].modified.epoch_seconds, 1_704_067_200);
}

#[test]
fn data_descriptor_without_signature_parses() {
    // the four-byte descriptor signature is optional; here the descriptor
    // starts directly with the checksum
    let payload = b"unsigned descriptor data";
    let crc = crc32fast::hash(payload);
    // the parser tries the signed form first; this input must not mimic it
    assert_ne!(crc & 0xFF, 0x50);
    let mut trailer: Vec<u8> = Vec::new();
    trailer.extend_from_slice(&le32(crc));
    trailer.extend_from_slice(&le32(payload.len() as u32));
    trailer.extend_from_slice(&le32(payload.len() as u32));
    let data = one_entry_archive(
        b"u.txt",
        payload,
        0,
        8,
        0,
        0,
        payload.len() as u32,
        &[],
        &trailer,
    );
    let archive = parse_archive(&data).unwrap();
    let out = read_entry(&data, archive.entries[0].clone(), None).unwrap();
    assert_eq!(out.bytes, payload.to_vec());
}

#[test]
fn zip64_data_descriptor_carries_wide_sizes() {
    // local sizes stored as the zip64 sentinel select the 20-byte
    // descriptor form with 64-bit sizes
    let payload = b"wide descriptor";
    let crc = crc32fast::hash(payload);
    let mut data: Vec<u8> = Vec::new();
    data.extend_from_slice(&[0x50, 0x4b, 0x03, 0x04]);
    data.extend_from_slice(&le16(45));
    data.extend_from_slice(&le16(8)); // data descriptor follows
    data.extend_from_slice(&le16(0));
    data.extend_from_slice(&le16(0));
    data.extend_from_slice(&le16(0x5821));
    data.extend_from_slice(&le32(0));
    data.extend_from_slice(&le32(0xFFFF_FFFF));
    data.extend_from_slice(&le32(0xFFFF_FFFF));
    data.extend_from_slice(&le16(5));
    data.extend_from_slice(&le16(0));
    data.extend_from_slice(b"z.bin");
    data.extend_from_slice(payload);
    data.extend_from_slice(&[0x50, 0x4b, 0x07, 0x08]);
    data.extend_from_slice(&le32(crc));
    data.extend_from_slice(&(payload.len() as u64).to_le_bytes());
    data.extend_from_slice(&(payload.len() as u64).to_le_bytes());
    let dir_offset = data.len() as u32;
    data.extend_from_slice(&[0x50, 0x4b, 0x01, 0x02]);
    data.extend_from_slice(&le16(45));
    data.extend_from_slice(&le16(45));
    data.extend_from_slice(&le16(8));
    data.extend_from_slice(&le16(0));
    data.extend_from_slice(&le16(0));
    data.extend_from_slice(&le16(0x5821));
    data.extend_from_slice(&le32(0)); // checksum deferred to the descriptor
    data.extend_from_slice(&le32(payload.len() as u32));
    data.extend_from_slice(&le32(payload.len() as u32));
    data.extend_from_slice(&le16(5));
    data.extend_from_slice(&le16(0));
    data.extend_from_slice(&le16(0));
    data.extend_from_slice(&le16(0));
    data.extend_from_slice(&le16(0));
    data.extend_from_slice(&le32(0));
    data.extend_from_slice(&le32(0));
    data.extend_from_slice(b"z.bin");
    let dir_size = data.len() as u32 - dir_offset;
    data.extend_from_slice(&[0x50, 0x4b, 0x05, 0x06]);
    data.extend_from_slice(&le16(0));
    data.extend_from_slice(&le16(0));
    data.extend_from_slice(&le16(1));
    data.extend_from_slice(&le16(1));
    data.extend_from_slice(&le32(dir_size));
    data.extend_from_slice(&le32(dir_offset));
    data.extend_from_slice(&le16(0));

    let archive = parse_archive(&data).unwrap();
    let out = read_entry(&data, archive.entries[0].clone(), None).unwrap();
    assert_eq!(out.bytes, payload.to_vec());
    let ranges = out.parsed_ranges;
    assert!(ranges.is_none());
}
