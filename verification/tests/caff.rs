use moc2cmo::caff::{decode_archive, encode_archive, int64_mask, read_number, write_number, ArchiveEntry, Compression};
use moc2cmo::Error;

fn entry(path: &str, tag: &str, bytes: &[u8], compression: Compression) -> ArchiveEntry {
    ArchiveEntry {
        path: path.to_string(),
        tag: tag.to_string(),
        bytes: bytes.to_vec(),
        compression,
    }
}

#[test]
fn int64_mask_repeats_a_positive_key() {
    assert_eq!(int64_mask(1), 0x0000_0001_0000_0001);
    assert_eq!(int64_mask(42), 0x0000_002a_0000_002a);
    assert_eq!(int64_mask(0), 0);
}

#[test]
fn int64_mask_fills_the_upper_half_for_a_negative_key() {
    assert_eq!(int64_mask(-1), u64::MAX);
    assert_eq!(int64_mask(-2), 0xffff_ffff_ffff_fffe);
    assert_eq!(int64_mask(i32::MIN), 0xffff_ffff_8000_0000);
}

#[test]
fn compression_codes_round_trip() {
    assert_eq!(Compression::Raw.code(), 16);
    assert_eq!(Compression::Fast.code(), 33);
    assert_eq!(Compression::from_code(16).unwrap(), Compression::Raw);
    assert_eq!(Compression::from_code(33).unwrap(), Compression::Fast);
    assert!(matches!(Compression::from_code(17), Err(Error::InvalidCaff(_))));
}

#[test]
fn encoded_archive_has_the_documented_header() {
    let bytes = encode_archive(&vec![], 0x0102_0304).unwrap();
    assert_eq!(&bytes[0..4], b"CAFF");
    assert_eq!(&bytes[7..11], b"----");
    assert_eq!(&bytes[14..18], &[1, 2, 3, 4]);
    assert_eq!(bytes[26], 127);
    assert_eq!(bytes[27], 127);
    assert_eq!(bytes.len(), 54 + 4 + 2);
    assert_eq!(&bytes[58..60], b"bc");
    let count = u32::from_be_bytes([bytes[54], bytes[55], bytes[56], bytes[57]]) ^ 0x0102_0304;
    assert_eq!(count, 0);
}

#[test]
fn raw_entries_round_trip_with_their_key() {
    for key in [0, 42, -7, i32::MAX, i32::MIN] {
        let entries = vec![
            entry("a.bin", "", &[1, 2, 3], Compression::Raw),
            entry("dir/ü.txt", "tag", b"hello", Compression::Raw),
            entry("empty", "", &[], Compression::Raw),
        ];
        let bytes = encode_archive(&entries, key).unwrap();
        let decoded = decode_archive(&bytes).unwrap();
        assert_eq!(decoded.key, key);
        assert_eq!(decoded.entries.len(), 3);
        for (got, want) in decoded.entries.iter().zip(&entries) {
            assert_eq!(got.path, want.path);
            assert_eq!(got.tag, want.tag);
            assert_eq!(got.bytes, want.bytes);
            assert_eq!(got.compression, want.compression);
        }
    }
}

#[test]
fn compressed_entries_round_trip() {
    let text: Vec<u8> = b"<root>".iter().chain([b'x'; 5000].iter()).chain(b"</root>".iter()).copied().collect();
    let entries = vec![entry("main.xml", "main_xml", &text, Compression::Fast)];
    let bytes = encode_archive(&entries, 42).unwrap();
    let decoded = decode_archive(&bytes).unwrap();
    assert_eq!(decoded.entries.len(), 1);
    assert_eq!(decoded.entries[0].bytes, text);
    assert_eq!(decoded.entries[0].compression, Compression::Fast);
    assert!(bytes.len() < text.len());
}

#[test]
fn long_paths_use_multi_byte_lengths() {
    let path = "p".repeat(20_000);
    let entries = vec![entry(&path, "", &[9], Compression::Raw)];
    let bytes = encode_archive(&entries, 5).unwrap();
    let decoded = decode_archive(&bytes).unwrap();
    assert_eq!(decoded.entries[0].path, path);
}

#[test]
fn decode_rejects_a_missing_signature() {
    let mut bytes = encode_archive(&vec![], 1).unwrap();
    bytes[0] = b'X';
    assert!(matches!(decode_archive(&bytes), Err(Error::InvalidCaff(_))));
    assert!(matches!(decode_archive(b"CAF"), Err(Error::InvalidCaff(_))));
}

#[test]
fn decode_rejects_truncated_archives() {
    let entries = vec![entry("a.bin", "", &[1, 2, 3, 4, 5, 6, 7, 8], Compression::Raw)];
    let bytes = encode_archive(&entries, 3).unwrap();
    assert!(matches!(decode_archive(&bytes[..bytes.len() - 6]), Err(Error::InvalidCaff(_))));
    assert!(matches!(decode_archive(&bytes[..60]), Err(Error::InvalidCaff(_))));
    assert!(matches!(decode_archive(&bytes[..40]), Err(Error::InvalidCaff(_))));
}

#[test]
fn decode_rejects_a_negative_entry_count() {
    let mut bytes = encode_archive(&vec![], 0).unwrap();
    bytes[54] = 0x80;
    assert!(matches!(decode_archive(&bytes), Err(Error::InvalidCaff(_))));
}

#[test]
fn decode_rejects_an_unknown_compression() {
    let entries = vec![entry("a", "", &[1], Compression::Raw)];
    let mut bytes = encode_archive(&entries, 0).unwrap();
    // path (1 + 1 byte), tag (1 byte), position (8), size (4), enabled (1)
    let compression_at = 58 + 2 + 1 + 8 + 4 + 1;
    assert_eq!(bytes[compression_at], 16);
    bytes[compression_at] = 99;
    assert!(matches!(decode_archive(&bytes), Err(Error::InvalidCaff(_))));
}

#[test]
fn decode_rejects_a_path_that_is_not_utf8() {
    let bytes = encode_archive(&vec![entry("zq.bin", "", &[9], Compression::Raw)], 0).unwrap();
    let at = bytes.windows(6).position(|w| w == b"zq.bin").unwrap();
    let mut broken = bytes.clone();
    broken[at] = 0xff;
    assert!(decode_archive(&bytes).is_ok());
    assert!(matches!(decode_archive(&broken), Err(Error::InvalidCaff(_))));
}

#[test]
fn a_written_number_reads_back() {
    for (value, length) in [(0usize, 1usize), (127, 1), (300, 2), (1 << 14, 3), ((1 << 28) - 1, 4)] {
        let mut out = vec![7u8];
        write_number(&mut out, value, 42).unwrap();
        assert_eq!(out.len(), 1 + length);
        assert_eq!(read_number(&out, 42, 1).unwrap(), (value, 1 + length));
    }
}

#[test]
fn a_number_too_large_is_not_written() {
    let mut out = vec![7u8];
    assert!(matches!(write_number(&mut out, 1 << 28, 42), Err(Error::InvalidCmo3(_))));
    assert_eq!(out, vec![7u8]);
}
