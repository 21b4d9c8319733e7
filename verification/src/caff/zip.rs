//! The single-entry ZIP files that hold compressed archive entries.

use vstd::prelude::*;

use super::Compression;
use crate::error::{caff_error, cmo3_error, invalid_caff, invalid_cmo3, Error};
use crate::moc3::{u16_at, u32_at, Endianness};

verus! {

/// What reading the entry named `name` from `bytes` as a ZIP archive
/// yields: `None` when `bytes` is no ZIP archive, `Some(None)` when the
/// entry is missing or cannot be read.
pub uninterp spec fn zip_read_of(bytes: Seq<u8>, name: Seq<char>) -> Option<Option<Seq<u8>>>;

/// Opens `bytes` with `zip::ZipArchive::new`, looks the entry up with
/// `ZipArchive::by_name(name)` and reads it with `Read::read_to_end`.
/// Claimed: the outcome depends on the bytes and the name alone; it is
/// named, not stated.
#[verifier::external_body]
fn read_zip_entry(bytes: &[u8], name: &str) -> (res: Option<Option<Vec<u8>>>)
    ensures
        match res {
            None => zip_read_of(bytes@, name@) is None,
            Some(None) => zip_read_of(bytes@, name@) == Some(None::<Seq<u8>>),
            Some(Some(v)) => zip_read_of(bytes@, name@) == Some(Some(v@)),
        },
{
    let mut archive = match zip::ZipArchive::new(std::io::Cursor::new(bytes)) {
        Ok(archive) => archive,
        Err(_) => return None,
    };
    let mut file = match archive.by_name(name) {
        Ok(file) => file,
        Err(_) => return Some(None),
    };
    let mut contents = Vec::new();
    match std::io::Read::read_to_end(&mut file, &mut contents) {
        Ok(_) => Some(Some(contents)),
        Err(_) => Some(None),
    }
}

/// What inflating the raw deflate stream `data` yields, `None` when the
/// stream is corrupt.
pub uninterp spec fn inflate_of(data: Seq<u8>) -> Option<Seq<u8>>;

/// Inflates a raw deflate stream with `flate2::read::DeflateDecoder` and
/// `Read::read_to_end`. Claimed: the outcome depends on `data` alone.
#[verifier::external_body]
fn inflate(data: &[u8]) -> (res: Option<Vec<u8>>)
    ensures
        match res {
            None => inflate_of(data@) is None,
            Some(v) => inflate_of(data@) == Some(v@),
        },
{
    let mut decoder = flate2::read::DeflateDecoder::new(data);
    let mut contents = Vec::new();
    match std::io::Read::read_to_end(&mut decoder, &mut contents) {
        Ok(_) => Some(contents),
        Err(_) => None,
    }
}

/// The compression level of compressed entries: flate2's fast level.
pub const FAST_LEVEL: u32 = 1;

/// What deflating `data` at compression level `level` yields.
pub uninterp spec fn deflate_of(data: Seq<u8>, level: u32) -> Seq<u8>;

/// Deflates `data` with `flate2::write::DeflateEncoder` at
/// `flate2::Compression::new(level)`, writing it whole into a `Vec` and
/// finishing the stream. Claimed: the outcome depends on `data` and
/// `level` alone; it succeeds, as the encoder reports only I/O errors of
/// the writer it wraps and writing into a `Vec` does not fail; and
/// inflating it with `DeflateDecoder` gives `data` back, DEFLATE being
/// lossless (the crate's own round-trip tests check this).
#[verifier::external_body]
fn deflate(data: &[u8], level: u32) -> (res: Vec<u8>)
    requires
        level <= 9,
    ensures
        res@ == deflate_of(data@, level),
        inflate_of(res@) == Some(data@),
{
    let mut encoder = flate2::write::DeflateEncoder::new(Vec::new(), flate2::Compression::new(level));
    std::io::Write::write_all(&mut encoder, data).unwrap();
    encoder.finish().unwrap()
}

/// One bit step of the reflected CRC-32 (IEEE) register.
pub open spec fn crc_bit(c: u32) -> u32 {
    if c & 1 == 1 {
        (c >> 1) ^ 0xEDB8_8320
    } else {
        c >> 1
    }
}

/// The register after `n` bit steps from `c`.
pub open spec fn crc_bits(c: u32, n: nat) -> u32
    decreases n,
{
    if n == 0 {
        c
    } else {
        crc_bits(crc_bit(c), (n - 1) as nat)
    }
}

/// The register after taking in the bytes `data`, from `c`.
pub open spec fn crc_update(c: u32, data: Seq<u8>) -> u32
    decreases data.len(),
{
    if data.len() == 0 {
        c
    } else {
        crc_update(crc_bits(c ^ (data[0] as u32), 8), data.drop_first())
    }
}

/// The CRC-32 (IEEE) checksum of `data`: the reflected register, started
/// and finished with all bits set.
pub open spec fn crc32_of(data: Seq<u8>) -> u32 {
    crc_update(0xFFFF_FFFF, data) ^ 0xFFFF_FFFF
}

/// Computes the checksum with `crc32fast::hash`, which computes the
/// CRC-32 (IEEE) checksum of the buffer. Claimed: it is `crc32_of`.
#[verifier::external_body]
fn crc32(data: &[u8]) -> (res: u32)
    ensures
        res == crc32_of(data@),
{
    crc32fast::hash(data)
}

/// The bytes `PK\x03\x04` that start a local file header.
pub open spec fn local_magic() -> Seq<u8> {
    seq![80u8, 75u8, 3u8, 4u8]
}

/// The bytes `PK\x07\x08` that start a data descriptor.
pub open spec fn descriptor_magic() -> Seq<u8> {
    seq![80u8, 75u8, 7u8, 8u8]
}

/// The entry name `contents`.
pub open spec fn contents_name() -> Seq<u8> {
    seq![99u8, 111u8, 110u8, 116u8, 101u8, 110u8, 116u8, 115u8]
}

/// The contents of a streaming ZIP file, whose sizes are only given in the
/// data descriptor that closes it.
pub open spec fn streaming_of(s: Seq<u8>) -> Option<Seq<u8>> {
    let len = s.len() as int;
    let d = len - 16;
    if len < 16 || s.subrange(d, d + 4) != descriptor_magic() || len < 4 || s.subrange(0, 4) != local_magic()
        || len < 30 {
        None
    } else {
        let compressed = u32_at(s, d + 8, Endianness::Little) as int;
        let uncompressed = u32_at(s, d + 12, Endianness::Little) as int;
        let name_len = u16_at(s, 26, Endianness::Little) as int;
        let extra_len = u16_at(s, 28, Endianness::Little) as int;
        let start = 30 + name_len + extra_len;
        let end = start + compressed;
        if end > d || s.subrange(30, 30 + name_len) != contents_name() {
            None
        } else {
            match inflate_of(s.subrange(start, end)) {
                Some(c) => if c.len() == uncompressed {
                    Some(c)
                } else {
                    None
                },
                None => None,
            }
        }
    }
}

/// The contents of a compressed entry: read as a ZIP archive when it is
/// one, else as a streaming ZIP file.
pub open spec fn unzip_of(s: Seq<u8>) -> Option<Seq<u8>> {
    match zip_read_of(s, "contents"@) {
        Some(found) => found,
        None => streaming_of(s),
    }
}

/// Reads a little-endian 16-bit value.
fn le_u16(b: &[u8], at: usize) -> (res: u16)
    requires
        at + 2 <= b@.len(),
    ensures
        res == u16_at(b@, at as int, Endianness::Little),
{
    b[at] as u16 + b[at + 1] as u16 * 256
}

/// Reads a little-endian 32-bit value.
fn le_u32(b: &[u8], at: usize) -> (res: u32)
    requires
        at + 4 <= b@.len(),
    ensures
        res == u32_at(b@, at as int, Endianness::Little),
{
    b[at] as u32 + b[at + 1] as u32 * 256 + b[at + 2] as u32 * 65536 + b[at + 3] as u32 * 16777216
}

/// Reads the contents of a streaming ZIP file.
fn unzip_streaming(s: &[u8]) -> (res: Result<Vec<u8>, Error>)
    ensures
        match streaming_of(s@) {
            Some(c) => res matches Ok(v) && v@ == c,
            None => caff_error(res),
        },
{
    let len = s.len();
    let descriptor_tag: [u8; 4] = [80, 75, 7, 8];
    let local_tag: [u8; 4] = [80, 75, 3, 4];
    let name: [u8; 8] = [99, 111, 110, 116, 101, 110, 116, 115];
    proof {
        assert(descriptor_tag@ =~= descriptor_magic());
        assert(local_tag@ =~= local_magic());
        assert(name@ =~= contents_name());
    }
    if len < 16 || !crate::text::matches_at(s, descriptor_tag.as_slice(), len - 16) {
        return Err(invalid_caff("streaming ZIP data descriptor is missing"));
    }
    let d = len - 16;
    let compressed = le_u32(s, d + 8);
    let uncompressed = le_u32(s, d + 12);
    if !crate::text::matches_at(s, local_tag.as_slice(), 0) {
        return Err(invalid_caff("streaming ZIP local header is missing"));
    }
    if len < 30 {
        return Err(invalid_caff("archive header is incomplete"));
    }
    let name_len = le_u16(s, 26) as usize;
    let extra_len = le_u16(s, 28) as usize;
    let start = 30 + name_len + extra_len;
    if start > d || d - start < compressed as usize {
        return Err(invalid_caff("streaming ZIP payload is incomplete"));
    }
    let end = start + compressed as usize;
    if !crate::text::matches_at(s, name.as_slice(), 30) || name_len != 8 {
        proof {
            if name_len == 8 {
            } else {
                assert(s@.subrange(30, 30 + name_len as int).len() != contents_name().len());
            }
        }
        return Err(invalid_caff("unexpected streaming ZIP entry name"));
    }
    let contents = match inflate(vstd::slice::slice_subrange(s, start, end)) {
        Some(contents) => contents,
        None => return Err(invalid_caff("ZIP decoding failed")),
    };
    if contents.len() != uncompressed as usize {
        return Err(invalid_caff("streaming ZIP uncompressed size does not match"));
    }
    Ok(contents)
}

/// Reads the contents of a compressed entry.
pub fn unzip_contents(s: &[u8]) -> (res: Result<Vec<u8>, Error>)
    ensures
        match unzip_of(s@) {
            Some(c) => res matches Ok(v) && v@ == c,
            None => caff_error(res),
        },
{
    match read_zip_entry(s, "contents") {
        Some(Some(contents)) => Ok(contents),
        Some(None) => Err(invalid_caff("ZIP decoding failed")),
        None => unzip_streaming(s),
    }
}

/// The two little-endian bytes of `v`.
pub open spec fn le16(v: u16) -> Seq<u8> {
    seq![(v % 256) as u8, (v / 256) as u8]
}

/// The four little-endian bytes of `v`.
pub open spec fn le32(v: u32) -> Seq<u8> {
    seq![(v % 256) as u8, ((v / 256) % 256) as u8, ((v / 65536) % 256) as u8, (v / 16777216) as u8]
}

/// Appends the two little-endian bytes of `v`.
fn push_u16_le(target: &mut Vec<u8>, v: u16)
    ensures
        final(target)@ == old(target)@ + le16(v),
{
    target.push((v % 256) as u8);
    target.push((v / 256) as u8);
    assert(final(target)@ =~= old(target)@ + le16(v));
}

/// Appends the four little-endian bytes of `v`.
fn push_u32_le(target: &mut Vec<u8>, v: u32)
    ensures
        final(target)@ == old(target)@ + le32(v),
{
    target.push((v % 256) as u8);
    target.push(((v / 256) % 256) as u8);
    target.push(((v / 65536) % 256) as u8);
    target.push((v / 16777216) as u8);
    assert(final(target)@ =~= old(target)@ + le32(v));
}

/// Appends `bytes` to `target`.
fn push_all(target: &mut Vec<u8>, bytes: &[u8])
    ensures
        final(target)@ == old(target)@ + bytes@,
{
    let mut index: usize = 0;
    while index < bytes.len()
        invariant
            index <= bytes@.len(),
            target@ == old(target)@ + bytes@.subrange(0, index as int),
        decreases bytes@.len() - index,
    {
        target.push(bytes[index]);
        index = index + 1;
        assert(target@ =~= old(target)@ + bytes@.subrange(0, index as int));
    }
    assert(bytes@.subrange(0, bytes@.len() as int) =~= bytes@);
}

/// The local file header of the entry `contents`, followed by its data.
pub open spec fn zip_local(crc: u32, ul: u32, comp: Seq<u8>) -> Seq<u8> {
    let cl = comp.len() as u32;
    le32(0x0403_4b50) + le16(20) + le16(0) + le16(8) + le16(0) + le16(0) + le32(crc) + le32(cl) + le32(ul) + le16(8)
        + le16(0) + contents_name() + comp
}

/// The central directory record of the entry `contents`.
pub open spec fn zip_central(crc: u32, ul: u32, cl: u32) -> Seq<u8> {
    le32(0x0201_4b50) + le16(20) + le16(20) + le16(0) + le16(8) + le16(0) + le16(0) + le32(crc) + le32(cl) + le32(ul)
        + le16(8) + le16(0) + le16(0) + le16(0) + le16(0) + le32(0) + le32(0) + contents_name()
}

/// The end-of-central-directory record of a one-entry ZIP file whose
/// central directory starts at `offset`.
pub open spec fn zip_end(offset: u32) -> Seq<u8> {
    le32(0x0605_4b50) + le16(0) + le16(0) + le16(1) + le16(1) + le32(54) + le32(offset) + le16(0)
}

/// The local header, data, central directory and end record of a ZIP file
/// that holds `comp`, the deflated form of `content`, as `contents`.
pub open spec fn zip_layout(content: Seq<u8>, comp: Seq<u8>) -> Seq<u8> {
    let crc = crc32_of(content);
    let cl = comp.len() as u32;
    let ul = content.len() as u32;
    zip_local(crc, ul, comp) + zip_central(crc, ul, cl) + zip_end((38 + cl) as u32)
}

/// The ZIP file that stores `content` compressed, `None` when a size does
/// not fit the 32-bit ZIP fields.
pub open spec fn zipped_of(content: Seq<u8>) -> Option<Seq<u8>> {
    let comp = deflate_of(content, FAST_LEVEL);
    if content.len() <= u32::MAX && 92 + comp.len() <= u32::MAX {
        Some(zip_layout(content, comp))
    } else {
        None
    }
}

/// Appends the local file header of `contents` and its data.
fn push_local(zip: &mut Vec<u8>, crc: u32, ul: u32, comp: &[u8])
    requires
        comp@.len() <= u32::MAX,
    ensures
        final(zip)@ == old(zip)@ + zip_local(crc, ul, comp@),
{
    let ghost start = zip@;
    let name: [u8; 8] = [99, 111, 110, 116, 101, 110, 116, 115];
    assert(name@ =~= contents_name());
    push_u32_le(zip, 0x0403_4b50);
    push_u16_le(zip, 20);
    push_u16_le(zip, 0);
    push_u16_le(zip, 8);
    push_u16_le(zip, 0);
    push_u16_le(zip, 0);
    push_u32_le(zip, crc);
    push_u32_le(zip, comp.len() as u32);
    push_u32_le(zip, ul);
    push_u16_le(zip, 8);
    push_u16_le(zip, 0);
    push_all(zip, name.as_slice());
    push_all(zip, comp);
    assert(zip@ =~= start + zip_local(crc, ul, comp@));
}

/// Appends the central directory record of `contents`.
fn push_central(zip: &mut Vec<u8>, crc: u32, ul: u32, cl: u32)
    ensures
        final(zip)@ == old(zip)@ + zip_central(crc, ul, cl),
{
    let ghost start = zip@;
    let name: [u8; 8] = [99, 111, 110, 116, 101, 110, 116, 115];
    assert(name@ =~= contents_name());
    push_u32_le(zip, 0x0201_4b50);
    push_u16_le(zip, 20);
    push_u16_le(zip, 20);
    push_u16_le(zip, 0);
    push_u16_le(zip, 8);
    push_u16_le(zip, 0);
    push_u16_le(zip, 0);
    push_u32_le(zip, crc);
    push_u32_le(zip, cl);
    push_u32_le(zip, ul);
    push_u16_le(zip, 8);
    push_u16_le(zip, 0);
    push_u16_le(zip, 0);
    push_u16_le(zip, 0);
    push_u16_le(zip, 0);
    push_u32_le(zip, 0);
    push_u32_le(zip, 0);
    push_all(zip, name.as_slice());
    assert(zip@ =~= start + zip_central(crc, ul, cl));
}

/// Appends the end-of-central-directory record.
fn push_end(zip: &mut Vec<u8>, offset: u32)
    ensures
        final(zip)@ == old(zip)@ + zip_end(offset),
{
    let ghost start = zip@;
    push_u32_le(zip, 0x0605_4b50);
    push_u16_le(zip, 0);
    push_u16_le(zip, 0);
    push_u16_le(zip, 1);
    push_u16_le(zip, 1);
    push_u32_le(zip, 54);
    push_u32_le(zip, offset);
    push_u16_le(zip, 0);
    assert(zip@ =~= start + zip_end(offset));
}

/// Deflates `content` and wraps it as the entry `contents` of a ZIP file.
pub fn zip_contents(content: &[u8]) -> (res: Result<Vec<u8>, Error>)
    ensures
        match zipped_of(content@) {
            Some(z) => res matches Ok(v) && v@ == z,
            None => cmo3_error(res),
        },
        inflate_of(deflate_of(content@, FAST_LEVEL)) == Some(content@),
{
    let compressed = deflate(content, FAST_LEVEL);
    let crc = crc32(content);
    if content.len() > 0xffff_ffff {
        return Err(invalid_cmo3("main.xml is too large"));
    }
    if compressed.len() > 0xffff_ffff - 92 {
        return Err(invalid_cmo3("ZIP directory size overflows"));
    }
    let compressed_len = compressed.len() as u32;
    let content_len = content.len() as u32;
    let mut zip: Vec<u8> = Vec::new();
    push_local(&mut zip, crc, content_len, compressed.as_slice());
    push_central(&mut zip, crc, content_len, compressed_len);
    push_end(&mut zip, 38 + compressed_len);
    assert(zip@ =~= zip_layout(content@, compressed@));
    Ok(zip)
}

} // verus!
