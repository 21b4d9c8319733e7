//! CAFF archives: the obfuscated container that holds `.cmo3` and `.can3`
//! projects.
//!
//! An archive starts with a 54-byte header that stores a signed 32-bit XOR
//! key, followed by a table of entry metadata and the entry contents. Every
//! keyed byte is XORed with the low byte of the key, keyed 32-bit values with
//! the key itself and keyed 64-bit values with [`int64_mask`].

use vstd::prelude::*;

use crate::error::{caff_error, invalid_caff, Error};

mod laws;
mod reader;
mod writer;
mod zip;

pub use laws::{lemma_decode_encode, lemma_keyed_twice, lemma_number, lemma_written_number, meta_of, string_len};
pub use reader::{
    archive_of, caff_key, enc_i32_at, enc_i64_at, entries_of, entry_data, meta_at, metas_from, number_at,
    number_from, read_number, string_at, decode_archive, DecodedArchive, MetaModel,
};
pub use writer::{
    archive_bytes, be16, be32, be64, data_bytes, data_len, enc_i32, enc_i64, enc_string, encodable, encode_archive,
    header_bytes, meta_bytes, meta_len, metas_bytes, metas_len, stored_entry, stored_of, varint, varint_len, write_number, zeros,
};
pub use zip::{crc32_of, deflate_of, FAST_LEVEL, inflate_of, le16, le32, streaming_of, unzip_of, zip_layout, zip_read_of, zipped_of};

verus! {

/// How an entry's contents are stored in the archive.
#[derive(Debug, Copy, Clone, PartialEq, Eq, Structural)]
pub enum Compression {
    /// Stored as is.
    Raw,
    /// Stored as a ZIP file holding one deflated entry named `contents`.
    Fast,
}

/// The byte that marks a compression mode in the entry metadata.
pub open spec fn compression_code(c: Compression) -> u8 {
    match c {
        Compression::Raw => 16,
        Compression::Fast => 33,
    }
}

/// The compression mode marked by `code`, if any.
pub open spec fn compression_of(code: u8) -> Option<Compression> {
    if code == 16 {
        Some(Compression::Raw)
    } else if code == 33 {
        Some(Compression::Fast)
    } else {
        None
    }
}

impl Compression {
    /// Returns the byte that marks this mode.
    pub fn code(self) -> (res: u8)
        ensures
            res == compression_code(self),
    {
        match self {
            Compression::Raw => 16,
            Compression::Fast => 33,
        }
    }

    /// Reads a compression mode from its marker byte.
    pub fn from_code(code: u8) -> (res: Result<Compression, Error>)
        ensures
            match compression_of(code) {
                Some(c) => res == Ok::<Compression, Error>(c),
                None => caff_error(res),
            },
    {
        if code == 16 {
            Ok(Compression::Raw)
        } else if code == 33 {
            Ok(Compression::Fast)
        } else {
            Err(invalid_caff("unsupported entry compression"))
        }
    }
}

/// The abstract contents of an [`ArchiveEntry`].
pub struct EntryModel {
    pub path: Seq<char>,
    pub tag: Seq<char>,
    pub bytes: Seq<u8>,
    pub compression: Compression,
}

/// One file of an archive, with its contents uncompressed.
#[derive(Debug, Clone)]
pub struct ArchiveEntry {
    /// The archive-relative path.
    pub path: String,
    /// A free-form tag, such as `main_xml`.
    pub tag: String,
    /// The uncompressed contents.
    pub bytes: Vec<u8>,
    /// How the contents are stored.
    pub compression: Compression,
}

impl View for ArchiveEntry {
    type V = EntryModel;

    open spec fn view(&self) -> EntryModel {
        EntryModel { path: self.path@, tag: self.tag@, bytes: self.bytes@, compression: self.compression }
    }
}

/// The views of a sequence of entries.
pub open spec fn entry_views(v: Seq<ArchiveEntry>) -> Seq<EntryModel> {
    v.map_values(|e: ArchiveEntry| e@)
}

/// The mask that keyed 64-bit values are XORed with: the key's 32 bits in
/// both halves, or all ones in the upper half for a negative key.
pub open spec fn int64_mask_of(key: i32) -> u64 {
    let k = key as u32 as int;
    if key < 0 {
        (0xffff_ffff_0000_0000 + k) as u64
    } else {
        (k * 0x1_0000_0001) as u64
    }
}

/// Returns the 64-bit XOR mask of `key`.
pub fn int64_mask(key: i32) -> (res: u64)
    ensures
        res == int64_mask_of(key),
{
    let k = key as u32 as u64;
    if key < 0 {
        0xffff_ffff_0000_0000u64 + k
    } else {
        k * 0x1_0000_0001u64
    }
}

/// Each byte of `s` XORed with `k`.
pub open spec fn keyed(s: Seq<u8>, k: u8) -> Seq<u8> {
    Seq::new(s.len(), |i: int| s[i] ^ k)
}

/// Returns each byte of `bytes` XORed with `k`.
pub fn xor_bytes(bytes: &[u8], k: u8) -> (res: Vec<u8>)
    ensures
        res@ == keyed(bytes@, k),
{
    let mut out: Vec<u8> = Vec::new();
    let mut index: usize = 0;
    while index < bytes.len()
        invariant
            index <= bytes@.len(),
            out@ == keyed(bytes@.subrange(0, index as int), k),
        decreases bytes@.len() - index,
    {
        out.push(bytes[index] ^ k);
        index = index + 1;
        assert(out@ =~= keyed(bytes@.subrange(0, index as int), k));
    }
    assert(bytes@.subrange(0, bytes@.len() as int) =~= bytes@);
    out
}

} // verus!
