//! Decoding CAFF archives.

use vstd::prelude::*;
use vstd::utf8::{decode_utf8, valid_utf8};

use super::zip::{unzip_contents, unzip_of};
use super::{compression_of, int64_mask, int64_mask_of, keyed, xor_bytes, ArchiveEntry, Compression, EntryModel};
use crate::error::{caff_error, invalid_caff, Error};
use crate::moc3::{u32_at, Endianness};
use crate::text::utf8_string;

verus! {

/// The XOR key stored big-endian at byte 14 of the header.
pub open spec fn caff_key(b: Seq<u8>) -> i32 {
    u32_at(b, 14, Endianness::Big) as i32
}

/// The keyed 32-bit value at `pos`.
pub open spec fn enc_i32_at(b: Seq<u8>, key: i32, pos: int) -> i32 {
    (u32_at(b, pos, Endianness::Big) ^ (key as u32)) as i32
}

/// The big-endian 64-bit value at `pos`.
pub open spec fn u64_be_at(b: Seq<u8>, pos: int) -> u64 {
    (u32_at(b, pos, Endianness::Big) as int * 0x1_0000_0000 + u32_at(b, pos + 4, Endianness::Big) as int) as u64
}

/// The keyed 64-bit value at `pos`.
pub open spec fn enc_i64_at(b: Seq<u8>, key: i32, pos: int) -> i64 {
    (u64_be_at(b, pos) ^ int64_mask_of(key)) as i64
}

/// A variable-length number: big-endian groups of 7 bits, each keyed byte
/// with its top bit set when another follows, at most `left` more bytes.
/// Gives the number and the position after it.
pub open spec fn number_from(b: Seq<u8>, k: u8, pos: int, acc: nat, left: nat) -> Option<(nat, int)>
    decreases left,
{
    if left == 0 || pos < 0 || pos >= b.len() {
        None
    } else {
        let byte = b[pos] ^ k;
        let value = acc * 128 + (byte % 128) as nat;
        if byte < 128 {
            Some((value, pos + 1))
        } else {
            number_from(b, k, pos + 1, value, (left - 1) as nat)
        }
    }
}

/// The variable-length number of at most four bytes at `pos`.
pub open spec fn number_at(b: Seq<u8>, k: u8, pos: int) -> Option<(nat, int)> {
    number_from(b, k, pos, 0, 4)
}

/// The length-prefixed keyed UTF-8 string at `pos` and the position after it.
pub open spec fn string_at(b: Seq<u8>, k: u8, pos: int) -> Option<(Seq<char>, int)> {
    match number_at(b, k, pos) {
        None => None,
        Some((n, p)) => if p + n > b.len() {
            None
        } else {
            let raw = keyed(b.subrange(p, p + n), k);
            if valid_utf8(raw) {
                Some((decode_utf8(raw), p + n))
            } else {
                None
            }
        },
    }
}

/// The metadata of one entry.
pub struct MetaModel {
    pub path: Seq<char>,
    pub tag: Seq<char>,
    pub position: int,
    pub size: int,
    pub compression: Compression,
}

/// The metadata record at `pos`: path, tag, keyed 64-bit position, keyed
/// 32-bit size, an enabled flag, the compression byte and 8 reserved bytes.
pub open spec fn meta_at(b: Seq<u8>, key: i32, pos: int) -> Option<(MetaModel, int)> {
    let k = key as u8;
    match string_at(b, k, pos) {
        None => None,
        Some((path, p1)) => match string_at(b, k, p1) {
            None => None,
            Some((tag, p2)) => if p2 + 8 > b.len() {
                None
            } else {
                let position = enc_i64_at(b, key, p2);
                if position < 0 || position > usize::MAX || p2 + 12 > b.len() {
                    None
                } else {
                    let size = enc_i32_at(b, key, p2 + 8);
                    if size < 0 || p2 + 14 > b.len() {
                        None
                    } else {
                        match compression_of(b[p2 + 13] ^ k) {
                            None => None,
                            Some(c) => if p2 + 22 > b.len() {
                                None
                            } else {
                                Some(
                                    (
                                        MetaModel {
                                            path,
                                            tag,
                                            position: position as int,
                                            size: size as int,
                                            compression: c,
                                        },
                                        p2 + 22,
                                    ),
                                )
                            },
                        }
                    }
                }
            },
        },
    }
}

/// `n` consecutive metadata records from `pos`, and the position after them.
pub open spec fn metas_from(b: Seq<u8>, key: i32, pos: int, n: nat) -> Option<(Seq<MetaModel>, int)>
    decreases n,
{
    if n == 0 {
        Some((Seq::empty(), pos))
    } else {
        match meta_at(b, key, pos) {
            None => None,
            Some((m, p)) => match metas_from(b, key, p, (n - 1) as nat) {
                None => None,
                Some((ms, q)) => Some((seq![m] + ms, q)),
            },
        }
    }
}

/// The contents of the entry described by `m`.
pub open spec fn entry_data(b: Seq<u8>, key: i32, m: MetaModel) -> Option<Seq<u8>> {
    if m.position + m.size > b.len() {
        None
    } else {
        let stored = keyed(b.subrange(m.position, m.position + m.size), key as u8);
        match m.compression {
            Compression::Raw => Some(stored),
            Compression::Fast => unzip_of(stored),
        }
    }
}

/// The entries described by `ms`, if every one can be read.
pub open spec fn entries_of(b: Seq<u8>, key: i32, ms: Seq<MetaModel>) -> Option<Seq<EntryModel>> {
    if forall|i: int| 0 <= i < ms.len() ==> (#[trigger] entry_data(b, key, ms[i])) is Some {
        Some(
            Seq::new(
                ms.len(),
                |i: int|
                    EntryModel {
                        path: ms[i].path,
                        tag: ms[i].tag,
                        bytes: entry_data(b, key, ms[i])->Some_0,
                        compression: ms[i].compression,
                    },
            ),
        )
    } else {
        None
    }
}

/// The bytes `CAFF` that start every archive.
pub open spec fn caff_magic() -> Seq<u8> {
    seq![67u8, 65u8, 70u8, 70u8]
}

/// The key and the entries of the archive `b`, `None` when it is malformed.
pub open spec fn archive_of(b: Seq<u8>) -> Option<(i32, Seq<EntryModel>)> {
    if b.len() < 18 || b.subrange(0, 4) != caff_magic() || b.len() < 58 {
        None
    } else {
        let key = caff_key(b);
        let count = enc_i32_at(b, key, 54);
        if count < 0 || count > (b.len() - 54) / 24 {
            None
        } else {
            match metas_from(b, key, 58, count as nat) {
                None => None,
                Some((ms, _)) => match entries_of(b, key, ms) {
                    None => None,
                    Some(es) => Some((key, es)),
                },
            }
        }
    }
}

/// A decoded archive.
pub struct DecodedArchive {
    /// The XOR key of the header.
    pub key: i32,
    /// The entries, contents uncompressed.
    pub entries: Vec<ArchiveEntry>,
}

/// One metadata record.
struct Meta {
    path: String,
    tag: String,
    position: usize,
    size: usize,
    compression: Compression,
}

impl View for Meta {
    type V = MetaModel;

    closed spec fn view(&self) -> MetaModel {
        MetaModel {
            path: self.path@,
            tag: self.tag@,
            position: self.position as int,
            size: self.size as int,
            compression: self.compression,
        }
    }
}

/// Reads a big-endian 32-bit value.
fn read_u32_be(b: &[u8], pos: usize) -> (res: Result<u32, Error>)
    ensures
        pos + 4 <= b@.len() ==> res == Ok::<u32, Error>(u32_at(b@, pos as int, Endianness::Big)),
        pos + 4 > b@.len() ==> caff_error(res),
{
    if pos > b.len() || b.len() - pos < 4 {
        return Err(invalid_caff("archive metadata is incomplete"));
    }
    Ok(b[pos] as u32 * 16777216 + b[pos + 1] as u32 * 65536 + b[pos + 2] as u32 * 256 + b[pos + 3] as u32)
}

/// Reads the keyed variable-length number at `pos`, giving its value and
/// the position after it.
pub fn read_number(b: &[u8], k: u8, pos: usize) -> (res: Result<(usize, usize), Error>)
    ensures
        match number_at(b@, k, pos as int) {
            Some((n, p)) => res matches Ok((v, q)) && v == n && q == p,
            None => caff_error(res),
        },
{
    if pos >= b.len() {
        return Err(invalid_caff("archive metadata is incomplete"));
    }
    let mut value: usize = 0;
    let mut at: usize = pos;
    let mut step: usize = 0;
    while step < 4
        invariant
            step <= 4,
            at == pos + step,
            value < pow128(step as nat),
            at <= b@.len(),
            number_at(b@, k, pos as int) == number_from(b@, k, at as int, value as nat, (4 - step) as nat),
        decreases 4 - step,
    {
        if at >= b.len() {
            return Err(invalid_caff("archive metadata is incomplete"));
        }
        let byte = b[at] ^ k;
        proof {
            pow128_step(step as nat);
        }
        value = value * 128 + (byte % 128) as usize;
        at = at + 1;
        step = step + 1;
        if byte < 128 {
            return Ok((value, at));
        }
    }
    Err(invalid_caff("archive number is too long"))
}

/// `128` to the power `n`, for `n` at most 4.
pub open spec fn pow128(n: nat) -> nat {
    if n == 0 {
        1
    } else if n == 1 {
        128
    } else if n == 2 {
        16384
    } else if n == 3 {
        2097152
    } else {
        268435456
    }
}

proof fn pow128_step(n: nat)
    requires
        n < 4,
    ensures
        pow128(n) * 128 == pow128(n + 1),
        pow128(n + 1) <= 268435456,
{
}

/// Reads a length-prefixed keyed UTF-8 string.
fn read_string(b: &[u8], k: u8, pos: usize) -> (res: Result<(String, usize), Error>)
    ensures
        match string_at(b@, k, pos as int) {
            Some((s, p)) => res matches Ok((v, q)) && v@ == s && q == p,
            None => caff_error(res),
        },
{
    let (length, at) = read_number(b, k, pos)?;
    if at > b.len() || b.len() - at < length {
        return Err(invalid_caff("archive string is incomplete"));
    }
    let raw = xor_bytes(vstd::slice::slice_subrange(b, at, at + length), k);
    match utf8_string(raw) {
        Some(text) => Ok((text, at + length)),
        None => Err(invalid_caff("archive string is not UTF-8")),
    }
}

/// Reads one metadata record.
fn read_meta(b: &[u8], key: i32, pos: usize) -> (res: Result<(Meta, usize), Error>)
    ensures
        match meta_at(b@, key, pos as int) {
            Some((m, p)) => res matches Ok((v, q)) && v@ == m && q == p,
            None => caff_error(res),
        },
{
    let k = key as u8;
    let (path, p1) = read_string(b, k, pos)?;
    let (tag, p2) = read_string(b, k, p1)?;
    if p2 > b.len() || b.len() - p2 < 22 {
        return Err(invalid_caff("archive metadata is incomplete"));
    }
    let high = read_u32_be(b, p2)?;
    let low = read_u32_be(b, p2 + 4)?;
    let raw = high as u64 * 0x1_0000_0000 + low as u64;
    let position = (raw ^ int64_mask(key)) as i64;
    if position < 0 || position as u64 > usize::MAX as u64 {
        return Err(invalid_caff("negative entry position"));
    }
    let size = (read_u32_be(b, p2 + 8)? ^ key as u32) as i32;
    if size < 0 {
        return Err(invalid_caff("negative entry size"));
    }
    let compression = Compression::from_code(b[p2 + 13] ^ k)?;
    let meta = Meta { path, tag, position: position as usize, size: size as usize, compression };
    Ok((meta, p2 + 22))
}

/// Reads the contents of one entry.
fn read_entry_data(b: &[u8], key: i32, meta: &Meta) -> (res: Result<Vec<u8>, Error>)
    ensures
        match entry_data(b@, key, meta@) {
            Some(d) => res matches Ok(v) && v@ == d,
            None => caff_error(res),
        },
{
    if meta.position > b.len() || b.len() - meta.position < meta.size {
        return Err(invalid_caff("entry is incomplete"));
    }
    let stored = xor_bytes(vstd::slice::slice_subrange(b, meta.position, meta.position + meta.size), key as u8);
    match meta.compression {
        Compression::Raw => Ok(stored),
        Compression::Fast => unzip_contents(stored.as_slice()),
    }
}

/// Decodes a CAFF archive into its key and entries.
pub fn decode_archive(bytes: &[u8]) -> (res: Result<DecodedArchive, Error>)
    ensures
        match archive_of(bytes@) {
            Some((key, es)) => res matches Ok(a) && a.key == key && super::entry_views(a.entries@) == es,
            None => caff_error(res),
        },
{
    let ghost b = bytes@;
    let magic: [u8; 4] = [67, 65, 70, 70];
    assert(magic@ =~= caff_magic());
    if bytes.len() < 18 || !crate::text::matches_at(bytes, magic.as_slice(), 0) {
        return Err(invalid_caff("missing CAFF signature"));
    }
    let key = read_u32_be(bytes, 14)? as i32;
    let count = (read_u32_be(bytes, 54)? ^ key as u32) as i32;
    if count < 0 {
        return Err(invalid_caff("negative entry count"));
    }
    let count = count as usize;
    assert(count as int == enc_i32_at(b, key, 54) as int);
    assert(b.subrange(0, 4) == caff_magic());
    assert(b.len() >= 58);
    if count > (bytes.len() - 54) / 24 {
        return Err(invalid_caff("entry count exceeds the archive metadata"));
    }
    assert(metas_from(b, key, 58, count as nat) is None ==> archive_of(b) is None);
    let mut metas: Vec<Meta> = Vec::new();
    let mut at: usize = 58;
    let mut index: usize = 0;
    while index < count
        invariant
            index <= count,
            b == bytes@,
            key == caff_key(b),
            metas_from(b, key, 58, count as nat) is None ==> archive_of(b) is None,
            metas@.len() == index,
            metas_from(b, key, 58, count as nat) == match metas_from(b, key, at as int, (count - index) as nat) {
                None => None,
                Some((rest, q)) => Some((metas@.map_values(|m: Meta| m@) + rest, q)),
            },
        decreases count - index,
    {
        let (meta, next) = match read_meta(bytes, key, at) {
            Ok(found) => found,
            Err(e) => {
                assert(metas_from(b, key, at as int, (count - index) as nat) is None);
                assert(metas_from(b, key, 58, count as nat) is None);
                assert(archive_of(b) is None);
                return Err(e);
            },
        };
        let ghost before = metas@.map_values(|m: Meta| m@);
        metas.push(meta);
        proof {
            assert(metas@.map_values(|m: Meta| m@) =~= before.push(meta@));
            match metas_from(b, key, next as int, (count - index - 1) as nat) {
                None => {},
                Some((rest, q)) => {
                    assert(before + (seq![meta@] + rest) =~= before.push(meta@) + rest);
                },
            }
        }
        at = next;
        index = index + 1;
    }
    let ghost ms = metas@.map_values(|m: Meta| m@);
    assert(ms + Seq::<MetaModel>::empty() =~= ms);
    assert(metas_from(b, key, 58, count as nat) == Some((ms, at as int)));
    assert(archive_of(b) == match entries_of(b, key, ms) {
        None => None,
        Some(es) => Some((key, es)),
    });
    let mut entries: Vec<ArchiveEntry> = Vec::new();
    let mut index: usize = 0;
    while index < count
        invariant
            index <= count,
            count == metas@.len(),
            b == bytes@,
            ms == metas@.map_values(|m: Meta| m@),
            archive_of(b) == match entries_of(b, key, ms) {
                None => None,
                Some(es) => Some((key, es)),
            },
            entries@.len() == index,
            forall|j: int| 0 <= j < index ==> (#[trigger] entry_data(b, key, ms[j])) is Some,
            forall|j: int|
                0 <= j < index ==> (#[trigger] entries@[j])@ == (EntryModel {
                    path: ms[j].path,
                    tag: ms[j].tag,
                    bytes: entry_data(b, key, ms[j])->Some_0,
                    compression: ms[j].compression,
                }),
        decreases count - index,
    {
        let meta = &metas[index];
        assert(ms[index as int] == meta@);
        let data = match read_entry_data(bytes, key, meta) {
            Ok(data) => data,
            Err(e) => {
                assert(entry_data(b, key, ms[index as int]) is None);
                assert(entries_of(b, key, ms) is None);
                assert(archive_of(b) is None);
                return Err(e);
            },
        };
        entries.push(ArchiveEntry {
            path: meta.path.clone(),
            tag: meta.tag.clone(),
            bytes: data,
            compression: meta.compression,
        });
        index = index + 1;
    }
    let archive = DecodedArchive { key, entries };
    proof {
        let es = entries_of(b, key, ms)->Some_0;
        assert(super::entry_views(archive.entries@) =~= es);
    }
    Ok(archive)
}

} // verus!
