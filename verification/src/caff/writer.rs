//! Encoding CAFF archives.

use vstd::prelude::*;
use vstd::string::StringSliceAdditionalSpecFns;

use super::zip::{zip_contents, zipped_of};
use super::{compression_code, entry_views, int64_mask, int64_mask_of, keyed, ArchiveEntry, Compression, EntryModel};
use crate::error::{cmo3_error, invalid_cmo3, Error};

verus! {

/// The two big-endian bytes of `v`.
pub open spec fn be16(v: u16) -> Seq<u8> {
    seq![(v / 256) as u8, (v % 256) as u8]
}

/// The four big-endian bytes of `v`.
pub open spec fn be32(v: u32) -> Seq<u8> {
    seq![(v / 16777216) as u8, ((v / 65536) % 256) as u8, ((v / 256) % 256) as u8, (v % 256) as u8]
}

/// The eight big-endian bytes of `v`.
pub open spec fn be64(v: u64) -> Seq<u8> {
    be32((v / 0x1_0000_0000) as u32) + be32((v % 0x1_0000_0000) as u32)
}

/// A keyed 32-bit value.
pub open spec fn enc_i32(value: i32, key: i32) -> Seq<u8> {
    be32((value as u32) ^ (key as u32))
}

/// A keyed 64-bit value.
pub open spec fn enc_i64(value: i64, key: i32) -> Seq<u8> {
    be64((value as u64) ^ int64_mask_of(key))
}

/// The variable-length form of `v`, below `2^28`: big-endian groups of 7
/// bits, every byte but the last with its top bit set.
pub open spec fn varint(v: nat) -> Seq<u8> {
    if v < 128 {
        seq![v as u8]
    } else if v < 16384 {
        seq![(v / 128 + 128) as u8, (v % 128) as u8]
    } else if v < 2097152 {
        seq![(v / 16384 + 128) as u8, ((v / 128) % 128 + 128) as u8, (v % 128) as u8]
    } else {
        seq![
            (v / 2097152 + 128) as u8,
            ((v / 16384) % 128 + 128) as u8,
            ((v / 128) % 128 + 128) as u8,
            (v % 128) as u8,
        ]
    }
}

/// The number of bytes of [`varint`]`(v)`.
pub open spec fn varint_len(v: nat) -> nat {
    if v < 128 {
        1
    } else if v < 16384 {
        2
    } else if v < 2097152 {
        3
    } else {
        4
    }
}

/// A keyed, length-prefixed UTF-8 string.
pub open spec fn enc_string(s: Seq<char>, key: i32) -> Seq<u8> {
    let bytes = vstd::utf8::encode_utf8(s);
    keyed(varint(bytes.len()), key as u8) + keyed(bytes, key as u8)
}

/// `n` zero bytes.
pub open spec fn zeros(n: nat) -> Seq<u8> {
    Seq::new(n, |i: int| 0u8)
}

/// The 54-byte archive header: signature, format identifier, the key and
/// an empty preview description.
pub open spec fn header_bytes(key: i32) -> Seq<u8> {
    seq![67u8, 65, 70, 70, 0, 0, 0, 45, 45, 45, 45, 0, 0, 0] + be32(key as u32) + zeros(8) + seq![127u8, 127]
        + zeros(26)
}

/// The metadata record of a stored entry whose contents start at `pos`.
pub open spec fn meta_bytes(e: EntryModel, key: i32, pos: int) -> Seq<u8> {
    let k = key as u8;
    enc_string(e.path, key) + enc_string(e.tag, key) + enc_i64(pos as i64, key) + enc_i32(e.bytes.len() as i32, key)
        + seq![1u8 ^ k, compression_code(e.compression) ^ k] + zeros(8)
}

/// The number of bytes of a metadata record.
pub open spec fn meta_len(e: EntryModel) -> nat {
    let p = vstd::utf8::encode_utf8(e.path).len();
    let t = vstd::utf8::encode_utf8(e.tag).len();
    varint_len(p) + p + varint_len(t) + t + 22
}

/// The total size of the metadata records of `es`.
pub open spec fn metas_len(es: Seq<EntryModel>) -> nat
    decreases es.len(),
{
    if es.len() == 0 {
        0
    } else {
        metas_len(es.drop_last()) + meta_len(es.last())
    }
}

/// The total size of the stored contents of `es`.
pub open spec fn data_len(es: Seq<EntryModel>) -> nat
    decreases es.len(),
{
    if es.len() == 0 {
        0
    } else {
        data_len(es.drop_last()) + es.last().bytes.len()
    }
}

/// The metadata records of `es`, whose contents start at `start`, one
/// after the other.
pub open spec fn metas_bytes(es: Seq<EntryModel>, key: i32, start: int) -> Seq<u8>
    decreases es.len(),
{
    if es.len() == 0 {
        Seq::empty()
    } else {
        metas_bytes(es.drop_last(), key, start) + meta_bytes(es.last(), key, start + data_len(es.drop_last()))
    }
}

/// The keyed contents of `es`, one after the other.
pub open spec fn data_bytes(es: Seq<EntryModel>, key: i32) -> Seq<u8>
    decreases es.len(),
{
    if es.len() == 0 {
        Seq::empty()
    } else {
        data_bytes(es.drop_last(), key) + keyed(es.last().bytes, key as u8)
    }
}

/// The archive that stores `es`: header, keyed entry count, metadata,
/// contents and the two closing bytes `bc`.
#[verifier::opaque]
pub open spec fn archive_bytes(es: Seq<EntryModel>, key: i32) -> Seq<u8> {
    header_bytes(key) + enc_i32(es.len() as i32, key) + metas_bytes(es, key, 58 + metas_len(es) as int) + data_bytes(es, key)
        + seq![98u8, 99]
}

/// An entry as stored: compressed entries hold their ZIP file.
pub open spec fn stored_entry(e: EntryModel) -> Option<EntryModel> {
    match e.compression {
        Compression::Raw => Some(e),
        Compression::Fast => match zipped_of(e.bytes) {
            None => None,
            Some(z) => Some(EntryModel { bytes: z, ..e }),
        },
    }
}

/// The entries as stored, `None` when one cannot be compressed.
pub open spec fn stored_of(es: Seq<EntryModel>) -> Option<Seq<EntryModel>> {
    if forall|i: int| 0 <= i < es.len() ==> (#[trigger] stored_entry(es[i])) is Some {
        Some(Seq::new(es.len(), |i: int| stored_entry(es[i])->Some_0))
    } else {
        None
    }
}

/// Whether a stored entry fits its fields: path and tag below `2^28`
/// bytes, the size in 32 signed bits.
pub open spec fn entry_fits(e: EntryModel) -> bool {
    &&& vstd::utf8::encode_utf8(e.path).len() < 0x1000_0000
    &&& vstd::utf8::encode_utf8(e.tag).len() < 0x1000_0000
    &&& e.bytes.len() <= i32::MAX
}

/// Whether stored entries fit the fields of the archive: the count in 32
/// signed bits, every entry by [`entry_fits`], and every position in 63 bits.
pub open spec fn encodable(es: Seq<EntryModel>) -> bool {
    &&& es.len() <= i32::MAX
    &&& forall|i: int| 0 <= i < es.len() ==> #[trigger] entry_fits(es[i])
    &&& 58 + metas_len(es) + data_len(es) <= i64::MAX
    &&& 58 + metas_len(es) + data_len(es) <= usize::MAX
}

/// Appends the four big-endian bytes of `v`.
fn push_be32(out: &mut Vec<u8>, v: u32)
    ensures
        final(out)@ == old(out)@ + be32(v),
{
    out.push((v / 16777216) as u8);
    out.push(((v / 65536) % 256) as u8);
    out.push(((v / 256) % 256) as u8);
    out.push((v % 256) as u8);
    assert(final(out)@ =~= old(out)@ + be32(v));
}

/// Appends the eight big-endian bytes of `v`.
fn push_be64(out: &mut Vec<u8>, v: u64)
    ensures
        final(out)@ == old(out)@ + be64(v),
{
    push_be32(out, (v / 0x1_0000_0000) as u32);
    push_be32(out, (v % 0x1_0000_0000) as u32);
    assert(final(out)@ =~= old(out)@ + be64(v));
}

/// Appends `n` zero bytes.
fn push_zeros(out: &mut Vec<u8>, n: usize)
    ensures
        final(out)@ == old(out)@ + zeros(n as nat),
{
    let mut i: usize = 0;
    while i < n
        invariant
            i <= n,
            out@ == old(out)@ + zeros(i as nat),
        decreases n - i,
    {
        out.push(0);
        i = i + 1;
        assert(out@ =~= old(out)@ + zeros(i as nat));
    }
}

/// Appends each byte of `bytes` XORed with `k`.
fn push_keyed(out: &mut Vec<u8>, bytes: &[u8], k: u8)
    ensures
        final(out)@ == old(out)@ + keyed(bytes@, k),
{
    let mut i: usize = 0;
    while i < bytes.len()
        invariant
            i <= bytes@.len(),
            out@ == old(out)@ + keyed(bytes@.subrange(0, i as int), k),
        decreases bytes@.len() - i,
    {
        out.push(bytes[i] ^ k);
        i = i + 1;
        assert(out@ =~= old(out)@ + keyed(bytes@.subrange(0, i as int), k));
    }
    assert(bytes@.subrange(0, bytes@.len() as int) =~= bytes@);
}

/// The variable-length form of `v` as bytes.
fn varint_bytes(v: usize) -> (res: Vec<u8>)
    requires
        v < 0x1000_0000,
    ensures
        res@ == varint(v as nat),
{
    let mut out: Vec<u8> = Vec::new();
    if v < 128 {
        out.push(v as u8);
    } else if v < 16384 {
        out.push((v / 128 + 128) as u8);
        out.push((v % 128) as u8);
    } else if v < 2097152 {
        out.push((v / 16384 + 128) as u8);
        out.push(((v / 128) % 128 + 128) as u8);
        out.push((v % 128) as u8);
    } else {
        out.push((v / 2097152 + 128) as u8);
        out.push(((v / 16384) % 128 + 128) as u8);
        out.push(((v / 128) % 128 + 128) as u8);
        out.push((v % 128) as u8);
    }
    assert(out@ =~= varint(v as nat));
    out
}

/// Appends `value` as a keyed variable-length number: its low byte of
/// `key` XORed into each byte. Fails, appending nothing, when the value
/// does not fit the four bytes of the form (`2^28` and above).
pub fn write_number(out: &mut Vec<u8>, value: usize, key: i32) -> (res: Result<(), Error>)
    ensures
        value < 0x1000_0000 ==> res is Ok && final(out)@ == old(out)@ + keyed(varint(value as nat), key as u8),
        value >= 0x1000_0000 ==> cmo3_error(res) && final(out)@ == old(out)@,
{
    if value >= 0x1000_0000 {
        return Err(invalid_cmo3("variable-length number is too large"));
    }
    let bytes = varint_bytes(value);
    push_keyed(out, bytes.as_slice(), key as u8);
    Ok(())
}

/// Appends a keyed, length-prefixed string.
fn push_string(out: &mut Vec<u8>, s: &String, key: i32)
    requires
        vstd::utf8::encode_utf8(s@).len() < 0x1000_0000,
    ensures
        final(out)@ == old(out)@ + enc_string(s@, key),
{
    let bytes = s.as_str().as_bytes();
    let prefix = varint_bytes(bytes.len());
    push_keyed(out, prefix.as_slice(), key as u8);
    push_keyed(out, bytes, key as u8);
    assert(final(out)@ =~= old(out)@ + enc_string(s@, key));
}

/// Appends the metadata record of a stored entry whose contents start at `pos`.
fn push_meta(out: &mut Vec<u8>, e: &ArchiveEntry, key: i32, pos: i64)
    requires
        vstd::utf8::encode_utf8(e.path@).len() < 0x1000_0000,
        vstd::utf8::encode_utf8(e.tag@).len() < 0x1000_0000,
        e.bytes@.len() <= i32::MAX,
        pos >= 0,
    ensures
        final(out)@ == old(out)@ + meta_bytes(e@, key, pos as int),
        final(out)@.len() == old(out)@.len() + meta_len(e@),
{
    let k = key as u8;
    push_string(out, &e.path, key);
    push_string(out, &e.tag, key);
    push_be64(out, (pos as u64) ^ int64_mask(key));
    push_be32(out, (e.bytes.len() as i32 as u32) ^ (key as u32));
    out.push(1u8 ^ k);
    out.push(e.compression.code() ^ k);
    push_zeros(out, 8);
    assert(final(out)@ =~= old(out)@ + meta_bytes(e@, key, pos as int));
}

/// Returns a copy of `bytes`.
fn copy_bytes(bytes: &[u8]) -> (res: Vec<u8>)
    ensures
        res@ == bytes@,
{
    vstd::slice::slice_to_vec(bytes)
}

/// Compresses the entries that are stored compressed.
fn store_entries(entries: &Vec<ArchiveEntry>) -> (res: Result<Vec<ArchiveEntry>, Error>)
    ensures
        match stored_of(entry_views(entries@)) {
            Some(st) => res matches Ok(v) && entry_views(v@) == st,
            None => cmo3_error(res),
        },
{
    let ghost es = entry_views(entries@);
    let mut stored: Vec<ArchiveEntry> = Vec::new();
    let mut i: usize = 0;
    while i < entries.len()
        invariant
            i <= entries@.len(),
            es == entry_views(entries@),
            stored@.len() == i,
            forall|j: int| 0 <= j < i ==> (#[trigger] stored_entry(es[j])) is Some,
            forall|j: int| 0 <= j < i ==> (#[trigger] stored@[j])@ == stored_entry(es[j])->Some_0,
        decreases entries@.len() - i,
    {
        let entry = &entries[i];
        assert(es[i as int] == entry@);
        let bytes = match entry.compression {
            Compression::Raw => copy_bytes(entry.bytes.as_slice()),
            Compression::Fast => match zip_contents(entry.bytes.as_slice()) {
                Ok(zipped) => zipped,
                Err(e) => {
                    assert(stored_entry(es[i as int]) is None);
                    return Err(e);
                },
            },
        };
        stored.push(ArchiveEntry {
            path: entry.path.clone(),
            tag: entry.tag.clone(),
            bytes,
            compression: entry.compression,
        });
        i = i + 1;
    }
    assert(entry_views(stored@) =~= stored_of(es)->Some_0);
    Ok(stored)
}

/// Checks that stored entries fit the archive fields and returns the
/// offset at which their contents start.
fn check_encodable(st: &Vec<ArchiveEntry>) -> (res: Result<usize, Error>)
    ensures
        encodable(entry_views(st@)) ==> res == Ok::<usize, Error>((58 + metas_len(entry_views(st@))) as usize),
        !encodable(entry_views(st@)) ==> cmo3_error(res),
{
    let ghost es = entry_views(st@);
    if st.len() > 0x7fff_ffff {
        return Err(invalid_cmo3("too many archive entries"));
    }
    let mut metas: usize = 0;
    let mut data: usize = 0;
    let mut i: usize = 0;
    while i < st.len()
        invariant
            i <= st@.len(),
            es == entry_views(st@),
            metas == metas_len(es.subrange(0, i as int)),
            data == data_len(es.subrange(0, i as int)),
            58 + metas + data <= i64::MAX,
            58 + metas + data <= usize::MAX,
            forall|j: int| 0 <= j < i ==> #[trigger] entry_fits(es[j]),
        decreases st@.len() - i,
    {
        let e = &st[i];
        assert(es[i as int] == e@);
        let p = e.path.as_str().as_bytes().len();
        let t = e.tag.as_str().as_bytes().len();
        let size = e.bytes.len();
        if p >= 0x1000_0000 || t >= 0x1000_0000 || size > 0x7fff_ffff {
            assert(vstd::utf8::encode_utf8(es[i as int].path).len() == p);
            assert(!entry_fits(es[i as int]));
            assert(!encodable(es));
            return Err(invalid_cmo3("archive string or resource is too large"));
        }
        assert(vstd::utf8::encode_utf8(es[i as int].path).len() == p);
        assert(vstd::utf8::encode_utf8(es[i as int].tag).len() == t);
        let pl: usize = if p < 128 { 1 } else if p < 16384 { 2 } else if p < 2097152 { 3 } else { 4 };
        let tl: usize = if t < 128 { 1 } else if t < 16384 { 2 } else if t < 2097152 { 3 } else { 4 };
        let len = pl + p + tl + t + 22;
        let ghost before = es.subrange(0, i as int);
        let ghost after = es.subrange(0, i + 1);
        assert(after.drop_last() =~= before);
        assert(meta_len(es[i as int]) == len);
        let room = usize::MAX - 58 - metas - data;
        let wide_room = 0x7fff_ffff_ffff_ffffu64 - 58 - metas as u64 - data as u64;
        if room < len || room - len < size || wide_room < len as u64 + size as u64 {
            proof {
                lemma_lens_grow(es, i as int + 1);
            }
            return Err(invalid_cmo3("archive is too large"));
        }
        metas = metas + len;
        data = data + size;
        assert(entry_fits(es[i as int]));
        i = i + 1;
    }
    assert(es.subrange(0, st@.len() as int) =~= es);
    Ok(58 + metas)
}

/// The sizes of a prefix of `es` are at most those of `es`.
proof fn lemma_lens_grow(es: Seq<EntryModel>, n: int)
    requires
        0 <= n <= es.len(),
    ensures
        metas_len(es.subrange(0, n)) <= metas_len(es),
        data_len(es.subrange(0, n)) <= data_len(es),
    decreases es.len(),
{
    if n < es.len() {
        assert(es.drop_last().subrange(0, n) =~= es.subrange(0, n));
        lemma_lens_grow(es.drop_last(), n);
    } else {
        assert(es.subrange(0, n) =~= es);
    }
}

/// Appends the archive header.
fn push_header(out: &mut Vec<u8>, key: i32)
    ensures
        final(out)@ == old(out)@ + header_bytes(key),
{
    let ghost start = out@;
    let head: [u8; 14] = [67, 65, 70, 70, 0, 0, 0, 45, 45, 45, 45, 0, 0, 0];
    let head_vec = copy_bytes(head.as_slice());
    assert(head_vec@ =~= seq![67u8, 65, 70, 70, 0, 0, 0, 45, 45, 45, 45, 0, 0, 0]);
    let mut i: usize = 0;
    while i < 14
        invariant
            i <= 14,
            head_vec@ == seq![67u8, 65, 70, 70, 0, 0, 0, 45, 45, 45, 45, 0, 0, 0],
            out@ == start + head_vec@.subrange(0, i as int),
        decreases 14 - i,
    {
        out.push(head_vec[i]);
        i = i + 1;
        assert(out@ =~= start + head_vec@.subrange(0, i as int));
    }
    assert(head_vec@.subrange(0, 14) =~= head_vec@);
    push_be32(out, key as u32);
    push_zeros(out, 8);
    out.push(127);
    out.push(127);
    push_zeros(out, 26);
    assert(out@ =~= start + header_bytes(key));
}

/// Appends the metadata records of the stored entries.
fn push_metas(out: &mut Vec<u8>, stored: &Vec<ArchiveEntry>, key: i32, start: usize)
    requires
        encodable(entry_views(stored@)),
        start == 58 + metas_len(entry_views(stored@)),
    ensures
        final(out)@ == old(out)@ + metas_bytes(entry_views(stored@), key, start as int),
{
    let ghost es = entry_views(stored@);
    let ghost first = out@;
    let mut pos: usize = start;
    let mut i: usize = 0;
    while i < stored.len()
        invariant
            i <= stored@.len(),
            es == entry_views(stored@),
            encodable(es),
            start == 58 + metas_len(es),
            pos == start + data_len(es.subrange(0, i as int)),
            out@ == first + metas_bytes(es.subrange(0, i as int), key, start as int),
        decreases stored@.len() - i,
    {
        let e = &stored[i];
        assert(es[i as int] == e@);
        assert(entry_fits(es[i as int]));
        let ghost before = es.subrange(0, i as int);
        let ghost after = es.subrange(0, i + 1);
        assert(after.drop_last() =~= before);
        proof {
            lemma_lens_grow(es, i + 1);
        }
        push_meta(out, e, key, pos as i64);
        pos = pos + e.bytes.len();
        i = i + 1;
    }
    assert(es.subrange(0, stored@.len() as int) =~= es);
}

/// Appends the keyed contents of the stored entries.
fn push_data(out: &mut Vec<u8>, stored: &Vec<ArchiveEntry>, key: i32)
    ensures
        final(out)@ == old(out)@ + data_bytes(entry_views(stored@), key),
{
    let ghost es = entry_views(stored@);
    let ghost first = out@;
    let mut i: usize = 0;
    while i < stored.len()
        invariant
            i <= stored@.len(),
            es == entry_views(stored@),
            out@ == first + data_bytes(es.subrange(0, i as int), key),
        decreases stored@.len() - i,
    {
        let e = &stored[i];
        assert(es[i as int] == e@);
        let ghost after = es.subrange(0, i + 1);
        assert(after.drop_last() =~= es.subrange(0, i as int));
        push_keyed(out, e.bytes.as_slice(), key as u8);
        i = i + 1;
    }
    assert(es.subrange(0, stored@.len() as int) =~= es);
}

/// Encodes entries into a CAFF archive with the given key.
pub fn encode_archive(entries: &Vec<ArchiveEntry>, key: i32) -> (res: Result<Vec<u8>, Error>)
    ensures
        match stored_of(entry_views(entries@)) {
            Some(st) => if encodable(st) {
                res matches Ok(v) && v@ == archive_bytes(st, key)
            } else {
                cmo3_error(res)
            },
            None => cmo3_error(res),
        },
{
    let stored = store_entries(entries)?;
    let ghost es = entry_views(stored@);
    let start = check_encodable(&stored)?;
    let mut out: Vec<u8> = Vec::new();
    push_header(&mut out, key);
    push_be32(&mut out, (stored.len() as i32 as u32) ^ (key as u32));
    push_metas(&mut out, &stored, key, start);
    push_data(&mut out, &stored, key);
    out.push(98);
    out.push(99);
    reveal(archive_bytes);
    assert(out@ =~= archive_bytes(es, key));
    Ok(out)
}

} // verus!
