//! What decoding gives back of an encoded archive.

use vstd::prelude::*;
use vstd::utf8::encode_utf8;

use super::reader::{
    archive_of, caff_key, caff_magic, enc_i32_at, enc_i64_at, entries_of, entry_data, meta_at, metas_from,
    number_at, number_from, string_at, u64_be_at, MetaModel,
};
use super::writer::{
    archive_bytes, be32, be64, data_bytes, data_len, enc_i32, enc_i64, enc_string, encodable, entry_fits,
    header_bytes, meta_bytes, meta_len, metas_bytes, metas_len, varint, varint_len,
};
use super::{compression_code, compression_of, int64_mask_of, keyed, Compression, EntryModel};
use crate::moc3::{u32_at, Endianness};

verus! {

/// XORing a byte twice with the same key gives it back.
pub proof fn lemma_xor_u8(x: u8, k: u8)
    ensures
        (x ^ k) ^ k == x,
{
    assert((x ^ k) ^ k == x) by (bit_vector);
}

/// Keying bytes twice with the same key gives them back.
pub proof fn lemma_keyed_twice(s: Seq<u8>, k: u8)
    ensures
        keyed(keyed(s, k), k) == s,
{
    assert forall|i: int| 0 <= i < s.len() implies #[trigger] keyed(keyed(s, k), k)[i] == s[i] by {
        lemma_xor_u8(s[i], k);
    }
    assert(keyed(keyed(s, k), k) =~= s);
}

/// Four big-endian bytes read back give the value written.
pub proof fn lemma_be32(b: Seq<u8>, off: int, v: u32)
    requires
        0 <= off,
        off + 4 <= b.len(),
        b.subrange(off, off + 4) == be32(v),
    ensures
        u32_at(b, off, Endianness::Big) == v,
{
    assert(b[off] == be32(v)[0]);
    assert(b[off + 1] == be32(v)[1]);
    assert(b[off + 2] == be32(v)[2]);
    assert(b[off + 3] == be32(v)[3]);
    let w = v as int;
    assert((w / 16777216) * 16777216 + ((w / 65536) % 256) * 65536 + ((w / 256) % 256) * 256 + w % 256 == w)
        by (nonlinear_arith)
        requires
            0 <= w < 0x1_0000_0000,
    ;
}

/// Eight big-endian bytes read back give the value written.
pub proof fn lemma_be64(b: Seq<u8>, off: int, v: u64)
    requires
        0 <= off,
        off + 8 <= b.len(),
        b.subrange(off, off + 8) == be64(v),
    ensures
        u64_be_at(b, off) == v,
{
    let hi = (v / 0x1_0000_0000) as u32;
    let lo = (v % 0x1_0000_0000) as u32;
    assert(b.subrange(off, off + 4) =~= be32(hi)) by {
        assert forall|i: int| 0 <= i < 4 implies #[trigger] b.subrange(off, off + 4)[i] == be32(hi)[i] by {
            assert(b.subrange(off, off + 8)[i] == be64(v)[i]);
        }
    }
    assert(b.subrange(off + 4, off + 8) =~= be32(lo)) by {
        assert forall|i: int| 0 <= i < 4 implies #[trigger] b.subrange(off + 4, off + 8)[i] == be32(lo)[i] by {
            assert(b.subrange(off, off + 8)[i + 4] == be64(v)[i + 4]);
        }
    }
    lemma_be32(b, off, hi);
    lemma_be32(b, off + 4, lo);
}

/// A keyed 32-bit value reads back as written.
pub proof fn lemma_enc_i32(b: Seq<u8>, off: int, value: i32, key: i32)
    requires
        0 <= value,
        0 <= off,
        off + 4 <= b.len(),
        b.subrange(off, off + 4) == enc_i32(value, key),
    ensures
        enc_i32_at(b, key, off) == value,
{
    let x = value as u32;
    let k = key as u32;
    lemma_be32(b, off, x ^ k);
    assert((x ^ k) ^ k == x) by (bit_vector);
}

/// A keyed 64-bit value reads back as written.
pub proof fn lemma_enc_i64(b: Seq<u8>, off: int, value: i64, key: i32)
    requires
        0 <= value,
        0 <= off,
        off + 8 <= b.len(),
        b.subrange(off, off + 8) == enc_i64(value, key),
    ensures
        enc_i64_at(b, key, off) == value,
{
    let x = value as u64;
    let m = int64_mask_of(key);
    lemma_be64(b, off, x ^ m);
    assert((x ^ m) ^ m == x) by (bit_vector);
}

/// The length of a variable-length number.
pub proof fn lemma_varint_len(n: nat)
    ensures
        varint(n).len() == varint_len(n),
{
}

/// One byte of a keyed variable-length number, unkeyed.
proof fn lemma_number_byte(b: Seq<u8>, k: u8, p: int, n: nat, i: int)
    requires
        0 <= p,
        0 <= i < varint_len(n),
        p + varint_len(n) <= b.len(),
        b.subrange(p, p + varint_len(n)) == keyed(varint(n), k),
    ensures
        (b[p + i] ^ k) == varint(n)[i],
{
    lemma_varint_len(n);
    assert(b.subrange(p, p + varint_len(n))[i] == keyed(varint(n), k)[i]);
    lemma_xor_u8(varint(n)[i], k);
}

/// A keyed variable-length number reads back as written.
pub proof fn lemma_number(b: Seq<u8>, k: u8, p: int, n: nat)
    requires
        0 <= p,
        n < 0x1000_0000,
        p + varint_len(n) <= b.len(),
        b.subrange(p, p + varint_len(n)) == keyed(varint(n), k),
    ensures
        number_at(b, k, p) == Some((n, p + varint_len(n))),
{
    let v = varint(n);
    lemma_varint_len(n);
    let vl = varint_len(n) as int;
    if vl >= 1 {
        lemma_number_byte(b, k, p, n, 0);
    }
    if vl >= 2 {
        lemma_number_byte(b, k, p, n, 1);
    }
    if vl >= 3 {
        lemma_number_byte(b, k, p, n, 2);
    }
    if vl >= 4 {
        lemma_number_byte(b, k, p, n, 3);
    }
    if n < 128 {
        assert((b[p] ^ k) == v[0]);
        assert(number_from(b, k, p, 0, 4) == Some((n, p + 1)));
    } else if n < 16384 {
        assert((b[p] ^ k) == v[0]);
        assert((b[p + 1] ^ k) == v[1]);
        assert(v[0] == (n / 128 + 128) as u8);
        assert(((n / 128 + 128) as u8) as nat == n / 128 + 128);
        assert(number_from(b, k, p + 1, n / 128, 3) == Some((n, p + 2)));
        assert(number_from(b, k, p, 0, 4) == Some((n, p + 2)));
    } else if n < 2097152 {
        assert((b[p] ^ k) == v[0]);
        assert((b[p + 1] ^ k) == v[1]);
        assert((b[p + 2] ^ k) == v[2]);
        assert(((n / 16384 + 128) as u8) as nat == n / 16384 + 128);
        assert((((n / 128) % 128 + 128) as u8) as nat == (n / 128) % 128 + 128);
        assert((n / 16384) * 128 + (n / 128) % 128 == n / 128);
        assert(number_from(b, k, p + 2, n / 128, 2) == Some((n, p + 3)));
        assert(number_from(b, k, p + 1, n / 16384, 3) == Some((n, p + 3)));
        assert(number_from(b, k, p, 0, 4) == Some((n, p + 3)));
    } else {
        assert((b[p] ^ k) == v[0]);
        assert((b[p + 1] ^ k) == v[1]);
        assert((b[p + 2] ^ k) == v[2]);
        assert((b[p + 3] ^ k) == v[3]);
        assert(((n / 2097152 + 128) as u8) as nat == n / 2097152 + 128);
        assert((((n / 16384) % 128 + 128) as u8) as nat == (n / 16384) % 128 + 128);
        assert((((n / 128) % 128 + 128) as u8) as nat == (n / 128) % 128 + 128);
        assert((n / 2097152) * 128 + (n / 16384) % 128 == n / 16384);
        assert((n / 16384) * 128 + (n / 128) % 128 == n / 128);
        assert(number_from(b, k, p + 3, n / 128, 1) == Some((n, p + 4)));
        assert(number_from(b, k, p + 2, n / 16384, 2) == Some((n, p + 4)));
        assert(number_from(b, k, p + 1, n / 2097152, 3) == Some((n, p + 4)));
        assert(number_from(b, k, p, 0, 4) == Some((n, p + 4)));
    }
}

/// The length of a keyed string.
pub open spec fn string_len(s: Seq<char>) -> nat {
    let l = encode_utf8(s).len();
    varint_len(l) + l
}

/// A keyed string reads back as written.
pub proof fn lemma_string(b: Seq<u8>, key: i32, p: int, s: Seq<char>)
    requires
        0 <= p,
        encode_utf8(s).len() < 0x1000_0000,
        p + string_len(s) <= b.len(),
        b.subrange(p, p + string_len(s)) == enc_string(s, key),
    ensures
        string_at(b, key as u8, p) == Some((s, p + string_len(s))),
{
    let k = key as u8;
    let bytes = encode_utf8(s);
    let l = bytes.len();
    let vl = varint_len(l);
    lemma_varint_len(l);
    assert(b.subrange(p, p + vl) =~= keyed(varint(l), k)) by {
        assert forall|i: int| 0 <= i < vl implies #[trigger] b.subrange(p, p + vl)[i] == keyed(varint(l), k)[i] by {
            assert(b.subrange(p, p + string_len(s))[i] == enc_string(s, key)[i]);
        }
    }
    lemma_number(b, k, p, l);
    assert(b.subrange(p + vl, p + vl + l) =~= keyed(bytes, k)) by {
        assert forall|i: int| 0 <= i < l implies #[trigger] b.subrange(p + vl, p + vl + l)[i] == keyed(bytes, k)[i] by {
            assert(b.subrange(p, p + string_len(s))[vl + i] == enc_string(s, key)[vl + i]);
        }
    }
    lemma_keyed_twice(bytes, k);
    vstd::utf8::encode_utf8_valid_utf8(s);
    vstd::utf8::encode_utf8_decode_utf8(s);
}

/// The length of a metadata record.
pub proof fn lemma_meta_len(e: EntryModel, key: i32, pos: int)
    ensures
        meta_bytes(e, key, pos).len() == meta_len(e),
{
    lemma_varint_len(encode_utf8(e.path).len());
    lemma_varint_len(encode_utf8(e.tag).len());
}

/// A metadata record reads back as written.
#[verifier::spinoff_prover]
#[verifier::rlimit(50)]
pub proof fn lemma_meta(b: Seq<u8>, key: i32, p: int, e: EntryModel, pos: int)
    requires
        0 <= p,
        entry_fits(e),
        0 <= pos <= i64::MAX,
        pos <= usize::MAX,
        p + meta_len(e) <= b.len(),
        b.subrange(p, p + meta_len(e)) == meta_bytes(e, key, pos),
    ensures
        meta_at(b, key, p) == Some(
            (
                MetaModel {
                    path: e.path,
                    tag: e.tag,
                    position: pos,
                    size: e.bytes.len() as int,
                    compression: e.compression,
                },
                p + meta_len(e),
            ),
        ),
{
    let k = key as u8;
    let m = meta_bytes(e, key, pos);
    lemma_meta_len(e, key, pos);
    let pl = string_len(e.path) as int;
    let tl = string_len(e.tag) as int;
    lemma_varint_len(encode_utf8(e.path).len());
    lemma_varint_len(encode_utf8(e.tag).len());
    assert(b.subrange(p, p + pl) =~= enc_string(e.path, key)) by {
        assert forall|i: int| 0 <= i < pl implies #[trigger] b.subrange(p, p + pl)[i] == enc_string(e.path, key)[i] by {
            assert(b.subrange(p, p + meta_len(e))[i] == m[i]);
        }
    }
    lemma_string(b, key, p, e.path);
    let p1 = p + pl;
    assert(b.subrange(p1, p1 + tl) =~= enc_string(e.tag, key)) by {
        assert forall|i: int| 0 <= i < tl implies #[trigger] b.subrange(p1, p1 + tl)[i] == enc_string(e.tag, key)[i] by {
            assert(b.subrange(p, p + meta_len(e))[pl + i] == m[pl + i]);
        }
    }
    lemma_string(b, key, p1, e.tag);
    let p2 = p1 + tl;
    assert(b.subrange(p2, p2 + 8) =~= enc_i64(pos as i64, key)) by {
        assert forall|i: int| 0 <= i < 8 implies #[trigger] b.subrange(p2, p2 + 8)[i] == enc_i64(pos as i64, key)[i] by {
            assert(b.subrange(p, p + meta_len(e))[pl + tl + i] == m[pl + tl + i]);
        }
    }
    lemma_enc_i64(b, p2, pos as i64, key);
    let size = e.bytes.len() as i32;
    assert(b.subrange(p2 + 8, p2 + 12) =~= enc_i32(size, key)) by {
        assert forall|i: int| 0 <= i < 4 implies #[trigger] b.subrange(p2 + 8, p2 + 12)[i] == enc_i32(size, key)[i] by {
            assert(b.subrange(p, p + meta_len(e))[pl + tl + 8 + i] == m[pl + tl + 8 + i]);
        }
    }
    lemma_enc_i32(b, p2 + 8, size, key);
    assert(b[p2 + 13] == compression_code(e.compression) ^ k) by {
        assert(b.subrange(p, p + meta_len(e))[pl + tl + 13] == m[pl + tl + 13]);
    }
    lemma_xor_u8(compression_code(e.compression), k);
    assert(compression_of(b[p2 + 13] ^ k) == Some(e.compression));
}

/// The length of the metadata records.
pub proof fn lemma_metas_len(es: Seq<EntryModel>, key: i32, start: int)
    ensures
        metas_bytes(es, key, start).len() == metas_len(es),
    decreases es.len(),
{
    if es.len() > 0 {
        lemma_metas_len(es.drop_last(), key, start);
        lemma_meta_len(es.last(), key, start + data_len(es.drop_last()));
    }
}

/// The metadata record of entry `i` stands after those of the entries
/// before it.
pub proof fn lemma_metas_at(es: Seq<EntryModel>, key: i32, start: int, i: int)
    requires
        0 <= i < es.len(),
    ensures
        metas_bytes(es, key, start).subrange(
            metas_len(es.take(i)) as int,
            (metas_len(es.take(i)) + meta_len(es[i])) as int,
        ) == meta_bytes(es[i], key, start + data_len(es.take(i))),
        metas_len(es.take(i)) + meta_len(es[i]) <= metas_len(es),
    decreases es.len(),
{
    let n = es.len() as int;
    let front = es.drop_last();
    lemma_metas_len(front, key, start);
    lemma_meta_len(es.last(), key, start + data_len(front));
    if i == n - 1 {
        assert(es.take(i) =~= front);
        assert(metas_bytes(es, key, start) == metas_bytes(front, key, start) + meta_bytes(
            es.last(),
            key,
            start + data_len(front),
        ));
        assert(metas_bytes(es, key, start).subrange(metas_len(front) as int, (metas_len(front) + meta_len(es[i])) as int)
            =~= meta_bytes(es[i], key, start + data_len(front)));
    } else {
        lemma_metas_at(front, key, start, i);
        assert(front.take(i) =~= es.take(i));
        assert(front[i] == es[i]);
        let lo = metas_len(es.take(i)) as int;
        let hi = lo + meta_len(es[i]);
        assert(metas_bytes(es, key, start).subrange(lo, hi) =~= metas_bytes(front, key, start).subrange(lo, hi));
    }
}

/// The length of the keyed contents.
pub proof fn lemma_data_len(es: Seq<EntryModel>, key: i32)
    ensures
        data_bytes(es, key).len() == data_len(es),
    decreases es.len(),
{
    if es.len() > 0 {
        lemma_data_len(es.drop_last(), key);
    }
}

/// The contents of entry `i` stand after those of the entries before it.
pub proof fn lemma_data_at(es: Seq<EntryModel>, key: i32, i: int)
    requires
        0 <= i < es.len(),
    ensures
        data_bytes(es, key).subrange(data_len(es.take(i)) as int, (data_len(es.take(i)) + es[i].bytes.len()) as int)
            == keyed(es[i].bytes, key as u8),
        data_len(es.take(i)) + es[i].bytes.len() <= data_len(es),
    decreases es.len(),
{
    let n = es.len() as int;
    let front = es.drop_last();
    lemma_data_len(front, key);
    if i == n - 1 {
        assert(es.take(i) =~= front);
        assert(data_bytes(es, key).subrange(data_len(front) as int, (data_len(front) + es[i].bytes.len()) as int)
            =~= keyed(es[i].bytes, key as u8));
    } else {
        lemma_data_at(front, key, i);
        assert(front.take(i) =~= es.take(i));
        assert(front[i] == es[i]);
        let lo = data_len(es.take(i)) as int;
        let hi = lo + es[i].bytes.len();
        assert(data_bytes(es, key).subrange(lo, hi) =~= data_bytes(front, key).subrange(lo, hi));
    }
}

/// Where the parts of an encoded archive stand.
pub proof fn lemma_archive_layout(es: Seq<EntryModel>, key: i32)
    ensures
        ({
            let b = archive_bytes(es, key);
            let start = (58 + metas_len(es)) as int;
            let m = metas_bytes(es, key, start);
            let d = data_bytes(es, key);
            &&& b.len() == 60 + metas_len(es) + data_len(es)
            &&& b.subrange(0, 4) == super::reader::caff_magic()
            &&& b.subrange(14, 18) == be32(key as u32)
            &&& b.subrange(54, 58) == enc_i32(es.len() as i32, key)
            &&& forall|j: int| 0 <= j < m.len() ==> #[trigger] b[58 + j] == m[j]
            &&& forall|j: int| 0 <= j < d.len() ==> #[trigger] b[start + j] == d[j]
        }),
{
    reveal(archive_bytes);
    let b = archive_bytes(es, key);
    let start = (58 + metas_len(es)) as int;
    let m = metas_bytes(es, key, start);
    let d = data_bytes(es, key);
    lemma_metas_len(es, key, start);
    lemma_data_len(es, key);
    let h = header_bytes(key);
    let c = enc_i32(es.len() as i32, key);
    assert(h.len() == 54);
    assert(b =~= h + c + m + d + seq![98u8, 99]);
    assert(b.subrange(0, 4) =~= super::reader::caff_magic());
    assert(b.subrange(14, 18) =~= be32(key as u32));
    assert(b.subrange(54, 58) =~= c);
}

/// The metadata that decoding reads for entry `i` of an encoded archive.
pub open spec fn meta_of(es: Seq<EntryModel>, i: int) -> MetaModel {
    MetaModel {
        path: es[i].path,
        tag: es[i].tag,
        position: (58 + metas_len(es) + data_len(es.take(i))) as int,
        size: es[i].bytes.len() as int,
        compression: es[i].compression,
    }
}

/// Prefix sums of sizes grow.
proof fn lemma_lens_take(es: Seq<EntryModel>, i: int, j: int)
    requires
        0 <= i <= j <= es.len(),
    ensures
        metas_len(es.take(i)) <= metas_len(es.take(j)),
        data_len(es.take(i)) <= data_len(es.take(j)),
    decreases j - i,
{
    if i < j {
        lemma_lens_take(es, i, j - 1);
        assert(es.take(j).drop_last() =~= es.take(j - 1));
    }
}

/// Each metadata record is at least 24 bytes long.
proof fn lemma_metas_len_bound(es: Seq<EntryModel>)
    ensures
        metas_len(es) >= 24 * es.len(),
    decreases es.len(),
{
    if es.len() > 0 {
        lemma_metas_len_bound(es.drop_last());
    }
}

/// Decoding the archive of `es` with key `key` gives back the key and the
/// entries, when every entry is stored as is and the entries fit the
/// archive's fields.
pub proof fn lemma_decode_encode(es: Seq<EntryModel>, key: i32)
    requires
        encodable(es),
        forall|i: int| 0 <= i < es.len() ==> (#[trigger] es[i]).compression == Compression::Raw,
    ensures
        archive_of(archive_bytes(es, key)) == Some((key, es)),
{
    let b = archive_bytes(es, key);
    let n = es.len() as int;
    let start = (58 + metas_len(es)) as int;
    lemma_archive_layout(es, key);
    lemma_metas_len(es, key, start);
    lemma_data_len(es, key);
    lemma_be32(b, 14, key as u32);
    assert(((key as u32) as i32) == key) by (bit_vector);
    assert(caff_key(b) == key);
    lemma_enc_i32(b, 54, es.len() as i32, key);
    lemma_metas_len_bound(es);
    let ms = Seq::new(es.len(), |i: int| meta_of(es, i));
    lemma_metas_from(es, key, 0);
    assert(ms.subrange(0, n) =~= ms);
    assert(es.take(0) =~= Seq::<EntryModel>::empty());
    assert(metas_from(b, key, 58, es.len()) == Some((ms, start as int)));
    assert forall|i: int| 0 <= i < n implies #[trigger] entry_data(b, key, ms[i]) == Some(es[i].bytes) by {
        lemma_entry_data(es, key, i);
    }
    let got = entries_of(b, key, ms)->Some_0;
    assert(got =~= es);
}

/// Decoding the metadata records of an archive from record `i` on.
#[verifier::spinoff_prover]
#[verifier::rlimit(50)]
proof fn lemma_metas_from(es: Seq<EntryModel>, key: i32, i: int)
    requires
        encodable(es),
        0 <= i <= es.len(),
    ensures
        ({
            let b = archive_bytes(es, key);
            let n = es.len() as int;
            let ms = Seq::new(es.len(), |j: int| meta_of(es, j));
            metas_from(b, key, (58 + metas_len(es.take(i))) as int, (n - i) as nat) == Some(
                (ms.subrange(i, n), 58 + metas_len(es) as int),
            )
        }),
    decreases es.len() - i,
{
    let b = archive_bytes(es, key);
    let n = es.len() as int;
    let start = (58 + metas_len(es)) as int;
    let ms = Seq::new(es.len(), |j: int| meta_of(es, j));
    lemma_metas_len(es, key, start);
    lemma_data_len(es, key);
    if i == n {
        assert(es.take(i) =~= es);
        assert(ms.subrange(i, n) =~= Seq::<MetaModel>::empty());
    } else {
        lemma_metas_from(es, key, i + 1);
        lemma_metas_at(es, key, start, i);
        lemma_data_at(es, key, i);
        lemma_lens_take(es, i, n);
        assert(es.take(n) =~= es);
        let p = (58 + metas_len(es.take(i))) as int;
        let m = metas_bytes(es, key, start);
        let lo = metas_len(es.take(i)) as int;
        let hi = lo + meta_len(es[i]);
        lemma_archive_layout(es, key);
        assert forall|j: int| 0 <= j < meta_len(es[i]) implies #[trigger] b.subrange(p, p + meta_len(es[i]))[j]
            == m.subrange(lo, hi)[j] by {
            assert(b[58 + (lo + j)] == m[lo + j]);
        }
        assert(b.subrange(p, p + meta_len(es[i])) =~= m.subrange(lo, hi));
        assert(entry_fits(es[i]));
        let pos = start + data_len(es.take(i));
        assert(pos <= start + data_len(es));
        lemma_meta(b, key, p, es[i], pos);
        assert(es.take(i + 1).drop_last() =~= es.take(i));
        assert(seq![ms[i]] + ms.subrange(i + 1, n) =~= ms.subrange(i, n));
    }
}

/// The contents of entry `i` of an archive read back as written.
proof fn lemma_entry_data(es: Seq<EntryModel>, key: i32, i: int)
    requires
        encodable(es),
        0 <= i < es.len(),
        es[i].compression == Compression::Raw,
    ensures
        entry_data(archive_bytes(es, key), key, meta_of(es, i)) == Some(es[i].bytes),
{
    let b = archive_bytes(es, key);
    let start = (58 + metas_len(es)) as int;
    lemma_metas_len(es, key, start);
    lemma_data_len(es, key);
    lemma_data_at(es, key, i);
    let d = data_bytes(es, key);
    let lo = data_len(es.take(i)) as int;
    let hi = lo + es[i].bytes.len();
    let pos = start + lo;
    lemma_archive_layout(es, key);
    assert forall|j: int| 0 <= j < es[i].bytes.len() implies #[trigger] b.subrange(pos, pos + es[i].bytes.len())[j]
        == d.subrange(lo, hi)[j] by {
        assert(b[start + (lo + j)] == d[lo + j]);
    }
    assert(b.subrange(pos, pos + es[i].bytes.len()) =~= d.subrange(lo, hi));
    lemma_keyed_twice(es[i].bytes, key as u8);
}

/// A number written with `write_number` after any bytes reads back with
/// `read_number` at the position where it was written, whatever follows,
/// and the reader ends one to four bytes later, by the size of the value.
pub proof fn lemma_written_number(before: Seq<u8>, n: nat, key: i32, after: Seq<u8>)
    requires
        n < 0x1000_0000,
    ensures
        number_at(before + keyed(varint(n), key as u8) + after, key as u8, before.len() as int) == Some(
            (n, before.len() + varint_len(n) as int),
        ),
        varint_len(n) == (if n < 0x80 { 1int } else if n < 0x4000 { 2int } else if n < 0x20_0000 { 3int } else { 4int }),
{
    let b = before + keyed(varint(n), key as u8) + after;
    lemma_varint_len(n);
    let p = before.len() as int;
    assert(b.subrange(p, p + varint_len(n)) =~= keyed(varint(n), key as u8));
    lemma_number(b, key as u8, p, n);
}

} // verus!
