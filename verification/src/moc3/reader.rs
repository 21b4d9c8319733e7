//! Bounds-checked fixed-width reads from the bytes of a MOC3 file.

use vstd::prelude::*;

use super::types::Endianness;
use crate::error::{invalid_moc3, moc3_error, Error};

verus! {

/// The unsigned 16-bit value stored at `off` in the given byte order.
pub open spec fn u16_at(b: Seq<u8>, off: int, e: Endianness) -> u16 {
    match e {
        Endianness::Little => (b[off] as int + b[off + 1] as int * 256) as u16,
        Endianness::Big => (b[off] as int * 256 + b[off + 1] as int) as u16,
    }
}

/// The signed 16-bit value stored at `off`.
pub open spec fn i16_at(b: Seq<u8>, off: int, e: Endianness) -> i16 {
    u16_at(b, off, e) as i16
}

/// The unsigned 32-bit value stored at `off` in the given byte order.
pub open spec fn u32_at(b: Seq<u8>, off: int, e: Endianness) -> u32 {
    match e {
        Endianness::Little => (b[off] as int + b[off + 1] as int * 256 + b[off + 2] as int * 65536
            + b[off + 3] as int * 16777216) as u32,
        Endianness::Big => (b[off] as int * 16777216 + b[off + 1] as int * 65536 + b[off + 2] as int
            * 256 + b[off + 3] as int) as u32,
    }
}

/// The signed 32-bit value stored at `off`.
pub open spec fn i32_at(b: Seq<u8>, off: int, e: Endianness) -> i32 {
    u32_at(b, off, e) as i32
}

/// `count` consecutive unsigned 32-bit values starting at `off`.
pub open spec fn table_u32(b: Seq<u8>, e: Endianness, off: int, count: nat) -> Seq<u32> {
    Seq::new(count, |i: int| u32_at(b, off + 4 * i, e))
}

/// `count` consecutive signed 32-bit values starting at `off`.
pub open spec fn table_i32(b: Seq<u8>, e: Endianness, off: int, count: nat) -> Seq<i32> {
    Seq::new(count, |i: int| i32_at(b, off + 4 * i, e))
}

/// `count` consecutive unsigned 16-bit values starting at `off`.
pub open spec fn table_u16(b: Seq<u8>, e: Endianness, off: int, count: nat) -> Seq<u16> {
    Seq::new(count, |i: int| u16_at(b, off + 2 * i, e))
}

/// `count` consecutive signed 16-bit values starting at `off`.
pub open spec fn table_i16(b: Seq<u8>, e: Endianness, off: int, count: nat) -> Seq<i16> {
    Seq::new(count, |i: int| i16_at(b, off + 2 * i, e))
}

/// `count` consecutive bytes starting at `off`.
pub open spec fn table_u8(b: Seq<u8>, off: int, count: nat) -> Seq<u8> {
    Seq::new(count, |i: int| b[off + i])
}

/// The length of the prefix of `raw` before its first zero byte.
pub open spec fn nul_index(raw: Seq<u8>) -> nat
    decreases raw.len(),
{
    if raw.len() == 0 {
        0
    } else if raw[0] == 0 {
        0
    } else {
        1 + nul_index(raw.drop_first())
    }
}

/// The identifier bytes of a 64-byte, zero-padded string field at `off`.
pub open spec fn str64_bytes(b: Seq<u8>, off: int) -> Seq<u8> {
    let raw = b.subrange(off, off + 64);
    raw.take(nul_index(raw) as int)
}

/// What `String::from_utf8_lossy` yields for `bytes`.
pub uninterp spec fn lossy_text(bytes: Seq<u8>) -> Seq<char>;

/// Converts bytes to text, replacing invalid UTF-8 sequences.
///
/// Calls `String::from_utf8_lossy`. Claimed: the result depends on the bytes
/// alone, and is their UTF-8 decoding when they are valid UTF-8, as the
/// documentation of that function states.
#[verifier::external_body]
fn lossy_string(bytes: &[u8]) -> (res: String)
    ensures
        res@ == lossy_text(bytes@),
        vstd::utf8::valid_utf8(bytes@) ==> res@ == vstd::utf8::decode_utf8(bytes@),
{
    String::from_utf8_lossy(bytes).into_owned()
}

proof fn lemma_nul_index(raw: Seq<u8>, i: int)
    requires
        0 <= i <= raw.len(),
        forall|j: int| 0 <= j < i ==> raw[j] != 0,
        i == raw.len() || raw[i] == 0,
    ensures
        nul_index(raw) == i,
    decreases i,
{
    if i > 0 {
        lemma_nul_index(raw.drop_first(), i - 1);
    }
}

/// A cursor-free reader over the bytes of a MOC3 file in one byte order.
pub struct Reader<'a> {
    bytes: &'a [u8],
    endianness: Endianness,
}

impl<'a> Reader<'a> {
    /// The bytes read.
    pub closed spec fn bytes(&self) -> Seq<u8> {
        self.bytes@
    }

    /// The byte order of multi-byte values.
    pub closed spec fn order(&self) -> Endianness {
        self.endianness
    }

    /// Creates a reader over `bytes`.
    pub fn new(bytes: &'a [u8], endianness: Endianness) -> (res: Self)
        ensures
            res.bytes() == bytes@,
            res.order() == endianness,
    {
        Self { bytes, endianness }
    }

    /// Returns the length of the underlying bytes.
    pub fn len(&self) -> (res: usize)
        ensures
            res == self.bytes().len(),
    {
        self.bytes.len()
    }

    /// Reads one byte.
    pub fn u8(&self, offset: usize) -> (res: Result<u8, Error>)
        ensures
            offset < self.bytes().len() ==> res == Ok::<u8, Error>(self.bytes()[offset as int]),
            offset >= self.bytes().len() ==> moc3_error(res),
    {
        if offset < self.bytes.len() {
            Ok(self.bytes[offset])
        } else {
            Err(invalid_moc3("byte is outside the file"))
        }
    }

    /// Reads an unsigned 16-bit value.
    pub fn u16(&self, offset: usize) -> (res: Result<u16, Error>)
        ensures
            offset + 2 <= self.bytes().len() ==> res == Ok::<u16, Error>(
                u16_at(self.bytes(), offset as int, self.order()),
            ),
            offset + 2 > self.bytes().len() ==> moc3_error(res),
    {
        let len = self.bytes.len();
        if offset > len || len - offset < 2 {
            return Err(invalid_moc3("read is incomplete"));
        }
        let b0 = self.bytes[offset] as u16;
        let b1 = self.bytes[offset + 1] as u16;
        match self.endianness {
            Endianness::Little => Ok(b0 + b1 * 256),
            Endianness::Big => Ok(b0 * 256 + b1),
        }
    }

    /// Reads a signed 16-bit value.
    pub fn i16(&self, offset: usize) -> (res: Result<i16, Error>)
        ensures
            offset + 2 <= self.bytes().len() ==> res == Ok::<i16, Error>(
                i16_at(self.bytes(), offset as int, self.order()),
            ),
            offset + 2 > self.bytes().len() ==> moc3_error(res),
    {
        let raw = self.u16(offset)?;
        Ok(raw as i16)
    }

    /// Reads an unsigned 32-bit value.
    pub fn u32(&self, offset: usize) -> (res: Result<u32, Error>)
        ensures
            offset + 4 <= self.bytes().len() ==> res == Ok::<u32, Error>(
                u32_at(self.bytes(), offset as int, self.order()),
            ),
            offset + 4 > self.bytes().len() ==> moc3_error(res),
    {
        let len = self.bytes.len();
        if offset > len || len - offset < 4 {
            return Err(invalid_moc3("read is incomplete"));
        }
        let b0 = self.bytes[offset] as u32;
        let b1 = self.bytes[offset + 1] as u32;
        let b2 = self.bytes[offset + 2] as u32;
        let b3 = self.bytes[offset + 3] as u32;
        match self.endianness {
            Endianness::Little => Ok(b0 + b1 * 256 + b2 * 65536 + b3 * 16777216),
            Endianness::Big => Ok(b0 * 16777216 + b1 * 65536 + b2 * 256 + b3),
        }
    }

    /// Reads a signed 32-bit value.
    pub fn i32(&self, offset: usize) -> (res: Result<i32, Error>)
        ensures
            offset + 4 <= self.bytes().len() ==> res == Ok::<i32, Error>(
                i32_at(self.bytes(), offset as int, self.order()),
            ),
            offset + 4 > self.bytes().len() ==> moc3_error(res),
    {
        let raw = self.u32(offset)?;
        Ok(raw as i32)
    }

    /// Reads the raw bit pattern of a single-precision float.
    pub fn f32_bits(&self, offset: usize) -> (res: Result<u32, Error>)
        ensures
            offset + 4 <= self.bytes().len() ==> res == Ok::<u32, Error>(
                u32_at(self.bytes(), offset as int, self.order()),
            ),
            offset + 4 > self.bytes().len() ==> moc3_error(res),
    {
        self.u32(offset)
    }

    /// Whether a section of `count` values of `width` bytes at `offset` lies
    /// inside the file; an overflowing size or range is an error too.
    fn section_fits(&self, offset: usize, count: usize, width: usize) -> (res: Result<(), Error>)
        requires
            1 <= width <= 4,
        ensures
            res is Ok <==> offset + count * width <= self.bytes().len(),
            res matches Err(e) ==> e is InvalidMoc3,
    {
        let len = self.bytes.len();
        let byte_len = match count.checked_mul(width) {
            Some(value) => value,
            None => return Err(invalid_moc3("section size overflows")),
        };
        let end = match offset.checked_add(byte_len) {
            Some(value) => value,
            None => return Err(invalid_moc3("section range overflows")),
        };
        if end > len {
            return Err(invalid_moc3("section is incomplete"));
        }
        Ok(())
    }

    /// Reads `count` unsigned 32-bit values starting at `offset`.
    pub fn section_u32(&self, offset: usize, count: usize) -> (res: Result<Vec<u32>, Error>)
        ensures
            res is Ok <==> offset + count * 4 <= self.bytes().len(),
            res matches Ok(v) ==> v@ == table_u32(self.bytes(), self.order(), offset as int, count as nat),
            res matches Err(e) ==> e is InvalidMoc3,
    {
        self.section_fits(offset, count, 4)?;
        let mut values: Vec<u32> = Vec::new();
        let len = self.len();
        let mut index: usize = 0;
        while index < count
            invariant
                len == self.bytes().len(),
                index <= count,
                offset + count * 4 <= self.bytes().len(),
                values@ =~= table_u32(self.bytes(), self.order(), offset as int, index as nat),
            decreases count - index,
        {
            let value = self.u32(offset + index * 4)?;
            values.push(value);
            index = index + 1;
        }
        Ok(values)
    }

    /// Reads `count` signed 32-bit values starting at `offset`.
    pub fn section_i32(&self, offset: usize, count: usize) -> (res: Result<Vec<i32>, Error>)
        ensures
            res is Ok <==> offset + count * 4 <= self.bytes().len(),
            res matches Ok(v) ==> v@ == table_i32(self.bytes(), self.order(), offset as int, count as nat),
            res matches Err(e) ==> e is InvalidMoc3,
    {
        self.section_fits(offset, count, 4)?;
        let mut values: Vec<i32> = Vec::new();
        let len = self.len();
        let mut index: usize = 0;
        while index < count
            invariant
                len == self.bytes().len(),
                index <= count,
                offset + count * 4 <= self.bytes().len(),
                values@ =~= table_i32(self.bytes(), self.order(), offset as int, index as nat),
            decreases count - index,
        {
            let value = self.i32(offset + index * 4)?;
            values.push(value);
            index = index + 1;
        }
        Ok(values)
    }

    /// Reads `count` unsigned 16-bit values starting at `offset`.
    pub fn section_u16(&self, offset: usize, count: usize) -> (res: Result<Vec<u16>, Error>)
        ensures
            res is Ok <==> offset + count * 2 <= self.bytes().len(),
            res matches Ok(v) ==> v@ == table_u16(self.bytes(), self.order(), offset as int, count as nat),
            res matches Err(e) ==> e is InvalidMoc3,
    {
        self.section_fits(offset, count, 2)?;
        let mut values: Vec<u16> = Vec::new();
        let len = self.len();
        let mut index: usize = 0;
        while index < count
            invariant
                len == self.bytes().len(),
                index <= count,
                offset + count * 2 <= self.bytes().len(),
                values@ =~= table_u16(self.bytes(), self.order(), offset as int, index as nat),
            decreases count - index,
        {
            let value = self.u16(offset + index * 2)?;
            values.push(value);
            index = index + 1;
        }
        Ok(values)
    }

    /// Reads `count` signed 16-bit values starting at `offset`.
    pub fn section_i16(&self, offset: usize, count: usize) -> (res: Result<Vec<i16>, Error>)
        ensures
            res is Ok <==> offset + count * 2 <= self.bytes().len(),
            res matches Ok(v) ==> v@ == table_i16(self.bytes(), self.order(), offset as int, count as nat),
            res matches Err(e) ==> e is InvalidMoc3,
    {
        self.section_fits(offset, count, 2)?;
        let mut values: Vec<i16> = Vec::new();
        let len = self.len();
        let mut index: usize = 0;
        while index < count
            invariant
                len == self.bytes().len(),
                index <= count,
                offset + count * 2 <= self.bytes().len(),
                values@ =~= table_i16(self.bytes(), self.order(), offset as int, index as nat),
            decreases count - index,
        {
            let value = self.i16(offset + index * 2)?;
            values.push(value);
            index = index + 1;
        }
        Ok(values)
    }

    /// Reads `count` bytes starting at `offset`.
    pub fn section_u8(&self, offset: usize, count: usize) -> (res: Result<Vec<u8>, Error>)
        ensures
            res is Ok <==> offset + count <= self.bytes().len(),
            res matches Ok(v) ==> v@ == table_u8(self.bytes(), offset as int, count as nat),
            res matches Err(e) ==> e is InvalidMoc3,
    {
        self.section_fits(offset, count, 1)?;
        let mut values: Vec<u8> = Vec::new();
        let len = self.len();
        let mut index: usize = 0;
        while index < count
            invariant
                len == self.bytes().len(),
                index <= count,
                offset + count <= self.bytes().len(),
                values@ =~= table_u8(self.bytes(), offset as int, index as nat),
            decreases count - index,
        {
            let value = self.u8(offset + index)?;
            values.push(value);
            index = index + 1;
        }
        Ok(values)
    }

    /// Reads a 64-byte, zero-padded identifier.
    pub fn str64(&self, offset: usize) -> (res: Result<String, Error>)
        ensures
            offset + 64 <= self.bytes().len() ==> (res matches Ok(s) && s@ == lossy_text(
                str64_bytes(self.bytes(), offset as int),
            )),
            offset + 64 > self.bytes().len() ==> moc3_error(res),
    {
        let len = self.bytes.len();
        if offset > len || len - offset < 64 {
            return Err(invalid_moc3("string is incomplete"));
        }
        let ghost raw = self.bytes@.subrange(offset as int, offset + 64);
        let mut end: usize = 0;
        while end < 64 && self.bytes[offset + end] != 0
            invariant
                len == self.bytes@.len(),
                end <= 64,
                offset + 64 <= self.bytes@.len(),
                raw == self.bytes@.subrange(offset as int, offset + 64),
                forall|j: int| 0 <= j < end ==> raw[j] != 0,
            decreases 64 - end,
        {
            end = end + 1;
        }
        proof {
            lemma_nul_index(raw, end as int);
        }
        let mut text: Vec<u8> = Vec::new();
        let mut index: usize = 0;
        while index < end
            invariant
                len == self.bytes@.len(),
                index <= end <= 64,
                offset + 64 <= self.bytes@.len(),
                raw == self.bytes@.subrange(offset as int, offset + 64),
                text@ =~= raw.take(index as int),
            decreases end - index,
        {
            text.push(self.bytes[offset + index]);
            index = index + 1;
        }
        Ok(lossy_string(text.as_slice()))
    }
}

} // verus!
