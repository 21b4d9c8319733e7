//! The section-offset table, the count section and the checked range helpers
//! that every entity parser of the MOC3 format shares.

use vstd::prelude::*;

use super::reader::{lossy_text, str64_bytes, table_i16, table_i32, table_u16, table_u32, table_u8, u32_at, Reader};
use super::types::{count_words_of, version_of, Canvas, CanvasModel, Endianness, Moc3Version, Parameter, ParameterModel, Rgb};
use crate::error::{invalid_moc3, moc3_error, Error};

verus! {

/// The number of entries in the section offset table.
pub const OFFSET_COUNT: usize = 160;
/// Where the section offset table starts.
pub const OFFSET_TABLE_START: usize = 0x40;
/// Where the section offset table ends.
pub const OFFSET_TABLE_END: usize = 0x2c0;

/// The header of a MOC3 file: its magic, version and byte order.
pub open spec fn header_of(b: Seq<u8>) -> Option<(Moc3Version, Endianness)> {
    if b.len() < 64 || b[0] != 77 || b[1] != 79 || b[2] != 67 || b[3] != 51 {
        None
    } else {
        match version_of(b[4]) {
            None => None,
            Some(v) => if b[5] == 0 {
                Some((v, Endianness::Little))
            } else if b[5] == 1 {
                Some((v, Endianness::Big))
            } else {
                None
            },
        }
    }
}

/// Checks the magic bytes and reads the version and byte order.
pub fn parse_header(bytes: &[u8]) -> (res: Result<(Moc3Version, Endianness), Error>)
    ensures
        match header_of(bytes@) {
            Some(h) => res == Ok::<(Moc3Version, Endianness), Error>(h),
            None => moc3_error(res),
        },
{
    if bytes.len() < 64 {
        return Err(invalid_moc3("header is shorter than 64 bytes"));
    }
    if bytes[0] != 77 || bytes[1] != 79 || bytes[2] != 67 || bytes[3] != 51 {
        return Err(invalid_moc3("magic must be MOC3"));
    }
    let version = Moc3Version::from_raw(bytes[4])?;
    let endianness = if bytes[5] == 0 {
        Endianness::Little
    } else if bytes[5] == 1 {
        Endianness::Big
    } else {
        return Err(invalid_moc3("invalid endianness flag"));
    };
    Ok((version, endianness))
}

/// The raw value of entry `i` of the section offset table.
pub open spec fn raw_offset(b: Seq<u8>, e: Endianness, i: int) -> usize {
    u32_at(b, 0x40 + 4 * i, e) as usize
}

/// Whether a section offset is acceptable: absent, at the end of the file,
/// or 4-aligned inside the file after the offset table.
pub open spec fn offset_valid(v: usize, len: nat) -> bool {
    v == 0 || v == len || (0x2c0 <= v && v < len && v % 4 == 0)
}

/// The section offset table.
pub open spec fn offsets_of(b: Seq<u8>, e: Endianness) -> Seq<usize> {
    Seq::new(160, |i: int| raw_offset(b, e, i))
}

/// Whether the section offset table is complete and acceptable.
pub open spec fn offsets_ok(b: Seq<u8>, e: Endianness) -> bool {
    &&& b.len() >= 0x2c0
    &&& forall|i: int| 0 <= i < 160 ==> offset_valid(#[trigger] raw_offset(b, e, i), b.len())
    &&& raw_offset(b, e, 0) != 0
    &&& raw_offset(b, e, 1) != 0
}

/// Reads and checks the section offset table.
pub fn parse_offsets(reader: &Reader) -> (res: Result<Vec<usize>, Error>)
    ensures
        res is Ok <==> offsets_ok(reader.bytes(), reader.order()),
        res matches Ok(v) ==> v@ == offsets_of(reader.bytes(), reader.order()),
        res matches Err(e) ==> e is InvalidMoc3,
{
    let len = reader.len();
    if len < OFFSET_TABLE_END {
        return Err(invalid_moc3("section offset table is incomplete"));
    }
    let ghost b = reader.bytes();
    let ghost e = reader.order();
    let mut offsets: Vec<usize> = Vec::new();
    let mut index: usize = 0;
    while index < OFFSET_COUNT
        invariant
            index <= 160,
            len == b.len(),
            len >= 0x2c0,
            b == reader.bytes(),
            e == reader.order(),
            offsets@.len() == index,
            forall|i: int| 0 <= i < index ==> offsets@[i] == raw_offset(b, e, i),
            forall|i: int| 0 <= i < index ==> offset_valid(#[trigger] raw_offset(b, e, i), b.len()),
        decreases 160 - index,
    {
        let raw = reader.u32(OFFSET_TABLE_START + index * 4)?;
        let value = raw as usize;
        if value != 0 && value != len && (value < OFFSET_TABLE_END || value >= len || value % 4 != 0) {
            assert(!offset_valid(raw_offset(b, e, index as int), b.len()));
            return Err(invalid_moc3("invalid section offset"));
        }
        offsets.push(value);
        index = index + 1;
    }
    if offsets[0] == 0 || offsets[1] == 0 {
        return Err(invalid_moc3("count or canvas section is missing"));
    }
    assert(offsets@ =~= offsets_of(b, e));
    Ok(offsets)
}

/// Entity counts read from the count section.
#[derive(Debug, Clone, Copy, PartialEq, Eq)]
pub struct Counts {
    pub parts: usize,
    pub deformers: usize,
    pub warp_deformers: usize,
    pub rotation_deformers: usize,
    pub art_meshes: usize,
    pub parameters: usize,
    pub part_keyforms: usize,
    pub warp_deformer_keyforms: usize,
    pub rotation_deformer_keyforms: usize,
    pub art_mesh_keyforms: usize,
    pub keyform_positions: usize,
    pub parameter_binding_indices: usize,
    pub keyform_bindings: usize,
    pub parameter_bindings: usize,
    pub keys: usize,
    pub uvs: usize,
    pub position_indices: usize,
    pub drawable_masks: usize,
    pub glues: usize,
    pub glue_vertices: usize,
    pub glue_keyforms: usize,
    pub keyform_multiply_colors: usize,
    pub keyform_screen_colors: usize,
}

/// Word `i` of the count section, or zero past the words the version has.
pub open spec fn count_value(b: Seq<u8>, e: Endianness, off: usize, words: nat, i: int) -> usize {
    if i < words {
        u32_at(b, off + 4 * i, e) as usize
    } else {
        0
    }
}

/// The entity counts of a file whose count section starts at `off`.
pub open spec fn counts_of(b: Seq<u8>, e: Endianness, off: usize, v: Moc3Version) -> Counts {
    let w = count_words_of(v);
    Counts {
        parts: count_value(b, e, off, w, 0),
        deformers: count_value(b, e, off, w, 1),
        warp_deformers: count_value(b, e, off, w, 2),
        rotation_deformers: count_value(b, e, off, w, 3),
        art_meshes: count_value(b, e, off, w, 4),
        parameters: count_value(b, e, off, w, 5),
        part_keyforms: count_value(b, e, off, w, 6),
        warp_deformer_keyforms: count_value(b, e, off, w, 7),
        rotation_deformer_keyforms: count_value(b, e, off, w, 8),
        art_mesh_keyforms: count_value(b, e, off, w, 9),
        keyform_positions: count_value(b, e, off, w, 10),
        parameter_binding_indices: count_value(b, e, off, w, 11),
        keyform_bindings: count_value(b, e, off, w, 12),
        parameter_bindings: count_value(b, e, off, w, 13),
        keys: count_value(b, e, off, w, 14),
        uvs: count_value(b, e, off, w, 15),
        position_indices: count_value(b, e, off, w, 16),
        drawable_masks: count_value(b, e, off, w, 17),
        glues: count_value(b, e, off, w, 20),
        glue_vertices: count_value(b, e, off, w, 21),
        glue_keyforms: count_value(b, e, off, w, 22),
        keyform_multiply_colors: count_value(b, e, off, w, 23),
        keyform_screen_colors: count_value(b, e, off, w, 24),
    }
}

/// Reads the count section, whose length depends on the format version.
pub fn parse_counts(reader: &Reader, offsets: &Vec<usize>, version: Moc3Version) -> (res: Result<Counts, Error>)
    requires
        offsets@.len() == 160,
    ensures
        res is Ok <==> offsets@[0] + 4 * count_words_of(version) <= reader.bytes().len(),
        res matches Ok(c) ==> c == counts_of(reader.bytes(), reader.order(), offsets@[0], version),
        res matches Err(e) ==> e is InvalidMoc3,
{
    let values = reader.section_u32(offsets[0], version.count_words())?;
    let ghost w = count_words_of(version);
    let ghost b = reader.bytes();
    let ghost e = reader.order();
    let ghost off = offsets@[0];
    assert(forall|i: int| 0 <= i < w ==> values@[i] == u32_at(b, off + 4 * i, e));
    let counts = Counts {
        parts: count_at(&values, 0),
        deformers: count_at(&values, 1),
        warp_deformers: count_at(&values, 2),
        rotation_deformers: count_at(&values, 3),
        art_meshes: count_at(&values, 4),
        parameters: count_at(&values, 5),
        part_keyforms: count_at(&values, 6),
        warp_deformer_keyforms: count_at(&values, 7),
        rotation_deformer_keyforms: count_at(&values, 8),
        art_mesh_keyforms: count_at(&values, 9),
        keyform_positions: count_at(&values, 10),
        parameter_binding_indices: count_at(&values, 11),
        keyform_bindings: count_at(&values, 12),
        parameter_bindings: count_at(&values, 13),
        keys: count_at(&values, 14),
        uvs: count_at(&values, 15),
        position_indices: count_at(&values, 16),
        drawable_masks: count_at(&values, 17),
        glues: count_at(&values, 20),
        glue_vertices: count_at(&values, 21),
        glue_keyforms: count_at(&values, 22),
        keyform_multiply_colors: count_at(&values, 23),
        keyform_screen_colors: count_at(&values, 24),
    };
    Ok(counts)
}

/// Word `index` of the count section, or zero when the version has fewer words.
fn count_at(values: &Vec<u32>, index: usize) -> (res: usize)
    ensures
        index < values@.len() ==> res == values@[index as int] as usize,
        index >= values@.len() ==> res == 0,
{
    if index < values.len() {
        values[index] as usize
    } else {
        0
    }
}

/// The canvas stored at `off`.
pub open spec fn canvas_of(b: Seq<u8>, e: Endianness, off: int) -> CanvasModel {
    CanvasModel {
        pixels_per_unit: u32_at(b, off, e),
        origin: (u32_at(b, off + 4, e), u32_at(b, off + 8, e)),
        size: (u32_at(b, off + 12, e), u32_at(b, off + 16, e)),
        reverse_y: b[off + 20] & 1 != 0,
    }
}

/// Reads the canvas section.
pub fn parse_canvas(reader: &Reader, offsets: &Vec<usize>) -> (res: Result<Canvas, Error>)
    requires
        offsets@.len() == 160,
    ensures
        res is Ok <==> offsets@[1] + 21 <= reader.bytes().len(),
        res matches Ok(c) ==> c@ == canvas_of(reader.bytes(), reader.order(), offsets@[1] as int),
        res matches Err(e) ==> e is InvalidMoc3,
{
    let offset = offsets[1];
    let len = reader.len();
    if offset > len || len - offset < 21 {
        return Err(invalid_moc3("canvas section is incomplete"));
    }
    let pixels_per_unit = reader.f32_bits(offset)?;
    let origin_x = reader.f32_bits(offset + 4)?;
    let origin_y = reader.f32_bits(offset + 8)?;
    let width = reader.f32_bits(offset + 12)?;
    let height = reader.f32_bits(offset + 16)?;
    let flags = reader.u8(offset + 20)?;
    Ok(Canvas::new(pixels_per_unit, (origin_x, origin_y), (width, height), flags & 1 != 0))
}

/// Whether a required section of `count` values of `width` bytes can be read.
pub open spec fn read_ok(len: nat, offs: Seq<usize>, slot: int, count: nat, width: nat) -> bool {
    count == 0 || (offs[slot] != 0 && offs[slot] + width * count <= len)
}

/// Whether an optional section of `count` values of `width` bytes can be read.
pub open spec fn read_or_ok(len: nat, offs: Seq<usize>, slot: int, count: nat, width: nat) -> bool {
    count == 0 || offs[slot] == 0 || offs[slot] + width * count <= len
}

/// Whether an optional section is absent and its default is used.
pub open spec fn uses_default(offs: Seq<usize>, slot: int, count: nat) -> bool {
    count == 0 || offs[slot] == 0
}

/// The offset of a required section, which must be present unless it is empty.
fn required_offset(offsets: &Vec<usize>, slot: usize, count: usize) -> (res: Result<usize, Error>)
    requires
        offsets@.len() == 160,
        slot < 160,
    ensures
        res is Ok <==> count == 0 || offsets@[slot as int] != 0,
        res matches Ok(o) ==> (count == 0 ==> o == 0) && (count != 0 ==> o == offsets@[slot as int]),
        res matches Err(e) ==> e is InvalidMoc3,
{
    if count == 0 {
        return Ok(0);
    }
    let offset = offsets[slot];
    if offset != 0 {
        Ok(offset)
    } else {
        Err(invalid_moc3("section is missing"))
    }
}

/// Reads a required section of signed 32-bit values.
pub fn read_i32(reader: &Reader, offsets: &Vec<usize>, slot: usize, count: usize) -> (res: Result<Vec<i32>, Error>)
    requires
        offsets@.len() == 160,
        slot < 160,
    ensures
        res is Ok <==> read_ok(reader.bytes().len(), offsets@, slot as int, count as nat, 4),
        res matches Ok(v) ==> v@ == table_i32(reader.bytes(), reader.order(), offsets@[slot as int] as int, count as nat),
        res matches Err(e) ==> e is InvalidMoc3,
{
    let offset = required_offset(offsets, slot, count)?;
    let values = reader.section_i32(offset, count)?;
    assert(values@ =~= table_i32(reader.bytes(), reader.order(), offsets@[slot as int] as int, count as nat));
    Ok(values)
}

/// Reads a required section of unsigned 16-bit values.
pub fn read_u16(reader: &Reader, offsets: &Vec<usize>, slot: usize, count: usize) -> (res: Result<Vec<u16>, Error>)
    requires
        offsets@.len() == 160,
        slot < 160,
    ensures
        res is Ok <==> read_ok(reader.bytes().len(), offsets@, slot as int, count as nat, 2),
        res matches Ok(v) ==> v@ == table_u16(reader.bytes(), reader.order(), offsets@[slot as int] as int, count as nat),
        res matches Err(e) ==> e is InvalidMoc3,
{
    let offset = required_offset(offsets, slot, count)?;
    let values = reader.section_u16(offset, count)?;
    assert(values@ =~= table_u16(reader.bytes(), reader.order(), offsets@[slot as int] as int, count as nat));
    Ok(values)
}

/// Reads a required section of signed 16-bit values.
pub fn read_i16(reader: &Reader, offsets: &Vec<usize>, slot: usize, count: usize) -> (res: Result<Vec<i16>, Error>)
    requires
        offsets@.len() == 160,
        slot < 160,
    ensures
        res is Ok <==> read_ok(reader.bytes().len(), offsets@, slot as int, count as nat, 2),
        res matches Ok(v) ==> v@ == table_i16(reader.bytes(), reader.order(), offsets@[slot as int] as int, count as nat),
        res matches Err(e) ==> e is InvalidMoc3,
{
    let offset = required_offset(offsets, slot, count)?;
    let values = reader.section_i16(offset, count)?;
    assert(values@ =~= table_i16(reader.bytes(), reader.order(), offsets@[slot as int] as int, count as nat));
    Ok(values)
}

/// Reads a required section of bytes.
pub fn read_u8(reader: &Reader, offsets: &Vec<usize>, slot: usize, count: usize) -> (res: Result<Vec<u8>, Error>)
    requires
        offsets@.len() == 160,
        slot < 160,
    ensures
        res is Ok <==> read_ok(reader.bytes().len(), offsets@, slot as int, count as nat, 1),
        res matches Ok(v) ==> v@ == table_u8(reader.bytes(), offsets@[slot as int] as int, count as nat),
        res matches Err(e) ==> e is InvalidMoc3,
{
    let offset = required_offset(offsets, slot, count)?;
    let values = reader.section_u8(offset, count)?;
    assert(values@ =~= table_u8(reader.bytes(), offsets@[slot as int] as int, count as nat));
    Ok(values)
}

/// Reads a required section of float bit patterns.
pub fn read_f32(reader: &Reader, offsets: &Vec<usize>, slot: usize, count: usize) -> (res: Result<Vec<u32>, Error>)
    requires
        offsets@.len() == 160,
        slot < 160,
    ensures
        res is Ok <==> read_ok(reader.bytes().len(), offsets@, slot as int, count as nat, 4),
        res matches Ok(v) ==> v@ == table_u32(reader.bytes(), reader.order(), offsets@[slot as int] as int, count as nat),
        res matches Err(e) ==> e is InvalidMoc3,
{
    let offset = required_offset(offsets, slot, count)?;
    let values = reader.section_u32(offset, count)?;
    assert(values@ =~= table_u32(reader.bytes(), reader.order(), offsets@[slot as int] as int, count as nat));
    Ok(values)
}

/// An optional section of signed 32-bit values, or `default` repeated.
pub open spec fn read_or_i32(b: Seq<u8>, e: Endianness, offs: Seq<usize>, slot: int, count: nat, default: i32) -> Seq<i32> {
    if uses_default(offs, slot, count) {
        Seq::new(count, |i: int| default)
    } else {
        table_i32(b, e, offs[slot] as int, count)
    }
}

/// An optional section of float bit patterns, or `default` repeated.
pub open spec fn read_or_u32(b: Seq<u8>, e: Endianness, offs: Seq<usize>, slot: int, count: nat, default: u32) -> Seq<u32> {
    if uses_default(offs, slot, count) {
        Seq::new(count, |i: int| default)
    } else {
        table_u32(b, e, offs[slot] as int, count)
    }
}

/// Reads an optional section of signed 32-bit values.
pub fn read_i32_or(reader: &Reader, offsets: &Vec<usize>, slot: usize, count: usize, default: i32) -> (res: Result<Vec<i32>, Error>)
    requires
        offsets@.len() == 160,
        slot < 160,
    ensures
        res is Ok <==> read_or_ok(reader.bytes().len(), offsets@, slot as int, count as nat, 4),
        res matches Ok(v) ==> v@ == read_or_i32(reader.bytes(), reader.order(), offsets@, slot as int, count as nat, default),
        res matches Err(e) ==> e is InvalidMoc3,
{
    if count == 0 || offsets[slot] == 0 {
        let values = vec![default; count];
        assert(values@ =~= read_or_i32(reader.bytes(), reader.order(), offsets@, slot as int, count as nat, default));
        Ok(values)
    } else {
        reader.section_i32(offsets[slot], count)
    }
}

/// Reads an optional section of float bit patterns.
pub fn read_f32_or(reader: &Reader, offsets: &Vec<usize>, slot: usize, count: usize, default: u32) -> (res: Result<Vec<u32>, Error>)
    requires
        offsets@.len() == 160,
        slot < 160,
    ensures
        res is Ok <==> read_or_ok(reader.bytes().len(), offsets@, slot as int, count as nat, 4),
        res matches Ok(v) ==> v@ == read_or_u32(reader.bytes(), reader.order(), offsets@, slot as int, count as nat, default),
        res matches Err(e) ==> e is InvalidMoc3,
{
    if count == 0 || offsets[slot] == 0 {
        let values = vec![default; count];
        assert(values@ =~= read_or_u32(reader.bytes(), reader.order(), offsets@, slot as int, count as nat, default));
        Ok(values)
    } else {
        reader.section_u32(offsets[slot], count)
    }
}

/// Whether the three channel sections of a color table are absent.
pub open spec fn colors_default(offs: Seq<usize>, slots: (int, int, int), count: nat) -> bool {
    count == 0 || offs[slots.0] == 0 || offs[slots.1] == 0 || offs[slots.2] == 0
}

/// Whether a color table can be read.
pub open spec fn colors_ok(len: nat, offs: Seq<usize>, slots: (int, int, int), count: nat) -> bool {
    colors_default(offs, slots, count) || (offs[slots.0] + 4 * count <= len && offs[slots.1] + 4 * count <= len
        && offs[slots.2] + 4 * count <= len)
}

/// A color table, or `default` repeated when one of its channels is absent.
pub open spec fn colors_of(b: Seq<u8>, e: Endianness, offs: Seq<usize>, slots: (int, int, int), count: nat, default: Rgb) -> Seq<Rgb> {
    if colors_default(offs, slots, count) {
        Seq::new(count, |i: int| default)
    } else {
        Seq::new(
            count,
            |i: int|
                Rgb {
                    red: u32_at(b, offs[slots.0] + 4 * i, e),
                    green: u32_at(b, offs[slots.1] + 4 * i, e),
                    blue: u32_at(b, offs[slots.2] + 4 * i, e),
                },
        )
    }
}

/// Reads a color table stored as three channel sections.
pub fn read_colors(
    reader: &Reader,
    offsets: &Vec<usize>,
    slots: (usize, usize, usize),
    count: usize,
    default: Rgb,
) -> (res: Result<Vec<Rgb>, Error>)
    requires
        offsets@.len() == 160,
        slots.0 < 160,
        slots.1 < 160,
        slots.2 < 160,
    ensures
        res is Ok <==> colors_ok(reader.bytes().len(), offsets@, (slots.0 as int, slots.1 as int, slots.2 as int), count as nat),
        res matches Ok(v) ==> v@ == colors_of(
            reader.bytes(),
            reader.order(),
            offsets@,
            (slots.0 as int, slots.1 as int, slots.2 as int),
            count as nat,
            default,
        ),
        res matches Err(e) ==> e is InvalidMoc3,
{
    let ghost s = (slots.0 as int, slots.1 as int, slots.2 as int);
    if count == 0 || offsets[slots.0] == 0 || offsets[slots.1] == 0 || offsets[slots.2] == 0 {
        let values = vec![default; count];
        assert(values@ =~= colors_of(reader.bytes(), reader.order(), offsets@, s, count as nat, default));
        return Ok(values);
    }
    let red = reader.section_u32(offsets[slots.0], count)?;
    let green = reader.section_u32(offsets[slots.1], count)?;
    let blue = reader.section_u32(offsets[slots.2], count)?;
    let mut values: Vec<Rgb> = Vec::new();
    let mut index: usize = 0;
    while index < count
        invariant
            index <= count,
            red@.len() == count,
            green@.len() == count,
            blue@.len() == count,
            !colors_default(offsets@, s, count as nat),
            red@ == table_u32(reader.bytes(), reader.order(), offsets@[s.0] as int, count as nat),
            green@ == table_u32(reader.bytes(), reader.order(), offsets@[s.1] as int, count as nat),
            blue@ == table_u32(reader.bytes(), reader.order(), offsets@[s.2] as int, count as nat),
            values@ =~= colors_of(reader.bytes(), reader.order(), offsets@, s, count as nat, default).take(index as int),
        decreases count - index,
    {
        values.push(Rgb { red: red[index], green: green[index], blue: blue[index] });
        index = index + 1;
    }
    assert(values@ =~= colors_of(reader.bytes(), reader.order(), offsets@, s, count as nat, default));
    Ok(values)
}

/// Whether `count` entries starting at `begin` lie inside a table of `len` entries.
pub open spec fn range_ok(begin: i32, count: i32, len: nat) -> bool {
    begin >= 0 && count >= 0 && begin + count <= len
}

/// Checks a begin/count pair against a table length.
pub fn checked_range(begin: i32, count: i32, source_len: usize) -> (res: Result<(usize, usize), Error>)
    ensures
        res is Ok <==> range_ok(begin, count, source_len as nat),
        res matches Ok(r) ==> r.0 == begin && r.1 == begin + count,
        res matches Err(e) ==> e is InvalidMoc3,
{
    if begin < 0 || count < 0 {
        return Err(invalid_moc3("range is negative"));
    }
    let begin = begin as usize;
    let count = count as usize;
    if begin > source_len || source_len - begin < count {
        return Err(invalid_moc3("range is outside its section"));
    }
    Ok((begin, begin + count))
}

/// Whether `count * scale` entries starting at `begin` lie inside a table.
pub open spec fn scaled_range_ok(begin: i32, count: nat, scale: nat, len: nat) -> bool {
    begin >= 0 && begin + count * scale <= len
}

/// Checks a begin index and a scaled length against a table length.
pub fn checked_scaled_range(begin: i32, count: usize, scale: usize, source_len: usize) -> (res: Result<(usize, usize), Error>)
    ensures
        res is Ok <==> scaled_range_ok(begin, count as nat, scale as nat, source_len as nat),
        res matches Ok(r) ==> r.0 == begin && r.1 == begin + count * scale,
        res matches Err(e) ==> e is InvalidMoc3,
{
    if begin < 0 {
        return Err(invalid_moc3("range begin is negative"));
    }
    let begin = begin as usize;
    let len = match count.checked_mul(scale) {
        Some(value) => value,
        None => return Err(invalid_moc3("range length overflows")),
    };
    if begin > source_len || source_len - begin < len {
        return Err(invalid_moc3("range is outside its section"));
    }
    Ok((begin, begin + len))
}

/// Converts a count or index that must not be negative.
pub fn nonnegative(value: i32) -> (res: Result<usize, Error>)
    ensures
        res is Ok <==> value >= 0,
        res matches Ok(v) ==> v == value,
        res matches Err(e) ==> e is InvalidMoc3,
{
    if value < 0 {
        Err(invalid_moc3("value is negative"))
    } else {
        Ok(value as usize)
    }
}

/// A stored index where any negative value means "none".
pub open spec fn opt_index(value: i32) -> Option<usize> {
    if value < 0 {
        None
    } else {
        Some(value as usize)
    }
}

/// Converts a stored index where any negative value means "none".
pub fn optional_unbounded_index(value: i32) -> (res: Option<usize>)
    ensures
        res == opt_index(value),
{
    if value < 0 {
        None
    } else {
        Some(value as usize)
    }
}

/// Converts a stored index that must also lie inside a table of `len` entries.
pub fn optional_index(value: i32, len: usize) -> (res: Result<Option<usize>, Error>)
    ensures
        res is Ok <==> value < 0 || value < len,
        res matches Ok(v) ==> v == opt_index(value),
        res matches Err(e) ==> e is InvalidMoc3,
{
    let value = optional_unbounded_index(value);
    match value {
        Some(index) => {
            if index >= len {
                Err(invalid_moc3("index is outside its table"))
            } else {
                Ok(value)
            }
        },
        None => Ok(None),
    }
}

/// The texts of a sequence of strings.
pub open spec fn texts(v: Seq<String>) -> Seq<Seq<char>> {
    v.map_values(|s: String| s@)
}

/// Whether the identifier table of `count` entries in section `slot` can be read.
pub open spec fn ids_ok(len: nat, offs: Seq<usize>, slot: int, count: nat) -> bool {
    count == 0 || (offs[slot] != 0 && offs[slot] + 64 * count <= len)
}

/// The identifier table of `count` entries in section `slot`.
pub open spec fn ids_of(b: Seq<u8>, offs: Seq<usize>, slot: int, count: nat) -> Seq<Seq<char>> {
    Seq::new(count, |i: int| lossy_text(str64_bytes(b, offs[slot] + 64 * i)))
}

/// Reads a table of 64-byte identifiers.
pub fn parse_ids(reader: &Reader, offsets: &Vec<usize>, slot: usize, count: usize) -> (res: Result<Vec<String>, Error>)
    requires
        offsets@.len() == 160,
        slot < 160,
    ensures
        res is Ok <==> ids_ok(reader.bytes().len(), offsets@, slot as int, count as nat),
        res matches Ok(v) ==> texts(v@) == ids_of(reader.bytes(), offsets@, slot as int, count as nat),
        res matches Err(e) ==> e is InvalidMoc3,
{
    let offset = required_offset(offsets, slot, count)?;
    let len = reader.len();
    let total = match count.checked_mul(64) {
        Some(value) => value,
        None => return Err(invalid_moc3("identifier table overflows")),
    };
    if offset > len || len - offset < total {
        return Err(invalid_moc3("identifier table is incomplete"));
    }
    let ghost want = ids_of(reader.bytes(), offsets@, slot as int, count as nat);
    let mut ids: Vec<String> = Vec::new();
    let mut index: usize = 0;
    while index < count
        invariant
            index <= count,
            len == reader.bytes().len(),
            offset + 64 * count <= len,
            count > 0 ==> offset == offsets@[slot as int],
            want == ids_of(reader.bytes(), offsets@, slot as int, count as nat),
            texts(ids@) =~= want.take(index as int),
        decreases count - index,
    {
        assert(offset + 64 * index + 64 <= offset + 64 * count) by (nonlinear_arith)
            requires
                index < count,
        ;
        let id = reader.str64(offset + index * 64)?;
        assert(id@ == want[index as int]);
        let ghost before = ids@;
        ids.push(id);
        assert(texts(ids@) =~= texts(before).push(id@));
        index = index + 1;
    }
    assert(texts(ids@) =~= want);
    Ok(ids)
}

/// The parameter table, read from its identifier and limit sections.
pub open spec fn parameters_ok(len: nat, offs: Seq<usize>, count: nat) -> bool {
    read_ok(len, offs, 51, count, 4) && read_ok(len, offs, 52, count, 4) && read_ok(len, offs, 53, count, 4)
}

/// The parameter at `i` given its identifier.
pub open spec fn parameter_of(b: Seq<u8>, e: Endianness, offs: Seq<usize>, id: Seq<char>, i: int) -> ParameterModel {
    ParameterModel {
        id,
        minimum: u32_at(b, offs[52] + 4 * i, e),
        maximum: u32_at(b, offs[51] + 4 * i, e),
        default: u32_at(b, offs[53] + 4 * i, e),
    }
}

/// The views of a sequence of parameters.
pub open spec fn parameter_views(v: Seq<Parameter>) -> Seq<ParameterModel> {
    v.map_values(|p: Parameter| p@)
}

/// Reads the parameter limits and pairs them with the identifiers.
pub fn parse_parameters(reader: &Reader, offsets: &Vec<usize>, ids: &Vec<String>) -> (res: Result<Vec<Parameter>, Error>)
    requires
        offsets@.len() == 160,
    ensures
        res is Ok <==> parameters_ok(reader.bytes().len(), offsets@, ids@.len()),
        res matches Ok(v) ==> v@.len() == ids@.len() && forall|i: int|
            0 <= i < ids@.len() ==> (#[trigger] v@[i])@ == parameter_of(reader.bytes(), reader.order(), offsets@, ids@[i]@, i),
        res matches Err(e) ==> e is InvalidMoc3,
{
    let count = ids.len();
    let maximums = read_f32(reader, offsets, 51, count)?;
    let minimums = read_f32(reader, offsets, 52, count)?;
    let defaults = read_f32(reader, offsets, 53, count)?;
    let mut parameters: Vec<Parameter> = Vec::new();
    let mut index: usize = 0;
    while index < count
        invariant
            index <= count,
            count == ids@.len(),
            maximums@ == table_u32(reader.bytes(), reader.order(), offsets@[51] as int, count as nat),
            minimums@ == table_u32(reader.bytes(), reader.order(), offsets@[52] as int, count as nat),
            defaults@ == table_u32(reader.bytes(), reader.order(), offsets@[53] as int, count as nat),
            parameters@.len() == index,
            forall|i: int|
                0 <= i < index ==> (#[trigger] parameters@[i])@ == parameter_of(reader.bytes(), reader.order(), offsets@, ids@[i]@, i),
        decreases count - index,
    {
        let parameter = Parameter::new(ids[index].clone(), minimums[index], maximums[index], defaults[index]);
        parameters.push(parameter);
        index = index + 1;
    }
    Ok(parameters)
}

} // verus!
