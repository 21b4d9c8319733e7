//! Warp and rotation deformers and their keyed states.

use vstd::prelude::*;

use super::art_mesh::{color_at, color_index, color_index_ok, color_or, pairs_of, read_pairs};
use super::layout::{
    checked_range, checked_scaled_range, colors_of, colors_ok, nonnegative, opt_index, optional_unbounded_index,
    range_ok, read_colors, read_f32, read_f32_or, read_i32, read_i32_or, read_ok, read_or_i32, read_or_ok,
    read_or_u32, scaled_range_ok, Counts,
};
use super::reader::{table_i32, table_u32, Reader};
use super::types::{
    black, warp_keyform_views, white, Deformer, DeformerModel, Endianness, Rgb, RotationDeformer,
    RotationDeformerKeyform, RotationDeformerModel, WarpDeformer, WarpDeformerKeyform, WarpDeformerKeyformModel,
    WarpDeformerModel, ONE_BITS,
};
use crate::error::{invalid_moc3, Error};

verus! {

/// The sections that deformers are read from, already read.
pub struct DeformerTables {
    pub parents: Seq<i32>,
    pub kinds: Seq<i32>,
    pub specific_indices: Seq<i32>,
    pub warp_bands: Seq<i32>,
    pub warp_begins: Seq<i32>,
    pub warp_counts: Seq<i32>,
    pub warp_vertices: Seq<i32>,
    pub warp_rows: Seq<i32>,
    pub warp_columns: Seq<i32>,
    pub rotation_bands: Seq<i32>,
    pub rotation_begins: Seq<i32>,
    pub rotation_counts: Seq<i32>,
    pub rotation_base_angles: Seq<u32>,
    pub warp_opacities: Seq<u32>,
    pub warp_position_begins: Seq<i32>,
    pub rotation_opacities: Seq<u32>,
    pub rotation_angles: Seq<u32>,
    pub rotation_x: Seq<u32>,
    pub rotation_y: Seq<u32>,
    pub rotation_scales: Seq<u32>,
    pub rotation_reflect_x: Seq<i32>,
    pub rotation_reflect_y: Seq<i32>,
    pub positions: Seq<u32>,
    pub warp_color_begins: Seq<i32>,
    pub rotation_color_begins: Seq<i32>,
    pub multiply: Seq<Rgb>,
    pub screen: Seq<Rgb>,
}

/// The deformer sections of a file.
pub open spec fn deformer_tables(b: Seq<u8>, e: Endianness, o: Seq<usize>, c: Counts) -> DeformerTables {
    DeformerTables {
        parents: table_i32(b, e, o[16] as int, c.deformers as nat),
        kinds: table_i32(b, e, o[17] as int, c.deformers as nat),
        specific_indices: table_i32(b, e, o[18] as int, c.deformers as nat),
        warp_bands: table_i32(b, e, o[19] as int, c.warp_deformers as nat),
        warp_begins: table_i32(b, e, o[20] as int, c.warp_deformers as nat),
        warp_counts: table_i32(b, e, o[21] as int, c.warp_deformers as nat),
        warp_vertices: table_i32(b, e, o[22] as int, c.warp_deformers as nat),
        warp_rows: table_i32(b, e, o[23] as int, c.warp_deformers as nat),
        warp_columns: table_i32(b, e, o[24] as int, c.warp_deformers as nat),
        rotation_bands: table_i32(b, e, o[25] as int, c.rotation_deformers as nat),
        rotation_begins: table_i32(b, e, o[26] as int, c.rotation_deformers as nat),
        rotation_counts: table_i32(b, e, o[27] as int, c.rotation_deformers as nat),
        rotation_base_angles: table_u32(b, e, o[28] as int, c.rotation_deformers as nat),
        warp_opacities: read_or_u32(b, e, o, 59, c.warp_deformer_keyforms as nat, ONE_BITS),
        warp_position_begins: table_i32(b, e, o[60] as int, c.warp_deformer_keyforms as nat),
        rotation_opacities: read_or_u32(b, e, o, 61, c.rotation_deformer_keyforms as nat, ONE_BITS),
        rotation_angles: table_u32(b, e, o[62] as int, c.rotation_deformer_keyforms as nat),
        rotation_x: table_u32(b, e, o[63] as int, c.rotation_deformer_keyforms as nat),
        rotation_y: table_u32(b, e, o[64] as int, c.rotation_deformer_keyforms as nat),
        rotation_scales: table_u32(b, e, o[65] as int, c.rotation_deformer_keyforms as nat),
        rotation_reflect_x: table_i32(b, e, o[66] as int, c.rotation_deformer_keyforms as nat),
        rotation_reflect_y: table_i32(b, e, o[67] as int, c.rotation_deformer_keyforms as nat),
        positions: table_u32(b, e, o[71] as int, c.keyform_positions as nat),
        warp_color_begins: read_or_i32(b, e, o, 105, c.warp_deformers as nat, -1i32),
        rotation_color_begins: read_or_i32(b, e, o, 106, c.rotation_deformers as nat, -1i32),
        multiply: colors_of(b, e, o, (108, 109, 110), c.keyform_multiply_colors as nat, white()),
        screen: colors_of(b, e, o, (111, 112, 113), c.keyform_screen_colors as nat, black()),
    }
}

/// Whether every deformer section can be read.
pub open spec fn deformer_sections_ok(len: nat, o: Seq<usize>, c: Counts) -> bool {
    &&& read_ok(len, o, 16, c.deformers as nat, 4)
    &&& read_ok(len, o, 17, c.deformers as nat, 4)
    &&& read_ok(len, o, 18, c.deformers as nat, 4)
    &&& read_ok(len, o, 19, c.warp_deformers as nat, 4)
    &&& read_ok(len, o, 20, c.warp_deformers as nat, 4)
    &&& read_ok(len, o, 21, c.warp_deformers as nat, 4)
    &&& read_ok(len, o, 22, c.warp_deformers as nat, 4)
    &&& read_ok(len, o, 23, c.warp_deformers as nat, 4)
    &&& read_ok(len, o, 24, c.warp_deformers as nat, 4)
    &&& read_ok(len, o, 25, c.rotation_deformers as nat, 4)
    &&& read_ok(len, o, 26, c.rotation_deformers as nat, 4)
    &&& read_ok(len, o, 27, c.rotation_deformers as nat, 4)
    &&& read_ok(len, o, 28, c.rotation_deformers as nat, 4)
    &&& read_or_ok(len, o, 59, c.warp_deformer_keyforms as nat, 4)
    &&& read_ok(len, o, 60, c.warp_deformer_keyforms as nat, 4)
    &&& read_or_ok(len, o, 61, c.rotation_deformer_keyforms as nat, 4)
    &&& read_ok(len, o, 62, c.rotation_deformer_keyforms as nat, 4)
    &&& read_ok(len, o, 63, c.rotation_deformer_keyforms as nat, 4)
    &&& read_ok(len, o, 64, c.rotation_deformer_keyforms as nat, 4)
    &&& read_ok(len, o, 65, c.rotation_deformer_keyforms as nat, 4)
    &&& read_ok(len, o, 66, c.rotation_deformer_keyforms as nat, 4)
    &&& read_ok(len, o, 67, c.rotation_deformer_keyforms as nat, 4)
    &&& read_ok(len, o, 71, c.keyform_positions as nat, 4)
    &&& read_or_ok(len, o, 105, c.warp_deformers as nat, 4)
    &&& read_or_ok(len, o, 106, c.rotation_deformers as nat, 4)
    &&& colors_ok(len, o, (108, 109, 110), c.keyform_multiply_colors as nat)
    &&& colors_ok(len, o, (111, 112, 113), c.keyform_screen_colors as nat)
}

/// Whether warp keyform `kf`, the `l`-th of its deformer, is readable.
pub open spec fn warp_keyform_ok(t: DeformerTables, vc: nat, cb: i32, kf: int, l: int) -> bool {
    scaled_range_ok(t.warp_position_begins[kf], vc, 2, t.positions.len()) && color_index_ok(cb, l)
}

/// Warp keyform `kf`, the `l`-th of its deformer.
pub open spec fn warp_keyform_of(t: DeformerTables, vc: nat, cb: i32, kf: int, l: int) -> WarpDeformerKeyformModel {
    WarpDeformerKeyformModel {
        positions: pairs_of(t.positions, t.warp_position_begins[kf] as int, vc),
        opacity: t.warp_opacities[kf],
        multiply_color: color_at(t.multiply, cb, l, white()),
        screen_color: color_at(t.screen, cb, l, black()),
    }
}

/// Whether warp deformer `s` is consistent.
pub open spec fn warp_ok(t: DeformerTables, s: int) -> bool {
    let kb = t.warp_begins[s];
    let vc = t.warp_vertices[s];
    &&& 0 <= s < t.warp_begins.len()
    &&& range_ok(kb, t.warp_counts[s], t.warp_opacities.len())
    &&& vc >= 0
    &&& forall|l: int|
        0 <= l < t.warp_counts[s] ==> #[trigger] warp_keyform_ok(t, vc as nat, t.warp_color_begins[s], kb + l, l)
    &&& t.warp_rows[s] >= 0
    &&& t.warp_columns[s] >= 0
}

/// Warp deformer `s` with parent `parent`.
pub open spec fn warp_of(t: DeformerTables, s: int, parent: Option<usize>) -> WarpDeformerModel {
    let kb = t.warp_begins[s] as int;
    let vc = t.warp_vertices[s] as nat;
    WarpDeformerModel {
        parent_deformer_index: parent,
        binding_band_index: opt_index(t.warp_bands[s]),
        rows: t.warp_rows[s] as usize,
        columns: t.warp_columns[s] as usize,
        keyforms: Seq::new(
            t.warp_counts[s] as nat,
            |l: int| warp_keyform_of(t, vc, t.warp_color_begins[s], kb + l, l),
        ),
    }
}

/// Whether rotation keyform `l` of rotation deformer `s` is readable.
pub open spec fn rotation_keyform_ok(t: DeformerTables, s: int, l: int) -> bool {
    color_index_ok(t.rotation_color_begins[s], l)
}

/// Rotation keyform `kf`, the `l`-th of rotation deformer `s`.
pub open spec fn rotation_keyform_of(t: DeformerTables, s: int, kf: int, l: int) -> RotationDeformerKeyform {
    let cb = t.rotation_color_begins[s];
    RotationDeformerKeyform {
        angle_degrees: t.rotation_angles[kf],
        origin: (t.rotation_x[kf], t.rotation_y[kf]),
        scale: t.rotation_scales[kf],
        reflected: (t.rotation_reflect_x[kf] == 1, t.rotation_reflect_y[kf] == 1),
        opacity: t.rotation_opacities[kf],
        multiply_color: color_at(t.multiply, cb, l, white()),
        screen_color: color_at(t.screen, cb, l, black()),
    }
}

/// Whether rotation deformer `s` is consistent.
pub open spec fn rotation_ok(t: DeformerTables, s: int) -> bool {
    &&& 0 <= s < t.rotation_begins.len()
    &&& range_ok(t.rotation_begins[s], t.rotation_counts[s], t.rotation_angles.len())
    &&& forall|l: int| 0 <= l < t.rotation_counts[s] ==> #[trigger] rotation_keyform_ok(t, s, l)
}

/// Rotation deformer `s` with parent `parent`.
pub open spec fn rotation_of(t: DeformerTables, s: int, parent: Option<usize>) -> RotationDeformerModel {
    let kb = t.rotation_begins[s] as int;
    RotationDeformerModel {
        parent_deformer_index: parent,
        binding_band_index: opt_index(t.rotation_bands[s]),
        base_angle_degrees: t.rotation_base_angles[s],
        keyforms: Seq::new(t.rotation_counts[s] as nat, |l: int| rotation_keyform_of(t, s, kb + l, l)),
    }
}

/// Whether deformer `d` is consistent.
pub open spec fn deformer_ok(t: DeformerTables, d: int) -> bool {
    let s = t.specific_indices[d];
    &&& s >= 0
    &&& (t.kinds[d] == 0 || t.kinds[d] == 1)
    &&& t.kinds[d] == 0 ==> warp_ok(t, s as int)
    &&& t.kinds[d] == 1 ==> rotation_ok(t, s as int)
}

/// Deformer `d`.
pub open spec fn deformer_of(t: DeformerTables, d: int) -> DeformerModel {
    let s = t.specific_indices[d] as int;
    let parent = opt_index(t.parents[d]);
    if t.kinds[d] == 0 {
        DeformerModel::Warp(warp_of(t, s, parent))
    } else {
        DeformerModel::Rotation(rotation_of(t, s, parent))
    }
}

/// The deformer sections once read.
pub struct DeformerVecs {
    parents: Vec<i32>,
    kinds: Vec<i32>,
    specific_indices: Vec<i32>,
    warp_bands: Vec<i32>,
    warp_begins: Vec<i32>,
    warp_counts: Vec<i32>,
    warp_vertices: Vec<i32>,
    warp_rows: Vec<i32>,
    warp_columns: Vec<i32>,
    rotation_bands: Vec<i32>,
    rotation_begins: Vec<i32>,
    rotation_counts: Vec<i32>,
    rotation_base_angles: Vec<u32>,
    warp_opacities: Vec<u32>,
    warp_position_begins: Vec<i32>,
    rotation_opacities: Vec<u32>,
    rotation_angles: Vec<u32>,
    rotation_x: Vec<u32>,
    rotation_y: Vec<u32>,
    rotation_scales: Vec<u32>,
    rotation_reflect_x: Vec<i32>,
    rotation_reflect_y: Vec<i32>,
    positions: Vec<u32>,
    warp_color_begins: Vec<i32>,
    rotation_color_begins: Vec<i32>,
    multiply: Vec<Rgb>,
    screen: Vec<Rgb>,
}

impl DeformerVecs {
    spec fn matches(&self, t: DeformerTables, c: Counts) -> bool {
        &&& self.parents@ == t.parents && t.parents.len() == c.deformers
        &&& self.kinds@ == t.kinds && t.kinds.len() == c.deformers
        &&& self.specific_indices@ == t.specific_indices && t.specific_indices.len() == c.deformers
        &&& self.warp_bands@ == t.warp_bands && t.warp_bands.len() == c.warp_deformers
        &&& self.warp_begins@ == t.warp_begins && t.warp_begins.len() == c.warp_deformers
        &&& self.warp_counts@ == t.warp_counts && t.warp_counts.len() == c.warp_deformers
        &&& self.warp_vertices@ == t.warp_vertices && t.warp_vertices.len() == c.warp_deformers
        &&& self.warp_rows@ == t.warp_rows && t.warp_rows.len() == c.warp_deformers
        &&& self.warp_columns@ == t.warp_columns && t.warp_columns.len() == c.warp_deformers
        &&& self.rotation_bands@ == t.rotation_bands && t.rotation_bands.len() == c.rotation_deformers
        &&& self.rotation_begins@ == t.rotation_begins && t.rotation_begins.len() == c.rotation_deformers
        &&& self.rotation_counts@ == t.rotation_counts && t.rotation_counts.len() == c.rotation_deformers
        &&& self.rotation_base_angles@ == t.rotation_base_angles && t.rotation_base_angles.len() == c.rotation_deformers
        &&& self.warp_opacities@ == t.warp_opacities && t.warp_opacities.len() == c.warp_deformer_keyforms
        &&& self.warp_position_begins@ == t.warp_position_begins && t.warp_position_begins.len()
            == c.warp_deformer_keyforms
        &&& self.rotation_opacities@ == t.rotation_opacities && t.rotation_opacities.len()
            == c.rotation_deformer_keyforms
        &&& self.rotation_angles@ == t.rotation_angles && t.rotation_angles.len() == c.rotation_deformer_keyforms
        &&& self.rotation_x@ == t.rotation_x && t.rotation_x.len() == c.rotation_deformer_keyforms
        &&& self.rotation_y@ == t.rotation_y && t.rotation_y.len() == c.rotation_deformer_keyforms
        &&& self.rotation_scales@ == t.rotation_scales && t.rotation_scales.len() == c.rotation_deformer_keyforms
        &&& self.rotation_reflect_x@ == t.rotation_reflect_x && t.rotation_reflect_x.len()
            == c.rotation_deformer_keyforms
        &&& self.rotation_reflect_y@ == t.rotation_reflect_y && t.rotation_reflect_y.len()
            == c.rotation_deformer_keyforms
        &&& self.positions@ == t.positions
        &&& self.warp_color_begins@ == t.warp_color_begins && t.warp_color_begins.len() == c.warp_deformers
        &&& self.rotation_color_begins@ == t.rotation_color_begins && t.rotation_color_begins.len()
            == c.rotation_deformers
        &&& self.multiply@ == t.multiply
        &&& self.screen@ == t.screen
    }
}

/// Reads warp deformer `index` of the warp table.
fn parse_warp(index: usize, parent: Option<usize>, v: &DeformerVecs, Ghost(t): Ghost<DeformerTables>, Ghost(c): Ghost<Counts>) -> (res: Result<WarpDeformer, Error>)
    requires
        v.matches(t, c),
    ensures
        res is Ok <==> warp_ok(t, index as int),
        res matches Ok(w) ==> w@ == warp_of(t, index as int, parent),
        res matches Err(e) ==> e is InvalidMoc3,
{
    if index >= v.warp_begins.len() {
        return Err(invalid_moc3("warp index is outside its table"));
    }
    let (start, end) = checked_range(v.warp_begins[index], v.warp_counts[index], v.warp_opacities.len())?;
    let vertex_count = nonnegative(v.warp_vertices[index])?;
    let color_begin = v.warp_color_begins[index];
    let mut keyforms: Vec<WarpDeformerKeyform> = Vec::new();
    let mut kf = start;
    while kf < end
        invariant
            v.matches(t, c),
            index < t.warp_begins.len(),
            start == t.warp_begins[index as int],
            end == start + t.warp_counts[index as int],
            start <= kf <= end <= t.warp_opacities.len(),
            color_begin == t.warp_color_begins[index as int],
            vertex_count == t.warp_vertices[index as int],
            forall|l: int|
                0 <= l < kf - start ==> #[trigger] warp_keyform_ok(t, vertex_count as nat, color_begin, start + l, l),
            warp_keyform_views(keyforms@) =~= Seq::new(
                (kf - start) as nat,
                |l: int| warp_keyform_of(t, vertex_count as nat, color_begin, start + l, l),
            ),
        decreases end - kf,
    {
        let local = kf - start;
        let (ps, _pe) = match checked_scaled_range(v.warp_position_begins[kf], vertex_count, 2, v.positions.len()) {
            Ok(range) => range,
            Err(error) => {
                assert(!warp_keyform_ok(t, vertex_count as nat, color_begin, start + local, local as int));
                return Err(error);
            },
        };
        let color = match color_index(color_begin, local) {
            Ok(value) => value,
            Err(error) => {
                assert(!warp_keyform_ok(t, vertex_count as nat, color_begin, start + local, local as int));
                return Err(error);
            },
        };
        let keyform = WarpDeformerKeyform {
            positions: read_pairs(&v.positions, ps, vertex_count),
            opacity: v.warp_opacities[kf],
            multiply_color: color_or(&v.multiply, color, Rgb { red: ONE_BITS, green: ONE_BITS, blue: ONE_BITS }),
            screen_color: color_or(&v.screen, color, Rgb { red: 0, green: 0, blue: 0 }),
        };
        let ghost before = keyforms@;
        keyforms.push(keyform);
        assert(warp_keyform_views(keyforms@) =~= warp_keyform_views(before).push(keyform@));
        kf = kf + 1;
    }
    let rows = nonnegative(v.warp_rows[index])?;
    let columns = nonnegative(v.warp_columns[index])?;
    let warp = WarpDeformer {
        parent_deformer_index: parent,
        binding_band_index: optional_unbounded_index(v.warp_bands[index]),
        rows,
        columns,
        keyforms,
    };
    assert(warp@.keyforms =~= warp_of(t, index as int, parent).keyforms);
    Ok(warp)
}

/// Reads rotation deformer `index` of the rotation table.
fn parse_rotation(index: usize, parent: Option<usize>, v: &DeformerVecs, Ghost(t): Ghost<DeformerTables>, Ghost(c): Ghost<Counts>) -> (res: Result<RotationDeformer, Error>)
    requires
        v.matches(t, c),
    ensures
        res is Ok <==> rotation_ok(t, index as int),
        res matches Ok(r) ==> r@ == rotation_of(t, index as int, parent),
        res matches Err(e) ==> e is InvalidMoc3,
{
    if index >= v.rotation_begins.len() {
        return Err(invalid_moc3("rotation index is outside its table"));
    }
    let (start, end) = checked_range(v.rotation_begins[index], v.rotation_counts[index], v.rotation_angles.len())?;
    let color_begin = v.rotation_color_begins[index];
    let mut keyforms: Vec<RotationDeformerKeyform> = Vec::new();
    let mut kf = start;
    while kf < end
        invariant
            v.matches(t, c),
            index < t.rotation_begins.len(),
            start == t.rotation_begins[index as int],
            end == start + t.rotation_counts[index as int],
            start <= kf <= end <= t.rotation_angles.len(),
            color_begin == t.rotation_color_begins[index as int],
            forall|l: int| 0 <= l < kf - start ==> #[trigger] rotation_keyform_ok(t, index as int, l),
            keyforms@ =~= Seq::new(
                (kf - start) as nat,
                |l: int| rotation_keyform_of(t, index as int, start + l, l),
            ),
        decreases end - kf,
    {
        let local = kf - start;
        let color = match color_index(color_begin, local) {
            Ok(value) => value,
            Err(error) => {
                assert(!rotation_keyform_ok(t, index as int, local as int));
                return Err(error);
            },
        };
        let keyform = RotationDeformerKeyform {
            angle_degrees: v.rotation_angles[kf],
            origin: (v.rotation_x[kf], v.rotation_y[kf]),
            scale: v.rotation_scales[kf],
            reflected: (v.rotation_reflect_x[kf] == 1, v.rotation_reflect_y[kf] == 1),
            opacity: v.rotation_opacities[kf],
            multiply_color: color_or(&v.multiply, color, Rgb { red: ONE_BITS, green: ONE_BITS, blue: ONE_BITS }),
            screen_color: color_or(&v.screen, color, Rgb { red: 0, green: 0, blue: 0 }),
        };
        keyforms.push(keyform);
        kf = kf + 1;
    }
    let rotation = RotationDeformer {
        parent_deformer_index: parent,
        binding_band_index: optional_unbounded_index(v.rotation_bands[index]),
        base_angle_degrees: v.rotation_base_angles[index],
        keyforms,
    };
    assert(rotation@.keyforms =~= rotation_of(t, index as int, parent).keyforms);
    Ok(rotation)
}

/// The views of a sequence of deformers.
pub open spec fn deformer_views(v: Seq<Deformer>) -> Seq<DeformerModel> {
    v.map_values(|d: Deformer| d@)
}

/// Reads the warp and rotation deformers.
pub fn parse_deformers(reader: &Reader, offsets: &Vec<usize>, counts: &Counts) -> (res: Result<Vec<Deformer>, Error>)
    requires
        offsets@.len() == 160,
    ensures
        ({
            let t = deformer_tables(reader.bytes(), reader.order(), offsets@, *counts);
            &&& res is Ok <==> deformer_sections_ok(reader.bytes().len(), offsets@, *counts) && forall|d: int|
                0 <= d < counts.deformers ==> #[trigger] deformer_ok(t, d)
            &&& res matches Ok(v) ==> v@.len() == counts.deformers && forall|d: int|
                0 <= d < counts.deformers ==> (#[trigger] v@[d])@ == deformer_of(t, d)
        }),
        res matches Err(e) ==> e is InvalidMoc3,
{
    let ghost t = deformer_tables(reader.bytes(), reader.order(), offsets@, *counts);
    let v = DeformerVecs {
        parents: read_i32(reader, offsets, 16, counts.deformers)?,
        kinds: read_i32(reader, offsets, 17, counts.deformers)?,
        specific_indices: read_i32(reader, offsets, 18, counts.deformers)?,
        warp_bands: read_i32(reader, offsets, 19, counts.warp_deformers)?,
        warp_begins: read_i32(reader, offsets, 20, counts.warp_deformers)?,
        warp_counts: read_i32(reader, offsets, 21, counts.warp_deformers)?,
        warp_vertices: read_i32(reader, offsets, 22, counts.warp_deformers)?,
        warp_rows: read_i32(reader, offsets, 23, counts.warp_deformers)?,
        warp_columns: read_i32(reader, offsets, 24, counts.warp_deformers)?,
        rotation_bands: read_i32(reader, offsets, 25, counts.rotation_deformers)?,
        rotation_begins: read_i32(reader, offsets, 26, counts.rotation_deformers)?,
        rotation_counts: read_i32(reader, offsets, 27, counts.rotation_deformers)?,
        rotation_base_angles: read_f32(reader, offsets, 28, counts.rotation_deformers)?,
        warp_opacities: read_f32_or(reader, offsets, 59, counts.warp_deformer_keyforms, ONE_BITS)?,
        warp_position_begins: read_i32(reader, offsets, 60, counts.warp_deformer_keyforms)?,
        rotation_opacities: read_f32_or(reader, offsets, 61, counts.rotation_deformer_keyforms, ONE_BITS)?,
        rotation_angles: read_f32(reader, offsets, 62, counts.rotation_deformer_keyforms)?,
        rotation_x: read_f32(reader, offsets, 63, counts.rotation_deformer_keyforms)?,
        rotation_y: read_f32(reader, offsets, 64, counts.rotation_deformer_keyforms)?,
        rotation_scales: read_f32(reader, offsets, 65, counts.rotation_deformer_keyforms)?,
        rotation_reflect_x: read_i32(reader, offsets, 66, counts.rotation_deformer_keyforms)?,
        rotation_reflect_y: read_i32(reader, offsets, 67, counts.rotation_deformer_keyforms)?,
        positions: read_f32(reader, offsets, 71, counts.keyform_positions)?,
        warp_color_begins: read_i32_or(reader, offsets, 105, counts.warp_deformers, -1)?,
        rotation_color_begins: read_i32_or(reader, offsets, 106, counts.rotation_deformers, -1)?,
        multiply: read_colors(
            reader,
            offsets,
            (108, 109, 110),
            counts.keyform_multiply_colors,
            Rgb { red: ONE_BITS, green: ONE_BITS, blue: ONE_BITS },
        )?,
        screen: read_colors(reader, offsets, (111, 112, 113), counts.keyform_screen_colors, Rgb { red: 0, green: 0, blue: 0 })?,
    };
    assert(v.matches(t, *counts));
    let mut deformers: Vec<Deformer> = Vec::new();
    let mut index: usize = 0;
    while index < counts.deformers
        invariant
            index <= counts.deformers,
            t == deformer_tables(reader.bytes(), reader.order(), offsets@, *counts),
            v.matches(t, *counts),
            deformers@.len() == index,
            forall|d: int| 0 <= d < index ==> #[trigger] deformer_ok(t, d),
            forall|d: int| 0 <= d < index ==> (#[trigger] deformers@[d])@ == deformer_of(t, d),
        decreases counts.deformers - index,
    {
        let parent = optional_unbounded_index(v.parents[index]);
        let specific = match nonnegative(v.specific_indices[index]) {
            Ok(value) => value,
            Err(error) => {
                assert(!deformer_ok(t, index as int));
                return Err(error);
            },
        };
        let kind = v.kinds[index];
        let deformer = if kind == 0 {
            match parse_warp(specific, parent, &v, Ghost(t), Ghost(*counts)) {
                Ok(warp) => Deformer::Warp(warp),
                Err(error) => {
                    assert(!deformer_ok(t, index as int));
                    return Err(error);
                },
            }
        } else if kind == 1 {
            match parse_rotation(specific, parent, &v, Ghost(t), Ghost(*counts)) {
                Ok(rotation) => Deformer::Rotation(rotation),
                Err(error) => {
                    assert(!deformer_ok(t, index as int));
                    return Err(error);
                },
            }
        } else {
            assert(!deformer_ok(t, index as int));
            return Err(invalid_moc3("unsupported deformer kind"));
        };
        deformers.push(deformer);
        index = index + 1;
    }
    Ok(deformers)
}

} // verus!
