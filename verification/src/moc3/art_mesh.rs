//! ArtMeshes: texture mapping, triangles, clipping masks and keyed vertex
//! positions and colors.

use vstd::prelude::*;

use super::layout::{
    checked_range, checked_scaled_range, colors_of, colors_ok, nonnegative, opt_index, optional_unbounded_index,
    range_ok, read_colors, read_f32, read_i16, read_i32, read_i32_or, read_ok, read_or_i32, read_or_ok, read_u8,
    scaled_range_ok, Counts,
};
use super::reader::{table_i16, table_i32, table_u32, table_u8, Reader};
use super::types::{
    art_mesh_keyform_views, black, white, ArtMesh, ArtMeshKeyform, ArtMeshKeyformModel, ArtMeshModel, Endianness, Rgb,
    ONE_BITS,
};
use crate::error::{invalid_moc3, Error};

verus! {

/// `count` coordinate pairs read from `values` starting at `start`.
pub open spec fn pairs_of(values: Seq<u32>, start: int, count: nat) -> Seq<(u32, u32)> {
    Seq::new(count, |j: int| (values[start + 2 * j], values[start + 2 * j + 1]))
}

/// Groups `count` coordinate pairs starting at `start`.
pub fn read_pairs(values: &Vec<u32>, start: usize, count: usize) -> (res: Vec<(u32, u32)>)
    requires
        start + 2 * count <= values@.len(),
    ensures
        res@ == pairs_of(values@, start as int, count as nat),
{
    let n = values.len();
    let mut pairs: Vec<(u32, u32)> = Vec::new();
    let mut j: usize = 0;
    while j < count
        invariant
            n == values@.len(),
            j <= count,
            start + 2 * count <= values@.len(),
            pairs@ =~= pairs_of(values@, start as int, j as nat),
        decreases count - j,
    {
        let at = start + 2 * j;
        pairs.push((values[at], values[at + 1]));
        j = j + 1;
    }
    pairs
}

/// Whether the color index of local keyform `l` fits in `usize`.
pub open spec fn color_index_ok(begin: i32, l: int) -> bool {
    begin < 0 || begin + l <= usize::MAX
}

/// The color of local keyform `l`, or `default` when it has none.
pub open spec fn color_at(colors: Seq<Rgb>, begin: i32, l: int, default: Rgb) -> Rgb {
    if begin < 0 {
        default
    } else if 0 <= begin + l < colors.len() {
        colors[begin + l]
    } else {
        default
    }
}

/// The index of the color of local keyform `local_index`, if the entity has colors.
pub fn color_index(begin: i32, local_index: usize) -> (res: Result<Option<usize>, Error>)
    ensures
        res is Ok <==> color_index_ok(begin, local_index as int),
        res matches Ok(v) ==> (begin < 0 ==> v is None) && (begin >= 0 ==> v == Some((begin + local_index) as usize)),
        res matches Err(e) ==> e is InvalidMoc3,
{
    if begin < 0 {
        return Ok(None);
    }
    match (begin as usize).checked_add(local_index) {
        Some(index) => Ok(Some(index)),
        None => Err(invalid_moc3("color index overflows")),
    }
}

/// Looks up a color, falling back to `default`.
pub fn color_or(colors: &Vec<Rgb>, index: Option<usize>, default: Rgb) -> (res: Rgb)
    ensures
        res == match index {
            Some(i) => if i < colors@.len() {
                colors@[i as int]
            } else {
                default
            },
            None => default,
        },
{
    match index {
        Some(i) => if i < colors.len() {
            colors[i]
        } else {
            default
        },
        None => default,
    }
}

/// The sections that ArtMeshes are read from, already read.
pub struct MeshTables {
    pub band_indices: Seq<i32>,
    pub keyform_begins: Seq<i32>,
    pub keyform_counts: Seq<i32>,
    pub parent_parts: Seq<i32>,
    pub parent_deformers: Seq<i32>,
    pub texture_indices: Seq<i32>,
    pub flags: Seq<u8>,
    pub vertex_counts: Seq<i32>,
    pub uv_begins: Seq<i32>,
    pub index_begins: Seq<i32>,
    pub index_counts: Seq<i32>,
    pub mask_begins: Seq<i32>,
    pub mask_counts: Seq<i32>,
    pub opacities: Seq<u32>,
    pub draw_orders: Seq<u32>,
    pub position_begins: Seq<i32>,
    pub positions: Seq<u32>,
    pub uv_values: Seq<u32>,
    pub position_indices: Seq<i16>,
    pub masks: Seq<i32>,
    pub color_begins: Seq<i32>,
    pub multiply: Seq<Rgb>,
    pub screen: Seq<Rgb>,
}

/// The ArtMesh sections of a file with `n` ArtMeshes.
pub open spec fn mesh_tables(b: Seq<u8>, e: Endianness, o: Seq<usize>, n: nat, c: Counts) -> MeshTables {
    MeshTables {
        band_indices: read_or_i32(b, e, o, 34, n, -1i32),
        keyform_begins: table_i32(b, e, o[35] as int, n),
        keyform_counts: table_i32(b, e, o[36] as int, n),
        parent_parts: table_i32(b, e, o[39] as int, n),
        parent_deformers: read_or_i32(b, e, o, 40, n, -1i32),
        texture_indices: table_i32(b, e, o[41] as int, n),
        flags: table_u8(b, o[42] as int, n),
        vertex_counts: table_i32(b, e, o[43] as int, n),
        uv_begins: table_i32(b, e, o[44] as int, n),
        index_begins: table_i32(b, e, o[45] as int, n),
        index_counts: table_i32(b, e, o[46] as int, n),
        mask_begins: table_i32(b, e, o[47] as int, n),
        mask_counts: table_i32(b, e, o[48] as int, n),
        opacities: table_u32(b, e, o[68] as int, c.art_mesh_keyforms as nat),
        draw_orders: table_u32(b, e, o[69] as int, c.art_mesh_keyforms as nat),
        position_begins: table_i32(b, e, o[70] as int, c.art_mesh_keyforms as nat),
        positions: table_u32(b, e, o[71] as int, c.keyform_positions as nat),
        uv_values: table_u32(b, e, o[78] as int, c.uvs as nat),
        position_indices: table_i16(b, e, o[79] as int, c.position_indices as nat),
        masks: table_i32(b, e, o[80] as int, c.drawable_masks as nat),
        color_begins: read_or_i32(b, e, o, 107, n, -1i32),
        multiply: colors_of(b, e, o, (108, 109, 110), c.keyform_multiply_colors as nat, white()),
        screen: colors_of(b, e, o, (111, 112, 113), c.keyform_screen_colors as nat, black()),
    }
}

/// Whether every ArtMesh section can be read.
pub open spec fn mesh_sections_ok(len: nat, o: Seq<usize>, n: nat, c: Counts) -> bool {
    &&& read_or_ok(len, o, 34, n, 4)
    &&& read_ok(len, o, 35, n, 4)
    &&& read_ok(len, o, 36, n, 4)
    &&& read_ok(len, o, 39, n, 4)
    &&& read_or_ok(len, o, 40, n, 4)
    &&& read_ok(len, o, 41, n, 4)
    &&& read_ok(len, o, 42, n, 1)
    &&& read_ok(len, o, 43, n, 4)
    &&& read_ok(len, o, 44, n, 4)
    &&& read_ok(len, o, 45, n, 4)
    &&& read_ok(len, o, 46, n, 4)
    &&& read_ok(len, o, 47, n, 4)
    &&& read_ok(len, o, 48, n, 4)
    &&& read_ok(len, o, 68, c.art_mesh_keyforms as nat, 4)
    &&& read_ok(len, o, 69, c.art_mesh_keyforms as nat, 4)
    &&& read_ok(len, o, 70, c.art_mesh_keyforms as nat, 4)
    &&& read_ok(len, o, 71, c.keyform_positions as nat, 4)
    &&& read_ok(len, o, 78, c.uvs as nat, 4)
    &&& read_ok(len, o, 79, c.position_indices as nat, 2)
    &&& read_ok(len, o, 80, c.drawable_masks as nat, 4)
    &&& read_or_ok(len, o, 107, n, 4)
    &&& colors_ok(len, o, (108, 109, 110), c.keyform_multiply_colors as nat)
    &&& colors_ok(len, o, (111, 112, 113), c.keyform_screen_colors as nat)
}

/// Whether keyform `kf`, the `l`-th of an ArtMesh with `vc` vertices, is readable.
pub open spec fn mesh_keyform_ok(t: MeshTables, vc: nat, cb: i32, kf: int, l: int) -> bool {
    scaled_range_ok(t.position_begins[kf], vc, 2, t.positions.len()) && color_index_ok(cb, l)
}

/// Keyform `kf`, the `l`-th of an ArtMesh with `vc` vertices.
pub open spec fn mesh_keyform_of(t: MeshTables, vc: nat, cb: i32, kf: int, l: int) -> ArtMeshKeyformModel {
    ArtMeshKeyformModel {
        positions: pairs_of(t.positions, t.position_begins[kf] as int, vc),
        opacity: t.opacities[kf],
        draw_order: t.draw_orders[kf],
        multiply_color: color_at(t.multiply, cb, l, white()),
        screen_color: color_at(t.screen, cb, l, black()),
    }
}

/// Whether ArtMesh `i` of `n` is consistent.
pub open spec fn mesh_ok(t: MeshTables, n: nat, keyform_total: nat, i: int) -> bool {
    let vc = t.vertex_counts[i];
    let ib = t.index_begins[i];
    let mb = t.mask_begins[i];
    let kb = t.keyform_begins[i];
    &&& vc >= 0
    &&& scaled_range_ok(t.uv_begins[i], vc as nat, 2, t.uv_values.len())
    &&& range_ok(ib, t.index_counts[i], t.position_indices.len())
    &&& forall|u: int| ib <= u < ib + t.index_counts[i] ==> #[trigger] t.position_indices[u] >= 0
    &&& range_ok(mb, t.mask_counts[i], t.masks.len())
    &&& forall|u: int| mb <= u < mb + t.mask_counts[i] ==> 0 <= #[trigger] t.masks[u] < n
    &&& range_ok(kb, t.keyform_counts[i], keyform_total)
    &&& forall|l: int|
        0 <= l < t.keyform_counts[i] ==> #[trigger] mesh_keyform_ok(t, vc as nat, t.color_begins[i], kb + l, l)
    &&& t.texture_indices[i] >= 0
}

/// ArtMesh `i` with identifier `id`.
pub open spec fn mesh_of(t: MeshTables, id: Seq<char>, i: int) -> ArtMeshModel {
    let vc = t.vertex_counts[i] as nat;
    let kb = t.keyform_begins[i] as int;
    ArtMeshModel {
        id,
        texture_index: t.texture_indices[i] as usize,
        drawable_flags: t.flags[i],
        parent_part_index: opt_index(t.parent_parts[i]),
        parent_deformer_index: opt_index(t.parent_deformers[i]),
        binding_band_index: opt_index(t.band_indices[i]),
        uvs: pairs_of(t.uv_values, t.uv_begins[i] as int, vc),
        triangle_indices: Seq::new(
            t.index_counts[i] as nat,
            |u: int| t.position_indices[t.index_begins[i] + u] as u16,
        ),
        mask_drawable_indices: Seq::new(t.mask_counts[i] as nat, |u: int| t.masks[t.mask_begins[i] + u] as usize),
        keyforms: Seq::new(
            t.keyform_counts[i] as nat,
            |l: int| mesh_keyform_of(t, vc, t.color_begins[i], kb + l, l),
        ),
    }
}

/// Reads the keyforms of one ArtMesh.
fn parse_mesh_keyforms(
    start: usize,
    end: usize,
    vertex_count: usize,
    color_begin: i32,
    position_begins: &Vec<i32>,
    positions: &Vec<u32>,
    opacities: &Vec<u32>,
    draw_orders: &Vec<u32>,
    multiply: &Vec<Rgb>,
    screen: &Vec<Rgb>,
    Ghost(t): Ghost<MeshTables>,
) -> (res: Result<Vec<ArtMeshKeyform>, Error>)
    requires
        start <= end <= position_begins@.len(),
        position_begins@.len() == opacities@.len(),
        position_begins@.len() == draw_orders@.len(),
        t.position_begins == position_begins@,
        t.positions == positions@,
        t.opacities == opacities@,
        t.draw_orders == draw_orders@,
        t.multiply == multiply@,
        t.screen == screen@,
    ensures
        res is Ok <==> forall|l: int|
            0 <= l < end - start ==> #[trigger] mesh_keyform_ok(t, vertex_count as nat, color_begin, start + l, l),
        res matches Ok(v) ==> art_mesh_keyform_views(v@) == Seq::new(
            (end - start) as nat,
            |l: int| mesh_keyform_of(t, vertex_count as nat, color_begin, start + l, l),
        ),
        res matches Err(e) ==> e is InvalidMoc3,
{
    let mut keyforms: Vec<ArtMeshKeyform> = Vec::new();
    let mut kf = start;
    while kf < end
        invariant
            start <= kf <= end <= position_begins@.len(),
            position_begins@.len() == opacities@.len(),
            position_begins@.len() == draw_orders@.len(),
            t.position_begins == position_begins@,
            t.positions == positions@,
            t.opacities == opacities@,
            t.draw_orders == draw_orders@,
            t.multiply == multiply@,
            t.screen == screen@,
            forall|l: int|
                0 <= l < kf - start ==> #[trigger] mesh_keyform_ok(t, vertex_count as nat, color_begin, start + l, l),
            art_mesh_keyform_views(keyforms@) =~= Seq::new(
                (kf - start) as nat,
                |l: int| mesh_keyform_of(t, vertex_count as nat, color_begin, start + l, l),
            ),
        decreases end - kf,
    {
        let local = kf - start;
        let (ps, _pe) = match checked_scaled_range(position_begins[kf], vertex_count, 2, positions.len()) {
            Ok(range) => range,
            Err(error) => {
                assert(!mesh_keyform_ok(t, vertex_count as nat, color_begin, start + local, local as int));
                return Err(error);
            },
        };
        let color = match color_index(color_begin, local) {
            Ok(index) => index,
            Err(error) => {
                assert(!mesh_keyform_ok(t, vertex_count as nat, color_begin, start + local, local as int));
                return Err(error);
            },
        };
        let keyform = ArtMeshKeyform {
            positions: read_pairs(positions, ps, vertex_count),
            opacity: opacities[kf],
            draw_order: draw_orders[kf],
            multiply_color: color_or(multiply, color, Rgb { red: ONE_BITS, green: ONE_BITS, blue: ONE_BITS }),
            screen_color: color_or(screen, color, Rgb { red: 0, green: 0, blue: 0 }),
        };
        let ghost before = keyforms@;
        keyforms.push(keyform);
        assert(art_mesh_keyform_views(keyforms@) =~= art_mesh_keyform_views(before).push(keyform@));
        assert(keyform@ == mesh_keyform_of(t, vertex_count as nat, color_begin, start + local, local as int));
        kf = kf + 1;
    }
    Ok(keyforms)
}

/// Reads the triangle indices of one ArtMesh; none may be negative.
fn triangle_indices(position_indices: &Vec<i16>, start: usize, end: usize) -> (res: Result<Vec<u16>, Error>)
    requires
        start <= end <= position_indices@.len(),
    ensures
        res is Ok <==> forall|u: int| start <= u < end ==> #[trigger] position_indices@[u] >= 0,
        res matches Ok(v) ==> v@ == Seq::new((end - start) as nat, |u: int| position_indices@[start + u] as u16),
        res matches Err(e) ==> e is InvalidMoc3,
{
    let mut values: Vec<u16> = Vec::new();
    let mut u = start;
    while u < end
        invariant
            start <= u <= end <= position_indices@.len(),
            forall|w: int| start <= w < u ==> #[trigger] position_indices@[w] >= 0,
            values@ =~= Seq::new((u - start) as nat, |w: int| position_indices@[start + w] as u16),
        decreases end - u,
    {
        let value = position_indices[u];
        if value < 0 {
            return Err(invalid_moc3("negative triangle index"));
        }
        values.push(value as u16);
        u = u + 1;
    }
    Ok(values)
}

/// Reads the clipping masks of one ArtMesh; each must name an existing ArtMesh.
fn mask_indices(masks: &Vec<i32>, start: usize, end: usize, count: usize) -> (res: Result<Vec<usize>, Error>)
    requires
        start <= end <= masks@.len(),
    ensures
        res is Ok <==> forall|u: int| start <= u < end ==> 0 <= #[trigger] masks@[u] < count,
        res matches Ok(v) ==> v@ == Seq::new((end - start) as nat, |u: int| masks@[start + u] as usize),
        res matches Err(e) ==> e is InvalidMoc3,
{
    let mut values: Vec<usize> = Vec::new();
    let mut u = start;
    while u < end
        invariant
            start <= u <= end <= masks@.len(),
            forall|w: int| start <= w < u ==> 0 <= #[trigger] masks@[w] < count,
            values@ =~= Seq::new((u - start) as nat, |w: int| masks@[start + w] as usize),
        decreases end - u,
    {
        let value = masks[u];
        if value < 0 {
            return Err(invalid_moc3("negative mask index"));
        }
        if value as usize >= count {
            return Err(invalid_moc3("mask index is outside the drawable table"));
        }
        values.push(value as usize);
        u = u + 1;
    }
    Ok(values)
}

/// The views of a sequence of ArtMeshes.
pub open spec fn mesh_views(v: Seq<ArtMesh>) -> Seq<ArtMeshModel> {
    v.map_values(|m: ArtMesh| m@)
}

/// Reads one ArtMesh from the already read tables.
fn parse_art_mesh(
    index: usize,
    count: usize,
    id: String,
    tables: &MeshVecs,
    Ghost(t): Ghost<MeshTables>,
    art_mesh_keyforms: usize,
) -> (res: Result<ArtMesh, Error>)
    requires
        index < count,
        tables.matches(t, count, art_mesh_keyforms),
    ensures
        res is Ok <==> mesh_ok(t, count as nat, art_mesh_keyforms as nat, index as int),
        res matches Ok(m) ==> m@ == mesh_of(t, id@, index as int),
        res matches Err(e) ==> e is InvalidMoc3,
{
    let ghost i = index as int;
    let vertex_count = nonnegative(tables.vertex_counts[index])?;
    let (uv_start, _uv_end) = checked_scaled_range(tables.uv_begins[index], vertex_count, 2, tables.uv_values.len())?;
    let uvs = read_pairs(&tables.uv_values, uv_start, vertex_count);
    let (index_start, index_end) = checked_range(
        tables.index_begins[index],
        tables.index_counts[index],
        tables.position_indices.len(),
    )?;
    let triangles = triangle_indices(&tables.position_indices, index_start, index_end)?;
    let (mask_start, mask_end) = checked_range(tables.mask_begins[index], tables.mask_counts[index], tables.masks.len())?;
    let masks = mask_indices(&tables.masks, mask_start, mask_end, count)?;
    let (keyform_start, keyform_end) = checked_range(
        tables.keyform_begins[index],
        tables.keyform_counts[index],
        art_mesh_keyforms,
    )?;
    let keyforms = parse_mesh_keyforms(
        keyform_start,
        keyform_end,
        vertex_count,
        tables.color_begins[index],
        &tables.position_begins,
        &tables.positions,
        &tables.opacities,
        &tables.draw_orders,
        &tables.multiply,
        &tables.screen,
        Ghost(t),
    )?;
    let texture_index = nonnegative(tables.texture_indices[index])?;
    let mesh = ArtMesh::new(
        id,
        texture_index,
        tables.flags[index],
        optional_unbounded_index(tables.parent_parts[index]),
        optional_unbounded_index(tables.parent_deformers[index]),
        optional_unbounded_index(tables.band_indices[index]),
        uvs,
        triangles,
        masks,
        keyforms,
    );
    assert(mesh@.keyforms =~= mesh_of(t, id@, i).keyforms);
    assert(mesh@.triangle_indices =~= mesh_of(t, id@, i).triangle_indices);
    assert(mesh@.mask_drawable_indices =~= mesh_of(t, id@, i).mask_drawable_indices);
    Ok(mesh)
}

/// The ArtMesh sections once read.
struct MeshVecs {
    band_indices: Vec<i32>,
    keyform_begins: Vec<i32>,
    keyform_counts: Vec<i32>,
    parent_parts: Vec<i32>,
    parent_deformers: Vec<i32>,
    texture_indices: Vec<i32>,
    flags: Vec<u8>,
    vertex_counts: Vec<i32>,
    uv_begins: Vec<i32>,
    index_begins: Vec<i32>,
    index_counts: Vec<i32>,
    mask_begins: Vec<i32>,
    mask_counts: Vec<i32>,
    opacities: Vec<u32>,
    draw_orders: Vec<u32>,
    position_begins: Vec<i32>,
    positions: Vec<u32>,
    uv_values: Vec<u32>,
    position_indices: Vec<i16>,
    masks: Vec<i32>,
    color_begins: Vec<i32>,
    multiply: Vec<Rgb>,
    screen: Vec<Rgb>,
}

impl MeshVecs {
    spec fn matches(&self, t: MeshTables, count: usize, art_mesh_keyforms: usize) -> bool {
        &&& self.band_indices@ == t.band_indices && t.band_indices.len() == count
        &&& self.keyform_begins@ == t.keyform_begins && t.keyform_begins.len() == count
        &&& self.keyform_counts@ == t.keyform_counts && t.keyform_counts.len() == count
        &&& self.parent_parts@ == t.parent_parts && t.parent_parts.len() == count
        &&& self.parent_deformers@ == t.parent_deformers && t.parent_deformers.len() == count
        &&& self.texture_indices@ == t.texture_indices && t.texture_indices.len() == count
        &&& self.flags@ == t.flags && t.flags.len() == count
        &&& self.vertex_counts@ == t.vertex_counts && t.vertex_counts.len() == count
        &&& self.uv_begins@ == t.uv_begins && t.uv_begins.len() == count
        &&& self.index_begins@ == t.index_begins && t.index_begins.len() == count
        &&& self.index_counts@ == t.index_counts && t.index_counts.len() == count
        &&& self.mask_begins@ == t.mask_begins && t.mask_begins.len() == count
        &&& self.mask_counts@ == t.mask_counts && t.mask_counts.len() == count
        &&& self.opacities@ == t.opacities && t.opacities.len() == art_mesh_keyforms
        &&& self.draw_orders@ == t.draw_orders && t.draw_orders.len() == art_mesh_keyforms
        &&& self.position_begins@ == t.position_begins && t.position_begins.len() == art_mesh_keyforms
        &&& self.positions@ == t.positions
        &&& self.uv_values@ == t.uv_values
        &&& self.position_indices@ == t.position_indices
        &&& self.masks@ == t.masks
        &&& self.color_begins@ == t.color_begins && t.color_begins.len() == count
        &&& self.multiply@ == t.multiply
        &&& self.screen@ == t.screen
    }
}

/// Reads the ArtMeshes.
pub fn parse_art_meshes(reader: &Reader, offsets: &Vec<usize>, ids: &Vec<String>, counts: &Counts) -> (res: Result<Vec<ArtMesh>, Error>)
    requires
        offsets@.len() == 160,
    ensures
        ({
            let t = mesh_tables(reader.bytes(), reader.order(), offsets@, ids@.len(), *counts);
            &&& res is Ok <==> mesh_sections_ok(reader.bytes().len(), offsets@, ids@.len(), *counts) && forall|i: int|
                0 <= i < ids@.len() ==> #[trigger] mesh_ok(t, ids@.len(), counts.art_mesh_keyforms as nat, i)
            &&& res matches Ok(v) ==> v@.len() == ids@.len() && forall|i: int|
                0 <= i < ids@.len() ==> (#[trigger] v@[i])@ == mesh_of(t, ids@[i]@, i)
        }),
        res matches Err(e) ==> e is InvalidMoc3,
{
    let count = ids.len();
    let ghost t = mesh_tables(reader.bytes(), reader.order(), offsets@, count as nat, *counts);
    let tables = MeshVecs {
        band_indices: read_i32_or(reader, offsets, 34, count, -1)?,
        keyform_begins: read_i32(reader, offsets, 35, count)?,
        keyform_counts: read_i32(reader, offsets, 36, count)?,
        parent_parts: read_i32(reader, offsets, 39, count)?,
        parent_deformers: read_i32_or(reader, offsets, 40, count, -1)?,
        texture_indices: read_i32(reader, offsets, 41, count)?,
        flags: read_u8(reader, offsets, 42, count)?,
        vertex_counts: read_i32(reader, offsets, 43, count)?,
        uv_begins: read_i32(reader, offsets, 44, count)?,
        index_begins: read_i32(reader, offsets, 45, count)?,
        index_counts: read_i32(reader, offsets, 46, count)?,
        mask_begins: read_i32(reader, offsets, 47, count)?,
        mask_counts: read_i32(reader, offsets, 48, count)?,
        opacities: read_f32(reader, offsets, 68, counts.art_mesh_keyforms)?,
        draw_orders: read_f32(reader, offsets, 69, counts.art_mesh_keyforms)?,
        position_begins: read_i32(reader, offsets, 70, counts.art_mesh_keyforms)?,
        positions: read_f32(reader, offsets, 71, counts.keyform_positions)?,
        uv_values: read_f32(reader, offsets, 78, counts.uvs)?,
        position_indices: read_i16(reader, offsets, 79, counts.position_indices)?,
        masks: read_i32(reader, offsets, 80, counts.drawable_masks)?,
        color_begins: read_i32_or(reader, offsets, 107, count, -1)?,
        multiply: read_colors(
            reader,
            offsets,
            (108, 109, 110),
            counts.keyform_multiply_colors,
            Rgb { red: ONE_BITS, green: ONE_BITS, blue: ONE_BITS },
        )?,
        screen: read_colors(reader, offsets, (111, 112, 113), counts.keyform_screen_colors, Rgb { red: 0, green: 0, blue: 0 })?,
    };
    assert(tables.matches(t, count, counts.art_mesh_keyforms));
    let mut meshes: Vec<ArtMesh> = Vec::new();
    let mut index: usize = 0;
    while index < count
        invariant
            index <= count,
            count == ids@.len(),
            t == mesh_tables(reader.bytes(), reader.order(), offsets@, count as nat, *counts),
            tables.matches(t, count, counts.art_mesh_keyforms),
            meshes@.len() == index,
            forall|i: int| 0 <= i < index ==> #[trigger] mesh_ok(t, count as nat, counts.art_mesh_keyforms as nat, i),
            forall|i: int| 0 <= i < index ==> (#[trigger] meshes@[i])@ == mesh_of(t, ids@[i]@, i),
        decreases count - index,
    {
        let mesh = match parse_art_mesh(index, count, ids[index].clone(), &tables, Ghost(t), counts.art_mesh_keyforms) {
            Ok(mesh) => mesh,
            Err(error) => {
                assert(!mesh_ok(t, count as nat, counts.art_mesh_keyforms as nat, index as int));
                return Err(error);
            },
        };
        meshes.push(mesh);
        index = index + 1;
    }
    Ok(meshes)
}

} // verus!
