//! Glue constraints that join vertices of two ArtMeshes.

use vstd::prelude::*;

use super::layout::{checked_range, nonnegative, opt_index, optional_unbounded_index, range_ok, read_f32, read_i32, read_ok, read_u16, Counts};
use super::reader::{table_i32, table_u16, table_u32, Reader};
use super::types::{Endianness, Glue, GlueModel, GlueVertex};
use crate::error::{invalid_moc3, Error};

verus! {

/// The sections that glues are read from, already read.
pub struct GlueTables {
    pub bands: Seq<i32>,
    pub keyform_begins: Seq<i32>,
    pub keyform_counts: Seq<i32>,
    pub mesh_a: Seq<i32>,
    pub mesh_b: Seq<i32>,
    pub vertex_begins: Seq<i32>,
    pub vertex_counts: Seq<i32>,
    pub weights: Seq<u32>,
    pub vertex_indices: Seq<u16>,
    pub intensities: Seq<u32>,
}

/// The glue sections of a file.
pub open spec fn glue_tables(b: Seq<u8>, e: Endianness, o: Seq<usize>, c: Counts) -> GlueTables {
    GlueTables {
        bands: table_i32(b, e, o[91] as int, c.glues as nat),
        keyform_begins: table_i32(b, e, o[92] as int, c.glues as nat),
        keyform_counts: table_i32(b, e, o[93] as int, c.glues as nat),
        mesh_a: table_i32(b, e, o[94] as int, c.glues as nat),
        mesh_b: table_i32(b, e, o[95] as int, c.glues as nat),
        vertex_begins: table_i32(b, e, o[96] as int, c.glues as nat),
        vertex_counts: table_i32(b, e, o[97] as int, c.glues as nat),
        weights: table_u32(b, e, o[98] as int, c.glue_vertices as nat),
        vertex_indices: table_u16(b, e, o[99] as int, c.glue_vertices as nat),
        intensities: table_u32(b, e, o[100] as int, c.glue_keyforms as nat),
    }
}

/// Whether every glue section can be read.
pub open spec fn glue_sections_ok(len: nat, o: Seq<usize>, c: Counts) -> bool {
    &&& read_ok(len, o, 91, c.glues as nat, 4)
    &&& read_ok(len, o, 92, c.glues as nat, 4)
    &&& read_ok(len, o, 93, c.glues as nat, 4)
    &&& read_ok(len, o, 94, c.glues as nat, 4)
    &&& read_ok(len, o, 95, c.glues as nat, 4)
    &&& read_ok(len, o, 96, c.glues as nat, 4)
    &&& read_ok(len, o, 97, c.glues as nat, 4)
    &&& read_ok(len, o, 98, c.glue_vertices as nat, 4)
    &&& read_ok(len, o, 99, c.glue_vertices as nat, 2)
    &&& read_ok(len, o, 100, c.glue_keyforms as nat, 4)
}

/// Whether glue `g` is consistent: its vertices come in pairs and its
/// ranges and ArtMesh indices are in bounds.
pub open spec fn glue_ok(t: GlueTables, c: Counts, g: int) -> bool {
    &&& range_ok(t.vertex_begins[g], t.vertex_counts[g], c.glue_vertices as nat)
    &&& t.vertex_counts[g] % 2 == 0
    &&& range_ok(t.keyform_begins[g], t.keyform_counts[g], c.glue_keyforms as nat)
    &&& t.mesh_a[g] >= 0
    &&& t.mesh_b[g] >= 0
}

/// Glue `g`.
pub open spec fn glue_of(t: GlueTables, g: int) -> GlueModel {
    let vb = t.vertex_begins[g] as int;
    let kb = t.keyform_begins[g] as int;
    GlueModel {
        art_mesh_indices: (t.mesh_a[g] as usize, t.mesh_b[g] as usize),
        binding_band_index: opt_index(t.bands[g]),
        vertices_a: Seq::new(
            (t.vertex_counts[g] / 2) as nat,
            |j: int| GlueVertex { vertex_index: t.vertex_indices[vb + 2 * j] as usize, weight: t.weights[vb + 2 * j] },
        ),
        vertices_b: Seq::new(
            (t.vertex_counts[g] / 2) as nat,
            |j: int|
                GlueVertex {
                    vertex_index: t.vertex_indices[vb + 2 * j + 1] as usize,
                    weight: t.weights[vb + 2 * j + 1],
                },
        ),
        intensities: t.intensities.subrange(kb, kb + t.keyform_counts[g]),
    }
}

/// Reads the glues.
pub fn parse_glues(reader: &Reader, offsets: &Vec<usize>, counts: &Counts) -> (res: Result<Vec<Glue>, Error>)
    requires
        offsets@.len() == 160,
    ensures
        ({
            let t = glue_tables(reader.bytes(), reader.order(), offsets@, *counts);
            &&& res is Ok <==> glue_sections_ok(reader.bytes().len(), offsets@, *counts) && forall|g: int|
                0 <= g < counts.glues ==> #[trigger] glue_ok(t, *counts, g)
            &&& res matches Ok(v) ==> v@.len() == counts.glues && forall|g: int|
                0 <= g < counts.glues ==> (#[trigger] v@[g])@ == glue_of(t, g)
        }),
        res matches Err(e) ==> e is InvalidMoc3,
{
    let ghost t = glue_tables(reader.bytes(), reader.order(), offsets@, *counts);
    let bands = read_i32(reader, offsets, 91, counts.glues)?;
    let keyform_begins = read_i32(reader, offsets, 92, counts.glues)?;
    let keyform_counts = read_i32(reader, offsets, 93, counts.glues)?;
    let mesh_a = read_i32(reader, offsets, 94, counts.glues)?;
    let mesh_b = read_i32(reader, offsets, 95, counts.glues)?;
    let vertex_begins = read_i32(reader, offsets, 96, counts.glues)?;
    let vertex_counts = read_i32(reader, offsets, 97, counts.glues)?;
    let weights = read_f32(reader, offsets, 98, counts.glue_vertices)?;
    let vertex_indices = read_u16(reader, offsets, 99, counts.glue_vertices)?;
    let intensities = read_f32(reader, offsets, 100, counts.glue_keyforms)?;

    let mut glues: Vec<Glue> = Vec::new();
    let mut index: usize = 0;
    while index < counts.glues
        invariant
            index <= counts.glues,
            t == glue_tables(reader.bytes(), reader.order(), offsets@, *counts),
            bands@ == t.bands,
            keyform_begins@ == t.keyform_begins,
            keyform_counts@ == t.keyform_counts,
            mesh_a@ == t.mesh_a,
            mesh_b@ == t.mesh_b,
            vertex_begins@ == t.vertex_begins,
            vertex_counts@ == t.vertex_counts,
            weights@ == t.weights,
            vertex_indices@ == t.vertex_indices,
            intensities@ == t.intensities,
            bands@.len() == counts.glues,
            weights@.len() == counts.glue_vertices,
            vertex_indices@.len() == counts.glue_vertices,
            intensities@.len() == counts.glue_keyforms,
            glues@.len() == index,
            forall|g: int| 0 <= g < index ==> #[trigger] glue_ok(t, *counts, g),
            forall|g: int| 0 <= g < index ==> (#[trigger] glues@[g])@ == glue_of(t, g),
        decreases counts.glues - index,
    {
        let ghost g = index as int;
        let (start, end) = match checked_range(vertex_begins[index], vertex_counts[index], counts.glue_vertices) {
            Ok(range) => range,
            Err(error) => {
                assert(!glue_ok(t, *counts, g));
                return Err(error);
            },
        };
        if (end - start) % 2 != 0 {
            assert(!glue_ok(t, *counts, g));
            return Err(invalid_moc3("glue vertex table contains an unpaired vertex"));
        }
        let pairs = (end - start) / 2;
        let mut vertices_a: Vec<GlueVertex> = Vec::new();
        let mut vertices_b: Vec<GlueVertex> = Vec::new();
        let mut j: usize = 0;
        while j < pairs
            invariant
                j <= pairs,
                start + 2 * pairs == end,
                end <= weights@.len(),
                weights@.len() == vertex_indices@.len(),
                vertices_a@ =~= Seq::new(
                    j as nat,
                    |k: int| GlueVertex { vertex_index: vertex_indices@[start + 2 * k] as usize, weight: weights@[start + 2 * k] },
                ),
                vertices_b@ =~= Seq::new(
                    j as nat,
                    |k: int|
                        GlueVertex {
                            vertex_index: vertex_indices@[start + 2 * k + 1] as usize,
                            weight: weights@[start + 2 * k + 1],
                        },
                ),
            decreases pairs - j,
        {
            let at = start + 2 * j;
            vertices_a.push(GlueVertex { vertex_index: vertex_indices[at] as usize, weight: weights[at] });
            vertices_b.push(GlueVertex { vertex_index: vertex_indices[at + 1] as usize, weight: weights[at + 1] });
            j = j + 1;
        }
        let (kstart, kend) = match checked_range(keyform_begins[index], keyform_counts[index], counts.glue_keyforms) {
            Ok(range) => range,
            Err(error) => {
                assert(!glue_ok(t, *counts, g));
                return Err(error);
            },
        };
        let mut values: Vec<u32> = Vec::new();
        let mut k = kstart;
        while k < kend
            invariant
                kstart <= k <= kend <= intensities@.len(),
                values@ =~= intensities@.subrange(kstart as int, k as int),
            decreases kend - k,
        {
            values.push(intensities[k]);
            k = k + 1;
        }
        let art_mesh_a = match nonnegative(mesh_a[index]) {
            Ok(value) => value,
            Err(error) => {
                assert(!glue_ok(t, *counts, g));
                return Err(error);
            },
        };
        let art_mesh_b = match nonnegative(mesh_b[index]) {
            Ok(value) => value,
            Err(error) => {
                assert(!glue_ok(t, *counts, g));
                return Err(error);
            },
        };
        let glue = Glue {
            art_mesh_a,
            art_mesh_b,
            binding_band_index: optional_unbounded_index(bands[index]),
            vertices_a,
            vertices_b,
            intensities: values,
        };
        assert(glue@ == glue_of(t, g));
        glues.push(glue);
        index = index + 1;
    }
    Ok(glues)
}

} // verus!
