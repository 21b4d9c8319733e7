//! The whole MOC3 model: every section read and checked in one pass.

use vstd::prelude::*;

use super::art_mesh::{mesh_ok, mesh_of, mesh_sections_ok, mesh_tables, mesh_views, parse_art_meshes};
use super::bindings::{band_of, band_views, binding_sections_ok, binding_tables, bindings_ok, lemma_band_parameters, parse_bindings};
use super::deformer::{deformer_of, deformer_ok, deformer_sections_ok, deformer_tables, deformer_views, parse_deformers};
use super::glue::{glue_of, glue_ok, glue_sections_ok, glue_tables, parse_glues};
use super::layout::{
    canvas_of, counts_of, header_of, ids_of, ids_ok, offsets_of, offsets_ok, parameter_of, parameter_views,
    parameters_ok, parse_canvas, parse_counts, parse_header, parse_ids, parse_offsets, parse_parameters, texts,
    Counts,
};
use super::parts::{part_of, part_ok, part_sections_ok, part_tables, parse_parts};
use super::reader::{i32_at, u32_at, Reader};
use super::types::{
    count_words_of, ArtMesh, ArtMeshModel, BindingBand, Canvas, CanvasModel, Deformer, DeformerModel, Endianness,
    Glue, GlueModel, Moc3Version, Parameter, ParameterBindingModel, ParameterModel, Part, PartModel,
};
use crate::error::Error;

verus! {

/// The abstract contents of a [`Moc3Model`].
pub struct Moc3ModelView {
    pub version: Moc3Version,
    pub endianness: Endianness,
    pub canvas: CanvasModel,
    pub parameters: Seq<ParameterModel>,
    pub binding_bands: Seq<Seq<ParameterBindingModel>>,
    pub parts: Seq<PartModel>,
    pub art_meshes: Seq<ArtMeshModel>,
    pub deformers: Seq<DeformerModel>,
    pub glues: Seq<GlueModel>,
}

/// The views of a sequence of parts.
pub open spec fn part_views(v: Seq<Part>) -> Seq<PartModel> {
    v.map_values(|p: Part| p@)
}

/// The views of a sequence of glues.
pub open spec fn glue_views(v: Seq<Glue>) -> Seq<GlueModel> {
    v.map_values(|g: Glue| g@)
}

/// Whether the sections that follow the header and the count table can be
/// read, given the byte order, the offsets and the counts.
pub open spec fn sections_ok(b: Seq<u8>, e: Endianness, offs: Seq<usize>, c: Counts) -> bool {
    let len = b.len();
    let pt = part_tables(b, e, offs, c.parts as nat, c);
    let mt = mesh_tables(b, e, offs, c.art_meshes as nat, c);
    let dt = deformer_tables(b, e, offs, c);
    let gt = glue_tables(b, e, offs, c);
    &&& offs[1] + 21 <= len
    &&& ids_ok(len, offs, 3, c.parts as nat)
    &&& ids_ok(len, offs, 33, c.art_meshes as nat)
    &&& ids_ok(len, offs, 50, c.parameters as nat)
    &&& parameters_ok(len, offs, c.parameters as nat)
    &&& binding_sections_ok(len, offs, c)
    &&& bindings_ok(binding_tables(b, e, offs, c), c)
    &&& part_sections_ok(len, offs, c.parts as nat, c)
    &&& forall|i: int| 0 <= i < c.parts ==> #[trigger] part_ok(pt, c.parts as nat, c, i)
    &&& mesh_sections_ok(len, offs, c.art_meshes as nat, c)
    &&& forall|i: int| 0 <= i < c.art_meshes ==> #[trigger] mesh_ok(mt, c.art_meshes as nat, c.art_mesh_keyforms as nat, i)
    &&& deformer_sections_ok(len, offs, c)
    &&& forall|d: int| 0 <= d < c.deformers ==> #[trigger] deformer_ok(dt, d)
    &&& glue_sections_ok(len, offs, c)
    &&& forall|g: int| 0 <= g < c.glues ==> #[trigger] glue_ok(gt, c, g)
}

/// Whether `b` is a MOC3 file that [`Moc3Model::parse`] accepts.
pub open spec fn moc3_ok(b: Seq<u8>) -> bool {
    match header_of(b) {
        None => false,
        Some((v, e)) => {
            let offs = offsets_of(b, e);
            &&& offsets_ok(b, e)
            &&& offs[0] + 4 * count_words_of(v) <= b.len()
            &&& sections_ok(b, e, offs, counts_of(b, e, offs[0], v))
        },
    }
}

/// The model read from the sections of `b`.
pub open spec fn sections_of(b: Seq<u8>, v: Moc3Version, e: Endianness, offs: Seq<usize>, c: Counts) -> Moc3ModelView {
    let pt = part_tables(b, e, offs, c.parts as nat, c);
    let mt = mesh_tables(b, e, offs, c.art_meshes as nat, c);
    let dt = deformer_tables(b, e, offs, c);
    let gt = glue_tables(b, e, offs, c);
    let bt = binding_tables(b, e, offs, c);
    let part_ids = ids_of(b, offs, 3, c.parts as nat);
    let mesh_ids = ids_of(b, offs, 33, c.art_meshes as nat);
    let parameter_ids = ids_of(b, offs, 50, c.parameters as nat);
    Moc3ModelView {
        version: v,
        endianness: e,
        canvas: canvas_of(b, e, offs[1] as int),
        parameters: Seq::new(c.parameters as nat, |i: int| parameter_of(b, e, offs, parameter_ids[i], i)),
        binding_bands: Seq::new(c.keyform_bindings as nat, |t: int| band_of(bt, c.parameter_bindings as int, t)),
        parts: Seq::new(c.parts as nat, |i: int| part_of(pt, part_ids[i], i)),
        art_meshes: Seq::new(c.art_meshes as nat, |i: int| mesh_of(mt, mesh_ids[i], i)),
        deformers: Seq::new(c.deformers as nat, |d: int| deformer_of(dt, d)),
        glues: Seq::new(c.glues as nat, |g: int| glue_of(gt, g)),
    }
}

/// The model that [`Moc3Model::parse`] reads from `b`, where [`moc3_ok`] holds.
pub open spec fn moc3_of(b: Seq<u8>) -> Moc3ModelView {
    let (v, e) = header_of(b)->Some_0;
    let offs = offsets_of(b, e);
    sections_of(b, v, e, offs, counts_of(b, e, offs[0], v))
}

/// A model read from valid MOC3 bytes refers only to what it holds: every
/// binding of every band belongs to one of its parameters, and every part's
/// parent is one of its parts.
pub proof fn lemma_model_references(b: Seq<u8>)
    requires
        moc3_ok(b),
    ensures
        forall|t: int, u: int|
            0 <= t < moc3_of(b).binding_bands.len() && 0 <= u < moc3_of(b).binding_bands[t].len() ==> (
            #[trigger] moc3_of(b).binding_bands[t][u]).parameter_index < moc3_of(b).parameters.len(),
        forall|i: int|
            0 <= i < moc3_of(b).parts.len() ==> ((#[trigger] moc3_of(b).parts[i]).parent_part_index matches Some(p)
                ==> p < moc3_of(b).parts.len()),
{
    let (v, e) = header_of(b)->Some_0;
    let offs = offsets_of(b, e);
    let c = counts_of(b, e, offs[0], v);
    let m = moc3_of(b);
    let bt = binding_tables(b, e, offs, c);
    let pt = part_tables(b, e, offs, c.parts as nat, c);
    assert forall|t: int, u: int|
        0 <= t < m.binding_bands.len() && 0 <= u < m.binding_bands[t].len() implies (
        #[trigger] m.binding_bands[t][u]).parameter_index < m.parameters.len() by {
        assert(super::bindings::band_ok(bt, c.parameter_bindings as int, t));
        lemma_band_parameters(bt, c.parameter_bindings as int, t);
        assert(m.binding_bands[t] == band_of(bt, c.parameter_bindings as int, t));
    }
    assert forall|i: int| 0 <= i < m.parts.len() implies ((#[trigger] m.parts[i]).parent_part_index matches Some(p) ==> p
        < m.parts.len()) by {
        assert(part_ok(pt, c.parts as nat, c, i));
    }
}

/// The keyforms of each part of a model read from valid MOC3 bytes are the
/// run of the part keyform sections that the part's keyform begin and
/// count select: keyform `k` of part `i` holds the opacity and draw order
/// stored at entry `begin + k` of those sections, an entry the sections
/// hold.
#[verifier::spinoff_prover]
#[verifier::rlimit(80)]
pub proof fn lemma_part_keyforms_read(b: Seq<u8>)
    requires
        moc3_ok(b),
    ensures
        ({
            let e = header_of(b)->Some_0.1;
            let offs = offsets_of(b, e);
            let c = counts_of(b, e, offs[0], header_of(b)->Some_0.0);
            let m = moc3_of(b);
            &&& forall|i: int|
                0 <= i < m.parts.len() ==> {
                    let begin = i32_at(b, offs[5] + 4 * i, e);
                    let count = i32_at(b, offs[6] + 4 * i, e);
                    &&& (#[trigger] m.parts[i]).keyforms.len() == count
                    &&& 0 <= begin && begin + count <= c.part_keyforms
                }
            &&& forall|i: int, k: int|
                0 <= i < m.parts.len() && 0 <= k < m.parts[i].keyforms.len() ==> {
                    let at = i32_at(b, offs[5] + 4 * i, e) + k;
                    &&& (#[trigger] m.parts[i].keyforms[k]).opacity == u32_at(b, offs[59] + 4 * at, e)
                    &&& m.parts[i].keyforms[k].draw_order == u32_at(b, offs[58] + 4 * at, e)
                }
        }),
{
    let e = header_of(b)->Some_0.1;
    let v = header_of(b)->Some_0.0;
    let offs = offsets_of(b, e);
    let c = counts_of(b, e, offs[0], v);
    let pt = part_tables(b, e, offs, c.parts as nat, c);
    let ids = ids_of(b, offs, 3, c.parts as nat);
    let m = moc3_of(b);
    assert(sections_ok(b, e, offs, c));
    assert(m.parts == Seq::new(c.parts as nat, |i: int| part_of(pt, ids[i], i)));
    assert forall|i: int| 0 <= i < m.parts.len() implies {
        let begin = i32_at(b, offs[5] + 4 * i, e);
        let count = i32_at(b, offs[6] + 4 * i, e);
        &&& (#[trigger] m.parts[i]).keyforms.len() == count
        &&& 0 <= begin && begin + count <= c.part_keyforms
    } by {
        assert(part_ok(pt, c.parts as nat, c, i));
        assert(m.parts[i] == part_of(pt, ids[i], i));
    }
    assert forall|i: int, k: int| 0 <= i < m.parts.len() && 0 <= k < m.parts[i].keyforms.len() implies {
        let at = i32_at(b, offs[5] + 4 * i, e) + k;
        &&& (#[trigger] m.parts[i].keyforms[k]).opacity == u32_at(b, offs[59] + 4 * at, e)
        &&& m.parts[i].keyforms[k].draw_order == u32_at(b, offs[58] + 4 * at, e)
    } by {
        assert(part_ok(pt, c.parts as nat, c, i));
        assert(m.parts[i] == part_of(pt, ids[i], i));
    }
}

/// A parsed, caller-readable MOC3 model.
#[derive(Debug, Clone)]
pub struct Moc3Model {
    version: Moc3Version,
    endianness: Endianness,
    canvas: Canvas,
    parameters: Vec<Parameter>,
    binding_bands: Vec<BindingBand>,
    parts: Vec<Part>,
    art_meshes: Vec<ArtMesh>,
    deformers: Vec<Deformer>,
    glues: Vec<Glue>,
}

impl View for Moc3Model {
    type V = Moc3ModelView;

    closed spec fn view(&self) -> Moc3ModelView {
        Moc3ModelView {
            version: self.version,
            endianness: self.endianness,
            canvas: self.canvas@,
            parameters: parameter_views(self.parameters@),
            binding_bands: band_views(self.binding_bands@),
            parts: part_views(self.parts@),
            art_meshes: mesh_views(self.art_meshes@),
            deformers: deformer_views(self.deformers@),
            glues: glue_views(self.glues@),
        }
    }
}

/// Reads every section after the count table.
fn parse_sections(
    reader: &Reader,
    offsets: &Vec<usize>,
    counts: &Counts,
    version: Moc3Version,
    endianness: Endianness,
) -> (res: Result<Moc3Model, Error>)
    requires
        offsets@.len() == 160,
        endianness == reader.order(),
    ensures
        res is Ok <==> sections_ok(reader.bytes(), reader.order(), offsets@, *counts),
        res matches Ok(m) ==> m@ == sections_of(reader.bytes(), version, reader.order(), offsets@, *counts),
        res matches Err(e) ==> e is InvalidMoc3,
{
    let ghost b = reader.bytes();
    let ghost e = reader.order();
    let ghost offs = offsets@;
    let ghost c = *counts;
    let ghost want = sections_of(b, version, e, offs, c);
    let canvas = parse_canvas(reader, offsets)?;
    let part_ids = parse_ids(reader, offsets, 3, counts.parts)?;
    let art_mesh_ids = parse_ids(reader, offsets, 33, counts.art_meshes)?;
    let parameter_ids = parse_ids(reader, offsets, 50, counts.parameters)?;
    assert(part_ids@.len() == counts.parts) by {
        assert(texts(part_ids@).len() == part_ids@.len());
    }
    assert(art_mesh_ids@.len() == counts.art_meshes) by {
        assert(texts(art_mesh_ids@).len() == art_mesh_ids@.len());
    }
    assert(parameter_ids@.len() == counts.parameters) by {
        assert(texts(parameter_ids@).len() == parameter_ids@.len());
    }
    let parameters = parse_parameters(reader, offsets, &parameter_ids)?;
    let binding_bands = parse_bindings(reader, offsets, counts)?;
    let parts = parse_parts(reader, offsets, &part_ids, counts)?;
    let art_meshes = parse_art_meshes(reader, offsets, &art_mesh_ids, counts)?;
    let deformers = parse_deformers(reader, offsets, counts)?;
    let glues = parse_glues(reader, offsets, counts)?;
    let model = Moc3Model {
        version,
        endianness,
        canvas,
        parameters,
        binding_bands,
        parts,
        art_meshes,
        deformers,
        glues,
    };
    proof {
        assert forall|i: int| 0 <= i < c.parameters implies parameter_ids@[i]@ == #[trigger] ids_of(b, offs, 50, c.parameters as nat)[i] by {
            assert(texts(parameter_ids@)[i] == parameter_ids@[i]@);
        }
        assert forall|i: int| 0 <= i < c.parts implies part_ids@[i]@ == #[trigger] ids_of(b, offs, 3, c.parts as nat)[i] by {
            assert(texts(part_ids@)[i] == part_ids@[i]@);
        }
        assert forall|i: int| 0 <= i < c.art_meshes implies art_mesh_ids@[i]@ == #[trigger] ids_of(b, offs, 33, c.art_meshes as nat)[i] by {
            assert(texts(art_mesh_ids@)[i] == art_mesh_ids@[i]@);
        }
        assert(model@.parameters =~= want.parameters);
        assert(model@.binding_bands =~= want.binding_bands);
        assert(model@.parts =~= want.parts);
        assert(model@.art_meshes =~= want.art_meshes);
        assert(model@.deformers =~= want.deformers);
        assert(model@.glues =~= want.glues);
    }
    Ok(model)
}

impl Moc3Model {
    /// Parses a full MOC3 byte slice.
    pub fn parse(bytes: &[u8]) -> (res: Result<Moc3Model, Error>)
        ensures
            res is Ok <==> moc3_ok(bytes@),
            res matches Ok(m) ==> m@ == moc3_of(bytes@),
            res matches Err(e) ==> e is InvalidMoc3,
    {
        let (version, endianness) = parse_header(bytes)?;
        let reader = Reader::new(bytes, endianness);
        let offsets = parse_offsets(&reader)?;
        let counts = parse_counts(&reader, &offsets, version)?;
        parse_sections(&reader, &offsets, &counts, version, endianness)
    }

    /// Returns the MOC3 format version.
    pub fn version(&self) -> (res: Moc3Version)
        ensures
            res == self@.version,
    {
        self.version
    }

    /// Returns the numeric byte order.
    pub fn endianness(&self) -> (res: Endianness)
        ensures
            res == self@.endianness,
    {
        self.endianness
    }

    /// Returns the model canvas.
    pub fn canvas(&self) -> (res: Canvas)
        ensures
            res@ == self@.canvas,
    {
        self.canvas
    }

    /// Returns the recovered parameters.
    pub fn parameters(&self) -> (res: &[Parameter])
        ensures
            parameter_views(res@) == self@.parameters,
    {
        self.parameters.as_slice()
    }

    /// Returns the shared keyform binding bands.
    pub fn binding_bands(&self) -> (res: &[BindingBand])
        ensures
            band_views(res@) == self@.binding_bands,
    {
        self.binding_bands.as_slice()
    }

    /// Returns the recovered parts.
    pub fn parts(&self) -> (res: &[Part])
        ensures
            part_views(res@) == self@.parts,
    {
        self.parts.as_slice()
    }

    /// Returns the recovered ArtMeshes.
    pub fn art_meshes(&self) -> (res: &[ArtMesh])
        ensures
            mesh_views(res@) == self@.art_meshes,
    {
        self.art_meshes.as_slice()
    }

    /// Returns the recovered warp and rotation deformers.
    pub fn deformers(&self) -> (res: &[Deformer])
        ensures
            deformer_views(res@) == self@.deformers,
    {
        self.deformers.as_slice()
    }

    /// Returns the recovered glues.
    pub fn glues(&self) -> (res: &[Glue])
        ensures
            glue_views(res@) == self@.glues,
    {
        self.glues.as_slice()
    }
}

} // verus!
