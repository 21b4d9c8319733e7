//! The ArtMesh sources of the editor document: each mesh's drawable part,
//! its editable mesh and generator extensions, its keyforms, positions,
//! UVs and drawing state.

use vstd::prelude::*;

use super::deformers::{color_view, color_xml, flag_text, write_color, ColorTexts};
use super::grid::{
    decimal_text, grid_bindings, grid_ok, grid_xml, ref_attrs, ref_text, reference, reference_without_name, shared_attrs,
    start_shared, text_views, texts_fit, write_grid,
};
use super::images::{affine, counted, counted_attrs, identity_attrs, named, named_attrs, named_value};
use super::pages::AtlasPlan;
use super::parts::{controllable_xml, form_header_xml, start_parameter_controllable, write_form_header};
use super::plan::{MeshPlan, PagePlan, ProjectPlan, RefId};
use super::sources::{
    editable_extension_xml, generator_extension_xml, number_list, number_list_text, target_deformer, widen, widened,
    write_editable_extension, write_generator_extension,
};
use super::structure::{shorter, among_edges, color_composition, composition_of, edge_count, edge_pairs, edges_sorted, triangle_edges};
use super::xml::{attr, attr_views, empty_line, end_line, start_line, text_line, Attr, XmlWriter, XmlWriterView};
use crate::error::{cmo3_error, invalid_cmo3, Error};
use crate::moc3::{mesh_views, ArtMesh, ArtMeshModel, Moc3Model, Moc3ModelView};
use crate::text::number_text;

verus! {

/// The texts of one keyform of a mesh: its draw order, opacity, colors and
/// positions.
pub struct MeshFormTexts {
    pub draw_order: String,
    pub opacity: String,
    pub multiply: ColorTexts,
    pub screen: ColorTexts,
    pub positions: String,
}

/// The texts of a mesh: its editable points, its UVs and one entry per
/// form of its grid.
pub struct MeshTexts {
    pub points: String,
    pub uvs: String,
    pub forms: Vec<MeshFormTexts>,
}

/// Whether `f` holds the texts of a form with no keyform: draw order 500,
/// opaque, multiplied by white, screened by black, with no positions.
pub open spec fn default_mesh_form(f: MeshFormTexts) -> bool {
    &&& f.draw_order@ == seq!['5', '0', '0']
    &&& f.opacity@ == seq!['1']
    &&& f.multiply.red@ == seq!['1'] && f.multiply.green@ == seq!['1'] && f.multiply.blue@ == seq!['1']
    &&& f.screen.red@ == seq!['0'] && f.screen.green@ == seq!['0'] && f.screen.blue@ == seq!['0']
    &&& f.positions@ == Seq::<char>::empty()
}

/// Returns the texts of a form with no keyform.
fn default_form_texts() -> (res: MeshFormTexts)
    ensures
        default_mesh_form(res),
{
    let res = MeshFormTexts {
        draw_order: String::from_str("500"),
        opacity: String::from_str("1"),
        multiply: ColorTexts { red: String::from_str("1"), green: String::from_str("1"), blue: String::from_str("1") },
        screen: ColorTexts { red: String::from_str("0"), green: String::from_str("0"), blue: String::from_str("0") },
        positions: String::new(),
    };
    proof {
        reveal_strlit("500");
        reveal_strlit("1");
        reveal_strlit("0");
        assert(res.draw_order@ =~= seq!['5', '0', '0']);
        assert(res.opacity@ =~= seq!['1']);
        assert(res.screen.red@ =~= seq!['0']);
        assert(res.positions@ =~= Seq::<char>::empty());
    }
    res
}

/// Fits the texts of a mesh's keyforms to the `count` forms of its grid:
/// form `k` keeps the texts of keyform `k` where the mesh has one, and a
/// form without a keyform gets the default texts.
pub fn complete_mesh_forms(forms: &mut Vec<MeshFormTexts>, count: usize)
    ensures
        final(forms)@.len() == count,
        forall|k: int| 0 <= k < count && k < old(forms)@.len() ==> #[trigger] final(forms)@[k] == old(forms)@[k],
        forall|k: int| old(forms)@.len() <= k < count ==> default_mesh_form(#[trigger] final(forms)@[k]),
{
    forms.truncate(count);
    while forms.len() < count
        invariant
            forms@.len() <= count,
            forall|k: int| 0 <= k < forms@.len() && k < old(forms)@.len() ==> #[trigger] forms@[k] == old(forms)@[k],
            forall|k: int| old(forms)@.len() <= k < forms@.len() ==> default_mesh_form(#[trigger] forms@[k]),
            forms@.len() < count ==> forms@.len() >= old(forms)@.len(),
        decreases count - forms@.len(),
    {
        forms.push(default_form_texts());
    }
}

/// The part a mesh is drawn under: its planned parent part, or the root
/// part when it has none or its parent is not planned.
pub open spec fn mesh_parent_part(project: ProjectPlan, parent: Option<usize>) -> RefId {
    match parent {
        Some(p) => if p < project.parts@.len() {
            project.parts@[p as int].guid
        } else {
            project.root_part.guid
        },
        None => project.root_part.guid,
    }
}

/// How many point values a mesh's editable points have: two per position
/// of its first keyform, or two per UV when it has no keyform.
pub open spec fn point_values(m: ArtMeshModel) -> nat {
    if m.keyforms.len() > 0 {
        2 * m.keyforms[0].positions.len()
    } else {
        2 * m.uvs.len()
    }
}

/// How many position values keyform `index` of a mesh has: two per
/// position, none without the keyform.
pub open spec fn form_position_count(m: ArtMeshModel, index: int) -> nat {
    if 0 <= index < m.keyforms.len() {
        2 * m.keyforms[index].positions.len()
    } else {
        0
    }
}

/// Whether a mesh's counts fit the machine: its UV and position values.
pub open spec fn mesh_counts_fit(m: ArtMeshModel) -> bool {
    &&& 2 * m.uvs.len() <= usize::MAX
    &&& forall|j: int| 0 <= j < m.keyforms.len() ==> 2 * (#[trigger] m.keyforms[j]).positions.len() <= usize::MAX
}

/// Whether `edges` is the edge list of a mesh's triangles: the distinct
/// edges of its complete triangles, smaller end first, in increasing order.
pub open spec fn mesh_edges(indices: Seq<u16>, edges: Seq<u16>) -> bool {
    &&& edges.len() % 2 == 0
    &&& edges_sorted(edge_pairs(edges))
    &&& forall|e: (u16, u16)| edge_pairs(edges).contains(e) <==> among_edges(indices, edge_count(indices), e)
}

/// References to the planned meshes among the first `n` masks, at depth `d`;
/// a mask that is not planned is left out.
pub open spec fn clip_refs_xml(d: nat, project: ProjectPlan, masks: Seq<usize>, n: int) -> Seq<u8>
    decreases n,
{
    if n <= 0 {
        Seq::empty()
    } else {
        clip_refs_xml(d, project, masks, n - 1) + if masks[n - 1] < project.meshes@.len() {
            empty_line(d, "CDrawableGuid"@, seq![("xs.ref"@, ref_text(project.meshes@[masks[n - 1] as int].guid))])
        } else {
            Seq::empty()
        }
    }
}

/// Writes references to the planned meshes among a mesh's masks.
fn write_clip_refs(xml: &mut XmlWriter, project: &ProjectPlan, masks: &[usize])
    ensures
        final(xml)@ == (XmlWriterView {
            output: old(xml)@.output + clip_refs_xml(old(xml)@.depth, *project, masks@, masks@.len() as int),
            depth: old(xml)@.depth,
        }),
{
    let ghost d = xml@.depth;
    let ghost start = xml@.output;
    let mut i: usize = 0;
    while i < masks.len()
        invariant
            i <= masks@.len(),
            xml@.depth == d,
            xml@.output == start + clip_refs_xml(d, *project, masks@, i as int),
        decreases masks@.len() - i,
    {
        if masks[i] < project.meshes.len() {
            reference_without_name(xml, "CDrawableGuid", project.meshes[masks[i]].guid);
        }
        i = i + 1;
    }
}

/// Returns the text of a flag.
fn flag_word(b: bool) -> (res: &'static str)
    ensures
        res@ == flag_text(b),
{
    if b {
        "true"
    } else {
        "false"
    }
}

/// The start of the drawable part of a mesh's source at depth `d`:
/// controllable under its parent part, with its editable mesh, texture
/// input and generator extensions.
#[verifier::opaque]
pub open spec fn drawable_head_xml(
    d: nat,
    project: ProjectPlan,
    plan: MeshPlan,
    m: ArtMeshModel,
    points: Seq<char>,
    edges: Seq<u16>,
) -> Seq<u8> {
    start_line(d, "ACDrawableSource"@, named("super"@)) + controllable_xml(
        d + 1,
        m.id,
        Some(mesh_parent_part(project, m.parent_part_index)),
        plan.grid.grid,
    ) + start_line(d + 2, "carray_list"@, counted("_extensions"@, "3"@)) + editable_extension_xml(
        d + 3,
        project,
        plan,
        points,
        point_values(m),
        edges,
    ) + empty_line(d + 3, "CTextureInputExtension"@, seq![("xs.ref"@, ref_text(plan.texture_extension))])
        + generator_extension_xml(d + 3, plan) + end_line(d + 2, "carray_list"@) + empty_line(
        d + 2,
        "null"@,
        named("internalColor_direct_argb"@),
    ) + end_line(d + 1, "ACParameterControllableSource"@)
}

/// The rest of the drawable part of a mesh's source, whose start is at
/// depth `d`: its identifier, target deformer, clipping masks and whether
/// the mask is inverted (flag bit 8).
#[verifier::opaque]
pub open spec fn drawable_tail_xml(d: nat, project: ProjectPlan, plan: MeshPlan, m: ArtMeshModel) -> Seq<u8> {
    empty_line(d + 1, "CDrawableId"@, seq![("xs.n"@, "id"@), ("idstr"@, m.id)]) + empty_line(
        d + 1,
        "CDrawableGuid"@,
        ref_attrs("guid"@, plan.guid),
    ) + empty_line(
        d + 1,
        "CDeformerGuid"@,
        ref_attrs("targetDeformerGuid"@, target_deformer(project, m.parent_deformer_index)),
    ) + start_line(d + 1, "carray_list"@, counted("clipGuidList"@, decimal_text(m.mask_drawable_indices.len())))
        + clip_refs_xml(d + 2, project, m.mask_drawable_indices, m.mask_drawable_indices.len() as int) + end_line(
        d + 1,
        "carray_list"@,
    ) + text_line(d + 1, "b"@, named("invertClippingMask"@), flag_text(m.drawable_flags & 8 != 0)) + end_line(
        d,
        "ACDrawableSource"@,
    )
}

/// The drawable part of a mesh's source at depth `d`.
pub open spec fn drawable_xml(
    d: nat,
    project: ProjectPlan,
    plan: MeshPlan,
    m: ArtMeshModel,
    points: Seq<char>,
    edges: Seq<u16>,
) -> Seq<u8> {
    drawable_head_xml(d, project, plan, m, points, edges) + drawable_tail_xml(d, project, plan, m)
}

/// Writes the start of the drawable part of a mesh's source, leaving the
/// drawable element open.
#[verifier::spinoff_prover]
#[verifier::rlimit(60)]
fn write_drawable_head(
    xml: &mut XmlWriter,
    project: &ProjectPlan,
    plan: &MeshPlan,
    mesh: &ArtMesh,
    points: &str,
    edges: &[u16],
)
    requires
        old(xml)@.depth + 8 < usize::MAX,
        point_values(mesh@) <= usize::MAX,
    ensures
        final(xml)@ == (XmlWriterView {
            output: old(xml)@.output + drawable_head_xml(old(xml)@.depth, *project, *plan, mesh@, points@, edges@),
            depth: old(xml)@.depth + 1,
        }),
{
    let ghost d = xml@.depth;
    let ghost start = xml@.output;
    let ghost m = mesh@;
    let parent = match mesh.parent_part_index() {
        Some(p) => if p < project.parts.len() {
            project.parts[p].guid
        } else {
            project.root_part.guid
        },
        None => project.root_part.guid,
    };
    let keyforms = mesh.keyforms();
    let values = if keyforms.len() > 0 {
        assert(m.keyforms[0] == keyforms@[0]@);
        2 * keyforms[0].positions.len()
    } else {
        2 * mesh.uv_bits().len()
    };
    xml.start("ACDrawableSource", named_attrs("super").as_slice());
    start_parameter_controllable(xml, mesh.id(), Some(parent), plan.grid.grid);
    xml.start("carray_list", counted_attrs("_extensions", String::from_str("3")).as_slice());
    write_editable_extension(xml, project, plan, points, values, edges);
    reference_without_name(xml, "CTextureInputExtension", plan.texture_extension);
    write_generator_extension(xml, plan);
    xml.end("carray_list");
    xml.empty("null", named_attrs("internalColor_direct_argb").as_slice());
    xml.end("ACParameterControllableSource");
    reveal(drawable_head_xml);
    assert(xml@.output =~= start + drawable_head_xml(d, *project, *plan, m, points@, edges@));
}

/// Writes the rest of the drawable part of a mesh's source and closes it.
#[verifier::spinoff_prover]
#[verifier::rlimit(60)]
fn write_drawable_tail(xml: &mut XmlWriter, project: &ProjectPlan, plan: &MeshPlan, mesh: &ArtMesh)
    requires
        old(xml)@.depth > 0,
        old(xml)@.depth + 2 < usize::MAX,
    ensures
        final(xml)@ == (XmlWriterView {
            output: old(xml)@.output + drawable_tail_xml((old(xml)@.depth - 1) as nat, *project, *plan, mesh@),
            depth: (old(xml)@.depth - 1) as nat,
        }),
{
    let ghost d = (xml@.depth - 1) as nat;
    let ghost start = xml@.output;
    let ghost m = mesh@;
    let target = match mesh.parent_deformer_index() {
        Some(p) => if p < project.deformers.len() {
            project.deformers[p].guid
        } else {
            project.root_deformer_guid
        },
        None => project.root_deformer_guid,
    };
    let mut id: Vec<Attr> = Vec::new();
    id.push(attr("xs.n", String::from_str("id")));
    id.push(attr("idstr", String::from_str(mesh.id())));
    assert(attr_views(id@) =~= seq![("xs.n"@, "id"@), ("idstr"@, m.id)]);
    xml.empty("CDrawableId", id.as_slice());
    reference(xml, "CDrawableGuid", "guid", plan.guid);
    reference(xml, "CDeformerGuid", "targetDeformerGuid", target);
    let masks = mesh.mask_drawable_indices();
    xml.start("carray_list", counted_attrs("clipGuidList", number_text(masks.len() as u64)).as_slice());
    write_clip_refs(xml, project, masks);
    xml.end("carray_list");
    xml.text("b", named_attrs("invertClippingMask").as_slice(), flag_word(mesh.drawable_flags() & 8 != 0));
    xml.end("ACDrawableSource");
    reveal(drawable_tail_xml);
    assert(xml@.output =~= start + drawable_tail_xml(d, *project, *plan, m));
}

/// One keyform of a mesh at depth `d`: its header, draw order, opacity,
/// colors and coordinate type, then its `count` position values.
#[verifier::opaque]
pub open spec fn mesh_form_xml(d: nat, project: ProjectPlan, form: RefId, source: RefId, t: MeshFormTexts, count: nat) -> Seq<u8> {
    start_line(d, "CArtMeshForm"@, Seq::empty()) + start_line(d + 1, "ACDrawableForm"@, named("super"@))
        + form_header_xml(d + 2, form, "CArtMeshSource"@, source) + text_line(
        d + 2,
        "i"@,
        named("drawOrder"@),
        t.draw_order@,
    ) + text_line(d + 2, "f"@, named("opacity"@), t.opacity@) + color_xml(d + 2, "multiplyColor"@, color_view(t.multiply))
        + color_xml(d + 2, "screenColor"@, color_view(t.screen)) + empty_line(
        d + 2,
        "CoordType"@,
        ref_attrs("coordType"@, project.coord_type),
    ) + end_line(d + 1, "ACDrawableForm"@) + text_line(
        d + 1,
        "float-array"@,
        counted("positions"@, decimal_text(count)),
        t.positions@,
    ) + end_line(d, "CArtMeshForm"@)
}

/// Writes one keyform of a mesh, with `count` position values.
#[verifier::spinoff_prover]
#[verifier::rlimit(60)]
fn write_mesh_form(xml: &mut XmlWriter, project: &ProjectPlan, form: RefId, source: RefId, t: &MeshFormTexts, count: usize)
    requires
        old(xml)@.depth + 4 < usize::MAX,
    ensures
        final(xml)@ == (XmlWriterView {
            output: old(xml)@.output + mesh_form_xml(old(xml)@.depth, *project, form, source, *t, count as nat),
            depth: old(xml)@.depth,
        }),
{
    let ghost d = xml@.depth;
    let ghost start = xml@.output;
    let none: Vec<Attr> = Vec::new();
    assert(attr_views(none@) =~= Seq::empty());
    xml.start("CArtMeshForm", none.as_slice());
    xml.start("ACDrawableForm", named_attrs("super").as_slice());
    write_form_header(xml, form, "CArtMeshSource", source);
    xml.text("i", named_attrs("drawOrder").as_slice(), t.draw_order.as_str());
    xml.text("f", named_attrs("opacity").as_slice(), t.opacity.as_str());
    write_color(xml, "multiplyColor", &t.multiply);
    write_color(xml, "screenColor", &t.screen);
    reference(xml, "CoordType", "coordType", project.coord_type);
    xml.end("ACDrawableForm");
    xml.text("float-array", counted_attrs("positions", number_text(count as u64)).as_slice(), t.positions.as_str());
    xml.end("CArtMeshForm");
    reveal(mesh_form_xml);
    assert(xml@.output =~= start + mesh_form_xml(d, *project, form, source, *t, count as nat));
}

/// The first `n` keyforms of a mesh.
pub open spec fn mesh_forms_xml(
    d: nat,
    project: ProjectPlan,
    plan: MeshPlan,
    m: ArtMeshModel,
    texts: Seq<MeshFormTexts>,
    n: int,
) -> Seq<u8>
    decreases n,
{
    if n <= 0 {
        Seq::empty()
    } else {
        mesh_forms_xml(d, project, plan, m, texts, n - 1) + mesh_form_xml(
            d,
            project,
            plan.grid.forms@[n - 1],
            plan.source,
            texts[n - 1],
            form_position_count(m, n - 1),
        )
    }
}

/// The keyform list of a mesh at depth `d`: one keyform per form of its
/// grid, with the texts `texts` gives it; a form past the mesh's keyforms
/// has no positions.
pub open spec fn mesh_keyforms_xml(d: nat, project: ProjectPlan, plan: MeshPlan, m: ArtMeshModel, texts: Seq<MeshFormTexts>) -> Seq<u8> {
    start_line(d, "carray_list"@, counted("keyforms"@, decimal_text(plan.grid.forms@.len()))) + mesh_forms_xml(
        d + 1,
        project,
        plan,
        m,
        texts,
        plan.grid.forms@.len() as int,
    ) + end_line(d, "carray_list"@)
}

/// Writes the keyform list of a mesh.
#[verifier::spinoff_prover]
pub fn write_keyforms(xml: &mut XmlWriter, project: &ProjectPlan, plan: &MeshPlan, mesh: &ArtMesh, texts: &Vec<MeshFormTexts>)
    requires
        old(xml)@.depth + 6 < usize::MAX,
        texts@.len() >= plan.grid.forms@.len(),
        mesh_counts_fit(mesh@),
    ensures
        final(xml)@ == (XmlWriterView {
            output: old(xml)@.output + mesh_keyforms_xml(old(xml)@.depth, *project, *plan, mesh@, texts@),
            depth: old(xml)@.depth,
        }),
{
    let ghost d = xml@.depth;
    let ghost start = xml@.output;
    let ghost m = mesh@;
    let keyforms = mesh.keyforms();
    xml.start("carray_list", counted_attrs("keyforms", number_text(plan.grid.forms.len() as u64)).as_slice());
    let ghost forms_start = xml@.output;
    let mut f: usize = 0;
    while f < plan.grid.forms.len()
        invariant
            f <= plan.grid.forms@.len(),
            texts@.len() >= plan.grid.forms@.len(),
            m == mesh@,
            mesh_counts_fit(m),
            crate::moc3::art_mesh_keyform_views(keyforms@) == m.keyforms,
            d + 6 < usize::MAX,
            xml@.depth == d + 1,
            xml@.output == forms_start + mesh_forms_xml(d + 1, *project, *plan, m, texts@, f as int),
        decreases plan.grid.forms@.len() - f,
    {
        let count = if f < keyforms.len() {
            assert(m.keyforms[f as int] == keyforms@[f as int]@);
            2 * keyforms[f].positions.len()
        } else {
            0
        };
        write_mesh_form(xml, project, plan.grid.forms[f], plan.source, &texts[f], count);
        f = f + 1;
    }
    xml.end("carray_list");
    assert(xml@.output =~= start + mesh_keyforms_xml(d, *project, *plan, m, texts@));
}

/// The end of a mesh's source, whose start is at depth `d`: its editable
/// point values, its UVs, its atlas page's texture, its color composition,
/// whether it is culled (flag bit 4 clear), its texture state and an empty
/// user data.
#[verifier::opaque]
pub open spec fn mesh_tail_xml(d: nat, m: ArtMeshModel, page: PagePlan, points: Seq<char>, uvs: Seq<char>) -> Seq<u8> {
    text_line(d + 1, "float-array"@, counted("positions"@, decimal_text(point_values(m))), points) + text_line(
        d + 1,
        "float-array"@,
        counted("uvs"@, decimal_text(2 * m.uvs.len())),
        uvs,
    ) + empty_line(d + 1, "GTexture2D"@, ref_attrs("texture"@, page.texture)) + empty_line(
        d + 1,
        "ColorComposition"@,
        named_value("colorComposition"@, composition_of(m.drawable_flags)),
    ) + text_line(d + 1, "b"@, named("culling"@), flag_text(m.drawable_flags & 4 == 0)) + empty_line(
        d + 1,
        "TextureState"@,
        named_value("textureState"@, "TEXTURE_ATLAS"@),
    ) + empty_line(d + 1, "s"@, named("userData"@)) + end_line(d, "CArtMeshSource"@)
}

/// Writes the end of a mesh's source and closes it.
#[verifier::spinoff_prover]
#[verifier::rlimit(60)]
fn write_mesh_tail(xml: &mut XmlWriter, mesh: &ArtMesh, page: &PagePlan, points: &str, uvs: &str)
    requires
        old(xml)@.depth > 0,
        old(xml)@.depth + 1 < usize::MAX,
        mesh_counts_fit(mesh@),
    ensures
        final(xml)@ == (XmlWriterView {
            output: old(xml)@.output + mesh_tail_xml((old(xml)@.depth - 1) as nat, mesh@, *page, points@, uvs@),
            depth: (old(xml)@.depth - 1) as nat,
        }),
{
    let ghost d = (xml@.depth - 1) as nat;
    let ghost start = xml@.output;
    let ghost m = mesh@;
    let keyforms = mesh.keyforms();
    let values = if keyforms.len() > 0 {
        assert(m.keyforms[0] == keyforms@[0]@);
        2 * keyforms[0].positions.len()
    } else {
        2 * mesh.uv_bits().len()
    };
    let flags = mesh.drawable_flags();
    xml.text("float-array", counted_attrs("positions", number_text(values as u64)).as_slice(), points);
    xml.text("float-array", counted_attrs("uvs", number_text((2 * mesh.uv_bits().len()) as u64)).as_slice(), uvs);
    reference(xml, "GTexture2D", "texture", page.texture);
    let mut composition: Vec<Attr> = Vec::new();
    composition.push(attr("xs.n", String::from_str("colorComposition")));
    composition.push(attr("v", String::from_str(color_composition(flags))));
    assert(attr_views(composition@) =~= named_value("colorComposition"@, composition_of(flags)));
    xml.empty("ColorComposition", composition.as_slice());
    xml.text("b", named_attrs("culling").as_slice(), flag_word(flags & 4 == 0));
    let mut state: Vec<Attr> = Vec::new();
    state.push(attr("xs.n", String::from_str("textureState")));
    state.push(attr("v", String::from_str("TEXTURE_ATLAS")));
    assert(attr_views(state@) =~= named_value("textureState"@, "TEXTURE_ATLAS"@));
    xml.empty("TextureState", state.as_slice());
    xml.empty("s", named_attrs("userData").as_slice());
    xml.end("CArtMeshSource");
    reveal(mesh_tail_xml);
    assert(xml@.output =~= start + mesh_tail_xml(d, m, *page, points@, uvs@));
}

/// The source of a mesh at depth `d`, drawn from atlas page `page`, with
/// the edge list `edges` of its triangles: its drawable part, its triangle
/// indices, its keyforms and its end.
pub open spec fn mesh_source_xml(
    d: nat,
    project: ProjectPlan,
    plan: MeshPlan,
    m: ArtMeshModel,
    page: PagePlan,
    points: Seq<char>,
    uvs: Seq<char>,
    forms: Seq<MeshFormTexts>,
    edges: Seq<u16>,
) -> Seq<u8> {
    start_line(d, "CArtMeshSource"@, shared_attrs(plan.source)) + drawable_xml(d + 1, project, plan, m, points, edges)
        + text_line(
        d + 1,
        "int-array"@,
        counted("indices"@, decimal_text(m.triangle_indices.len())),
        number_list(widened(m.triangle_indices)),
    ) + mesh_keyforms_xml(d + 1, project, plan, m, forms) + mesh_tail_xml(d, m, page, points, uvs)
}

/// Writes the source of a mesh drawn from atlas page `page`. `texts` gives
/// the text of its editable points (two values per position of its first
/// keyform, or per UV without one), of its UVs and of each form of its
/// grid. Its editable mesh's edges are the distinct edges of its complete
/// triangles, smaller end first, in increasing order; only one list is so.
pub fn write_mesh_source(
    xml: &mut XmlWriter,
    project: &ProjectPlan,
    plan: &MeshPlan,
    mesh: &ArtMesh,
    page: &PagePlan,
    texts: &MeshTexts,
)
    requires
        old(xml)@.depth + 10 < usize::MAX,
        texts.forms@.len() >= plan.grid.forms@.len(),
        mesh_counts_fit(mesh@),
    ensures
        exists|edges: Seq<u16>|
            mesh_edges(mesh@.triangle_indices, edges) && final(xml)@ == (XmlWriterView {
                output: old(xml)@.output + mesh_source_xml(
                    old(xml)@.depth,
                    *project,
                    *plan,
                    mesh@,
                    *page,
                    texts.points@,
                    texts.uvs@,
                    texts.forms@,
                    edges,
                ),
                depth: old(xml)@.depth,
            }),
{
    let ghost d = xml@.depth;
    let ghost start = xml@.output;
    let ghost m = mesh@;
    let indices = mesh.triangle_indices();
    let edges = triangle_edges(indices);
    start_shared(xml, "CArtMeshSource", plan.source);
    write_drawable_head(xml, project, plan, mesh, texts.points.as_str(), edges.as_slice());
    write_drawable_tail(xml, project, plan, mesh);
    let index_text = number_list_text(&widen(indices));
    xml.text("int-array", counted_attrs("indices", number_text(indices.len() as u64)).as_slice(), index_text.as_str());
    write_keyforms(xml, project, plan, mesh, &texts.forms);
    write_mesh_tail(xml, mesh, page, texts.points.as_str(), texts.uvs.as_str());
    assert(mesh_edges(m.triangle_indices, edges@));
    assert(xml@.output =~= start + mesh_source_xml(
        d,
        *project,
        *plan,
        m,
        *page,
        texts.points@,
        texts.uvs@,
        texts.forms@,
        edges@,
    ));
}

/// The abstract part of a texture input at depth `d`: no transform, owned
/// by the mesh's texture extension.
pub open spec fn input_super_xml(d: nat, plan: MeshPlan) -> Seq<u8> {
    start_line(d, "ACTextureInput"@, named("super"@)) + empty_line(
        d + 1,
        "CAffine"@,
        identity_attrs("optionalTransformOnCanvas"@),
    ) + empty_line(d + 1, "CTextureInputExtension"@, ref_attrs("_owner"@, plan.texture_extension)) + end_line(
        d,
        "ACTextureInput"@,
    )
}

/// Writes the abstract part of a texture input.
fn write_input_super(xml: &mut XmlWriter, plan: &MeshPlan)
    requires
        old(xml)@.depth + 1 < usize::MAX,
    ensures
        final(xml)@ == (XmlWriterView {
            output: old(xml)@.output + input_super_xml(old(xml)@.depth, *plan),
            depth: old(xml)@.depth,
        }),
{
    let ghost d = xml@.depth;
    let ghost start = xml@.output;
    xml.start("ACTextureInput", named_attrs("super").as_slice());
    affine(xml, "optionalTransformOnCanvas");
    reference(xml, "CTextureInputExtension", "_owner", plan.texture_extension);
    xml.end("ACTextureInput");
    assert(xml@.output =~= start + input_super_xml(d, *plan));
}

/// The texture inputs of a mesh drawn from a page at depth `d`: the page's
/// model image, the region of its atlas `atlas_guid` through the atlas
/// input `atlas_input`, and the extension that holds both, the atlas
/// region current.
#[verifier::opaque]
pub open spec fn texture_input_xml(d: nat, plan: MeshPlan, page: PagePlan, atlas_guid: RefId, atlas_input: RefId) -> Seq<u8> {
    start_line(d, "CTextureInput_ModelImage"@, shared_attrs(plan.texture_input)) + input_super_xml(d + 1, plan) + empty_line(
        d + 1,
        "CModelImageGuid"@,
        ref_attrs("_modelImageGuid"@, page.model_image_guid),
    ) + end_line(d, "CTextureInput_ModelImage"@) + start_line(
        d,
        "CTextureInput_TextureAtlasRegion"@,
        shared_attrs(atlas_input),
    ) + input_super_xml(d + 1, plan) + empty_line(d + 1, "CTextureAtlasGuid"@, ref_attrs("textureAtlasGuid"@, atlas_guid))
        + empty_line(d + 1, "CAffine"@, identity_attrs("inputImageLocalToCanvasTransform"@)) + end_line(
        d,
        "CTextureInput_TextureAtlasRegion"@,
    ) + start_line(d, "CTextureInputExtension"@, shared_attrs(plan.texture_extension)) + start_line(
        d + 1,
        "ACExtension"@,
        named("super"@),
    ) + empty_line(d + 2, "CExtensionGuid"@, ref_attrs("guid"@, plan.texture_extension_guid)) + empty_line(
        d + 2,
        "CArtMeshSource"@,
        ref_attrs("_owner"@, plan.source),
    ) + end_line(d + 1, "ACExtension"@) + start_line(d + 1, "carray_list"@, counted("_textureInputs"@, "2"@)) + empty_line(
        d + 2,
        "CTextureInput_ModelImage"@,
        seq![("xs.ref"@, ref_text(plan.texture_input))],
    ) + empty_line(d + 2, "CTextureInput_TextureAtlasRegion"@, seq![("xs.ref"@, ref_text(atlas_input))]) + end_line(
        d + 1,
        "carray_list"@,
    ) + empty_line(
        d + 1,
        "CTextureInput_TextureAtlasRegion"@,
        ref_attrs("currentTextureInputData"@, atlas_input),
    ) + end_line(d, "CTextureInputExtension"@)
}

/// Writes the texture inputs of a mesh drawn from a page.
#[verifier::spinoff_prover]
#[verifier::rlimit(80)]
pub fn write_texture_input(xml: &mut XmlWriter, plan: &MeshPlan, page: &PagePlan, atlas_guid: RefId, atlas_input: RefId)
    requires
        old(xml)@.depth + 4 < usize::MAX,
    ensures
        final(xml)@ == (XmlWriterView {
            output: old(xml)@.output + texture_input_xml(old(xml)@.depth, *plan, *page, atlas_guid, atlas_input),
            depth: old(xml)@.depth,
        }),
{
    let ghost d = xml@.depth;
    let ghost start = xml@.output;
    start_shared(xml, "CTextureInput_ModelImage", plan.texture_input);
    write_input_super(xml, plan);
    reference(xml, "CModelImageGuid", "_modelImageGuid", page.model_image_guid);
    xml.end("CTextureInput_ModelImage");
    start_shared(xml, "CTextureInput_TextureAtlasRegion", atlas_input);
    write_input_super(xml, plan);
    reference(xml, "CTextureAtlasGuid", "textureAtlasGuid", atlas_guid);
    affine(xml, "inputImageLocalToCanvasTransform");
    xml.end("CTextureInput_TextureAtlasRegion");
    start_shared(xml, "CTextureInputExtension", plan.texture_extension);
    xml.start("ACExtension", named_attrs("super").as_slice());
    reference(xml, "CExtensionGuid", "guid", plan.texture_extension_guid);
    reference(xml, "CArtMeshSource", "_owner", plan.source);
    xml.end("ACExtension");
    xml.start("carray_list", counted_attrs("_textureInputs", String::from_str("2")).as_slice());
    reference_without_name(xml, "CTextureInput_ModelImage", plan.texture_input);
    reference_without_name(xml, "CTextureInput_TextureAtlasRegion", atlas_input);
    xml.end("carray_list");
    reference(xml, "CTextureInput_TextureAtlasRegion", "currentTextureInputData", atlas_input);
    xml.end("CTextureInputExtension");
    reveal(texture_input_xml);
    assert(xml@.output =~= start + texture_input_xml(d, *plan, *page, atlas_guid, atlas_input));
}

/// How many meshes are written: those that have a plan.
pub open spec fn mesh_count(m: Moc3ModelView, plan: ProjectPlan) -> int {
    shorter(m.art_meshes.len(), plan.meshes@.len())
}

/// Whether mesh `i` can be written: its page is planned and its grid can
/// be written.
pub open spec fn mesh_ok(m: Moc3ModelView, plan: ProjectPlan, i: int) -> bool {
    &&& m.art_meshes[i].texture_index < plan.pages@.len()
    &&& grid_ok(m.binding_bands, m.art_meshes[i].binding_band_index, plan.meshes@[i].grid, plan.parameters@)
}

/// Whether every planned mesh can be written.
pub open spec fn meshes_ok(m: Moc3ModelView, plan: ProjectPlan) -> bool {
    forall|i: int| 0 <= i < mesh_count(m, plan) ==> #[trigger] mesh_ok(m, plan, i)
}

/// Mesh `i` at depth `d`: its texture inputs, its grid with the key texts
/// `texts`, and its source with the texts `t` and the edge list `edges`.
pub open spec fn mesh_entry_xml(
    d: nat,
    m: Moc3ModelView,
    plan: ProjectPlan,
    atlas: AtlasPlan,
    i: int,
    texts: Seq<Seq<Seq<char>>>,
    t: MeshTexts,
    edges: Seq<u16>,
) -> Seq<u8> {
    let mesh = m.art_meshes[i];
    let mesh_plan = plan.meshes@[i];
    let p = mesh.texture_index as int;
    texture_input_xml(d, mesh_plan, plan.pages@[p], atlas.pages@[p].0, atlas.inputs@[i]) + grid_xml(
        d,
        mesh_plan.grid,
        grid_bindings(m.binding_bands, mesh.binding_band_index)->Some_0,
        plan.parameters@,
        texts,
        mesh.id,
    ) + mesh_source_xml(d, plan, mesh_plan, mesh, plan.pages@[p], t.points@, t.uvs@, t.forms@, edges)
}

/// The first `n` meshes.
pub open spec fn meshes_list_xml(
    d: nat,
    m: Moc3ModelView,
    plan: ProjectPlan,
    atlas: AtlasPlan,
    texts: Seq<Seq<Seq<Seq<char>>>>,
    mesh_texts: Seq<MeshTexts>,
    edges: Seq<Seq<u16>>,
    n: int,
) -> Seq<u8>
    decreases n,
{
    if n <= 0 {
        Seq::empty()
    } else {
        meshes_list_xml(d, m, plan, atlas, texts, mesh_texts, edges, n - 1) + mesh_entry_xml(
            d,
            m,
            plan,
            atlas,
            n - 1,
            texts[n - 1],
            mesh_texts[n - 1],
            edges[n - 1],
        )
    }
}

/// Whether the texts given for the meshes cover them: key texts fitting
/// each band, form texts for each planned form, and counts that fit.
pub open spec fn mesh_texts_fit(
    m: Moc3ModelView,
    plan: ProjectPlan,
    texts: Seq<Seq<Seq<Seq<char>>>>,
    mesh_texts: Seq<MeshTexts>,
) -> bool {
    &&& texts.len() == m.art_meshes.len()
    &&& mesh_texts.len() == m.art_meshes.len()
    &&& forall|i: int|
        0 <= i < m.art_meshes.len() ==> (grid_bindings(m.binding_bands, (#[trigger] m.art_meshes[i]).binding_band_index) matches Some(
            b,
        ) ==> texts_fit(b, texts[i]))
    &&& forall|i: int| 0 <= i < m.art_meshes.len() ==> mesh_counts_fit(#[trigger] m.art_meshes[i])
    &&& forall|i: int| 0 <= i < mesh_count(m, plan) ==> (#[trigger] mesh_texts[i]).forms@.len() >= plan.meshes@[i].grid.forms@.len()
}

/// Writes mesh `i`: fails, writing nothing, when its page is not planned;
/// else writes its texture inputs, its grid, and its source.
#[verifier::spinoff_prover]
#[verifier::rlimit(60)]
fn write_mesh_entry(
    xml: &mut XmlWriter,
    plan: &ProjectPlan,
    atlas: &AtlasPlan,
    model: &Moc3Model,
    i: usize,
    key_texts: &Vec<Vec<String>>,
    t: &MeshTexts,
) -> (res: Result<(), Error>)
    requires
        old(xml)@.depth + 10 < usize::MAX,
        i < model@.art_meshes.len(),
        i < plan.meshes@.len(),
        atlas.pages@.len() == plan.pages@.len(),
        i < atlas.inputs@.len(),
        grid_bindings(model@.binding_bands, model@.art_meshes[i as int].binding_band_index) matches Some(b) ==> texts_fit(
            b,
            text_views(key_texts@),
        ),
        mesh_counts_fit(model@.art_meshes[i as int]),
        t.forms@.len() >= plan.meshes@[i as int].grid.forms@.len(),
    ensures
        mesh_ok(model@, *plan, i as int) ==> res is Ok && exists|edges: Seq<u16>|
            mesh_edges(model@.art_meshes[i as int].triangle_indices, edges) && final(xml)@ == (XmlWriterView {
                output: old(xml)@.output + mesh_entry_xml(
                    old(xml)@.depth,
                    model@,
                    *plan,
                    *atlas,
                    i as int,
                    text_views(key_texts@),
                    *t,
                    edges,
                ),
                depth: old(xml)@.depth,
            }),
        !mesh_ok(model@, *plan, i as int) ==> cmo3_error(res),
{
    let ghost start = xml@.output;
    let ghost d = xml@.depth;
    let meshes = model.art_meshes();
    let mesh = &meshes[i];
    assert(model@.art_meshes[i as int] == mesh@);
    let mesh_plan = &plan.meshes[i];
    let p = mesh.texture_index();
    if p >= plan.pages.len() {
        return Err(invalid_cmo3("ArtMesh references a missing texture"));
    }
    let page = &plan.pages[p];
    write_texture_input(xml, mesh_plan, page, atlas.pages[p].0, atlas.inputs[i]);
    let grid = write_grid(xml, &mesh_plan.grid, model, mesh.binding_band_index(), plan.parameters.as_slice(), mesh.id(), key_texts);
    if grid.is_err() {
        return grid;
    }
    let ghost after_grid = xml@.output;
    write_mesh_source(xml, plan, mesh_plan, mesh, page, t);
    proof {
        let edges = choose|edges: Seq<u16>|
            mesh_edges(mesh@.triangle_indices, edges) && xml@.output == after_grid + mesh_source_xml(
                d,
                *plan,
                *mesh_plan,
                mesh@,
                *page,
                t.points@,
                t.uvs@,
                t.forms@,
                edges,
            );
        assert(xml@.output =~= start + mesh_entry_xml(d, model@, *plan, *atlas, i as int, text_views(key_texts@), *t, edges));
    }
    Ok(())
}

/// The key texts of each mesh, as characters.
pub open spec fn mesh_key_views(key_texts: Seq<Vec<Vec<String>>>) -> Seq<Seq<Seq<Seq<char>>>> {
    key_texts.map_values(|v: Vec<Vec<String>>| text_views(v@))
}

/// Writes every planned mesh: its texture inputs, its keyform grid and its
/// source. `key_texts[i]` gives the key texts of mesh `i`'s grid and
/// `mesh_texts[i]` the texts of its source. Fails at the first mesh whose
/// page or grid is missing.
pub fn write_meshes(
    xml: &mut XmlWriter,
    plan: &ProjectPlan,
    atlas: &AtlasPlan,
    model: &Moc3Model,
    key_texts: &Vec<Vec<Vec<String>>>,
    mesh_texts: &Vec<MeshTexts>,
) -> (res: Result<(), Error>)
    requires
        old(xml)@.depth + 10 < usize::MAX,
        atlas.pages@.len() == plan.pages@.len(),
        atlas.inputs@.len() >= model@.art_meshes.len(),
        mesh_texts_fit(model@, *plan, mesh_key_views(key_texts@), mesh_texts@),
    ensures
        meshes_ok(model@, *plan) ==> res is Ok && exists|edges: Seq<Seq<u16>>|
            edges.len() == mesh_count(model@, *plan) && (forall|i: int|
                0 <= i < edges.len() ==> mesh_edges(model@.art_meshes[i].triangle_indices, #[trigger] edges[i]))
                && final(xml)@ == (XmlWriterView {
                output: old(xml)@.output + meshes_list_xml(
                    old(xml)@.depth,
                    model@,
                    *plan,
                    *atlas,
                    mesh_key_views(key_texts@),
                    mesh_texts@,
                    edges,
                    mesh_count(model@, *plan),
                ),
                depth: old(xml)@.depth,
            }),
        !meshes_ok(model@, *plan) ==> cmo3_error(res),
{
    let ghost d = xml@.depth;
    let ghost start = xml@.output;
    let ghost m = model@;
    let ghost tv = mesh_key_views(key_texts@);
    let n = if model.art_meshes().len() <= plan.meshes.len() {
        model.art_meshes().len()
    } else {
        plan.meshes.len()
    };
    let ghost mut edges: Seq<Seq<u16>> = Seq::empty();
    let mut i: usize = 0;
    while i < n
        invariant
            i <= n,
            n == mesh_count(m, *plan),
            m == model@,
            tv == mesh_key_views(key_texts@),
            atlas.pages@.len() == plan.pages@.len(),
            atlas.inputs@.len() >= m.art_meshes.len(),
            mesh_texts_fit(m, *plan, tv, mesh_texts@),
            forall|j: int| 0 <= j < i ==> #[trigger] mesh_ok(m, *plan, j),
            edges.len() == i,
            forall|j: int| 0 <= j < i ==> mesh_edges(m.art_meshes[j].triangle_indices, #[trigger] edges[j]),
            d + 10 < usize::MAX,
            xml@.depth == d,
            xml@.output == start + meshes_list_xml(d, m, *plan, *atlas, tv, mesh_texts@, edges, i as int),
        decreases n - i,
    {
        assert(tv[i as int] == text_views(key_texts@[i as int]@));
        assert(mesh_counts_fit(m.art_meshes[i as int]));
        assert(mesh_texts@[i as int].forms@.len() >= plan.meshes@[i as int].grid.forms@.len());
        let ghost before = xml@.output;
        let entry = write_mesh_entry(xml, plan, atlas, model, i, &key_texts[i], &mesh_texts[i]);
        if entry.is_err() {
            assert(!meshes_ok(m, *plan));
            return entry;
        }
        proof {
            let e = choose|e: Seq<u16>|
                mesh_edges(m.art_meshes[i as int].triangle_indices, e) && xml@.output == before + mesh_entry_xml(
                    d,
                    m,
                    *plan,
                    *atlas,
                    i as int,
                    text_views(key_texts@[i as int]@),
                    mesh_texts@[i as int],
                    e,
                );
            let old_edges = edges;
            edges = edges.push(e);
            assert(meshes_list_xml(d, m, *plan, *atlas, tv, mesh_texts@, edges, i as int) == meshes_list_xml(
                d,
                m,
                *plan,
                *atlas,
                tv,
                mesh_texts@,
                old_edges,
                i as int,
            )) by {
                lemma_meshes_list_prefix(d, m, *plan, *atlas, tv, mesh_texts@, old_edges, edges, i as int);
            }
        }
        i = i + 1;
    }
    Ok(())
}

/// The first `n` meshes depend only on the first `n` edge lists.
proof fn lemma_meshes_list_prefix(
    d: nat,
    m: Moc3ModelView,
    plan: ProjectPlan,
    atlas: AtlasPlan,
    texts: Seq<Seq<Seq<Seq<char>>>>,
    mesh_texts: Seq<MeshTexts>,
    a: Seq<Seq<u16>>,
    b: Seq<Seq<u16>>,
    n: int,
)
    requires
        n <= a.len(),
        n <= b.len(),
        forall|j: int| 0 <= j < n ==> a[j] == b[j],
    ensures
        meshes_list_xml(d, m, plan, atlas, texts, mesh_texts, a, n) == meshes_list_xml(d, m, plan, atlas, texts, mesh_texts, b, n),
    decreases n,
{
    if n > 0 {
        lemma_meshes_list_prefix(d, m, plan, atlas, texts, mesh_texts, a, b, n - 1);
        assert(a[n - 1] == b[n - 1]);
    }
}

} // verus!
