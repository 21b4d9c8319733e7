//! The glue objects of the editor document: each glue's grid and source,
//! joining the paired vertices of two meshes.

use vstd::prelude::*;

use super::grid::{decimal_text, grid_bindings, grid_ok, grid_xml, ref_attrs, reference, shared_attrs, start_shared, text_views, texts_fit, write_grid};
use super::images::{counted, counted_attrs, named, named_attrs};
use super::parts::{controllable_xml, form_header_xml, start_parameter_controllable, write_form_header};
use super::plan::{GluePlan, ProjectPlan, RefId};
use super::sources::{number_list, number_list_text};
use super::structure::shorter;
use super::xml::{attr, attr_views, empty_line, end_line, start_line, text_line, Attr, XmlWriter, XmlWriterView};
use crate::error::{cmo3_error, invalid_cmo3, Error};
use crate::moc3::{glue_views, Glue, GlueModel, Moc3Model, Moc3ModelView};
use crate::text::number_text;

verus! {

/// The name of glue `index`: `Glue` and its number.
pub open spec fn glue_name(index: nat) -> Seq<char> {
    "Glue"@ + decimal_text(index)
}

/// The identifier of glue `index` joining meshes `a` and `b`.
pub open spec fn glue_id(index: nat, a: nat, b: nat) -> Seq<char> {
    glue_name(index) + "_"@ + decimal_text(a) + "_"@ + decimal_text(b)
}

/// Returns the name of glue `index`.
fn glue_name_text(index: usize) -> (res: String)
    ensures
        res@ == glue_name(index as nat),
{
    String::from_str("Glue").concat(number_text(index as u64).as_str())
}

/// Returns the identifier of glue `index` joining meshes `a` and `b`.
fn glue_id_text(index: usize, a: usize, b: usize) -> (res: String)
    ensures
        res@ == glue_id(index as nat, a as nat, b as nat),
{
    glue_name_text(index).concat("_").concat(number_text(a as u64).as_str()).concat("_").concat(number_text(b as u64).as_str())
}

/// How many vertex pairs a glue joins: the shorter of its two lists.
pub open spec fn pair_count(g: GlueModel) -> int {
    shorter(g.vertices_a.len(), g.vertices_b.len())
}

/// The vertex indices of the first `n` pairs, each pair's first vertex
/// before its second.
pub open spec fn bind_uids(g: GlueModel, n: int) -> Seq<u64>
    decreases n,
{
    if n <= 0 {
        Seq::empty()
    } else {
        bind_uids(g, n - 1) + seq![g.vertices_a[n - 1].vertex_index as u64, g.vertices_b[n - 1].vertex_index as u64]
    }
}

/// The intensity text of keyform `index`: the given text where there is
/// one, else `1`.
pub open spec fn intensity_text(texts: Seq<Seq<char>>, index: int) -> Seq<char> {
    if index < texts.len() {
        texts[index]
    } else {
        "1"@
    }
}

/// Whether glue `g` joins two planned meshes.
pub open spec fn glue_meshes_ok(project: ProjectPlan, g: GlueModel) -> bool {
    g.art_mesh_indices.0 < project.meshes@.len() && g.art_mesh_indices.1 < project.meshes@.len()
}

/// The affecter part of a glue's source at depth `d`: controllable under
/// the root part, its identifier and the root deformer as its target.
#[verifier::opaque]
pub open spec fn glue_affecter_xml(d: nat, project: ProjectPlan, plan: GluePlan, g: GlueModel, index: nat) -> Seq<u8> {
    start_line(d, "ACAffecterSource"@, named("super"@)) + controllable_xml(
        d + 1,
        glue_name(index),
        Some(project.root_part.guid),
        plan.grid.grid,
    ) + empty_line(d + 2, "carray_list"@, counted("_extensions"@, "0"@)) + end_line(d + 1, "ACParameterControllableSource"@)
        + empty_line(d + 1, "CAffecterGuid"@, ref_attrs("guid"@, plan.guid)) + empty_line(
        d + 1,
        "CAffecterId"@,
        seq![
            ("xs.n"@, "id"@),
            ("idstr"@, glue_id(index, g.art_mesh_indices.0 as nat, g.art_mesh_indices.1 as nat)),
        ],
    ) + empty_line(d + 1, "CDeformerGuid"@, ref_attrs("targetDeformerGuid"@, project.root_deformer_guid)) + text_line(
        d + 1,
        "i"@,
        named("editVersion"@),
        "1"@,
    ) + end_line(d, "ACAffecterSource"@)
}

/// Writes the affecter part of a glue's source.
#[verifier::spinoff_prover]
#[verifier::rlimit(60)]
fn write_glue_affecter(xml: &mut XmlWriter, project: &ProjectPlan, plan: &GluePlan, glue: &Glue, index: usize)
    requires
        old(xml)@.depth + 5 < usize::MAX,
    ensures
        final(xml)@ == (XmlWriterView {
            output: old(xml)@.output + glue_affecter_xml(old(xml)@.depth, *project, *plan, glue@, index as nat),
            depth: old(xml)@.depth,
        }),
{
    let ghost d = xml@.depth;
    let ghost start = xml@.output;
    xml.start("ACAffecterSource", named_attrs("super").as_slice());
    let name = glue_name_text(index);
    start_parameter_controllable(xml, name.as_str(), Some(project.root_part.guid), plan.grid.grid);
    xml.empty("carray_list", counted_attrs("_extensions", String::from_str("0")).as_slice());
    xml.end("ACParameterControllableSource");
    reference(xml, "CAffecterGuid", "guid", plan.guid);
    let mut id: Vec<Attr> = Vec::new();
    id.push(attr("xs.n", String::from_str("id")));
    id.push(attr("idstr", glue_id_text(index, glue.art_mesh_a, glue.art_mesh_b)));
    assert(attr_views(id@) =~= seq![
        ("xs.n"@, "id"@),
        ("idstr"@, glue_id(index as nat, glue@.art_mesh_indices.0 as nat, glue@.art_mesh_indices.1 as nat)),
    ]);
    xml.empty("CAffecterId", id.as_slice());
    reference(xml, "CDeformerGuid", "targetDeformerGuid", project.root_deformer_guid);
    xml.text("i", named_attrs("editVersion").as_slice(), "1");
    xml.end("ACAffecterSource");
    reveal(glue_affecter_xml);
    assert(xml@.output =~= start + glue_affecter_xml(d, *project, *plan, glue@, index as nat));
}

/// Returns the vertex indices of every pair of a glue.
fn glue_uids(glue: &Glue) -> (res: Vec<u64>)
    ensures
        res@ == bind_uids(glue@, pair_count(glue@)),
        res@.len() == 2 * pair_count(glue@),
{
    let ghost g = glue@;
    let pairs = if glue.vertices_a.len() <= glue.vertices_b.len() {
        glue.vertices_a.len()
    } else {
        glue.vertices_b.len()
    };
    let mut uids: Vec<u64> = Vec::new();
    let mut i: usize = 0;
    while i < pairs
        invariant
            i <= pairs,
            pairs == pair_count(g),
            g == glue@,
            uids@ == bind_uids(g, i as int),
            uids@.len() == 2 * i,
        decreases pairs - i,
    {
        uids.push(glue.vertices_a[i].vertex_index as u64);
        uids.push(glue.vertices_b[i].vertex_index as u64);
        i = i + 1;
        assert(uids@ =~= bind_uids(g, i as int));
    }
    uids
}

/// The weight texts of the first `n` pairs, each pair's first vertex
/// before its second.
pub open spec fn paired_weights(a: Seq<Seq<char>>, b: Seq<Seq<char>>, n: int) -> Seq<Seq<char>>
    decreases n,
{
    if n <= 0 {
        Seq::empty()
    } else {
        paired_weights(a, b, n - 1) + seq![a[n - 1], b[n - 1]]
    }
}

/// The texts joined by single spaces.
pub open spec fn spaced(items: Seq<Seq<char>>) -> Seq<char>
    decreases items.len(),
{
    if items.len() == 0 {
        Seq::empty()
    } else if items.len() == 1 {
        items[0]
    } else {
        spaced(items.drop_last()) + " "@ + items.last()
    }
}

/// The text of a glue's weights: the weight texts of its pairs, `a` giving
/// those of its first vertices and `b` those of its second, in pair order
/// and joined by single spaces.
pub open spec fn weights_text(g: GlueModel, a: Seq<Seq<char>>, b: Seq<Seq<char>>) -> Seq<char> {
    spaced(paired_weights(a, b, pair_count(g)))
}

/// Appends `item` to the spaced text `out` of `items`; `first` says
/// whether `items` is empty.
fn push_spaced(out: &mut String, item: &String, first: bool, Ghost(items): Ghost<Seq<Seq<char>>>)
    requires
        old(out)@ == spaced(items),
        first <==> items.len() == 0,
    ensures
        final(out)@ == spaced(items.push(item@)),
{
    proof {
        assert(items.push(item@).drop_last() =~= items);
    }
    if first {
        *out = item.clone();
    } else {
        let current = out.clone();
        *out = current.concat(" ").concat(item.as_str());
    }
}

/// Returns the text of a glue's weights.
fn glue_weights_text(glue: &Glue, weights_a: &Vec<String>, weights_b: &Vec<String>) -> (res: String)
    requires
        weights_a@.len() >= pair_count(glue@),
        weights_b@.len() >= pair_count(glue@),
    ensures
        res@ == weights_text(glue@, weights_a@.map_values(|s: String| s@), weights_b@.map_values(|s: String| s@)),
{
    let ghost av = weights_a@.map_values(|s: String| s@);
    let ghost bv = weights_b@.map_values(|s: String| s@);
    let pairs = if glue.vertices_a.len() <= glue.vertices_b.len() {
        glue.vertices_a.len()
    } else {
        glue.vertices_b.len()
    };
    let mut out = String::new();
    let mut i: usize = 0;
    while i < pairs
        invariant
            i <= pairs,
            pairs == pair_count(glue@),
            pairs <= weights_a@.len(),
            pairs <= weights_b@.len(),
            av == weights_a@.map_values(|s: String| s@),
            bv == weights_b@.map_values(|s: String| s@),
            out@ == spaced(paired_weights(av, bv, i as int)),
            paired_weights(av, bv, i as int).len() == 2 * i,
        decreases pairs - i,
    {
        let ghost before = paired_weights(av, bv, i as int);
        push_spaced(&mut out, &weights_a[i], i == 0, Ghost(before));
        push_spaced(&mut out, &weights_b[i], false, Ghost(before.push(av[i as int])));
        proof {
            assert(before.push(av[i as int]).push(bv[i as int]) =~= paired_weights(av, bv, i + 1));
        }
        i = i + 1;
    }
    out
}

/// One keyform of a glue at depth `d`: its header and its intensity.
#[verifier::opaque]
pub open spec fn glue_form_xml(d: nat, form: RefId, source: RefId, intensity: Seq<char>) -> Seq<u8> {
    start_line(d, "CGlueForm"@, Seq::empty()) + start_line(d + 1, "ACAffecterForm"@, named("super"@)) + form_header_xml(
        d + 2,
        form,
        "CGlueSource"@,
        source,
    ) + end_line(d + 1, "ACAffecterForm"@) + text_line(d + 1, "f"@, named("intensity"@), intensity) + end_line(
        d,
        "CGlueForm"@,
    )
}

/// Writes one keyform of a glue.
#[verifier::spinoff_prover]
fn write_glue_form(xml: &mut XmlWriter, form: RefId, source: RefId, intensity: &str)
    requires
        old(xml)@.depth + 3 < usize::MAX,
    ensures
        final(xml)@ == (XmlWriterView {
            output: old(xml)@.output + glue_form_xml(old(xml)@.depth, form, source, intensity@),
            depth: old(xml)@.depth,
        }),
{
    let ghost d = xml@.depth;
    let ghost start = xml@.output;
    let none: Vec<Attr> = Vec::new();
    assert(attr_views(none@) =~= Seq::empty());
    xml.start("CGlueForm", none.as_slice());
    xml.start("ACAffecterForm", named_attrs("super").as_slice());
    write_form_header(xml, form, "CGlueSource", source);
    xml.end("ACAffecterForm");
    xml.text("f", named_attrs("intensity").as_slice(), intensity);
    xml.end("CGlueForm");
    reveal(glue_form_xml);
    assert(xml@.output =~= start + glue_form_xml(d, form, source, intensity@));
}

/// The first `n` keyforms of a glue.
pub open spec fn glue_forms_xml(d: nat, plan: GluePlan, intensities: Seq<Seq<char>>, n: int) -> Seq<u8>
    decreases n,
{
    if n <= 0 {
        Seq::empty()
    } else {
        glue_forms_xml(d, plan, intensities, n - 1) + glue_form_xml(
            d,
            plan.grid.forms@[n - 1],
            plan.source,
            intensity_text(intensities, n - 1),
        )
    }
}

/// The tail of a glue's source at depth `d`: its two meshes, the indices
/// of its paired vertices and its tab at the origin.
#[verifier::opaque]
pub open spec fn glue_tail_xml(d: nat, project: ProjectPlan, g: GlueModel) -> Seq<u8> {
    let uids = bind_uids(g, pair_count(g));
    empty_line(
        d + 1,
        "CDrawableGuid"@,
        ref_attrs("targetArtMeshA_guid"@, project.meshes@[g.art_mesh_indices.0 as int].guid),
    ) + empty_line(d + 1, "CDrawableGuid"@, ref_attrs("targetArtMeshB_guid"@, project.meshes@[g.art_mesh_indices.1 as int].guid))
        + text_line(d + 1, "long-array"@, counted("bindVertexUids"@, decimal_text(uids.len())), number_list(uids))
        + start_line(d + 1, "GVector2"@, named("tabPosOnCanvas"@)) + text_line(d + 2, "f"@, named("x"@), "0.0"@)
        + text_line(d + 2, "f"@, named("y"@), "0.0"@) + end_line(d + 1, "GVector2"@) + end_line(d, "CGlueSource"@)
}

/// Writes the tail of a glue's source and closes it; `uids` are the
/// glue's paired vertex indices.
#[verifier::spinoff_prover]
#[verifier::rlimit(60)]
fn write_glue_tail(xml: &mut XmlWriter, project: &ProjectPlan, glue: &Glue, uids: &Vec<u64>)
    requires
        old(xml)@.depth > 0,
        old(xml)@.depth + 1 < usize::MAX,
        glue_meshes_ok(*project, glue@),
        uids@ == bind_uids(glue@, pair_count(glue@)),
    ensures
        final(xml)@ == (XmlWriterView {
            output: old(xml)@.output + glue_tail_xml((old(xml)@.depth - 1) as nat, *project, glue@),
            depth: (old(xml)@.depth - 1) as nat,
        }),
{
    let ghost d = (xml@.depth - 1) as nat;
    let ghost start = xml@.output;
    reference(xml, "CDrawableGuid", "targetArtMeshA_guid", project.meshes[glue.art_mesh_a].guid);
    reference(xml, "CDrawableGuid", "targetArtMeshB_guid", project.meshes[glue.art_mesh_b].guid);
    let uid_text = number_list_text(uids);
    xml.text("long-array", counted_attrs("bindVertexUids", number_text(uids.len() as u64)).as_slice(), uid_text.as_str());
    xml.start("GVector2", named_attrs("tabPosOnCanvas").as_slice());
    xml.text("f", named_attrs("x").as_slice(), "0.0");
    xml.text("f", named_attrs("y").as_slice(), "0.0");
    xml.end("GVector2");
    xml.end("CGlueSource");
    reveal(glue_tail_xml);
    assert(xml@.output =~= start + glue_tail_xml(d, *project, glue@));
}

/// The source of glue `index` at depth `d`, with the weight texts `a` and
/// `b` of its first and second vertices and the intensity texts of its
/// keyforms.
pub open spec fn glue_source_xml(
    d: nat,
    project: ProjectPlan,
    plan: GluePlan,
    g: GlueModel,
    index: nat,
    a: Seq<Seq<char>>,
    b: Seq<Seq<char>>,
    intensities: Seq<Seq<char>>,
) -> Seq<u8> {
    let forms = plan.grid.forms@;
    start_line(d, "CGlueSource"@, shared_attrs(plan.source)) + glue_affecter_xml(d + 1, project, plan, g, index)
        + text_line(
        d + 1,
        "float-array"@,
        counted("weights"@, decimal_text((2 * pair_count(g)) as nat)),
        weights_text(g, a, b),
    )
        + start_line(d + 1, "carray_list"@, counted("keyforms"@, decimal_text(forms.len()))) + glue_forms_xml(d + 2, plan, intensities, forms.len() as int) + end_line(d + 1, "carray_list"@) + glue_tail_xml(
        d,
        project,
        g,
    )
}

/// Writes the source of glue `index`: `weights_a` and `weights_b` are the
/// weight texts of its first and second vertices, written pair by pair,
/// and `intensities` the texts of its keyed intensities; a keyform without
/// one gets `1`.
///
/// Fails, writing nothing, when the glue joins a mesh that is not planned.
pub fn write_glue_source(
    xml: &mut XmlWriter,
    project: &ProjectPlan,
    plan: &GluePlan,
    glue: &Glue,
    index: usize,
    weights_a: &Vec<String>,
    weights_b: &Vec<String>,
    intensities: &Vec<String>,
) -> (res: Result<(), Error>)
    requires
        old(xml)@.depth + 6 < usize::MAX,
        weights_a@.len() >= pair_count(glue@),
        weights_b@.len() >= pair_count(glue@),
    ensures
        glue_meshes_ok(*project, glue@) ==> res is Ok && final(xml)@ == (XmlWriterView {
            output: old(xml)@.output + glue_source_xml(
                old(xml)@.depth,
                *project,
                *plan,
                glue@,
                index as nat,
                weights_a@.map_values(|s: String| s@),
                weights_b@.map_values(|s: String| s@),
                intensities@.map_values(|s: String| s@),
            ),
            depth: old(xml)@.depth,
        }),
        !glue_meshes_ok(*project, glue@) ==> cmo3_error(res) && final(xml)@ == old(xml)@,
{
    if glue.art_mesh_a >= project.meshes.len() {
        return Err(invalid_cmo3("glue references a missing ArtMesh"));
    }
    if glue.art_mesh_b >= project.meshes.len() {
        return Err(invalid_cmo3("glue references a missing ArtMesh"));
    }
    let ghost d = xml@.depth;
    let ghost start = xml@.output;
    let ghost iv = intensities@.map_values(|s: String| s@);
    let ghost av = weights_a@.map_values(|s: String| s@);
    let ghost bv = weights_b@.map_values(|s: String| s@);
    let uids = glue_uids(glue);
    let weights = glue_weights_text(glue, weights_a, weights_b);
    start_shared(xml, "CGlueSource", plan.source);
    write_glue_affecter(xml, project, plan, glue, index);
    xml.text("float-array", counted_attrs("weights", number_text(uids.len() as u64)).as_slice(), weights.as_str());
    xml.start("carray_list", counted_attrs("keyforms", number_text(plan.grid.forms.len() as u64)).as_slice());
    let ghost forms_start = xml@.output;
    let mut f: usize = 0;
    while f < plan.grid.forms.len()
        invariant
            f <= plan.grid.forms@.len(),
            iv == intensities@.map_values(|s: String| s@),
            d + 6 < usize::MAX,
            xml@.depth == d + 2,
            xml@.output == forms_start + glue_forms_xml(d + 2, *plan, iv, f as int),
        decreases plan.grid.forms@.len() - f,
    {
        if f < intensities.len() {
            write_glue_form(xml, plan.grid.forms[f], plan.source, intensities[f].as_str());
        } else {
            write_glue_form(xml, plan.grid.forms[f], plan.source, "1");
        }
        f = f + 1;
    }
    xml.end("carray_list");
    write_glue_tail(xml, project, glue, &uids);
    assert(xml@.output =~= start + glue_source_xml(d, *project, *plan, glue@, index as nat, av, bv, iv));
    Ok(())
}

/// How many glues are written: those that have a plan.
pub open spec fn glue_count(m: Moc3ModelView, plan: ProjectPlan) -> int {
    shorter(m.glues.len(), plan.glues@.len())
}

/// Whether glue `i`'s grid and source can be written.
pub open spec fn glue_ok(m: Moc3ModelView, plan: ProjectPlan, i: int) -> bool {
    &&& grid_ok(m.binding_bands, m.glues[i].binding_band_index, plan.glues@[i].grid, plan.parameters@)
    &&& glue_meshes_ok(plan, m.glues[i])
}

/// Whether every planned glue can be written.
pub open spec fn glues_ok(m: Moc3ModelView, plan: ProjectPlan) -> bool {
    forall|i: int| 0 <= i < glue_count(m, plan) ==> #[trigger] glue_ok(m, plan, i)
}

/// The weight texts of each glue's first and second vertices.
pub open spec fn weight_views(weights: Seq<(Vec<String>, Vec<String>)>) -> Seq<(Seq<Seq<char>>, Seq<Seq<char>>)> {
    weights.map_values(
        |p: (Vec<String>, Vec<String>)| (p.0@.map_values(|s: String| s@), p.1@.map_values(|s: String| s@)),
    )
}

/// Glue `i` at depth `d`: its grid with the key texts `texts`, then its
/// source with the weight texts of its vertices and its intensity texts.
pub open spec fn glue_xml(
    d: nat,
    m: Moc3ModelView,
    plan: ProjectPlan,
    i: int,
    texts: Seq<Seq<Seq<char>>>,
    weights: (Seq<Seq<char>>, Seq<Seq<char>>),
    intensities: Seq<Seq<char>>,
) -> Seq<u8> {
    let g = m.glues[i];
    let glue_plan = plan.glues@[i];
    grid_xml(
        d,
        glue_plan.grid,
        grid_bindings(m.binding_bands, g.binding_band_index)->Some_0,
        plan.parameters@,
        texts,
        glue_name(i as nat),
    ) + glue_source_xml(d, plan, glue_plan, g, i as nat, weights.0, weights.1, intensities)
}

/// The first `n` glues.
pub open spec fn glues_list_xml(
    d: nat,
    m: Moc3ModelView,
    plan: ProjectPlan,
    texts: Seq<Seq<Seq<Seq<char>>>>,
    weights: Seq<(Seq<Seq<char>>, Seq<Seq<char>>)>,
    intensities: Seq<Seq<Seq<char>>>,
    n: int,
) -> Seq<u8>
    decreases n,
{
    if n <= 0 {
        Seq::empty()
    } else {
        glues_list_xml(d, m, plan, texts, weights, intensities, n - 1) + glue_xml(
            d,
            m,
            plan,
            n - 1,
            texts[n - 1],
            weights[n - 1],
            intensities[n - 1],
        )
    }
}

/// Writes glue `i`: its grid, then its source.
#[verifier::spinoff_prover]
#[verifier::rlimit(60)]
fn write_glue_entry(
    xml: &mut XmlWriter,
    plan: &ProjectPlan,
    model: &Moc3Model,
    i: usize,
    key_texts: &Vec<Vec<String>>,
    weights: &(Vec<String>, Vec<String>),
    intensities: &Vec<String>,
) -> (res: Result<(), Error>)
    requires
        old(xml)@.depth + 8 < usize::MAX,
        i < model@.glues.len(),
        i < plan.glues@.len(),
        weights.0@.len() >= pair_count(model@.glues[i as int]),
        weights.1@.len() >= pair_count(model@.glues[i as int]),
        grid_bindings(model@.binding_bands, model@.glues[i as int].binding_band_index) matches Some(b) ==> texts_fit(
            b,
            text_views(key_texts@),
        ),
    ensures
        glue_ok(model@, *plan, i as int) ==> res is Ok && final(xml)@ == (XmlWriterView {
            output: old(xml)@.output + glue_xml(
                old(xml)@.depth,
                model@,
                *plan,
                i as int,
                text_views(key_texts@),
                (weights.0@.map_values(|s: String| s@), weights.1@.map_values(|s: String| s@)),
                intensities@.map_values(|s: String| s@),
            ),
            depth: old(xml)@.depth,
        }),
        !glue_ok(model@, *plan, i as int) ==> cmo3_error(res),
{
    let ghost start = xml@.output;
    let glues = model.glues();
    assert(glue_views(glues@) == model@.glues);
    let glue = &glues[i];
    assert(model@.glues[i as int] == glue@);
    let glue_plan = &plan.glues[i];
    let name = glue_name_text(i);
    let grid = write_grid(xml, &glue_plan.grid, model, glue.binding_band_index, plan.parameters.as_slice(), name.as_str(), key_texts);
    if grid.is_err() {
        return grid;
    }
    let source = write_glue_source(xml, plan, glue_plan, glue, i, &weights.0, &weights.1, intensities);
    if source.is_err() {
        return source;
    }
    assert(xml@.output =~= start + glue_xml(
        old(xml)@.depth,
        model@,
        *plan,
        i as int,
        text_views(key_texts@),
        (weights.0@.map_values(|s: String| s@), weights.1@.map_values(|s: String| s@)),
        intensities@.map_values(|s: String| s@),
    ));
    Ok(())
}

/// Writes every planned glue, each as its keyform grid and its source.
/// `key_texts[i]` gives the key texts of glue `i`'s grid, `weights[i]` the
/// weight texts of its first and second vertices and `intensities[i]` the
/// texts of its intensities.
///
/// Fails at the first glue whose grid or meshes are missing.
pub fn write_glues(
    xml: &mut XmlWriter,
    plan: &ProjectPlan,
    model: &Moc3Model,
    key_texts: &Vec<Vec<Vec<String>>>,
    weights: &Vec<(Vec<String>, Vec<String>)>,
    intensities: &Vec<Vec<String>>,
) -> (res: Result<(), Error>)
    requires
        old(xml)@.depth + 8 < usize::MAX,
        key_texts@.len() == model@.glues.len(),
        weights@.len() == model@.glues.len(),
        intensities@.len() == model@.glues.len(),
        forall|i: int|
            0 <= i < model@.glues.len() ==> (#[trigger] weights@[i]).0@.len() >= pair_count(model@.glues[i])
                && weights@[i].1@.len() >= pair_count(model@.glues[i]),
        forall|i: int|
            0 <= i < model@.glues.len() ==> (grid_bindings(
                model@.binding_bands,
                (#[trigger] model@.glues[i]).binding_band_index,
            ) matches Some(b) ==> texts_fit(b, text_views(key_texts@[i]@))),
    ensures
        glues_ok(model@, *plan) ==> res is Ok && final(xml)@ == (XmlWriterView {
            output: old(xml)@.output + glues_list_xml(
                old(xml)@.depth,
                model@,
                *plan,
                key_texts@.map_values(|v: Vec<Vec<String>>| text_views(v@)),
                weight_views(weights@),
                intensities@.map_values(|v: Vec<String>| v@.map_values(|s: String| s@)),
                glue_count(model@, *plan),
            ),
            depth: old(xml)@.depth,
        }),
        !glues_ok(model@, *plan) ==> cmo3_error(res),
{
    let ghost d = xml@.depth;
    let ghost start = xml@.output;
    let ghost m = model@;
    let ghost tv = key_texts@.map_values(|v: Vec<Vec<String>>| text_views(v@));
    let ghost wv = weight_views(weights@);
    let ghost iv = intensities@.map_values(|v: Vec<String>| v@.map_values(|s: String| s@));
    let n = if model.glues().len() <= plan.glues.len() {
        model.glues().len()
    } else {
        plan.glues.len()
    };
    let mut i: usize = 0;
    while i < n
        invariant
            i <= n,
            n == glue_count(m, *plan),
            m == model@,
            tv == key_texts@.map_values(|v: Vec<Vec<String>>| text_views(v@)),
            wv == weight_views(weights@),
            forall|j: int|
                0 <= j < m.glues.len() ==> (#[trigger] weights@[j]).0@.len() >= pair_count(m.glues[j])
                    && weights@[j].1@.len() >= pair_count(m.glues[j]),
            iv == intensities@.map_values(|v: Vec<String>| v@.map_values(|s: String| s@)),
            key_texts@.len() == m.glues.len(),
            weights@.len() == m.glues.len(),
            intensities@.len() == m.glues.len(),
            forall|j: int|
                0 <= j < m.glues.len() ==> (grid_bindings(m.binding_bands, (#[trigger] m.glues[j]).binding_band_index) matches Some(
                    b,
                ) ==> texts_fit(b, text_views(key_texts@[j]@))),
            forall|j: int| 0 <= j < i ==> #[trigger] glue_ok(m, *plan, j),
            d + 8 < usize::MAX,
            xml@.depth == d,
            xml@.output == start + glues_list_xml(d, m, *plan, tv, wv, iv, i as int),
        decreases n - i,
    {
        let entry = write_glue_entry(xml, plan, model, i, &key_texts[i], &weights[i], &intensities[i]);
        if entry.is_err() {
            assert(!glues_ok(m, *plan));
            return entry;
        }
        assert(tv[i as int] == text_views(key_texts@[i as int]@));
        assert(iv[i as int] == intensities@[i as int]@.map_values(|s: String| s@));
        assert(wv[i as int] == (weights@[i as int].0@.map_values(|s: String| s@), weights@[i as int].1@.map_values(|s: String| s@)));
        i = i + 1;
    }
    Ok(())
}

} // verus!
