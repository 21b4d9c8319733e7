//! The model source at the root of the editor document: its canvas, its
//! parameters, its texture manager and the sets of its objects.

use vstd::prelude::*;

use super::grid::{decimal_text, ref_attrs, ref_text, reference, reference_without_name};
use super::images::{counted, counted_attrs, named, named_attrs, named_value, named_value_attrs};
use super::plan::{DeformerPlan, GluePlan, MeshPlan, ParameterPlan, PartPlan, ProjectPlan, RefId};
use super::structure::shorter;
use super::xml::{attr, attr_views, empty_line, end_line, start_line, text_line, Attr, XmlWriter, XmlWriterView};
use crate::moc3::{deformer_views, parameter_views, DeformerModel, Deformer, Moc3Model, Moc3ModelView, ParameterModel};
use crate::text::number_text;

verus! {

/// The canvas at depth `d`, with the given texts of its pixel size.
#[verifier::opaque]
pub open spec fn canvas_xml(d: nat, width: Seq<char>, height: Seq<char>) -> Seq<u8> {
    start_line(d, "CImageCanvas"@, named("canvas"@)) + text_line(d + 1, "i"@, named("pixelWidth"@), width) + text_line(
        d + 1,
        "i"@,
        named("pixelHeight"@),
        height,
    ) + empty_line(d + 1, "CColor"@, named("background"@)) + end_line(d, "CImageCanvas"@)
}

/// Writes the canvas; `width` and `height` are the texts of its pixel size.
pub fn write_canvas(xml: &mut XmlWriter, width: &str, height: &str)
    requires
        old(xml)@.depth < usize::MAX,
    ensures
        final(xml)@ == (XmlWriterView { output: old(xml)@.output + canvas_xml(old(xml)@.depth, width@, height@), depth: old(xml)@.depth }),
{
    let ghost start = xml@.output;
    xml.start("CImageCanvas", named_attrs("canvas").as_slice());
    xml.text("i", named_attrs("pixelWidth").as_slice(), width);
    xml.text("i", named_attrs("pixelHeight").as_slice(), height);
    xml.empty("CColor", named_attrs("background").as_slice());
    xml.end("CImageCanvas");
    reveal(canvas_xml);
    assert(xml@.output =~= start + canvas_xml(old(xml)@.depth, width@, height@));
}

/// The texts of a parameter's minimum, maximum and default values.
pub open spec fn value_text_views(v: Seq<(String, String, String)>) -> Seq<(Seq<char>, Seq<char>, Seq<char>)> {
    v.map_values(|t: (String, String, String)| (t.0@, t.1@, t.2@))
}

/// The source of a parameter at depth `d`, with the texts of its minimum,
/// maximum and default values.
#[verifier::opaque]
pub open spec fn parameter_source_xml(
    d: nat,
    parameter: ParameterModel,
    guid: RefId,
    group: RefId,
    values: (Seq<char>, Seq<char>, Seq<char>),
) -> Seq<u8> {
    start_line(d, "CParameterSource"@, Seq::empty()) + text_line(d + 1, "i"@, named("decimalPlaces"@), "3"@) + empty_line(
        d + 1,
        "CParameterGuid"@,
        ref_attrs("guid"@, guid),
    ) + text_line(d + 1, "f"@, named("snapEpsilon"@), "0.001"@) + text_line(d + 1, "f"@, named("minValue"@), values.0)
        + text_line(d + 1, "f"@, named("maxValue"@), values.1) + text_line(d + 1, "f"@, named("defaultValue"@), values.2)
        + text_line(d + 1, "b"@, named("isRepeat"@), "false"@) + empty_line(
        d + 1,
        "CParameterId"@,
        seq![("xs.n"@, "id"@), ("idstr"@, parameter.id)],
    ) + empty_line(d + 1, "Type"@, named_value("paramType"@, "NORMAL"@)) + text_line(
        d + 1,
        "s"@,
        named("name"@),
        parameter.id,
    ) + empty_line(d + 1, "s"@, named("description"@)) + text_line(d + 1, "b"@, named("combined"@), "false"@)
        + empty_line(d + 1, "CParameterGroupGuid"@, ref_attrs("parentGroupGuid"@, group)) + end_line(d, "CParameterSource"@)
}

/// Writes the source of a parameter.
#[verifier::spinoff_prover]
#[verifier::rlimit(80)]
fn write_parameter_source(
    xml: &mut XmlWriter,
    parameter: &crate::moc3::Parameter,
    guid: RefId,
    group: RefId,
    values: &(String, String, String),
)
    requires
        old(xml)@.depth < usize::MAX,
    ensures
        final(xml)@ == (XmlWriterView {
            output: old(xml)@.output + parameter_source_xml(
                old(xml)@.depth,
                parameter@,
                guid,
                group,
                (values.0@, values.1@, values.2@),
            ),
            depth: old(xml)@.depth,
        }),
{
    let ghost d = xml@.depth;
    let ghost start = xml@.output;
    let none: Vec<Attr> = Vec::new();
    assert(attr_views(none@) =~= Seq::empty());
    xml.start("CParameterSource", none.as_slice());
    xml.text("i", named_attrs("decimalPlaces").as_slice(), "3");
    reference(xml, "CParameterGuid", "guid", guid);
    xml.text("f", named_attrs("snapEpsilon").as_slice(), "0.001");
    xml.text("f", named_attrs("minValue").as_slice(), values.0.as_str());
    xml.text("f", named_attrs("maxValue").as_slice(), values.1.as_str());
    xml.text("f", named_attrs("defaultValue").as_slice(), values.2.as_str());
    xml.text("b", named_attrs("isRepeat").as_slice(), "false");
    let mut id: Vec<Attr> = Vec::new();
    id.push(attr("xs.n", String::from_str("id")));
    id.push(attr("idstr", String::from_str(parameter.id())));
    assert(attr_views(id@) =~= seq![("xs.n"@, "id"@), ("idstr"@, parameter@.id)]);
    xml.empty("CParameterId", id.as_slice());
    xml.empty("Type", named_value_attrs("paramType", "NORMAL").as_slice());
    xml.text("s", named_attrs("name").as_slice(), parameter.id());
    xml.empty("s", named_attrs("description").as_slice());
    xml.text("b", named_attrs("combined").as_slice(), "false");
    reference(xml, "CParameterGroupGuid", "parentGroupGuid", group);
    xml.end("CParameterSource");
    reveal(parameter_source_xml);
    assert(xml@.output =~= start + parameter_source_xml(d, parameter@, guid, group, (values.0@, values.1@, values.2@)));
}

/// The sources of the first `n` parameters.
pub open spec fn parameter_sources_xml(
    d: nat,
    parameters: Seq<ParameterModel>,
    plans: Seq<ParameterPlan>,
    group: RefId,
    values: Seq<(Seq<char>, Seq<char>, Seq<char>)>,
    n: int,
) -> Seq<u8>
    decreases n,
{
    if n <= 0 {
        Seq::empty()
    } else {
        parameter_sources_xml(d, parameters, plans, group, values, n - 1) + parameter_source_xml(
            d,
            parameters[n - 1],
            plans[n - 1].guid,
            group,
            values[n - 1],
        )
    }
}

/// The parameter set at depth `d`: the source of every planned parameter,
/// listed with the count of the model's parameters.
pub open spec fn parameters_xml(
    d: nat,
    plan: ProjectPlan,
    parameters: Seq<ParameterModel>,
    values: Seq<(Seq<char>, Seq<char>, Seq<char>)>,
) -> Seq<u8> {
    start_line(d, "CParameterSourceSet"@, named("parameterSourceSet"@)) + start_line(
        d + 1,
        "carray_list"@,
        counted("_sources"@, decimal_text(parameters.len())),
    ) + parameter_sources_xml(
        d + 2,
        parameters,
        plan.parameters@,
        plan.parameter_group_guid,
        values,
        shorter(parameters.len(), plan.parameters@.len()),
    ) + end_line(d + 1, "carray_list"@) + end_line(d, "CParameterSourceSet"@)
}

/// Writes the parameter set; `values[i]` holds the texts of parameter `i`'s
/// minimum, maximum and default values.
pub fn write_parameters(xml: &mut XmlWriter, plan: &ProjectPlan, model: &Moc3Model, values: &Vec<(String, String, String)>)
    requires
        old(xml)@.depth + 3 < usize::MAX,
        values@.len() == model@.parameters.len(),
    ensures
        final(xml)@ == (XmlWriterView {
            output: old(xml)@.output + parameters_xml(old(xml)@.depth, *plan, model@.parameters, value_text_views(values@)),
            depth: old(xml)@.depth,
        }),
{
    let ghost d = xml@.depth;
    let ghost start = xml@.output;
    let ghost vv = value_text_views(values@);
    let parameters = model.parameters();
    assert(parameter_views(parameters@) == model@.parameters);
    xml.start("CParameterSourceSet", named_attrs("parameterSourceSet").as_slice());
    xml.start("carray_list", counted_attrs("_sources", number_text(parameters.len() as u64)).as_slice());
    let ghost list_start = xml@.output;
    let n = if parameters.len() <= plan.parameters.len() {
        parameters.len()
    } else {
        plan.parameters.len()
    };
    let mut i: usize = 0;
    while i < n
        invariant
            i <= n,
            n == shorter(model@.parameters.len(), plan.parameters@.len()),
            parameter_views(parameters@) == model@.parameters,
            values@.len() == model@.parameters.len(),
            vv == value_text_views(values@),
            d + 3 < usize::MAX,
            xml@.depth == d + 2,
            xml@.output == list_start + parameter_sources_xml(
                d + 2,
                model@.parameters,
                plan.parameters@,
                plan.parameter_group_guid,
                vv,
                i as int,
            ),
        decreases n - i,
    {
        assert(model@.parameters[i as int] == parameters@[i as int]@);
        write_parameter_source(xml, &parameters[i], plan.parameters[i].guid, plan.parameter_group_guid, &values[i]);
        i = i + 1;
    }
    xml.end("carray_list");
    xml.end("CParameterSourceSet");
    assert(xml@.output =~= start + parameters_xml(d, *plan, model@.parameters, vv));
}

/// The one raw image of the texture manager: the source image, imported
/// and modified at time zero and not replaced, at depth `d`.
#[verifier::opaque]
pub open spec fn raw_image_xml(d: nat, layered: RefId) -> Seq<u8> {
    start_line(d, "LayeredImageWrapper"@, Seq::empty()) + empty_line(d + 1, "CLayeredImage"@, ref_attrs("image"@, layered))
        + text_line(d + 1, "l"@, named("importedTimeMSec"@), "0"@) + text_line(
        d + 1,
        "l"@,
        named("lastModifiedTimeMSec"@),
        "0"@,
    ) + text_line(d + 1, "b"@, named("isReplaced"@), "false"@) + end_line(d, "LayeredImageWrapper"@)
}

/// Writes the one raw image of the texture manager.
#[verifier::spinoff_prover]
fn write_raw_image(xml: &mut XmlWriter, layered: RefId)
    requires
        old(xml)@.depth < usize::MAX,
    ensures
        final(xml)@ == (XmlWriterView { output: old(xml)@.output + raw_image_xml(old(xml)@.depth, layered), depth: old(xml)@.depth }),
{
    let ghost start = xml@.output;
    let none: Vec<Attr> = Vec::new();
    assert(attr_views(none@) =~= Seq::empty());
    xml.start("LayeredImageWrapper", none.as_slice());
    reference(xml, "CLayeredImage", "image", layered);
    xml.text("l", named_attrs("importedTimeMSec").as_slice(), "0");
    xml.text("l", named_attrs("lastModifiedTimeMSec").as_slice(), "0");
    xml.text("b", named_attrs("isReplaced").as_slice(), "false");
    xml.end("LayeredImageWrapper");
    reveal(raw_image_xml);
    assert(xml@.output =~= start + raw_image_xml(old(xml)@.depth, layered));
}

/// The texture manager at depth `d`: no textures, the source image as its
/// one raw image, the model-image group, no atlases, in model-image mode.
#[verifier::opaque]
pub open spec fn texture_manager_xml(d: nat, plan: ProjectPlan) -> Seq<u8> {
    start_line(d, "CTextureManager"@, named("textureManager"@)) + start_line(d + 1, "TextureImageGroup"@, named("textureList"@))
        + empty_line(d + 2, "carray_list"@, counted("children"@, "0"@)) + end_line(d + 1, "TextureImageGroup"@)
        + start_line(d + 1, "carray_list"@, counted("_rawImages"@, "1"@)) + raw_image_xml(d + 2, plan.layered_image)
        + end_line(d + 1, "carray_list"@) + start_line(d + 1, "carray_list"@, counted("_modelImageGroups"@, "1"@))
        + empty_line(d + 2, "CModelImageGroup"@, seq![("xs.ref"@, ref_text(plan.image_group))]) + end_line(
        d + 1,
        "carray_list"@,
    ) + empty_line(d + 1, "carray_list"@, counted("_textureAtlases"@, "0"@)) + text_line(
        d + 1,
        "b"@,
        named("isTextureInputModelImageMode"@),
        "true"@,
    ) + text_line(d + 1, "i"@, named("previewReductionRatio"@), "1"@) + empty_line(
        d + 1,
        "carray_list"@,
        counted("artPathBrushUsingLayeredImageIds"@, "0"@),
    ) + end_line(d, "CTextureManager"@)
}

/// Writes the texture manager.
#[verifier::spinoff_prover]
#[verifier::rlimit(80)]
pub fn write_texture_manager(xml: &mut XmlWriter, plan: &ProjectPlan)
    requires
        old(xml)@.depth + 3 < usize::MAX,
    ensures
        final(xml)@ == (XmlWriterView { output: old(xml)@.output + texture_manager_xml(old(xml)@.depth, *plan), depth: old(xml)@.depth }),
{
    let ghost d = xml@.depth;
    let ghost start = xml@.output;
    xml.start("CTextureManager", named_attrs("textureManager").as_slice());
    xml.start("TextureImageGroup", named_attrs("textureList").as_slice());
    xml.empty("carray_list", counted_attrs("children", String::from_str("0")).as_slice());
    xml.end("TextureImageGroup");
    xml.start("carray_list", counted_attrs("_rawImages", String::from_str("1")).as_slice());
    write_raw_image(xml, plan.layered_image);
    xml.end("carray_list");
    xml.start("carray_list", counted_attrs("_modelImageGroups", String::from_str("1")).as_slice());
    reference_without_name(xml, "CModelImageGroup", plan.image_group);
    xml.end("carray_list");
    xml.empty("carray_list", counted_attrs("_textureAtlases", String::from_str("0")).as_slice());
    xml.text("b", named_attrs("isTextureInputModelImageMode").as_slice(), "true");
    xml.text("i", named_attrs("previewReductionRatio").as_slice(), "1");
    xml.empty("carray_list", counted_attrs("artPathBrushUsingLayeredImageIds", String::from_str("0")).as_slice());
    xml.end("CTextureManager");
    reveal(texture_manager_xml);
    assert(xml@.output =~= start + texture_manager_xml(d, *plan));
}

/// Unnamed references, all under `tag`, to the first `n` of `refs`.
pub open spec fn refs_xml(d: nat, tag: Seq<char>, refs: Seq<RefId>, n: int) -> Seq<u8>
    decreases n,
{
    if n <= 0 {
        Seq::empty()
    } else {
        refs_xml(d, tag, refs, n - 1) + empty_line(d, tag, seq![("xs.ref"@, ref_text(refs[n - 1]))])
    }
}

/// A set of object sources at depth `d`: the set's element named `name`,
/// holding references to `refs`, listed with the count `count`.
pub open spec fn source_set_xml(d: nat, set_tag: Seq<char>, name: Seq<char>, count: nat, items: Seq<u8>) -> Seq<u8> {
    start_line(d, set_tag, named(name)) + start_line(d + 1, "carray_list"@, counted("_sources"@, decimal_text(count))) + items
        + end_line(d + 1, "carray_list"@) + end_line(d, set_tag)
}

/// Writes references, all under `tag`, to every one of `refs`.
fn write_refs(xml: &mut XmlWriter, tag: &str, refs: &Vec<RefId>)
    ensures
        final(xml)@ == (XmlWriterView {
            output: old(xml)@.output + refs_xml(old(xml)@.depth, tag@, refs@, refs@.len() as int),
            depth: old(xml)@.depth,
        }),
{
    let ghost start = xml@.output;
    let mut i: usize = 0;
    while i < refs.len()
        invariant
            i <= refs@.len(),
            xml@.depth == old(xml)@.depth,
            xml@.output == start + refs_xml(old(xml)@.depth, tag@, refs@, i as int),
        decreases refs@.len() - i,
    {
        reference_without_name(xml, tag, refs[i]);
        i = i + 1;
    }
}

/// The sources of the planned meshes.
pub open spec fn mesh_sources(meshes: Seq<MeshPlan>) -> Seq<RefId> {
    meshes.map_values(|m: MeshPlan| m.source)
}

/// The sources of the planned glues.
pub open spec fn glue_sources(glues: Seq<GluePlan>) -> Seq<RefId> {
    glues.map_values(|g: GluePlan| g.source)
}

/// The sources of the planned parts.
pub open spec fn part_sources(parts: Seq<PartPlan>) -> Seq<RefId> {
    parts.map_values(|p: PartPlan| p.source)
}

/// The drawable set at depth `d`: every planned mesh's source.
pub open spec fn drawable_set_xml(d: nat, plan: ProjectPlan) -> Seq<u8> {
    let refs = mesh_sources(plan.meshes@);
    source_set_xml(
        d,
        "CDrawableSourceSet"@,
        "drawableSourceSet"@,
        plan.meshes@.len(),
        refs_xml(d + 2, "CArtMeshSource"@, refs, refs.len() as int),
    )
}

/// Writes the drawable set.
pub fn write_drawable_set(xml: &mut XmlWriter, plan: &ProjectPlan)
    requires
        old(xml)@.depth + 2 < usize::MAX,
    ensures
        final(xml)@ == (XmlWriterView { output: old(xml)@.output + drawable_set_xml(old(xml)@.depth, *plan), depth: old(xml)@.depth }),
{
    let ghost start = xml@.output;
    let mut refs: Vec<RefId> = Vec::new();
    let mut i: usize = 0;
    while i < plan.meshes.len()
        invariant
            i <= plan.meshes@.len(),
            refs@ == mesh_sources(plan.meshes@.subrange(0, i as int)),
        decreases plan.meshes@.len() - i,
    {
        refs.push(plan.meshes[i].source);
        i = i + 1;
        assert(refs@ =~= mesh_sources(plan.meshes@.subrange(0, i as int)));
    }
    assert(plan.meshes@.subrange(0, plan.meshes@.len() as int) =~= plan.meshes@);
    xml.start("CDrawableSourceSet", named_attrs("drawableSourceSet").as_slice());
    xml.start("carray_list", counted_attrs("_sources", number_text(plan.meshes.len() as u64)).as_slice());
    write_refs(xml, "CArtMeshSource", &refs);
    xml.end("carray_list");
    xml.end("CDrawableSourceSet");
    assert(xml@.output =~= start + drawable_set_xml(old(xml)@.depth, *plan));
}

/// The affecter set at depth `d`: every planned glue's source.
pub open spec fn affecter_set_xml(d: nat, plan: ProjectPlan) -> Seq<u8> {
    let refs = glue_sources(plan.glues@);
    source_set_xml(
        d,
        "CAffecterSourceSet"@,
        "affecterSourceSet"@,
        plan.glues@.len(),
        refs_xml(d + 2, "CGlueSource"@, refs, refs.len() as int),
    )
}

/// Writes the affecter set.
pub fn write_affecter_set(xml: &mut XmlWriter, plan: &ProjectPlan)
    requires
        old(xml)@.depth + 2 < usize::MAX,
    ensures
        final(xml)@ == (XmlWriterView { output: old(xml)@.output + affecter_set_xml(old(xml)@.depth, *plan), depth: old(xml)@.depth }),
{
    let ghost start = xml@.output;
    let mut refs: Vec<RefId> = Vec::new();
    let mut i: usize = 0;
    while i < plan.glues.len()
        invariant
            i <= plan.glues@.len(),
            refs@ == glue_sources(plan.glues@.subrange(0, i as int)),
        decreases plan.glues@.len() - i,
    {
        refs.push(plan.glues[i].source);
        i = i + 1;
        assert(refs@ =~= glue_sources(plan.glues@.subrange(0, i as int)));
    }
    assert(plan.glues@.subrange(0, plan.glues@.len() as int) =~= plan.glues@);
    xml.start("CAffecterSourceSet", named_attrs("affecterSourceSet").as_slice());
    xml.start("carray_list", counted_attrs("_sources", number_text(plan.glues.len() as u64)).as_slice());
    write_refs(xml, "CGlueSource", &refs);
    xml.end("carray_list");
    xml.end("CAffecterSourceSet");
    assert(xml@.output =~= start + affecter_set_xml(old(xml)@.depth, *plan));
}

/// The part set at depth `d`: the root part's source, then every planned
/// part's.
pub open spec fn part_set_xml(d: nat, plan: ProjectPlan) -> Seq<u8> {
    let refs = seq![plan.root_part.source] + part_sources(plan.parts@);
    source_set_xml(
        d,
        "CPartSourceSet"@,
        "partSourceSet"@,
        plan.parts@.len() + 1,
        refs_xml(d + 2, "CPartSource"@, refs, refs.len() as int),
    )
}

/// Writes the part set.
pub fn write_part_set(xml: &mut XmlWriter, plan: &ProjectPlan)
    requires
        old(xml)@.depth + 2 < usize::MAX,
        plan.parts@.len() < usize::MAX,
    ensures
        final(xml)@ == (XmlWriterView { output: old(xml)@.output + part_set_xml(old(xml)@.depth, *plan), depth: old(xml)@.depth }),
{
    let ghost start = xml@.output;
    let mut refs: Vec<RefId> = Vec::new();
    refs.push(plan.root_part.source);
    let mut i: usize = 0;
    while i < plan.parts.len()
        invariant
            i <= plan.parts@.len(),
            refs@ == seq![plan.root_part.source] + part_sources(plan.parts@.subrange(0, i as int)),
        decreases plan.parts@.len() - i,
    {
        refs.push(plan.parts[i].source);
        i = i + 1;
        assert(refs@ =~= seq![plan.root_part.source] + part_sources(plan.parts@.subrange(0, i as int)));
    }
    assert(plan.parts@.subrange(0, plan.parts@.len() as int) =~= plan.parts@);
    xml.start("CPartSourceSet", named_attrs("partSourceSet").as_slice());
    xml.start("carray_list", counted_attrs("_sources", number_text(plan.parts.len() as u64 + 1)).as_slice());
    write_refs(xml, "CPartSource", &refs);
    xml.end("carray_list");
    xml.end("CPartSourceSet");
    assert(xml@.output =~= start + part_set_xml(old(xml)@.depth, *plan));
}

/// The tag of a deformer's source, by its kind.
pub open spec fn deformer_source_tag(d: DeformerModel) -> Seq<char> {
    match d {
        DeformerModel::Warp(_) => "CWarpDeformerSource"@,
        DeformerModel::Rotation(_) => "CRotationDeformerSource"@,
    }
}

/// References to the sources of the first `n` deformers, each under the
/// tag of its kind.
pub open spec fn deformer_refs_xml(d: nat, deformers: Seq<DeformerModel>, plans: Seq<DeformerPlan>, n: int) -> Seq<u8>
    decreases n,
{
    if n <= 0 {
        Seq::empty()
    } else {
        deformer_refs_xml(d, deformers, plans, n - 1) + empty_line(
            d,
            deformer_source_tag(deformers[n - 1]),
            seq![("xs.ref"@, ref_text(plans[n - 1].source))],
        )
    }
}

/// The deformer set at depth `d`: the source of every planned deformer,
/// listed with the count of the plans.
pub open spec fn deformer_set_xml(d: nat, plan: ProjectPlan, deformers: Seq<DeformerModel>) -> Seq<u8> {
    source_set_xml(
        d,
        "CDeformerSourceSet"@,
        "deformerSourceSet"@,
        plan.deformers@.len(),
        deformer_refs_xml(d + 2, deformers, plan.deformers@, shorter(deformers.len(), plan.deformers@.len())),
    )
}

/// Writes the deformer set.
pub fn write_deformer_set(xml: &mut XmlWriter, plan: &ProjectPlan, model: &Moc3Model)
    requires
        old(xml)@.depth + 2 < usize::MAX,
    ensures
        final(xml)@ == (XmlWriterView {
            output: old(xml)@.output + deformer_set_xml(old(xml)@.depth, *plan, model@.deformers),
            depth: old(xml)@.depth,
        }),
{
    let ghost d = xml@.depth;
    let ghost start = xml@.output;
    let deformers = model.deformers();
    assert(deformer_views(deformers@) == model@.deformers);
    xml.start("CDeformerSourceSet", named_attrs("deformerSourceSet").as_slice());
    xml.start("carray_list", counted_attrs("_sources", number_text(plan.deformers.len() as u64)).as_slice());
    let ghost list_start = xml@.output;
    let n = if deformers.len() <= plan.deformers.len() {
        deformers.len()
    } else {
        plan.deformers.len()
    };
    let mut i: usize = 0;
    while i < n
        invariant
            i <= n,
            n == shorter(model@.deformers.len(), plan.deformers@.len()),
            deformer_views(deformers@) == model@.deformers,
            xml@.depth == d + 2,
            xml@.output == list_start + deformer_refs_xml(d + 2, model@.deformers, plan.deformers@, i as int),
        decreases n - i,
    {
        assert(model@.deformers[i as int] == deformers@[i as int]@);
        let tag = match &deformers[i] {
            Deformer::Warp(_) => "CWarpDeformerSource",
            Deformer::Rotation(_) => "CRotationDeformerSource",
        };
        reference_without_name(xml, tag, plan.deformers[i].source);
        i = i + 1;
    }
    xml.end("carray_list");
    xml.end("CDeformerSourceSet");
    assert(xml@.output =~= start + deformer_set_xml(d, *plan, model@.deformers));
}

/// The model info at depth `d`, with the given texts of its pixels per
/// unit and of its origin in pixels.
#[verifier::opaque]
pub open spec fn model_info_xml(d: nat, pixels_per_unit: Seq<char>, x: Seq<char>, y: Seq<char>) -> Seq<u8> {
    start_line(d, "CModelInfo"@, named("modelInfo"@)) + text_line(d + 1, "f"@, named("pixelsPerUnit"@), pixels_per_unit)
        + start_line(d + 1, "CPoint"@, named("originInPixels"@)) + text_line(d + 2, "i"@, named("x"@), x) + text_line(
        d + 2,
        "i"@,
        named("y"@),
        y,
    ) + end_line(d + 1, "CPoint"@) + end_line(d, "CModelInfo"@)
}

/// Writes the model info; the values are given as texts.
pub fn write_model_info(xml: &mut XmlWriter, pixels_per_unit: &str, x: &str, y: &str)
    requires
        old(xml)@.depth + 1 < usize::MAX,
    ensures
        final(xml)@ == (XmlWriterView {
            output: old(xml)@.output + model_info_xml(old(xml)@.depth, pixels_per_unit@, x@, y@),
            depth: old(xml)@.depth,
        }),
{
    let ghost start = xml@.output;
    xml.start("CModelInfo", named_attrs("modelInfo").as_slice());
    xml.text("f", named_attrs("pixelsPerUnit").as_slice(), pixels_per_unit);
    xml.start("CPoint", named_attrs("originInPixels").as_slice());
    xml.text("i", named_attrs("x").as_slice(), x);
    xml.text("i", named_attrs("y").as_slice(), y);
    xml.end("CPoint");
    xml.end("CModelInfo");
    reveal(model_info_xml);
    assert(xml@.output =~= start + model_info_xml(old(xml)@.depth, pixels_per_unit@, x@, y@));
}

/// The texts of the document's floating-point values, written by the
/// caller: the canvas's pixel size, each parameter's minimum, maximum and
/// default, the pixels per unit and the origin in pixels.
pub struct DocumentTexts {
    pub width: String,
    pub height: String,
    pub parameter_values: Vec<(String, String, String)>,
    pub pixels_per_unit: String,
    pub origin_x: String,
    pub origin_y: String,
}

/// The head of the model source at depth `d`: its identifier, its name and
/// the editor edition.
#[verifier::opaque]
pub open spec fn main_head_xml(d: nat, plan: ProjectPlan, model_name: Seq<char>) -> Seq<u8> {
    start_line(d, "CModelSource"@, seq![("isDefaultKeyformLocked"@, "false"@)]) + empty_line(
        d + 1,
        "CModelGuid"@,
        ref_attrs("guid"@, plan.model_guid),
    ) + text_line(d + 1, "s"@, named("name"@), model_name) + start_line(d + 1, "EditorEdition"@, named("editorEdition"@))
        + text_line(d + 2, "i"@, named("edition"@), "15"@) + end_line(d + 1, "EditorEdition"@)
}

/// Writes the head of the model source; the source stays open.
#[verifier::spinoff_prover]
fn write_main_head(xml: &mut XmlWriter, plan: &ProjectPlan, model_name: &str)
    requires
        old(xml)@.depth + 2 < usize::MAX,
    ensures
        final(xml)@ == (XmlWriterView {
            output: old(xml)@.output + main_head_xml(old(xml)@.depth, *plan, model_name@),
            depth: old(xml)@.depth + 1,
        }),
{
    let ghost start = xml@.output;
    let mut locked: Vec<Attr> = Vec::new();
    locked.push(attr("isDefaultKeyformLocked", String::from_str("false")));
    assert(attr_views(locked@) =~= seq![("isDefaultKeyformLocked"@, "false"@)]);
    xml.start("CModelSource", locked.as_slice());
    reference(xml, "CModelGuid", "guid", plan.model_guid);
    xml.text("s", named_attrs("name").as_slice(), model_name);
    xml.start("EditorEdition", named_attrs("editorEdition").as_slice());
    xml.text("i", named_attrs("edition").as_slice(), "15");
    xml.end("EditorEdition");
    reveal(main_head_xml);
    assert(xml@.output =~= start + main_head_xml(old(xml)@.depth, *plan, model_name@));
}

/// The empty parameter-group set at depth `d`.
pub open spec fn group_set_xml(d: nat) -> Seq<u8> {
    start_line(d, "CParameterGroupSet"@, named("parameterGroupSet"@)) + empty_line(
        d + 1,
        "carray_list"@,
        counted("_groups"@, "0"@),
    ) + end_line(d, "CParameterGroupSet"@)
}

/// The sets of the model source at depth `d`: its drawables, deformers,
/// glues and parts, then its root part.
#[verifier::opaque]
pub open spec fn main_sets_xml(d: nat, plan: ProjectPlan, m: Moc3ModelView) -> Seq<u8> {
    drawable_set_xml(d, plan) + deformer_set_xml(d, plan, m.deformers) + affecter_set_xml(d, plan) + part_set_xml(d, plan)
        + empty_line(d, "CPartSource"@, ref_attrs("rootPart"@, plan.root_part.source))
}

/// Writes the sets of the model source and its root part.
#[verifier::spinoff_prover]
fn write_main_sets(xml: &mut XmlWriter, plan: &ProjectPlan, model: &Moc3Model)
    requires
        old(xml)@.depth + 2 < usize::MAX,
        plan.parts@.len() < usize::MAX,
    ensures
        final(xml)@ == (XmlWriterView { output: old(xml)@.output + main_sets_xml(old(xml)@.depth, *plan, model@), depth: old(xml)@.depth }),
{
    let ghost start = xml@.output;
    write_drawable_set(xml, plan);
    write_deformer_set(xml, plan, model);
    write_affecter_set(xml, plan);
    write_part_set(xml, plan);
    reference(xml, "CPartSource", "rootPart", plan.root_part.source);
    reveal(main_sets_xml);
    assert(xml@.output =~= start + main_sets_xml(old(xml)@.depth, *plan, model@));
}

/// The tail of the model source at depth `d`: no parameter groups, the
/// model info and the version numbers.
#[verifier::opaque]
pub open spec fn main_tail_xml(d: nat, pixels_per_unit: Seq<char>, x: Seq<char>, y: Seq<char>) -> Seq<u8> {
    group_set_xml(d) + model_info_xml(d, pixels_per_unit, x, y) + text_line(d, "i"@, named("targetVersionNo"@), "3000"@)
        + text_line(d, "i"@, named("latestVersionOfLastModelerNo"@), "5000000"@)
}

/// Writes the tail of the model source.
#[verifier::spinoff_prover]
fn write_main_tail(xml: &mut XmlWriter, pixels_per_unit: &str, x: &str, y: &str)
    requires
        old(xml)@.depth + 2 < usize::MAX,
    ensures
        final(xml)@ == (XmlWriterView {
            output: old(xml)@.output + main_tail_xml(old(xml)@.depth, pixels_per_unit@, x@, y@),
            depth: old(xml)@.depth,
        }),
{
    let ghost start = xml@.output;
    xml.start("CParameterGroupSet", named_attrs("parameterGroupSet").as_slice());
    xml.empty("carray_list", counted_attrs("_groups", String::from_str("0")).as_slice());
    xml.end("CParameterGroupSet");
    write_model_info(xml, pixels_per_unit, x, y);
    xml.text("i", named_attrs("targetVersionNo").as_slice(), "3000");
    xml.text("i", named_attrs("latestVersionOfLastModelerNo").as_slice(), "5000000");
    reveal(main_tail_xml);
    assert(xml@.output =~= start + main_tail_xml(old(xml)@.depth, pixels_per_unit@, x@, y@));
}

/// The model source at the root of the document, at depth `d`.
pub open spec fn main_xml(
    d: nat,
    plan: ProjectPlan,
    m: Moc3ModelView,
    model_name: Seq<char>,
    width: Seq<char>,
    height: Seq<char>,
    values: Seq<(Seq<char>, Seq<char>, Seq<char>)>,
    pixels_per_unit: Seq<char>,
    x: Seq<char>,
    y: Seq<char>,
) -> Seq<u8> {
    main_head_xml(d, plan, model_name) + canvas_xml(d + 1, width, height) + parameters_xml(d + 1, plan, m.parameters, values)
        + texture_manager_xml(d + 1, plan) + text_line(d + 1, "b"@, named("useLegacyDrawOrder__testImpl"@), "false"@)
        + main_sets_xml(d + 1, plan, m) + main_tail_xml(d + 1, pixels_per_unit, x, y) + end_line(d, "CModelSource"@)
}

/// Writes the model source at the root of the document: its identifier and
/// name, canvas, parameters, texture manager, the sets of its drawables,
/// deformers, glues and parts, its root part and its model info, with the
/// floating-point values as `texts` gives them.
#[verifier::spinoff_prover]
pub fn write_main(xml: &mut XmlWriter, plan: &ProjectPlan, model: &Moc3Model, model_name: &str, texts: &DocumentTexts)
    requires
        old(xml)@.depth + 5 < usize::MAX,
        texts.parameter_values@.len() == model@.parameters.len(),
        plan.parts@.len() < usize::MAX,
    ensures
        final(xml)@ == (XmlWriterView {
            output: old(xml)@.output + main_xml(
                old(xml)@.depth,
                *plan,
                model@,
                model_name@,
                texts.width@,
                texts.height@,
                value_text_views(texts.parameter_values@),
                texts.pixels_per_unit@,
                texts.origin_x@,
                texts.origin_y@,
            ),
            depth: old(xml)@.depth,
        }),
{
    let ghost start = xml@.output;
    write_main_head(xml, plan, model_name);
    write_canvas(xml, texts.width.as_str(), texts.height.as_str());
    write_parameters(xml, plan, model, &texts.parameter_values);
    write_texture_manager(xml, plan);
    xml.text("b", named_attrs("useLegacyDrawOrder__testImpl").as_slice(), "false");
    write_main_sets(xml, plan, model);
    write_main_tail(xml, texts.pixels_per_unit.as_str(), texts.origin_x.as_str(), texts.origin_y.as_str());
    xml.end("CModelSource");
    assert(xml@.output =~= start + main_xml(
        old(xml)@.depth,
        *plan,
        model@,
        model_name@,
        texts.width@,
        texts.height@,
        value_text_views(texts.parameter_values@),
        texts.pixels_per_unit@,
        texts.origin_x@,
        texts.origin_y@,
    ));
}

} // verus!
