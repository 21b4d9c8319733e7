//! The identifier objects of the editor document: one per parameter, part,
//! deformer, mesh, glue and keyform, each under its own random identifier,
//! and the two shared objects every form refers to.

use vstd::prelude::*;

use super::grid::{decimal_text, shared_attrs, start_shared};
use super::images::{named, named_attrs, random_uuid, uuid_text};
use super::plan::{GridPlan, MeshPlan, ProjectPlan, RefId};
use super::structure::shorter;
use super::xml::{attr, attr_views, empty_line, end_line, start_line, text_line, Attr, XmlWriter, XmlWriterView};
use crate::moc3::{mesh_views, parameter_views, part_views, Moc3Model, Moc3ModelView};
use crate::text::number_text;

verus! {

/// An identifier object with its identifier text and note, at depth `d`.
pub open spec fn guid_xml(d: nat, tag: Seq<char>, id: RefId, uuid: Seq<char>, note: Seq<char>) -> Seq<u8> {
    empty_line(d, tag, seq![("uuid"@, uuid), ("note"@, note)] + shared_attrs(id))
}

/// Writes an identifier object with its identifier text and note.
pub fn write_guid(xml: &mut XmlWriter, tag: &str, id: RefId, uuid: &str, note: &str)
    ensures
        final(xml)@ == (XmlWriterView {
            output: old(xml)@.output + guid_xml(old(xml)@.depth, tag@, id, uuid@, note@),
            depth: old(xml)@.depth,
        }),
{
    let mut attrs: Vec<Attr> = Vec::new();
    attrs.push(attr("uuid", String::from_str(uuid)));
    attrs.push(attr("note", String::from_str(note)));
    assert(attr_views(attrs@) =~= seq![("uuid"@, uuid@), ("note"@, note@)]);
    super::grid::empty_shared(xml, tag, id, attrs);
}

/// The note of keyform `index` of `owner`.
pub open spec fn form_note(owner: Seq<char>, index: nat) -> Seq<char> {
    owner + " keyform "@ + decimal_text(index)
}

/// The identifiers of the first `n` keyforms of a grid, keyform `k` under
/// `uuids[k]`.
pub open spec fn form_guids_xml(d: nat, forms: Seq<RefId>, owner: Seq<char>, uuids: Seq<Seq<char>>, n: int) -> Seq<u8>
    decreases n,
{
    if n <= 0 {
        Seq::empty()
    } else {
        form_guids_xml(d, forms, owner, uuids, n - 1) + guid_xml(
            d,
            "CFormGuid"@,
            forms[n - 1],
            uuids[n - 1],
            form_note(owner, (n - 1) as nat),
        )
    }
}

/// Writes the identifiers of a grid's keyforms; `uuids[k]` is keyform
/// `k`'s.
fn write_form_guids(xml: &mut XmlWriter, grid: &GridPlan, owner: &str, uuids: &[String])
    requires
        uuids@.len() >= grid.forms@.len(),
    ensures
        final(xml)@ == (XmlWriterView {
            output: old(xml)@.output + form_guids_xml(
                old(xml)@.depth,
                grid.forms@,
                owner@,
                uuids@.map_values(|s: String| s@),
                grid.forms@.len() as int,
            ),
            depth: old(xml)@.depth,
        }),
{
    let ghost start = xml@.output;
    let ghost uv = uuids@.map_values(|s: String| s@);
    let mut k: usize = 0;
    while k < grid.forms.len()
        invariant
            k <= grid.forms@.len(),
            uuids@.len() >= grid.forms@.len(),
            uv == uuids@.map_values(|s: String| s@),
            xml@.depth == old(xml)@.depth,
            xml@.output == start + form_guids_xml(old(xml)@.depth, grid.forms@, owner@, uv, k as int),
        decreases grid.forms@.len() - k,
    {
        let note = String::from_str(owner).concat(" keyform ").concat(number_text(k as u64).as_str());
        write_guid(xml, "CFormGuid", grid.forms[k], uuids[k].as_str(), note.as_str());
        k = k + 1;
    }
}

/// An object's identifier under `uuids[0]` with the note `note`, then its
/// keyforms' under the rest, noted after `owner`.
pub open spec fn object_guids_xml(d: nat, tag: Seq<char>, id: RefId, note: Seq<char>, owner: Seq<char>, grid: GridPlan, uuids: Seq<Seq<char>>) -> Seq<u8> {
    guid_xml(d, tag, id, uuids[0], note) + form_guids_xml(
        d,
        grid.forms@,
        owner,
        uuids.subrange(1, uuids.len() as int),
        grid.forms@.len() as int,
    )
}

/// Writes an object's identifier and its keyforms'.
fn write_object_guids(xml: &mut XmlWriter, tag: &str, id: RefId, note: &str, owner: &str, grid: &GridPlan, uuids: &Vec<String>)
    requires
        uuids@.len() >= 1 + grid.forms@.len(),
    ensures
        final(xml)@ == (XmlWriterView {
            output: old(xml)@.output + object_guids_xml(
                old(xml)@.depth,
                tag@,
                id,
                note@,
                owner@,
                *grid,
                uuids@.map_values(|s: String| s@),
            ),
            depth: old(xml)@.depth,
        }),
{
    let ghost start = xml@.output;
    write_guid(xml, tag, id, uuids[0].as_str(), note);
    let rest = vstd::slice::slice_subrange(uuids.as_slice(), 1, uuids.len());
    write_form_guids(xml, grid, owner, rest);
    assert(rest@.map_values(|s: String| s@) =~= uuids@.map_values(|s: String| s@).subrange(1, uuids@.len() as int));
    assert(xml@.output =~= start + object_guids_xml(
        old(xml)@.depth,
        tag@,
        id,
        note@,
        owner@,
        *grid,
        uuids@.map_values(|s: String| s@),
    ));
}

/// The identifiers of a mesh: the drawable's, its editable mesh's, its
/// three extensions', then its keyforms', under `uuids` in that order.
pub open spec fn mesh_guids_xml(d: nat, plan: MeshPlan, id: Seq<char>, uuids: Seq<Seq<char>>) -> Seq<u8> {
    guid_xml(d, "CDrawableGuid"@, plan.guid, uuids[0], id) + guid_xml(d, "GEditableMeshGuid"@, plan.editable_mesh_guid, uuids[1], id)
        + guid_xml(d, "CExtensionGuid"@, plan.editable_extension_guid, uuids[2], id + " editable mesh"@) + guid_xml(
        d,
        "CExtensionGuid"@,
        plan.generator_extension_guid,
        uuids[3],
        id + " mesh generator"@,
    ) + guid_xml(d, "CExtensionGuid"@, plan.texture_extension_guid, uuids[4], id + " texture input"@) + form_guids_xml(
        d,
        plan.grid.forms@,
        id,
        uuids.subrange(5, uuids.len() as int),
        plan.grid.forms@.len() as int,
    )
}

/// Writes the identifiers of a mesh.
fn write_mesh_guids(xml: &mut XmlWriter, plan: &MeshPlan, id: &str, uuids: &Vec<String>)
    requires
        uuids@.len() >= 5 + plan.grid.forms@.len(),
    ensures
        final(xml)@ == (XmlWriterView {
            output: old(xml)@.output + mesh_guids_xml(old(xml)@.depth, *plan, id@, uuids@.map_values(|s: String| s@)),
            depth: old(xml)@.depth,
        }),
{
    let ghost start = xml@.output;
    write_guid(xml, "CDrawableGuid", plan.guid, uuids[0].as_str(), id);
    write_guid(xml, "GEditableMeshGuid", plan.editable_mesh_guid, uuids[1].as_str(), id);
    let editable = String::from_str(id).concat(" editable mesh");
    write_guid(xml, "CExtensionGuid", plan.editable_extension_guid, uuids[2].as_str(), editable.as_str());
    let generator = String::from_str(id).concat(" mesh generator");
    write_guid(xml, "CExtensionGuid", plan.generator_extension_guid, uuids[3].as_str(), generator.as_str());
    let texture = String::from_str(id).concat(" texture input");
    write_guid(xml, "CExtensionGuid", plan.texture_extension_guid, uuids[4].as_str(), texture.as_str());
    let rest = vstd::slice::slice_subrange(uuids.as_slice(), 5, uuids.len());
    write_form_guids(xml, &plan.grid, id, rest);
    assert(rest@.map_values(|s: String| s@) =~= uuids@.map_values(|s: String| s@).subrange(5, uuids@.len() as int));
    assert(xml@.output =~= start + mesh_guids_xml(old(xml)@.depth, *plan, id@, uuids@.map_values(|s: String| s@)));
}

/// The identifier texts drawn for the document's objects, one list per
/// object in the order its identifiers are written.
pub struct Identifiers {
    pub model: String,
    pub parameters: Vec<String>,
    pub root_part: Vec<String>,
    pub parts: Vec<Vec<String>>,
    pub deformers: Vec<Vec<String>>,
    pub meshes: Vec<Vec<String>>,
    pub glues: Vec<Vec<String>>,
}

/// The texts of a list of identifiers.
pub open spec fn texts(v: Seq<String>) -> Seq<Seq<char>> {
    v.map_values(|s: String| s@)
}

/// The texts of each list of identifiers.
pub open spec fn text_lists(v: Seq<Vec<String>>) -> Seq<Seq<Seq<char>>> {
    v.map_values(|l: Vec<String>| texts(l@))
}

/// Whether `ids` holds enough identifiers for every object of the plan and
/// model.
pub open spec fn identifiers_fit(ids: Identifiers, plan: ProjectPlan, m: Moc3ModelView) -> bool {
    &&& ids.parameters@.len() >= shorter(m.parameters.len(), plan.parameters@.len())
    &&& ids.root_part@.len() >= 1 + plan.root_part.grid.forms@.len()
    &&& ids.parts@.len() >= shorter(m.parts.len(), plan.parts@.len())
    &&& forall|i: int| 0 <= i < shorter(m.parts.len(), plan.parts@.len()) ==> (#[trigger] ids.parts@[i])@.len() >= 1 + plan.parts@[i].grid.forms@.len()
    &&& ids.deformers@.len() >= plan.deformers@.len()
    &&& forall|i: int| 0 <= i < plan.deformers@.len() ==> (#[trigger] ids.deformers@[i])@.len() >= 1 + plan.deformers@[i].grid.forms@.len()
    &&& ids.meshes@.len() >= shorter(m.art_meshes.len(), plan.meshes@.len())
    &&& forall|i: int| 0 <= i < shorter(m.art_meshes.len(), plan.meshes@.len()) ==> (#[trigger] ids.meshes@[i])@.len() >= 5 + plan.meshes@[i].grid.forms@.len()
    &&& ids.glues@.len() >= plan.glues@.len()
    &&& forall|i: int| 0 <= i < plan.glues@.len() ==> (#[trigger] ids.glues@[i])@.len() >= 1 + plan.glues@[i].grid.forms@.len()
}

/// The identifiers of the first `n` parameters, parameter `i` under
/// `uuids[i]` and noted by its name.
pub open spec fn parameter_guids_xml(d: nat, m: Moc3ModelView, plan: ProjectPlan, uuids: Seq<Seq<char>>, n: int) -> Seq<u8>
    decreases n,
{
    if n <= 0 {
        Seq::empty()
    } else {
        parameter_guids_xml(d, m, plan, uuids, n - 1) + guid_xml(
            d,
            "CParameterGuid"@,
            plan.parameters@[n - 1].guid,
            uuids[n - 1],
            m.parameters[n - 1].id,
        )
    }
}

/// The identifiers of the first `n` parts, each noted by its name.
pub open spec fn part_guids_xml(d: nat, m: Moc3ModelView, plan: ProjectPlan, uuids: Seq<Seq<Seq<char>>>, n: int) -> Seq<u8>
    decreases n,
{
    if n <= 0 {
        Seq::empty()
    } else {
        let id = m.parts[n - 1].id;
        part_guids_xml(d, m, plan, uuids, n - 1) + object_guids_xml(
            d,
            "CPartGuid"@,
            plan.parts@[n - 1].guid,
            id,
            id,
            plan.parts@[n - 1].grid,
            uuids[n - 1],
        )
    }
}

/// The identifiers of the first `n` deformers or glues, each noted as
/// `word` and its number.
pub open spec fn numbered_guids_xml(
    d: nat,
    tag: Seq<char>,
    word: Seq<char>,
    guids: Seq<RefId>,
    grids: Seq<GridPlan>,
    uuids: Seq<Seq<Seq<char>>>,
    n: int,
) -> Seq<u8>
    decreases n,
{
    if n <= 0 {
        Seq::empty()
    } else {
        let name = word + decimal_text((n - 1) as nat);
        numbered_guids_xml(d, tag, word, guids, grids, uuids, n - 1) + object_guids_xml(
            d,
            tag,
            guids[n - 1],
            name,
            name,
            grids[n - 1],
            uuids[n - 1],
        )
    }
}

/// The identifiers of the first `n` meshes.
pub open spec fn mesh_list_guids_xml(d: nat, m: Moc3ModelView, plan: ProjectPlan, uuids: Seq<Seq<Seq<char>>>, n: int) -> Seq<u8>
    decreases n,
{
    if n <= 0 {
        Seq::empty()
    } else {
        mesh_list_guids_xml(d, m, plan, uuids, n - 1) + mesh_guids_xml(d, plan.meshes@[n - 1], m.art_meshes[n - 1].id, uuids[n - 1])
    }
}

/// The two shared objects every form refers to: the deformer-local
/// coordinate type and the normal blend, at depth `d`.
#[verifier::opaque]
pub open spec fn shared_objects_xml(d: nat, plan: ProjectPlan) -> Seq<u8> {
    start_line(d, "CoordType"@, shared_attrs(plan.coord_type)) + text_line(d + 1, "s"@, named("coordName"@), "DeformerLocal"@)
        + end_line(d, "CoordType"@) + start_line(d, "CBlend_Normal"@, shared_attrs(plan.blend_normal)) + start_line(
        d + 1,
        "ACBlend"@,
        named("super"@),
    ) + text_line(d + 2, "s"@, named("displayName"@), "Normal"@) + end_line(d + 1, "ACBlend"@) + end_line(
        d,
        "CBlend_Normal"@,
    )
}

/// Writes the coordinate type and blend every form refers to.
#[verifier::spinoff_prover]
fn write_shared_objects(xml: &mut XmlWriter, plan: &ProjectPlan)
    requires
        old(xml)@.depth + 2 < usize::MAX,
    ensures
        final(xml)@ == (XmlWriterView { output: old(xml)@.output + shared_objects_xml(old(xml)@.depth, *plan), depth: old(xml)@.depth }),
{
    let ghost start = xml@.output;
    start_shared(xml, "CoordType", plan.coord_type);
    xml.text("s", named_attrs("coordName").as_slice(), "DeformerLocal");
    xml.end("CoordType");
    start_shared(xml, "CBlend_Normal", plan.blend_normal);
    xml.start("ACBlend", named_attrs("super").as_slice());
    xml.text("s", named_attrs("displayName").as_slice(), "Normal");
    xml.end("ACBlend");
    xml.end("CBlend_Normal");
    reveal(shared_objects_xml);
    assert(xml@.output =~= start + shared_objects_xml(old(xml)@.depth, *plan));
}

/// The guids of the planned deformers.
pub open spec fn deformer_guids(plan: ProjectPlan) -> Seq<RefId> {
    plan.deformers@.map_values(|p: super::plan::DeformerPlan| p.guid)
}

/// The grids of the planned deformers.
pub open spec fn deformer_grids(plan: ProjectPlan) -> Seq<GridPlan> {
    plan.deformers@.map_values(|p: super::plan::DeformerPlan| p.grid)
}

/// The guids of the planned glues.
pub open spec fn glue_guids(plan: ProjectPlan) -> Seq<RefId> {
    plan.glues@.map_values(|p: super::plan::GluePlan| p.guid)
}

/// The grids of the planned glues.
pub open spec fn glue_grids(plan: ProjectPlan) -> Seq<GridPlan> {
    plan.glues@.map_values(|p: super::plan::GluePlan| p.grid)
}

/// Every identifier object of the document at depth `d`: the root
/// parameter group, the model and the root deformer, the shared objects,
/// then the parameters, the root part, the parts, deformers, meshes and
/// glues with their keyforms.
pub open spec fn identifiers_xml(
    d: nat,
    plan: ProjectPlan,
    m: Moc3ModelView,
    group_uuid: Seq<char>,
    deformer_uuid: Seq<char>,
    ids: Identifiers,
) -> Seq<u8> {
    identifier_heads_xml(d, plan, m, group_uuid, deformer_uuid, ids) + identifier_objects_xml(d, plan, m, ids)
}

/// The root parameter group, the model and the root deformer, the shared
/// objects and the parameters at depth `d`.
pub open spec fn identifier_heads_xml(
    d: nat,
    plan: ProjectPlan,
    m: Moc3ModelView,
    group_uuid: Seq<char>,
    deformer_uuid: Seq<char>,
    ids: Identifiers,
) -> Seq<u8> {
    guid_xml(d, "CParameterGroupGuid"@, plan.parameter_group_guid, group_uuid, "Parameter root"@) + guid_xml(
        d,
        "CModelGuid"@,
        plan.model_guid,
        ids.model@,
        "Decompiled model"@,
    ) + guid_xml(d, "CDeformerGuid"@, plan.root_deformer_guid, deformer_uuid, "ROOT"@) + shared_objects_xml(d, plan)
        + parameter_guids_xml(d, m, plan, texts(ids.parameters@), shorter(m.parameters.len(), plan.parameters@.len()))
}

/// The root part, the parts, deformers, meshes and glues with their
/// keyforms at depth `d`.
pub open spec fn identifier_objects_xml(d: nat, plan: ProjectPlan, m: Moc3ModelView, ids: Identifiers) -> Seq<u8> {
    object_guids_xml(d, "CPartGuid"@, plan.root_part.guid, "__RootPart__"@, "Root Part"@, plan.root_part.grid, texts(ids.root_part@))
        + part_guids_xml(d, m, plan, text_lists(ids.parts@), shorter(m.parts.len(), plan.parts@.len())) + numbered_guids_xml(
        d,
        "CDeformerGuid"@,
        "Deformer"@,
        deformer_guids(plan),
        deformer_grids(plan),
        text_lists(ids.deformers@),
        plan.deformers@.len() as int,
    ) + mesh_list_guids_xml(d, m, plan, text_lists(ids.meshes@), shorter(m.art_meshes.len(), plan.meshes@.len()))
        + numbered_guids_xml(
        d,
        "CAffecterGuid"@,
        "Glue"@,
        glue_guids(plan),
        glue_grids(plan),
        text_lists(ids.glues@),
        plan.glues@.len() as int,
    )
}

/// Writes the identifiers of the planned parameters.
fn write_parameter_guids(xml: &mut XmlWriter, plan: &ProjectPlan, model: &Moc3Model, uuids: &Vec<String>)
    requires
        uuids@.len() >= shorter(model@.parameters.len(), plan.parameters@.len()),
    ensures
        final(xml)@ == (XmlWriterView {
            output: old(xml)@.output + parameter_guids_xml(
                old(xml)@.depth,
                model@,
                *plan,
                texts(uuids@),
                shorter(model@.parameters.len(), plan.parameters@.len()),
            ),
            depth: old(xml)@.depth,
        }),
{
    let ghost start = xml@.output;
    let parameters = model.parameters();
    assert(parameter_views(parameters@) == model@.parameters);
    let n = if parameters.len() <= plan.parameters.len() {
        parameters.len()
    } else {
        plan.parameters.len()
    };
    let mut i: usize = 0;
    while i < n
        invariant
            i <= n,
            n == shorter(model@.parameters.len(), plan.parameters@.len()),
            uuids@.len() >= n,
            parameter_views(parameters@) == model@.parameters,
            xml@.depth == old(xml)@.depth,
            xml@.output == start + parameter_guids_xml(old(xml)@.depth, model@, *plan, texts(uuids@), i as int),
        decreases n - i,
    {
        assert(model@.parameters[i as int] == parameters@[i as int]@);
        write_guid(xml, "CParameterGuid", plan.parameters[i].guid, uuids[i].as_str(), parameters[i].id());
        i = i + 1;
    }
}

/// Writes the identifiers of the planned parts.
fn write_part_guids(xml: &mut XmlWriter, plan: &ProjectPlan, model: &Moc3Model, uuids: &Vec<Vec<String>>)
    requires
        uuids@.len() >= shorter(model@.parts.len(), plan.parts@.len()),
        forall|i: int|
            0 <= i < shorter(model@.parts.len(), plan.parts@.len()) ==> (#[trigger] uuids@[i])@.len() >= 1
                + plan.parts@[i].grid.forms@.len(),
    ensures
        final(xml)@ == (XmlWriterView {
            output: old(xml)@.output + part_guids_xml(
                old(xml)@.depth,
                model@,
                *plan,
                text_lists(uuids@),
                shorter(model@.parts.len(), plan.parts@.len()),
            ),
            depth: old(xml)@.depth,
        }),
{
    let ghost start = xml@.output;
    let parts = model.parts();
    assert(part_views(parts@) == model@.parts);
    let n = if parts.len() <= plan.parts.len() {
        parts.len()
    } else {
        plan.parts.len()
    };
    let mut i: usize = 0;
    while i < n
        invariant
            i <= n,
            n == shorter(model@.parts.len(), plan.parts@.len()),
            uuids@.len() >= n,
            forall|j: int| 0 <= j < n ==> (#[trigger] uuids@[j])@.len() >= 1 + plan.parts@[j].grid.forms@.len(),
            part_views(parts@) == model@.parts,
            xml@.depth == old(xml)@.depth,
            xml@.output == start + part_guids_xml(old(xml)@.depth, model@, *plan, text_lists(uuids@), i as int),
        decreases n - i,
    {
        assert(model@.parts[i as int] == parts@[i as int]@);
        assert(uuids@[i as int]@.len() >= 1 + plan.parts@[i as int].grid.forms@.len());
        write_object_guids(xml, "CPartGuid", plan.parts[i].guid, parts[i].id(), parts[i].id(), &plan.parts[i].grid, &uuids[i]);
        i = i + 1;
    }
}

/// Writes the identifiers of the planned deformers.
fn write_deformer_guids(xml: &mut XmlWriter, plan: &ProjectPlan, uuids: &Vec<Vec<String>>)
    requires
        uuids@.len() >= plan.deformers@.len(),
        forall|i: int| 0 <= i < plan.deformers@.len() ==> (#[trigger] uuids@[i])@.len() >= 1 + plan.deformers@[i].grid.forms@.len(),
    ensures
        final(xml)@ == (XmlWriterView {
            output: old(xml)@.output + numbered_guids_xml(
                old(xml)@.depth,
                "CDeformerGuid"@,
                "Deformer"@,
                deformer_guids(*plan),
                deformer_grids(*plan),
                text_lists(uuids@),
                plan.deformers@.len() as int,
            ),
            depth: old(xml)@.depth,
        }),
{
    let ghost start = xml@.output;
    let mut i: usize = 0;
    while i < plan.deformers.len()
        invariant
            i <= plan.deformers@.len(),
            uuids@.len() >= plan.deformers@.len(),
            forall|j: int| 0 <= j < plan.deformers@.len() ==> (#[trigger] uuids@[j])@.len() >= 1 + plan.deformers@[j].grid.forms@.len(),
            xml@.depth == old(xml)@.depth,
            xml@.output == start + numbered_guids_xml(
                old(xml)@.depth,
                "CDeformerGuid"@,
                "Deformer"@,
                deformer_guids(*plan),
                deformer_grids(*plan),
                text_lists(uuids@),
                i as int,
            ),
        decreases plan.deformers@.len() - i,
    {
        assert(uuids@[i as int]@.len() >= 1 + plan.deformers@[i as int].grid.forms@.len());
        let name = String::from_str("Deformer").concat(number_text(i as u64).as_str());
        write_object_guids(xml, "CDeformerGuid", plan.deformers[i].guid, name.as_str(), name.as_str(), &plan.deformers[i].grid, &uuids[i]);
        i = i + 1;
    }
}

/// Writes the identifiers of the planned glues.
fn write_glue_guids(xml: &mut XmlWriter, plan: &ProjectPlan, uuids: &Vec<Vec<String>>)
    requires
        uuids@.len() >= plan.glues@.len(),
        forall|i: int| 0 <= i < plan.glues@.len() ==> (#[trigger] uuids@[i])@.len() >= 1 + plan.glues@[i].grid.forms@.len(),
    ensures
        final(xml)@ == (XmlWriterView {
            output: old(xml)@.output + numbered_guids_xml(
                old(xml)@.depth,
                "CAffecterGuid"@,
                "Glue"@,
                glue_guids(*plan),
                glue_grids(*plan),
                text_lists(uuids@),
                plan.glues@.len() as int,
            ),
            depth: old(xml)@.depth,
        }),
{
    let ghost start = xml@.output;
    let mut i: usize = 0;
    while i < plan.glues.len()
        invariant
            i <= plan.glues@.len(),
            uuids@.len() >= plan.glues@.len(),
            forall|j: int| 0 <= j < plan.glues@.len() ==> (#[trigger] uuids@[j])@.len() >= 1 + plan.glues@[j].grid.forms@.len(),
            xml@.depth == old(xml)@.depth,
            xml@.output == start + numbered_guids_xml(
                old(xml)@.depth,
                "CAffecterGuid"@,
                "Glue"@,
                glue_guids(*plan),
                glue_grids(*plan),
                text_lists(uuids@),
                i as int,
            ),
        decreases plan.glues@.len() - i,
    {
        assert(uuids@[i as int]@.len() >= 1 + plan.glues@[i as int].grid.forms@.len());
        let name = String::from_str("Glue").concat(number_text(i as u64).as_str());
        write_object_guids(xml, "CAffecterGuid", plan.glues[i].guid, name.as_str(), name.as_str(), &plan.glues[i].grid, &uuids[i]);
        i = i + 1;
    }
}

/// Writes the identifiers of the planned meshes.
fn write_mesh_list_guids(xml: &mut XmlWriter, plan: &ProjectPlan, model: &Moc3Model, uuids: &Vec<Vec<String>>)
    requires
        uuids@.len() >= shorter(model@.art_meshes.len(), plan.meshes@.len()),
        forall|i: int|
            0 <= i < shorter(model@.art_meshes.len(), plan.meshes@.len()) ==> (#[trigger] uuids@[i])@.len() >= 5
                + plan.meshes@[i].grid.forms@.len(),
    ensures
        final(xml)@ == (XmlWriterView {
            output: old(xml)@.output + mesh_list_guids_xml(
                old(xml)@.depth,
                model@,
                *plan,
                text_lists(uuids@),
                shorter(model@.art_meshes.len(), plan.meshes@.len()),
            ),
            depth: old(xml)@.depth,
        }),
{
    let ghost start = xml@.output;
    let meshes = model.art_meshes();
    assert(mesh_views(meshes@) == model@.art_meshes);
    let n = if meshes.len() <= plan.meshes.len() {
        meshes.len()
    } else {
        plan.meshes.len()
    };
    let mut i: usize = 0;
    while i < n
        invariant
            i <= n,
            n == shorter(model@.art_meshes.len(), plan.meshes@.len()),
            uuids@.len() >= n,
            forall|j: int| 0 <= j < n ==> (#[trigger] uuids@[j])@.len() >= 5 + plan.meshes@[j].grid.forms@.len(),
            mesh_views(meshes@) == model@.art_meshes,
            xml@.depth == old(xml)@.depth,
            xml@.output == start + mesh_list_guids_xml(old(xml)@.depth, model@, *plan, text_lists(uuids@), i as int),
        decreases n - i,
    {
        assert(model@.art_meshes[i as int] == meshes@[i as int]@);
        assert(uuids@[i as int]@.len() >= 5 + plan.meshes@[i as int].grid.forms@.len());
        write_mesh_guids(xml, &plan.meshes[i], meshes[i].id(), &uuids[i]);
        i = i + 1;
    }
}

/// Writes every identifier object of the document: `group_uuid` and
/// `deformer_uuid` are the editor's fixed identifiers of the root parameter
/// group and the root deformer, `ids` the identifiers of the other objects.
#[verifier::spinoff_prover]
pub fn write_identifiers_with(
    xml: &mut XmlWriter,
    plan: &ProjectPlan,
    model: &Moc3Model,
    group_uuid: &str,
    deformer_uuid: &str,
    ids: &Identifiers,
)
    requires
        old(xml)@.depth + 2 < usize::MAX,
        identifiers_fit(*ids, *plan, model@),
    ensures
        final(xml)@ == (XmlWriterView {
            output: old(xml)@.output + identifiers_xml(old(xml)@.depth, *plan, model@, group_uuid@, deformer_uuid@, *ids),
            depth: old(xml)@.depth,
        }),
{
    let ghost start = xml@.output;
    write_identifier_heads(xml, plan, model, group_uuid, deformer_uuid, ids);
    write_identifier_objects(xml, plan, model, ids);
    assert(xml@.output =~= start + identifiers_xml(old(xml)@.depth, *plan, model@, group_uuid@, deformer_uuid@, *ids));
}

/// Writes the root parameter group, the model and the root deformer, the
/// shared objects and the parameters.
#[verifier::spinoff_prover]
fn write_identifier_heads(
    xml: &mut XmlWriter,
    plan: &ProjectPlan,
    model: &Moc3Model,
    group_uuid: &str,
    deformer_uuid: &str,
    ids: &Identifiers,
)
    requires
        old(xml)@.depth + 2 < usize::MAX,
        identifiers_fit(*ids, *plan, model@),
    ensures
        final(xml)@ == (XmlWriterView {
            output: old(xml)@.output + identifier_heads_xml(old(xml)@.depth, *plan, model@, group_uuid@, deformer_uuid@, *ids),
            depth: old(xml)@.depth,
        }),
{
    let ghost start = xml@.output;
    write_guid(xml, "CParameterGroupGuid", plan.parameter_group_guid, group_uuid, "Parameter root");
    write_guid(xml, "CModelGuid", plan.model_guid, ids.model.as_str(), "Decompiled model");
    write_guid(xml, "CDeformerGuid", plan.root_deformer_guid, deformer_uuid, "ROOT");
    write_shared_objects(xml, plan);
    write_parameter_guids(xml, plan, model, &ids.parameters);
    assert(xml@.output =~= start + identifier_heads_xml(old(xml)@.depth, *plan, model@, group_uuid@, deformer_uuid@, *ids));
}

/// Writes the root part, the parts, deformers, meshes and glues with their
/// keyforms.
#[verifier::spinoff_prover]
fn write_identifier_objects(xml: &mut XmlWriter, plan: &ProjectPlan, model: &Moc3Model, ids: &Identifiers)
    requires
        old(xml)@.depth + 2 < usize::MAX,
        identifiers_fit(*ids, *plan, model@),
    ensures
        final(xml)@ == (XmlWriterView {
            output: old(xml)@.output + identifier_objects_xml(old(xml)@.depth, *plan, model@, *ids),
            depth: old(xml)@.depth,
        }),
{
    let ghost start = xml@.output;
    write_object_guids(xml, "CPartGuid", plan.root_part.guid, "__RootPart__", "Root Part", &plan.root_part.grid, &ids.root_part);
    write_part_guids(xml, plan, model, &ids.parts);
    write_deformer_guids(xml, plan, &ids.deformers);
    write_mesh_list_guids(xml, plan, model, &ids.meshes);
    write_glue_guids(xml, plan, &ids.glues);
    assert(xml@.output =~= start + identifier_objects_xml(old(xml)@.depth, *plan, model@, *ids));
}

/// Whether every identifier in `v` is in the hyphenated form.
pub open spec fn all_uuids(v: Seq<String>) -> bool {
    forall|i: int| 0 <= i < v.len() ==> uuid_text(#[trigger] v[i]@)
}

/// Whether every identifier drawn for the document is in the hyphenated
/// form.
pub open spec fn identifiers_drawn(ids: Identifiers) -> bool {
    &&& uuid_text(ids.model@)
    &&& all_uuids(ids.parameters@)
    &&& all_uuids(ids.root_part@)
    &&& forall|i: int| 0 <= i < ids.parts@.len() ==> all_uuids(#[trigger] ids.parts@[i]@)
    &&& forall|i: int| 0 <= i < ids.deformers@.len() ==> all_uuids(#[trigger] ids.deformers@[i]@)
    &&& forall|i: int| 0 <= i < ids.meshes@.len() ==> all_uuids(#[trigger] ids.meshes@[i]@)
    &&& forall|i: int| 0 <= i < ids.glues@.len() ==> all_uuids(#[trigger] ids.glues@[i]@)
}

/// Draws `n` random identifiers.
fn draw_uuids(n: usize) -> (res: Vec<String>)
    ensures
        res@.len() == n,
        all_uuids(res@),
{
    let mut out: Vec<String> = Vec::new();
    let mut i: usize = 0;
    while i < n
        invariant
            i <= n,
            out@.len() == i,
            all_uuids(out@),
        decreases n - i,
    {
        out.push(random_uuid());
        i = i + 1;
    }
    out
}

/// Draws identifiers for an object: `extra` of its own, then one per
/// keyform.
fn draw_object(extra: usize, forms: usize) -> (res: Vec<String>)
    ensures
        res@.len() == extra + forms,
        all_uuids(res@),
{
    let mut own = draw_uuids(extra);
    let mut keyed = draw_uuids(forms);
    own.append(&mut keyed);
    own
}

/// Whether every list has at least `extra` identifiers more than the
/// keyforms of its grid, for the first `n` grids.
pub open spec fn lists_fit(lists: Seq<Vec<String>>, grids: Seq<GridPlan>, extra: nat, n: int) -> bool {
    &&& lists.len() >= n
    &&& forall|i: int| 0 <= i < n ==> (#[trigger] lists[i])@.len() >= extra + grids[i].forms@.len()
}

/// Draws every random identifier the identifier objects of the document
/// need.
pub fn draw_identifiers(plan: &ProjectPlan, model: &Moc3Model) -> (res: Identifiers)
    ensures
        identifiers_drawn(res),
        identifiers_fit(res, *plan, model@),
{
    let n_parameters = {
        let count = model.parameters().len();
        if count <= plan.parameters.len() {
            count
        } else {
            plan.parameters.len()
        }
    };
    let parameters = draw_uuids(n_parameters);
    let root_part = draw_object(1, plan.root_part.grid.forms.len());
    let n_parts = {
        let count = model.parts().len();
        if count <= plan.parts.len() {
            count
        } else {
            plan.parts.len()
        }
    };
    let mut parts: Vec<Vec<String>> = Vec::new();
    let mut i: usize = 0;
    while i < n_parts
        invariant
            i <= n_parts,
            n_parts <= plan.parts@.len(),
            parts@.len() == i,
            forall|j: int| 0 <= j < i ==> (#[trigger] parts@[j])@.len() == 1 + plan.parts@[j].grid.forms@.len(),
            forall|j: int| 0 <= j < parts@.len() ==> all_uuids(#[trigger] parts@[j]@),
        decreases n_parts - i,
    {
        parts.push(draw_object(1, plan.parts[i].grid.forms.len()));
        i = i + 1;
    }
    let mut deformers: Vec<Vec<String>> = Vec::new();
    let mut i: usize = 0;
    while i < plan.deformers.len()
        invariant
            i <= plan.deformers@.len(),
            deformers@.len() == i,
            forall|j: int| 0 <= j < i ==> (#[trigger] deformers@[j])@.len() == 1 + plan.deformers@[j].grid.forms@.len(),
            forall|j: int| 0 <= j < deformers@.len() ==> all_uuids(#[trigger] deformers@[j]@),
        decreases plan.deformers@.len() - i,
    {
        deformers.push(draw_object(1, plan.deformers[i].grid.forms.len()));
        i = i + 1;
    }
    let n_meshes = {
        let count = model.art_meshes().len();
        if count <= plan.meshes.len() {
            count
        } else {
            plan.meshes.len()
        }
    };
    let mut meshes: Vec<Vec<String>> = Vec::new();
    let mut i: usize = 0;
    while i < n_meshes
        invariant
            i <= n_meshes,
            n_meshes <= plan.meshes@.len(),
            meshes@.len() == i,
            forall|j: int| 0 <= j < i ==> (#[trigger] meshes@[j])@.len() == 5 + plan.meshes@[j].grid.forms@.len(),
            forall|j: int| 0 <= j < meshes@.len() ==> all_uuids(#[trigger] meshes@[j]@),
        decreases n_meshes - i,
    {
        meshes.push(draw_object(5, plan.meshes[i].grid.forms.len()));
        i = i + 1;
    }
    let mut glues: Vec<Vec<String>> = Vec::new();
    let mut i: usize = 0;
    while i < plan.glues.len()
        invariant
            i <= plan.glues@.len(),
            glues@.len() == i,
            forall|j: int| 0 <= j < i ==> (#[trigger] glues@[j])@.len() == 1 + plan.glues@[j].grid.forms@.len(),
            forall|j: int| 0 <= j < glues@.len() ==> all_uuids(#[trigger] glues@[j]@),
        decreases plan.glues@.len() - i,
    {
        glues.push(draw_object(1, plan.glues[i].grid.forms.len()));
        i = i + 1;
    }
    let ids = Identifiers { model: random_uuid(), parameters, root_part, parts, deformers, meshes, glues };
    assert(identifiers_fit(ids, *plan, model@));
    assert(identifiers_drawn(ids));
    ids
}

/// Draws every identifier the document needs and writes the identifier
/// objects; `group_uuid` and `deformer_uuid` are the editor's fixed
/// identifiers of the root parameter group and the root deformer.
pub fn write_identifiers(xml: &mut XmlWriter, plan: &ProjectPlan, model: &Moc3Model, group_uuid: &str, deformer_uuid: &str)
    requires
        old(xml)@.depth + 2 < usize::MAX,
    ensures
        exists|ids: Identifiers|
            identifiers_drawn(ids) && identifiers_fit(ids, *plan, model@) && final(xml)@ == (XmlWriterView {
                output: old(xml)@.output + identifiers_xml(old(xml)@.depth, *plan, model@, group_uuid@, deformer_uuid@, ids),
                depth: old(xml)@.depth,
            }),
{
    let ids = draw_identifiers(plan, model);
    write_identifiers_with(xml, plan, model, group_uuid, deformer_uuid, &ids);
}

} // verus!
