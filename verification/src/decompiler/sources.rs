//! Pieces of the mesh and deformer sources: number lists, the mesh's
//! editable-mesh and generator extensions, and the common start of a
//! deformer's source.

use vstd::prelude::*;

use super::grid::{decimal_text, ref_attrs, reference};
use super::images::{counted, counted_attrs, named, named_attrs};
use super::parts::{controllable_xml, start_parameter_controllable};
use super::plan::{DeformerPlan, MeshPlan, ProjectPlan, RefId};
use super::xml::{attr, attr_views, empty_line, end_line, start_line, text_line, Attr, XmlWriter, XmlWriterView};
use crate::text::{ascii_chars, ascii_string, decimal, lemma_decimal_ascii, number_text, push_decimal};

verus! {

/// The items joined by single spaces.
pub open spec fn joined(items: Seq<Seq<u8>>) -> Seq<u8>
    decreases items.len(),
{
    if items.len() == 0 {
        Seq::empty()
    } else if items.len() == 1 {
        items[0]
    } else {
        joined(items.drop_last()) + seq![32u8] + items.last()
    }
}

/// The decimal forms of `values`.
pub open spec fn decimals(values: Seq<u64>) -> Seq<Seq<u8>> {
    values.map_values(|v: u64| decimal(v as nat))
}

/// The decimal numbers `values`, joined by single spaces.
pub open spec fn number_list(values: Seq<u64>) -> Seq<char> {
    ascii_chars(joined(decimals(values)))
}

/// Returns the decimal numbers `values`, joined by single spaces.
pub fn number_list_text(values: &Vec<u64>) -> (res: String)
    ensures
        res@ == number_list(values@),
{
    let mut out: Vec<u8> = Vec::new();
    let mut i: usize = 0;
    while i < values.len()
        invariant
            i <= values@.len(),
            out@ == joined(decimals(values@.subrange(0, i as int))),
            forall|k: int| 0 <= k < out@.len() ==> #[trigger] out@[k] < 128,
        decreases values@.len() - i,
    {
        let ghost before = out@;
        if i > 0 {
            out.push(32);
        }
        push_decimal(&mut out, values[i]);
        proof {
            lemma_decimal_ascii(values@[i as int] as nat);
            let d = decimals(values@.subrange(0, i + 1));
            assert(d.drop_last() =~= decimals(values@.subrange(0, i as int)));
            assert(d.last() == decimal(values@[i as int] as nat));
            if i == 0 {
                assert(out@ =~= decimal(values@[0] as nat));
            } else {
                assert(out@ =~= before + seq![32u8] + decimal(values@[i as int] as nat));
            }
            assert forall|k: int| 0 <= k < out@.len() implies #[trigger] out@[k] < 128 by {
                if k >= before.len() && i > 0 && k > before.len() {
                    assert(out@[k] == decimal(values@[i as int] as nat)[k - before.len() - 1]);
                } else if k >= before.len() && i == 0 {
                    assert(out@[k] == decimal(values@[i as int] as nat)[k - before.len()]);
                }
            }
        }
        i = i + 1;
    }
    assert(values@.subrange(0, values@.len() as int) =~= values@);
    ascii_string(out.as_slice())
}

/// The numbers from 0 below `n`.
pub open spec fn counting(n: nat) -> Seq<u64> {
    Seq::new(n, |i: int| i as u64)
}

/// `n` copies of `value`.
pub open spec fn copies(value: u64, n: nat) -> Seq<u64> {
    Seq::new(n, |i: int| value)
}

/// Returns the numbers from 0 below `n`.
fn counting_vec(n: usize) -> (res: Vec<u64>)
    ensures
        res@ == counting(n as nat),
{
    let mut out: Vec<u64> = Vec::new();
    let mut i: usize = 0;
    while i < n
        invariant
            i <= n,
            out@ == counting(i as nat),
        decreases n - i,
    {
        out.push(i as u64);
        i = i + 1;
        assert(out@ =~= counting(i as nat));
    }
    out
}

/// Returns `n` copies of `value`.
fn copies_vec(value: u64, n: usize) -> (res: Vec<u64>)
    ensures
        res@ == copies(value, n as nat),
{
    let mut out: Vec<u64> = Vec::new();
    let mut i: usize = 0;
    while i < n
        invariant
            i <= n,
            out@ == copies(value, i as nat),
        decreases n - i,
    {
        out.push(value);
        i = i + 1;
        assert(out@ =~= copies(value, i as nat));
    }
    out
}

/// The edge list as numbers.
pub open spec fn widened(edges: Seq<u16>) -> Seq<u64> {
    edges.map_values(|e: u16| e as u64)
}

/// Returns the edge list as numbers.
pub(crate) fn widen(edges: &[u16]) -> (res: Vec<u64>)
    ensures
        res@ == widened(edges@),
{
    let mut out: Vec<u64> = Vec::new();
    let mut i: usize = 0;
    while i < edges.len()
        invariant
            i <= edges@.len(),
            out@ == widened(edges@.subrange(0, i as int)),
        decreases edges@.len() - i,
    {
        out.push(edges[i] as u64);
        i = i + 1;
        assert(out@ =~= widened(edges@.subrange(0, i as int)));
    }
    assert(edges@.subrange(0, edges@.len() as int) =~= edges@);
    out
}

/// The common start of an extension: its identifier and its owner.
pub open spec fn extension_xml(d: nat, guid: RefId, owner: RefId) -> Seq<u8> {
    start_line(d, "ACExtension"@, named("super"@)) + empty_line(d + 1, "CExtensionGuid"@, ref_attrs("guid"@, guid))
        + empty_line(d + 1, "CArtMeshSource"@, ref_attrs("_owner"@, owner)) + end_line(d, "ACExtension"@)
}

/// Writes the common start of an extension.
fn write_extension(xml: &mut XmlWriter, guid: RefId, owner: RefId)
    requires
        old(xml)@.depth < usize::MAX,
    ensures
        final(xml)@ == (XmlWriterView { output: old(xml)@.output + extension_xml(old(xml)@.depth, guid, owner), depth: old(xml)@.depth }),
{
    let ghost start = xml@.output;
    xml.start("ACExtension", named_attrs("super").as_slice());
    reference(xml, "CExtensionGuid", "guid", guid);
    reference(xml, "CArtMeshSource", "_owner", owner);
    xml.end("ACExtension");
    assert(xml@.output =~= start + extension_xml(old(xml)@.depth, guid, owner));
}

/// The names and values of the mesh generator's settings.
pub open spec fn generator_settings() -> Seq<(Seq<char>, nat)> {
    seq![
        ("polygonOuterDensity"@, 100nat),
        ("polygonInnerDensity"@, 100nat),
        ("polygonMargin"@, 20nat),
        ("polygonInnerMargin"@, 20nat),
        ("polygonMinMargin"@, 5nat),
        ("polygonMinBoundsPt"@, 5nat),
        ("thresholdAlpha"@, 0nat),
    ]
}

/// The first `n` settings of the mesh generator, at depth `d`.
pub open spec fn settings_xml(d: nat, n: int) -> Seq<u8>
    decreases n,
{
    if n <= 0 {
        Seq::empty()
    } else {
        let s = generator_settings()[n - 1];
        settings_xml(d, n - 1) + text_line(d, "i"@, named(s.0), decimal_text(s.1))
    }
}

/// The generator extension of a mesh at depth `d`: its identifier and its
/// fixed settings.
#[verifier::opaque]
pub open spec fn generator_extension_xml(d: nat, plan: MeshPlan) -> Seq<u8> {
    start_line(d, "CMeshGeneratorExtension"@, Seq::empty()) + extension_xml(d + 1, plan.generator_extension_guid, plan.source)
        + start_line(d + 1, "MeshGenerateSetting"@, named("meshGenerateSetting"@)) + settings_xml(d + 2, 7) + end_line(
        d + 1,
        "MeshGenerateSetting"@,
    ) + end_line(d, "CMeshGeneratorExtension"@)
}

/// Writes one setting of the mesh generator.
fn write_setting(xml: &mut XmlWriter, name: &str, value: u64)
    ensures
        final(xml)@ == (XmlWriterView {
            output: old(xml)@.output + text_line(old(xml)@.depth, "i"@, named(name@), decimal_text(value as nat)),
            depth: old(xml)@.depth,
        }),
{
    let text = number_text(value);
    xml.text("i", named_attrs(name).as_slice(), text.as_str());
}

/// Writes the generator extension of a mesh.
#[verifier::spinoff_prover]
#[verifier::rlimit(60)]
pub fn write_generator_extension(xml: &mut XmlWriter, plan: &MeshPlan)
    requires
        old(xml)@.depth + 2 < usize::MAX,
    ensures
        final(xml)@ == (XmlWriterView {
            output: old(xml)@.output + generator_extension_xml(old(xml)@.depth, *plan),
            depth: old(xml)@.depth,
        }),
{
    let ghost d = xml@.depth;
    let ghost start = xml@.output;
    let none: Vec<Attr> = Vec::new();
    assert(attr_views(none@) =~= Seq::empty());
    xml.start("CMeshGeneratorExtension", none.as_slice());
    write_extension(xml, plan.generator_extension_guid, plan.source);
    xml.start("MeshGenerateSetting", named_attrs("meshGenerateSetting").as_slice());
    let ghost settings_start = xml@.output;
    write_setting(xml, "polygonOuterDensity", 100);
    write_setting(xml, "polygonInnerDensity", 100);
    write_setting(xml, "polygonMargin", 20);
    write_setting(xml, "polygonInnerMargin", 20);
    write_setting(xml, "polygonMinMargin", 5);
    write_setting(xml, "polygonMinBoundsPt", 5);
    write_setting(xml, "thresholdAlpha", 0);
    proof {
        reveal_with_fuel(settings_xml, 8);
        assert(xml@.output =~= settings_start + settings_xml(d + 2, 7));
    }
    xml.end("MeshGenerateSetting");
    xml.end("CMeshGeneratorExtension");
    reveal(generator_extension_xml);
    assert(xml@.output =~= start + generator_extension_xml(d, *plan));
}

/// The editable mesh of a mesh's extension at depth `d`: its points, given
/// as the text `points` of `point_values` numbers, two per point, with
/// priority 20, its edges with priority 30, a numbered identifier per
/// point, its identifier and coordinate type.
#[verifier::opaque]
pub open spec fn editable_mesh_xml(
    d: nat,
    project: ProjectPlan,
    plan: MeshPlan,
    points: Seq<char>,
    point_values: nat,
    edges: Seq<u16>,
) -> Seq<u8> {
    let point_count = point_values / 2;
    start_line(
        d,
        "GEditableMesh2"@,
        seq![
            ("xs.n"@, "editableMesh"@),
            ("nextPointUid"@, decimal_text(point_count)),
            ("useDelaunayTriangulation"@, "true"@),
        ],
    ) + text_line(d + 1, "float-array"@, counted("point"@, decimal_text(point_values)), points) + text_line(
        d + 1,
        "byte-array"@,
        counted("pointPriority"@, decimal_text(point_count)),
        number_list(copies(20, point_count)),
    ) + text_line(d + 1, "short-array"@, counted("edge"@, decimal_text(edges.len())), number_list(widened(edges)))
        + text_line(
        d + 1,
        "byte-array"@,
        counted("edgePriority"@, decimal_text(edges.len() / 2)),
        number_list(copies(30, edges.len() / 2)),
    ) + text_line(d + 1, "int-array"@, counted("pointUid"@, decimal_text(point_count)), number_list(counting(point_count)))
        + empty_line(d + 1, "GEditableMeshGuid"@, ref_attrs("meshGuid"@, plan.editable_mesh_guid)) + empty_line(
        d + 1,
        "CoordType"@,
        ref_attrs("coordType"@, project.coord_type),
    ) + end_line(d, "GEditableMesh2"@)
}

/// Writes the editable mesh of a mesh's extension.
#[verifier::spinoff_prover]
#[verifier::rlimit(60)]
fn write_editable_mesh(
    xml: &mut XmlWriter,
    project: &ProjectPlan,
    plan: &MeshPlan,
    points: &str,
    point_values: usize,
    edges: &[u16],
)
    requires
        old(xml)@.depth < usize::MAX,
    ensures
        final(xml)@ == (XmlWriterView {
            output: old(xml)@.output + editable_mesh_xml(
                old(xml)@.depth,
                *project,
                *plan,
                points@,
                point_values as nat,
                edges@,
            ),
            depth: old(xml)@.depth,
        }),
{
    let ghost d = xml@.depth;
    let ghost start = xml@.output;
    let point_count = point_values / 2;
    let mut mesh_attrs: Vec<Attr> = Vec::new();
    mesh_attrs.push(attr("xs.n", String::from_str("editableMesh")));
    mesh_attrs.push(attr("nextPointUid", number_text(point_count as u64)));
    mesh_attrs.push(attr("useDelaunayTriangulation", String::from_str("true")));
    assert(attr_views(mesh_attrs@) =~= seq![
        ("xs.n"@, "editableMesh"@),
        ("nextPointUid"@, decimal_text(point_count as nat)),
        ("useDelaunayTriangulation"@, "true"@),
    ]);
    xml.start("GEditableMesh2", mesh_attrs.as_slice());
    xml.text("float-array", counted_attrs("point", number_text(point_values as u64)).as_slice(), points);
    let priorities = number_list_text(&copies_vec(20, point_count));
    xml.text("byte-array", counted_attrs("pointPriority", number_text(point_count as u64)).as_slice(), priorities.as_str());
    let edge_text = number_list_text(&widen(edges));
    xml.text("short-array", counted_attrs("edge", number_text(edges.len() as u64)).as_slice(), edge_text.as_str());
    let edge_priorities = number_list_text(&copies_vec(30, edges.len() / 2));
    xml.text(
        "byte-array",
        counted_attrs("edgePriority", number_text((edges.len() / 2) as u64)).as_slice(),
        edge_priorities.as_str(),
    );
    let uids = number_list_text(&counting_vec(point_count));
    xml.text("int-array", counted_attrs("pointUid", number_text(point_count as u64)).as_slice(), uids.as_str());
    reference(xml, "GEditableMeshGuid", "meshGuid", plan.editable_mesh_guid);
    reference(xml, "CoordType", "coordType", project.coord_type);
    xml.end("GEditableMesh2");
    reveal(editable_mesh_xml);
    assert(xml@.output =~= start + editable_mesh_xml(d, *project, *plan, points@, point_values as nat, edges@));
}

/// The editable-mesh extension of a mesh at depth `d`.
#[verifier::opaque]
pub open spec fn editable_extension_xml(
    d: nat,
    project: ProjectPlan,
    plan: MeshPlan,
    points: Seq<char>,
    point_values: nat,
    edges: Seq<u16>,
) -> Seq<u8> {
    start_line(d, "CEditableMeshExtension"@, Seq::empty()) + extension_xml(d + 1, plan.editable_extension_guid, plan.source)
        + editable_mesh_xml(d + 1, project, plan, points, point_values, edges) + text_line(
        d + 1,
        "b"@,
        named("isLocked"@),
        "false"@,
    ) + end_line(d, "CEditableMeshExtension"@)
}

/// Writes the editable-mesh extension of a mesh: `points` is the text of
/// its `point_values` point coordinates, two per point, and `edges` its
/// edge list.
#[verifier::spinoff_prover]
pub fn write_editable_extension(
    xml: &mut XmlWriter,
    project: &ProjectPlan,
    plan: &MeshPlan,
    points: &str,
    point_values: usize,
    edges: &[u16],
)
    requires
        old(xml)@.depth + 2 < usize::MAX,
    ensures
        final(xml)@ == (XmlWriterView {
            output: old(xml)@.output + editable_extension_xml(
                old(xml)@.depth,
                *project,
                *plan,
                points@,
                point_values as nat,
                edges@,
            ),
            depth: old(xml)@.depth,
        }),
{
    let ghost d = xml@.depth;
    let ghost start = xml@.output;
    let none: Vec<Attr> = Vec::new();
    assert(attr_views(none@) =~= Seq::empty());
    xml.start("CEditableMeshExtension", none.as_slice());
    write_extension(xml, plan.editable_extension_guid, plan.source);
    write_editable_mesh(xml, project, plan, points, point_values, edges);
    xml.text("b", named_attrs("isLocked").as_slice(), "false");
    xml.end("CEditableMeshExtension");
    reveal(editable_extension_xml);
    assert(xml@.output =~= start + editable_extension_xml(d, *project, *plan, points@, point_values as nat, edges@));
}

/// The deformer a deformer is drawn into: its planned parent, or the root
/// deformer when it has none or its parent is not planned.
pub open spec fn target_deformer(project: ProjectPlan, parent: Option<usize>) -> RefId {
    match parent {
        Some(p) => if p < project.deformers@.len() {
            project.deformers@[p as int].guid
        } else {
            project.root_deformer_guid
        },
        None => project.root_deformer_guid,
    }
}

/// The common start of a deformer's source at depth `d`: controllable under
/// the root part, its identifier and its target deformer.
#[verifier::opaque]
pub open spec fn deformer_source_xml(d: nat, project: ProjectPlan, plan: DeformerPlan, parent: Option<usize>, id: Seq<char>) -> Seq<u8> {
    start_line(d, "ACDeformerSource"@, named("super"@)) + controllable_xml(
        d + 1,
        id,
        Some(project.root_part.guid),
        plan.grid.grid,
    ) + empty_line(d + 2, "carray_list"@, counted("_extensions"@, "0"@)) + empty_line(
        d + 2,
        "null"@,
        named("internalColor_direct_argb"@),
    ) + empty_line(d + 2, "null"@, named("internalColor_indirect_argb"@)) + end_line(d + 1, "ACParameterControllableSource"@)
        + empty_line(d + 1, "CDeformerGuid"@, ref_attrs("guid"@, plan.guid)) + empty_line(
        d + 1,
        "CDeformerId"@,
        seq![("xs.n"@, "id"@), ("idstr"@, id)],
    ) + empty_line(d + 1, "CDeformerGuid"@, ref_attrs("targetDeformerGuid"@, target_deformer(project, parent)))
        + end_line(d, "ACDeformerSource"@)
}

/// Writes the common start of a deformer's source.
#[verifier::spinoff_prover]
#[verifier::rlimit(60)]
pub fn start_deformer_source(xml: &mut XmlWriter, project: &ProjectPlan, plan: &DeformerPlan, parent: Option<usize>, id: &str)
    requires
        old(xml)@.depth + 5 < usize::MAX,
    ensures
        final(xml)@ == (XmlWriterView {
            output: old(xml)@.output + deformer_source_xml(old(xml)@.depth, *project, *plan, parent, id@),
            depth: old(xml)@.depth,
        }),
{
    let ghost d = xml@.depth;
    let ghost start = xml@.output;
    xml.start("ACDeformerSource", named_attrs("super").as_slice());
    start_parameter_controllable(xml, id, Some(project.root_part.guid), plan.grid.grid);
    xml.empty("carray_list", counted_attrs("_extensions", String::from_str("0")).as_slice());
    xml.empty("null", named_attrs("internalColor_direct_argb").as_slice());
    xml.empty("null", named_attrs("internalColor_indirect_argb").as_slice());
    xml.end("ACParameterControllableSource");
    reference(xml, "CDeformerGuid", "guid", plan.guid);
    let mut id_attrs: Vec<Attr> = Vec::new();
    id_attrs.push(attr("xs.n", String::from_str("id")));
    id_attrs.push(attr("idstr", String::from_str(id)));
    assert(attr_views(id_attrs@) =~= seq![("xs.n"@, "id"@), ("idstr"@, id@)]);
    xml.empty("CDeformerId", id_attrs.as_slice());
    let target = match parent {
        Some(p) => if p < project.deformers.len() {
            project.deformers[p].guid
        } else {
            project.root_deformer_guid
        },
        None => project.root_deformer_guid,
    };
    reference(xml, "CDeformerGuid", "targetDeformerGuid", target);
    xml.end("ACDeformerSource");
    reveal(deformer_source_xml);
    assert(xml@.output =~= start + deformer_source_xml(d, *project, *plan, parent, id@));
}

} // verus!
