//! The part objects of the editor document: each part's source with its
//! children and keyforms, and the pieces it shares with other objects.

use vstd::prelude::*;

use super::grid::{decimal_text, ref_attrs, ref_text, reference, reference_without_name, shared_attrs, start_shared};
use super::images::{counted, counted_attrs, named, named_attrs};
use super::plan::{PartPlan, ProjectPlan, RefId};
use super::grid::{grid_bindings, grid_ok, grid_xml, text_views, texts_fit, write_grid};
use super::structure::{child_views, children_of, part_children, root_children, root_children_of, shorter};
use crate::error::{cmo3_error, Error};
use crate::moc3::{part_views, Moc3Model, Moc3ModelView};
use super::xml::{attr, attr_views, empty_line, end_line, start_line, text_line, Attr, XmlWriter, XmlWriterView};
use crate::text::number_text;

verus! {

/// The header of a keyform: its identifier, not animated, and the object
/// it belongs to, at depth `d`.
#[verifier::opaque]
pub open spec fn form_header_xml(d: nat, form: RefId, source_tag: Seq<char>, source: RefId) -> Seq<u8> {
    start_line(d, "ACForm"@, named("super"@)) + empty_line(d + 1, "CFormGuid"@, ref_attrs("guid"@, form)) + text_line(
        d + 1,
        "b"@,
        named("isAnimatedForm"@),
        "false"@,
    ) + text_line(d + 1, "b"@, named("isLocalAnimatedForm"@), "false"@) + empty_line(
        d + 1,
        source_tag,
        ref_attrs("_source"@, source),
    ) + empty_line(d + 1, "null"@, named("name"@)) + empty_line(d + 1, "s"@, named("notes"@)) + end_line(d, "ACForm"@)
}

/// Writes the header of a keyform that belongs to the object `source`.
#[verifier::spinoff_prover]
pub fn write_form_header(xml: &mut XmlWriter, form: RefId, source_tag: &str, source: RefId)
    requires
        old(xml)@.depth < usize::MAX,
    ensures
        final(xml)@ == (XmlWriterView {
            output: old(xml)@.output + form_header_xml(old(xml)@.depth, form, source_tag@, source),
            depth: old(xml)@.depth,
        }),
{
    let ghost d = xml@.depth;
    let ghost start = xml@.output;
    xml.start("ACForm", named_attrs("super").as_slice());
    reference(xml, "CFormGuid", "guid", form);
    xml.text("b", named_attrs("isAnimatedForm").as_slice(), "false");
    xml.text("b", named_attrs("isLocalAnimatedForm").as_slice(), "false");
    reference(xml, source_tag, "_source", source);
    xml.empty("null", named_attrs("name").as_slice());
    xml.empty("s", named_attrs("notes").as_slice());
    xml.end("ACForm");
    reveal(form_header_xml);
    assert(xml@.output =~= start + form_header_xml(d, form, source_tag@, source));
}

/// The parent of a controllable object: a reference to its part, or none.
pub open spec fn parent_xml(d: nat, parent: Option<RefId>) -> Seq<u8> {
    match parent {
        Some(p) => empty_line(d, "CPartGuid"@, ref_attrs("parentGuid"@, p)),
        None => empty_line(d, "null"@, named("parentGuid"@)),
    }
}

/// The start of a parameter-controllable object at depth `d`: its local
/// name, visible and unlocked, its parent, its keyform grid and no morph
/// targets. The element stays open.
#[verifier::opaque]
pub open spec fn controllable_xml(d: nat, local_name: Seq<char>, parent: Option<RefId>, grid: RefId) -> Seq<u8> {
    start_line(d, "ACParameterControllableSource"@, named("super"@)) + text_line(
        d + 1,
        "s"@,
        named("localName"@),
        local_name,
    ) + text_line(d + 1, "b"@, named("isVisible"@), "true"@) + text_line(d + 1, "b"@, named("isLocked"@), "false"@)
        + parent_xml(d + 1, parent) + empty_line(d + 1, "KeyformGridSource"@, ref_attrs("keyformGridSource"@, grid))
        + start_line(d + 1, "KeyFormMorphTargetSet"@, named("keyformMorphTargetSet"@)) + empty_line(
        d + 2,
        "carray_list"@,
        counted("_morphTargets"@, "0"@),
    ) + start_line(d + 2, "MorphTargetBlendWeightConstraintSet"@, named("blendWeightConstraintSet"@)) + empty_line(
        d + 3,
        "carray_list"@,
        counted("_constraints"@, "0"@),
    ) + end_line(d + 2, "MorphTargetBlendWeightConstraintSet"@) + end_line(d + 1, "KeyFormMorphTargetSet"@)
}

/// Opens a parameter-controllable object and writes its common fields; the
/// caller closes it.
#[verifier::spinoff_prover]
#[verifier::rlimit(60)]
pub fn start_parameter_controllable(xml: &mut XmlWriter, local_name: &str, parent: Option<RefId>, grid: RefId)
    requires
        old(xml)@.depth + 3 < usize::MAX,
    ensures
        final(xml)@ == (XmlWriterView {
            output: old(xml)@.output + controllable_xml(old(xml)@.depth, local_name@, parent, grid),
            depth: old(xml)@.depth + 1,
        }),
{
    let ghost d = xml@.depth;
    let ghost start = xml@.output;
    xml.start("ACParameterControllableSource", named_attrs("super").as_slice());
    xml.text("s", named_attrs("localName").as_slice(), local_name);
    xml.text("b", named_attrs("isVisible").as_slice(), "true");
    xml.text("b", named_attrs("isLocked").as_slice(), "false");
    match parent {
        Some(p) => reference(xml, "CPartGuid", "parentGuid", p),
        None => xml.empty("null", named_attrs("parentGuid").as_slice()),
    }
    reference(xml, "KeyformGridSource", "keyformGridSource", grid);
    xml.start("KeyFormMorphTargetSet", named_attrs("keyformMorphTargetSet").as_slice());
    xml.empty("carray_list", counted_attrs("_morphTargets", String::from_str("0")).as_slice());
    xml.start("MorphTargetBlendWeightConstraintSet", named_attrs("blendWeightConstraintSet").as_slice());
    xml.empty("carray_list", counted_attrs("_constraints", String::from_str("0")).as_slice());
    xml.end("MorphTargetBlendWeightConstraintSet");
    xml.end("KeyFormMorphTargetSet");
    reveal(controllable_xml);
    assert(xml@.output =~= start + controllable_xml(d, local_name@, parent, grid));
}

/// The head of a part's source at depth `d`, up to its edit color.
#[verifier::opaque]
pub open spec fn part_head_xml(d: nat, part: PartPlan, local_name: Seq<char>, id: Seq<char>, parent: Option<RefId>) -> Seq<u8> {
    start_line(d, "CPartSource"@, shared_attrs(part.source)) + controllable_xml(d + 1, local_name, parent, part.grid.grid)
        + empty_line(d + 2, "carray_list"@, counted("_extensions"@, "0"@)) + empty_line(
        d + 2,
        "null"@,
        named("internalColor_direct_argb"@),
    ) + end_line(d + 1, "ACParameterControllableSource"@) + empty_line(d + 1, "CPartGuid"@, ref_attrs("guid"@, part.guid))
        + empty_line(d + 1, "CPartId"@, seq![("xs.n"@, "id"@), ("idstr"@, id)]) + text_line(
        d + 1,
        "b"@,
        named("enableDrawOrderGroup"@),
        "false"@,
    ) + text_line(d + 1, "i"@, named("defaultOrder_forEditor"@), "500"@) + text_line(
        d + 1,
        "b"@,
        named("isSketch"@),
        "false"@,
    ) + empty_line(d + 1, "CColor"@, named("partsEditColor"@))
}

/// Writes the head of a part's source, up to its edit color; the source
/// stays open.
#[verifier::spinoff_prover]
#[verifier::rlimit(60)]
fn write_part_head(xml: &mut XmlWriter, part: &PartPlan, local_name: &str, id: &str, parent: Option<RefId>)
    requires
        old(xml)@.depth + 5 < usize::MAX,
    ensures
        final(xml)@ == (XmlWriterView {
            output: old(xml)@.output + part_head_xml(old(xml)@.depth, *part, local_name@, id@, parent),
            depth: old(xml)@.depth + 1,
        }),
{
    let ghost d = xml@.depth;
    let ghost start = xml@.output;
    start_shared(xml, "CPartSource", part.source);
    start_parameter_controllable(xml, local_name, parent, part.grid.grid);
    xml.empty("carray_list", counted_attrs("_extensions", String::from_str("0")).as_slice());
    xml.empty("null", named_attrs("internalColor_direct_argb").as_slice());
    xml.end("ACParameterControllableSource");
    reference(xml, "CPartGuid", "guid", part.guid);
    let mut id_attrs: Vec<Attr> = Vec::new();
    id_attrs.push(attr("xs.n", String::from_str("id")));
    id_attrs.push(attr("idstr", String::from_str(id)));
    assert(attr_views(id_attrs@) =~= seq![("xs.n"@, "id"@), ("idstr"@, id@)]);
    xml.empty("CPartId", id_attrs.as_slice());
    xml.text("b", named_attrs("enableDrawOrderGroup").as_slice(), "false");
    xml.text("i", named_attrs("defaultOrder_forEditor").as_slice(), "500");
    xml.text("b", named_attrs("isSketch").as_slice(), "false");
    xml.empty("CColor", named_attrs("partsEditColor").as_slice());
    reveal(part_head_xml);
    assert(xml@.output =~= start + part_head_xml(d, *part, local_name@, id@, parent));
}

/// Unnamed references to the first `n` children, each under its tag.
pub open spec fn children_xml(d: nat, children: Seq<(Seq<char>, RefId)>, n: int) -> Seq<u8>
    decreases n,
{
    if n <= 0 {
        Seq::empty()
    } else {
        children_xml(d, children, n - 1) + empty_line(
            d,
            children[n - 1].0,
            seq![("xs.ref"@, ref_text(children[n - 1].1))],
        )
    }
}

/// The draw-order text of keyform `index`: the given text where there is
/// one, else `500`.
pub open spec fn order_text(orders: Seq<Seq<char>>, index: int) -> Seq<char> {
    if index < orders.len() {
        orders[index]
    } else {
        "500"@
    }
}

/// One keyform of a part: its header and its draw order, at depth `d`.
#[verifier::opaque]
pub open spec fn part_form_xml(d: nat, form: RefId, source: RefId, order: Seq<char>) -> Seq<u8> {
    start_line(d, "CPartForm"@, Seq::empty()) + form_header_xml(d + 1, form, "CPartSource"@, source) + text_line(
        d + 1,
        "i"@,
        named("drawOrder"@),
        order,
    ) + end_line(d, "CPartForm"@)
}

/// The first `n` keyforms of a part.
pub open spec fn part_forms_xml(d: nat, part: PartPlan, orders: Seq<Seq<char>>, n: int) -> Seq<u8>
    decreases n,
{
    if n <= 0 {
        Seq::empty()
    } else {
        part_forms_xml(d, part, orders, n - 1) + part_form_xml(d, part.grid.forms@[n - 1], part.source, order_text(orders, n - 1))
    }
}

/// Writes one keyform of a part.
#[verifier::spinoff_prover]
fn write_part_form(xml: &mut XmlWriter, form: RefId, source: RefId, order: &str)
    requires
        old(xml)@.depth + 2 < usize::MAX,
    ensures
        final(xml)@ == (XmlWriterView {
            output: old(xml)@.output + part_form_xml(old(xml)@.depth, form, source, order@),
            depth: old(xml)@.depth,
        }),
{
    let ghost d = xml@.depth;
    let ghost start = xml@.output;
    let none: Vec<Attr> = Vec::new();
    assert(attr_views(none@) =~= Seq::empty());
    xml.start("CPartForm", none.as_slice());
    write_form_header(xml, form, "CPartSource", source);
    xml.text("i", named_attrs("drawOrder").as_slice(), order);
    xml.end("CPartForm");
    reveal(part_form_xml);
    assert(xml@.output =~= start + part_form_xml(d, form, source, order@));
}

/// The source of a part at depth `d`: its head, its children, the root
/// deformer as its target and one keyform per grid point with its draw
/// order.
pub open spec fn part_source_xml(
    d: nat,
    plan: ProjectPlan,
    part: PartPlan,
    local_name: Seq<char>,
    id: Seq<char>,
    parent: Option<RefId>,
    children: Seq<(Seq<char>, RefId)>,
    orders: Seq<Seq<char>>,
) -> Seq<u8> {
    let forms = part.grid.forms@;
    part_head_xml(d, part, local_name, id, parent) + start_line(
        d + 1,
        "carray_list"@,
        counted("_childGuids"@, decimal_text(children.len())),
    ) + children_xml(d + 2, children, children.len() as int) + end_line(d + 1, "carray_list"@) + empty_line(
        d + 1,
        "CDeformerGuid"@,
        ref_attrs("targetDeformerGuid"@, plan.root_deformer_guid),
    ) + start_line(d + 1, "carray_list"@, counted("keyforms"@, decimal_text(forms.len()))) + part_forms_xml(
        d + 2,
        part,
        orders,
        forms.len() as int,
    ) + end_line(d + 1, "carray_list"@) + end_line(d, "CPartSource"@)
}

/// Writes the source of a part: `children` are its child objects, each
/// under its tag, and `orders` the draw-order texts of its keyforms; a
/// keyform without one gets `500`.
#[verifier::spinoff_prover]
#[verifier::rlimit(60)]
pub fn write_part_source(
    xml: &mut XmlWriter,
    plan: &ProjectPlan,
    part: &PartPlan,
    local_name: &str,
    id: &str,
    parent: Option<RefId>,
    children: &Vec<(&'static str, RefId)>,
    orders: &Vec<String>,
)
    requires
        old(xml)@.depth + 6 < usize::MAX,
    ensures
        final(xml)@ == (XmlWriterView {
            output: old(xml)@.output + part_source_xml(
                old(xml)@.depth,
                *plan,
                *part,
                local_name@,
                id@,
                parent,
                child_views(children@),
                orders@.map_values(|s: String| s@),
            ),
            depth: old(xml)@.depth,
        }),
{
    let ghost d = xml@.depth;
    let ghost start = xml@.output;
    let ghost cv = child_views(children@);
    let ghost ov = orders@.map_values(|s: String| s@);
    write_part_head(xml, part, local_name, id, parent);
    xml.start("carray_list", counted_attrs("_childGuids", number_text(children.len() as u64)).as_slice());
    let ghost children_start = xml@.output;
    let mut c: usize = 0;
    while c < children.len()
        invariant
            c <= children@.len(),
            cv == child_views(children@),
            xml@.depth == d + 2,
            xml@.output == children_start + children_xml(d + 2, cv, c as int),
        decreases children@.len() - c,
    {
        let (tag, child) = children[c];
        reference_without_name(xml, tag, child);
        c = c + 1;
    }
    xml.end("carray_list");
    reference(xml, "CDeformerGuid", "targetDeformerGuid", plan.root_deformer_guid);
    xml.start("carray_list", counted_attrs("keyforms", number_text(part.grid.forms.len() as u64)).as_slice());
    let ghost forms_start = xml@.output;
    let mut f: usize = 0;
    while f < part.grid.forms.len()
        invariant
            f <= part.grid.forms@.len(),
            ov == orders@.map_values(|s: String| s@),
            d + 6 < usize::MAX,
            xml@.depth == d + 2,
            xml@.output == forms_start + part_forms_xml(d + 2, *part, ov, f as int),
        decreases part.grid.forms@.len() - f,
    {
        if f < orders.len() {
            write_part_form(xml, part.grid.forms[f], part.source, orders[f].as_str());
        } else {
            write_part_form(xml, part.grid.forms[f], part.source, "500");
        }
        f = f + 1;
    }
    xml.end("carray_list");
    xml.end("CPartSource");
    assert(xml@.output =~= start + part_source_xml(d, *plan, *part, local_name@, id@, parent, cv, ov));
}

/// The identifier of a part's parent: the planned parent part, or the root
/// part when it has none or its parent is not planned.
pub open spec fn parent_ref(plan: ProjectPlan, parent: Option<usize>) -> RefId {
    match parent {
        Some(p) => if p < plan.parts@.len() {
            plan.parts@[p as int].guid
        } else {
            plan.root_part.guid
        },
        None => plan.root_part.guid,
    }
}

/// How many parts are written: those that have a plan.
pub open spec fn part_count(m: Moc3ModelView, plan: ProjectPlan) -> int {
    shorter(m.parts.len(), plan.parts@.len())
}

/// Whether every part's grid, the root part's among them, can be written.
pub open spec fn parts_ok(m: Moc3ModelView, plan: ProjectPlan) -> bool {
    &&& grid_ok(m.binding_bands, None, plan.root_part.grid, plan.parameters@)
    &&& forall|i: int|
        0 <= i < part_count(m, plan) ==> grid_ok(
            m.binding_bands,
            (#[trigger] m.parts[i]).binding_band_index,
            plan.parts@[i].grid,
            plan.parameters@,
        )
}

/// Part `i` at depth `d`: its grid with the key texts `texts`, then its
/// source with the draw-order texts `orders`.
pub open spec fn part_xml(d: nat, m: Moc3ModelView, plan: ProjectPlan, i: int, texts: Seq<Seq<Seq<char>>>, orders: Seq<Seq<char>>) -> Seq<u8> {
    let part = m.parts[i];
    let part_plan = plan.parts@[i];
    grid_xml(
        d,
        part_plan.grid,
        grid_bindings(m.binding_bands, part.binding_band_index)->Some_0,
        plan.parameters@,
        texts,
        part.id,
    ) + part_source_xml(
        d,
        plan,
        part_plan,
        part.id,
        part.id,
        Some(parent_ref(plan, part.parent_part_index)),
        children_of(m, plan, Some(i as usize)),
        orders,
    )
}

/// The first `n` parts.
pub open spec fn parts_list_xml(
    d: nat,
    m: Moc3ModelView,
    plan: ProjectPlan,
    texts: Seq<Seq<Seq<Seq<char>>>>,
    orders: Seq<Seq<Seq<char>>>,
    n: int,
) -> Seq<u8>
    decreases n,
{
    if n <= 0 {
        Seq::empty()
    } else {
        parts_list_xml(d, m, plan, texts, orders, n - 1) + part_xml(d, m, plan, n - 1, texts[n - 1], orders[n - 1])
    }
}

/// All parts at depth `d`: the root part's grid and source, then each part.
pub open spec fn parts_xml(
    d: nat,
    m: Moc3ModelView,
    plan: ProjectPlan,
    texts: Seq<Seq<Seq<Seq<char>>>>,
    orders: Seq<Seq<Seq<char>>>,
) -> Seq<u8> {
    grid_xml(d, plan.root_part.grid, Seq::empty(), plan.parameters@, Seq::empty(), "__RootPart__"@) + part_source_xml(
        d,
        plan,
        plan.root_part,
        "Root Part"@,
        "__RootPart__"@,
        None,
        root_children_of(m, plan),
        Seq::empty(),
    ) + parts_list_xml(d, m, plan, texts, orders, part_count(m, plan))
}

/// Writes part `i`: its grid, then its source.
#[verifier::spinoff_prover]
#[verifier::rlimit(60)]
fn write_part_entry(
    xml: &mut XmlWriter,
    plan: &ProjectPlan,
    model: &Moc3Model,
    i: usize,
    key_texts: &Vec<Vec<String>>,
    orders: &Vec<String>,
) -> (res: Result<(), Error>)
    requires
        old(xml)@.depth + 8 < usize::MAX,
        i < model@.parts.len(),
        i < plan.parts@.len(),
        grid_bindings(model@.binding_bands, model@.parts[i as int].binding_band_index) matches Some(b) ==> texts_fit(
            b,
            text_views(key_texts@),
        ),
    ensures
        grid_ok(model@.binding_bands, model@.parts[i as int].binding_band_index, plan.parts@[i as int].grid, plan.parameters@)
            ==> res is Ok && final(xml)@ == (XmlWriterView {
            output: old(xml)@.output + part_xml(
                old(xml)@.depth,
                model@,
                *plan,
                i as int,
                text_views(key_texts@),
                orders@.map_values(|s: String| s@),
            ),
            depth: old(xml)@.depth,
        }),
        !grid_ok(model@.binding_bands, model@.parts[i as int].binding_band_index, plan.parts@[i as int].grid, plan.parameters@)
            ==> cmo3_error(res),
{
    let ghost start = xml@.output;
    let parts = model.parts();
    assert(part_views(parts@) == model@.parts);
    let part = &parts[i];
    assert(model@.parts[i as int] == part@);
    let part_plan = &plan.parts[i];
    let grid = write_grid(xml, &part_plan.grid, model, part.binding_band_index(), plan.parameters.as_slice(), part.id(), key_texts);
    if grid.is_err() {
        return grid;
    }
    let parent = match part.parent_part_index() {
        Some(p) => if p < plan.parts.len() {
            plan.parts[p].guid
        } else {
            plan.root_part.guid
        },
        None => plan.root_part.guid,
    };
    let kids = part_children(plan, model, i);
    write_part_source(xml, plan, part_plan, part.id(), part.id(), Some(parent), &kids, orders);
    assert(xml@.output =~= start + part_xml(
        old(xml)@.depth,
        model@,
        *plan,
        i as int,
        text_views(key_texts@),
        orders@.map_values(|s: String| s@),
    ));
    Ok(())
}

/// Writes the root part and every planned part, each as its keyform grid
/// and its source. `key_texts[i]` gives the key texts of part `i`'s grid,
/// `orders[i]` the draw-order texts of its keyforms.
///
/// Fails at the first grid that cannot be written.
pub fn write_parts(
    xml: &mut XmlWriter,
    plan: &ProjectPlan,
    model: &Moc3Model,
    key_texts: &Vec<Vec<Vec<String>>>,
    orders: &Vec<Vec<String>>,
) -> (res: Result<(), Error>)
    requires
        old(xml)@.depth + 8 < usize::MAX,
        key_texts@.len() == model@.parts.len(),
        orders@.len() == model@.parts.len(),
        forall|i: int|
            0 <= i < model@.parts.len() ==> (grid_bindings(
                model@.binding_bands,
                (#[trigger] model@.parts[i]).binding_band_index,
            ) matches Some(b) ==> texts_fit(b, text_views(key_texts@[i]@))),
    ensures
        parts_ok(model@, *plan) ==> res is Ok && final(xml)@ == (XmlWriterView {
            output: old(xml)@.output + parts_xml(
                old(xml)@.depth,
                model@,
                *plan,
                key_texts@.map_values(|v: Vec<Vec<String>>| text_views(v@)),
                orders@.map_values(|v: Vec<String>| v@.map_values(|s: String| s@)),
            ),
            depth: old(xml)@.depth,
        }),
        !parts_ok(model@, *plan) ==> cmo3_error(res),
{
    let ghost d = xml@.depth;
    let ghost start = xml@.output;
    let ghost m = model@;
    let ghost tv = key_texts@.map_values(|v: Vec<Vec<String>>| text_views(v@));
    let ghost ov = orders@.map_values(|v: Vec<String>| v@.map_values(|s: String| s@));
    let no_texts: Vec<Vec<String>> = Vec::new();
    assert(text_views(no_texts@) =~= Seq::empty());
    let root_grid = write_grid(xml, &plan.root_part.grid, model, None, plan.parameters.as_slice(), "__RootPart__", &no_texts);
    if root_grid.is_err() {
        return root_grid;
    }
    let root_kids = root_children(plan, model);
    let no_orders: Vec<String> = Vec::new();
    assert(no_orders@.map_values(|s: String| s@) =~= Seq::empty());
    write_part_source(xml, plan, &plan.root_part, "Root Part", "__RootPart__", None, &root_kids, &no_orders);
    let ghost list_start = xml@.output;
    let n = if model.parts().len() <= plan.parts.len() {
        model.parts().len()
    } else {
        plan.parts.len()
    };
    let mut i: usize = 0;
    while i < n
        invariant
            i <= n,
            n == part_count(m, *plan),
            m == model@,
            tv == key_texts@.map_values(|v: Vec<Vec<String>>| text_views(v@)),
            ov == orders@.map_values(|v: Vec<String>| v@.map_values(|s: String| s@)),
            key_texts@.len() == m.parts.len(),
            orders@.len() == m.parts.len(),
            forall|j: int|
                0 <= j < m.parts.len() ==> (grid_bindings(m.binding_bands, (#[trigger] m.parts[j]).binding_band_index) matches Some(
                    b,
                ) ==> texts_fit(b, text_views(key_texts@[j]@))),
            forall|j: int|
                0 <= j < i ==> grid_ok(m.binding_bands, (#[trigger] m.parts[j]).binding_band_index, plan.parts@[j].grid, plan.parameters@),
            d + 8 < usize::MAX,
            xml@.depth == d,
            xml@.output == list_start + parts_list_xml(d, m, *plan, tv, ov, i as int),
        decreases n - i,
    {
        let entry = write_part_entry(xml, plan, model, i, &key_texts[i], &orders[i]);
        if entry.is_err() {
            assert(!parts_ok(m, *plan));
            return entry;
        }
        assert(tv[i as int] == text_views(key_texts@[i as int]@));
        assert(ov[i as int] == orders@[i as int]@.map_values(|s: String| s@));
        i = i + 1;
    }
    assert(xml@.output =~= start + parts_xml(d, m, *plan, tv, ov));
    Ok(())
}

} // verus!
