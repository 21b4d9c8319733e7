//! The deformer objects of the editor document: each deformer's grid and
//! source, with one form per keyform of its grid.

use vstd::prelude::*;

use super::grid::{decimal_text, grid_bindings, grid_ok, grid_xml, ref_attrs, reference, shared_attrs, start_shared, text_views, texts_fit, write_grid};
use super::images::{counted, counted_attrs, named, named_attrs};
use super::parts::{form_header_xml, write_form_header};
use super::plan::{DeformerPlan, ProjectPlan, RefId};
use super::sources::{deformer_source_xml, start_deformer_source};
use super::structure::shorter;
use super::xml::{attr, attr_views, empty_line, end_line, start_line, text_line, Attr, XmlWriter, XmlWriterView};
use crate::error::{cmo3_error, Error};
use crate::moc3::{
    deformer_views, Deformer, DeformerModel, Moc3Model, Moc3ModelView, RotationDeformer, RotationDeformerModel, WarpDeformer,
    WarpDeformerModel,
};
use crate::text::number_text;

verus! {

/// The texts of a color's channels.
pub struct ColorTexts {
    pub red: String,
    pub green: String,
    pub blue: String,
}

/// The channel texts of a color, as characters.
pub open spec fn color_view(c: ColorTexts) -> (Seq<char>, Seq<char>, Seq<char>) {
    (c.red@, c.green@, c.blue@)
}

/// A color named `name` with the given channel texts and full alpha, at
/// depth `d`.
pub open spec fn color_xml(d: nat, name: Seq<char>, c: (Seq<char>, Seq<char>, Seq<char>)) -> Seq<u8> {
    empty_line(
        d,
        "CFloatColor"@,
        seq![("xs.n"@, name), ("red"@, c.0), ("green"@, c.1), ("blue"@, c.2), ("alpha"@, "1.0"@)],
    )
}

/// Writes a color named `name` with the given channel texts.
pub fn write_color(xml: &mut XmlWriter, name: &str, color: &ColorTexts)
    ensures
        final(xml)@ == (XmlWriterView {
            output: old(xml)@.output + color_xml(old(xml)@.depth, name@, color_view(*color)),
            depth: old(xml)@.depth,
        }),
{
    let mut attrs: Vec<Attr> = Vec::new();
    attrs.push(attr("xs.n", String::from_str(name)));
    attrs.push(attr("red", color.red.clone()));
    attrs.push(attr("green", color.green.clone()));
    attrs.push(attr("blue", color.blue.clone()));
    attrs.push(attr("alpha", String::from_str("1.0")));
    assert(attr_views(attrs@) =~= seq![
        ("xs.n"@, name@),
        ("red"@, color.red@),
        ("green"@, color.green@),
        ("blue"@, color.blue@),
        ("alpha"@, "1.0"@),
    ]);
    xml.empty("CFloatColor", attrs.as_slice());
}

/// The texts of one form of a warp deformer: its opacity, its colors and
/// its lattice positions.
pub struct WarpFormTexts {
    pub opacity: String,
    pub multiply: ColorTexts,
    pub screen: ColorTexts,
    pub positions: String,
}

/// The texts of one form of a rotation deformer: its angle, origin, scale,
/// opacity and colors.
pub struct RotationFormTexts {
    pub angle: String,
    pub origin_x: String,
    pub origin_y: String,
    pub scale: String,
    pub opacity: String,
    pub multiply: ColorTexts,
    pub screen: ColorTexts,
}

/// Whether `c` holds the same text `v` for each channel.
pub open spec fn uniform_color(c: ColorTexts, v: Seq<char>) -> bool {
    c.red@ == v && c.green@ == v && c.blue@ == v
}

/// Whether `f` holds the texts of a warp form with no keyform: opaque,
/// multiplied by white, screened by black, with no positions.
pub open spec fn default_warp_form(f: WarpFormTexts) -> bool {
    &&& f.opacity@ == seq!['1']
    &&& uniform_color(f.multiply, seq!['1'])
    &&& uniform_color(f.screen, seq!['0'])
    &&& f.positions@ == Seq::<char>::empty()
}

/// Whether `f` holds the texts of a rotation form with no keyform: no
/// angle, at the origin, unit scale, opaque, multiplied by white and
/// screened by black.
pub open spec fn default_rotation_form(f: RotationFormTexts) -> bool {
    &&& f.angle@ == seq!['0']
    &&& f.origin_x@ == seq!['0']
    &&& f.origin_y@ == seq!['0']
    &&& f.scale@ == seq!['1']
    &&& f.opacity@ == seq!['1']
    &&& uniform_color(f.multiply, seq!['1'])
    &&& uniform_color(f.screen, seq!['0'])
}

/// Returns a color with the text `v` for each channel.
fn uniform(v: &str) -> (res: ColorTexts)
    ensures
        uniform_color(res, v@),
{
    ColorTexts { red: String::from_str(v), green: String::from_str(v), blue: String::from_str(v) }
}

/// Returns the texts of a warp form with no keyform.
fn default_warp_texts() -> (res: WarpFormTexts)
    ensures
        default_warp_form(res),
{
    proof {
        reveal_strlit("1");
        reveal_strlit("0");
    }
    let res = WarpFormTexts { opacity: String::from_str("1"), multiply: uniform("1"), screen: uniform("0"), positions: String::new() };
    assert(res.opacity@ =~= seq!['1']);
    assert(res.multiply.red@ =~= seq!['1']);
    assert(res.screen.red@ =~= seq!['0']);
    assert(res.positions@ =~= Seq::<char>::empty());
    res
}

/// Returns the texts of a rotation form with no keyform.
fn default_rotation_texts() -> (res: RotationFormTexts)
    ensures
        default_rotation_form(res),
{
    proof {
        reveal_strlit("1");
        reveal_strlit("0");
    }
    let res = RotationFormTexts {
        angle: String::from_str("0"),
        origin_x: String::from_str("0"),
        origin_y: String::from_str("0"),
        scale: String::from_str("1"),
        opacity: String::from_str("1"),
        multiply: uniform("1"),
        screen: uniform("0"),
    };
    assert(res.angle@ =~= seq!['0']);
    assert(res.scale@ =~= seq!['1']);
    assert(res.multiply.red@ =~= seq!['1']);
    assert(res.screen.red@ =~= seq!['0']);
    res
}

/// Fits the texts of a warp deformer's keyforms to the `count` forms of
/// its grid: form `k` keeps the texts of keyform `k` where there is one,
/// and a form without a keyform gets the default texts.
pub fn complete_warp_forms(forms: &mut Vec<WarpFormTexts>, count: usize)
    ensures
        final(forms)@.len() == count,
        forall|k: int| 0 <= k < count && k < old(forms)@.len() ==> #[trigger] final(forms)@[k] == old(forms)@[k],
        forall|k: int| old(forms)@.len() <= k < count ==> default_warp_form(#[trigger] final(forms)@[k]),
{
    forms.truncate(count);
    while forms.len() < count
        invariant
            forms@.len() <= count,
            forall|k: int| 0 <= k < forms@.len() && k < old(forms)@.len() ==> #[trigger] forms@[k] == old(forms)@[k],
            forall|k: int| old(forms)@.len() <= k < forms@.len() ==> default_warp_form(#[trigger] forms@[k]),
            forms@.len() < count ==> forms@.len() >= old(forms)@.len(),
        decreases count - forms@.len(),
    {
        forms.push(default_warp_texts());
    }
}

/// Fits the texts of a rotation deformer's keyforms to the `count` forms
/// of its grid: form `k` keeps the texts of keyform `k` where there is
/// one, and a form without a keyform gets the default texts.
pub fn complete_rotation_forms(forms: &mut Vec<RotationFormTexts>, count: usize)
    ensures
        final(forms)@.len() == count,
        forall|k: int| 0 <= k < count && k < old(forms)@.len() ==> #[trigger] final(forms)@[k] == old(forms)@[k],
        forall|k: int| old(forms)@.len() <= k < count ==> default_rotation_form(#[trigger] final(forms)@[k]),
{
    forms.truncate(count);
    while forms.len() < count
        invariant
            forms@.len() <= count,
            forall|k: int| 0 <= k < forms@.len() && k < old(forms)@.len() ==> #[trigger] forms@[k] == old(forms)@[k],
            forall|k: int| old(forms)@.len() <= k < forms@.len() ==> default_rotation_form(#[trigger] forms@[k]),
            forms@.len() < count ==> forms@.len() >= old(forms)@.len(),
        decreases count - forms@.len(),
    {
        forms.push(default_rotation_texts());
    }
}

/// The deformer part of a form at depth `d`: its header, opacity, colors
/// and coordinate type.
#[verifier::opaque]
pub open spec fn deformer_form_xml(
    d: nat,
    project: ProjectPlan,
    form: RefId,
    source_tag: Seq<char>,
    source: RefId,
    opacity: Seq<char>,
    multiply: (Seq<char>, Seq<char>, Seq<char>),
    screen: (Seq<char>, Seq<char>, Seq<char>),
) -> Seq<u8> {
    start_line(d, "ACDeformerForm"@, named("super"@)) + form_header_xml(d + 1, form, source_tag, source) + text_line(
        d + 1,
        "f"@,
        named("opacity"@),
        opacity,
    ) + color_xml(d + 1, "multiplyColor"@, multiply) + color_xml(d + 1, "screenColor"@, screen) + empty_line(
        d + 1,
        "CoordType"@,
        ref_attrs("coordType"@, project.coord_type),
    ) + end_line(d, "ACDeformerForm"@)
}

/// Writes the deformer part of a form.
#[verifier::spinoff_prover]
#[verifier::rlimit(60)]
fn write_deformer_form(
    xml: &mut XmlWriter,
    project: &ProjectPlan,
    form: RefId,
    source_tag: &str,
    source: RefId,
    opacity: &str,
    multiply: &ColorTexts,
    screen: &ColorTexts,
)
    requires
        old(xml)@.depth + 2 < usize::MAX,
    ensures
        final(xml)@ == (XmlWriterView {
            output: old(xml)@.output + deformer_form_xml(
                old(xml)@.depth,
                *project,
                form,
                source_tag@,
                source,
                opacity@,
                color_view(*multiply),
                color_view(*screen),
            ),
            depth: old(xml)@.depth,
        }),
{
    let ghost d = xml@.depth;
    let ghost start = xml@.output;
    xml.start("ACDeformerForm", named_attrs("super").as_slice());
    write_form_header(xml, form, source_tag, source);
    xml.text("f", named_attrs("opacity").as_slice(), opacity);
    write_color(xml, "multiplyColor", multiply);
    write_color(xml, "screenColor", screen);
    reference(xml, "CoordType", "coordType", project.coord_type);
    xml.end("ACDeformerForm");
    reveal(deformer_form_xml);
    assert(xml@.output =~= start + deformer_form_xml(
        d,
        *project,
        form,
        source_tag@,
        source,
        opacity@,
        color_view(*multiply),
        color_view(*screen),
    ));
}

/// How many position values warp keyform `index` has: two per lattice
/// point, none without the keyform.
pub open spec fn warp_position_count(w: WarpDeformerModel, index: int) -> nat {
    if index < w.keyforms.len() {
        2 * w.keyforms[index].positions.len()
    } else {
        0
    }
}

/// One form of a warp deformer at depth `d`.
#[verifier::opaque]
pub open spec fn warp_form_xml(d: nat, project: ProjectPlan, form: RefId, source: RefId, t: WarpFormTexts, count: nat) -> Seq<u8> {
    start_line(d, "CWarpDeformerForm"@, Seq::empty()) + deformer_form_xml(
        d + 1,
        project,
        form,
        "CWarpDeformerSource"@,
        source,
        t.opacity@,
        color_view(t.multiply),
        color_view(t.screen),
    ) + text_line(d + 1, "float-array"@, counted("positions"@, decimal_text(count)), t.positions@) + end_line(
        d,
        "CWarpDeformerForm"@,
    )
}

/// Writes one form of a warp deformer, with `count` position values.
#[verifier::spinoff_prover]
fn write_warp_form(xml: &mut XmlWriter, project: &ProjectPlan, form: RefId, source: RefId, t: &WarpFormTexts, count: u64)
    requires
        old(xml)@.depth + 3 < usize::MAX,
    ensures
        final(xml)@ == (XmlWriterView {
            output: old(xml)@.output + warp_form_xml(old(xml)@.depth, *project, form, source, *t, count as nat),
            depth: old(xml)@.depth,
        }),
{
    let ghost d = xml@.depth;
    let ghost start = xml@.output;
    let none: Vec<Attr> = Vec::new();
    assert(attr_views(none@) =~= Seq::empty());
    xml.start("CWarpDeformerForm", none.as_slice());
    write_deformer_form(xml, project, form, "CWarpDeformerSource", source, t.opacity.as_str(), &t.multiply, &t.screen);
    xml.text("float-array", counted_attrs("positions", number_text(count)).as_slice(), t.positions.as_str());
    xml.end("CWarpDeformerForm");
    reveal(warp_form_xml);
    assert(xml@.output =~= start + warp_form_xml(d, *project, form, source, *t, count as nat));
}

/// The first `n` forms of a warp deformer.
pub open spec fn warp_forms_xml(d: nat, project: ProjectPlan, plan: DeformerPlan, w: WarpDeformerModel, texts: Seq<WarpFormTexts>, n: int) -> Seq<u8>
    decreases n,
{
    if n <= 0 {
        Seq::empty()
    } else {
        warp_forms_xml(d, project, plan, w, texts, n - 1) + warp_form_xml(
            d,
            project,
            plan.grid.forms@[n - 1],
            plan.source,
            texts[n - 1],
            warp_position_count(w, n - 1),
        )
    }
}

/// The name of deformer `index` of a kind: the kind's word and the number.
pub open spec fn kind_name(kind: Seq<char>, index: nat) -> Seq<char> {
    kind + decimal_text(index)
}

/// The source of warp deformer `index` at depth `d`, with the texts of its
/// forms.
pub open spec fn warp_source_xml(d: nat, project: ProjectPlan, plan: DeformerPlan, w: WarpDeformerModel, index: nat, texts: Seq<WarpFormTexts>) -> Seq<u8> {
    let forms = plan.grid.forms@;
    start_line(d, "CWarpDeformerSource"@, shared_attrs(plan.source)) + deformer_source_xml(
        d + 1,
        project,
        plan,
        w.parent_deformer_index,
        kind_name("Warp"@, index),
    ) + text_line(d + 1, "i"@, named("col"@), decimal_text(w.columns as nat)) + text_line(
        d + 1,
        "i"@,
        named("row"@),
        decimal_text(w.rows as nat),
    ) + text_line(d + 1, "b"@, named("isQuadTransform"@), "false"@) + start_line(
        d + 1,
        "carray_list"@,
        counted("keyforms"@, decimal_text(forms.len())),
    ) + warp_forms_xml(d + 2, project, plan, w, texts, forms.len() as int) + end_line(d + 1, "carray_list"@) + end_line(
        d,
        "CWarpDeformerSource"@,
    )
}

/// Writes the source of warp deformer `index`; `texts[i]` gives the texts
/// of form `i`.
#[verifier::spinoff_prover]
#[verifier::rlimit(60)]
pub fn write_warp(xml: &mut XmlWriter, project: &ProjectPlan, plan: &DeformerPlan, deformer: &WarpDeformer, index: usize, texts: &Vec<WarpFormTexts>)
    requires
        old(xml)@.depth + 8 < usize::MAX,
        texts@.len() >= plan.grid.forms@.len(),
        forall|j: int| 0 <= j < deformer@.keyforms.len() ==> (#[trigger] deformer@.keyforms[j]).positions.len() <= u32::MAX,
    ensures
        final(xml)@ == (XmlWriterView {
            output: old(xml)@.output + warp_source_xml(old(xml)@.depth, *project, *plan, deformer@, index as nat, texts@),
            depth: old(xml)@.depth,
        }),
{
    let ghost d = xml@.depth;
    let ghost start = xml@.output;
    let ghost w = deformer@;
    start_shared(xml, "CWarpDeformerSource", plan.source);
    let name = String::from_str("Warp").concat(number_text(index as u64).as_str());
    start_deformer_source(xml, project, plan, deformer.parent_deformer_index, name.as_str());
    xml.text("i", named_attrs("col").as_slice(), number_text(deformer.columns as u64).as_str());
    xml.text("i", named_attrs("row").as_slice(), number_text(deformer.rows as u64).as_str());
    xml.text("b", named_attrs("isQuadTransform").as_slice(), "false");
    xml.start("carray_list", counted_attrs("keyforms", number_text(plan.grid.forms.len() as u64)).as_slice());
    let ghost forms_start = xml@.output;
    let mut f: usize = 0;
    while f < plan.grid.forms.len()
        invariant
            f <= plan.grid.forms@.len(),
            texts@.len() >= plan.grid.forms@.len(),
            w == deformer@,
            forall|j: int| 0 <= j < w.keyforms.len() ==> (#[trigger] w.keyforms[j]).positions.len() <= u32::MAX,
            d + 8 < usize::MAX,
            xml@.depth == d + 2,
            xml@.output == forms_start + warp_forms_xml(d + 2, *project, *plan, w, texts@, f as int),
        decreases plan.grid.forms@.len() - f,
    {
        let count: u64 = if f < deformer.keyforms.len() {
            assert(w.keyforms[f as int] == deformer.keyforms@[f as int]@);
            2 * (deformer.keyforms[f].positions.len() as u64)
        } else {
            0
        };
        write_warp_form(xml, project, plan.grid.forms[f], plan.source, &texts[f], count);
        f = f + 1;
    }
    xml.end("carray_list");
    xml.end("CWarpDeformerSource");
    assert(xml@.output =~= start + warp_source_xml(d, *project, *plan, w, index as nat, texts@));
}

/// The reflection flags of rotation keyform `index`: the keyform's, or
/// none without it.
pub open spec fn reflected_at(r: RotationDeformerModel, index: int) -> (bool, bool) {
    if index < r.keyforms.len() {
        r.keyforms[index].reflected
    } else {
        (false, false)
    }
}

/// The text of a flag.
pub open spec fn flag_text(b: bool) -> Seq<char> {
    if b {
        "true"@
    } else {
        "false"@
    }
}

/// Returns the text of a flag.
fn flag(b: bool) -> (res: String)
    ensures
        res@ == flag_text(b),
{
    if b {
        String::from_str("true")
    } else {
        String::from_str("false")
    }
}

/// The attributes of a rotation form: its angle, origin, scale and
/// reflection flags.
pub open spec fn rotation_attrs(t: RotationFormTexts, reflected: (bool, bool)) -> Seq<(Seq<char>, Seq<char>)> {
    seq![
        ("angle"@, t.angle@),
        ("originX"@, t.origin_x@),
        ("originY"@, t.origin_y@),
        ("scale"@, t.scale@),
        ("isReflectX"@, flag_text(reflected.0)),
        ("isReflectY"@, flag_text(reflected.1)),
    ]
}

/// One form of a rotation deformer at depth `d`.
#[verifier::opaque]
pub open spec fn rotation_form_xml(d: nat, project: ProjectPlan, form: RefId, source: RefId, t: RotationFormTexts, reflected: (bool, bool)) -> Seq<u8> {
    start_line(d, "CRotationDeformerForm"@, rotation_attrs(t, reflected)) + deformer_form_xml(
        d + 1,
        project,
        form,
        "CRotationDeformerSource"@,
        source,
        t.opacity@,
        color_view(t.multiply),
        color_view(t.screen),
    ) + end_line(d, "CRotationDeformerForm"@)
}

/// Writes one form of a rotation deformer.
#[verifier::spinoff_prover]
fn write_rotation_form(xml: &mut XmlWriter, project: &ProjectPlan, form: RefId, source: RefId, t: &RotationFormTexts, reflected: (bool, bool))
    requires
        old(xml)@.depth + 3 < usize::MAX,
    ensures
        final(xml)@ == (XmlWriterView {
            output: old(xml)@.output + rotation_form_xml(old(xml)@.depth, *project, form, source, *t, reflected),
            depth: old(xml)@.depth,
        }),
{
    let ghost d = xml@.depth;
    let ghost start = xml@.output;
    let mut attrs: Vec<Attr> = Vec::new();
    attrs.push(attr("angle", t.angle.clone()));
    attrs.push(attr("originX", t.origin_x.clone()));
    attrs.push(attr("originY", t.origin_y.clone()));
    attrs.push(attr("scale", t.scale.clone()));
    attrs.push(attr("isReflectX", flag(reflected.0)));
    attrs.push(attr("isReflectY", flag(reflected.1)));
    assert(attr_views(attrs@) =~= rotation_attrs(*t, reflected));
    xml.start("CRotationDeformerForm", attrs.as_slice());
    write_deformer_form(xml, project, form, "CRotationDeformerSource", source, t.opacity.as_str(), &t.multiply, &t.screen);
    xml.end("CRotationDeformerForm");
    reveal(rotation_form_xml);
    assert(xml@.output =~= start + rotation_form_xml(d, *project, form, source, *t, reflected));
}

/// The first `n` forms of a rotation deformer.
pub open spec fn rotation_forms_xml(
    d: nat,
    project: ProjectPlan,
    plan: DeformerPlan,
    r: RotationDeformerModel,
    texts: Seq<RotationFormTexts>,
    n: int,
) -> Seq<u8>
    decreases n,
{
    if n <= 0 {
        Seq::empty()
    } else {
        rotation_forms_xml(d, project, plan, r, texts, n - 1) + rotation_form_xml(
            d,
            project,
            plan.grid.forms@[n - 1],
            plan.source,
            texts[n - 1],
            reflected_at(r, n - 1),
        )
    }
}

/// The source of rotation deformer `index` at depth `d`, with the texts of
/// its forms and of its base angle.
pub open spec fn rotation_source_xml(
    d: nat,
    project: ProjectPlan,
    plan: DeformerPlan,
    r: RotationDeformerModel,
    index: nat,
    texts: Seq<RotationFormTexts>,
    base_angle: Seq<char>,
) -> Seq<u8> {
    let forms = plan.grid.forms@;
    start_line(d, "CRotationDeformerSource"@, shared_attrs(plan.source)) + deformer_source_xml(
        d + 1,
        project,
        plan,
        r.parent_deformer_index,
        kind_name("Rotation"@, index),
    ) + text_line(d + 1, "b"@, named("useBoneUi_testImpl"@), "true"@) + start_line(
        d + 1,
        "carray_list"@,
        counted("keyforms"@, decimal_text(forms.len())),
    ) + rotation_forms_xml(d + 2, project, plan, r, texts, forms.len() as int) + end_line(d + 1, "carray_list"@)
        + text_line(d + 1, "f"@, named("handleLengthOnCanvas"@), "200.0"@) + text_line(
        d + 1,
        "f"@,
        named("circleRadiusOnCanvas"@),
        "100.0"@,
    ) + text_line(d + 1, "f"@, named("baseAngle"@), base_angle) + end_line(d, "CRotationDeformerSource"@)
}

/// Writes the source of rotation deformer `index`; `texts[i]` gives the
/// texts of form `i` and `base_angle` the text of its base angle.
#[verifier::spinoff_prover]
#[verifier::rlimit(60)]
pub fn write_rotation(
    xml: &mut XmlWriter,
    project: &ProjectPlan,
    plan: &DeformerPlan,
    deformer: &RotationDeformer,
    index: usize,
    texts: &Vec<RotationFormTexts>,
    base_angle: &str,
)
    requires
        old(xml)@.depth + 8 < usize::MAX,
        texts@.len() >= plan.grid.forms@.len(),
    ensures
        final(xml)@ == (XmlWriterView {
            output: old(xml)@.output + rotation_source_xml(
                old(xml)@.depth,
                *project,
                *plan,
                deformer@,
                index as nat,
                texts@,
                base_angle@,
            ),
            depth: old(xml)@.depth,
        }),
{
    let ghost d = xml@.depth;
    let ghost start = xml@.output;
    let ghost r = deformer@;
    start_shared(xml, "CRotationDeformerSource", plan.source);
    let name = String::from_str("Rotation").concat(number_text(index as u64).as_str());
    start_deformer_source(xml, project, plan, deformer.parent_deformer_index, name.as_str());
    xml.text("b", named_attrs("useBoneUi_testImpl").as_slice(), "true");
    xml.start("carray_list", counted_attrs("keyforms", number_text(plan.grid.forms.len() as u64)).as_slice());
    let ghost forms_start = xml@.output;
    let mut f: usize = 0;
    while f < plan.grid.forms.len()
        invariant
            f <= plan.grid.forms@.len(),
            texts@.len() >= plan.grid.forms@.len(),
            r == deformer@,
            d + 8 < usize::MAX,
            xml@.depth == d + 2,
            xml@.output == forms_start + rotation_forms_xml(d + 2, *project, *plan, r, texts@, f as int),
        decreases plan.grid.forms@.len() - f,
    {
        let reflected = if f < deformer.keyforms.len() {
            deformer.keyforms[f].reflected
        } else {
            (false, false)
        };
        write_rotation_form(xml, project, plan.grid.forms[f], plan.source, &texts[f], reflected);
        f = f + 1;
    }
    xml.end("carray_list");
    xml.text("f", named_attrs("handleLengthOnCanvas").as_slice(), "200.0");
    xml.text("f", named_attrs("circleRadiusOnCanvas").as_slice(), "100.0");
    xml.text("f", named_attrs("baseAngle").as_slice(), base_angle);
    xml.end("CRotationDeformerSource");
    assert(xml@.output =~= start + rotation_source_xml(d, *project, *plan, r, index as nat, texts@, base_angle@));
}

/// How many deformers are written: those that have a plan.
pub open spec fn deformer_count(m: Moc3ModelView, plan: ProjectPlan) -> int {
    shorter(m.deformers.len(), plan.deformers@.len())
}

/// Whether deformer `i`'s grid can be written.
pub open spec fn deformer_ok(m: Moc3ModelView, plan: ProjectPlan, i: int) -> bool {
    grid_ok(
        m.binding_bands,
        crate::moc3::deformer_band(m.deformers[i]),
        plan.deformers@[i].grid,
        plan.parameters@,
    )
}

/// Whether every planned deformer can be written.
pub open spec fn deformers_ok(m: Moc3ModelView, plan: ProjectPlan) -> bool {
    forall|i: int| 0 <= i < deformer_count(m, plan) ==> #[trigger] deformer_ok(m, plan, i)
}

/// Whether the texts given for deformer `i` cover it: the key texts fit
/// its band, and its kind's form texts cover its grid; a warp's keyforms
/// have at most `u32::MAX` points.
pub open spec fn deformer_texts_fit(
    m: Moc3ModelView,
    plan: ProjectPlan,
    i: int,
    texts: Seq<Seq<Seq<char>>>,
    warp: Seq<WarpFormTexts>,
    rotation: Seq<RotationFormTexts>,
) -> bool {
    &&& (grid_bindings(m.binding_bands, crate::moc3::deformer_band(m.deformers[i])) matches Some(b) ==> texts_fit(b, texts))
    &&& match m.deformers[i] {
        DeformerModel::Warp(w) => warp.len() >= plan.deformers@[i].grid.forms@.len() && forall|j: int|
            0 <= j < w.keyforms.len() ==> (#[trigger] w.keyforms[j]).positions.len() <= u32::MAX,
        DeformerModel::Rotation(_) => rotation.len() >= plan.deformers@[i].grid.forms@.len(),
    }
}

/// Deformer `i` at depth `d`: its grid, then the source of its kind.
pub open spec fn deformer_xml(
    d: nat,
    m: Moc3ModelView,
    plan: ProjectPlan,
    i: int,
    texts: Seq<Seq<Seq<char>>>,
    warp: Seq<WarpFormTexts>,
    rotation: Seq<RotationFormTexts>,
    base_angle: Seq<char>,
) -> Seq<u8> {
    let deformer_plan = plan.deformers@[i];
    grid_xml(
        d,
        deformer_plan.grid,
        grid_bindings(m.binding_bands, crate::moc3::deformer_band(m.deformers[i]))->Some_0,
        plan.parameters@,
        texts,
        kind_name("Deformer"@, i as nat),
    ) + match m.deformers[i] {
        DeformerModel::Warp(w) => warp_source_xml(d, plan, deformer_plan, w, i as nat, warp),
        DeformerModel::Rotation(r) => rotation_source_xml(d, plan, deformer_plan, r, i as nat, rotation, base_angle),
    }
}

/// The first `n` deformers.
pub open spec fn deformers_list_xml(
    d: nat,
    m: Moc3ModelView,
    plan: ProjectPlan,
    texts: Seq<Seq<Seq<Seq<char>>>>,
    warp: Seq<Seq<WarpFormTexts>>,
    rotation: Seq<Seq<RotationFormTexts>>,
    base_angles: Seq<Seq<char>>,
    n: int,
) -> Seq<u8>
    decreases n,
{
    if n <= 0 {
        Seq::empty()
    } else {
        deformers_list_xml(d, m, plan, texts, warp, rotation, base_angles, n - 1) + deformer_xml(
            d,
            m,
            plan,
            n - 1,
            texts[n - 1],
            warp[n - 1],
            rotation[n - 1],
            base_angles[n - 1],
        )
    }
}

/// Writes deformer `i`: its grid, then its source.
#[verifier::spinoff_prover]
#[verifier::rlimit(60)]
fn write_deformer_entry(
    xml: &mut XmlWriter,
    plan: &ProjectPlan,
    model: &Moc3Model,
    i: usize,
    key_texts: &Vec<Vec<String>>,
    warp: &Vec<WarpFormTexts>,
    rotation: &Vec<RotationFormTexts>,
    base_angle: &String,
) -> (res: Result<(), Error>)
    requires
        old(xml)@.depth + 8 < usize::MAX,
        i < model@.deformers.len(),
        i < plan.deformers@.len(),
        deformer_texts_fit(model@, *plan, i as int, text_views(key_texts@), warp@, rotation@),
    ensures
        deformer_ok(model@, *plan, i as int) ==> res is Ok && final(xml)@ == (XmlWriterView {
            output: old(xml)@.output + deformer_xml(
                old(xml)@.depth,
                model@,
                *plan,
                i as int,
                text_views(key_texts@),
                warp@,
                rotation@,
                base_angle@,
            ),
            depth: old(xml)@.depth,
        }),
        !deformer_ok(model@, *plan, i as int) ==> cmo3_error(res),
{
    let ghost start = xml@.output;
    let deformers = model.deformers();
    assert(deformer_views(deformers@) == model@.deformers);
    let deformer = &deformers[i];
    assert(model@.deformers[i as int] == deformer@);
    let deformer_plan = &plan.deformers[i];
    let name = String::from_str("Deformer").concat(number_text(i as u64).as_str());
    let grid = write_grid(
        xml,
        &deformer_plan.grid,
        model,
        deformer.binding_band_index(),
        plan.parameters.as_slice(),
        name.as_str(),
        key_texts,
    );
    if grid.is_err() {
        return grid;
    }
    match deformer {
        Deformer::Warp(w) => write_warp(xml, plan, deformer_plan, w, i, warp),
        Deformer::Rotation(r) => write_rotation(xml, plan, deformer_plan, r, i, rotation, base_angle.as_str()),
    }
    assert(xml@.output =~= start + deformer_xml(
        old(xml)@.depth,
        model@,
        *plan,
        i as int,
        text_views(key_texts@),
        warp@,
        rotation@,
        base_angle@,
    ));
    Ok(())
}

/// Writes every planned deformer, each as its keyform grid and the source
/// of its kind. For deformer `i`, `key_texts[i]` gives the key texts of its
/// grid; a warp's form texts are `warp_texts[i]`, a rotation's
/// `rotation_texts[i]` with its base angle `base_angles[i]`.
///
/// Fails at the first grid that cannot be written.
pub fn write_deformers(
    xml: &mut XmlWriter,
    plan: &ProjectPlan,
    model: &Moc3Model,
    key_texts: &Vec<Vec<Vec<String>>>,
    warp_texts: &Vec<Vec<WarpFormTexts>>,
    rotation_texts: &Vec<Vec<RotationFormTexts>>,
    base_angles: &Vec<String>,
) -> (res: Result<(), Error>)
    requires
        old(xml)@.depth + 8 < usize::MAX,
        key_texts@.len() == model@.deformers.len(),
        warp_texts@.len() == model@.deformers.len(),
        rotation_texts@.len() == model@.deformers.len(),
        base_angles@.len() == model@.deformers.len(),
        forall|i: int|
            0 <= i < deformer_count(model@, *plan) ==> #[trigger] deformer_texts_fit(
                model@,
                *plan,
                i,
                text_views(key_texts@[i]@),
                warp_texts@[i]@,
                rotation_texts@[i]@,
            ),
    ensures
        deformers_ok(model@, *plan) ==> res is Ok && final(xml)@ == (XmlWriterView {
            output: old(xml)@.output + deformers_list_xml(
                old(xml)@.depth,
                model@,
                *plan,
                key_texts@.map_values(|v: Vec<Vec<String>>| text_views(v@)),
                warp_texts@.map_values(|v: Vec<WarpFormTexts>| v@),
                rotation_texts@.map_values(|v: Vec<RotationFormTexts>| v@),
                base_angles@.map_values(|s: String| s@),
                deformer_count(model@, *plan),
            ),
            depth: old(xml)@.depth,
        }),
        !deformers_ok(model@, *plan) ==> cmo3_error(res),
{
    let ghost d = xml@.depth;
    let ghost start = xml@.output;
    let ghost m = model@;
    let ghost tv = key_texts@.map_values(|v: Vec<Vec<String>>| text_views(v@));
    let ghost wv = warp_texts@.map_values(|v: Vec<WarpFormTexts>| v@);
    let ghost rv = rotation_texts@.map_values(|v: Vec<RotationFormTexts>| v@);
    let ghost bv = base_angles@.map_values(|s: String| s@);
    let n = if model.deformers().len() <= plan.deformers.len() {
        model.deformers().len()
    } else {
        plan.deformers.len()
    };
    let mut i: usize = 0;
    while i < n
        invariant
            i <= n,
            n == deformer_count(m, *plan),
            m == model@,
            tv == key_texts@.map_values(|v: Vec<Vec<String>>| text_views(v@)),
            wv == warp_texts@.map_values(|v: Vec<WarpFormTexts>| v@),
            rv == rotation_texts@.map_values(|v: Vec<RotationFormTexts>| v@),
            bv == base_angles@.map_values(|s: String| s@),
            key_texts@.len() == m.deformers.len(),
            warp_texts@.len() == m.deformers.len(),
            rotation_texts@.len() == m.deformers.len(),
            base_angles@.len() == m.deformers.len(),
            forall|j: int|
                0 <= j < deformer_count(m, *plan) ==> #[trigger] deformer_texts_fit(
                    m,
                    *plan,
                    j,
                    text_views(key_texts@[j]@),
                    warp_texts@[j]@,
                    rotation_texts@[j]@,
                ),
            forall|j: int| 0 <= j < i ==> #[trigger] deformer_ok(m, *plan, j),
            d + 8 < usize::MAX,
            xml@.depth == d,
            xml@.output == start + deformers_list_xml(d, m, *plan, tv, wv, rv, bv, i as int),
        decreases n - i,
    {
        assert(deformer_texts_fit(m, *plan, i as int, text_views(key_texts@[i as int]@), warp_texts@[i as int]@, rotation_texts@[i as int]@));
        let entry = write_deformer_entry(xml, plan, model, i, &key_texts[i], &warp_texts[i], &rotation_texts[i], &base_angles[i]);
        if entry.is_err() {
            assert(!deformers_ok(m, *plan));
            return entry;
        }
        i = i + 1;
    }
    Ok(())
}

} // verus!
