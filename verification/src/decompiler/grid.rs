//! Keyform grids of the editor document: where each keyform of an object
//! sits on the axes of its parameter bindings.

use vstd::prelude::*;

use super::plan::{GridPlan, ParameterPlan, RefId};
use super::xml::{
    attr, attr_views, empty_line, end_line, grid_access_key, key_at, start_line, text_line, Attr, XmlWriter,
    XmlWriterView,
};
use crate::error::{cmo3_error, invalid_cmo3, Error};
use crate::moc3::{band_views, Moc3Model, ParameterBindingModel};
use crate::text::{ascii_chars, decimal, number_text};

verus! {

/// The decimal text of `n`.
pub open spec fn decimal_text(n: nat) -> Seq<char> {
    ascii_chars(decimal(n))
}

/// How a reference is written: `#` and its number.
pub open spec fn ref_text(id: RefId) -> Seq<char> {
    ascii_chars(seq![35u8] + decimal(id.index as nat))
}

/// The attributes that declare an object: its reference and its number.
pub open spec fn shared_attrs(id: RefId) -> Seq<(Seq<char>, Seq<char>)> {
    seq![("xs.id"@, ref_text(id)), ("xs.idx"@, decimal_text(id.index as nat))]
}

/// The attributes of a named reference.
pub open spec fn ref_attrs(name: Seq<char>, id: RefId) -> Seq<(Seq<char>, Seq<char>)> {
    seq![("xs.n"@, name), ("xs.ref"@, ref_text(id))]
}

/// The attributes of a named list of `count` items.
pub open spec fn list_attrs(name: Seq<char>, count: nat) -> Seq<(Seq<char>, Seq<char>)> {
    seq![("xs.n"@, name), ("count"@, decimal_text(count))]
}

/// The attribute that names an element.
pub open spec fn name_attr(name: Seq<char>) -> Seq<(Seq<char>, Seq<char>)> {
    seq![("xs.n"@, name)]
}

/// Returns the attributes that declare an object.
fn shared_attr_list(id: RefId) -> (res: Vec<Attr>)
    ensures
        attr_views(res@) == shared_attrs(id),
{
    let mut attrs: Vec<Attr> = Vec::new();
    attrs.push(attr("xs.id", id.value()));
    attrs.push(attr("xs.idx", number_text(id.index as u64)));
    assert(attr_views(attrs@) =~= shared_attrs(id));
    attrs
}

/// Opens the element that declares an object.
pub fn start_shared(xml: &mut XmlWriter, tag: &str, id: RefId)
    requires
        old(xml)@.depth < usize::MAX,
    ensures
        final(xml)@ == (XmlWriterView {
            output: old(xml)@.output + start_line(old(xml)@.depth, tag@, shared_attrs(id)),
            depth: old(xml)@.depth + 1,
        }),
{
    let attrs = shared_attr_list(id);
    xml.start(tag, attrs.as_slice());
}

/// Opens the element that declares an object, with `attrs` before its
/// reference and number.
pub fn start_shared_with(xml: &mut XmlWriter, tag: &str, id: RefId, attrs: Vec<Attr>)
    requires
        old(xml)@.depth < usize::MAX,
    ensures
        final(xml)@ == (XmlWriterView {
            output: old(xml)@.output + start_line(old(xml)@.depth, tag@, attr_views(attrs@) + shared_attrs(id)),
            depth: old(xml)@.depth + 1,
        }),
{
    let mut attrs = attrs;
    let ghost extra = attrs@;
    attrs.push(attr("xs.id", id.value()));
    attrs.push(attr("xs.idx", number_text(id.index as u64)));
    assert(attr_views(attrs@) =~= attr_views(extra) + shared_attrs(id));
    xml.start(tag, attrs.as_slice());
}

/// Writes an empty element that declares an object, with `attrs` before its
/// reference and number.
pub fn empty_shared(xml: &mut XmlWriter, tag: &str, id: RefId, attrs: Vec<Attr>)
    ensures
        final(xml)@ == (XmlWriterView {
            output: old(xml)@.output + empty_line(old(xml)@.depth, tag@, attr_views(attrs@) + shared_attrs(id)),
            depth: old(xml)@.depth,
        }),
{
    let mut attrs = attrs;
    let ghost extra = attrs@;
    attrs.push(attr("xs.id", id.value()));
    attrs.push(attr("xs.idx", number_text(id.index as u64)));
    assert(attr_views(attrs@) =~= attr_views(extra) + shared_attrs(id));
    xml.empty(tag, attrs.as_slice());
}

/// Writes a named reference to an object.
pub fn reference(xml: &mut XmlWriter, tag: &str, name: &str, id: RefId)
    ensures
        final(xml)@ == (XmlWriterView {
            output: old(xml)@.output + empty_line(old(xml)@.depth, tag@, ref_attrs(name@, id)),
            depth: old(xml)@.depth,
        }),
{
    let mut attrs: Vec<Attr> = Vec::new();
    attrs.push(attr("xs.n", String::from_str(name)));
    attrs.push(attr("xs.ref", id.value()));
    assert(attr_views(attrs@) =~= ref_attrs(name@, id));
    xml.empty(tag, attrs.as_slice());
}

/// Writes an unnamed reference to an object.
pub fn reference_without_name(xml: &mut XmlWriter, tag: &str, id: RefId)
    ensures
        final(xml)@ == (XmlWriterView {
            output: old(xml)@.output + empty_line(old(xml)@.depth, tag@, seq![("xs.ref"@, ref_text(id))]),
            depth: old(xml)@.depth,
        }),
{
    let mut attrs: Vec<Attr> = Vec::new();
    attrs.push(attr("xs.ref", id.value()));
    assert(attr_views(attrs@) =~= seq![("xs.ref"@, ref_text(id))]);
    xml.empty(tag, attrs.as_slice());
}

/// Opens a named list of `count` items.
pub(crate) fn start_list(xml: &mut XmlWriter, name: &str, count: usize)
    requires
        old(xml)@.depth < usize::MAX,
    ensures
        final(xml)@ == (XmlWriterView {
            output: old(xml)@.output + start_line(old(xml)@.depth, "array_list"@, list_attrs(name@, count as nat)),
            depth: old(xml)@.depth + 1,
        }),
{
    let mut attrs: Vec<Attr> = Vec::new();
    attrs.push(attr("xs.n", String::from_str(name)));
    attrs.push(attr("count", number_text(count as u64)));
    assert(attr_views(attrs@) =~= list_attrs(name@, count as nat));
    xml.start("array_list", attrs.as_slice());
}

/// Returns the attribute that names an element.
fn name_attr_list(name: &str) -> (res: Vec<Attr>)
    ensures
        attr_views(res@) == name_attr(name@),
{
    let mut attrs: Vec<Attr> = Vec::new();
    attrs.push(attr("xs.n", String::from_str(name)));
    assert(attr_views(attrs@) =~= name_attr(name@));
    attrs
}

/// One key of an access key: the binding it is on and its key index.
#[verifier::opaque]
pub open spec fn key_on_parameter(d: nat, binding: RefId, key: nat) -> Seq<u8> {
    start_line(d, "KeyOnParameter"@, Seq::empty()) + empty_line(d + 1, "KeyformBindingSource"@, ref_attrs("binding"@, binding))
        + text_line(d + 1, "i"@, name_attr("keyIndex"@), decimal_text(key)) + end_line(d, "KeyOnParameter"@)
}

/// The keys of the first `n` bindings of keyform `form`.
pub open spec fn keys_on_parameters(d: nat, refs: Seq<RefId>, counts: Seq<usize>, form: nat, n: int) -> Seq<u8>
    decreases n,
{
    if n <= 0 {
        Seq::empty()
    } else {
        keys_on_parameters(d, refs, counts, form, n - 1) + key_on_parameter(d, refs[n - 1], key_at(form, counts, n - 1))
    }
}

/// One keyform on the grid: its access key and its reference.
#[verifier::opaque]
pub open spec fn keyform_on_grid(d: nat, refs: Seq<RefId>, counts: Seq<usize>, form: nat, form_ref: RefId) -> Seq<u8> {
    start_line(d, "KeyformOnGrid"@, Seq::empty()) + start_line(d + 1, "KeyformGridAccessKey"@, name_attr("accessKey"@))
        + start_line(d + 2, "array_list"@, list_attrs("_keyOnParameterList"@, counts.len()))
        + keys_on_parameters(d + 3, refs, counts, form, counts.len() as int) + end_line(d + 2, "array_list"@)
        + end_line(d + 1, "KeyformGridAccessKey"@) + empty_line(d + 1, "CFormGuid"@, ref_attrs("keyformGuid"@, form_ref))
        + end_line(d, "KeyformOnGrid"@)
}

/// The first `n` keyforms on the grid.
pub open spec fn keyforms_on_grid(d: nat, refs: Seq<RefId>, counts: Seq<usize>, forms: Seq<RefId>, n: int) -> Seq<u8>
    decreases n,
{
    if n <= 0 {
        Seq::empty()
    } else {
        keyforms_on_grid(d, refs, counts, forms, n - 1) + keyform_on_grid(d, refs, counts, (n - 1) as nat, forms[n - 1])
    }
}

/// Unnamed references to the first `n` bindings.
pub open spec fn binding_refs(d: nat, refs: Seq<RefId>, n: int) -> Seq<u8>
    decreases n,
{
    if n <= 0 {
        Seq::empty()
    } else {
        binding_refs(d, refs, n - 1) + empty_line(d, "KeyformBindingSource"@, seq![("xs.ref"@, ref_text(refs[n - 1]))])
    }
}

/// The grid element: every keyform with its access key, then the bindings.
#[verifier::opaque]
pub open spec fn grid_source(d: nat, plan: GridPlan, counts: Seq<usize>) -> Seq<u8> {
    let refs = plan.bindings@;
    let forms = plan.forms@;
    start_line(d, "KeyformGridSource"@, shared_attrs(plan.grid)) + start_line(
        d + 1,
        "array_list"@,
        list_attrs("keyformsOnGrid"@, forms.len()),
    ) + keyforms_on_grid(d + 2, refs, counts, forms, forms.len() as int) + end_line(d + 1, "array_list"@) + start_line(
        d + 1,
        "array_list"@,
        list_attrs("keyformBindings"@, refs.len()),
    ) + binding_refs(d + 2, refs, refs.len() as int) + end_line(d + 1, "array_list"@) + end_line(
        d,
        "KeyformGridSource"@,
    )
}

/// The first `n` key values, each as given text.
pub open spec fn key_values(d: nat, texts: Seq<Seq<char>>, n: int) -> Seq<u8>
    decreases n,
{
    if n <= 0 {
        Seq::empty()
    } else {
        key_values(d, texts, n - 1) + text_line(d, "f"@, Seq::empty(), texts[n - 1])
    }
}

/// One binding element: its grid, its parameter, its keys written as the
/// given texts, linear interpolation and the description.
#[verifier::opaque]
pub open spec fn binding_source(
    d: nat,
    binding: RefId,
    grid: RefId,
    parameter: RefId,
    texts: Seq<Seq<char>>,
    description: Seq<char>,
) -> Seq<u8> {
    start_line(d, "KeyformBindingSource"@, shared_attrs(binding)) + empty_line(
        d + 1,
        "KeyformGridSource"@,
        ref_attrs("_gridSource"@, grid),
    ) + empty_line(d + 1, "CParameterGuid"@, ref_attrs("parameterGuid"@, parameter)) + start_line(
        d + 1,
        "array_list"@,
        list_attrs("keys"@, texts.len()),
    ) + key_values(d + 2, texts, texts.len() as int) + end_line(d + 1, "array_list"@) + empty_line(
        d + 1,
        "InterpolationType"@,
        seq![("xs.n"@, "interpolationType"@), ("v"@, "LINEAR"@)],
    ) + empty_line(
        d + 1,
        "ExtendedInterpolationType"@,
        seq![("xs.n"@, "extendedInterpolationType"@), ("v"@, "LINEAR"@)],
    ) + text_line(d + 1, "i"@, name_attr("insertPointCount"@), "1"@) + text_line(
        d + 1,
        "f"@,
        name_attr("extendedInterpolationScale"@),
        "1.0"@,
    ) + text_line(d + 1, "s"@, name_attr("description"@), description) + end_line(d, "KeyformBindingSource"@)
}

/// The binding elements of the first `n` bindings.
pub open spec fn binding_sources(
    d: nat,
    plan: GridPlan,
    bindings: Seq<ParameterBindingModel>,
    parameters: Seq<ParameterPlan>,
    texts: Seq<Seq<Seq<char>>>,
    description: Seq<char>,
    n: int,
) -> Seq<u8>
    decreases n,
{
    if n <= 0 {
        Seq::empty()
    } else {
        binding_sources(d, plan, bindings, parameters, texts, description, n - 1) + binding_source(
            d,
            plan.bindings@[n - 1],
            plan.grid,
            parameters[bindings[n - 1].parameter_index as int].guid,
            texts[n - 1],
            description,
        )
    }
}

/// The bindings of a grid's band: none without a band, `None` when the band
/// is missing.
pub open spec fn grid_bindings(bands: Seq<Seq<ParameterBindingModel>>, band: Option<usize>) -> Option<
    Seq<ParameterBindingModel>,
> {
    match band {
        None => Some(Seq::empty()),
        Some(i) => if i < bands.len() {
            Some(bands[i as int])
        } else {
            None
        },
    }
}

/// Whether a grid can be written: its band exists, the plan has one
/// reference per binding and every binding's parameter is planned.
pub open spec fn grid_ok(
    bands: Seq<Seq<ParameterBindingModel>>,
    band: Option<usize>,
    plan: GridPlan,
    parameters: Seq<ParameterPlan>,
) -> bool {
    match grid_bindings(bands, band) {
        None => false,
        Some(bindings) => bindings.len() == plan.bindings@.len() && forall|i: int|
            0 <= i < bindings.len() ==> (#[trigger] bindings[i]).parameter_index < parameters.len(),
    }
}

/// Whether a grid's shape fits its band: the band exists and the plan has
/// one reference per binding.
pub open spec fn grid_shape_ok(bands: Seq<Seq<ParameterBindingModel>>, band: Option<usize>, plan: GridPlan) -> bool {
    match grid_bindings(bands, band) {
        None => false,
        Some(bindings) => bindings.len() == plan.bindings@.len(),
    }
}

/// How many bindings, from the first on, refer to a planned parameter.
pub open spec fn planned_prefix(bindings: Seq<ParameterBindingModel>, parameters: nat) -> nat
    decreases bindings.len(),
{
    if bindings.len() == 0 {
        0
    } else if bindings[0].parameter_index < parameters {
        1 + planned_prefix(bindings.drop_first(), parameters)
    } else {
        0
    }
}

/// `planned_prefix` is the first binding whose parameter is not planned, or
/// the number of bindings when there is none.
pub proof fn lemma_planned_prefix(bindings: Seq<ParameterBindingModel>, parameters: nat, k: int)
    requires
        0 <= k <= bindings.len(),
        forall|j: int| 0 <= j < k ==> (#[trigger] bindings[j]).parameter_index < parameters,
        k < bindings.len() ==> bindings[k].parameter_index >= parameters,
    ensures
        planned_prefix(bindings, parameters) == k,
    decreases bindings.len(),
{
    if bindings.len() > 0 && k > 0 {
        let rest = bindings.drop_first();
        assert forall|j: int| 0 <= j < k - 1 implies (#[trigger] rest[j]).parameter_index < parameters by {
            assert(rest[j] == bindings[j + 1]);
        }
        if k - 1 < rest.len() {
            assert(rest[k - 1] == bindings[k]);
        }
        lemma_planned_prefix(rest, parameters, k - 1);
    }
}

/// What a grid whose shape fits writes at depth `d`: the grid element, then
/// the binding elements up to the first binding whose parameter is not
/// planned.
pub open spec fn grid_written(
    d: nat,
    plan: GridPlan,
    bindings: Seq<ParameterBindingModel>,
    parameters: Seq<ParameterPlan>,
    texts: Seq<Seq<Seq<char>>>,
    description: Seq<char>,
) -> Seq<u8> {
    let counts = bindings.map_values(|b: ParameterBindingModel| b.keys.len() as usize);
    grid_source(d, plan, counts) + binding_sources(
        d,
        plan,
        bindings,
        parameters,
        texts,
        description,
        planned_prefix(bindings, parameters.len()) as int,
    )
}

/// Whether `texts` gives a text for every key of every binding.
pub open spec fn texts_fit(bindings: Seq<ParameterBindingModel>, texts: Seq<Seq<Seq<char>>>) -> bool {
    texts.len() == bindings.len() && forall|i: int| 0 <= i < bindings.len() ==> (#[trigger] texts[i]).len() == bindings[i].keys.len()
}

/// What a grid writes at depth `d`: the grid element, then one binding
/// element per binding.
pub open spec fn grid_xml(
    d: nat,
    plan: GridPlan,
    bindings: Seq<ParameterBindingModel>,
    parameters: Seq<ParameterPlan>,
    texts: Seq<Seq<Seq<char>>>,
    description: Seq<char>,
) -> Seq<u8> {
    let counts = bindings.map_values(|b: ParameterBindingModel| b.keys.len() as usize);
    grid_source(d, plan, counts) + binding_sources(d, plan, bindings, parameters, texts, description, bindings.len() as int)
}

/// The text of each key of each binding.
pub open spec fn text_views(texts: Seq<Vec<String>>) -> Seq<Seq<Seq<char>>> {
    texts.map_values(|v: Vec<String>| v@.map_values(|s: String| s@))
}

/// Writes the keys of one keyform of the grid.
fn write_access_key(xml: &mut XmlWriter, refs: &Vec<RefId>, counts: &Vec<usize>, form: usize)
    requires
        old(xml)@.depth + 1 < usize::MAX,
        refs@.len() == counts@.len(),
    ensures
        final(xml)@ == (XmlWriterView {
            output: old(xml)@.output + keys_on_parameters(old(xml)@.depth, refs@, counts@, form as nat, counts@.len() as int),
            depth: old(xml)@.depth,
        }),
{
    let ghost d = xml@.depth;
    let ghost start = xml@.output;
    let keys = grid_access_key(form, counts.as_slice());
    let mut i: usize = 0;
    while i < counts.len()
        invariant
            i <= counts@.len(),
            refs@.len() == counts@.len(),
            keys@.len() == counts@.len(),
            forall|j: int| 0 <= j < counts@.len() ==> (#[trigger] keys@[j]) as nat == key_at(form as nat, counts@, j),
            d + 1 < usize::MAX,
            xml@.depth == d,
            xml@.output == start + keys_on_parameters(d, refs@, counts@, form as nat, i as int),
        decreases counts@.len() - i,
    {
        let ghost before = xml@.output;
        xml.start("KeyOnParameter", Vec::new().as_slice());
        reference(xml, "KeyformBindingSource", "binding", refs[i]);
        let key_attrs = name_attr_list("keyIndex");
        let key = number_text(keys[i] as u64);
        xml.text("i", key_attrs.as_slice(), key.as_str());
        xml.end("KeyOnParameter");
        proof {
            reveal(key_on_parameter);
            assert(attr_views(Seq::<Attr>::empty()) =~= Seq::empty());
            assert(xml@.output =~= before + key_on_parameter(d, refs@[i as int], key_at(form as nat, counts@, i as int)));
        }
        i = i + 1;
    }
}

/// Writes one keyform of the grid.
fn write_keyform(xml: &mut XmlWriter, refs: &Vec<RefId>, counts: &Vec<usize>, form: usize, form_ref: RefId)
    requires
        old(xml)@.depth + 5 < usize::MAX,
        refs@.len() == counts@.len(),
    ensures
        final(xml)@ == (XmlWriterView {
            output: old(xml)@.output + keyform_on_grid(old(xml)@.depth, refs@, counts@, form as nat, form_ref),
            depth: old(xml)@.depth,
        }),
{
    let ghost d = xml@.depth;
    let ghost start = xml@.output;
    xml.start("KeyformOnGrid", Vec::new().as_slice());
    let access = name_attr_list("accessKey");
    xml.start("KeyformGridAccessKey", access.as_slice());
    start_list(xml, "_keyOnParameterList", counts.len());
    write_access_key(xml, refs, counts, form);
    xml.end("array_list");
    xml.end("KeyformGridAccessKey");
    reference(xml, "CFormGuid", "keyformGuid", form_ref);
    xml.end("KeyformOnGrid");
    assert(attr_views(Seq::<Attr>::empty()) =~= Seq::empty());
    reveal(keyform_on_grid);
    assert(xml@.output =~= start + keyform_on_grid(d, refs@, counts@, form as nat, form_ref));
}

/// Writes the grid element.
fn write_grid_source(xml: &mut XmlWriter, plan: &GridPlan, counts: &Vec<usize>)
    requires
        old(xml)@.depth + 8 < usize::MAX,
        plan.bindings@.len() == counts@.len(),
    ensures
        final(xml)@ == (XmlWriterView {
            output: old(xml)@.output + grid_source(old(xml)@.depth, *plan, counts@),
            depth: old(xml)@.depth,
        }),
{
    let ghost d = xml@.depth;
    let ghost start = xml@.output;
    start_shared(xml, "KeyformGridSource", plan.grid);
    start_list(xml, "keyformsOnGrid", plan.forms.len());
    let ghost forms_start = xml@.output;
    let mut f: usize = 0;
    while f < plan.forms.len()
        invariant
            f <= plan.forms@.len(),
            plan.bindings@.len() == counts@.len(),
            d + 8 < usize::MAX,
            xml@.depth == d + 2,
            xml@.output == forms_start + keyforms_on_grid(d + 2, plan.bindings@, counts@, plan.forms@, f as int),
        decreases plan.forms@.len() - f,
    {
        write_keyform(xml, &plan.bindings, counts, f, plan.forms[f]);
        f = f + 1;
    }
    xml.end("array_list");
    start_list(xml, "keyformBindings", plan.bindings.len());
    let ghost refs_start = xml@.output;
    let mut b: usize = 0;
    while b < plan.bindings.len()
        invariant
            b <= plan.bindings@.len(),
            xml@.depth == d + 2,
            xml@.output == refs_start + binding_refs(d + 2, plan.bindings@, b as int),
        decreases plan.bindings@.len() - b,
    {
        reference_without_name(xml, "KeyformBindingSource", plan.bindings[b]);
        b = b + 1;
    }
    xml.end("array_list");
    xml.end("KeyformGridSource");
    reveal(grid_source);
    assert(xml@.output =~= start + grid_source(d, *plan, counts@));
}

/// Writes one binding element.
#[verifier::spinoff_prover]
#[verifier::rlimit(60)]
fn write_binding_source(
    xml: &mut XmlWriter,
    binding: RefId,
    grid: RefId,
    parameter: RefId,
    texts: &Vec<String>,
    description: &str,
)
    requires
        old(xml)@.depth + 3 < usize::MAX,
    ensures
        final(xml)@ == (XmlWriterView {
            output: old(xml)@.output + binding_source(
                old(xml)@.depth,
                binding,
                grid,
                parameter,
                texts@.map_values(|s: String| s@),
                description@,
            ),
            depth: old(xml)@.depth,
        }),
{
    let ghost d = xml@.depth;
    let ghost start = xml@.output;
    let ghost tv = texts@.map_values(|s: String| s@);
    start_shared(xml, "KeyformBindingSource", binding);
    reference(xml, "KeyformGridSource", "_gridSource", grid);
    reference(xml, "CParameterGuid", "parameterGuid", parameter);
    start_list(xml, "keys", texts.len());
    let ghost keys_start = xml@.output;
    let mut k: usize = 0;
    while k < texts.len()
        invariant
            k <= texts@.len(),
            tv == texts@.map_values(|s: String| s@),
            xml@.depth == d + 2,
            xml@.output == keys_start + key_values(d + 2, tv, k as int),
        decreases texts@.len() - k,
    {
        xml.text("f", Vec::new().as_slice(), texts[k].as_str());
        assert(attr_views(Seq::<Attr>::empty()) =~= Seq::empty());
        k = k + 1;
    }
    xml.end("array_list");
    let mut linear: Vec<Attr> = Vec::new();
    linear.push(attr("xs.n", String::from_str("interpolationType")));
    linear.push(attr("v", String::from_str("LINEAR")));
    xml.empty("InterpolationType", linear.as_slice());
    let mut extended: Vec<Attr> = Vec::new();
    extended.push(attr("xs.n", String::from_str("extendedInterpolationType")));
    extended.push(attr("v", String::from_str("LINEAR")));
    xml.empty("ExtendedInterpolationType", extended.as_slice());
    let count_attr = name_attr_list("insertPointCount");
    xml.text("i", count_attr.as_slice(), "1");
    let scale_attr = name_attr_list("extendedInterpolationScale");
    xml.text("f", scale_attr.as_slice(), "1.0");
    let description_attr = name_attr_list("description");
    xml.text("s", description_attr.as_slice(), description);
    xml.end("KeyformBindingSource");
    assert(attr_views(linear@) =~= seq![("xs.n"@, "interpolationType"@), ("v"@, "LINEAR"@)]);
    assert(attr_views(extended@) =~= seq![("xs.n"@, "extendedInterpolationType"@), ("v"@, "LINEAR"@)]);
    assert(texts@.len() == tv.len());
    reveal(binding_source);
    assert(xml@.output =~= start + binding_source(d, binding, grid, parameter, tv, description@));
}

/// Writes the keyform grid of an object and the binding elements of its
/// band: the keyforms in grid order, each with its access key, then one
/// element per binding with its keys, written as `key_texts` gives them.
///
/// Fails, writing nothing, when the band is missing or the plan does not
/// have one reference per binding. Fails at the first binding whose
/// parameter is not planned, after the grid and the binding elements before
/// it were written.
pub fn write_grid(
    xml: &mut XmlWriter,
    plan: &GridPlan,
    model: &Moc3Model,
    band_index: Option<usize>,
    parameters: &[ParameterPlan],
    description: &str,
    key_texts: &Vec<Vec<String>>,
) -> (res: Result<(), Error>)
    requires
        old(xml)@.depth + 8 < usize::MAX,
        grid_bindings(model@.binding_bands, band_index) matches Some(bindings) ==> texts_fit(
            bindings,
            text_views(key_texts@),
        ),
    ensures
        !grid_shape_ok(model@.binding_bands, band_index, *plan) ==> cmo3_error(res) && final(xml)@ == old(xml)@,
        grid_shape_ok(model@.binding_bands, band_index, *plan) ==> final(xml)@ == (XmlWriterView {
            output: old(xml)@.output + grid_written(
                old(xml)@.depth,
                *plan,
                grid_bindings(model@.binding_bands, band_index)->Some_0,
                parameters@,
                text_views(key_texts@),
                description@,
            ),
            depth: old(xml)@.depth,
        }),
        grid_shape_ok(model@.binding_bands, band_index, *plan) ==> (res is Ok <==> planned_prefix(
            grid_bindings(model@.binding_bands, band_index)->Some_0,
            parameters@.len(),
        ) == grid_bindings(model@.binding_bands, band_index)->Some_0.len()),
        res is Err ==> cmo3_error(res),
        grid_ok(model@.binding_bands, band_index, *plan, parameters@) ==> (res is Ok && final(xml)@ == (XmlWriterView {
            output: old(xml)@.output + grid_xml(
                old(xml)@.depth,
                *plan,
                grid_bindings(model@.binding_bands, band_index)->Some_0,
                parameters@,
                text_views(key_texts@),
                description@,
            ),
            depth: old(xml)@.depth,
        })),
        !grid_ok(model@.binding_bands, band_index, *plan, parameters@) ==> cmo3_error(res),
{
    let bands = model.binding_bands();
    let ghost views = model@.binding_bands;
    assert(band_views(bands@) == views);
    let empty: Vec<crate::moc3::ParameterBinding> = Vec::new();
    let bindings = match band_index {
        Some(index) => {
            if index >= bands.len() {
                return Err(invalid_cmo3("binding band is missing"));
            }
            assert(views[index as int] == bands@[index as int]@);
            bands[index].bindings()
        },
        None => empty.as_slice(),
    };
    let ghost bs = grid_bindings(views, band_index)->Some_0;
    assert(crate::moc3::binding_views(bindings@) =~= bs);
    if bindings.len() != plan.bindings.len() {
        return Err(invalid_cmo3("binding plan does not match model"));
    }
    let mut counts: Vec<usize> = Vec::new();
    let mut i: usize = 0;
    while i < bindings.len()
        invariant
            i <= bindings@.len(),
            bs == crate::moc3::binding_views(bindings@),
            counts@.len() == i,
            forall|j: int| 0 <= j < i ==> (#[trigger] counts@[j]) == bs[j].keys.len() as usize,
        decreases bindings@.len() - i,
    {
        assert(bs[i as int] == bindings@[i as int]@);
        counts.push(bindings[i].key_bits().len());
        i = i + 1;
    }
    assert(counts@ =~= bs.map_values(|b: ParameterBindingModel| b.keys.len() as usize));
    write_grid_source(xml, plan, &counts);
    let ghost d = old(xml)@.depth;
    let ghost after_grid = xml@.output;
    let ghost tv = text_views(key_texts@);
    let ghost np = parameters@.len();
    let mut b: usize = 0;
    while b < bindings.len() && bindings[b].parameter_index() < parameters.len()
        invariant
            b <= bindings@.len(),
            bs == crate::moc3::binding_views(bindings@),
            views == model@.binding_bands,
            grid_bindings(views, band_index) == Some(bs),
            bindings@.len() == plan.bindings@.len(),
            texts_fit(bs, tv),
            tv == text_views(key_texts@),
            np == parameters@.len(),
            forall|j: int| 0 <= j < b ==> (#[trigger] bs[j]).parameter_index < np,
            d + 8 < usize::MAX,
            xml@.depth == d,
            xml@.output == after_grid + binding_sources(d, *plan, bs, parameters@, tv, description@, b as int),
        decreases bindings@.len() - b,
    {
        assert(bs[b as int] == bindings@[b as int]@);
        let parameter = parameters[bindings[b].parameter_index()].guid;
        assert(tv[b as int] == key_texts@[b as int]@.map_values(|s: String| s@));
        write_binding_source(xml, plan.bindings[b], plan.grid, parameter, &key_texts[b], description);
        b = b + 1;
    }
    if b < bindings.len() {
        assert(bs[b as int] == bindings@[b as int]@);
    }
    proof {
        lemma_planned_prefix(bs, np, b as int);
    }
    assert(xml@.output =~= old(xml)@.output + grid_written(d, *plan, bs, parameters@, tv, description@));
    if b < bindings.len() {
        return Err(invalid_cmo3("parameter binding is outside the parameter table"));
    }
    assert(xml@.output =~= old(xml)@.output + grid_xml(d, *plan, bs, parameters@, tv, description@));
    Ok(())
}

} // verus!
