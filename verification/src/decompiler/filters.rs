//! The filters of each atlas page: a layer selector and a layer filter,
//! wired to the model image's environment values.

use vstd::prelude::*;

use super::grid::{decimal_text, empty_shared, ref_attrs, reference, shared_attrs, start_shared, start_shared_with};
use super::images::{counted, counted_attrs, named, named_attrs};
use super::plan::{PagePlan, ProjectPlan, RefId};
use super::xml::{attr, attr_views, empty_line, end_line, start_line, text_line, Attr, XmlWriter, XmlWriterView};
use crate::text::number_text;

verus! {

/// The start of a map entry, at depth `d`.
pub open spec fn entry_start(d: nat) -> Seq<u8> {
    start_line(d, "entry"@, Seq::empty())
}

/// Opens a map entry.
fn start_entry(xml: &mut XmlWriter)
    requires
        old(xml)@.depth < usize::MAX,
    ensures
        final(xml)@ == (XmlWriterView { output: old(xml)@.output + entry_start(old(xml)@.depth), depth: old(xml)@.depth + 1 }),
{
    let none: Vec<Attr> = Vec::new();
    assert(attr_views(none@) =~= Seq::empty());
    xml.start("entry", none.as_slice());
}

/// An input of the selector taken from the environment: the value `key`
/// connected to the environment value `env`, at depth `d`.
#[verifier::opaque]
pub open spec fn env_connector_xml(d: nat, key: RefId, env: RefId) -> Seq<u8> {
    entry_start(d) + empty_line(d + 1, "FilterValueId"@, ref_attrs("key"@, key)) + start_line(
        d + 1,
        "EnvValueConnector"@,
        named("value"@),
    ) + empty_line(d + 2, "AValueConnector"@, named("super"@)) + empty_line(
        d + 2,
        "FilterValueId"@,
        ref_attrs("envValueId"@, env),
    ) + end_line(d + 1, "EnvValueConnector"@) + end_line(d, "entry"@)
}

/// Writes an input of the selector taken from the environment.
#[verifier::spinoff_prover]
pub fn env_connector(xml: &mut XmlWriter, key: RefId, env: RefId)
    requires
        old(xml)@.depth + 1 < usize::MAX,
    ensures
        final(xml)@ == (XmlWriterView {
            output: old(xml)@.output + env_connector_xml(old(xml)@.depth, key, env),
            depth: old(xml)@.depth,
        }),
{
    let ghost d = xml@.depth;
    let ghost start = xml@.output;
    start_entry(xml);
    reference(xml, "FilterValueId", "key", key);
    xml.start("EnvValueConnector", named_attrs("value").as_slice());
    xml.empty("AValueConnector", named_attrs("super").as_slice());
    reference(xml, "FilterValueId", "envValueId", env);
    xml.end("EnvValueConnector");
    xml.end("entry");
    reveal(env_connector_xml);
    assert(xml@.output =~= start + env_connector_xml(d, key, env));
}

/// A map entry from the value `key` to the output connector `output`, at
/// depth `d`.
pub open spec fn output_entry_xml(d: nat, key: RefId, output: RefId) -> Seq<u8> {
    entry_start(d) + empty_line(d + 1, "FilterValueId"@, ref_attrs("key"@, key)) + empty_line(
        d + 1,
        "FilterOutputValueConnector"@,
        ref_attrs("value"@, output),
    ) + end_line(d, "entry"@)
}

/// Writes a map entry from the value `key` to an output connector.
fn write_output_entry(xml: &mut XmlWriter, key: RefId, output: RefId)
    requires
        old(xml)@.depth < usize::MAX,
    ensures
        final(xml)@ == (XmlWriterView {
            output: old(xml)@.output + output_entry_xml(old(xml)@.depth, key, output),
            depth: old(xml)@.depth,
        }),
{
    let ghost start = xml@.output;
    start_entry(xml);
    reference(xml, "FilterValueId", "key", key);
    reference(xml, "FilterOutputValueConnector", "value", output);
    xml.end("entry");
    assert(xml@.output =~= start + output_entry_xml(old(xml)@.depth, key, output));
}

/// The head of a filter instance: its definition, no inline definition and
/// its identifier, at depth `d`.
pub open spec fn instance_head_xml(d: nat, definition: RefId, id: RefId) -> Seq<u8> {
    empty_line(d, "StaticFilterDefGuid"@, ref_attrs("filterDefGuid"@, definition)) + empty_line(
        d,
        "null"@,
        named("filterDef"@),
    ) + empty_line(d, "FilterInstanceId"@, ref_attrs("filterId"@, id))
}

/// Writes the head of a filter instance.
fn write_instance_head(xml: &mut XmlWriter, definition: RefId, id: RefId)
    ensures
        final(xml)@ == (XmlWriterView {
            output: old(xml)@.output + instance_head_xml(old(xml)@.depth, definition, id),
            depth: old(xml)@.depth,
        }),
{
    let ghost start = xml@.output;
    reference(xml, "StaticFilterDefGuid", "filterDefGuid", definition);
    xml.empty("null", named_attrs("filterDef").as_slice());
    reference(xml, "FilterInstanceId", "filterId", id);
    assert(xml@.output =~= start + instance_head_xml(old(xml)@.depth, definition, id));
}

/// The layer selector of a page, at depth `d`: its inputs come from the
/// environment, its output is the page's output connector.
#[verifier::opaque]
pub open spec fn selector_xml(d: nat, plan: ProjectPlan, page: PagePlan) -> Seq<u8> {
    let ids = plan.filters.value_ids@;
    start_line(
        d,
        "FilterInstance"@,
        seq![("filterName"@, "CLayerSelector"@)] + shared_attrs(page.filter_instances@[0]),
    ) + instance_head_xml(d + 1, plan.filters.selector_definition, page.filter_instance_ids@[0]) + start_line(
        d + 1,
        "hash_map"@,
        counted("inputConnectors"@, "2"@),
    ) + env_connector_xml(d + 2, ids[2], ids[1]) + env_connector_xml(d + 2, ids[4], ids[3]) + end_line(
        d + 1,
        "hash_map"@,
    ) + start_line(d + 1, "hash_map"@, counted("outputConnectors"@, "1"@)) + output_entry_xml(
        d + 2,
        ids[0],
        page.filter_output,
    ) + end_line(d + 1, "hash_map"@) + empty_line(
        d + 1,
        "ModelImageFilterSet"@,
        ref_attrs("ownerFilterSet"@, page.filter_set),
    ) + end_line(d, "FilterInstance"@)
}

/// Writes the layer selector of a page.
#[verifier::spinoff_prover]
#[verifier::rlimit(60)]
pub fn write_selector(xml: &mut XmlWriter, plan: &ProjectPlan, page: &PagePlan)
    requires
        old(xml)@.depth + 4 < usize::MAX,
    ensures
        final(xml)@ == (XmlWriterView {
            output: old(xml)@.output + selector_xml(old(xml)@.depth, *plan, *page),
            depth: old(xml)@.depth,
        }),
{
    let ghost d = xml@.depth;
    let ghost start = xml@.output;
    let ids = &plan.filters.value_ids;
    let mut name: Vec<Attr> = Vec::new();
    name.push(attr("filterName", String::from_str("CLayerSelector")));
    assert(attr_views(name@) =~= seq![("filterName"@, "CLayerSelector"@)]);
    start_shared_with(xml, "FilterInstance", page.filter_instances[0], name);
    write_instance_head(xml, plan.filters.selector_definition, page.filter_instance_ids[0]);
    xml.start("hash_map", counted_attrs("inputConnectors", String::from_str("2")).as_slice());
    env_connector(xml, ids[2], ids[1]);
    env_connector(xml, ids[4], ids[3]);
    xml.end("hash_map");
    xml.start("hash_map", counted_attrs("outputConnectors", String::from_str("1")).as_slice());
    write_output_entry(xml, ids[0], page.filter_output);
    xml.end("hash_map");
    reference(xml, "ModelImageFilterSet", "ownerFilterSet", page.filter_set);
    xml.end("FilterInstance");
    reveal(selector_xml);
    assert(xml@.output =~= start + selector_xml(d, *plan, *page));
}

/// The layer filter of a page, at depth `d`: its one input is the page's
/// output connector; it has no outputs.
#[verifier::opaque]
pub open spec fn layer_filter_xml(d: nat, plan: ProjectPlan, page: PagePlan) -> Seq<u8> {
    let ids = plan.filters.value_ids@;
    start_line(
        d,
        "FilterInstance"@,
        seq![("filterName"@, "CLayerFilter"@)] + shared_attrs(page.filter_instances@[1]),
    ) + instance_head_xml(d + 1, plan.filters.filter_definition, page.filter_instance_ids@[1]) + start_line(
        d + 1,
        "hash_map"@,
        counted("inputConnectors"@, "1"@),
    ) + output_entry_xml(d + 2, ids[7], page.filter_output) + end_line(d + 1, "hash_map"@) + empty_line(
        d + 1,
        "hash_map"@,
        seq![("xs.n"@, "outputConnectors"@), ("count"@, "0"@), ("keyType"@, "string"@)],
    ) + empty_line(d + 1, "ModelImageFilterSet"@, ref_attrs("ownerFilterSet"@, page.filter_set)) + end_line(
        d,
        "FilterInstance"@,
    )
}

/// Writes the layer filter of a page.
#[verifier::spinoff_prover]
#[verifier::rlimit(60)]
pub fn write_layer_filter(xml: &mut XmlWriter, plan: &ProjectPlan, page: &PagePlan)
    requires
        old(xml)@.depth + 3 < usize::MAX,
    ensures
        final(xml)@ == (XmlWriterView {
            output: old(xml)@.output + layer_filter_xml(old(xml)@.depth, *plan, *page),
            depth: old(xml)@.depth,
        }),
{
    let ghost d = xml@.depth;
    let ghost start = xml@.output;
    let ids = &plan.filters.value_ids;
    let mut name: Vec<Attr> = Vec::new();
    name.push(attr("filterName", String::from_str("CLayerFilter")));
    assert(attr_views(name@) =~= seq![("filterName"@, "CLayerFilter"@)]);
    start_shared_with(xml, "FilterInstance", page.filter_instances[1], name);
    write_instance_head(xml, plan.filters.filter_definition, page.filter_instance_ids[1]);
    xml.start("hash_map", counted_attrs("inputConnectors", String::from_str("1")).as_slice());
    write_output_entry(xml, ids[7], page.filter_output);
    xml.end("hash_map");
    let mut outputs: Vec<Attr> = Vec::new();
    outputs.push(attr("xs.n", String::from_str("outputConnectors")));
    outputs.push(attr("count", String::from_str("0")));
    outputs.push(attr("keyType", String::from_str("string")));
    assert(attr_views(outputs@) =~= seq![("xs.n"@, "outputConnectors"@), ("count"@, "0"@), ("keyType"@, "string"@)]);
    xml.empty("hash_map", outputs.as_slice());
    reference(xml, "ModelImageFilterSet", "ownerFilterSet", page.filter_set);
    xml.end("FilterInstance");
    reveal(layer_filter_xml);
    assert(xml@.output =~= start + layer_filter_xml(d, *plan, *page));
}

/// A filter of the set: its identifier mapped to its instance, at depth `d`.
pub open spec fn filter_map_entry_xml(d: nat, id: RefId, instance: RefId) -> Seq<u8> {
    entry_start(d) + empty_line(d + 1, "FilterInstanceId"@, ref_attrs("key"@, id)) + empty_line(
        d + 1,
        "FilterInstance"@,
        ref_attrs("value"@, instance),
    ) + end_line(d, "entry"@)
}

/// Writes a filter of the set.
pub fn filter_map_entry(xml: &mut XmlWriter, id: RefId, instance: RefId)
    requires
        old(xml)@.depth < usize::MAX,
    ensures
        final(xml)@ == (XmlWriterView {
            output: old(xml)@.output + filter_map_entry_xml(old(xml)@.depth, id, instance),
            depth: old(xml)@.depth,
        }),
{
    let ghost start = xml@.output;
    start_entry(xml);
    reference(xml, "FilterInstanceId", "key", id);
    reference(xml, "FilterInstance", "value", instance);
    xml.end("entry");
    assert(xml@.output =~= start + filter_map_entry_xml(old(xml)@.depth, id, instance));
}

/// A connection of the set to the environment: the value `key`, its
/// environment value, the filter instance and the filter's value, at depth
/// `d`.
#[verifier::opaque]
pub open spec fn env_connection_xml(d: nat, key: RefId, env_value: RefId, instance: RefId, filter_value: RefId) -> Seq<u8> {
    entry_start(d) + empty_line(d + 1, "FilterValueId"@, ref_attrs("key"@, key)) + start_line(
        d + 1,
        "EnvConnection"@,
        named("value"@),
    ) + empty_line(d + 2, "FilterValue"@, ref_attrs("_envValueDef"@, env_value)) + empty_line(
        d + 2,
        "FilterInstance"@,
        ref_attrs("filter"@, instance),
    ) + empty_line(d + 2, "FilterValue"@, ref_attrs("filterValueDef"@, filter_value)) + end_line(d + 1, "EnvConnection"@)
        + end_line(d, "entry"@)
}

/// Writes a connection of the set to the environment.
#[verifier::spinoff_prover]
pub fn env_connection(xml: &mut XmlWriter, key: RefId, env_value: RefId, instance: RefId, filter_value: RefId)
    requires
        old(xml)@.depth + 1 < usize::MAX,
    ensures
        final(xml)@ == (XmlWriterView {
            output: old(xml)@.output + env_connection_xml(old(xml)@.depth, key, env_value, instance, filter_value),
            depth: old(xml)@.depth,
        }),
{
    let ghost d = xml@.depth;
    let ghost start = xml@.output;
    start_entry(xml);
    reference(xml, "FilterValueId", "key", key);
    xml.start("EnvConnection", named_attrs("value").as_slice());
    reference(xml, "FilterValue", "_envValueDef", env_value);
    reference(xml, "FilterInstance", "filter", instance);
    reference(xml, "FilterValue", "filterValueDef", filter_value);
    xml.end("EnvConnection");
    xml.end("entry");
    reveal(env_connection_xml);
    assert(xml@.output =~= start + env_connection_xml(d, key, env_value, instance, filter_value));
}

/// The filter set of a page, at depth `d`: its two filters, the two inputs
/// it takes from the environment and the two outputs it gives back.
#[verifier::opaque]
pub open spec fn filter_set_xml(d: nat, plan: ProjectPlan, page: PagePlan) -> Seq<u8> {
    let ids = plan.filters.value_ids@;
    let values = plan.filters.values@;
    let instances = page.filter_instances@;
    let instance_ids = page.filter_instance_ids@;
    start_line(d, "ModelImageFilterSet"@, shared_attrs(page.filter_set)) + start_line(d + 1, "FilterSet"@, named("super"@))
        + start_line(d + 2, "linked_map"@, counted("filterMap"@, "2"@)) + filter_map_entry_xml(
        d + 3,
        instance_ids[0],
        instances[0],
    ) + filter_map_entry_xml(d + 3, instance_ids[1], instances[1]) + end_line(d + 2, "linked_map"@) + start_line(
        d + 2,
        "linked_map"@,
        counted("_externalInputs"@, "2"@),
    ) + env_connection_xml(d + 3, ids[1], values[1], instances[0], values[2]) + env_connection_xml(
        d + 3,
        ids[3],
        values[3],
        instances[0],
        values[4],
    ) + end_line(d + 2, "linked_map"@) + start_line(d + 2, "linked_map"@, counted("_externalOutputs"@, "2"@))
        + env_connection_xml(d + 3, ids[5], values[5], instances[1], values[6]) + env_connection_xml(
        d + 3,
        ids[6],
        values[7],
        instances[1],
        values[8],
    ) + end_line(d + 2, "linked_map"@) + end_line(d + 1, "FilterSet"@) + end_line(d, "ModelImageFilterSet"@)
}

/// Writes the filter set of a page.
#[verifier::spinoff_prover]
#[verifier::rlimit(60)]
pub fn write_filter_set(xml: &mut XmlWriter, plan: &ProjectPlan, page: &PagePlan)
    requires
        old(xml)@.depth + 5 < usize::MAX,
    ensures
        final(xml)@ == (XmlWriterView {
            output: old(xml)@.output + filter_set_xml(old(xml)@.depth, *plan, *page),
            depth: old(xml)@.depth,
        }),
{
    let ghost d = xml@.depth;
    let ghost start = xml@.output;
    let ids = &plan.filters.value_ids;
    let values = &plan.filters.values;
    start_shared(xml, "ModelImageFilterSet", page.filter_set);
    xml.start("FilterSet", named_attrs("super").as_slice());
    xml.start("linked_map", counted_attrs("filterMap", String::from_str("2")).as_slice());
    filter_map_entry(xml, page.filter_instance_ids[0], page.filter_instances[0]);
    filter_map_entry(xml, page.filter_instance_ids[1], page.filter_instances[1]);
    xml.end("linked_map");
    xml.start("linked_map", counted_attrs("_externalInputs", String::from_str("2")).as_slice());
    env_connection(xml, ids[1], values[1], page.filter_instances[0], values[2]);
    env_connection(xml, ids[3], values[3], page.filter_instances[0], values[4]);
    xml.end("linked_map");
    xml.start("linked_map", counted_attrs("_externalOutputs", String::from_str("2")).as_slice());
    env_connection(xml, ids[5], values[5], page.filter_instances[1], values[6]);
    env_connection(xml, ids[6], values[7], page.filter_instances[1], values[8]);
    xml.end("linked_map");
    xml.end("FilterSet");
    xml.end("ModelImageFilterSet");
    reveal(filter_set_xml);
    assert(xml@.output =~= start + filter_set_xml(d, *plan, *page));
}

/// The identifier text of filter `filter` of page `index`: `filter`, the
/// filter's number, `_` and the page's number.
pub open spec fn filter_id_text(filter: nat, index: nat) -> Seq<char> {
    "filter"@ + decimal_text(filter) + "_"@ + decimal_text(index)
}

/// Returns the identifier text of filter `filter` of page `index`.
fn filter_id(filter: u64, index: usize) -> (res: String)
    ensures
        res@ == filter_id_text(filter as nat, index as nat),
{
    let f = number_text(filter);
    let i = number_text(index as u64);
    String::from_str("filter").concat(f.as_str()).concat("_").concat(i.as_str())
}

/// The head of a page's filters, at depth `d`: the identifiers of its two
/// filters and the selector's output connector.
#[verifier::opaque]
pub open spec fn filter_page_head_xml(d: nat, plan: ProjectPlan, page: PagePlan, index: nat) -> Seq<u8> {
    let ids = plan.filters.value_ids@;
    let values = plan.filters.values@;
    empty_line(
        d,
        "FilterInstanceId"@,
        seq![("idstr"@, filter_id_text(0, index))] + shared_attrs(page.filter_instance_ids@[0]),
    ) + empty_line(
        d,
        "FilterInstanceId"@,
        seq![("idstr"@, filter_id_text(1, index))] + shared_attrs(page.filter_instance_ids@[1]),
    ) + start_line(d, "FilterOutputValueConnector"@, shared_attrs(page.filter_output)) + empty_line(
        d + 1,
        "AValueConnector"@,
        named("super"@),
    ) + empty_line(d + 1, "FilterInstance"@, ref_attrs("instance"@, page.filter_instances@[0])) + empty_line(
        d + 1,
        "FilterValueId"@,
        ref_attrs("id"@, ids[0]),
    ) + empty_line(d + 1, "FilterValue"@, ref_attrs("valueDef"@, values[0])) + end_line(
        d,
        "FilterOutputValueConnector"@,
    )
}

/// Writes the head of a page's filters.
#[verifier::spinoff_prover]
#[verifier::rlimit(60)]
fn write_filter_page_head(xml: &mut XmlWriter, plan: &ProjectPlan, page: &PagePlan, index: usize)
    requires
        old(xml)@.depth < usize::MAX,
    ensures
        final(xml)@ == (XmlWriterView {
            output: old(xml)@.output + filter_page_head_xml(old(xml)@.depth, *plan, *page, index as nat),
            depth: old(xml)@.depth,
        }),
{
    let ghost d = xml@.depth;
    let ghost start = xml@.output;
    let mut first: Vec<Attr> = Vec::new();
    first.push(attr("idstr", filter_id(0, index)));
    assert(attr_views(first@) =~= seq![("idstr"@, filter_id_text(0, index as nat))]);
    empty_shared(xml, "FilterInstanceId", page.filter_instance_ids[0], first);
    let mut second: Vec<Attr> = Vec::new();
    second.push(attr("idstr", filter_id(1, index)));
    assert(attr_views(second@) =~= seq![("idstr"@, filter_id_text(1, index as nat))]);
    empty_shared(xml, "FilterInstanceId", page.filter_instance_ids[1], second);
    start_shared(xml, "FilterOutputValueConnector", page.filter_output);
    xml.empty("AValueConnector", named_attrs("super").as_slice());
    reference(xml, "FilterInstance", "instance", page.filter_instances[0]);
    reference(xml, "FilterValueId", "id", plan.filters.value_ids[0]);
    reference(xml, "FilterValue", "valueDef", plan.filters.values[0]);
    xml.end("FilterOutputValueConnector");
    reveal(filter_page_head_xml);
    assert(xml@.output =~= start + filter_page_head_xml(d, *plan, *page, index as nat));
}

/// The filters of page `index`, at depth `d`.
pub open spec fn filter_page_xml(d: nat, plan: ProjectPlan, page: PagePlan, index: nat) -> Seq<u8> {
    filter_page_head_xml(d, plan, page, index) + selector_xml(d, plan, page) + layer_filter_xml(d, plan, page)
        + filter_set_xml(d, plan, page)
}

/// Writes the filters of page `index`: the identifiers of its selector and
/// layer filter, the selector's output, both filters and their set.
pub fn write_filter_page(xml: &mut XmlWriter, plan: &ProjectPlan, page: &PagePlan, index: usize)
    requires
        old(xml)@.depth + 5 < usize::MAX,
    ensures
        final(xml)@ == (XmlWriterView {
            output: old(xml)@.output + filter_page_xml(old(xml)@.depth, *plan, *page, index as nat),
            depth: old(xml)@.depth,
        }),
{
    let ghost start = xml@.output;
    write_filter_page_head(xml, plan, page, index);
    write_selector(xml, plan, page);
    write_layer_filter(xml, plan, page);
    write_filter_set(xml, plan, page);
    assert(xml@.output =~= start + filter_page_xml(old(xml)@.depth, *plan, *page, index as nat));
}

/// The names of the eight shared filter values, in the order of their
/// identifiers.
pub open spec fn value_id_names() -> Seq<Seq<char>> {
    seq![
        "ilf_outputLayerData"@,
        "mi_input_layerInputData"@,
        "ilf_inputLayerData"@,
        "mi_currentImageGuid"@,
        "ilf_currentImageGuid"@,
        "mi_output_image"@,
        "mi_output_transform"@,
        "ilf_inputLayer"@,
    ]
}

/// The identifier of a shared filter value, at depth `d`.
pub open spec fn value_id_xml(d: nat, id: RefId, name: Seq<char>) -> Seq<u8> {
    empty_line(d, "FilterValueId"@, seq![("idstr"@, name)] + shared_attrs(id))
}

/// Writes the identifier of a shared filter value.
fn write_value_id(xml: &mut XmlWriter, id: RefId, name: &str)
    ensures
        final(xml)@ == (XmlWriterView {
            output: old(xml)@.output + value_id_xml(old(xml)@.depth, id, name@),
            depth: old(xml)@.depth,
        }),
{
    let mut attrs: Vec<Attr> = Vec::new();
    attrs.push(attr("idstr", String::from_str(name)));
    assert(attr_views(attrs@) =~= seq![("idstr"@, name@)]);
    empty_shared(xml, "FilterValueId", id, attrs);
}

/// The identifiers of the shared filter values, at depth `d`.
#[verifier::opaque]
pub open spec fn value_ids_xml(d: nat, ids: Seq<RefId>) -> Seq<u8> {
    let names = value_id_names();
    value_id_xml(d, ids[0], names[0])
    + value_id_xml(d, ids[1], names[1])
    + value_id_xml(d, ids[2], names[2])
    + value_id_xml(d, ids[3], names[3])
    + value_id_xml(d, ids[4], names[4])
    + value_id_xml(d, ids[5], names[5])
    + value_id_xml(d, ids[6], names[6])
    + value_id_xml(d, ids[7], names[7])
}

/// Writes the identifiers of the shared filter values.
#[verifier::spinoff_prover]
#[verifier::rlimit(60)]
fn write_value_ids(xml: &mut XmlWriter, ids: &[RefId; 8])
    ensures
        final(xml)@ == (XmlWriterView {
            output: old(xml)@.output + value_ids_xml(old(xml)@.depth, ids@),
            depth: old(xml)@.depth,
        }),
{
    let ghost start = xml@.output;
    write_value_id(xml, ids[0], "ilf_outputLayerData");
    write_value_id(xml, ids[1], "mi_input_layerInputData");
    write_value_id(xml, ids[2], "ilf_inputLayerData");
    write_value_id(xml, ids[3], "mi_currentImageGuid");
    write_value_id(xml, ids[4], "ilf_currentImageGuid");
    write_value_id(xml, ids[5], "mi_output_image");
    write_value_id(xml, ids[6], "mi_output_transform");
    write_value_id(xml, ids[7], "ilf_inputLayer");
    reveal(value_ids_xml);
    assert(xml@.output =~= start + value_ids_xml(old(xml)@.depth, ids@));
}

/// A shared filter value, at depth `d`: its name, then its identifier,
/// referenced where it has one and else given inline, and no initializer.
#[verifier::opaque]
pub open spec fn filter_value_xml(d: nat, value: RefId, name: Seq<char>, target: Option<RefId>, inline: Seq<char>) -> Seq<u8> {
    start_line(d, "FilterValue"@, shared_attrs(value)) + text_line(d + 1, "s"@, named("name"@), name) + match target {
        Some(id) => empty_line(d + 1, "FilterValueId"@, ref_attrs("id"@, id)),
        None => empty_line(d + 1, "FilterValueId"@, seq![("xs.n"@, "id"@), ("idstr"@, inline)]),
    } + empty_line(d + 1, "null"@, named("defaultValueInitializer"@)) + end_line(d, "FilterValue"@)
}

/// Writes a shared filter value.
#[verifier::spinoff_prover]
fn write_filter_value(xml: &mut XmlWriter, value: RefId, name: &str, target: Option<RefId>, inline: &str)
    requires
        old(xml)@.depth < usize::MAX,
    ensures
        final(xml)@ == (XmlWriterView {
            output: old(xml)@.output + filter_value_xml(old(xml)@.depth, value, name@, target, inline@),
            depth: old(xml)@.depth,
        }),
{
    let ghost d = xml@.depth;
    let ghost start = xml@.output;
    start_shared(xml, "FilterValue", value);
    xml.text("s", named_attrs("name").as_slice(), name);
    match target {
        Some(id) => reference(xml, "FilterValueId", "id", id),
        None => {
            let mut attrs: Vec<Attr> = Vec::new();
            attrs.push(attr("xs.n", String::from_str("id")));
            attrs.push(attr("idstr", String::from_str(inline)));
            assert(attr_views(attrs@) =~= seq![("xs.n"@, "id"@), ("idstr"@, inline@)]);
            xml.empty("FilterValueId", attrs.as_slice());
        },
    }
    xml.empty("null", named_attrs("defaultValueInitializer").as_slice());
    xml.end("FilterValue");
    reveal(filter_value_xml);
    assert(xml@.output =~= start + filter_value_xml(d, value, name@, target, inline@));
}

/// The nine shared filter values, at depth `d`.
#[verifier::opaque]
pub open spec fn filter_values_xml(d: nat, ids: Seq<RefId>, values: Seq<RefId>) -> Seq<u8> {
    filter_value_xml(d, values[0], "Select Layer"@, Some(ids[0]), ""@)
    + filter_value_xml(d, values[1], "Import Layer"@, Some(ids[1]), ""@)
    + filter_value_xml(d, values[2], "Import Layer selection"@, Some(ids[2]), ""@)
    + filter_value_xml(d, values[3], "Current GUID"@, Some(ids[3]), ""@)
    + filter_value_xml(d, values[4], "GUID of Selected Source Image"@, Some(ids[4]), ""@)
    + filter_value_xml(d, values[5], "Output image"@, Some(ids[5]), ""@)
    + filter_value_xml(d, values[6], "Output Image (Resource Format)"@, None, "ilf_outputImageRes"@)
    + filter_value_xml(d, values[7], "LayerToCanvas transform"@, Some(ids[6]), ""@)
    + filter_value_xml(d, values[8], "LayerToCanvas transform"@, None, "ilf_outputTransform"@)
}

/// Writes the nine shared filter values.
#[verifier::spinoff_prover]
#[verifier::rlimit(60)]
fn write_filter_values(xml: &mut XmlWriter, ids: &[RefId; 8], values: &[RefId; 9])
    requires
        old(xml)@.depth < usize::MAX,
    ensures
        final(xml)@ == (XmlWriterView {
            output: old(xml)@.output + filter_values_xml(old(xml)@.depth, ids@, values@),
            depth: old(xml)@.depth,
        }),
{
    let ghost start = xml@.output;
    write_filter_value(xml, values[0], "Select Layer", Some(ids[0]), "");
    write_filter_value(xml, values[1], "Import Layer", Some(ids[1]), "");
    write_filter_value(xml, values[2], "Import Layer selection", Some(ids[2]), "");
    write_filter_value(xml, values[3], "Current GUID", Some(ids[3]), "");
    write_filter_value(xml, values[4], "GUID of Selected Source Image", Some(ids[4]), "");
    write_filter_value(xml, values[5], "Output image", Some(ids[5]), "");
    write_filter_value(xml, values[6], "Output Image (Resource Format)", None, "ilf_outputImageRes");
    write_filter_value(xml, values[7], "LayerToCanvas transform", Some(ids[6]), "");
    write_filter_value(xml, values[8], "LayerToCanvas transform", None, "ilf_outputTransform");
    reveal(filter_values_xml);
    assert(xml@.output =~= start + filter_values_xml(old(xml)@.depth, ids@, values@));
}

/// A static filter definition with its identifier and note, at depth `d`.
pub open spec fn definition_xml(d: nat, id: RefId, uuid: Seq<char>, note: Seq<char>) -> Seq<u8> {
    empty_line(d, "StaticFilterDefGuid"@, seq![("uuid"@, uuid), ("note"@, note)] + shared_attrs(id))
}

/// Writes a static filter definition.
fn write_definition(xml: &mut XmlWriter, id: RefId, uuid: &str, note: &str)
    ensures
        final(xml)@ == (XmlWriterView {
            output: old(xml)@.output + definition_xml(old(xml)@.depth, id, uuid@, note@),
            depth: old(xml)@.depth,
        }),
{
    let mut attrs: Vec<Attr> = Vec::new();
    attrs.push(attr("uuid", String::from_str(uuid)));
    attrs.push(attr("note", String::from_str(note)));
    assert(attr_views(attrs@) =~= seq![("uuid"@, uuid@), ("note"@, note@)]);
    empty_shared(xml, "StaticFilterDefGuid", id, attrs);
}

/// The shared filter objects, at depth `d`: the selector's and the layer
/// filter's definitions under their fixed identifiers, the value
/// identifiers and the values.
pub open spec fn filter_globals_xml(
    d: nat,
    filters: super::plan::FilterGlobals,
    selector_uuid: Seq<char>,
    layer_uuid: Seq<char>,
) -> Seq<u8> {
    definition_xml(d, filters.selector_definition, selector_uuid, "CLayerSelector"@) + definition_xml(
        d,
        filters.filter_definition,
        layer_uuid,
        "CLayerFilter"@,
    ) + value_ids_xml(d, filters.value_ids@) + filter_values_xml(d, filters.value_ids@, filters.values@)
}

/// Writes the shared filter objects; `selector_uuid` and `layer_uuid` are
/// the editor's fixed identifiers of the selector and layer filter
/// definitions.
pub fn write_globals(xml: &mut XmlWriter, filters: &super::plan::FilterGlobals, selector_uuid: &str, layer_uuid: &str)
    requires
        old(xml)@.depth < usize::MAX,
    ensures
        final(xml)@ == (XmlWriterView {
            output: old(xml)@.output + filter_globals_xml(old(xml)@.depth, *filters, selector_uuid@, layer_uuid@),
            depth: old(xml)@.depth,
        }),
{
    let ghost start = xml@.output;
    write_definition(xml, filters.selector_definition, selector_uuid, "CLayerSelector");
    write_definition(xml, filters.filter_definition, layer_uuid, "CLayerFilter");
    write_value_ids(xml, &filters.value_ids);
    write_filter_values(xml, &filters.value_ids, &filters.values);
    assert(xml@.output =~= start + filter_globals_xml(old(xml)@.depth, *filters, selector_uuid@, layer_uuid@));
}

} // verus!
