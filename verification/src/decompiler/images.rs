//! The image objects of the editor document: the textures of the atlas
//! pages, their cached copies, the model images and the layers of the
//! source image.

use vstd::prelude::*;

use super::grid::{decimal_text, ref_attrs, reference, reference_without_name, shared_attrs, start_shared};
use super::plan::{PagePlan, ProjectPlan, RefId};
use super::texture::{Texture, TextureView};
use super::xml::{attr, attr_views, empty_line, end_line, start_line, text_line, Attr, XmlWriter, XmlWriterView};
use crate::text::number_text;

verus! {

/// The attribute that names an element.
pub open spec fn named(name: Seq<char>) -> Seq<(Seq<char>, Seq<char>)> {
    seq![("xs.n"@, name)]
}

/// A named element's attributes with one more attribute `v`.
pub open spec fn named_value(name: Seq<char>, value: Seq<char>) -> Seq<(Seq<char>, Seq<char>)> {
    seq![("xs.n"@, name), ("v"@, value)]
}

/// Returns the attribute that names an element.
pub(crate) fn named_attrs(name: &str) -> (res: Vec<Attr>)
    ensures
        attr_views(res@) == named(name@),
{
    let mut attrs: Vec<Attr> = Vec::new();
    attrs.push(attr("xs.n", String::from_str(name)));
    assert(attr_views(attrs@) =~= named(name@));
    attrs
}

/// Returns the attributes of a named element with the attribute `v`.
pub(crate) fn named_value_attrs(name: &str, value: &str) -> (res: Vec<Attr>)
    ensures
        attr_views(res@) == named_value(name@, value@),
{
    let mut attrs: Vec<Attr> = Vec::new();
    attrs.push(attr("xs.n", String::from_str(name)));
    attrs.push(attr("v", String::from_str(value)));
    assert(attr_views(attrs@) =~= named_value(name@, value@));
    attrs
}

/// The label of atlas page `index`: `Texture ` and the page's number.
pub open spec fn texture_label(index: nat) -> Seq<char> {
    "Texture "@ + decimal_text(index)
}

/// Returns the label of atlas page `index`.
pub fn texture_label_text(index: usize) -> (res: String)
    ensures
        res@ == texture_label(index as nat),
{
    let number = number_text(index as u64);
    String::from_str("Texture ").concat(number.as_str())
}

/// The attributes of the identity transform named `name`.
pub open spec fn identity_attrs(name: Seq<char>) -> Seq<(Seq<char>, Seq<char>)> {
    seq![
        ("xs.n"@, name),
        ("m00"@, "1.0"@),
        ("m01"@, "0.0"@),
        ("m02"@, "0.0"@),
        ("m10"@, "0.0"@),
        ("m11"@, "1.0"@),
        ("m12"@, "0.0"@),
    ]
}

/// Writes the identity transform named `name`.
pub fn affine(xml: &mut XmlWriter, name: &str)
    ensures
        final(xml)@ == (XmlWriterView {
            output: old(xml)@.output + empty_line(old(xml)@.depth, "CAffine"@, identity_attrs(name@)),
            depth: old(xml)@.depth,
        }),
{
    let mut attrs: Vec<Attr> = Vec::new();
    attrs.push(attr("xs.n", String::from_str(name)));
    attrs.push(attr("m00", String::from_str("1.0")));
    attrs.push(attr("m01", String::from_str("0.0")));
    attrs.push(attr("m02", String::from_str("0.0")));
    attrs.push(attr("m10", String::from_str("0.0")));
    attrs.push(attr("m11", String::from_str("1.0")));
    attrs.push(attr("m12", String::from_str("0.0")));
    assert(attr_views(attrs@) =~= identity_attrs(name@));
    xml.empty("CAffine", attrs.as_slice());
}

/// The texture object of an atlas page at depth `d`.
#[verifier::opaque]
pub open spec fn texture_xml(d: nat, page: PagePlan, index: nat) -> Seq<u8> {
    start_line(d, "GTexture2D"@, shared_attrs(page.texture)) + start_line(d + 1, "GTexture"@, named("super"@))
        + text_line(d + 2, "s"@, named("name"@), texture_label(index)) + empty_line(
        d + 2,
        "WrapMode"@,
        named_value("wrapMode"@, "CLAMP_TO_BORDER"@),
    ) + start_line(d + 2, "FilterMode"@, named("filterMode"@)) + empty_line(
        d + 3,
        "GTexture2D"@,
        ref_attrs("owner"@, page.texture),
    ) + empty_line(d + 3, "MinFilter"@, named_value("minFilter"@, "LINEAR_MIPMAP_LINEAR"@)) + empty_line(
        d + 3,
        "MagFilter"@,
        named_value("magFilter"@, "LINEAR"@),
    ) + end_line(d + 2, "FilterMode"@) + empty_line(d + 2, "GTextureGuid"@, ref_attrs("guid"@, page.texture_guid))
        + empty_line(d + 2, "Anisotropy"@, named_value("anisotropy"@, "ON"@)) + end_line(d + 1, "GTexture"@)
        + empty_line(d + 1, "CImageResource"@, ref_attrs("srcImageResource"@, page.image_resource)) + empty_line(
        d + 1,
        "CAffine"@,
        identity_attrs("transformImageResource01toLogical01"@),
    ) + text_line(d + 1, "i"@, named("mipmapLevel"@), "64"@) + text_line(d + 1, "b"@, named("isPremultiplied"@), "true"@)
        + end_line(d, "GTexture2D"@)
}

/// Writes the texture object of atlas page `index`.
#[verifier::spinoff_prover]
#[verifier::rlimit(60)]
pub fn write_texture(xml: &mut XmlWriter, page: &PagePlan, index: usize)
    requires
        old(xml)@.depth + 3 < usize::MAX,
    ensures
        final(xml)@ == (XmlWriterView {
            output: old(xml)@.output + texture_xml(old(xml)@.depth, *page, index as nat),
            depth: old(xml)@.depth,
        }),
{
    let ghost d = xml@.depth;
    let ghost start = xml@.output;
    start_shared(xml, "GTexture2D", page.texture);
    xml.start("GTexture", named_attrs("super").as_slice());
    let label = texture_label_text(index);
    xml.text("s", named_attrs("name").as_slice(), label.as_str());
    xml.empty("WrapMode", named_value_attrs("wrapMode", "CLAMP_TO_BORDER").as_slice());
    xml.start("FilterMode", named_attrs("filterMode").as_slice());
    reference(xml, "GTexture2D", "owner", page.texture);
    xml.empty("MinFilter", named_value_attrs("minFilter", "LINEAR_MIPMAP_LINEAR").as_slice());
    xml.empty("MagFilter", named_value_attrs("magFilter", "LINEAR").as_slice());
    xml.end("FilterMode");
    reference(xml, "GTextureGuid", "guid", page.texture_guid);
    xml.empty("Anisotropy", named_value_attrs("anisotropy", "ON").as_slice());
    xml.end("GTexture");
    reference(xml, "CImageResource", "srcImageResource", page.image_resource);
    affine(xml, "transformImageResource01toLogical01");
    xml.text("i", named_attrs("mipmapLevel").as_slice(), "64");
    xml.text("b", named_attrs("isPremultiplied").as_slice(), "true");
    xml.end("GTexture2D");
    reveal(texture_xml);
    assert(xml@.output =~= start + texture_xml(d, *page, index as nat));
}

/// The attributes of a named list with the given count.
pub open spec fn counted(name: Seq<char>, count: Seq<char>) -> Seq<(Seq<char>, Seq<char>)> {
    seq![("xs.n"@, name), ("count"@, count)]
}

/// Returns the attributes of a named list with the given count.
pub(crate) fn counted_attrs(name: &str, count: String) -> (res: Vec<Attr>)
    ensures
        attr_views(res@) == counted(name@, count@),
{
    let mut attrs: Vec<Attr> = Vec::new();
    attrs.push(attr("xs.n", String::from_str(name)));
    attrs.push(attr("count", count));
    assert(attr_views(attrs@) =~= counted(name@, count@));
    attrs
}

/// The one cached copy of an image resource, at depth `d`.
#[verifier::opaque]
pub open spec fn cached_image_xml(d: nat, image_resource: RefId, texture: TextureView) -> Seq<u8> {
    start_line(d, "CCachedImage"@, Seq::empty()) + empty_line(
        d + 1,
        "CImageResource"@,
        ref_attrs("_cachedImageResource"@, image_resource),
    ) + text_line(d + 1, "b"@, named("isSharedImage"@), "true"@) + empty_line(
        d + 1,
        "CSize"@,
        seq![
            ("xs.n"@, "rawImageSize"@),
            ("width"@, decimal_text(texture.width as nat)),
            ("height"@, decimal_text(texture.height as nat)),
        ],
    ) + text_line(d + 1, "i"@, named("reductionRatio"@), "1"@) + text_line(d + 1, "i"@, named("mipmapLevel"@), "64"@)
        + text_line(d + 1, "b"@, named("hasMargin"@), "false"@) + text_line(d + 1, "b"@, named("isCleaned"@), "false"@)
        + empty_line(d + 1, "CAffine"@, identity_attrs("transformRawImageToCachedImage"@)) + end_line(d, "CCachedImage"@)
}

/// Writes the one cached copy of an image resource.
#[verifier::spinoff_prover]
#[verifier::rlimit(60)]
fn write_cached_image(xml: &mut XmlWriter, image_resource: RefId, texture: &Texture)
    requires
        old(xml)@.depth + 1 < usize::MAX,
    ensures
        final(xml)@ == (XmlWriterView {
            output: old(xml)@.output + cached_image_xml(old(xml)@.depth, image_resource, texture@),
            depth: old(xml)@.depth,
        }),
{
    let ghost d = xml@.depth;
    let ghost start = xml@.output;
    let none: Vec<Attr> = Vec::new();
    xml.start("CCachedImage", none.as_slice());
    reference(xml, "CImageResource", "_cachedImageResource", image_resource);
    xml.text("b", named_attrs("isSharedImage").as_slice(), "true");
    let mut size: Vec<Attr> = Vec::new();
    size.push(attr("xs.n", String::from_str("rawImageSize")));
    size.push(attr("width", number_text(texture.width() as u64)));
    size.push(attr("height", number_text(texture.height() as u64)));
    xml.empty("CSize", size.as_slice());
    xml.text("i", named_attrs("reductionRatio").as_slice(), "1");
    xml.text("i", named_attrs("mipmapLevel").as_slice(), "64");
    xml.text("b", named_attrs("hasMargin").as_slice(), "false");
    xml.text("b", named_attrs("isCleaned").as_slice(), "false");
    affine(xml, "transformRawImageToCachedImage");
    xml.end("CCachedImage");
    assert(attr_views(none@) =~= Seq::empty());
    assert(attr_views(size@) =~= seq![
        ("xs.n"@, "rawImageSize"@),
        ("width"@, decimal_text(texture@.width as nat)),
        ("height"@, decimal_text(texture@.height as nat)),
    ]);
    reveal(cached_image_xml);
    assert(xml@.output =~= start + cached_image_xml(d, image_resource, texture@));
}

/// The cached-image manager named `name` of an image resource, at depth
/// `d`.
#[verifier::opaque]
pub open spec fn manager_xml(d: nat, name: Seq<char>, image_resource: RefId, texture: TextureView) -> Seq<u8> {
    start_line(d, "CCachedImageManager"@, named(name)) + empty_line(
        d + 1,
        "CachedImageType"@,
        named_value("defaultCacheType"@, "SCALE_1"@),
    ) + empty_line(d + 1, "CImageResource"@, ref_attrs("rawImage"@, image_resource)) + start_line(
        d + 1,
        "array_list"@,
        counted("cachedImages"@, "1"@),
    ) + cached_image_xml(d + 2, image_resource, texture) + end_line(d + 1, "array_list"@) + text_line(
        d + 1,
        "i"@,
        named("requiredMipmapLevel"@),
        "64"@,
    ) + end_line(d, "CCachedImageManager"@)
}

/// Writes the cached-image manager named `name` of an image resource.
#[verifier::spinoff_prover]
pub fn write_manager(xml: &mut XmlWriter, name: &str, image_resource: RefId, texture: &Texture)
    requires
        old(xml)@.depth + 3 < usize::MAX,
    ensures
        final(xml)@ == (XmlWriterView {
            output: old(xml)@.output + manager_xml(old(xml)@.depth, name@, image_resource, texture@),
            depth: old(xml)@.depth,
        }),
{
    let ghost d = xml@.depth;
    let ghost start = xml@.output;
    xml.start("CCachedImageManager", named_attrs(name).as_slice());
    xml.empty("CachedImageType", named_value_attrs("defaultCacheType", "SCALE_1").as_slice());
    reference(xml, "CImageResource", "rawImage", image_resource);
    xml.start("array_list", counted_attrs("cachedImages", String::from_str("1")).as_slice());
    write_cached_image(xml, image_resource, texture);
    xml.end("array_list");
    xml.text("i", named_attrs("requiredMipmapLevel").as_slice(), "64");
    xml.end("CCachedImageManager");
    reveal(manager_xml);
    assert(xml@.output =~= start + manager_xml(d, name@, image_resource, texture@));
}

/// The environment value that gives the source image's identifier, at
/// depth `d`.
#[verifier::opaque]
pub open spec fn guid_entry_xml(d: nat, key: RefId, layered: RefId) -> Seq<u8> {
    start_line(d, "entry"@, Seq::empty()) + empty_line(d + 1, "FilterValueId"@, ref_attrs("key"@, key)) + start_line(
        d + 1,
        "EnvValueSet"@,
        named("value"@),
    ) + empty_line(d + 2, "FilterValueId"@, ref_attrs("id"@, key)) + empty_line(
        d + 2,
        "CLayeredImageGuid"@,
        ref_attrs("value"@, layered),
    ) + text_line(d + 2, "l"@, named("updateTimeMs"@), "0"@) + end_line(d + 1, "EnvValueSet"@) + end_line(d, "entry"@)
}

/// Writes the environment value that gives the source image's identifier.
#[verifier::spinoff_prover]
fn write_guid_entry(xml: &mut XmlWriter, key: RefId, layered: RefId)
    requires
        old(xml)@.depth + 2 < usize::MAX,
    ensures
        final(xml)@ == (XmlWriterView {
            output: old(xml)@.output + guid_entry_xml(old(xml)@.depth, key, layered),
            depth: old(xml)@.depth,
        }),
{
    let ghost d = xml@.depth;
    let ghost start = xml@.output;
    let none: Vec<Attr> = Vec::new();
    xml.start("entry", none.as_slice());
    reference(xml, "FilterValueId", "key", key);
    xml.start("EnvValueSet", named_attrs("value").as_slice());
    reference(xml, "FilterValueId", "id", key);
    reference(xml, "CLayeredImageGuid", "value", layered);
    xml.text("l", named_attrs("updateTimeMs").as_slice(), "0");
    xml.end("EnvValueSet");
    xml.end("entry");
    assert(attr_views(none@) =~= Seq::empty());
    reveal(guid_entry_xml);
    assert(xml@.output =~= start + guid_entry_xml(d, key, layered));
}

/// The input of a model image: one layer, untransformed and unclipped, at
/// depth `d`.
#[verifier::opaque]
pub open spec fn layer_input_xml(d: nat, layer: RefId) -> Seq<u8> {
    start_line(d, "CLayerInputData"@, Seq::empty()) + empty_line(d + 1, "CLayer"@, ref_attrs("layer"@, layer)) + empty_line(
        d + 1,
        "CAffine"@,
        identity_attrs("affine"@),
    ) + empty_line(d + 1, "null"@, named("clippingOnTexturePx"@)) + end_line(d, "CLayerInputData"@)
}

/// Writes the input of a model image.
#[verifier::spinoff_prover]
fn write_layer_input(xml: &mut XmlWriter, layer: RefId)
    requires
        old(xml)@.depth + 1 < usize::MAX,
    ensures
        final(xml)@ == (XmlWriterView {
            output: old(xml)@.output + layer_input_xml(old(xml)@.depth, layer),
            depth: old(xml)@.depth,
        }),
{
    let ghost d = xml@.depth;
    let ghost start = xml@.output;
    let none: Vec<Attr> = Vec::new();
    xml.start("CLayerInputData", none.as_slice());
    reference(xml, "CLayer", "layer", layer);
    affine(xml, "affine");
    xml.empty("null", named_attrs("clippingOnTexturePx").as_slice());
    xml.end("CLayerInputData");
    assert(attr_views(none@) =~= Seq::empty());
    reveal(layer_input_xml);
    assert(xml@.output =~= start + layer_input_xml(d, layer));
}

/// The layer selection of a model image: the source image mapped to its one
/// layer, at depth `d`.
#[verifier::opaque]
pub open spec fn selector_map_xml(d: nat, layered: RefId, layer: RefId) -> Seq<u8> {
    start_line(d, "CLayerSelectorMap"@, named("value"@)) + start_line(
        d + 1,
        "linked_map"@,
        counted("_imageToLayerInput"@, "1"@),
    ) + start_line(d + 2, "entry"@, Seq::empty()) + empty_line(d + 3, "CLayeredImageGuid"@, ref_attrs("key"@, layered))
        + start_line(d + 3, "array_list"@, counted("value"@, "1"@)) + layer_input_xml(d + 4, layer) + end_line(
        d + 3,
        "array_list"@,
    ) + end_line(d + 2, "entry"@) + end_line(d + 1, "linked_map"@) + end_line(d, "CLayerSelectorMap"@)
}

/// Writes the layer selection of a model image.
#[verifier::spinoff_prover]
fn write_selector_map(xml: &mut XmlWriter, layered: RefId, layer: RefId)
    requires
        old(xml)@.depth + 5 < usize::MAX,
    ensures
        final(xml)@ == (XmlWriterView {
            output: old(xml)@.output + selector_map_xml(old(xml)@.depth, layered, layer),
            depth: old(xml)@.depth,
        }),
{
    let ghost d = xml@.depth;
    let ghost start = xml@.output;
    let none: Vec<Attr> = Vec::new();
    xml.start("CLayerSelectorMap", named_attrs("value").as_slice());
    xml.start("linked_map", counted_attrs("_imageToLayerInput", String::from_str("1")).as_slice());
    xml.start("entry", none.as_slice());
    reference(xml, "CLayeredImageGuid", "key", layered);
    xml.start("array_list", counted_attrs("value", String::from_str("1")).as_slice());
    write_layer_input(xml, layer);
    xml.end("array_list");
    xml.end("entry");
    xml.end("linked_map");
    xml.end("CLayerSelectorMap");
    assert(attr_views(none@) =~= Seq::empty());
    reveal(selector_map_xml);
    assert(xml@.output =~= start + selector_map_xml(d, layered, layer));
}

/// The environment value that selects the layer of a model image, at depth
/// `d`.
#[verifier::opaque]
pub open spec fn selector_entry_xml(d: nat, key: RefId, layered: RefId, layer: RefId) -> Seq<u8> {
    start_line(d, "entry"@, Seq::empty()) + empty_line(d + 1, "FilterValueId"@, ref_attrs("key"@, key)) + start_line(
        d + 1,
        "EnvValueSet"@,
        named("value"@),
    ) + empty_line(d + 2, "FilterValueId"@, ref_attrs("id"@, key)) + selector_map_xml(d + 2, layered, layer)
        + text_line(d + 2, "l"@, named("updateTimeMs"@), "0"@) + end_line(d + 1, "EnvValueSet"@) + end_line(d, "entry"@)
}

/// Writes the environment value that selects the layer of a model image.
#[verifier::spinoff_prover]
fn write_selector_entry(xml: &mut XmlWriter, key: RefId, layered: RefId, layer: RefId)
    requires
        old(xml)@.depth + 8 < usize::MAX,
    ensures
        final(xml)@ == (XmlWriterView {
            output: old(xml)@.output + selector_entry_xml(old(xml)@.depth, key, layered, layer),
            depth: old(xml)@.depth,
        }),
{
    let ghost d = xml@.depth;
    let ghost start = xml@.output;
    let none: Vec<Attr> = Vec::new();
    xml.start("entry", none.as_slice());
    reference(xml, "FilterValueId", "key", key);
    xml.start("EnvValueSet", named_attrs("value").as_slice());
    reference(xml, "FilterValueId", "id", key);
    write_selector_map(xml, layered, layer);
    xml.text("l", named_attrs("updateTimeMs").as_slice(), "0");
    xml.end("EnvValueSet");
    xml.end("entry");
    assert(attr_views(none@) =~= Seq::empty());
    reveal(selector_entry_xml);
    assert(xml@.output =~= start + selector_entry_xml(d, key, layered, layer));
}

/// The input filter environment of a model image, at depth `d`: the source
/// image's identifier under `guid_key` and its layer selection under
/// `selector_key`.
#[verifier::opaque]
pub open spec fn filter_env_xml(d: nat, guid_key: RefId, selector_key: RefId, layered: RefId, layer: RefId) -> Seq<u8> {
    start_line(d, "ModelImageFilterEnv"@, named("inputFilterEnv"@)) + start_line(d + 1, "FilterEnv"@, named("super"@))
        + empty_line(d + 2, "null"@, named("parentEnv"@)) + start_line(d + 2, "hash_map"@, counted("envValues"@, "2"@))
        + guid_entry_xml(d + 3, guid_key, layered) + selector_entry_xml(d + 3, selector_key, layered, layer) + end_line(
        d + 2,
        "hash_map"@,
    ) + end_line(d + 1, "FilterEnv"@) + end_line(d, "ModelImageFilterEnv"@)
}

/// Writes the input filter environment of a model image.
#[verifier::spinoff_prover]
fn write_filter_env(xml: &mut XmlWriter, guid_key: RefId, selector_key: RefId, layered: RefId, layer: RefId)
    requires
        old(xml)@.depth + 12 < usize::MAX,
    ensures
        final(xml)@ == (XmlWriterView {
            output: old(xml)@.output + filter_env_xml(old(xml)@.depth, guid_key, selector_key, layered, layer),
            depth: old(xml)@.depth,
        }),
{
    let ghost d = xml@.depth;
    let ghost start = xml@.output;
    xml.start("ModelImageFilterEnv", named_attrs("inputFilterEnv").as_slice());
    xml.start("FilterEnv", named_attrs("super").as_slice());
    xml.empty("null", named_attrs("parentEnv").as_slice());
    xml.start("hash_map", counted_attrs("envValues", String::from_str("2")).as_slice());
    write_guid_entry(xml, guid_key, layered);
    write_selector_entry(xml, selector_key, layered, layer);
    xml.end("hash_map");
    xml.end("FilterEnv");
    xml.end("ModelImageFilterEnv");
    reveal(filter_env_xml);
    assert(xml@.output =~= start + filter_env_xml(d, guid_key, selector_key, layered, layer));
}

/// The model image of atlas page `index`, at depth `d`.
#[verifier::opaque]
pub open spec fn model_image_xml(
    d: nat,
    value_ids: Seq<RefId>,
    layered: RefId,
    image_group: RefId,
    page: PagePlan,
    texture: TextureView,
    index: nat,
) -> Seq<u8> {
    start_line(d, "CModelImage"@, seq![("modelImageVersion"@, "0"@)]) + empty_line(
        d + 1,
        "CModelImageGuid"@,
        ref_attrs("guid"@, page.model_image_guid),
    ) + text_line(d + 1, "s"@, named("name"@), texture_label(index)) + empty_line(
        d + 1,
        "ModelImageFilterSet"@,
        ref_attrs("inputFilter"@, page.filter_set),
    ) + filter_env_xml(d + 1, value_ids[3], value_ids[1], layered, page.layer) + empty_line(
        d + 1,
        "CImageResource"@,
        ref_attrs("_filteredImage"@, page.image_resource),
    ) + empty_line(d + 1, "null"@, named("icon16"@)) + empty_line(
        d + 1,
        "CAffine"@,
        identity_attrs("_materialLocalToCanvasTransform"@),
    ) + empty_line(d + 1, "CModelImageGroup"@, ref_attrs("_group"@, image_group)) + start_line(
        d + 1,
        "carray_list"@,
        counted("linkedRawImageGuids"@, "1"@),
    ) + empty_line(d + 2, "CLayeredImageGuid"@, seq![("xs.ref"@, super::grid::ref_text(layered))]) + end_line(
        d + 1,
        "carray_list"@,
    ) + manager_xml(d + 1, "cachedImageManager"@, page.image_resource, texture) + empty_line(
        d + 1,
        "s"@,
        named("memo"@),
    ) + end_line(d, "CModelImage"@)
}

/// Writes the model image of atlas page `index`: its input filter, which
/// selects the page's layer of the source image, and its cached copy.
#[verifier::spinoff_prover]
#[verifier::rlimit(60)]
pub fn write_model_image(xml: &mut XmlWriter, plan: &ProjectPlan, page: &PagePlan, texture: &Texture, index: usize)
    requires
        old(xml)@.depth + 14 < usize::MAX,
    ensures
        final(xml)@ == (XmlWriterView {
            output: old(xml)@.output + model_image_xml(
                old(xml)@.depth,
                plan.filters.value_ids@,
                plan.layered_image_guid,
                plan.image_group,
                *page,
                texture@,
                index as nat,
            ),
            depth: old(xml)@.depth,
        }),
{
    let ghost d = xml@.depth;
    let ghost start = xml@.output;
    let mut version: Vec<Attr> = Vec::new();
    version.push(attr("modelImageVersion", String::from_str("0")));
    xml.start("CModelImage", version.as_slice());
    reference(xml, "CModelImageGuid", "guid", page.model_image_guid);
    let label = texture_label_text(index);
    xml.text("s", named_attrs("name").as_slice(), label.as_str());
    reference(xml, "ModelImageFilterSet", "inputFilter", page.filter_set);
    write_filter_env(xml, plan.filters.value_ids[3], plan.filters.value_ids[1], plan.layered_image_guid, page.layer);
    reference(xml, "CImageResource", "_filteredImage", page.image_resource);
    xml.empty("null", named_attrs("icon16").as_slice());
    affine(xml, "_materialLocalToCanvasTransform");
    reference(xml, "CModelImageGroup", "_group", plan.image_group);
    xml.start("carray_list", counted_attrs("linkedRawImageGuids", String::from_str("1")).as_slice());
    reference_without_name(xml, "CLayeredImageGuid", plan.layered_image_guid);
    xml.end("carray_list");
    write_manager(xml, "cachedImageManager", page.image_resource, texture);
    xml.empty("s", named_attrs("memo").as_slice());
    xml.end("CModelImage");
    assert(attr_views(version@) =~= seq![("modelImageVersion"@, "0"@)]);
    reveal(model_image_xml);
    assert(xml@.output =~= start + model_image_xml(
        d,
        plan.filters.value_ids@,
        plan.layered_image_guid,
        plan.image_group,
        *page,
        texture@,
        index as nat,
    ));
}

/// The model images of the first `n` pages, at depth `d`.
pub open spec fn model_images_xml(
    d: nat,
    value_ids: Seq<RefId>,
    layered: RefId,
    image_group: RefId,
    pages: Seq<PagePlan>,
    textures: Seq<TextureView>,
    n: int,
) -> Seq<u8>
    decreases n,
{
    if n <= 0 {
        Seq::empty()
    } else {
        model_images_xml(d, value_ids, layered, image_group, pages, textures, n - 1) + model_image_xml(
            d,
            value_ids,
            layered,
            image_group,
            pages[n - 1],
            textures[n - 1],
            (n - 1) as nat,
        )
    }
}

/// How many pages have a texture: the shorter of the two lists.
pub open spec fn paired(pages: nat, textures: nat) -> nat {
    if pages <= textures {
        pages
    } else {
        textures
    }
}

/// The model-image group at depth `d`: the source image it is made from,
/// then the model image of each page that has a texture; the list's count
/// is that of the pages.
#[verifier::opaque]
pub open spec fn model_image_group_xml(d: nat, plan: ProjectPlan, textures: Seq<TextureView>) -> Seq<u8> {
    let pages = plan.pages@;
    start_line(d, "CModelImageGroup"@, shared_attrs(plan.image_group)) + empty_line(d + 1, "s"@, named("memo"@))
        + text_line(d + 1, "s"@, named("groupName"@), "moc2cmo_atlas"@) + start_line(
        d + 1,
        "carray_list"@,
        counted("_linkedRawImageGuids"@, "1"@),
    ) + empty_line(d + 2, "CLayeredImageGuid"@, seq![("xs.ref"@, super::grid::ref_text(plan.layered_image_guid))])
        + end_line(d + 1, "carray_list"@) + start_line(
        d + 1,
        "carray_list"@,
        counted("_modelImages"@, decimal_text(pages.len())),
    ) + model_images_xml(
        d + 2,
        plan.filters.value_ids@,
        plan.layered_image_guid,
        plan.image_group,
        pages,
        textures,
        paired(pages.len(), textures.len()) as int,
    ) + end_line(d + 1, "carray_list"@) + end_line(d, "CModelImageGroup"@)
}

/// Writes the model-image group: one model image per atlas page that has a
/// texture.
#[verifier::spinoff_prover]
#[verifier::rlimit(60)]
pub fn write_model_image_group(xml: &mut XmlWriter, plan: &ProjectPlan, textures: &[Texture])
    requires
        old(xml)@.depth + 17 < usize::MAX,
    ensures
        final(xml)@ == (XmlWriterView {
            output: old(xml)@.output + model_image_group_xml(
                old(xml)@.depth,
                *plan,
                textures@.map_values(|t: Texture| t@),
            ),
            depth: old(xml)@.depth,
        }),
{
    let ghost d = xml@.depth;
    let ghost start = xml@.output;
    let ghost tv = textures@.map_values(|t: Texture| t@);
    start_shared(xml, "CModelImageGroup", plan.image_group);
    xml.empty("s", named_attrs("memo").as_slice());
    xml.text("s", named_attrs("groupName").as_slice(), "moc2cmo_atlas");
    xml.start("carray_list", counted_attrs("_linkedRawImageGuids", String::from_str("1")).as_slice());
    reference_without_name(xml, "CLayeredImageGuid", plan.layered_image_guid);
    xml.end("carray_list");
    xml.start("carray_list", counted_attrs("_modelImages", number_text(plan.pages.len() as u64)).as_slice());
    let ghost list_start = xml@.output;
    let n = if plan.pages.len() <= textures.len() {
        plan.pages.len()
    } else {
        textures.len()
    };
    let mut i: usize = 0;
    while i < n
        invariant
            i <= n,
            n == paired(plan.pages@.len(), textures@.len()),
            tv == textures@.map_values(|t: Texture| t@),
            d + 17 < usize::MAX,
            xml@.depth == d + 2,
            xml@.output == list_start + model_images_xml(
                d + 2,
                plan.filters.value_ids@,
                plan.layered_image_guid,
                plan.image_group,
                plan.pages@,
                tv,
                i as int,
            ),
        decreases n - i,
    {
        write_model_image(xml, plan, &plan.pages[i], &textures[i], i);
        i = i + 1;
    }
    xml.end("carray_list");
    xml.end("CModelImageGroup");
    reveal(model_image_group_xml);
    assert(xml@.output =~= start + model_image_group_xml(d, *plan, tv));
}

/// Whether `s` is a version 4 identifier in the hyphenated lowercase form:
/// 36 characters, hyphens at 8, 13, 18 and 23, hexadecimal digits
/// elsewhere, the version digit `4` at 14 and a variant digit of `8`, `9`,
/// `a` or `b` at 19.
pub open spec fn uuid_text(s: Seq<char>) -> bool {
    &&& s.len() == 36
    &&& forall|i: int|
        0 <= i < 36 ==> if i == 8 || i == 13 || i == 18 || i == 23 {
            s[i] == '-'
        } else {
            ('0' <= #[trigger] s[i] <= '9') || ('a' <= s[i] <= 'f')
        }
    &&& s[14] == '4'
    &&& (s[19] == '8' || s[19] == '9' || s[19] == 'a' || s[19] == 'b')
}

/// Draws a random identifier with `uuid::Uuid::new_v4` and writes it with
/// `to_string`. Claimed: the text is in the hyphenated lowercase form, as
/// the crate's `Display` impl writes it, with the version and variant
/// digits that `new_v4` sets by its mask; which identifier comes out is
/// left open.
#[verifier::external_body]
pub(crate) fn random_uuid() -> (res: String)
    ensures
        uuid_text(res@),
{
    uuid::Uuid::new_v4().to_string()
}

/// The common fields of a layer entry: its name, an empty memo, visible
/// and not clipping, at depth `d`.
pub open spec fn entry_head_xml(d: nat, name: Seq<char>) -> Seq<u8> {
    text_line(d, "s"@, named("name"@), name) + empty_line(d, "s"@, named("memo"@)) + text_line(
        d,
        "b"@,
        named("isVisible"@),
        "true"@,
    ) + text_line(d, "b"@, named("isClipping"@), "false"@)
}

/// Writes the common fields of a layer entry.
fn write_entry_head(xml: &mut XmlWriter, name: &str)
    ensures
        final(xml)@ == (XmlWriterView {
            output: old(xml)@.output + entry_head_xml(old(xml)@.depth, name@),
            depth: old(xml)@.depth,
        }),
{
    let ghost start = xml@.output;
    xml.text("s", named_attrs("name").as_slice(), name);
    xml.empty("s", named_attrs("memo").as_slice());
    xml.text("b", named_attrs("isVisible").as_slice(), "true");
    xml.text("b", named_attrs("isClipping").as_slice(), "false");
    assert(xml@.output =~= start + entry_head_xml(old(xml)@.depth, name@));
}

/// An empty option map.
pub open spec fn option_map_xml(d: nat) -> Seq<u8> {
    empty_line(d, "hash_map"@, seq![("xs.n"@, "_optionOfIOption"@), ("count"@, "0"@), ("keyType"@, "string"@)])
}

/// The identifier of a layer entry, with its note.
pub open spec fn layer_guid_xml(d: nat, uuid: Seq<char>, note: Seq<char>) -> Seq<u8> {
    empty_line(d, "CLayerGuid"@, seq![("xs.n"@, "guid"@), ("uuid"@, uuid), ("note"@, note)])
}

/// Writes an empty option map.
fn write_option_map(xml: &mut XmlWriter)
    ensures
        final(xml)@ == (XmlWriterView { output: old(xml)@.output + option_map_xml(old(xml)@.depth), depth: old(xml)@.depth }),
{
    let mut attrs: Vec<Attr> = Vec::new();
    attrs.push(attr("xs.n", String::from_str("_optionOfIOption")));
    attrs.push(attr("count", String::from_str("0")));
    attrs.push(attr("keyType", String::from_str("string")));
    assert(attr_views(attrs@) =~= seq![("xs.n"@, "_optionOfIOption"@), ("count"@, "0"@), ("keyType"@, "string"@)]);
    xml.empty("hash_map", attrs.as_slice());
}

/// Writes the identifier of a layer entry.
fn write_layer_guid(xml: &mut XmlWriter, uuid: &str, note: &str)
    ensures
        final(xml)@ == (XmlWriterView {
            output: old(xml)@.output + layer_guid_xml(old(xml)@.depth, uuid@, note@),
            depth: old(xml)@.depth,
        }),
{
    let mut attrs: Vec<Attr> = Vec::new();
    attrs.push(attr("xs.n", String::from_str("guid")));
    attrs.push(attr("uuid", String::from_str(uuid)));
    attrs.push(attr("note", String::from_str(note)));
    assert(attr_views(attrs@) =~= seq![("xs.n"@, "guid"@), ("uuid"@, uuid@), ("note"@, note@)]);
    xml.empty("CLayerGuid", attrs.as_slice());
}

/// The image-layer part of a page's layer, at depth `d`.
#[verifier::opaque]
pub open spec fn image_layer_xml(d: nat, label: Seq<char>, uuid: Seq<char>, plan: ProjectPlan) -> Seq<u8> {
    start_line(d, "ACImageLayer"@, named("super"@)) + start_line(d + 1, "ACLayerEntry"@, named("super"@))
        + entry_head_xml(d + 2, label) + empty_line(d + 2, "CBlend_Normal"@, ref_attrs("blend"@, plan.blend_normal))
        + layer_guid_xml(d + 2, uuid, label) + empty_line(d + 2, "CLayerGroup"@, ref_attrs("group"@, plan.layer_group))
        + text_line(d + 2, "i"@, named("opacity255"@), "255"@) + option_map_xml(d + 2) + empty_line(
        d + 2,
        "CLayeredImage"@,
        ref_attrs("_layeredImage"@, plan.layered_image),
    ) + end_line(d + 1, "ACLayerEntry"@) + end_line(d, "ACImageLayer"@)
}

/// Writes the image-layer part of a page's layer.
#[verifier::spinoff_prover]
#[verifier::rlimit(60)]
fn write_image_layer(xml: &mut XmlWriter, label: &str, uuid: &str, plan: &ProjectPlan)
    requires
        old(xml)@.depth + 2 < usize::MAX,
    ensures
        final(xml)@ == (XmlWriterView {
            output: old(xml)@.output + image_layer_xml(old(xml)@.depth, label@, uuid@, *plan),
            depth: old(xml)@.depth,
        }),
{
    let ghost d = xml@.depth;
    let ghost start = xml@.output;
    xml.start("ACImageLayer", named_attrs("super").as_slice());
    xml.start("ACLayerEntry", named_attrs("super").as_slice());
    write_entry_head(xml, label);
    reference(xml, "CBlend_Normal", "blend", plan.blend_normal);
    write_layer_guid(xml, uuid, label);
    reference(xml, "CLayerGroup", "group", plan.layer_group);
    xml.text("i", named_attrs("opacity255").as_slice(), "255");
    write_option_map(xml);
    reference(xml, "CLayeredImage", "_layeredImage", plan.layered_image);
    xml.end("ACLayerEntry");
    xml.end("ACImageLayer");
    reveal(image_layer_xml);
    assert(xml@.output =~= start + image_layer_xml(d, label@, uuid@, *plan));
}

/// The bounds of a page's layer on the source image: the page's size at
/// the origin.
#[verifier::opaque]
pub open spec fn bounds_xml(d: nat, texture: TextureView) -> Seq<u8> {
    start_line(d, "CRect"@, named("boundsOnImageDoc"@)) + text_line(d + 1, "i"@, named("x"@), "0"@) + text_line(
        d + 1,
        "i"@,
        named("y"@),
        "0"@,
    ) + text_line(d + 1, "i"@, named("width"@), decimal_text(texture.width as nat)) + text_line(
        d + 1,
        "i"@,
        named("height"@),
        decimal_text(texture.height as nat),
    ) + end_line(d, "CRect"@)
}

/// Writes the bounds of a page's layer.
#[verifier::spinoff_prover]
fn write_bounds(xml: &mut XmlWriter, texture: &Texture)
    requires
        old(xml)@.depth < usize::MAX,
    ensures
        final(xml)@ == (XmlWriterView {
            output: old(xml)@.output + bounds_xml(old(xml)@.depth, texture@),
            depth: old(xml)@.depth,
        }),
{
    let ghost d = xml@.depth;
    let ghost start = xml@.output;
    xml.start("CRect", named_attrs("boundsOnImageDoc").as_slice());
    xml.text("i", named_attrs("x").as_slice(), "0");
    xml.text("i", named_attrs("y").as_slice(), "0");
    let width = number_text(texture.width() as u64);
    xml.text("i", named_attrs("width").as_slice(), width.as_str());
    let height = number_text(texture.height() as u64);
    xml.text("i", named_attrs("height").as_slice(), height.as_str());
    xml.end("CRect");
    reveal(bounds_xml);
    assert(xml@.output =~= start + bounds_xml(d, texture@));
}

/// `n` in decimal with at least two digits.
pub open spec fn two_digits(n: nat) -> Seq<char> {
    if n < 10 {
        "0"@ + decimal_text(n)
    } else {
        decimal_text(n)
    }
}

/// The identifier of page `index`'s layer: `00-00-`, the page's number in
/// two digits and `-01`.
pub open spec fn layer_id(index: nat) -> Seq<char> {
    "00-00-"@ + two_digits(index) + "-01"@
}

/// Returns the identifier of page `index`'s layer.
fn layer_id_text(index: usize) -> (res: String)
    ensures
        res@ == layer_id(index as nat),
{
    let number = number_text(index as u64);
    let prefix = if index < 10 {
        String::from_str("00-00-0")
    } else {
        String::from_str("00-00-")
    };
    let res = prefix.concat(number.as_str()).concat("-01");
    proof {
        reveal_strlit("00-00-0");
        reveal_strlit("00-00-");
        reveal_strlit("0");
        if index < 10 {
            assert("00-00-0"@ =~= "00-00-"@ + "0"@);
        }
    }
    res
}

/// How a layer is identified: its name, its identifier and its number.
#[verifier::opaque]
pub open spec fn layer_identifier_xml(d: nat, index: nat) -> Seq<u8> {
    start_line(d, "CLayerIdentifier"@, named("layerIdentifier"@)) + text_line(
        d + 1,
        "s"@,
        named("layerName"@),
        texture_label(index),
    ) + text_line(d + 1, "s"@, named("layerId"@), layer_id(index)) + text_line(
        d + 1,
        "i"@,
        named("layerIdValue_testImpl"@),
        decimal_text(index + 1),
    ) + end_line(d, "CLayerIdentifier"@)
}

/// Writes how page `index`'s layer is identified.
#[verifier::spinoff_prover]
fn write_layer_identifier(xml: &mut XmlWriter, index: usize)
    requires
        old(xml)@.depth < usize::MAX,
        index < usize::MAX,
    ensures
        final(xml)@ == (XmlWriterView {
            output: old(xml)@.output + layer_identifier_xml(old(xml)@.depth, index as nat),
            depth: old(xml)@.depth,
        }),
{
    let ghost d = xml@.depth;
    let ghost start = xml@.output;
    xml.start("CLayerIdentifier", named_attrs("layerIdentifier").as_slice());
    let label = texture_label_text(index);
    xml.text("s", named_attrs("layerName").as_slice(), label.as_str());
    let id = layer_id_text(index);
    xml.text("s", named_attrs("layerId").as_slice(), id.as_str());
    let value = number_text(index as u64 + 1);
    xml.text("i", named_attrs("layerIdValue_testImpl").as_slice(), value.as_str());
    xml.end("CLayerIdentifier");
    reveal(layer_identifier_xml);
    assert(xml@.output =~= start + layer_identifier_xml(d, index as nat));
}

/// The layer of atlas page `index` in the source image, at depth `d`, with
/// the identifier `uuid`.
#[verifier::opaque]
pub open spec fn layer_xml(d: nat, plan: ProjectPlan, page: PagePlan, texture: TextureView, index: nat, uuid: Seq<char>) -> Seq<u8> {
    start_line(d, "CLayer"@, shared_attrs(page.layer)) + image_layer_xml(d + 1, texture_label(index), uuid, plan)
        + empty_line(d + 1, "CImageResource"@, ref_attrs("imageResource"@, page.image_resource)) + bounds_xml(
        d + 1,
        texture,
    ) + layer_identifier_xml(d + 1, index) + empty_line(d + 1, "null"@, named("icon16"@)) + empty_line(
        d + 1,
        "null"@,
        named("icon64"@),
    ) + empty_line(d + 1, "linked_map"@, seq![("xs.n"@, "layerInfo"@), ("count"@, "0"@), ("keyType"@, "string"@)])
        + option_map_xml(d + 1) + end_line(d, "CLayer"@)
}

/// Writes the layer of atlas page `index` with the identifier `uuid`.
#[verifier::spinoff_prover]
#[verifier::rlimit(60)]
pub fn write_layer_with(
    xml: &mut XmlWriter,
    plan: &ProjectPlan,
    page: &PagePlan,
    texture: &Texture,
    index: usize,
    uuid: &str,
)
    requires
        old(xml)@.depth + 4 < usize::MAX,
        index < usize::MAX,
    ensures
        final(xml)@ == (XmlWriterView {
            output: old(xml)@.output + layer_xml(old(xml)@.depth, *plan, *page, texture@, index as nat, uuid@),
            depth: old(xml)@.depth,
        }),
{
    let ghost d = xml@.depth;
    let ghost start = xml@.output;
    start_shared(xml, "CLayer", page.layer);
    let label = texture_label_text(index);
    write_image_layer(xml, label.as_str(), uuid, plan);
    reference(xml, "CImageResource", "imageResource", page.image_resource);
    write_bounds(xml, texture);
    write_layer_identifier(xml, index);
    xml.empty("null", named_attrs("icon16").as_slice());
    xml.empty("null", named_attrs("icon64").as_slice());
    let mut info: Vec<Attr> = Vec::new();
    info.push(attr("xs.n", String::from_str("layerInfo")));
    info.push(attr("count", String::from_str("0")));
    info.push(attr("keyType", String::from_str("string")));
    assert(attr_views(info@) =~= seq![("xs.n"@, "layerInfo"@), ("count"@, "0"@), ("keyType"@, "string"@)]);
    xml.empty("linked_map", info.as_slice());
    write_option_map(xml);
    xml.end("CLayer");
    reveal(layer_xml);
    assert(xml@.output =~= start + layer_xml(d, *plan, *page, texture@, index as nat, uuid@));
}

/// Writes the layer of atlas page `index` in the source image under a new
/// random identifier.
pub fn write_layer(xml: &mut XmlWriter, plan: &ProjectPlan, page: &PagePlan, texture: &Texture, index: usize)
    requires
        old(xml)@.depth + 4 < usize::MAX,
        index < usize::MAX,
    ensures
        exists|uuid: Seq<char>|
            uuid_text(uuid) && final(xml)@ == (XmlWriterView {
                output: old(xml)@.output + layer_xml(old(xml)@.depth, *plan, *page, texture@, index as nat, uuid),
                depth: old(xml)@.depth,
            }),
{
    let uuid = random_uuid();
    write_layer_with(xml, plan, page, texture, index, uuid.as_str());
}

/// Unnamed references to the layers of the first `n` pages.
pub open spec fn layer_refs_xml(d: nat, pages: Seq<PagePlan>, n: int) -> Seq<u8>
    decreases n,
{
    if n <= 0 {
        Seq::empty()
    } else {
        layer_refs_xml(d, pages, n - 1) + empty_line(d, "CLayer"@, seq![("xs.ref"@, super::grid::ref_text(pages[n - 1].layer))])
    }
}

/// Writes unnamed references to the layers of all pages.
fn write_layer_refs(xml: &mut XmlWriter, pages: &Vec<PagePlan>)
    ensures
        final(xml)@ == (XmlWriterView {
            output: old(xml)@.output + layer_refs_xml(old(xml)@.depth, pages@, pages@.len() as int),
            depth: old(xml)@.depth,
        }),
{
    let ghost start = xml@.output;
    let mut i: usize = 0;
    while i < pages.len()
        invariant
            i <= pages@.len(),
            xml@.depth == old(xml)@.depth,
            xml@.output == start + layer_refs_xml(old(xml)@.depth, pages@, i as int),
        decreases pages@.len() - i,
    {
        reference_without_name(xml, "CLayer", pages[i].layer);
        i = i + 1;
    }
}

/// The entry part of the root layer group, at depth `d`.
#[verifier::opaque]
pub open spec fn root_entry_xml(d: nat, uuid: Seq<char>, plan: ProjectPlan) -> Seq<u8> {
    start_line(d, "ACLayerEntry"@, named("super"@)) + entry_head_xml(d + 1, "root"@) + empty_line(
        d + 1,
        "CBlend_Normal"@,
        ref_attrs("blend"@, plan.blend_normal),
    ) + layer_guid_xml(d + 1, uuid, "root"@) + empty_line(d + 1, "null"@, named("group"@)) + text_line(
        d + 1,
        "i"@,
        named("opacity255"@),
        "255"@,
    ) + option_map_xml(d + 1) + empty_line(d + 1, "CLayeredImage"@, ref_attrs("_layeredImage"@, plan.layered_image))
        + end_line(d, "ACLayerEntry"@)
}

/// Writes the entry part of the root layer group.
#[verifier::spinoff_prover]
fn write_root_entry(xml: &mut XmlWriter, uuid: &str, plan: &ProjectPlan)
    requires
        old(xml)@.depth < usize::MAX,
    ensures
        final(xml)@ == (XmlWriterView {
            output: old(xml)@.output + root_entry_xml(old(xml)@.depth, uuid@, *plan),
            depth: old(xml)@.depth,
        }),
{
    let ghost d = xml@.depth;
    let ghost start = xml@.output;
    xml.start("ACLayerEntry", named_attrs("super").as_slice());
    write_entry_head(xml, "root");
    reference(xml, "CBlend_Normal", "blend", plan.blend_normal);
    write_layer_guid(xml, uuid, "root");
    xml.empty("null", named_attrs("group").as_slice());
    xml.text("i", named_attrs("opacity255").as_slice(), "255");
    write_option_map(xml);
    reference(xml, "CLayeredImage", "_layeredImage", plan.layered_image);
    xml.end("ACLayerEntry");
    reveal(root_entry_xml);
    assert(xml@.output =~= start + root_entry_xml(d, uuid@, *plan));
}

/// The root layer group of the source image, holding the layer of every
/// page, at depth `d`, with the identifier `uuid`.
#[verifier::opaque]
pub open spec fn layer_group_xml(d: nat, plan: ProjectPlan, uuid: Seq<char>) -> Seq<u8> {
    let pages = plan.pages@;
    start_line(d, "CLayerGroup"@, shared_attrs(plan.layer_group)) + start_line(d + 1, "ACLayerGroup"@, named("super"@))
        + root_entry_xml(d + 2, uuid, plan) + start_line(
        d + 2,
        "carray_list"@,
        counted("_children"@, decimal_text(pages.len())),
    ) + layer_refs_xml(d + 3, pages, pages.len() as int) + end_line(d + 2, "carray_list"@) + end_line(
        d + 1,
        "ACLayerGroup"@,
    ) + empty_line(d + 1, "null"@, named("layerIdentifier"@)) + end_line(d, "CLayerGroup"@)
}

/// Writes the root layer group with the identifier `uuid`.
#[verifier::spinoff_prover]
#[verifier::rlimit(60)]
pub fn write_layer_group_with(xml: &mut XmlWriter, plan: &ProjectPlan, uuid: &str)
    requires
        old(xml)@.depth + 4 < usize::MAX,
    ensures
        final(xml)@ == (XmlWriterView {
            output: old(xml)@.output + layer_group_xml(old(xml)@.depth, *plan, uuid@),
            depth: old(xml)@.depth,
        }),
{
    let ghost d = xml@.depth;
    let ghost start = xml@.output;
    start_shared(xml, "CLayerGroup", plan.layer_group);
    xml.start("ACLayerGroup", named_attrs("super").as_slice());
    write_root_entry(xml, uuid, plan);
    xml.start("carray_list", counted_attrs("_children", number_text(plan.pages.len() as u64)).as_slice());
    write_layer_refs(xml, &plan.pages);
    xml.end("carray_list");
    xml.end("ACLayerGroup");
    xml.empty("null", named_attrs("layerIdentifier").as_slice());
    xml.end("CLayerGroup");
    reveal(layer_group_xml);
    assert(xml@.output =~= start + layer_group_xml(d, *plan, uuid@));
}

/// Writes the root layer group of the source image under a new random
/// identifier.
pub fn write_layer_group(xml: &mut XmlWriter, plan: &ProjectPlan)
    requires
        old(xml)@.depth + 4 < usize::MAX,
    ensures
        exists|uuid: Seq<char>|
            uuid_text(uuid) && final(xml)@ == (XmlWriterView {
                output: old(xml)@.output + layer_group_xml(old(xml)@.depth, *plan, uuid),
                depth: old(xml)@.depth,
            }),
{
    let uuid = random_uuid();
    write_layer_group_with(xml, plan, uuid.as_str());
}

/// The source image's own fields: its name, the given pixel size, its file
/// and identifier, at depth `d`.
#[verifier::opaque]
pub open spec fn layered_image_head_xml(d: nat, plan: ProjectPlan, width: Seq<char>, height: Seq<char>) -> Seq<u8> {
    text_line(d, "s"@, named("name"@), "moc2cmo_atlas.psd"@) + empty_line(d, "s"@, named("memo"@)) + text_line(
        d,
        "i"@,
        named("width"@),
        width,
    ) + text_line(d, "i"@, named("height"@), height) + text_line(d, "file"@, named("psdFile"@), "moc2cmo_atlas.psd"@)
        + empty_line(d, "s"@, named("description"@)) + empty_line(
        d,
        "CLayeredImageGuid"@,
        ref_attrs("guid"@, plan.layered_image_guid),
    ) + empty_line(d, "null"@, named("psdBytes"@)) + text_line(d, "l"@, named("psdFileLastModified"@), "0"@)
        + empty_line(d, "CLayerGroup"@, ref_attrs("_rootLayer"@, plan.layer_group))
}

/// Writes the source image's own fields.
#[verifier::spinoff_prover]
#[verifier::rlimit(60)]
fn write_layered_image_head(xml: &mut XmlWriter, plan: &ProjectPlan, width: &str, height: &str)
    ensures
        final(xml)@ == (XmlWriterView {
            output: old(xml)@.output + layered_image_head_xml(old(xml)@.depth, *plan, width@, height@),
            depth: old(xml)@.depth,
        }),
{
    let ghost d = xml@.depth;
    let ghost start = xml@.output;
    xml.text("s", named_attrs("name").as_slice(), "moc2cmo_atlas.psd");
    xml.empty("s", named_attrs("memo").as_slice());
    xml.text("i", named_attrs("width").as_slice(), width);
    xml.text("i", named_attrs("height").as_slice(), height);
    xml.text("file", named_attrs("psdFile").as_slice(), "moc2cmo_atlas.psd");
    xml.empty("s", named_attrs("description").as_slice());
    reference(xml, "CLayeredImageGuid", "guid", plan.layered_image_guid);
    xml.empty("null", named_attrs("psdBytes").as_slice());
    xml.text("l", named_attrs("psdFileLastModified").as_slice(), "0");
    reference(xml, "CLayerGroup", "_rootLayer", plan.layer_group);
    reveal(layered_image_head_xml);
    assert(xml@.output =~= start + layered_image_head_xml(d, *plan, width@, height@));
}

/// The source image at depth `d`: its fields with the given pixel size,
/// then its layer set, the root group and the layer of every page, listed
/// with the count `texture_count + 1`.
#[verifier::opaque]
pub open spec fn layered_image_xml(d: nat, plan: ProjectPlan, width: Seq<char>, height: Seq<char>, texture_count: nat) -> Seq<u8> {
    let pages = plan.pages@;
    start_line(d, "CLayeredImage"@, shared_attrs(plan.layered_image)) + layered_image_head_xml(d + 1, plan, width, height)
        + start_line(d + 1, "LayerSet"@, named("layerSet"@)) + empty_line(
        d + 2,
        "CLayeredImage"@,
        ref_attrs("_layeredImage"@, plan.layered_image),
    ) + start_line(d + 2, "carray_list"@, counted("_layerEntryList"@, decimal_text(texture_count + 1))) + empty_line(
        d + 3,
        "CLayerGroup"@,
        seq![("xs.ref"@, super::grid::ref_text(plan.layer_group))],
    ) + layer_refs_xml(d + 3, pages, pages.len() as int) + end_line(d + 2, "carray_list"@) + end_line(
        d + 1,
        "LayerSet"@,
    ) + empty_line(d + 1, "null"@, named("icon16"@)) + empty_line(d + 1, "null"@, named("icon64"@)) + end_line(
        d,
        "CLayeredImage"@,
    )
}

/// Writes the source image whose layers are the atlas pages; `width` and
/// `height` are the texts of its pixel size.
#[verifier::spinoff_prover]
#[verifier::rlimit(60)]
pub fn write_layered_image(xml: &mut XmlWriter, plan: &ProjectPlan, width: &str, height: &str, texture_count: usize)
    requires
        old(xml)@.depth + 4 < usize::MAX,
        texture_count < usize::MAX,
    ensures
        final(xml)@ == (XmlWriterView {
            output: old(xml)@.output + layered_image_xml(old(xml)@.depth, *plan, width@, height@, texture_count as nat),
            depth: old(xml)@.depth,
        }),
{
    let ghost d = xml@.depth;
    let ghost start = xml@.output;
    start_shared(xml, "CLayeredImage", plan.layered_image);
    write_layered_image_head(xml, plan, width, height);
    xml.start("LayerSet", named_attrs("layerSet").as_slice());
    reference(xml, "CLayeredImage", "_layeredImage", plan.layered_image);
    let count = number_text(texture_count as u64 + 1);
    xml.start("carray_list", counted_attrs("_layerEntryList", count).as_slice());
    reference_without_name(xml, "CLayerGroup", plan.layer_group);
    write_layer_refs(xml, &plan.pages);
    xml.end("carray_list");
    xml.end("LayerSet");
    xml.empty("null", named_attrs("icon16").as_slice());
    xml.empty("null", named_attrs("icon64").as_slice());
    xml.end("CLayeredImage");
    reveal(layered_image_xml);
    assert(xml@.output =~= start + layered_image_xml(d, *plan, width@, height@, texture_count as nat));
}

} // verus!
