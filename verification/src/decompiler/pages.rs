//! The atlas pages of the editor document: the references of each page's
//! texture atlas and of each mesh's atlas input, and each page's
//! identifiers, image resource, atlas, layer, filters and texture.

use vstd::prelude::*;

use super::filters::{filter_globals_xml, filter_page_xml, write_filter_page, write_globals};
use super::grid::{decimal_text, empty_shared, ref_attrs, reference, shared_attrs, start_shared, start_shared_with};
use super::images::{
    affine, counted, counted_attrs, identity_attrs, layer_group_xml, layer_xml, layered_image_xml, manager_xml,
    model_image_group_xml, named, named_attrs, texture_xml, write_layer_group_with, write_layer_with, write_layered_image,
    write_manager, write_model_image_group, write_texture,
};
use super::plan::{plan_len, plan_matches, PagePlan, ProjectPlan, RefId};
use super::texture::{Texture, TextureView};
use super::xml::{attr, attr_views, empty_line, end_line, start_line, text_line, Attr, XmlWriter, XmlWriterView};
use super::{page_name, page_name_bytes};
use crate::moc3::Moc3Model;
use crate::text::{ascii_chars, number_text};

verus! {

/// The references of the texture atlases and atlas inputs: per page its
/// atlas identifier and atlas, per mesh its atlas input. They are numbered
/// after every reference of the project plan.
pub struct AtlasPlan {
    pub pages: Vec<(RefId, RefId)>,
    pub inputs: Vec<RefId>,
}

/// Whether `a` holds the atlas references numbered from `base` for `pages`
/// pages and `meshes` meshes: two per page, then one per mesh.
pub open spec fn atlas_matches(a: AtlasPlan, base: int, pages: nat, meshes: nat) -> bool {
    &&& a.pages@.len() == pages
    &&& a.inputs@.len() == meshes
    &&& forall|i: int|
        0 <= i < pages ==> (#[trigger] a.pages@[i]).0.index == base + 2 * i && a.pages@[i].1.index == base + 2 * i + 1
    &&& forall|j: int| 0 <= j < meshes ==> (#[trigger] a.inputs@[j]).index == base + 2 * pages + j
}

/// Numbers the atlas references of the document of `model` with `pages`
/// pages after the references of its project plan.
pub fn atlas_plan(plan: &ProjectPlan, model: &Moc3Model, pages: usize) -> (res: AtlasPlan)
    requires
        plan_matches(*plan, model@, pages as nat),
        plan_len(model@, pages as nat) + 2 * pages + model@.art_meshes.len() <= u32::MAX,
    ensures
        atlas_matches(res, plan_len(model@, pages as nat), pages as nat, model@.art_meshes.len()),
{
    let ghost base = plan_len(model@, pages as nat);
    let base_id = plan.image_group.index + 1;
    let mut next: u32 = base_id;
    let mut page_refs: Vec<(RefId, RefId)> = Vec::new();
    let mut i: usize = 0;
    while i < pages
        invariant
            i <= pages,
            base == base_id,
            base + 2 * pages + model@.art_meshes.len() <= u32::MAX,
            next == base + 2 * i,
            page_refs@.len() == i,
            forall|k: int|
                0 <= k < i ==> (#[trigger] page_refs@[k]).0.index == base + 2 * k && page_refs@[k].1.index == base + 2 * k + 1,
        decreases pages - i,
    {
        page_refs.push((RefId { index: next }, RefId { index: next + 1 }));
        next = next + 2;
        i = i + 1;
    }
    let meshes = model.art_meshes().len();
    let mut inputs: Vec<RefId> = Vec::new();
    let mut j: usize = 0;
    while j < meshes
        invariant
            j <= meshes,
            meshes == model@.art_meshes.len(),
            base + 2 * pages + meshes <= u32::MAX,
            next == base + 2 * pages + j,
            inputs@.len() == j,
            forall|k: int| 0 <= k < j ==> (#[trigger] inputs@[k]).index == base + 2 * pages + k,
        decreases meshes - j,
    {
        inputs.push(RefId { index: next });
        next = next + 1;
        j = j + 1;
    }
    AtlasPlan { pages: page_refs, inputs }
}

/// The identifiers drawn for one page: of its model image, its texture,
/// its atlas and its layer.
pub struct PageUuids {
    pub model_image: String,
    pub texture: String,
    pub atlas: String,
    pub layer: String,
}

/// The note of page `index`: `Texture` and its number.
pub open spec fn page_note(index: nat) -> Seq<char> {
    "Texture "@ + decimal_text(index)
}

/// The model image and texture identifiers of page `index` at depth `d`.
#[verifier::opaque]
pub open spec fn page_guids_xml(d: nat, page: PagePlan, index: nat, model_image: Seq<char>, texture: Seq<char>) -> Seq<u8> {
    empty_line(
        d,
        "CModelImageGuid"@,
        seq![("uuid"@, model_image), ("note"@, page_note(index))] + shared_attrs(page.model_image_guid),
    ) + empty_line(d, "GTextureGuid"@, seq![("uuid"@, texture), ("note"@, page_note(index))] + shared_attrs(page.texture_guid))
}

/// Returns the note of page `index`.
fn page_note_text(index: usize) -> (res: String)
    ensures
        res@ == page_note(index as nat),
{
    String::from_str("Texture ").concat(number_text(index as u64).as_str())
}

/// Returns a uuid and note attribute list.
fn noted(uuid: &str, note: String) -> (res: Vec<Attr>)
    ensures
        attr_views(res@) == seq![("uuid"@, uuid@), ("note"@, note@)],
{
    let mut attrs: Vec<Attr> = Vec::new();
    attrs.push(attr("uuid", String::from_str(uuid)));
    attrs.push(attr("note", note));
    assert(attr_views(attrs@) =~= seq![("uuid"@, uuid@), ("note"@, note@)]);
    attrs
}

/// Writes the model image and texture identifiers of a page.
fn write_page_guids(xml: &mut XmlWriter, page: &PagePlan, index: usize, model_image: &str, texture: &str)
    ensures
        final(xml)@ == (XmlWriterView {
            output: old(xml)@.output + page_guids_xml(old(xml)@.depth, *page, index as nat, model_image@, texture@),
            depth: old(xml)@.depth,
        }),
{
    let ghost d = xml@.depth;
    let ghost start = xml@.output;
    empty_shared(xml, "CModelImageGuid", page.model_image_guid, noted(model_image, page_note_text(index)));
    empty_shared(xml, "GTextureGuid", page.texture_guid, noted(texture, page_note_text(index)));
    reveal(page_guids_xml);
    assert(xml@.output =~= start + page_guids_xml(d, *page, index as nat, model_image@, texture@));
}

/// The image resource of page `index` at depth `d`: the page's size, its
/// pixel type, the size of its PNG and the file that holds it.
#[verifier::opaque]
pub open spec fn image_resource_xml(d: nat, page: PagePlan, t: TextureView, index: nat) -> Seq<u8> {
    start_line(
        d,
        "CImageResource"@,
        seq![
            ("width"@, decimal_text(t.width as nat)),
            ("height"@, decimal_text(t.height as nat)),
            ("type"@, "INT_ARGB"@),
            ("imageFileBuf_size"@, decimal_text(t.png.len())),
            ("previewFileBuf_size"@, "0"@),
        ] + shared_attrs(page.image_resource),
    ) + empty_line(d + 1, "file"@, seq![("xs.n"@, "imageFileBuf"@), ("path"@, ascii_chars(page_name_bytes(index)))])
        + end_line(d, "CImageResource"@)
}

/// Writes the image resource of a page.
#[verifier::spinoff_prover]
fn write_image_resource(xml: &mut XmlWriter, page: &PagePlan, texture: &Texture, index: usize)
    requires
        old(xml)@.depth < usize::MAX,
    ensures
        final(xml)@ == (XmlWriterView {
            output: old(xml)@.output + image_resource_xml(old(xml)@.depth, *page, texture@, index as nat),
            depth: old(xml)@.depth,
        }),
{
    let ghost d = xml@.depth;
    let ghost start = xml@.output;
    let mut attrs: Vec<Attr> = Vec::new();
    attrs.push(attr("width", number_text(texture.width() as u64)));
    attrs.push(attr("height", number_text(texture.height() as u64)));
    attrs.push(attr("type", String::from_str("INT_ARGB")));
    attrs.push(attr("imageFileBuf_size", number_text(texture.png().len() as u64)));
    attrs.push(attr("previewFileBuf_size", String::from_str("0")));
    assert(attr_views(attrs@) =~= seq![
        ("width"@, decimal_text(texture@.width as nat)),
        ("height"@, decimal_text(texture@.height as nat)),
        ("type"@, "INT_ARGB"@),
        ("imageFileBuf_size"@, decimal_text(texture@.png.len())),
        ("previewFileBuf_size"@, "0"@),
    ]);
    start_shared_with(xml, "CImageResource", page.image_resource, attrs);
    let mut file: Vec<Attr> = Vec::new();
    file.push(attr("xs.n", String::from_str("imageFileBuf")));
    file.push(attr("path", page_name(index)));
    assert(attr_views(file@) =~= seq![("xs.n"@, "imageFileBuf"@), ("path"@, ascii_chars(page_name_bytes(index as nat)))]);
    xml.empty("file", file.as_slice());
    xml.end("CImageResource");
    reveal(image_resource_xml);
    assert(xml@.output =~= start + image_resource_xml(d, *page, texture@, index as nat));
}

/// A vector named `name` with the coordinate texts `x` and `y`, at depth `d`.
pub open spec fn vector_xml(d: nat, name: Seq<char>, x: Seq<char>, y: Seq<char>) -> Seq<u8> {
    start_line(d, "GVector2"@, named(name)) + text_line(d + 1, "f"@, named("x"@), x) + text_line(d + 1, "f"@, named("y"@), y)
        + end_line(d, "GVector2"@)
}

/// Writes a vector.
fn write_vector(xml: &mut XmlWriter, name: &str, x: &str, y: &str)
    requires
        old(xml)@.depth + 1 < usize::MAX,
    ensures
        final(xml)@ == (XmlWriterView {
            output: old(xml)@.output + vector_xml(old(xml)@.depth, name@, x@, y@),
            depth: old(xml)@.depth,
        }),
{
    let ghost start = xml@.output;
    xml.start("GVector2", named_attrs(name).as_slice());
    xml.text("f", named_attrs("x").as_slice(), x);
    xml.text("f", named_attrs("y").as_slice(), y);
    xml.end("GVector2");
    assert(xml@.output =~= start + vector_xml((xml@.depth) as nat, name@, x@, y@));
}

/// The atlas entry of page `index`'s model image at depth `d`: placed at
/// the atlas's origin, unscaled and unrotated.
#[verifier::opaque]
pub open spec fn atlas_entry_xml(d: nat, page: PagePlan, atlas: RefId) -> Seq<u8> {
    start_line(d, "ModelImageEntry"@, Seq::empty()) + empty_line(d + 1, "CTextureAtlas"@, ref_attrs("atlas"@, atlas))
        + empty_line(d + 1, "CModelImageGuid"@, ref_attrs("modelImageGuid"@, page.model_image_guid)) + empty_line(
        d + 1,
        "CAffine"@,
        identity_attrs("atlasLocalToCanvasTransform"@),
    ) + start_line(d + 1, "GTransform2"@, named("materialLocalToAtlasTransform"@)) + vector_xml(
        d + 2,
        "position"@,
        "0"@,
        "0"@,
    ) + vector_xml(d + 2, "scale"@, "1"@, "1"@) + text_line(d + 2, "f"@, named("eulerAngle"@), "0.0"@) + end_line(
        d + 1,
        "GTransform2"@,
    ) + end_line(d, "ModelImageEntry"@)
}

/// Writes the atlas entry of a page's model image.
#[verifier::spinoff_prover]
fn write_atlas_entry(xml: &mut XmlWriter, page: &PagePlan, atlas: RefId)
    requires
        old(xml)@.depth + 4 < usize::MAX,
    ensures
        final(xml)@ == (XmlWriterView {
            output: old(xml)@.output + atlas_entry_xml(old(xml)@.depth, *page, atlas),
            depth: old(xml)@.depth,
        }),
{
    let ghost d = xml@.depth;
    let ghost start = xml@.output;
    let none: Vec<Attr> = Vec::new();
    assert(attr_views(none@) =~= Seq::empty());
    xml.start("ModelImageEntry", none.as_slice());
    reference(xml, "CTextureAtlas", "atlas", atlas);
    reference(xml, "CModelImageGuid", "modelImageGuid", page.model_image_guid);
    affine(xml, "atlasLocalToCanvasTransform");
    xml.start("GTransform2", named_attrs("materialLocalToAtlasTransform").as_slice());
    write_vector(xml, "position", "0", "0");
    write_vector(xml, "scale", "1", "1");
    xml.text("f", named_attrs("eulerAngle").as_slice(), "0.0");
    xml.end("GTransform2");
    xml.end("ModelImageEntry");
    reveal(atlas_entry_xml);
    assert(xml@.output =~= start + atlas_entry_xml(d, *page, atlas));
}

/// The start of the texture atlas of page `index` at depth `d`, with its
/// identifier `uuid`: named by the page's number from one, as large as the
/// page and caching the page's image. The atlas stays open.
#[verifier::opaque]
pub open spec fn atlas_head_xml(d: nat, page: PagePlan, atlas: (RefId, RefId), t: TextureView, index: nat, uuid: Seq<char>) -> Seq<u8> {
    empty_line(
        d,
        "CTextureAtlasGuid"@,
        seq![("uuid"@, uuid), ("note"@, "Texture atlas "@ + decimal_text(index + 1))] + shared_attrs(atlas.0),
    ) + start_line(d, "CTextureAtlas"@, shared_attrs(atlas.1)) + text_line(
        d + 1,
        "s"@,
        named("name"@),
        "TextureAtlas"@ + decimal_text(index + 1),
    ) + text_line(d + 1, "i"@, named("width"@), decimal_text(t.width as nat)) + text_line(
        d + 1,
        "i"@,
        named("height"@),
        decimal_text(t.height as nat),
    ) + empty_line(d + 1, "CImageResource"@, ref_attrs("cachedAtlasImage"@, page.image_resource)) + text_line(
        d + 1,
        "b"@,
        named("lockCachedAtlasImage"@),
        "false"@,
    ) + empty_line(d + 1, "CTextureAtlasGuid"@, ref_attrs("guid"@, atlas.0))
}

/// The rest of the texture atlas of a page, whose start is at depth `d`:
/// the page's model image and the cache of its image.
#[verifier::opaque]
pub open spec fn atlas_tail_xml(d: nat, page: PagePlan, atlas: (RefId, RefId), t: TextureView) -> Seq<u8> {
    start_line(d + 1, "carray_list"@, counted("modelImages"@, "1"@)) + atlas_entry_xml(d + 2, page, atlas.1) + end_line(
        d + 1,
        "carray_list"@,
    ) + manager_xml(d + 1, "cachedImageManager"@, page.image_resource, t) + end_line(d, "CTextureAtlas"@)
}

/// The texture atlas of page `index` at depth `d`, with its identifier
/// `uuid`.
pub open spec fn atlas_xml(d: nat, page: PagePlan, atlas: (RefId, RefId), t: TextureView, index: nat, uuid: Seq<char>) -> Seq<u8> {
    atlas_head_xml(d, page, atlas, t, index, uuid) + atlas_tail_xml(d, page, atlas, t)
}

/// Writes the start of the texture atlas of a page.
#[verifier::spinoff_prover]
#[verifier::rlimit(60)]
fn write_atlas_head(xml: &mut XmlWriter, page: &PagePlan, atlas: (RefId, RefId), texture: &Texture, index: usize, uuid: &str)
    requires
        old(xml)@.depth + 8 < usize::MAX,
        index < usize::MAX,
    ensures
        final(xml)@ == (XmlWriterView {
            output: old(xml)@.output + atlas_head_xml(old(xml)@.depth, *page, atlas, texture@, index as nat, uuid@),
            depth: old(xml)@.depth + 1,
        }),
{
    let ghost d = xml@.depth;
    let ghost start = xml@.output;
    let number = number_text((index + 1) as u64);
    empty_shared(xml, "CTextureAtlasGuid", atlas.0, noted(uuid, String::from_str("Texture atlas ").concat(number.as_str())));
    start_shared(xml, "CTextureAtlas", atlas.1);
    xml.text("s", named_attrs("name").as_slice(), String::from_str("TextureAtlas").concat(number.as_str()).as_str());
    xml.text("i", named_attrs("width").as_slice(), number_text(texture.width() as u64).as_str());
    xml.text("i", named_attrs("height").as_slice(), number_text(texture.height() as u64).as_str());
    reference(xml, "CImageResource", "cachedAtlasImage", page.image_resource);
    xml.text("b", named_attrs("lockCachedAtlasImage").as_slice(), "false");
    reference(xml, "CTextureAtlasGuid", "guid", atlas.0);
    reveal(atlas_head_xml);
    assert(xml@.output =~= start + atlas_head_xml(d, *page, atlas, texture@, index as nat, uuid@));
}

/// Writes the rest of the texture atlas of a page and closes it.
#[verifier::spinoff_prover]
#[verifier::rlimit(60)]
fn write_atlas_tail(xml: &mut XmlWriter, page: &PagePlan, atlas: (RefId, RefId), texture: &Texture)
    requires
        old(xml)@.depth > 0,
        old(xml)@.depth + 8 < usize::MAX,
    ensures
        final(xml)@ == (XmlWriterView {
            output: old(xml)@.output + atlas_tail_xml((old(xml)@.depth - 1) as nat, *page, atlas, texture@),
            depth: (old(xml)@.depth - 1) as nat,
        }),
{
    let ghost d = (xml@.depth - 1) as nat;
    let ghost start = xml@.output;
    xml.start("carray_list", counted_attrs("modelImages", String::from_str("1")).as_slice());
    write_atlas_entry(xml, page, atlas.1);
    xml.end("carray_list");
    write_manager(xml, "cachedImageManager", page.image_resource, texture);
    xml.end("CTextureAtlas");
    reveal(atlas_tail_xml);
    assert(xml@.output =~= start + atlas_tail_xml(d, *page, atlas, texture@));
}

/// Writes the texture atlas of a page.
fn write_atlas(xml: &mut XmlWriter, page: &PagePlan, atlas: (RefId, RefId), texture: &Texture, index: usize, uuid: &str)
    requires
        old(xml)@.depth + 9 < usize::MAX,
        index < usize::MAX,
    ensures
        final(xml)@ == (XmlWriterView {
            output: old(xml)@.output + atlas_xml(old(xml)@.depth, *page, atlas, texture@, index as nat, uuid@),
            depth: old(xml)@.depth,
        }),
{
    let ghost start = xml@.output;
    let ghost d = xml@.depth;
    write_atlas_head(xml, page, atlas, texture, index, uuid);
    write_atlas_tail(xml, page, atlas, texture);
    assert(xml@.output =~= start + atlas_xml(d, *page, atlas, texture@, index as nat, uuid@));
}

/// Page `index` at depth `d`: its identifiers, image resource, texture
/// atlas, layer, filters and texture.
pub open spec fn page_xml(
    d: nat,
    plan: ProjectPlan,
    page: PagePlan,
    atlas: (RefId, RefId),
    t: TextureView,
    index: nat,
    u: PageUuids,
) -> Seq<u8> {
    page_guids_xml(d, page, index, u.model_image@, u.texture@) + image_resource_xml(d, page, t, index) + atlas_xml(
        d,
        page,
        atlas,
        t,
        index,
        u.atlas@,
    ) + layer_xml(d, plan, page, t, index, u.layer@) + filter_page_xml(d, plan, page, index) + texture_xml(d, page, index)
}

/// Writes page `index` with the identifiers `u`.
pub fn write_page(
    xml: &mut XmlWriter,
    plan: &ProjectPlan,
    page: &PagePlan,
    atlas: (RefId, RefId),
    texture: &Texture,
    index: usize,
    u: &PageUuids,
)
    requires
        old(xml)@.depth + 9 < usize::MAX,
        index < usize::MAX,
    ensures
        final(xml)@ == (XmlWriterView {
            output: old(xml)@.output + page_xml(old(xml)@.depth, *plan, *page, atlas, texture@, index as nat, *u),
            depth: old(xml)@.depth,
        }),
{
    let ghost start = xml@.output;
    let ghost d = xml@.depth;
    write_page_guids(xml, page, index, u.model_image.as_str(), u.texture.as_str());
    write_image_resource(xml, page, texture, index);
    write_atlas(xml, page, atlas, texture, index, u.atlas.as_str());
    write_layer_with(xml, plan, page, texture, index, u.layer.as_str());
    write_filter_page(xml, plan, page, index);
    write_texture(xml, page, index);
    assert(xml@.output =~= start + page_xml(d, *plan, *page, atlas, texture@, index as nat, *u));
}

/// The identifiers drawn for the texture objects: of the selector and
/// layer filter definitions, the layered image, each page and the layer
/// group.
pub struct TextureUuids {
    pub selector: String,
    pub layer_filter: String,
    pub layered_image: String,
    pub pages: Vec<PageUuids>,
    pub layer_group: String,
}

/// The first `n` pages.
pub open spec fn pages_xml(
    d: nat,
    plan: ProjectPlan,
    atlas: AtlasPlan,
    textures: Seq<TextureView>,
    uuids: Seq<PageUuids>,
    n: int,
) -> Seq<u8>
    decreases n,
{
    if n <= 0 {
        Seq::empty()
    } else {
        pages_xml(d, plan, atlas, textures, uuids, n - 1) + page_xml(
            d,
            plan,
            plan.pages@[n - 1],
            atlas.pages@[n - 1],
            textures[n - 1],
            (n - 1) as nat,
            uuids[n - 1],
        )
    }
}

/// The texture objects of the document at depth `d`: the filter
/// definitions, the layered image's identifier, each page, the layer group,
/// the layered image of `width` by `height` and the model image group.
pub open spec fn texture_shared_xml(
    d: nat,
    plan: ProjectPlan,
    atlas: AtlasPlan,
    textures: Seq<TextureView>,
    u: TextureUuids,
    width: Seq<char>,
    height: Seq<char>,
) -> Seq<u8> {
    filter_globals_xml(d, plan.filters, u.selector@, u.layer_filter@) + empty_line(
        d,
        "CLayeredImageGuid"@,
        seq![("uuid"@, u.layered_image@), ("note"@, "moc2cmo source layers"@)] + shared_attrs(plan.layered_image_guid),
    ) + pages_xml(d, plan, atlas, textures, u.pages@, textures.len() as int) + layer_group_xml(d, plan, u.layer_group@)
        + layered_image_xml(d, plan, width, height, textures.len()) + model_image_group_xml(d, plan, textures)
}

/// Writes the texture objects of the document; `textures` are the pages,
/// one per planned page.
pub fn write_texture_shared(
    xml: &mut XmlWriter,
    plan: &ProjectPlan,
    atlas: &AtlasPlan,
    textures: &[Texture],
    u: &TextureUuids,
    width: &str,
    height: &str,
)
    requires
        old(xml)@.depth + 17 < usize::MAX,
        textures@.len() == plan.pages@.len(),
        atlas.pages@.len() == plan.pages@.len(),
        u.pages@.len() == plan.pages@.len(),
        textures@.len() < usize::MAX,
    ensures
        final(xml)@ == (XmlWriterView {
            output: old(xml)@.output + texture_shared_xml(
                old(xml)@.depth,
                *plan,
                *atlas,
                textures@.map_values(|t: Texture| t@),
                *u,
                width@,
                height@,
            ),
            depth: old(xml)@.depth,
        }),
{
    let ghost d = xml@.depth;
    let ghost start = xml@.output;
    let ghost tv = textures@.map_values(|t: Texture| t@);
    write_globals(xml, &plan.filters, u.selector.as_str(), u.layer_filter.as_str());
    let mut note: Vec<Attr> = Vec::new();
    note.push(attr("uuid", u.layered_image.clone()));
    note.push(attr("note", String::from_str("moc2cmo source layers")));
    assert(attr_views(note@) =~= seq![("uuid"@, u.layered_image@), ("note"@, "moc2cmo source layers"@)]);
    empty_shared(xml, "CLayeredImageGuid", plan.layered_image_guid, note);
    let ghost pages_start = xml@.output;
    let mut i: usize = 0;
    while i < textures.len()
        invariant
            i <= textures@.len(),
            textures@.len() == plan.pages@.len(),
            atlas.pages@.len() == plan.pages@.len(),
            u.pages@.len() == plan.pages@.len(),
            textures@.len() < usize::MAX,
            tv == textures@.map_values(|t: Texture| t@),
            d + 17 < usize::MAX,
            xml@.depth == d,
            xml@.output == pages_start + pages_xml(d, *plan, *atlas, tv, u.pages@, i as int),
        decreases textures@.len() - i,
    {
        write_page(xml, plan, &plan.pages[i], atlas.pages[i], &textures[i], i, &u.pages[i]);
        i = i + 1;
    }
    write_layer_group_with(xml, plan, u.layer_group.as_str());
    write_layered_image(xml, plan, width, height, textures.len());
    write_model_image_group(xml, plan, textures);
    assert(xml@.output =~= start + texture_shared_xml(d, *plan, *atlas, tv, *u, width@, height@));
}

} // verus!
