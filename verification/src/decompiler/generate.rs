//! The editor document of a decompiled model: its declarations, its shared
//! objects (identifiers, parts, deformers, meshes, glues and the texture
//! objects) and its model source.

use vstd::prelude::*;

use super::deformers::{deformer_count, deformer_texts_fit, deformers_list_xml, deformers_ok, write_deformers, RotationFormTexts, WarpFormTexts};
use super::document::{main_xml, value_text_views, write_main, DocumentTexts};
use super::glues::{glue_count, glues_list_xml, glues_ok, pair_count, weight_views, write_glues};
use super::grid::{grid_bindings, text_views, texts_fit};
use super::identifiers::{draw_identifiers, identifiers_drawn, identifiers_fit, identifiers_xml, write_identifiers_with, Identifiers};
use super::images::{random_uuid, uuid_text};
use super::meshes::{mesh_edges, mesh_count, mesh_key_views, mesh_texts_fit, meshes_list_xml, meshes_ok, write_meshes, MeshTexts};
use super::pages::{atlas_matches, atlas_plan, texture_shared_xml, write_texture_shared, AtlasPlan, PageUuids, TextureUuids};
use super::parts::{parts_ok, parts_xml, write_parts};
use super::plan::{plan_len, plan_matches, ProjectPlan};
use super::texture::{texture_views, Texture, TextureView};
use super::xml::{attr, attr_views, end_line, start_line, utf8, Attr, XmlWriter, XmlWriterView};
use crate::error::{cmo3_error, Error};
use crate::moc3::{Moc3Model, Moc3ModelView};

verus! {

/// The texts of the floating-point values of a model's document: its
/// canvas and parameters, and per part, deformer, mesh and glue the texts
/// its writer takes.
pub struct ModelTexts {
    pub document: DocumentTexts,
    pub part_keys: Vec<Vec<Vec<String>>>,
    pub part_orders: Vec<Vec<String>>,
    pub deformer_keys: Vec<Vec<Vec<String>>>,
    pub warps: Vec<Vec<WarpFormTexts>>,
    pub rotations: Vec<Vec<RotationFormTexts>>,
    pub base_angles: Vec<String>,
    pub mesh_keys: Vec<Vec<Vec<String>>>,
    pub meshes: Vec<MeshTexts>,
    pub glue_keys: Vec<Vec<Vec<String>>>,
    pub glue_weights: Vec<(Vec<String>, Vec<String>)>,
    pub glue_intensities: Vec<Vec<String>>,
}

/// The editor's fixed declarations and identifiers: the version of each
/// serialized class, the imported packages, and the identifiers of the
/// root parameter group and the root deformer.
pub struct DocumentHeader {
    pub versions: Vec<(String, String)>,
    pub imports: Vec<String>,
    pub group_uuid: String,
    pub deformer_uuid: String,
}

/// The random identifiers of a document.
pub struct DocumentUuids {
    pub ids: Identifiers,
    pub textures: TextureUuids,
}

/// Whether the part texts cover the model's parts.
pub open spec fn part_texts_fit(m: Moc3ModelView, t: ModelTexts) -> bool {
    &&& t.part_keys@.len() == m.parts.len()
    &&& t.part_orders@.len() == m.parts.len()
    &&& forall|i: int|
        0 <= i < m.parts.len() ==> (grid_bindings(m.binding_bands, (#[trigger] m.parts[i]).binding_band_index) matches Some(
            b,
        ) ==> texts_fit(b, text_views(t.part_keys@[i]@)))
}

/// Whether the deformer texts cover the model's deformers.
pub open spec fn deformer_texts_all_fit(m: Moc3ModelView, plan: ProjectPlan, t: ModelTexts) -> bool {
    &&& t.deformer_keys@.len() == m.deformers.len()
    &&& t.warps@.len() == m.deformers.len()
    &&& t.rotations@.len() == m.deformers.len()
    &&& t.base_angles@.len() == m.deformers.len()
    &&& forall|i: int|
        0 <= i < deformer_count(m, plan) ==> #[trigger] deformer_texts_fit(
            m,
            plan,
            i,
            text_views(t.deformer_keys@[i]@),
            t.warps@[i]@,
            t.rotations@[i]@,
        )
}

/// Whether the glue texts cover the model's glues.
pub open spec fn glue_texts_fit(m: Moc3ModelView, t: ModelTexts) -> bool {
    &&& t.glue_keys@.len() == m.glues.len()
    &&& t.glue_weights@.len() == m.glues.len()
    &&& t.glue_intensities@.len() == m.glues.len()
    &&& forall|i: int|
        0 <= i < m.glues.len() ==> (#[trigger] t.glue_weights@[i]).0@.len() >= pair_count(m.glues[i])
            && t.glue_weights@[i].1@.len() >= pair_count(m.glues[i])
    &&& forall|i: int|
        0 <= i < m.glues.len() ==> (grid_bindings(m.binding_bands, (#[trigger] m.glues[i]).binding_band_index) matches Some(
            b,
        ) ==> texts_fit(b, text_views(t.glue_keys@[i]@)))
}

/// Whether the texts cover the model and its plan.
pub open spec fn model_texts_fit(m: Moc3ModelView, plan: ProjectPlan, t: ModelTexts) -> bool {
    &&& t.document.parameter_values@.len() == m.parameters.len()
    &&& part_texts_fit(m, t)
    &&& deformer_texts_all_fit(m, plan, t)
    &&& mesh_texts_fit(m, plan, mesh_key_views(t.mesh_keys@), t.meshes@)
    &&& glue_texts_fit(m, t)
}

/// Whether every object of the document can be written: every part,
/// deformer, mesh and glue has its grid, every mesh its page and every glue
/// its meshes.
pub open spec fn document_ok(m: Moc3ModelView, plan: ProjectPlan) -> bool {
    &&& parts_ok(m, plan)
    &&& deformers_ok(m, plan)
    &&& meshes_ok(m, plan)
    &&& glues_ok(m, plan)
}

/// The identifiers, parts and deformers of the document at depth `d`.
pub open spec fn rig_xml(d: nat, m: Moc3ModelView, plan: ProjectPlan, t: ModelTexts, h: DocumentHeader, ids: Identifiers) -> Seq<u8> {
    identifiers_xml(d, plan, m, h.group_uuid@, h.deformer_uuid@, ids) + parts_xml(
        d,
        m,
        plan,
        t.part_keys@.map_values(|v: Vec<Vec<String>>| text_views(v@)),
        t.part_orders@.map_values(|v: Vec<String>| v@.map_values(|s: String| s@)),
    ) + deformers_list_xml(
        d,
        m,
        plan,
        t.deformer_keys@.map_values(|v: Vec<Vec<String>>| text_views(v@)),
        t.warps@.map_values(|v: Vec<WarpFormTexts>| v@),
        t.rotations@.map_values(|v: Vec<RotationFormTexts>| v@),
        t.base_angles@.map_values(|s: String| s@),
        deformer_count(m, plan),
    )
}

/// The meshes and glues of the document at depth `d`, the meshes with the
/// edge lists `edges`.
pub open spec fn drawables_xml(d: nat, m: Moc3ModelView, plan: ProjectPlan, atlas: AtlasPlan, t: ModelTexts, edges: Seq<Seq<u16>>) -> Seq<u8> {
    meshes_list_xml(d, m, plan, atlas, mesh_key_views(t.mesh_keys@), t.meshes@, edges, mesh_count(m, plan)) + glues_list_xml(
        d,
        m,
        plan,
        t.glue_keys@.map_values(|v: Vec<Vec<String>>| text_views(v@)),
        weight_views(t.glue_weights@),
        t.glue_intensities@.map_values(|v: Vec<String>| v@.map_values(|s: String| s@)),
        glue_count(m, plan),
    )
}

/// The model objects of the document at depth `d`, the meshes with the
/// edge lists `edges`: identifiers, parts, deformers, meshes and glues.
pub open spec fn entities_xml(
    d: nat,
    m: Moc3ModelView,
    plan: ProjectPlan,
    atlas: AtlasPlan,
    t: ModelTexts,
    h: DocumentHeader,
    ids: Identifiers,
    edges: Seq<Seq<u16>>,
) -> Seq<u8> {
    rig_xml(d, m, plan, t, h, ids) + drawables_xml(d, m, plan, atlas, t, edges)
}

/// Whether `edges` holds the edge list of each written mesh.
pub open spec fn edges_fit(m: Moc3ModelView, plan: ProjectPlan, edges: Seq<Seq<u16>>) -> bool {
    &&& edges.len() == mesh_count(m, plan)
    &&& forall|i: int| 0 <= i < edges.len() ==> mesh_edges(m.art_meshes[i].triangle_indices, #[trigger] edges[i])
}

/// Writes the identifiers, parts and deformers of the document.
#[verifier::spinoff_prover]
fn write_rig(
    xml: &mut XmlWriter,
    plan: &ProjectPlan,
    model: &Moc3Model,
    t: &ModelTexts,
    h: &DocumentHeader,
    ids: &Identifiers,
) -> (res: Result<(), Error>)
    requires
        old(xml)@.depth + 17 < usize::MAX,
        identifiers_fit(*ids, *plan, model@),
        part_texts_fit(model@, *t),
        deformer_texts_all_fit(model@, *plan, *t),
    ensures
        parts_ok(model@, *plan) && deformers_ok(model@, *plan) ==> res is Ok && final(xml)@ == (XmlWriterView {
            output: old(xml)@.output + rig_xml(old(xml)@.depth, model@, *plan, *t, *h, *ids),
            depth: old(xml)@.depth,
        }),
        !(parts_ok(model@, *plan) && deformers_ok(model@, *plan)) ==> cmo3_error(res),
{
    let ghost start = xml@.output;
    let ghost d = xml@.depth;
    write_identifiers_with(xml, plan, model, h.group_uuid.as_str(), h.deformer_uuid.as_str(), ids);
    let parts = write_parts(xml, plan, model, &t.part_keys, &t.part_orders);
    if parts.is_err() {
        return parts;
    }
    let deformers = write_deformers(xml, plan, model, &t.deformer_keys, &t.warps, &t.rotations, &t.base_angles);
    if deformers.is_err() {
        return deformers;
    }
    assert(xml@.output =~= start + rig_xml(d, model@, *plan, *t, *h, *ids));
    Ok(())
}

/// Writes the meshes and glues of the document.
#[verifier::spinoff_prover]
fn write_drawables(xml: &mut XmlWriter, plan: &ProjectPlan, atlas: &AtlasPlan, model: &Moc3Model, t: &ModelTexts) -> (res: Result<
    (),
    Error,
>)
    requires
        old(xml)@.depth + 17 < usize::MAX,
        mesh_texts_fit(model@, *plan, mesh_key_views(t.mesh_keys@), t.meshes@),
        glue_texts_fit(model@, *t),
        atlas.pages@.len() == plan.pages@.len(),
        atlas.inputs@.len() >= model@.art_meshes.len(),
    ensures
        meshes_ok(model@, *plan) && glues_ok(model@, *plan) ==> res is Ok && exists|edges: Seq<Seq<u16>>|
            edges_fit(model@, *plan, edges) && final(xml)@ == (XmlWriterView {
                output: old(xml)@.output + drawables_xml(old(xml)@.depth, model@, *plan, *atlas, *t, edges),
                depth: old(xml)@.depth,
            }),
        !(meshes_ok(model@, *plan) && glues_ok(model@, *plan)) ==> cmo3_error(res),
{
    let ghost start = xml@.output;
    let ghost d = xml@.depth;
    let meshes = write_meshes(xml, plan, atlas, model, &t.mesh_keys, &t.meshes);
    if meshes.is_err() {
        return meshes;
    }
    let ghost edges = choose|edges: Seq<Seq<u16>>|
        edges.len() == mesh_count(model@, *plan) && (forall|i: int|
            0 <= i < edges.len() ==> mesh_edges(model@.art_meshes[i].triangle_indices, #[trigger] edges[i]))
            && xml@.output == start + meshes_list_xml(
            d,
            model@,
            *plan,
            *atlas,
            mesh_key_views(t.mesh_keys@),
            t.meshes@,
            edges,
            mesh_count(model@, *plan),
        );
    let glues = write_glues(xml, plan, model, &t.glue_keys, &t.glue_weights, &t.glue_intensities);
    if glues.is_err() {
        return glues;
    }
    assert(edges_fit(model@, *plan, edges));
    assert(xml@.output =~= start + drawables_xml(d, model@, *plan, *atlas, *t, edges));
    Ok(())
}

/// A declaration line of the document: `<?` and the text, then a newline.
pub open spec fn declaration_bytes(kind: Seq<char>, text: Seq<char>) -> Seq<u8> {
    utf8("<?"@ + kind + " "@ + text + "?>"@) + seq![10u8]
}

/// The version declarations of the first `n` classes.
pub open spec fn version_lines(versions: Seq<(String, String)>, n: int) -> Seq<u8>
    decreases n,
{
    if n <= 0 {
        Seq::empty()
    } else {
        version_lines(versions, n - 1) + declaration_bytes("version"@, versions[n - 1].0@ + ":"@ + versions[n - 1].1@)
    }
}

/// The import declarations of the first `n` packages.
pub open spec fn import_lines(imports: Seq<String>, n: int) -> Seq<u8>
    decreases n,
{
    if n <= 0 {
        Seq::empty()
    } else {
        import_lines(imports, n - 1) + declaration_bytes("import"@, imports[n - 1]@)
    }
}

/// The declarations of the document: XML, then the versions and imports.
pub open spec fn declarations_bytes(h: DocumentHeader) -> Seq<u8> {
    utf8("<?xml version=\"1.0\" encoding=\"UTF-8\"?>"@) + seq![10u8] + version_lines(h.versions@, h.versions@.len() as int)
        + import_lines(h.imports@, h.imports@.len() as int)
}

/// Writes the declarations of the document.
fn write_declarations(xml: &mut XmlWriter, h: &DocumentHeader)
    ensures
        final(xml)@ == (XmlWriterView { output: old(xml)@.output + declarations_bytes(*h), depth: old(xml)@.depth }),
{
    let ghost start = xml@.output;
    xml.declaration("<?xml version=\"1.0\" encoding=\"UTF-8\"?>");
    let ghost versions_start = xml@.output;
    let mut i: usize = 0;
    while i < h.versions.len()
        invariant
            i <= h.versions@.len(),
            xml@.depth == old(xml)@.depth,
            xml@.output == versions_start + version_lines(h.versions@, i as int),
        decreases h.versions@.len() - i,
    {
        let line = String::from_str("<?version ").concat(h.versions[i].0.as_str()).concat(":").concat(
            h.versions[i].1.as_str(),
        ).concat("?>");
        xml.declaration(line.as_str());
        assert(line@ =~= "<?"@ + "version"@ + " "@ + (h.versions@[i as int].0@ + ":"@ + h.versions@[i as int].1@) + "?>"@) by {
            reveal_strlit("<?version ");
            reveal_strlit("<?");
            reveal_strlit("version");
            reveal_strlit(" ");
        }
        i = i + 1;
    }
    let ghost imports_start = xml@.output;
    let mut k: usize = 0;
    while k < h.imports.len()
        invariant
            k <= h.imports@.len(),
            xml@.depth == old(xml)@.depth,
            xml@.output == imports_start + import_lines(h.imports@, k as int),
        decreases h.imports@.len() - k,
    {
        let line = String::from_str("<?import ").concat(h.imports[k].as_str()).concat("?>");
        xml.declaration(line.as_str());
        assert(line@ =~= "<?"@ + "import"@ + " "@ + h.imports@[k as int]@ + "?>"@) by {
            reveal_strlit("<?import ");
            reveal_strlit("<?");
            reveal_strlit("import");
            reveal_strlit(" ");
        }
        k = k + 1;
    }
    assert(xml@.output =~= start + declarations_bytes(*h));
}

/// The document of model `m` named `name`, with the plan and atlas plan,
/// the pages `textures`, the texts `t`, the fixed declarations and
/// identifiers `h`, the drawn identifiers `u` and the meshes' edge lists
/// `edges`: its declarations, then under its root the shared objects (the
/// model objects, then the texture objects) and the model source.
pub open spec fn document_bytes(
    m: Moc3ModelView,
    plan: ProjectPlan,
    atlas: AtlasPlan,
    name: Seq<char>,
    textures: Seq<TextureView>,
    t: ModelTexts,
    h: DocumentHeader,
    u: DocumentUuids,
    edges: Seq<Seq<u16>>,
) -> Seq<u8> {
    declarations_bytes(h) + start_line(0, "root"@, seq![("fileFormatVersion"@, "402030000"@)]) + start_line(
        1,
        "shared"@,
        Seq::empty(),
    ) + entities_xml(2, m, plan, atlas, t, h, u.ids, edges) + texture_shared_xml(
        2,
        plan,
        atlas,
        textures,
        u.textures,
        t.document.width@,
        t.document.height@,
    ) + end_line(1, "shared"@) + start_line(1, "main"@, Seq::empty()) + main_xml(
        2,
        plan,
        m,
        name,
        t.document.width@,
        t.document.height@,
        value_text_views(t.document.parameter_values@),
        t.document.pixels_per_unit@,
        t.document.origin_x@,
        t.document.origin_y@,
    ) + end_line(1, "main"@) + end_line(0, "root"@)
}

/// Writes the document of a model with the drawn identifiers `u`. Fails
/// when a part, deformer, mesh or glue cannot be written.
#[verifier::spinoff_prover]
#[verifier::rlimit(60)]
pub fn generate_document_with(
    model: &Moc3Model,
    plan: &ProjectPlan,
    atlas: &AtlasPlan,
    name: &str,
    pages: &Vec<Texture>,
    t: &ModelTexts,
    h: &DocumentHeader,
    u: &DocumentUuids,
) -> (res: Result<Vec<u8>, Error>)
    requires
        model_texts_fit(model@, *plan, *t),
        identifiers_fit(u.ids, *plan, model@),
        u.textures.pages@.len() == plan.pages@.len(),
        pages@.len() == plan.pages@.len(),
        pages@.len() < usize::MAX,
        plan.parts@.len() < usize::MAX,
        atlas.pages@.len() == plan.pages@.len(),
        atlas.inputs@.len() >= model@.art_meshes.len(),
    ensures
        document_ok(model@, *plan) ==> res is Ok && exists|edges: Seq<Seq<u16>>|
            edges_fit(model@, *plan, edges) && res->Ok_0@ == document_bytes(
                model@,
                *plan,
                *atlas,
                name@,
                texture_views(pages@),
                *t,
                *h,
                *u,
                edges,
            ),
        !document_ok(model@, *plan) ==> cmo3_error(res),
{
    let mut xml = XmlWriter::new();
    write_declarations(&mut xml, h);
    let mut root: Vec<Attr> = Vec::new();
    root.push(attr("fileFormatVersion", String::from_str("402030000")));
    assert(attr_views(root@) =~= seq![("fileFormatVersion"@, "402030000"@)]);
    xml.start("root", root.as_slice());
    let none: Vec<Attr> = Vec::new();
    assert(attr_views(none@) =~= Seq::empty());
    xml.start("shared", none.as_slice());
    let ghost before = xml@.output;
    let rig = write_rig(&mut xml, plan, model, t, h, &u.ids);
    if rig.is_err() {
        return Err(rig.unwrap_err());
    }
    let ghost after_rig = xml@.output;
    let drawables = write_drawables(&mut xml, plan, atlas, model, t);
    if drawables.is_err() {
        return Err(drawables.unwrap_err());
    }
    let ghost edges = choose|edges: Seq<Seq<u16>>|
        edges_fit(model@, *plan, edges) && xml@.output == after_rig + drawables_xml(2, model@, *plan, *atlas, *t, edges);
    write_texture_shared(
        &mut xml,
        plan,
        atlas,
        pages.as_slice(),
        &u.textures,
        t.document.width.as_str(),
        t.document.height.as_str(),
    );
    xml.end("shared");
    xml.start("main", none.as_slice());
    write_main(&mut xml, plan, model, name, &t.document);
    xml.end("main");
    xml.end("root");
    let bytes = xml.finish();
    assert(bytes@ =~= document_bytes(
        model@,
        *plan,
        *atlas,
        name@,
        texture_views(pages@),
        *t,
        *h,
        *u,
        edges,
    ));
    Ok(bytes)
}

/// Whether every identifier of the texture objects is in the hyphenated
/// form.
pub open spec fn texture_uuids_drawn(u: TextureUuids) -> bool {
    &&& uuid_text(u.selector@)
    &&& uuid_text(u.layer_filter@)
    &&& uuid_text(u.layered_image@)
    &&& uuid_text(u.layer_group@)
    &&& forall|i: int|
        0 <= i < u.pages@.len() ==> {
            let p = #[trigger] u.pages@[i];
            uuid_text(p.model_image@) && uuid_text(p.texture@) && uuid_text(p.atlas@) && uuid_text(p.layer@)
        }
}

/// Whether `u` holds identifiers drawn for the document of `m` with the
/// plan `plan`.
pub open spec fn document_uuids_drawn(u: DocumentUuids, plan: ProjectPlan, m: Moc3ModelView) -> bool {
    &&& identifiers_drawn(u.ids)
    &&& identifiers_fit(u.ids, plan, m)
    &&& texture_uuids_drawn(u.textures)
    &&& u.textures.pages@.len() == plan.pages@.len()
}

/// Whether `v` is the document of `m` named `name` with the plan `plan`,
/// the pages `textures`, the texts `t` and the fixed declarations `h`, for
/// some identifiers drawn in the hyphenated form and the atlas references
/// numbered after those of the plan.
pub open spec fn generated_document(
    m: Moc3ModelView,
    plan: ProjectPlan,
    name: Seq<char>,
    textures: Seq<TextureView>,
    t: ModelTexts,
    h: DocumentHeader,
    v: Seq<u8>,
) -> bool {
    exists|u: DocumentUuids, atlas: AtlasPlan, edges: Seq<Seq<u16>>|
        #![trigger document_uuids_drawn(u, plan, m), atlas_matches(atlas, plan_len(m, textures.len()), textures.len(), m.art_meshes.len()), edges_fit(m, plan, edges)]
        document_uuids_drawn(u, plan, m) && atlas_matches(atlas, plan_len(m, textures.len()), textures.len(), m.art_meshes.len())
            && edges_fit(m, plan, edges) && v == document_bytes(m, plan, atlas, name, textures, t, h, u, edges)
}

/// Draws the identifiers of the texture objects of `pages` pages: the
/// selector, the layer filter and the layered image, four per page, then
/// the layer group.
fn draw_texture_uuids(pages: usize) -> (res: TextureUuids)
    ensures
        texture_uuids_drawn(res),
        res.pages@.len() == pages,
{
    let selector = random_uuid();
    let layer_filter = random_uuid();
    let layered_image = random_uuid();
    let mut page_uuids: Vec<PageUuids> = Vec::new();
    let mut i: usize = 0;
    while i < pages
        invariant
            i <= pages,
            page_uuids@.len() == i,
            forall|k: int|
                0 <= k < i ==> {
                    let p = #[trigger] page_uuids@[k];
                    uuid_text(p.model_image@) && uuid_text(p.texture@) && uuid_text(p.atlas@) && uuid_text(
                        p.layer@,
                    )
                },
        decreases pages - i,
    {
        let model_image = random_uuid();
        let texture = random_uuid();
        let atlas = random_uuid();
        let layer = random_uuid();
        page_uuids.push(PageUuids { model_image, texture, atlas, layer });
        i = i + 1;
    }
    let layer_group = random_uuid();
    TextureUuids { selector, layer_filter, layered_image, pages: page_uuids, layer_group }
}

/// Writes the document of `model` named `name`, planned by `plan`, with
/// the atlas pages `pages`, the texts `t` and the fixed declarations and
/// identifiers `h`; the identifiers of its objects are drawn at random,
/// and the atlas references are numbered after those of the plan.
///
/// Succeeds exactly when every part, deformer, mesh and glue can be
/// written; the document is then the one of [`document_bytes`] for some
/// drawn identifiers.
pub fn generate_document(
    model: &Moc3Model,
    plan: &ProjectPlan,
    name: &str,
    pages: &Vec<Texture>,
    t: &ModelTexts,
    h: &DocumentHeader,
) -> (res: Result<Vec<u8>, Error>)
    requires
        plan_matches(*plan, model@, pages@.len() as nat),
        plan_len(model@, pages@.len() as nat) + 2 * pages@.len() + model@.art_meshes.len() <= u32::MAX,
        model@.parts.len() < usize::MAX,
        model_texts_fit(model@, *plan, *t),
    ensures
        res is Ok <==> document_ok(model@, *plan),
        !document_ok(model@, *plan) ==> cmo3_error(res),
        res matches Ok(v) ==> generated_document(model@, *plan, name@, texture_views(pages@), *t, *h, v@),
{
    let ids = draw_identifiers(plan, model);
    let textures = draw_texture_uuids(pages.len());
    let u = DocumentUuids { ids, textures };
    let atlas = atlas_plan(plan, model, pages.len());
    let res = generate_document_with(model, plan, &atlas, name, pages, t, h, &u);
    proof {
        if res is Ok {
            let edges = choose|edges: Seq<Seq<u16>>|
                edges_fit(model@, *plan, edges) && res->Ok_0@ == document_bytes(
                    model@,
                    *plan,
                    atlas,
                    name@,
                    texture_views(pages@),
                    *t,
                    *h,
                    u,
                    edges,
                );
            assert(document_uuids_drawn(u, *plan, model@));
            assert(res->Ok_0@ == document_bytes(model@, *plan, atlas, name@, texture_views(pages@), *t, *h, u, edges));
        }
    }
    res
}

} // verus!
