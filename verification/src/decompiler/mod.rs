//! Turning a parsed MOC3 model into a CMO3 project.
//!
//! The library keeps the decompiler's options, completes the atlas pages,
//! plans the reference identifiers of the editor document and writes its
//! objects; where an object holds a floating-point value, the writer takes
//! the value's text as formatted by the application around it.

use vstd::prelude::*;

use crate::caff::{archive_bytes, stored_of};
use crate::cmo3::{inserted, project_encodable, project_entries, Cmo3Project, Cmo3View};
use crate::error::{cmo3_error, Error};
use crate::moc3::{Moc3Model, Moc3ModelView};
use generate::{document_ok, generate_document, generated_document, model_texts_fit, DocumentHeader, ModelTexts};
use crate::text::{ascii_chars, ascii_string, decimal, decimal_bytes};

pub mod deformers;
pub mod document;
pub mod filters;
mod grid;
pub mod generate;
pub mod glues;
pub mod identifiers;
pub mod meshes;
pub mod images;
pub mod pages;
pub mod parts;
mod plan;
pub mod sources;
mod structure;
mod texture;
mod xml;

pub use grid::{
    binding_source, binding_sources, grid_bindings, grid_ok, grid_shape_ok, grid_source, grid_written, grid_xml,
    lemma_planned_prefix, planned_prefix, key_on_parameter, keyform_on_grid,
    keyforms_on_grid, reference, reference_without_name, start_shared, text_views, texts_fit, write_grid,
};
pub use plan::{
    binding_count, grid_len, grid_plan, plan_fits, plan_len, plan_matches, Allocator, DeformerPlan, FilterGlobals, GluePlan, GridPlan,
    MeshPlan, PagePlan, ParameterPlan, PartPlan, ProjectPlan, RefId,
};
pub use xml::{
    attr, attr_bytes, attr_views, attrs_bytes, axis_len, empty_line, end_line, form_of_key, grid_access_key, grid_size, indent,
    key_at, lemma_access_key_round_trip, start_line, stride_at, text_line, Attr, XmlWriter, XmlWriterView,
};
pub use structure::{
    child_views, children_of, color_composition, composition_of, edge, part_children, root_children, root_children_of, edge_at, edge_pairs, edges_sorted, flags_ok, lemma_rotation_flags, triangle_edges, rotation_above, rotation_ancestor_flags, rotation_flag,
};
pub use texture::{
    complete_texture_set, completed_pages, ihdr, png_height, png_ok, png_signature, png_width, required_pages,
    texture_views, transparent_png, transparent_view, Texture, TextureView,
};

verus! {

/// The abstract contents of a [`Decompiler`].
pub struct DecompilerView {
    pub model_name: Seq<char>,
    pub textures: Seq<TextureView>,
    pub key: i32,
}

/// Converts MOC3 bytes into a CMO3 project.
#[derive(Debug, Clone)]
pub struct Decompiler {
    model_name: String,
    textures: Vec<Texture>,
    obfuscation_key: i32,
}

impl View for Decompiler {
    type V = DecompilerView;

    closed spec fn view(&self) -> DecompilerView {
        DecompilerView {
            model_name: self.model_name@,
            textures: texture_views(self.textures@),
            key: self.obfuscation_key,
        }
    }
}

/// The options of a new decompiler: the name `Decompiled Model`, no pages
/// and the key 42.
pub open spec fn default_decompiler() -> DecompilerView {
    DecompilerView { model_name: "Decompiled Model"@, textures: Seq::empty(), key: 42 }
}

impl Default for Decompiler {
    fn default() -> (res: Self)
        ensures
            res@ == default_decompiler(),
    {
        let res = Decompiler {
            model_name: String::from_str("Decompiled Model"),
            textures: Vec::new(),
            obfuscation_key: 42,
        };
        assert(texture_views(res.textures@) =~= Seq::empty());
        res
    }
}

/// The resource name of page `i`: `imageFileBuf_{i}.png`, as bytes.
pub open spec fn page_name_bytes(i: nat) -> Seq<u8> {
    seq![105u8, 109, 97, 103, 101, 70, 105, 108, 101, 66, 117, 102, 95] + decimal(i) + seq![46u8, 112, 110, 103]
}

/// The resources of a project after inserting the first `n` pages.
pub open spec fn page_resources(pages: Seq<TextureView>, n: nat) -> Seq<(Seq<char>, Seq<u8>)>
    decreases n,
{
    if n == 0 {
        Seq::empty()
    } else {
        let i = (n - 1) as nat;
        inserted(page_resources(pages, i), ascii_chars(page_name_bytes(i)), pages[i as int].png)
    }
}

/// The name of the resource that holds the model's runtime data.
pub open spec fn manifest_name() -> Seq<char> {
    "moc2cmo.model.json"@
}

/// The project assembled from a document, the completed pages and the
/// runtime data.
pub open spec fn assembled(main_xml: Seq<u8>, pages: Seq<TextureView>, manifest: Seq<u8>, key: i32) -> Cmo3View {
    Cmo3View {
        main_xml,
        resources: inserted(page_resources(pages, pages.len()), manifest_name(), manifest),
        key,
    }
}


/// Whether `p` is the project the decompiler `d` builds for model `m`
/// planned by `plan`, with the texts `t`, the fixed declarations `h` and
/// the runtime data `model_json`: the generated document, the completed
/// pages and the runtime data, under the decompiler's key.
pub open spec fn decompiled(
    d: DecompilerView,
    m: Moc3ModelView,
    plan: ProjectPlan,
    t: ModelTexts,
    h: DocumentHeader,
    model_json: Seq<u8>,
    p: Cmo3View,
) -> bool {
    let pages = completed_pages(d.textures, required_pages(m.art_meshes));
    exists|main: Seq<u8>|
        #[trigger] generated_document(m, plan, d.model_name, pages, t, h, main) && p == assembled(
            main,
            pages,
            model_json,
            d.key,
        )
}

/// Whether model `m` may be decompiled by `d` with the plan `plan` and the
/// texts `t`: its page indices fit in memory, the plan numbers the
/// document of the completed pages, the references fit in 32 bits and the
/// texts cover the model.
pub open spec fn decompilable(d: DecompilerView, m: Moc3ModelView, plan: ProjectPlan, t: ModelTexts) -> bool {
    let pages = completed_pages(d.textures, required_pages(m.art_meshes)).len();
    &&& forall|i: int| 0 <= i < m.art_meshes.len() ==> (#[trigger] m.art_meshes[i]).texture_index < usize::MAX
    &&& plan_matches(plan, m, pages)
    &&& plan_len(m, pages) + 2 * pages + m.art_meshes.len() <= u32::MAX
    &&& m.parts.len() < usize::MAX
    &&& model_texts_fit(m, plan, t)
}

/// Returns the resource name of page `index`.
pub(crate) fn page_name(index: usize) -> (res: String)
    ensures
        res@ == ascii_chars(page_name_bytes(index as nat)),
{
    let mut bytes: Vec<u8> = vstd::slice::slice_to_vec([105u8, 109, 97, 103, 101, 70, 105, 108, 101, 66, 117, 102, 95].as_slice());
    let digits = decimal_bytes(index as u64);
    let mut i: usize = 0;
    let ghost start = bytes@;
    while i < digits.len()
        invariant
            i <= digits@.len(),
            bytes@ == start + digits@.subrange(0, i as int),
        decreases digits@.len() - i,
    {
        bytes.push(digits[i]);
        i = i + 1;
        assert(bytes@ =~= start + digits@.subrange(0, i as int));
    }
    assert(digits@.subrange(0, digits@.len() as int) =~= digits@);
    bytes.push(46);
    bytes.push(112);
    bytes.push(110);
    bytes.push(103);
    assert(bytes@ =~= page_name_bytes(index as nat));
    proof {
        crate::text::lemma_decimal_ascii(index as nat);
        assert forall|k: int| 0 <= k < bytes@.len() implies #[trigger] bytes@[k] < 128 by {
            if 13 <= k < 13 + digits@.len() {
                assert(bytes@[k] == decimal(index as nat)[k - 13]);
            }
        }
    }
    ascii_string(bytes.as_slice())
}

impl Decompiler {
    /// Creates a decompiler with default options.
    pub fn new() -> (res: Self)
        ensures
            res@ == default_decompiler(),
    {
        Self::default()
    }

    /// Sets the display name stored in the generated project.
    pub fn set_model_name(&mut self, name: String)
        ensures
            final(self)@ == (DecompilerView { model_name: name@, ..old(self)@ }),
    {
        self.model_name = name;
    }

    /// Replaces the texture atlas pages in MOC3 texture-index order.
    ///
    /// Missing pages are replaced with a transparent placeholder. Extra pages
    /// are retained in the generated project.
    pub fn set_textures(&mut self, textures: Vec<Texture>)
        ensures
            final(self)@ == (DecompilerView { textures: texture_views(textures@), ..old(self)@ }),
    {
        self.textures = textures;
    }

    /// Adds one texture atlas page.
    pub fn push_texture(&mut self, texture: Texture)
        ensures
            final(self)@ == (DecompilerView { textures: old(self)@.textures.push(texture@), ..old(self)@ }),
    {
        self.textures.push(texture);
        assert(texture_views(self.textures@) =~= old(self)@.textures.push(texture@));
    }

    /// Sets the signed CAFF XOR key.
    pub fn set_obfuscation_key(&mut self, key: i32)
        ensures
            final(self)@ == (DecompilerView { key, ..old(self)@ }),
    {
        self.obfuscation_key = key;
    }

    /// Returns the display name stored in the generated project.
    pub fn model_name(&self) -> (res: &str)
        ensures
            res@ == self@.model_name,
    {
        self.model_name.as_str()
    }

    /// Returns the atlas pages of `model`: the supplied ones, completed with
    /// transparent placeholders up to the pages its ArtMeshes use.
    pub fn pages(&self, model: &Moc3Model) -> (res: Vec<Texture>)
        requires
            forall|i: int|
                0 <= i < model@.art_meshes.len() ==> (#[trigger] model@.art_meshes[i]).texture_index < usize::MAX,
        ensures
            texture_views(res@) == completed_pages(self@.textures, required_pages(model@.art_meshes)),
    {
        complete_texture_set(model, self.textures.as_slice())
    }

    /// Assembles the project of `model` from its editor document `main_xml`
    /// and its runtime data `manifest`: the pages, as
    /// `imageFileBuf_{index}.png`, then the runtime data, as
    /// `moc2cmo.model.json`, under the decompiler's key.
    pub fn assemble_project(&self, model: &Moc3Model, main_xml: Vec<u8>, manifest: Vec<u8>) -> (res: Cmo3Project)
        requires
            forall|i: int|
                0 <= i < model@.art_meshes.len() ==> (#[trigger] model@.art_meshes[i]).texture_index < usize::MAX,
        ensures
            res@ == assembled(
                main_xml@,
                completed_pages(self@.textures, required_pages(model@.art_meshes)),
                manifest@,
                self@.key,
            ),
    {
        let pages = self.pages(model);
        self.assemble(&pages, main_xml, manifest)
    }

    /// Assembles a project from its document, its pages and its runtime
    /// data, under the decompiler's key.
    fn assemble(&self, pages: &Vec<Texture>, main_xml: Vec<u8>, manifest: Vec<u8>) -> (res: Cmo3Project)
        ensures
            res@ == assembled(main_xml@, texture_views(pages@), manifest@, self@.key),
    {
        let ghost views = texture_views(pages@);
        let mut project = Cmo3Project::new(main_xml);
        project.set_obfuscation_key(self.obfuscation_key);
        let mut i: usize = 0;
        while i < pages.len()
            invariant
                i <= pages@.len(),
                views == texture_views(pages@),
                project@.main_xml == main_xml@,
                project@.key == self@.key,
                project@.resources == page_resources(views, i as nat),
            decreases pages@.len() - i,
        {
            let png = vstd::slice::slice_to_vec(pages[i].png());
            assert(views[i as int] == pages@[i as int]@);
            project.insert_resource(page_name(i), png);
            i = i + 1;
        }
        project.insert_resource(String::from_str("moc2cmo.model.json"), manifest);
        project
    }

    /// Builds the unencoded project of `model`, planned by `plan`: its
    /// readable editor document, named after the decompiler's model name
    /// and written with the texts `t` and the fixed declarations `h`; the
    /// completed atlas pages, as `imageFileBuf_{index}.png`; and the runtime
    /// data `model_json`, as `moc2cmo.model.json`; under the decompiler's
    /// key.
    ///
    /// Fails with [`Error::InvalidCmo3`] exactly when a part, deformer, mesh
    /// or glue of the model cannot be written.
    pub fn decompile_project(
        &self,
        model: &Moc3Model,
        plan: &ProjectPlan,
        model_json: Vec<u8>,
        t: &ModelTexts,
        h: &DocumentHeader,
    ) -> (res: Result<Cmo3Project, Error>)
        requires
            decompilable(self@, model@, *plan, *t),
        ensures
            res is Ok <==> document_ok(model@, *plan),
            !document_ok(model@, *plan) ==> cmo3_error(res),
            res matches Ok(p) ==> decompiled(self@, model@, *plan, *t, *h, model_json@, p@),
    {
        let pages = self.pages(model);
        let document = generate_document(model, plan, self.model_name.as_str(), &pages, t, h);
        match document {
            Ok(main_xml) => {
                let ghost main = main_xml@;
                let project = self.assemble(&pages, main_xml, model_json);
                assert(generated_document(
                    model@,
                    *plan,
                    self@.model_name,
                    completed_pages(self@.textures, required_pages(model@.art_meshes)),
                    *t,
                    *h,
                    main,
                ));
                Ok(project)
            },
            Err(e) => Err(e),
        }
    }

    /// Decompiles `model` into encoded `.cmo3` bytes: the project of
    /// [`Decompiler::decompile_project`], encoded.
    ///
    /// Fails with [`Error::InvalidCmo3`] when the document cannot be written
    /// or the project cannot be encoded.
    pub fn decompile(
        &self,
        model: &Moc3Model,
        plan: &ProjectPlan,
        model_json: Vec<u8>,
        t: &ModelTexts,
        h: &DocumentHeader,
    ) -> (res: Result<Vec<u8>, Error>)
        requires
            decompilable(self@, model@, *plan, *t),
        ensures
            !document_ok(model@, *plan) ==> cmo3_error(res),
            document_ok(model@, *plan) ==> exists|p: Cmo3View|
                #[trigger] decompiled(self@, model@, *plan, *t, *h, model_json@, p) && (project_encodable(p) ==> (res matches Ok(
                    v,
                ) && v@ == archive_bytes(stored_of(project_entries(p))->Some_0, p.key))) && (!project_encodable(p)
                    ==> cmo3_error(res)),
    {
        match self.decompile_project(model, plan, model_json, t, h) {
            Ok(project) => {
                let res = project.encode();
                assert(decompiled(self@, model@, *plan, *t, *h, model_json@, project@));
                res
            },
            Err(e) => Err(e),
        }
    }
}

/// Decompiles `model` with the default options into encoded `.cmo3`
/// bytes: every page a transparent placeholder.
pub fn decompile(
    model: &Moc3Model,
    plan: &ProjectPlan,
    model_json: Vec<u8>,
    t: &ModelTexts,
    h: &DocumentHeader,
) -> (res: Result<Vec<u8>, Error>)
    requires
        decompilable(default_decompiler(), model@, *plan, *t),
    ensures
        !document_ok(model@, *plan) ==> cmo3_error(res),
        document_ok(model@, *plan) ==> exists|p: Cmo3View|
            #[trigger] decompiled(default_decompiler(), model@, *plan, *t, *h, model_json@, p) && (project_encodable(p)
                ==> (res matches Ok(v) && v@ == archive_bytes(stored_of(project_entries(p))->Some_0, p.key)))
                && (!project_encodable(p) ==> cmo3_error(res)),
{
    Decompiler::new().decompile(model, plan, model_json, t, h)
}

} // verus!
