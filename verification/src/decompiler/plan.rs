//! The reference identifiers of the editor document, allocated in one pass
//! over the model.
//!
//! Every object of the document gets a number from one counter, in a fixed
//! order: the document-wide objects, the parameters, the atlas pages, the
//! root part, the parts, the deformers, the ArtMeshes, the glues and last
//! the image group. Each keyform grid takes one number for itself, one per
//! parameter binding of its band and one per keyform, at least one.

use vstd::prelude::*;

use crate::moc3::{
    band_views, deformer_views, glue_views, mesh_views, parameter_views, part_views, DeformerModel, Moc3Model, Moc3ModelView,
    ParameterBindingModel,
};
use crate::text::{ascii_chars, ascii_string, decimal, decimal_bytes};

verus! {

/// A numbered reference between objects of the editor document.
#[derive(Debug, Copy, Clone, PartialEq, Eq, Structural)]
pub struct RefId {
    /// The reference number.
    pub index: u32,
}

impl RefId {
    /// Returns the reference as written in the document: `#` and the number.
    pub fn value(self) -> (res: String)
        ensures
            res@ == ascii_chars(seq![35u8] + decimal(self.index as nat)),
    {
        let digits = decimal_bytes(self.index as u64);
        let mut bytes: Vec<u8> = Vec::new();
        bytes.push(35);
        let mut i: usize = 0;
        while i < digits.len()
            invariant
                i <= digits@.len(),
                bytes@ == seq![35u8] + digits@.subrange(0, i as int),
            decreases digits@.len() - i,
        {
            bytes.push(digits[i]);
            i = i + 1;
            assert(bytes@ =~= seq![35u8] + digits@.subrange(0, i as int));
        }
        assert(digits@.subrange(0, digits@.len() as int) =~= digits@);
        proof {
            crate::text::lemma_decimal_ascii(self.index as nat);
            assert forall|k: int| 0 <= k < bytes@.len() implies #[trigger] bytes@[k] < 128 by {
                if k > 0 {
                    assert(bytes@[k] == decimal(self.index as nat)[k - 1]);
                }
            }
        }
        ascii_string(bytes.as_slice())
    }

    /// Returns the reference number.
    pub fn index(self) -> (res: u32)
        ensures
            res == self.index,
    {
        self.index
    }
}


/// The counter that hands out reference numbers.
pub struct Allocator {
    /// The next number to hand out.
    pub next: u32,
}

impl Allocator {
    /// Hands out the next number.
    pub fn id(&mut self) -> (res: RefId)
        requires
            old(self).next < u32::MAX,
        ensures
            res.index == old(self).next,
            final(self).next == old(self).next + 1,
    {
        let id = RefId { index: self.next };
        self.next = self.next + 1;
        id
    }
}

/// The references of a keyform grid.
pub struct GridPlan {
    /// The grid itself.
    pub grid: RefId,
    /// One per parameter binding of the grid's band.
    pub bindings: Vec<RefId>,
    /// One per keyform, at least one.
    pub forms: Vec<RefId>,
}

/// How many numbers a grid with `b` bindings and `k` keyforms takes.
pub open spec fn grid_len(b: nat, k: nat) -> nat {
    1 + b + if k == 0 {
        1
    } else {
        k
    }
}

/// Whether `g` holds the numbers from `s` of a grid with `b` bindings and
/// `k` keyforms.
pub open spec fn grid_at(g: GridPlan, s: int, b: nat, k: nat) -> bool {
    let forms = if k == 0 {
        1
    } else {
        k
    };
    &&& g.grid.index == s
    &&& g.bindings@.len() == b
    &&& forall|j: int| 0 <= j < b ==> (#[trigger] g.bindings@[j]).index == s + 1 + j
    &&& g.forms@.len() == forms
    &&& forall|j: int| 0 <= j < forms ==> (#[trigger] g.forms@[j]).index == s + 1 + b + j
}

/// Allocates the numbers of a grid.
pub fn grid_plan(ids: &mut Allocator, binding_count: usize, keyform_count: usize) -> (res: GridPlan)
    requires
        old(ids).next + grid_len(binding_count as nat, keyform_count as nat) <= u32::MAX,
    ensures
        grid_at(res, old(ids).next as int, binding_count as nat, keyform_count as nat),
        final(ids).next == old(ids).next + grid_len(binding_count as nat, keyform_count as nat),
{
    let s = ids.next;
    let grid = ids.id();
    let mut bindings: Vec<RefId> = Vec::new();
    let mut i: usize = 0;
    while i < binding_count
        invariant
            i <= binding_count,
            ids.next == s + 1 + i,
            s + grid_len(binding_count as nat, keyform_count as nat) <= u32::MAX,
            bindings@.len() == i,
            forall|j: int| 0 <= j < i ==> (#[trigger] bindings@[j]).index == s + 1 + j,
        decreases binding_count - i,
    {
        bindings.push(ids.id());
        i = i + 1;
    }
    let forms_count: usize = if keyform_count == 0 {
        1
    } else {
        keyform_count
    };
    let mut forms: Vec<RefId> = Vec::new();
    let mut i: usize = 0;
    while i < forms_count
        invariant
            i <= forms_count,
            forms_count == (if keyform_count == 0 {
                1
            } else {
                keyform_count
            }),
            ids.next == s + 1 + binding_count + i,
            s + grid_len(binding_count as nat, keyform_count as nat) <= u32::MAX,
            forms@.len() == i,
            forall|j: int| 0 <= j < i ==> (#[trigger] forms@[j]).index == s + 1 + binding_count + j,
        decreases forms_count - i,
    {
        forms.push(ids.id());
        i = i + 1;
    }
    GridPlan { grid, bindings, forms }
}

/// The references of a parameter.
pub struct ParameterPlan {
    /// The parameter's identifier object.
    pub guid: RefId,
}

/// The references of an atlas page.
pub struct PagePlan {
    pub model_image_guid: RefId,
    pub texture_guid: RefId,
    pub image_resource: RefId,
    pub layer: RefId,
    pub filter_set: RefId,
    pub filter_instance_ids: [RefId; 2],
    pub filter_instances: [RefId; 2],
    pub filter_output: RefId,
    pub texture: RefId,
}

/// Whether `p` holds the eleven numbers from `s`.
pub open spec fn page_at(p: PagePlan, s: int) -> bool {
    &&& p.model_image_guid.index == s
    &&& p.texture_guid.index == s + 1
    &&& p.image_resource.index == s + 2
    &&& p.layer.index == s + 3
    &&& p.filter_set.index == s + 4
    &&& p.filter_instance_ids@[0].index == s + 5
    &&& p.filter_instance_ids@[1].index == s + 6
    &&& p.filter_instances@[0].index == s + 7
    &&& p.filter_instances@[1].index == s + 8
    &&& p.filter_output.index == s + 9
    &&& p.texture.index == s + 10
}

/// The references of a part.
pub struct PartPlan {
    pub guid: RefId,
    pub source: RefId,
    pub grid: GridPlan,
}

/// The references of a deformer.
pub struct DeformerPlan {
    pub guid: RefId,
    pub source: RefId,
    pub grid: GridPlan,
}

/// The references of an ArtMesh.
pub struct MeshPlan {
    pub guid: RefId,
    pub source: RefId,
    pub grid: GridPlan,
    pub editable_mesh_guid: RefId,
    pub editable_extension_guid: RefId,
    pub generator_extension_guid: RefId,
    pub texture_extension_guid: RefId,
    pub texture_extension: RefId,
    pub texture_input: RefId,
}

/// The references of a glue.
pub struct GluePlan {
    pub guid: RefId,
    pub source: RefId,
    pub grid: GridPlan,
}

/// The references shared by the filters of every page.
pub struct FilterGlobals {
    pub selector_definition: RefId,
    pub filter_definition: RefId,
    pub value_ids: [RefId; 8],
    pub values: [RefId; 9],
}

/// The references of the whole document.
pub struct ProjectPlan {
    pub parameter_group_guid: RefId,
    pub model_guid: RefId,
    pub root_deformer_guid: RefId,
    pub coord_type: RefId,
    pub blend_normal: RefId,
    pub layered_image_guid: RefId,
    pub layered_image: RefId,
    pub layer_group: RefId,
    pub filters: FilterGlobals,
    pub parameters: Vec<ParameterPlan>,
    pub pages: Vec<PagePlan>,
    pub root_part: PartPlan,
    pub parts: Vec<PartPlan>,
    pub deformers: Vec<DeformerPlan>,
    pub meshes: Vec<MeshPlan>,
    pub glues: Vec<GluePlan>,
    pub image_group: RefId,
}

/// How many bindings the band `band` has, none when it is absent or
/// missing.
pub open spec fn band_len(bands: Seq<Seq<ParameterBindingModel>>, band: Option<usize>) -> nat {
    match band {
        Some(i) => if i < bands.len() {
            bands[i as int].len()
        } else {
            0
        },
        None => 0,
    }
}

/// Returns how many bindings the band `band_index` of `model` has.
pub fn binding_count(model: &Moc3Model, band_index: Option<usize>) -> (res: usize)
    ensures
        res == band_len(model@.binding_bands, band_index),
{
    let bands = model.binding_bands();
    match band_index {
        Some(i) => if i < bands.len() {
            assert(band_views(bands@)[i as int] == bands@[i as int]@);
            bands[i].bindings().len()
        } else {
            0
        },
        None => 0,
    }
}

/// The keyform count of a deformer.
pub open spec fn deformer_keyforms(d: DeformerModel) -> nat {
    match d {
        DeformerModel::Warp(w) => w.keyforms.len(),
        DeformerModel::Rotation(r) => r.keyforms.len(),
    }
}

/// The sum of the first `n` sizes.
pub open spec fn prefix_sum(sizes: Seq<nat>, n: int) -> nat
    decreases n,
{
    if n <= 0 {
        0
    } else {
        prefix_sum(sizes, n - 1) + sizes[n - 1]
    }
}

/// How many numbers each part takes.
pub open spec fn part_sizes(m: Moc3ModelView) -> Seq<nat> {
    Seq::new(
        m.parts.len(),
        |i: int| 2 + grid_len(band_len(m.binding_bands, m.parts[i].binding_band_index), m.parts[i].keyforms.len()),
    )
}

/// How many numbers each deformer takes.
pub open spec fn deformer_sizes(m: Moc3ModelView) -> Seq<nat> {
    Seq::new(
        m.deformers.len(),
        |i: int|
            2 + grid_len(
                band_len(m.binding_bands, crate::moc3::deformer_band(m.deformers[i])),
                deformer_keyforms(m.deformers[i]),
            ),
    )
}

/// How many numbers each ArtMesh takes.
pub open spec fn mesh_sizes(m: Moc3ModelView) -> Seq<nat> {
    Seq::new(
        m.art_meshes.len(),
        |i: int|
            8 + grid_len(
                band_len(m.binding_bands, m.art_meshes[i].binding_band_index),
                m.art_meshes[i].keyforms.len(),
            ),
    )
}

/// How many numbers each glue takes.
pub open spec fn glue_sizes(m: Moc3ModelView) -> Seq<nat> {
    Seq::new(
        m.glues.len(),
        |i: int| 2 + grid_len(band_len(m.binding_bands, m.glues[i].binding_band_index), m.glues[i].intensities.len()),
    )
}

/// The first number of the pages.
pub open spec fn pages_base(m: Moc3ModelView) -> int {
    27 + m.parameters.len() as int
}

/// The first number of the parts.
pub open spec fn parts_base(m: Moc3ModelView, pages: nat) -> int {
    pages_base(m) + 11 * pages + 4
}

/// The first number of the deformers.
pub open spec fn deformers_base(m: Moc3ModelView, pages: nat) -> int {
    parts_base(m, pages) + prefix_sum(part_sizes(m), m.parts.len() as int)
}

/// The first number of the ArtMeshes.
pub open spec fn meshes_base(m: Moc3ModelView, pages: nat) -> int {
    deformers_base(m, pages) + prefix_sum(deformer_sizes(m), m.deformers.len() as int)
}

/// The first number of the glues.
pub open spec fn glues_base(m: Moc3ModelView, pages: nat) -> int {
    meshes_base(m, pages) + prefix_sum(mesh_sizes(m), m.art_meshes.len() as int)
}

/// How many numbers the document of `m` with `pages` atlas pages takes.
pub open spec fn plan_len(m: Moc3ModelView, pages: nat) -> int {
    glues_base(m, pages) + prefix_sum(glue_sizes(m), m.glues.len() as int) + 1
}

/// Whether the part plan holds its numbers from `s`.
pub open spec fn part_at(p: PartPlan, s: int, b: nat, k: nat) -> bool {
    p.guid.index == s && p.source.index == s + 1 && grid_at(p.grid, s + 2, b, k)
}

/// Whether `plan` holds the numbers that [`ProjectPlan::new`] allocates for
/// `m` with `pages` atlas pages.
pub open spec fn plan_matches(plan: ProjectPlan, m: Moc3ModelView, pages: nat) -> bool {
    let bands = m.binding_bands;
    &&& plan.parameter_group_guid.index == 0
    &&& plan.model_guid.index == 1
    &&& plan.root_deformer_guid.index == 2
    &&& plan.coord_type.index == 3
    &&& plan.blend_normal.index == 4
    &&& plan.layered_image_guid.index == 5
    &&& plan.layered_image.index == 6
    &&& plan.layer_group.index == 7
    &&& plan.filters.selector_definition.index == 8
    &&& plan.filters.filter_definition.index == 9
    &&& forall|j: int| 0 <= j < 8 ==> (#[trigger] plan.filters.value_ids@[j]).index == 10 + j
    &&& forall|j: int| 0 <= j < 9 ==> (#[trigger] plan.filters.values@[j]).index == 18 + j
    &&& plan.parameters@.len() == m.parameters.len()
    &&& forall|i: int| 0 <= i < m.parameters.len() ==> (#[trigger] plan.parameters@[i]).guid.index == 27 + i
    &&& plan.pages@.len() == pages
    &&& forall|i: int| 0 <= i < pages ==> page_at(#[trigger] plan.pages@[i], pages_base(m) + 11 * i)
    &&& part_at(plan.root_part, pages_base(m) + 11 * pages, 0, 1)
    &&& plan.parts@.len() == m.parts.len()
    &&& forall|i: int|
        0 <= i < m.parts.len() ==> part_at(
            #[trigger] plan.parts@[i],
            parts_base(m, pages) + prefix_sum(part_sizes(m), i),
            band_len(bands, m.parts[i].binding_band_index),
            m.parts[i].keyforms.len(),
        )
    &&& plan.deformers@.len() == m.deformers.len()
    &&& forall|i: int|
        0 <= i < m.deformers.len() ==> {
            let d = #[trigger] plan.deformers@[i];
            let s = deformers_base(m, pages) + prefix_sum(deformer_sizes(m), i);
            &&& d.guid.index == s
            &&& d.source.index == s + 1
            &&& grid_at(
                d.grid,
                s + 2,
                band_len(bands, crate::moc3::deformer_band(m.deformers[i])),
                deformer_keyforms(m.deformers[i]),
            )
        }
    &&& plan.meshes@.len() == m.art_meshes.len()
    &&& forall|i: int|
        0 <= i < m.art_meshes.len() ==> {
            let p = #[trigger] plan.meshes@[i];
            let s = meshes_base(m, pages) + prefix_sum(mesh_sizes(m), i);
            let b = band_len(bands, m.art_meshes[i].binding_band_index);
            let k = m.art_meshes[i].keyforms.len();
            let e = s + 2 + grid_len(b, k);
            &&& p.guid.index == s
            &&& p.source.index == s + 1
            &&& grid_at(p.grid, s + 2, b, k)
            &&& p.editable_mesh_guid.index == e
            &&& p.editable_extension_guid.index == e + 1
            &&& p.generator_extension_guid.index == e + 2
            &&& p.texture_extension_guid.index == e + 3
            &&& p.texture_extension.index == e + 4
            &&& p.texture_input.index == e + 5
        }
    &&& plan.glues@.len() == m.glues.len()
    &&& forall|i: int|
        0 <= i < m.glues.len() ==> {
            let g = #[trigger] plan.glues@[i];
            let s = glues_base(m, pages) + prefix_sum(glue_sizes(m), i);
            &&& g.guid.index == s
            &&& g.source.index == s + 1
            &&& grid_at(g.grid, s + 2, band_len(bands, m.glues[i].binding_band_index), m.glues[i].intensities.len())
        }
    &&& plan.image_group.index == plan_len(m, pages) - 1
}

/// Sizes are non-negative, so prefix sums grow.
proof fn lemma_prefix_grows(sizes: Seq<nat>, a: int, b: int)
    requires
        a <= b <= sizes.len(),
    ensures
        prefix_sum(sizes, a) <= prefix_sum(sizes, b),
    decreases b - a,
{
    if a < b {
        lemma_prefix_grows(sizes, a, b - 1);
    }
}

/// The numbers of a grid with `b` bindings and `k` keyforms.
fn grid_count(b: usize, k: usize) -> (res: u128)
    ensures
        res == grid_len(b as nat, k as nat),
{
    let forms: u128 = if k == 0 {
        1
    } else {
        k as u128
    };
    1 + b as u128 + forms
}

/// Whether the document of `model` with `pages` atlas pages numbers all
/// its references, the atlas references after those of the plan
/// included, within 32 bits.
pub fn plan_fits(model: &Moc3Model, pages: usize) -> (res: bool)
    ensures
        res <==> plan_len(model@, pages as nat) + 2 * pages + model@.art_meshes.len() <= u32::MAX,
{
    let ghost m = model@;
    let ghost n = pages as nat;
    let limit: u128 = 0xffff_ffff;
    proof {
        lemma_prefix_grows(part_sizes(m), 0, m.parts.len() as int);
        lemma_prefix_grows(deformer_sizes(m), 0, m.deformers.len() as int);
        lemma_prefix_grows(mesh_sizes(m), 0, m.art_meshes.len() as int);
        lemma_prefix_grows(glue_sizes(m), 0, m.glues.len() as int);
    }
    let parameters = model.parameters();
    assert(parameter_views(parameters@) == m.parameters);
    let mut total: u128 = 27 + parameters.len() as u128 + 11 * pages as u128 + 4;
    if total > limit {
        return false;
    }
    let parts = model.parts();
    assert(part_views(parts@) == m.parts);
    let mut i: usize = 0;
    while i < parts.len()
        invariant
            i <= parts@.len(),
            m == model@,
            part_views(parts@) == m.parts,
            total == parts_base(m, n) + prefix_sum(part_sizes(m), i as int),
            total <= limit,
            limit == u32::MAX,
            n == pages as nat,
        decreases parts@.len() - i,
    {
        assert(m.parts[i as int] == parts@[i as int]@);
        let size = 2 + grid_count(binding_count(model, parts[i].binding_band_index()), parts[i].keyforms().len());
        total = total + size;
        if total > limit {
            proof {
                assert(total == parts_base(m, n) + prefix_sum(part_sizes(m), i + 1));
                lemma_prefix_grows(part_sizes(m), i + 1, m.parts.len() as int);
                assert(plan_len(m, n) > u32::MAX);
            }
            return false;
        }
        i = i + 1;
    }
    let deformers = model.deformers();
    assert(deformer_views(deformers@) == m.deformers);
    let mut i: usize = 0;
    while i < deformers.len()
        invariant
            i <= deformers@.len(),
            m == model@,
            deformer_views(deformers@) == m.deformers,
            total == deformers_base(m, n) + prefix_sum(deformer_sizes(m), i as int),
            total <= limit,
            limit == u32::MAX,
            n == pages as nat,
        decreases deformers@.len() - i,
    {
        assert(m.deformers[i as int] == deformers@[i as int]@);
        let size = 2 + grid_count(binding_count(model, deformers[i].binding_band_index()), deformers[i].keyform_count());
        total = total + size;
        if total > limit {
            proof {
                assert(total == deformers_base(m, n) + prefix_sum(deformer_sizes(m), i + 1));
                lemma_prefix_grows(deformer_sizes(m), i + 1, m.deformers.len() as int);
                assert(plan_len(m, n) > u32::MAX);
            }
            return false;
        }
        i = i + 1;
    }
    let meshes = model.art_meshes();
    assert(mesh_views(meshes@) == m.art_meshes);
    let mut i: usize = 0;
    while i < meshes.len()
        invariant
            i <= meshes@.len(),
            m == model@,
            mesh_views(meshes@) == m.art_meshes,
            total == meshes_base(m, n) + prefix_sum(mesh_sizes(m), i as int),
            total <= limit,
            limit == u32::MAX,
            n == pages as nat,
        decreases meshes@.len() - i,
    {
        assert(m.art_meshes[i as int] == meshes@[i as int]@);
        let size = 8 + grid_count(binding_count(model, meshes[i].binding_band_index()), meshes[i].keyforms().len());
        total = total + size;
        if total > limit {
            proof {
                assert(total == meshes_base(m, n) + prefix_sum(mesh_sizes(m), i + 1));
                lemma_prefix_grows(mesh_sizes(m), i + 1, m.art_meshes.len() as int);
                assert(plan_len(m, n) > u32::MAX);
            }
            return false;
        }
        i = i + 1;
    }
    let glues = model.glues();
    assert(glue_views(glues@) == m.glues);
    let mut i: usize = 0;
    while i < glues.len()
        invariant
            i <= glues@.len(),
            m == model@,
            glue_views(glues@) == m.glues,
            total == glues_base(m, n) + prefix_sum(glue_sizes(m), i as int),
            total <= limit,
            limit == u32::MAX,
            n == pages as nat,
        decreases glues@.len() - i,
    {
        assert(m.glues[i as int] == glues@[i as int]@);
        let size = 2 + grid_count(binding_count(model, glues[i].binding_band_index()), glues[i].intensities.len());
        total = total + size;
        if total > limit {
            proof {
                assert(total == glues_base(m, n) + prefix_sum(glue_sizes(m), i + 1));
                lemma_prefix_grows(glue_sizes(m), i + 1, m.glues.len() as int);
                assert(plan_len(m, n) > u32::MAX);
            }
            return false;
        }
        i = i + 1;
    }
    total + 1 + 2 * pages as u128 + meshes.len() as u128 <= limit
}

impl ProjectPlan {
    /// Allocates the references of the document of `model` with
    /// `texture_count` atlas pages.
    pub fn new(model: &Moc3Model, texture_count: usize) -> (res: ProjectPlan)
        requires
            plan_len(model@, texture_count as nat) <= u32::MAX,
        ensures
            plan_matches(res, model@, texture_count as nat),
    {
        let ghost m = model@;
        let ghost total = plan_len(m, texture_count as nat);
        proof {
            lemma_prefix_grows(part_sizes(m), 0, m.parts.len() as int);
            lemma_prefix_grows(deformer_sizes(m), 0, m.deformers.len() as int);
            lemma_prefix_grows(mesh_sizes(m), 0, m.art_meshes.len() as int);
            lemma_prefix_grows(glue_sizes(m), 0, m.glues.len() as int);
        }
        let mut ids = Allocator { next: 0 };
        let parameter_group_guid = ids.id();
        let model_guid = ids.id();
        let root_deformer_guid = ids.id();
        let coord_type = ids.id();
        let blend_normal = ids.id();
        let layered_image_guid = ids.id();
        let layered_image = ids.id();
        let layer_group = ids.id();
        let selector_definition = ids.id();
        let filter_definition = ids.id();
        let v0 = ids.id();
        let v1 = ids.id();
        let v2 = ids.id();
        let v3 = ids.id();
        let v4 = ids.id();
        let v5 = ids.id();
        let v6 = ids.id();
        let v7 = ids.id();
        let w0 = ids.id();
        let w1 = ids.id();
        let w2 = ids.id();
        let w3 = ids.id();
        let w4 = ids.id();
        let w5 = ids.id();
        let w6 = ids.id();
        let w7 = ids.id();
        let w8 = ids.id();
        let filters = FilterGlobals {
            selector_definition,
            filter_definition,
            value_ids: [v0, v1, v2, v3, v4, v5, v6, v7],
            values: [w0, w1, w2, w3, w4, w5, w6, w7, w8],
        };
        assert(filters.value_ids@ =~= seq![v0, v1, v2, v3, v4, v5, v6, v7]);
        assert(filters.values@ =~= seq![w0, w1, w2, w3, w4, w5, w6, w7, w8]);
        let parameters = plan_parameters(&mut ids, model, Ghost(total));
        let pages = plan_pages(&mut ids, texture_count, Ghost(total), Ghost(m));
        let root_part = PartPlan { guid: ids.id(), source: ids.id(), grid: grid_plan(&mut ids, 0, 1) };
        let parts = plan_parts(&mut ids, model, Ghost(total), Ghost(texture_count as nat));
        let deformers = plan_deformers(&mut ids, model, Ghost(total), Ghost(texture_count as nat));
        let meshes = plan_meshes(&mut ids, model, Ghost(total), Ghost(texture_count as nat));
        let glues = plan_glues(&mut ids, model, Ghost(total), Ghost(texture_count as nat));
        let image_group = ids.id();
        ProjectPlan {
            parameter_group_guid,
            model_guid,
            root_deformer_guid,
            coord_type,
            blend_normal,
            layered_image_guid,
            layered_image,
            layer_group,
            filters,
            parameters,
            pages,
            root_part,
            parts,
            deformers,
            meshes,
            glues,
            image_group,
        }
    }
}

/// Allocates one number per parameter.
fn plan_parameters(ids: &mut Allocator, model: &Moc3Model, Ghost(total): Ghost<int>) -> (res: Vec<ParameterPlan>)
    requires
        old(ids).next == 27,
        27 + model@.parameters.len() <= total <= u32::MAX,
    ensures
        res@.len() == model@.parameters.len(),
        forall|i: int| 0 <= i < model@.parameters.len() ==> (#[trigger] res@[i]).guid.index == 27 + i,
        final(ids).next == 27 + model@.parameters.len(),
{
    let count = model.parameters().len();
    let mut out: Vec<ParameterPlan> = Vec::new();
    let mut i: usize = 0;
    while i < count
        invariant
            i <= count,
            count == model@.parameters.len(),
            27 + count <= u32::MAX,
            ids.next == 27 + i,
            out@.len() == i,
            forall|j: int| 0 <= j < i ==> (#[trigger] out@[j]).guid.index == 27 + j,
        decreases count - i,
    {
        out.push(ParameterPlan { guid: ids.id() });
        i = i + 1;
    }
    out
}

/// Allocates eleven numbers per atlas page.
fn plan_pages(ids: &mut Allocator, count: usize, Ghost(total): Ghost<int>, Ghost(m): Ghost<Moc3ModelView>) -> (res: Vec<PagePlan>)
    requires
        old(ids).next == pages_base(m),
        pages_base(m) + 11 * count <= total <= u32::MAX,
    ensures
        res@.len() == count,
        forall|i: int| 0 <= i < count ==> page_at(#[trigger] res@[i], pages_base(m) + 11 * i),
        final(ids).next == pages_base(m) + 11 * count,
{
    let mut out: Vec<PagePlan> = Vec::new();
    let mut i: usize = 0;
    while i < count
        invariant
            i <= count,
            pages_base(m) + 11 * count <= total <= u32::MAX,
            ids.next == pages_base(m) + 11 * i,
            out@.len() == i,
            forall|j: int| 0 <= j < i ==> page_at(#[trigger] out@[j], pages_base(m) + 11 * j),
        decreases count - i,
    {
        let model_image_guid = ids.id();
        let texture_guid = ids.id();
        let image_resource = ids.id();
        let layer = ids.id();
        let filter_set = ids.id();
        let a = ids.id();
        let b = ids.id();
        let c = ids.id();
        let d = ids.id();
        let filter_output = ids.id();
        let texture = ids.id();
        let page = PagePlan {
            model_image_guid,
            texture_guid,
            image_resource,
            layer,
            filter_set,
            filter_instance_ids: [a, b],
            filter_instances: [c, d],
            filter_output,
            texture,
        };
        assert(page.filter_instance_ids@ =~= seq![a, b]);
        assert(page.filter_instances@ =~= seq![c, d]);
        out.push(page);
        i = i + 1;
    }
    out
}

/// Allocates the numbers of each part.
fn plan_parts(ids: &mut Allocator, model: &Moc3Model, Ghost(total): Ghost<int>, Ghost(pages): Ghost<nat>) -> (res: Vec<PartPlan>)
    requires
        old(ids).next == parts_base(model@, pages),
        deformers_base(model@, pages) <= total <= u32::MAX,
    ensures
        res@.len() == model@.parts.len(),
        forall|i: int|
            0 <= i < model@.parts.len() ==> part_at(
                #[trigger] res@[i],
                parts_base(model@, pages) + prefix_sum(part_sizes(model@), i),
                band_len(model@.binding_bands, model@.parts[i].binding_band_index),
                model@.parts[i].keyforms.len(),
            ),
        final(ids).next == deformers_base(model@, pages),
{
    let ghost m = model@;
    let ghost sizes = part_sizes(m);
    let parts = model.parts();
    assert(part_views(parts@) == m.parts);
    let mut out: Vec<PartPlan> = Vec::new();
    let mut i: usize = 0;
    while i < parts.len()
        invariant
            i <= parts@.len(),
            m == model@,
            sizes == part_sizes(m),
            part_views(parts@) == m.parts,
            deformers_base(m, pages) <= total <= u32::MAX,
            ids.next == parts_base(m, pages) + prefix_sum(sizes, i as int),
            out@.len() == i,
            forall|j: int|
                0 <= j < i ==> part_at(
                    #[trigger] out@[j],
                    parts_base(m, pages) + prefix_sum(sizes, j),
                    band_len(m.binding_bands, m.parts[j].binding_band_index),
                    m.parts[j].keyforms.len(),
                ),
        decreases parts@.len() - i,
    {
        assert(m.parts[i as int] == parts@[i as int]@);
        proof {
            lemma_prefix_grows(sizes, i + 1, m.parts.len() as int);
        }
        let b = binding_count(model, parts[i].binding_band_index());
        let k = parts[i].keyforms().len();
        let guid = ids.id();
        let source = ids.id();
        let grid = grid_plan(ids, b, k);
        out.push(PartPlan { guid, source, grid });
        i = i + 1;
    }
    out
}

/// Allocates the numbers of each deformer.
fn plan_deformers(ids: &mut Allocator, model: &Moc3Model, Ghost(total): Ghost<int>, Ghost(pages): Ghost<nat>) -> (res: Vec<DeformerPlan>)
    requires
        old(ids).next == deformers_base(model@, pages),
        meshes_base(model@, pages) <= total <= u32::MAX,
    ensures
        res@.len() == model@.deformers.len(),
        forall|i: int|
            0 <= i < model@.deformers.len() ==> {
                let d = #[trigger] res@[i];
                let s = deformers_base(model@, pages) + prefix_sum(deformer_sizes(model@), i);
                &&& d.guid.index == s
                &&& d.source.index == s + 1
                &&& grid_at(
                    d.grid,
                    s + 2,
                    band_len(model@.binding_bands, crate::moc3::deformer_band(model@.deformers[i])),
                    deformer_keyforms(model@.deformers[i]),
                )
            },
        final(ids).next == meshes_base(model@, pages),
{
    let ghost m = model@;
    let ghost sizes = deformer_sizes(m);
    let deformers = model.deformers();
    assert(deformer_views(deformers@) == m.deformers);
    let mut out: Vec<DeformerPlan> = Vec::new();
    let mut i: usize = 0;
    while i < deformers.len()
        invariant
            i <= deformers@.len(),
            m == model@,
            sizes == deformer_sizes(m),
            deformer_views(deformers@) == m.deformers,
            meshes_base(m, pages) <= total <= u32::MAX,
            ids.next == deformers_base(m, pages) + prefix_sum(sizes, i as int),
            out@.len() == i,
            forall|j: int|
                0 <= j < i ==> {
                    let d = #[trigger] out@[j];
                    let s = deformers_base(m, pages) + prefix_sum(sizes, j);
                    &&& d.guid.index == s
                    &&& d.source.index == s + 1
                    &&& grid_at(
                        d.grid,
                        s + 2,
                        band_len(m.binding_bands, crate::moc3::deformer_band(m.deformers[j])),
                        deformer_keyforms(m.deformers[j]),
                    )
                },
        decreases deformers@.len() - i,
    {
        assert(m.deformers[i as int] == deformers@[i as int]@);
        proof {
            lemma_prefix_grows(sizes, i + 1, m.deformers.len() as int);
        }
        let b = binding_count(model, deformers[i].binding_band_index());
        let k = deformers[i].keyform_count();
        let guid = ids.id();
        let source = ids.id();
        let grid = grid_plan(ids, b, k);
        out.push(DeformerPlan { guid, source, grid });
        i = i + 1;
    }
    out
}

/// Allocates the numbers of each ArtMesh.
fn plan_meshes(ids: &mut Allocator, model: &Moc3Model, Ghost(total): Ghost<int>, Ghost(pages): Ghost<nat>) -> (res: Vec<MeshPlan>)
    requires
        old(ids).next == meshes_base(model@, pages),
        glues_base(model@, pages) <= total <= u32::MAX,
    ensures
        res@.len() == model@.art_meshes.len(),
        forall|i: int|
            0 <= i < model@.art_meshes.len() ==> {
                let p = #[trigger] res@[i];
                let s = meshes_base(model@, pages) + prefix_sum(mesh_sizes(model@), i);
                let b = band_len(model@.binding_bands, model@.art_meshes[i].binding_band_index);
                let k = model@.art_meshes[i].keyforms.len();
                let e = s + 2 + grid_len(b, k);
                &&& p.guid.index == s
                &&& p.source.index == s + 1
                &&& grid_at(p.grid, s + 2, b, k)
                &&& p.editable_mesh_guid.index == e
                &&& p.editable_extension_guid.index == e + 1
                &&& p.generator_extension_guid.index == e + 2
                &&& p.texture_extension_guid.index == e + 3
                &&& p.texture_extension.index == e + 4
                &&& p.texture_input.index == e + 5
            },
        final(ids).next == glues_base(model@, pages),
{
    let ghost m = model@;
    let ghost sizes = mesh_sizes(m);
    let meshes = model.art_meshes();
    assert(mesh_views(meshes@) == m.art_meshes);
    let mut out: Vec<MeshPlan> = Vec::new();
    let mut i: usize = 0;
    while i < meshes.len()
        invariant
            i <= meshes@.len(),
            m == model@,
            sizes == mesh_sizes(m),
            mesh_views(meshes@) == m.art_meshes,
            glues_base(m, pages) <= total <= u32::MAX,
            ids.next == meshes_base(m, pages) + prefix_sum(sizes, i as int),
            out@.len() == i,
            forall|j: int|
                0 <= j < i ==> {
                    let p = #[trigger] out@[j];
                    let s = meshes_base(m, pages) + prefix_sum(sizes, j);
                    let b = band_len(m.binding_bands, m.art_meshes[j].binding_band_index);
                    let k = m.art_meshes[j].keyforms.len();
                    let e = s + 2 + grid_len(b, k);
                    &&& p.guid.index == s
                    &&& p.source.index == s + 1
                    &&& grid_at(p.grid, s + 2, b, k)
                    &&& p.editable_mesh_guid.index == e
                    &&& p.editable_extension_guid.index == e + 1
                    &&& p.generator_extension_guid.index == e + 2
                    &&& p.texture_extension_guid.index == e + 3
                    &&& p.texture_extension.index == e + 4
                    &&& p.texture_input.index == e + 5
                },
        decreases meshes@.len() - i,
    {
        assert(m.art_meshes[i as int] == meshes@[i as int]@);
        proof {
            lemma_prefix_grows(sizes, i + 1, m.art_meshes.len() as int);
        }
        let b = binding_count(model, meshes[i].binding_band_index());
        let k = meshes[i].keyforms().len();
        let guid = ids.id();
        let source = ids.id();
        let grid = grid_plan(ids, b, k);
        let editable_mesh_guid = ids.id();
        let editable_extension_guid = ids.id();
        let generator_extension_guid = ids.id();
        let texture_extension_guid = ids.id();
        let texture_extension = ids.id();
        let texture_input = ids.id();
        out.push(MeshPlan {
            guid,
            source,
            grid,
            editable_mesh_guid,
            editable_extension_guid,
            generator_extension_guid,
            texture_extension_guid,
            texture_extension,
            texture_input,
        });
        i = i + 1;
    }
    out
}

/// Allocates the numbers of each glue.
fn plan_glues(ids: &mut Allocator, model: &Moc3Model, Ghost(total): Ghost<int>, Ghost(pages): Ghost<nat>) -> (res: Vec<GluePlan>)
    requires
        old(ids).next == glues_base(model@, pages),
        plan_len(model@, pages) <= total <= u32::MAX,
    ensures
        res@.len() == model@.glues.len(),
        forall|i: int|
            0 <= i < model@.glues.len() ==> {
                let g = #[trigger] res@[i];
                let s = glues_base(model@, pages) + prefix_sum(glue_sizes(model@), i);
                &&& g.guid.index == s
                &&& g.source.index == s + 1
                &&& grid_at(
                    g.grid,
                    s + 2,
                    band_len(model@.binding_bands, model@.glues[i].binding_band_index),
                    model@.glues[i].intensities.len(),
                )
            },
        final(ids).next == plan_len(model@, pages) - 1,
{
    let ghost m = model@;
    let ghost sizes = glue_sizes(m);
    let glues = model.glues();
    assert(glue_views(glues@) == m.glues);
    let mut out: Vec<GluePlan> = Vec::new();
    let mut i: usize = 0;
    while i < glues.len()
        invariant
            i <= glues@.len(),
            m == model@,
            sizes == glue_sizes(m),
            glue_views(glues@) == m.glues,
            plan_len(m, pages) <= total <= u32::MAX,
            ids.next == glues_base(m, pages) + prefix_sum(sizes, i as int),
            out@.len() == i,
            forall|j: int|
                0 <= j < i ==> {
                    let g = #[trigger] out@[j];
                    let s = glues_base(m, pages) + prefix_sum(sizes, j);
                    &&& g.guid.index == s
                    &&& g.source.index == s + 1
                    &&& grid_at(
                        g.grid,
                        s + 2,
                        band_len(m.binding_bands, m.glues[j].binding_band_index),
                        m.glues[j].intensities.len(),
                    )
                },
        decreases glues@.len() - i,
    {
        assert(m.glues[i as int] == glues@[i as int]@);
        proof {
            lemma_prefix_grows(sizes, i + 1, m.glues.len() as int);
        }
        let b = binding_count(model, glues[i].binding_band_index);
        let k = glues[i].intensities.len();
        let guid = ids.id();
        let source = ids.id();
        let grid = grid_plan(ids, b, k);
        out.push(GluePlan { guid, source, grid });
        i = i + 1;
    }
    out
}

} // verus!
