//! The structure of the editor document that follows from the model alone:
//! the children of each part, which deformers sit under a rotation, the
//! edges of each mesh and how each mesh's colors combine.

use vstd::prelude::*;

use super::plan::{MeshPlan, PartPlan, ProjectPlan, RefId};
use crate::error::{cmo3_error, invalid_cmo3, Error};
use crate::moc3::{deformer_parent, deformer_views, mesh_views, part_views, ArtMeshModel, DeformerModel, Moc3Model, PartModel};

verus! {

/// How a mesh's colors combine with what is below it, by its drawable
/// flags: `ADD` when bit 0 is set, else `MULTIPLY` when bit 1 is, else
/// `NORMAL`.
pub open spec fn composition_of(flags: u8) -> Seq<char> {
    if flags & 1 != 0 {
        "ADD"@
    } else if flags & 2 != 0 {
        "MULTIPLY"@
    } else {
        "NORMAL"@
    }
}

/// Returns how a mesh's colors combine, by its drawable flags.
pub fn color_composition(flags: u8) -> (res: &'static str)
    ensures
        res@ == composition_of(flags),
{
    if flags & 1 != 0 {
        "ADD"
    } else if flags & 2 != 0 {
        "MULTIPLY"
    } else {
        "NORMAL"
    }
}

/// Walks up a deformer's parent chain for at most `fuel` steps, each step
/// looking at one parent: `true` at the first rotation deformer, `false` at
/// the top, `None` at a missing parent or when the steps run out.
pub open spec fn rotation_above(ds: Seq<DeformerModel>, parent: Option<usize>, fuel: nat) -> Option<bool>
    decreases fuel,
{
    if fuel == 0 {
        None
    } else {
        match parent {
            None => Some(false),
            Some(p) => if p >= ds.len() {
                None
            } else if ds[p as int] is Rotation {
                Some(true)
            } else {
                rotation_above(ds, deformer_parent(ds[p as int]), (fuel - 1) as nat)
            },
        }
    }
}

/// Whether deformer `i` sits under a rotation deformer, looking at most as
/// many steps up as there are deformers and one more.
pub open spec fn rotation_flag(ds: Seq<DeformerModel>, i: int) -> Option<bool> {
    rotation_above(ds, deformer_parent(ds[i]), ds.len() + 1)
}

/// Whether every deformer's parent chain ends or reaches a rotation.
pub open spec fn flags_ok(ds: Seq<DeformerModel>) -> bool {
    forall|i: int| 0 <= i < ds.len() ==> (#[trigger] rotation_flag(ds, i)) is Some
}

/// Returns, for each deformer, whether a rotation deformer is among its
/// ancestors. Fails when a chain reaches a missing deformer or does not end.
pub fn rotation_ancestor_flags(model: &Moc3Model) -> (res: Result<Vec<bool>, Error>)
    ensures
        flags_ok(model@.deformers) ==> (res matches Ok(v) && v@.len() == model@.deformers.len() && forall|i: int|
            0 <= i < v@.len() ==> Some(#[trigger] v@[i]) == rotation_flag(model@.deformers, i)),
        !flags_ok(model@.deformers) ==> cmo3_error(res),
{
    let deformers = model.deformers();
    let ghost ds = model@.deformers;
    assert(deformer_views(deformers@) == ds);
    let count = deformers.len();
    let mut flags: Vec<bool> = Vec::new();
    let mut index: usize = 0;
    while index < count
        invariant
            index <= count,
            count == ds.len(),
            ds == deformer_views(deformers@),
            ds == model@.deformers,
            flags@.len() == index,
            forall|i: int| 0 <= i < index ==> Some(#[trigger] flags@[i]) == rotation_flag(ds, i),
        decreases count - index,
    {
        assert(ds[index as int] == deformers@[index as int]@);
        let mut parent = deformers[index].parent_deformer_index();
        let mut steps: u128 = 0;
        let mut found: Option<bool> = None;
        while steps <= count as u128
            invariant_except_break
                found is None,
            invariant
                steps <= count + 1,
                index < count,
                count == ds.len(),
                ds == model@.deformers,
                ds == deformer_views(deformers@),
                rotation_flag(ds, index as int) == rotation_above(ds, parent, (count + 1 - steps) as nat),
            ensures
                found is None ==> rotation_flag(ds, index as int) is None,
                found matches Some(f) ==> rotation_flag(ds, index as int) == Some(f),
            decreases count + 1 - steps,
        {
            let parent_index = match parent {
                None => {
                    found = Some(false);
                    break;
                },
                Some(p) => p,
            };
            if parent_index >= count {
                assert(rotation_flag(ds, index as int) is None);
                assert(!flags_ok(ds));
                return Err(invalid_cmo3("deformer references a missing parent"));
            }
            assert(ds[parent_index as int] == deformers@[parent_index as int]@);
            let is_rotation = match &deformers[parent_index] {
                crate::moc3::Deformer::Rotation(_) => true,
                crate::moc3::Deformer::Warp(_) => false,
            };
            if is_rotation {
                found = Some(true);
                break;
            }
            parent = deformers[parent_index].parent_deformer_index();
            steps = steps + 1;
        }
        let flag = match found {
            Some(flag) => flag,
            None => {
                assert(rotation_flag(ds, index as int) is None);
                assert(!flags_ok(ds));
                return Err(invalid_cmo3("deformer has a cyclic parent chain"));
            },
        };
        flags.push(flag);
        index = index + 1;
    }
    assert forall|i: int| 0 <= i < ds.len() implies (#[trigger] rotation_flag(ds, i)) is Some by {
        assert(Some(flags@[i]) == rotation_flag(ds, i));
    }
    Ok(flags)
}

/// A walk that ends within some steps ends the same way with more.
proof fn lemma_more_fuel(ds: Seq<DeformerModel>, parent: Option<usize>, fuel: nat)
    ensures
        rotation_above(ds, parent, fuel) matches Some(b) ==> rotation_above(ds, parent, fuel + 1) == Some(b),
    decreases fuel,
{
    if fuel > 0 {
        if let Some(p) = parent {
            if p < ds.len() && !(ds[p as int] is Rotation) {
                lemma_more_fuel(ds, deformer_parent(ds[p as int]), (fuel - 1) as nat);
            }
        }
    }
}

/// A deformer right under a rotation deformer is under a rotation; one
/// without a parent is not; one right under a warp deformer is flagged as
/// that warp deformer is.
pub proof fn lemma_rotation_flags(ds: Seq<DeformerModel>, i: int)
    requires
        0 <= i < ds.len(),
    ensures
        deformer_parent(ds[i]) is None ==> rotation_flag(ds, i) == Some(false),
        ({
            let p = deformer_parent(ds[i])->Some_0 as int;
            deformer_parent(ds[i]) is Some && p < ds.len() && ds[p] is Rotation ==> rotation_flag(ds, i) == Some(true)
        }),
        ({
            let p = deformer_parent(ds[i])->Some_0 as int;
            deformer_parent(ds[i]) is Some && p < ds.len() && !(ds[p] is Rotation) && rotation_flag(ds, i) is Some
                ==> rotation_flag(ds, p) == rotation_flag(ds, i)
        }),
{
    if let Some(p) = deformer_parent(ds[i]) {
        if p < ds.len() && !(ds[p as int] is Rotation) {
            lemma_more_fuel(ds, deformer_parent(ds[p as int]), ds.len());
        }
    }
}

/// An edge with its smaller end first.
pub open spec fn edge(a: u16, b: u16) -> (u16, u16) {
    if a <= b {
        (a, b)
    } else {
        (b, a)
    }
}

/// Where the other end of edge `m` of a triangle list stands: edges go
/// round each triangle, the third back to its first corner.
pub open spec fn edge_end(m: int) -> int {
    if m % 3 == 2 {
        m - 2
    } else {
        m + 1
    }
}

/// Edge `m` of a triangle list.
pub open spec fn edge_at(indices: Seq<u16>, m: int) -> (u16, u16) {
    edge(indices[m], indices[edge_end(m)])
}

/// Whether `e` is one of the first `n` edges of a triangle list.
pub open spec fn among_edges(indices: Seq<u16>, n: int, e: (u16, u16)) -> bool {
    exists|m: int| 0 <= m < n && #[trigger] edge_at(indices, m) == e
}

/// How many edges the complete triangles of a list have; a trailing
/// incomplete triangle has none.
pub open spec fn edge_count(indices: Seq<u16>) -> int {
    3 * (indices.len() / 3) as int
}

/// Whether `x` comes before `y`, comparing smaller ends first.
pub open spec fn edge_before(x: (u16, u16), y: (u16, u16)) -> bool {
    x.0 < y.0 || (x.0 == y.0 && x.1 < y.1)
}

/// Whether edges are in strictly increasing order.
pub open spec fn edges_sorted(s: Seq<(u16, u16)>) -> bool {
    forall|i: int, j: int| 0 <= i < j < s.len() ==> edge_before(#[trigger] s[i], #[trigger] s[j])
}

/// The edges written as consecutive pairs of indices.
pub open spec fn edge_pairs(flat: Seq<u16>) -> Seq<(u16, u16)> {
    Seq::new(flat.len() / 2, |i: int| (flat[2 * i], flat[2 * i + 1]))
}

/// Returns the distinct edges of the complete triangles of a list, each
/// with its smaller end first, in increasing order, as consecutive pairs.
pub fn triangle_edges(indices: &[u16]) -> (res: Vec<u16>)
    ensures
        res@.len() % 2 == 0,
        edges_sorted(edge_pairs(res@)),
        forall|e: (u16, u16)| edge_pairs(res@).contains(e) <==> among_edges(indices@, edge_count(indices@), e),
{
    let ghost ix = indices@;
    let total = 3 * (indices.len() / 3);
    let mut edges: Vec<(u16, u16)> = Vec::new();
    let mut m: usize = 0;
    while m < total
        invariant
            ix == indices@,
            total == edge_count(ix),
            m <= total,
            edges_sorted(edges@),
            forall|e: (u16, u16)| edges@.contains(e) <==> among_edges(ix, m as int, e),
        decreases total - m,
    {
        let other = if m % 3 == 2 {
            m - 2
        } else {
            m + 1
        };
        let a = indices[m];
        let b = indices[other];
        let e = if a <= b {
            (a, b)
        } else {
            (b, a)
        };
        assert(e == edge_at(ix, m as int));
        let mut pos: usize = 0;
        while pos < edges.len() && edge_less(edges[pos], e)
            invariant
                pos <= edges@.len(),
                forall|j: int| 0 <= j < pos ==> edge_before(#[trigger] edges@[j], e),
            decreases edges@.len() - pos,
        {
            pos = pos + 1;
        }
        let ghost old_edges = edges@;
        if pos < edges.len() && edges[pos].0 == e.0 && edges[pos].1 == e.1 {
            assert(old_edges.contains(e));
        } else {
            edges.insert(pos, e);
            proof {
                assert forall|i: int, j: int| 0 <= i < j < edges@.len() implies edge_before(
                    #[trigger] edges@[i],
                    #[trigger] edges@[j],
                ) by {
                    if j < pos {
                        assert(edges@[i] == old_edges[i] && edges@[j] == old_edges[j]);
                    } else if j == pos {
                        assert(edges@[i] == old_edges[i]);
                    } else if i < pos {
                        assert(edges@[j] == old_edges[j - 1]);
                        if pos < old_edges.len() {
                            assert(!edge_before(old_edges[pos as int], e));
                            assert(edge_before(e, old_edges[pos as int]) || old_edges[pos as int] == e);
                        }
                    } else if i == pos {
                        assert(edges@[j] == old_edges[j - 1]);
                        assert(!edge_before(old_edges[pos as int], e));
                        assert(old_edges[pos as int] != e);
                    } else {
                        assert(edges@[i] == old_edges[i - 1] && edges@[j] == old_edges[j - 1]);
                    }
                }
            }
        }
        proof {
            assert forall|x: (u16, u16)| edges@.contains(x) <==> among_edges(ix, m + 1, x) by {
                if edges@.contains(x) {
                    let k = choose|k: int| 0 <= k < edges@.len() && edges@[k] == x;
                    if x != e {
                        if edges@.len() != old_edges.len() {
                            if k < pos {
                                assert(old_edges[k] == x);
                            } else if k > pos {
                                assert(old_edges[k - 1] == x);
                            }
                        }
                        assert(old_edges.contains(x));
                        let w = choose|w: int| 0 <= w < m && #[trigger] edge_at(ix, w) == x;
                        assert(0 <= w < m + 1 && edge_at(ix, w) == x);
                    } else {
                        assert(edge_at(ix, m as int) == x);
                    }
                }
                if among_edges(ix, m + 1, x) {
                    let w = choose|w: int| 0 <= w < m + 1 && #[trigger] edge_at(ix, w) == x;
                    if w < m {
                        assert(among_edges(ix, m as int, x));
                        assert(old_edges.contains(x));
                        let k = choose|k: int| 0 <= k < old_edges.len() && old_edges[k] == x;
                        if edges@.len() != old_edges.len() {
                            if k < pos {
                                assert(edges@[k] == x);
                            } else {
                                assert(edges@[k + 1] == x);
                            }
                        } else {
                            assert(edges@[k] == x);
                        }
                    } else {
                        if edges@.len() != old_edges.len() {
                            assert(edges@[pos as int] == e);
                        } else {
                            assert(edges@[pos as int] == e);
                        }
                    }
                }
            }
        }
        m = m + 1;
    }
    let mut flat: Vec<u16> = Vec::new();
    let mut i: usize = 0;
    while i < edges.len()
        invariant
            i <= edges@.len(),
            flat@.len() == 2 * i,
            forall|j: int| 0 <= j < i ==> flat@[2 * j] == (#[trigger] edges@[j]).0 && flat@[2 * j + 1] == edges@[j].1,
        decreases edges@.len() - i,
    {
        let (left, right) = edges[i];
        flat.push(left);
        flat.push(right);
        i = i + 1;
    }
    assert(edge_pairs(flat@) =~= edges@);
    flat
}

/// Whether `x` comes before `y`, comparing smaller ends first.
fn edge_less(x: (u16, u16), y: (u16, u16)) -> (res: bool)
    ensures
        res == edge_before(x, y),
{
    x.0 < y.0 || (x.0 == y.0 && x.1 < y.1)
}

/// The tag and reference of each child.
pub open spec fn child_views(v: Seq<(&'static str, RefId)>) -> Seq<(Seq<char>, RefId)> {
    v.map_values(|c: (&'static str, RefId)| (c.0@, c.1))
}

/// The parts among the first `n` whose parent is `parent`, as children.
pub open spec fn child_parts(parts: Seq<PartModel>, plans: Seq<PartPlan>, parent: Option<usize>, n: int) -> Seq<
    (Seq<char>, RefId),
>
    decreases n,
{
    if n <= 0 {
        Seq::empty()
    } else if parts[n - 1].parent_part_index == parent {
        child_parts(parts, plans, parent, n - 1).push(("CPartGuid"@, plans[n - 1].guid))
    } else {
        child_parts(parts, plans, parent, n - 1)
    }
}

/// The ArtMeshes among the first `n` whose part is `parent`, as children.
pub open spec fn child_meshes(meshes: Seq<ArtMeshModel>, plans: Seq<MeshPlan>, parent: Option<usize>, n: int) -> Seq<
    (Seq<char>, RefId),
>
    decreases n,
{
    if n <= 0 {
        Seq::empty()
    } else if meshes[n - 1].parent_part_index == parent {
        child_meshes(meshes, plans, parent, n - 1).push(("CDrawableGuid"@, plans[n - 1].guid))
    } else {
        child_meshes(meshes, plans, parent, n - 1)
    }
}

/// The smaller of two lengths.
pub open spec fn shorter(a: nat, b: nat) -> int {
    if a <= b {
        a as int
    } else {
        b as int
    }
}

/// The children of part `parent`, or of the root without one: its parts,
/// then its ArtMeshes, each paired with its plan in order.
pub open spec fn children_of(m: crate::moc3::Moc3ModelView, plan: ProjectPlan, parent: Option<usize>) -> Seq<
    (Seq<char>, RefId),
> {
    child_parts(m.parts, plan.parts@, parent, shorter(m.parts.len(), plan.parts@.len())) + child_meshes(
        m.art_meshes,
        plan.meshes@,
        parent,
        shorter(m.art_meshes.len(), plan.meshes@.len()),
    )
}

/// The children of the root: its parts and ArtMeshes, then every deformer
/// and every glue.
pub open spec fn root_children_of(m: crate::moc3::Moc3ModelView, plan: ProjectPlan) -> Seq<(Seq<char>, RefId)> {
    children_of(m, plan, None) + Seq::new(plan.deformers@.len(), |i: int| ("CDeformerGuid"@, plan.deformers@[i].guid))
        + Seq::new(plan.glues@.len(), |i: int| ("CAffecterGuid"@, plan.glues@[i].guid))
}

/// The views of children after a push.
proof fn lemma_child_views_push(v: Seq<(&'static str, RefId)>, c: (&'static str, RefId))
    ensures
        child_views(v.push(c)) == child_views(v).push((c.0@, c.1)),
{
    assert(child_views(v.push(c)) =~= child_views(v).push((c.0@, c.1)));
}

/// Appends the children among the parts and ArtMeshes.
fn push_children(out: &mut Vec<(&'static str, RefId)>, plan: &ProjectPlan, model: &Moc3Model, parent: Option<usize>)
    ensures
        child_views(final(out)@) == child_views(old(out)@) + children_of(model@, *plan, parent),
{
    let ghost m = model@;
    let ghost start = child_views(out@);
    let parts = model.parts();
    assert(part_views(parts@) == m.parts);
    let n = if parts.len() <= plan.parts.len() {
        parts.len()
    } else {
        plan.parts.len()
    };
    let mut i: usize = 0;
    while i < n
        invariant
            i <= n,
            n == shorter(m.parts.len(), plan.parts@.len()),
            m == model@,
            part_views(parts@) == m.parts,
            child_views(out@) == start + child_parts(m.parts, plan.parts@, parent, i as int),
        decreases n - i,
    {
        assert(m.parts[i as int] == parts@[i as int]@);
        if parts[i].parent_part_index() == parent {
            let ghost before = out@;
            out.push(("CPartGuid", plan.parts[i].guid));
            proof {
                lemma_child_views_push(before, ("CPartGuid", plan.parts@[i as int].guid));
            }
            assert(child_views(out@) =~= start + child_parts(m.parts, plan.parts@, parent, i + 1));
        }
        i = i + 1;
    }
    let ghost middle = child_views(out@);
    let meshes = model.art_meshes();
    assert(mesh_views(meshes@) == m.art_meshes);
    let n = if meshes.len() <= plan.meshes.len() {
        meshes.len()
    } else {
        plan.meshes.len()
    };
    let mut i: usize = 0;
    while i < n
        invariant
            i <= n,
            n == shorter(m.art_meshes.len(), plan.meshes@.len()),
            m == model@,
            mesh_views(meshes@) == m.art_meshes,
            child_views(out@) == middle + child_meshes(m.art_meshes, plan.meshes@, parent, i as int),
        decreases n - i,
    {
        assert(m.art_meshes[i as int] == meshes@[i as int]@);
        if meshes[i].parent_part_index() == parent {
            let ghost before = out@;
            out.push(("CDrawableGuid", plan.meshes[i].guid));
            proof {
                lemma_child_views_push(before, ("CDrawableGuid", plan.meshes@[i as int].guid));
            }
            assert(child_views(out@) =~= middle + child_meshes(m.art_meshes, plan.meshes@, parent, i + 1));
        }
        i = i + 1;
    }
    assert(child_views(out@) =~= start + children_of(m, *plan, parent));
}

/// Returns the children of part `part_index`: its parts, then its
/// ArtMeshes.
pub fn part_children(plan: &ProjectPlan, model: &Moc3Model, part_index: usize) -> (res: Vec<(&'static str, RefId)>)
    ensures
        child_views(res@) == children_of(model@, *plan, Some(part_index)),
{
    let mut out: Vec<(&'static str, RefId)> = Vec::new();
    push_children(&mut out, plan, model, Some(part_index));
    assert(child_views(out@) =~= children_of(model@, *plan, Some(part_index)));
    out
}

/// Returns the children of the root part: the parts and ArtMeshes without
/// a part, then every deformer and every glue.
pub fn root_children(plan: &ProjectPlan, model: &Moc3Model) -> (res: Vec<(&'static str, RefId)>)
    ensures
        child_views(res@) == root_children_of(model@, *plan),
{
    let mut out: Vec<(&'static str, RefId)> = Vec::new();
    push_children(&mut out, plan, model, None);
    let ghost first = child_views(out@);
    assert(first =~= children_of(model@, *plan, None));
    let mut i: usize = 0;
    while i < plan.deformers.len()
        invariant
            i <= plan.deformers@.len(),
            child_views(out@) == first + Seq::new(i as nat, |j: int| ("CDeformerGuid"@, plan.deformers@[j].guid)),
        decreases plan.deformers@.len() - i,
    {
        let ghost before = out@;
        out.push(("CDeformerGuid", plan.deformers[i].guid));
        proof {
            lemma_child_views_push(before, ("CDeformerGuid", plan.deformers@[i as int].guid));
        }
        i = i + 1;
        assert(child_views(out@) =~= first + Seq::new(i as nat, |j: int| ("CDeformerGuid"@, plan.deformers@[j].guid)));
    }
    let ghost second = child_views(out@);
    let mut i: usize = 0;
    while i < plan.glues.len()
        invariant
            i <= plan.glues@.len(),
            child_views(out@) == second + Seq::new(i as nat, |j: int| ("CAffecterGuid"@, plan.glues@[j].guid)),
        decreases plan.glues@.len() - i,
    {
        let ghost before = out@;
        out.push(("CAffecterGuid", plan.glues[i].guid));
        proof {
            lemma_child_views_push(before, ("CAffecterGuid", plan.glues@[i as int].guid));
        }
        i = i + 1;
        assert(child_views(out@) =~= second + Seq::new(i as nat, |j: int| ("CAffecterGuid"@, plan.glues@[j].guid)));
    }
    assert(child_views(out@) =~= root_children_of(model@, *plan));
    out
}

} // verus!
