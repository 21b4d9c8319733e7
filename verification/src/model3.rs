//! Cubism `model3.json` manifests: which files make up a model.

use vstd::prelude::*;

use crate::displayinfo3::check_version;
use crate::error::{unsupported_version, Error};

verus! {

/// An expression file referenced by a model manifest.
#[derive(Debug, Clone)]
pub struct Model3Expression {
    /// Expression name.
    pub name: String,
    /// Relative path to the expression JSON file.
    pub file: String,
}

/// One motion reference in a model manifest; fade times are float bit
/// patterns.
#[derive(Debug, Clone)]
pub struct Model3Motion {
    /// Relative path to the motion3 JSON file.
    pub file: String,
    /// Bit pattern of the optional fade-in duration.
    pub fade_in_bits: Option<u32>,
    /// Bit pattern of the optional fade-out duration.
    pub fade_out_bits: Option<u32>,
}

/// An automatic parameter group such as EyeBlink or LipSync.
#[derive(Debug, Clone)]
pub struct Model3Group {
    /// Group target type.
    pub target: String,
    /// Group name.
    pub name: String,
    /// Parameter identifiers in the group.
    pub ids: Vec<String>,
}

/// A named hit-test drawable from a model manifest.
#[derive(Debug, Clone)]
pub struct Model3HitArea {
    /// Drawable identifier.
    pub id: String,
    /// Human-readable hit-area name.
    pub name: String,
}

/// A model resource manifest.
#[derive(Debug, Clone)]
pub struct Model3References {
    /// Relative path to the MOC3 file.
    pub moc: String,
    /// Relative paths to texture atlas pages.
    pub textures: Vec<String>,
    /// Optional physics3 JSON path.
    pub physics: Option<String>,
    /// Optional pose3 JSON path.
    pub pose: Option<String>,
    /// Optional userdata3 JSON path.
    pub user_data: Option<String>,
    /// Optional display-info JSON path.
    pub display_info: Option<String>,
    /// Optional expression files.
    pub expressions: Vec<Model3Expression>,
    /// Motion groups, each under its caller-facing group name, in the order
    /// of the names.
    pub motions: Vec<(String, Vec<Model3Motion>)>,
}

/// The path held by an optional reference, as a sequence of none or one.
pub open spec fn optional_path(p: Option<String>) -> Seq<Seq<char>> {
    match p {
        Some(s) => seq![s@],
        None => Seq::empty(),
    }
}

/// The JSON documents a manifest refers to besides the model, its pages and
/// its motions: physics, pose, user data and display info where present,
/// then every expression file.
pub open spec fn referenced_json(r: Model3References) -> Seq<Seq<char>> {
    optional_path(r.physics) + optional_path(r.pose) + optional_path(r.user_data) + optional_path(r.display_info)
        + r.expressions@.map_values(|e: Model3Expression| e.file@)
}

/// Appends the path of an optional reference.
fn push_optional(paths: &mut Vec<String>, p: &Option<String>)
    ensures
        final(paths)@.map_values(|s: String| s@) == old(paths)@.map_values(|s: String| s@) + optional_path(*p),
{
    match p {
        Some(s) => {
            paths.push(s.clone());
        },
        None => {},
    }
    assert(final(paths)@.map_values(|s: String| s@) =~= old(paths)@.map_values(|s: String| s@) + optional_path(*p));
}

/// One for a present reference, none for an absent one.
pub open spec fn present(p: Option<String>) -> nat {
    if p is Some {
        1
    } else {
        0
    }
}

/// The JSON documents a manifest refers to are listed in a fixed order:
/// the physics, pose, user data and display-info documents where present,
/// each at the position that the present ones before it leave, then every
/// expression file in manifest order; nothing else is listed.
pub proof fn lemma_referenced_json_order(r: Model3References)
    ensures
        ({
            let listed = referenced_json(r);
            let head = present(r.physics) + present(r.pose) + present(r.user_data) + present(r.display_info);
            &&& listed.len() == head + r.expressions@.len()
            &&& (r.physics matches Some(p) ==> listed[0] == p@)
            &&& (r.pose matches Some(p) ==> listed[present(r.physics) as int] == p@)
            &&& (r.user_data matches Some(p) ==> listed[(present(r.physics) + present(r.pose)) as int] == p@)
            &&& (r.display_info matches Some(p) ==> listed[(present(r.physics) + present(r.pose) + present(r.user_data)) as int]
                == p@)
            &&& forall|j: int| 0 <= j < r.expressions@.len() ==> listed[head + j] == (#[trigger] r.expressions@[j]).file@
        }),
{
}

/// Lists the JSON documents a manifest refers to besides the model, its
/// pages and its motions.
pub fn referenced_json_paths(references: &Model3References) -> (res: Vec<String>)
    ensures
        res@.map_values(|s: String| s@) == referenced_json(*references),
{
    let mut paths: Vec<String> = Vec::new();
    push_optional(&mut paths, &references.physics);
    push_optional(&mut paths, &references.pose);
    push_optional(&mut paths, &references.user_data);
    push_optional(&mut paths, &references.display_info);
    let ghost head = paths@.map_values(|s: String| s@);
    let ghost n = paths@.len();
    assert(head =~= optional_path(references.physics) + optional_path(references.pose) + optional_path(
        references.user_data,
    ) + optional_path(references.display_info));
    let mut i: usize = 0;
    while i < references.expressions.len()
        invariant
            i <= references.expressions@.len(),
            head.len() == n,
            paths@.len() == n + i,
            forall|j: int| 0 <= j < n ==> (#[trigger] paths@[j])@ == head[j],
            forall|j: int| 0 <= j < i ==> (#[trigger] paths@[n + j])@ == references.expressions@[j].file@,
        decreases references.expressions@.len() - i,
    {
        paths.push(references.expressions[i].file.clone());
        i = i + 1;
    }
    proof {
        let want = referenced_json(*references);
        let files = references.expressions@.map_values(|e: Model3Expression| e.file@);
        assert(want == head + files);
        let got = paths@.map_values(|s: String| s@);
        assert forall|j: int| 0 <= j < want.len() implies #[trigger] got[j] == want[j] by {
            if j >= n {
                assert(want[j] == files[j - n]);
                assert(paths@[n + (j - n)]@ == references.expressions@[j - n].file@);
            }
        }
        assert(got =~= want);
    }
    paths
}

/// A parsed Cubism `model3.json` manifest.
#[derive(Debug, Clone)]
pub struct Model3 {
    version: u32,
    file_references: Model3References,
    groups: Vec<Model3Group>,
}

impl Model3 {
    /// Builds a manifest from the fields read from its JSON text; only
    /// version 3 is accepted.
    pub fn from_fields(version: u32, file_references: Model3References, groups: Vec<Model3Group>) -> (res: Result<
        Model3,
        Error,
    >)
        ensures
            version == 3 ==> (res matches Ok(m) && m.version_spec() == 3 && m.references_spec()
                == file_references && m.groups_spec() == groups@),
            version != 3 ==> unsupported_version(res, "model3.json"@, version),
    {
        check_version("model3.json", version)?;
        Ok(Model3 { version, file_references, groups })
    }

    /// The declared version.
    pub closed spec fn version_spec(&self) -> u32 {
        self.version
    }

    /// The file references.
    pub closed spec fn references_spec(&self) -> Model3References {
        self.file_references
    }

    /// The parameter groups.
    pub closed spec fn groups_spec(&self) -> Seq<Model3Group> {
        self.groups@
    }

    /// Returns the model manifest version.
    pub fn version(&self) -> (res: u32)
        ensures
            res == self.version_spec(),
    {
        self.version
    }

    /// Returns referenced MOC3, textures, and motions.
    pub fn file_references(&self) -> (res: &Model3References)
        ensures
            *res == self.references_spec(),
    {
        &self.file_references
    }

    /// Returns automatic parameter groups.
    pub fn groups(&self) -> (res: &[Model3Group])
        ensures
            res@ == self.groups_spec(),
    {
        self.groups.as_slice()
    }
}

} // verus!
