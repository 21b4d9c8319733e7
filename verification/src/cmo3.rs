//! Building `.cmo3` editor projects and encoding them as CAFF archives.

use vstd::prelude::*;
use vstd::string::StringSliceAdditionalSpecFns;

use crate::caff::{
    archive_bytes, encodable, encode_archive, entry_views, stored_of, ArchiveEntry, Compression, EntryModel,
};
use crate::error::{cmo3_error, invalid_cmo3, Error};

verus! {

/// Whether an XML reader reads `bytes` through to its end without an error.
pub uninterp spec fn xml_reads_of(bytes: Seq<u8>) -> bool;

/// Reads `bytes` with `quick_xml::Reader::from_reader` and
/// `read_event_into` until the end of the input. Claimed: whether an error
/// comes before the end depends on the bytes alone; which inputs the reader
/// rejects is named, not stated.
#[verifier::external_body]
pub(crate) fn xml_reads(bytes: &[u8]) -> (res: bool)
    ensures
        res == xml_reads_of(bytes@),
{
    let mut reader = quick_xml::Reader::from_reader(bytes);
    let mut buffer = Vec::new();
    loop {
        match reader.read_event_into(&mut buffer) {
            Ok(quick_xml::events::Event::Eof) => return true,
            Ok(_) => buffer.clear(),
            Err(_) => return false,
        }
    }
}

/// The name of the project document, `main.xml`.
pub open spec fn main_xml_name() -> Seq<char> {
    "main.xml"@
}

/// The tag of the project document, `main_xml`.
pub open spec fn main_xml_tag() -> Seq<char> {
    "main_xml"@
}

/// The bytes of `main.xml`.
pub open spec fn main_xml_bytes() -> Seq<u8> {
    seq![109u8, 97, 105, 110, 46, 120, 109, 108]
}

/// `b` with every backslash turned into a slash.
pub open spec fn slashed(b: Seq<u8>) -> Seq<u8> {
    b.map_values(|c: u8| if c == 92 { 47u8 } else { c })
}

/// Whether the slash-separated path `n` has a `..` component.
pub open spec fn has_parent_component(n: Seq<u8>) -> bool {
    exists|i: int|
        0 <= i && i + 2 <= n.len() && #[trigger] n[i] == 46 && n[i + 1] == 46 && (i == 0 || n[i - 1] == 47) && (i
            + 2 == n.len() || n[i + 2] == 47)
}

/// Whether `b`, the UTF-8 bytes of a resource path, may name a resource:
/// not empty, not absolute, without a `..` component and not `main.xml`,
/// backslashes counting as slashes.
pub open spec fn resource_path_ok(b: Seq<u8>) -> bool {
    let n = slashed(b);
    &&& b.len() > 0
    &&& n[0] != 47
    &&& !has_parent_component(n)
    &&& n != main_xml_bytes()
}

/// Checks that `path` may name a resource.
pub fn validate_resource_path(path: &str) -> (res: Result<(), Error>)
    ensures
        res is Ok <==> resource_path_ok(path.spec_bytes()),
        res matches Err(e) ==> e is InvalidCmo3,
{
    let bytes = path.as_bytes();
    let ghost b = bytes@;
    if bytes.len() == 0 {
        return Err(invalid_cmo3("resource path is empty"));
    }
    let mut n: Vec<u8> = Vec::new();
    let mut i: usize = 0;
    while i < bytes.len()
        invariant
            i <= b.len(),
            b == bytes@,
            n@ == slashed(b.subrange(0, i as int)),
        decreases b.len() - i,
    {
        let c = bytes[i];
        n.push(if c == 92 { 47 } else { c });
        i = i + 1;
        assert(n@ =~= slashed(b.subrange(0, i as int)));
    }
    assert(b.subrange(0, b.len() as int) =~= b);
    let ghost s = slashed(b);
    if n[0] == 47 {
        return Err(invalid_cmo3("invalid resource path"));
    }
    let len = n.len();
    let mut j: usize = 0;
    while j < len - 1
        invariant
            n@ == s,
            s == slashed(b),
            b == path.spec_bytes(),
            len == s.len(),
            len >= 1,
            forall|k: int|
                0 <= k < j && k + 2 <= len ==> !(#[trigger] s[k] == 46 && s[k + 1] == 46 && (k == 0 || s[k - 1] == 47) && (
                k + 2 == len || s[k + 2] == 47)),
        decreases len - j,
    {
        if n[j] == 46 && n[j + 1] == 46 && (j == 0 || n[j - 1] == 47) && (j + 2 == len || n[j + 2] == 47) {
            assert(s[j as int] == 46 && s[j + 1] == 46 && (j == 0 || s[j - 1] == 47) && (j + 2 == len || s[j + 2] == 47));
            assert(has_parent_component(s));
            return Err(invalid_cmo3("invalid resource path"));
        }
        j = j + 1;
    }
    assert(!has_parent_component(s));
    let name: [u8; 8] = [109, 97, 105, 110, 46, 120, 109, 108];
    assert(name@ =~= main_xml_bytes());
    if len == 8 && crate::text::matches_at(n.as_slice(), name.as_slice(), 0) {
        assert(s =~= main_xml_bytes());
        return Err(invalid_cmo3("invalid resource path"));
    }
    proof {
        if s == main_xml_bytes() {
            assert(s.subrange(0, 8) =~= s);
        }
    }
    Ok(())
}

/// The abstract contents of a [`Cmo3Project`].
pub struct Cmo3View {
    pub main_xml: Seq<u8>,
    pub resources: Seq<(Seq<char>, Seq<u8>)>,
    pub key: i32,
}

/// A binary resource of a project.
#[derive(Debug, Clone)]
struct ProjectResource {
    path: String,
    bytes: Vec<u8>,
}

/// A CMO3 project before it is encoded into a CAFF archive.
#[derive(Debug, Clone)]
pub struct Cmo3Project {
    main_xml: Vec<u8>,
    resources: Vec<ProjectResource>,
    obfuscation_key: i32,
}

/// The path and contents of each resource.
spec fn resource_views(v: Seq<ProjectResource>) -> Seq<(Seq<char>, Seq<u8>)> {
    v.map_values(|r: ProjectResource| (r.path@, r.bytes@))
}

impl View for Cmo3Project {
    type V = Cmo3View;

    closed spec fn view(&self) -> Cmo3View {
        Cmo3View { main_xml: self.main_xml@, resources: resource_views(self.resources@), key: self.obfuscation_key }
    }
}

/// The first index of a resource stored at `path`.
pub open spec fn resource_index(rs: Seq<(Seq<char>, Seq<u8>)>, path: Seq<char>) -> Option<int> {
    if exists|i: int| 0 <= i < rs.len() && (#[trigger] rs[i]).0 == path {
        Some(choose|i: int| 0 <= i < rs.len() && (#[trigger] rs[i]).0 == path && forall|j: int| 0 <= j < i ==> rs[j].0 != path)
    } else {
        None
    }
}

/// What [`resource_index`] gives: the first resource stored at `path`, or
/// none stored there at all.
pub proof fn lemma_resource_index(rs: Seq<(Seq<char>, Seq<u8>)>, path: Seq<char>)
    ensures
        match resource_index(rs, path) {
            Some(i) => 0 <= i < rs.len() && rs[i].0 == path && forall|j: int| 0 <= j < i ==> rs[j].0 != path,
            None => forall|j: int| 0 <= j < rs.len() ==> rs[j].0 != path,
        },
{
    if exists|i: int| 0 <= i < rs.len() && (#[trigger] rs[i]).0 == path {
        let w = choose|i: int| 0 <= i < rs.len() && (#[trigger] rs[i]).0 == path;
        lemma_first_resource(rs, path, w);
    }
}

/// Some resource stored at `path` has none stored there before it.
proof fn lemma_first_resource(rs: Seq<(Seq<char>, Seq<u8>)>, path: Seq<char>, w: int)
    requires
        0 <= w < rs.len(),
        rs[w].0 == path,
    ensures
        exists|i: int| 0 <= i < rs.len() && (#[trigger] rs[i]).0 == path && forall|j: int| 0 <= j < i ==> rs[j].0 != path,
    decreases w,
{
    if exists|j: int| 0 <= j < w && (#[trigger] rs[j]).0 == path {
        let o = choose|j: int| 0 <= j < w && (#[trigger] rs[j]).0 == path;
        lemma_first_resource(rs, path, o);
    } else {
        assert(forall|j: int| 0 <= j < w ==> rs[j].0 != path);
        assert(rs[w].0 == path);
    }
}

/// The contents of the first resource stored at `path`, if any.
pub open spec fn lookup(rs: Seq<(Seq<char>, Seq<u8>)>, path: Seq<char>) -> Option<Seq<u8>> {
    match resource_index(rs, path) {
        Some(i) => Some(rs[i].1),
        None => None,
    }
}

/// The resources after storing `bytes` at `path`: the first resource
/// stored there is replaced, or a new one is appended.
pub open spec fn inserted(rs: Seq<(Seq<char>, Seq<u8>)>, path: Seq<char>, bytes: Seq<u8>) -> Seq<(Seq<char>, Seq<u8>)> {
    match resource_index(rs, path) {
        Some(i) => rs.update(i, (path, bytes)),
        None => rs.push((path, bytes)),
    }
}

/// The archive entries of a project: each resource, stored as is, then
/// `main.xml`, compressed.
pub open spec fn project_entries(p: Cmo3View) -> Seq<EntryModel> {
    Seq::new(
        p.resources.len(),
        |i: int|
            EntryModel {
                path: p.resources[i].0,
                tag: Seq::empty(),
                bytes: p.resources[i].1,
                compression: Compression::Raw,
            },
    ).push(EntryModel { path: main_xml_name(), tag: main_xml_tag(), bytes: p.main_xml, compression: Compression::Fast })
}

/// Whether a project can be encoded.
pub open spec fn project_encodable(p: Cmo3View) -> bool {
    &&& p.main_xml.len() > 0
    &&& xml_reads_of(p.main_xml)
    &&& forall|i: int| 0 <= i < p.resources.len() ==> resource_path_ok(vstd::utf8::encode_utf8(#[trigger] p.resources[i].0))
    &&& stored_of(project_entries(p)) is Some
    &&& encodable(stored_of(project_entries(p))->Some_0)
}

impl Cmo3Project {
    /// Creates a project from its UTF-8 `main.xml` document.
    pub fn new(main_xml: Vec<u8>) -> (res: Self)
        ensures
            res@ == (Cmo3View { main_xml: main_xml@, resources: Seq::empty(), key: 42 }),
    {
        let res = Cmo3Project { main_xml, resources: Vec::new(), obfuscation_key: 42 };
        assert(resource_views(res.resources@) =~= Seq::empty());
        res
    }

    /// Sets the signed 32-bit XOR key stored in the CAFF header.
    pub fn set_obfuscation_key(&mut self, key: i32)
        ensures
            final(self)@ == (Cmo3View { key, ..old(self)@ }),
    {
        self.obfuscation_key = key;
    }

    /// Returns the current CAFF obfuscation key.
    pub fn obfuscation_key(&self) -> (res: i32)
        ensures
            res == self@.key,
    {
        self.obfuscation_key
    }

    /// Adds or replaces a binary resource at an archive-relative path.
    pub fn insert_resource(&mut self, path: String, bytes: Vec<u8>)
        ensures
            final(self)@ == (Cmo3View { resources: inserted(old(self)@.resources, path@, bytes@), ..old(self)@ }),
    {
        let ghost rs = resource_views(self.resources@);
        let mut i: usize = 0;
        while i < self.resources.len()
            invariant
                i <= self.resources@.len(),
                rs == resource_views(self.resources@),
                *self == *old(self),
                forall|j: int| 0 <= j < i ==> rs[j].0 != path@,
            decreases self.resources@.len() - i,
        {
            if self.resources[i].path == path {
                proof {
                    let found = i as int;
                    assert(rs[found].0 == path@);
                    let chosen = resource_index(rs, path@)->Some_0;
                    assert(0 <= chosen < rs.len() && rs[chosen].0 == path@);
                    if chosen < found {
                    } else if chosen > found {
                    }
                    assert(resource_index(rs, path@) == Some(found));
                }
                let mut resource = self.resources.remove(i);
                resource.bytes = bytes;
                self.resources.insert(i, resource);
                assert(resource_views(self.resources@) =~= rs.update(i as int, (path@, bytes@)));
                return;
            }
            i = i + 1;
        }
        assert(resource_index(rs, path@) is None);
        self.resources.push(ProjectResource { path, bytes });
        assert(resource_views(self.resources@) =~= rs.push((path@, bytes@)));
    }

    /// Returns the uncompressed `main.xml` bytes.
    pub fn main_xml(&self) -> (res: &[u8])
        ensures
            res@ == self@.main_xml,
    {
        self.main_xml.as_slice()
    }

    /// Validates the project's UTF-8 XML document.
    pub fn validate_xml(&self) -> (res: Result<(), Error>)
        ensures
            res is Ok <==> xml_reads_of(self@.main_xml),
            res matches Err(e) ==> e is InvalidCmo3,
    {
        if xml_reads(self.main_xml.as_slice()) {
            Ok(())
        } else {
            Err(invalid_cmo3("main.xml is invalid"))
        }
    }

    /// Encodes the project as a complete `.cmo3` byte buffer.
    pub fn encode(&self) -> (res: Result<Vec<u8>, Error>)
        ensures
            project_encodable(self@) ==> (res matches Ok(v) && v@ == archive_bytes(
                stored_of(project_entries(self@))->Some_0,
                self@.key,
            )),
            !project_encodable(self@) ==> cmo3_error(res),
            self@.main_xml.len() == 0 ==> (res matches Err(Error::InvalidCmo3(m)) && m@ == "main.xml is empty"@),
    {
        let ghost p = self@;
        if self.main_xml.len() == 0 {
            return Err(invalid_cmo3("main.xml is empty"));
        }
        self.validate_xml()?;
        let mut entries: Vec<ArchiveEntry> = Vec::new();
        let mut i: usize = 0;
        while i < self.resources.len()
            invariant
                i <= self.resources@.len(),
                p == self@,
                p.main_xml.len() > 0,
                entries@.len() == i,
                forall|j: int| 0 <= j < i ==> resource_path_ok(vstd::utf8::encode_utf8(#[trigger] p.resources[j].0)),
                forall|j: int| 0 <= j < i ==> (#[trigger] entries@[j])@ == project_entries(p)[j],
            decreases self.resources@.len() - i,
        {
            let resource = &self.resources[i];
            assert(p.resources[i as int] == (resource.path@, resource.bytes@));
            match validate_resource_path(resource.path.as_str()) {
                Ok(()) => {},
                Err(e) => {
                    assert(!resource_path_ok(vstd::utf8::encode_utf8(p.resources[i as int].0)));
                    return Err(e);
                },
            }
            entries.push(ArchiveEntry {
                path: resource.path.clone(),
                tag: String::new(),
                bytes: vstd::slice::slice_to_vec(resource.bytes.as_slice()),
                compression: Compression::Raw,
            });
            i = i + 1;
        }
        entries.push(ArchiveEntry {
            path: String::from_str("main.xml"),
            tag: String::from_str("main_xml"),
            bytes: vstd::slice::slice_to_vec(self.main_xml.as_slice()),
            compression: Compression::Fast,
        });
        assert(entry_views(entries@) =~= project_entries(p));
        encode_archive(&entries, self.obfuscation_key)
    }
}

/// Storing a resource at a path makes that path hold the new contents
/// and leaves what every other path holds as it was; storing at a path that
/// is already taken adds no resource.
pub proof fn lemma_insert_resource(rs: Seq<(Seq<char>, Seq<u8>)>, path: Seq<char>, bytes: Seq<u8>, other: Seq<char>)
    requires
        other != path,
    ensures
        lookup(inserted(rs, path, bytes), path) == Some(bytes),
        lookup(inserted(rs, path, bytes), other) == lookup(rs, other),
        lookup(rs, path) is Some ==> inserted(rs, path, bytes).len() == rs.len(),
        lookup(rs, path) is None ==> inserted(rs, path, bytes).len() == rs.len() + 1,
{
    let after = inserted(rs, path, bytes);
    lemma_resource_index(rs, path);
    lemma_resource_index(rs, other);
    lemma_resource_index(after, path);
    lemma_resource_index(after, other);
    match resource_index(rs, path) {
        Some(i) => {
            assert(after == rs.update(i, (path, bytes)));
            match resource_index(after, path) {
                Some(a) => {
                    if a < i {
                        assert(after[a] == rs[a]);
                    } else if a > i {
                        assert(after[i].0 == path);
                    }
                },
                None => {
                    assert(after[i].0 == path);
                },
            }
            match (resource_index(rs, other), resource_index(after, other)) {
                (Some(x), Some(y)) => {
                    assert(after[x] == rs[x]);
                    assert(after[y].0 == other);
                    if y != i {
                        assert(rs[y] == after[y]);
                    }
                    if x < y {
                    } else if y < x {
                        assert(rs[y].0 == other);
                    }
                },
                (Some(x), None) => {
                    assert(after[x] == rs[x]);
                },
                (None, Some(y)) => {
                    assert(rs[y] == after[y]);
                },
                (None, None) => {},
            }
        },
        None => {
            assert(after == rs.push((path, bytes)));
            match resource_index(after, path) {
                Some(a) => {
                    if a < rs.len() {
                        assert(after[a] == rs[a]);
                    }
                },
                None => {
                    assert(after[rs.len() as int].0 == path);
                },
            }
            match (resource_index(rs, other), resource_index(after, other)) {
                (Some(x), Some(y)) => {
                    assert(after[x] == rs[x]);
                    if y < rs.len() {
                        assert(rs[y] == after[y]);
                    }
                    if x < y {
                    } else if y < x {
                        assert(rs[y].0 == other);
                    }
                },
                (Some(x), None) => {
                    assert(after[x] == rs[x]);
                },
                (None, Some(y)) => {
                    if y < rs.len() {
                        assert(rs[y] == after[y]);
                    }
                },
                (None, None) => {},
            }
        },
    }
}

/// Storing twice at one path is storing the second contents once.
pub proof fn lemma_insert_twice(rs: Seq<(Seq<char>, Seq<u8>)>, path: Seq<char>, first: Seq<u8>, second: Seq<u8>)
    ensures
        inserted(inserted(rs, path, first), path, second) == inserted(rs, path, second),
{
    let once = inserted(rs, path, first);
    lemma_resource_index(rs, path);
    lemma_resource_index(once, path);
    match resource_index(rs, path) {
        Some(i) => {
            match resource_index(once, path) {
                Some(a) => {
                    if a < i {
                        assert(once[a] == rs[a]);
                    } else if a > i {
                        assert(once[i].0 == path);
                    }
                },
                None => {
                    assert(once[i].0 == path);
                },
            }
            assert(inserted(once, path, second) =~= rs.update(i, (path, second)));
        },
        None => {
            let n = rs.len() as int;
            match resource_index(once, path) {
                Some(a) => {
                    if a < n {
                        assert(once[a] == rs[a]);
                    }
                },
                None => {
                    assert(once[n].0 == path);
                },
            }
            assert(inserted(once, path, second) =~= rs.push((path, second)));
        },
    }
}

/// Inserting at one path twice leaves the project as inserting the second
/// contents alone: the later insert overwrites the earlier one, and
/// repeating an insert changes nothing.
pub proof fn lemma_project_insert_twice(p: Cmo3View, path: Seq<char>, first: Seq<u8>, second: Seq<u8>)
    ensures
        (Cmo3View { resources: inserted((Cmo3View { resources: inserted(p.resources, path, first), ..p }).resources, path, second), ..p })
            == (Cmo3View { resources: inserted(p.resources, path, second), ..p }),
        (Cmo3View { resources: inserted(inserted(p.resources, path, first), path, first), ..p })
            == (Cmo3View { resources: inserted(p.resources, path, first), ..p }),
{
    lemma_insert_twice(p.resources, path, first, second);
    lemma_insert_twice(p.resources, path, first, first);
}

} // verus!
