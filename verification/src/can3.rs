//! Reading, relinking and encoding `.can3` animation projects.

use vstd::prelude::*;
use vstd::string::StringSliceAdditionalSpecFns;
use vstd::utf8::{encode_utf8, valid_utf8};

use crate::caff::{
    archive_bytes, archive_of, decode_archive, encodable, encode_archive, entry_views, stored_of, ArchiveEntry,
    Compression, EntryModel,
};
use crate::cmo3::{main_xml_name, main_xml_tag};
use crate::motion3::MotionSegment;
use crate::error::{can3_error, caff_error, cmo3_error, invalid_can3, Error};
use crate::text::{
    escape_bytes, find_bytes, first_occurrence, lemma_concat_valid, lemma_escape_valid, lemma_first_occurrence, lemma_split_valid,
    utf8_valid, xml_escape,
};

verus! {

/// The start tag of the linked-model resource.
pub open spec fn model_open() -> Seq<u8> {
    seq![60u8, 67, 82, 101, 115, 111, 117, 114, 99, 101, 95, 76, 105, 110, 107, 101, 100, 95, 77, 111, 100, 101, 108, 32, 120, 115, 46, 110, 61, 34, 114, 101, 115, 111, 117, 114, 99, 101, 82, 101, 102, 34, 62]
}

/// Returns [`model_open`] as bytes.
fn model_open_bytes() -> (res: Vec<u8>)
    ensures
        res@ == model_open(),
{
    let a: [u8; 43] = [60, 67, 82, 101, 115, 111, 117, 114, 99, 101, 95, 76, 105, 110, 107, 101, 100, 95, 77, 111, 100, 101, 108, 32, 120, 115, 46, 110, 61, 34, 114, 101, 115, 111, 117, 114, 99, 101, 82, 101, 102, 34, 62];
    let v = vstd::slice::slice_to_vec(a.as_slice());
    assert(v@ =~= model_open());
    v
}

/// The end tag of the linked-model resource.
pub open spec fn model_close() -> Seq<u8> {
    seq![60u8, 47, 67, 82, 101, 115, 111, 117, 114, 99, 101, 95, 76, 105, 110, 107, 101, 100, 95, 77, 111, 100, 101, 108, 62]
}

/// Returns [`model_close`] as bytes.
fn model_close_bytes() -> (res: Vec<u8>)
    ensures
        res@ == model_close(),
{
    let a: [u8; 25] = [60, 47, 67, 82, 101, 115, 111, 117, 114, 99, 101, 95, 76, 105, 110, 107, 101, 100, 95, 77, 111, 100, 101, 108, 62];
    let v = vstd::slice::slice_to_vec(a.as_slice());
    assert(v@ =~= model_close());
    v
}

/// The start tag of the linked model's source path.
pub open spec fn file_open() -> Seq<u8> {
    seq![60u8, 102, 105, 108, 101, 32, 120, 115, 46, 110, 61, 34, 115, 114, 99, 70, 105, 108, 101, 34, 62]
}

/// Returns [`file_open`] as bytes.
fn file_open_bytes() -> (res: Vec<u8>)
    ensures
        res@ == file_open(),
{
    let a: [u8; 21] = [60, 102, 105, 108, 101, 32, 120, 115, 46, 110, 61, 34, 115, 114, 99, 70, 105, 108, 101, 34, 62];
    let v = vstd::slice::slice_to_vec(a.as_slice());
    assert(v@ =~= file_open());
    v
}

/// The end tag of the linked model's source path.
pub open spec fn file_close() -> Seq<u8> {
    seq![60u8, 47, 102, 105, 108, 101, 62]
}

/// Returns [`file_close`] as bytes.
fn file_close_bytes() -> (res: Vec<u8>)
    ensures
        res@ == file_close(),
{
    let a: [u8; 7] = [60, 47, 102, 105, 108, 101, 62];
    let v = vstd::slice::slice_to_vec(a.as_slice());
    assert(v@ =~= file_close());
    v
}

/// The start tag of the linked model's name.
pub open spec fn name_open() -> Seq<u8> {
    seq![60u8, 115, 32, 120, 115, 46, 110, 61, 34, 110, 97, 109, 101, 34, 62]
}

/// Returns [`name_open`] as bytes.
fn name_open_bytes() -> (res: Vec<u8>)
    ensures
        res@ == name_open(),
{
    let a: [u8; 15] = [60, 115, 32, 120, 115, 46, 110, 61, 34, 110, 97, 109, 101, 34, 62];
    let v = vstd::slice::slice_to_vec(a.as_slice());
    assert(v@ =~= name_open());
    v
}

/// The end tag of the linked model's name.
pub open spec fn name_close() -> Seq<u8> {
    seq![60u8, 47, 115, 62]
}

/// Returns [`name_close`] as bytes.
fn name_close_bytes() -> (res: Vec<u8>)
    ensures
        res@ == name_close(),
{
    let a: [u8; 4] = [60, 47, 115, 62];
    let v = vstd::slice::slice_to_vec(a.as_slice());
    assert(v@ =~= name_close());
    v
}

/// The entries of `es` other than `main.xml`, in order.
pub open spec fn non_main(es: Seq<EntryModel>) -> Seq<EntryModel>
    decreases es.len(),
{
    if es.len() == 0 {
        Seq::empty()
    } else if es.last().path == main_xml_name() {
        non_main(es.drop_last())
    } else {
        non_main(es.drop_last()).push(es.last())
    }
}

/// How many entries of `es` are `main.xml`.
pub open spec fn main_count(es: Seq<EntryModel>) -> nat
    decreases es.len(),
{
    if es.len() == 0 {
        0
    } else if es.last().path == main_xml_name() {
        main_count(es.drop_last()) + 1
    } else {
        main_count(es.drop_last())
    }
}

/// The contents of the last `main.xml` entry of `es`.
pub open spec fn main_bytes(es: Seq<EntryModel>) -> Seq<u8>
    decreases es.len(),
{
    if es.len() == 0 {
        Seq::empty()
    } else if es.last().path == main_xml_name() {
        es.last().bytes
    } else {
        main_bytes(es.drop_last())
    }
}

/// The abstract contents of a [`Can3Project`].
pub struct Can3View {
    pub main_xml: Seq<u8>,
    pub resources: Seq<EntryModel>,
    pub key: i32,
}

/// The project held by an archive with key `key` and entries `es`, if it
/// has exactly one `main.xml` entry and that entry is UTF-8.
pub open spec fn project_of(key: i32, es: Seq<EntryModel>) -> Option<Can3View> {
    if main_count(es) == 1 && valid_utf8(main_bytes(es)) {
        Some(Can3View { main_xml: main_bytes(es), resources: non_main(es), key })
    } else {
        None
    }
}

/// `block` with the text of the element that starts with `open` replaced by
/// `value`: the first `open`, then the first `close` after it.
pub open spec fn replaced_text(block: Seq<u8>, open: Seq<u8>, close: Seq<u8>, value: Seq<u8>) -> Option<Seq<u8>> {
    match first_occurrence(block, open, 0) {
        None => None,
        Some(start) => {
            let value_start = start + open.len();
            match first_occurrence(block, close, value_start) {
                None => None,
                Some(value_end) => Some(block.subrange(0, value_start) + value + block.subrange(value_end, block.len() as int)),
            }
        },
    }
}

/// The document `xml` with the linked model's source path set to `path`
/// and its name to `name`, both given as UTF-8 bytes and escaped; only the
/// first linked-model resource is changed.
pub open spec fn relinked(xml: Seq<u8>, path: Seq<u8>, name: Seq<u8>) -> Option<Seq<u8>> {
    match first_occurrence(xml, model_open(), 0) {
        None => None,
        Some(block_start) => match first_occurrence(xml, model_close(), block_start) {
            None => None,
            Some(close_at) => {
                let block_end = close_at + model_close().len();
                let block = xml.subrange(block_start, block_end);
                match replaced_text(block, file_open(), file_close(), escape_bytes(path)) {
                    None => None,
                    Some(with_path) => match replaced_text(with_path, name_open(), name_close(), escape_bytes(name)) {
                        None => None,
                        Some(with_name) => Some(
                            xml.subrange(0, block_start) + with_name + xml.subrange(block_end, xml.len() as int),
                        ),
                    },
                }
            },
        },
    }
}

/// The archive entries of a project: its resources, then `main.xml`,
/// compressed.
pub open spec fn animation_entries(p: Can3View) -> Seq<EntryModel> {
    p.resources.push(
        EntryModel { path: main_xml_name(), tag: main_xml_tag(), bytes: p.main_xml, compression: Compression::Fast },
    )
}

/// The name an animation keyframe gives the interpolation of a motion
/// segment.
pub open spec fn segment_type_name(segment: MotionSegment) -> Seq<char> {
    match segment {
        MotionSegment::Linear { .. } => "LINEAR"@,
        MotionSegment::Bezier { .. } => "BEZIER"@,
        MotionSegment::Stepped { .. } => "STEP"@,
        MotionSegment::InverseStepped { .. } => "INVERSE_STEP"@,
    }
}

/// Returns the keyframe interpolation name of a motion segment.
pub fn segment_type(segment: &MotionSegment) -> (res: &'static str)
    ensures
        res@ == segment_type_name(*segment),
{
    match segment {
        MotionSegment::Linear { .. } => "LINEAR",
        MotionSegment::Bezier { .. } => "BEZIER",
        MotionSegment::Stepped { .. } => "STEP",
        MotionSegment::InverseStepped { .. } => "INVERSE_STEP",
    }
}

/// Replaces the text of the element that starts with `open`.
fn replace_text_element(block: &[u8], open: &[u8], close: &[u8], value: &[u8]) -> (res: Result<Vec<u8>, Error>)
    ensures
        match replaced_text(block@, open@, close@, value@) {
            Some(r) => res matches Ok(v) && v@ == r,
            None => can3_error(res),
        },
{
    proof {
        lemma_first_occurrence(block@, open@, 0);
    }
    let block_len = block.len();
    let start = match find_bytes(block, open, 0) {
        Some(start) => start,
        None => return Err(invalid_can3("element is missing")),
    };
    let value_start = start + open.len();
    proof {
        lemma_first_occurrence(block@, close@, value_start as int);
    }
    let value_end = match find_bytes(block, close, value_start) {
        Some(end) => end,
        None => return Err(invalid_can3("element is incomplete")),
    };
    let mut out = vstd::slice::slice_to_vec(vstd::slice::slice_subrange(block, 0, value_start));
    append(&mut out, value);
    append(&mut out, vstd::slice::slice_subrange(block, value_end, block.len()));
    Ok(out)
}

/// Appends `bytes` to `out`.
fn append(out: &mut Vec<u8>, bytes: &[u8])
    ensures
        final(out)@ == old(out)@ + bytes@,
{
    let mut i: usize = 0;
    while i < bytes.len()
        invariant
            i <= bytes@.len(),
            out@ == old(out)@ + bytes@.subrange(0, i as int),
        decreases bytes@.len() - i,
    {
        out.push(bytes[i]);
        i = i + 1;
        assert(out@ =~= old(out)@ + bytes@.subrange(0, i as int));
    }
    assert(bytes@.subrange(0, bytes@.len() as int) =~= bytes@);
}

/// Sets the linked model's source path and name in `xml`.
///
/// `path` is the path to store and `name` the model name, most often the
/// path's last component.
pub fn relink_document(xml: &[u8], path: &str, name: &str) -> (res: Result<Vec<u8>, Error>)
    ensures
        match relinked(xml@, path.spec_bytes(), name.spec_bytes()) {
            Some(r) => res matches Ok(v) && v@ == r,
            None => can3_error(res),
        },
{
    let open = model_open_bytes();
    let close = model_close_bytes();
    let xml_len = xml.len();
    proof {
        lemma_first_occurrence(xml@, model_open(), 0);
    }
    let block_start = match find_bytes(xml, open.as_slice(), 0) {
        Some(start) => start,
        None => return Err(invalid_can3("linked-model resource is missing")),
    };
    proof {
        lemma_first_occurrence(xml@, model_close(), block_start as int);
    }
    let close_at = match find_bytes(xml, close.as_slice(), block_start) {
        Some(at) => at,
        None => return Err(invalid_can3("linked-model resource is incomplete")),
    };
    let block_end = close_at + close.len();
    let block = vstd::slice::slice_subrange(xml, block_start, block_end);
    let path_text = xml_escape(path);
    let name_text = xml_escape(name);
    let file_open = file_open_bytes();
    let file_close = file_close_bytes();
    let with_path = replace_text_element(block, file_open.as_slice(), file_close.as_slice(), path_text.as_slice())?;
    let name_open = name_open_bytes();
    let name_close = name_close_bytes();
    let with_name = replace_text_element(
        with_path.as_slice(),
        name_open.as_slice(),
        name_close.as_slice(),
        name_text.as_slice(),
    )?;
    let mut out = vstd::slice::slice_to_vec(vstd::slice::slice_subrange(xml, 0, block_start));
    append(&mut out, with_name.as_slice());
    append(&mut out, vstd::slice::slice_subrange(xml, block_end, xml.len()));
    Ok(out)
}

/// Whether `name` can be the final component of `path` on any platform: a
/// nonempty run of the path's characters without a `/`.
pub open spec fn component_of(path: Seq<char>, name: Seq<char>) -> bool {
    &&& name.len() > 0
    &&& !name.contains('/')
    &&& exists|i: int| 0 <= i && i + name.len() <= path.len() && #[trigger] path.subrange(i, i + name.len()) == name
}

/// Whether `name` is a name the linked model may get from `path`: the
/// path's final component, or the whole path when it has none.
pub open spec fn model_name_of(path: Seq<char>, name: Seq<char>) -> bool {
    component_of(path, name) || name == path
}

/// `path` without its trailing `/` characters.
pub open spec fn without_trailing_slashes(path: Seq<char>) -> Seq<char>
    decreases path.len(),
{
    if path.len() > 0 && path.last() == '/' {
        without_trailing_slashes(path.drop_last())
    } else {
        path
    }
}

/// The text of `s` after its last `/`, all of it without one.
pub open spec fn after_last_slash(s: Seq<char>) -> Seq<char>
    decreases s.len(),
{
    if s.len() == 0 {
        s
    } else if s.last() == '/' {
        Seq::empty()
    } else {
        after_last_slash(s.drop_last()).push(s.last())
    }
}

/// The last `/`-separated component of `path`, trailing `/` removed.
pub open spec fn last_segment(path: Seq<char>) -> Seq<char> {
    after_last_slash(without_trailing_slashes(path))
}

/// Whether `path` reads the same on every platform and ends in a name: it
/// holds no `\` and no `:` (so no Windows prefix or separator), does not
/// start with `//`, and its last component is neither empty nor `.` nor
/// `..`.
pub open spec fn plain_path(path: Seq<char>) -> bool {
    &&& !path.contains('\\')
    &&& !path.contains(':')
    &&& !(path.len() >= 2 && path[0] == '/' && path[1] == '/')
    &&& last_segment(path).len() > 0
    &&& last_segment(path) != "."@
    &&& last_segment(path) != ".."@
}

/// Whether `path` ends in the parent component `..`.
pub open spec fn ends_in_parent(path: Seq<char>) -> bool {
    path == ".."@ || (path.len() >= 3 && path.subrange(path.len() - 3, path.len() as int) == "/.."@)
}

/// The name a linked model gets from `path` where every platform agrees:
/// the last component of a plain path, the whole path when it ends in
/// `..`.
pub open spec fn fixed_model_name(path: Seq<char>) -> Option<Seq<char>> {
    if plain_path(path) {
        Some(last_segment(path))
    } else if ends_in_parent(path) {
        Some(path)
    } else {
        None
    }
}

/// The last component of `path`, if it has one.
///
/// Calls `std::path::Path::file_name` and `OsStr::to_string_lossy`.
/// Claimed, from their documentation (the path is valid UTF-8, so nothing
/// is replaced): a component it returns is a nonempty run of the path's
/// own characters that holds no `/`, a separator on every platform; for a
/// plain path it is the text after the last `/` once trailing separators
/// are dropped, as `/` separates components everywhere, repeated and
/// trailing separators are ignored and such a path has no prefix; and a
/// path that terminates in `..` has none. For other paths (with `\`, `:`,
/// a leading `//`, or ending in `.`), which component comes out depends on
/// the platform and is left unsaid.
#[verifier::external_body]
fn final_component(path: &str) -> (res: Option<String>)
    ensures
        res matches Some(name) ==> component_of(path@, name@),
        res matches Some(name) ==> (plain_path(path@) ==> name@ == last_segment(path@)),
        res is None ==> !plain_path(path@),
        res is Some ==> !ends_in_parent(path@),
{
    std::path::Path::new(path).file_name().map(|name| name.to_string_lossy().into_owned())
}

/// Whether a document can be relinked does not depend on the name given.
pub proof fn lemma_relinked_any_name(xml: Seq<u8>, path: Seq<u8>, name: Seq<u8>, other: Seq<u8>)
    ensures
        relinked(xml, path, name) is Some <==> relinked(xml, path, other) is Some,
{
}

/// Whether one call changed a project from `before` to `after`: a failed
/// call left it as it was, a key change changed only the key, and a relink
/// rewrote the animation XML with a path and a name, both text.
pub open spec fn can3_step(before: Can3View, after: Can3View) -> bool {
    ||| after == before
    ||| after == (Can3View { key: after.key, ..before })
    ||| (exists|path: Seq<char>, name: Seq<char>|
        relinked(before.main_xml, encode_utf8(path), encode_utf8(name)) == Some(after.main_xml) && after == (Can3View {
            main_xml: after.main_xml,
            ..before
        }))
}

/// A project whose animation XML is valid UTF-8, as decoding gives it,
/// keeps it valid UTF-8 through any sequence of relinks and key changes.
pub proof fn lemma_steps_keep_utf8(states: Seq<Can3View>)
    requires
        states.len() > 0,
        valid_utf8(states[0].main_xml),
        forall|i: int| 0 <= i < states.len() - 1 ==> #[trigger] can3_step(states[i], states[i + 1]),
    ensures
        forall|i: int| 0 <= i < states.len() ==> valid_utf8(#[trigger] states[i].main_xml),
    decreases states.len(),
{
    if states.len() > 1 {
        let front = states.drop_last();
        assert forall|i: int| 0 <= i < front.len() - 1 implies #[trigger] can3_step(front[i], front[i + 1]) by {
            assert(can3_step(states[i], states[i + 1]));
        }
        lemma_steps_keep_utf8(front);
        let n = states.len() - 1;
        assert(valid_utf8(front[n - 1].main_xml));
        let m = n - 1;
        assert(can3_step(states[m], states[m + 1]));
        assert(m + 1 == n);
        if exists|path: Seq<char>, name: Seq<char>|
            relinked(states[n - 1].main_xml, encode_utf8(path), encode_utf8(name)) == Some(states[n].main_xml) {
            let (path, name) = choose|path: Seq<char>, name: Seq<char>|
                relinked(states[n - 1].main_xml, encode_utf8(path), encode_utf8(name)) == Some(states[n].main_xml);
            vstd::utf8::encode_utf8_valid_utf8(path);
            vstd::utf8::encode_utf8_valid_utf8(name);
            lemma_relinked_utf8(states[n - 1].main_xml, encode_utf8(path), encode_utf8(name));
        }
        assert forall|i: int| 0 <= i < states.len() implies valid_utf8(#[trigger] states[i].main_xml) by {
            if i < n {
                assert(states[i] == front[i]);
            }
        }
    }
}

/// A decoded Cubism `.can3` animation project.
#[derive(Debug, Clone)]
pub struct Can3Project {
    main_xml: Vec<u8>,
    resources: Vec<ArchiveEntry>,
    obfuscation_key: i32,
}

impl View for Can3Project {
    type V = Can3View;

    closed spec fn view(&self) -> Can3View {
        Can3View { main_xml: self.main_xml@, resources: entry_views(self.resources@), key: self.obfuscation_key }
    }
}

/// Returns a copy of an entry.
fn copy_entry(e: &ArchiveEntry) -> (res: ArchiveEntry)
    ensures
        res@ == e@,
{
    ArchiveEntry {
        path: e.path.clone(),
        tag: e.tag.clone(),
        bytes: vstd::slice::slice_to_vec(e.bytes.as_slice()),
        compression: e.compression,
    }
}

impl Can3Project {
    /// Decodes a complete `.can3` CAFF archive.
    ///
    /// Both Cubism's streaming ZIP payloads and regular ZIP payloads are
    /// accepted. Fails when the CAFF archive is malformed, or when it does
    /// not hold exactly one `main.xml` entry in UTF-8.
    pub fn decode(bytes: &[u8]) -> (res: Result<Can3Project, Error>)
        ensures
            match archive_of(bytes@) {
                None => caff_error(res),
                Some((key, es)) => match project_of(key, es) {
                    Some(p) => res matches Ok(v) && v@ == p,
                    None => can3_error(res),
                },
            },
            res matches Ok(v) ==> valid_utf8(v@.main_xml),
    {
        let archive = decode_archive(bytes)?;
        let ghost es = entry_views(archive.entries@);
        assert(archive_of(bytes@) == Some((archive.key, es)));
        let main_name = String::from_str("main.xml");
        let mut main_xml: Option<Vec<u8>> = None;
        let mut resources: Vec<ArchiveEntry> = Vec::new();
        let mut i: usize = 0;
        while i < archive.entries.len()
            invariant
                i <= archive.entries@.len(),
                es == entry_views(archive.entries@),
                archive_of(bytes@) == Some((archive.key, es)),
                main_name@ == main_xml_name(),
                entry_views(resources@) == non_main(es.subrange(0, i as int)),
                main_count(es.subrange(0, i as int)) <= 1,
                main_xml is None <==> main_count(es.subrange(0, i as int)) == 0,
                main_xml matches Some(m) ==> m@ == main_bytes(es.subrange(0, i as int)),
            decreases archive.entries@.len() - i,
        {
            let entry = &archive.entries[i];
            let ghost before = es.subrange(0, i as int);
            let ghost after = es.subrange(0, i + 1);
            assert(after.drop_last() =~= before);
            assert(after.last() == entry@);
            if entry.path == main_name {
                if main_xml.is_some() {
                    proof {
                        assert(main_count(after) == main_count(before) + 1);
                        lemma_main_count_grows(es, i + 1);
                        assert(project_of(archive.key, es) is None);
                    }
                    return Err(invalid_can3("multiple main.xml entries"));
                }
                main_xml = Some(vstd::slice::slice_to_vec(entry.bytes.as_slice()));
            } else {
                resources.push(copy_entry(entry));
                assert(entry_views(resources@) =~= non_main(after));
            }
            i = i + 1;
        }
        assert(es.subrange(0, archive.entries@.len() as int) =~= es);
        let main_xml = match main_xml {
            Some(m) => m,
            None => return Err(invalid_can3("main.xml is missing")),
        };
        if !utf8_valid(main_xml.as_slice()) {
            return Err(invalid_can3("main.xml is not UTF-8"));
        }
        Ok(Can3Project { main_xml, resources, obfuscation_key: archive.key })
    }

    /// Returns the decoded animation XML.
    pub fn main_xml(&self) -> (res: &[u8])
        ensures
            res@ == self@.main_xml,
    {
        self.main_xml.as_slice()
    }

    /// Returns the signed CAFF XOR key used when encoding.
    pub fn obfuscation_key(&self) -> (res: i32)
        ensures
            res == self@.key,
    {
        self.obfuscation_key
    }

    /// Sets the signed CAFF XOR key used when encoding.
    pub fn set_obfuscation_key(&mut self, key: i32)
        ensures
            final(self)@ == (Can3View { key, ..old(self)@ }),
            can3_step(old(self)@, final(self)@),
    {
        self.obfuscation_key = key;
    }

    /// Changes the linked `.cmo3` model path stored by the animation project.
    ///
    /// Relative paths are resolved by Cubism from the animation project's
    /// directory. The model's name becomes the path's last component, or the
    /// whole path when it has none. Fails when the path is empty, the
    /// document is not UTF-8 or it has no complete linked-model resource.
    pub fn relink_model(&mut self, path: &str) -> (res: Result<(), Error>)
        ensures
            res is Ok <==> path@.len() > 0 && valid_utf8(old(self)@.main_xml) && relinked(
                old(self)@.main_xml,
                path.spec_bytes(),
                path.spec_bytes(),
            ) is Some,
            res is Err ==> can3_error(res) && final(self)@ == old(self)@,
            res is Ok ==> exists|name: Seq<char>|
                model_name_of(path@, name) && (fixed_model_name(path@) matches Some(fixed) ==> name == fixed) && relinked(
                    old(self)@.main_xml,
                    path.spec_bytes(),
                    encode_utf8(name),
                ) == Some(final(self)@.main_xml),
            res is Ok ==> final(self)@ == (Can3View { main_xml: final(self)@.main_xml, ..old(self)@ }),
            valid_utf8(old(self)@.main_xml) ==> valid_utf8(final(self)@.main_xml),
            can3_step(old(self)@, final(self)@),
    {
        proof {
            assert(path@.len() > 0 ==> path.spec_bytes().len() > 0);
        }
        if path.as_bytes().len() == 0 {
            return Err(invalid_can3("linked model path is empty"));
        }
        let name = match final_component(path) {
            Some(name) => name,
            None => String::from_str(path),
        };
        if !utf8_valid(self.main_xml.as_slice()) {
            return Err(invalid_can3("main.xml is not UTF-8"));
        }
        proof {
            lemma_relinked_any_name(self.main_xml@, path.spec_bytes(), encode_utf8(name@), path.spec_bytes());
        }
        let ghost before = self.main_xml@;
        let updated = relink_document(self.main_xml.as_slice(), path, name.as_str())?;
        assert(model_name_of(path@, name@));
        assert(fixed_model_name(path@) matches Some(fixed) ==> name@ == fixed);
        assert(relinked(before, path.spec_bytes(), encode_utf8(name@)) == Some(updated@));
        proof {
            vstd::utf8::encode_utf8_valid_utf8(path@);
            vstd::utf8::encode_utf8_valid_utf8(name@);
            lemma_relinked_utf8(before, path.spec_bytes(), encode_utf8(name@));
        }
        self.main_xml = updated;
        Ok(())
    }

    /// Encodes the project as a complete `.can3` byte buffer.
    pub fn encode(&self) -> (res: Result<Vec<u8>, Error>)
        ensures
            match stored_of(animation_entries(self@)) {
                Some(st) => if encodable(st) {
                    res matches Ok(v) && v@ == archive_bytes(st, self@.key)
                } else {
                    cmo3_error(res)
                },
                None => cmo3_error(res),
            },
    {
        let mut entries: Vec<ArchiveEntry> = Vec::new();
        let mut i: usize = 0;
        while i < self.resources.len()
            invariant
                i <= self.resources@.len(),
                entries@.len() == i,
                forall|j: int| 0 <= j < i ==> (#[trigger] entries@[j])@ == self.resources@[j]@,
            decreases self.resources@.len() - i,
        {
            entries.push(copy_entry(&self.resources[i]));
            i = i + 1;
        }
        entries.push(ArchiveEntry {
            path: String::from_str("main.xml"),
            tag: String::from_str("main_xml"),
            bytes: vstd::slice::slice_to_vec(self.main_xml.as_slice()),
            compression: Compression::Fast,
        });
        assert(entry_views(entries@) =~= animation_entries(self@));
        encode_archive(&entries, self.obfuscation_key)
    }
}

/// The count of `main.xml` entries of a prefix is at most that of the whole.
proof fn lemma_main_count_grows(es: Seq<EntryModel>, n: int)
    requires
        0 <= n <= es.len(),
    ensures
        main_count(es.subrange(0, n)) <= main_count(es),
    decreases es.len(),
{
    if n < es.len() {
        assert(es.drop_last().subrange(0, n) =~= es.subrange(0, n));
        lemma_main_count_grows(es.drop_last(), n);
    } else {
        assert(es.subrange(0, n) =~= es);
    }
}

/// Replacing the text of an element of valid UTF-8 by valid UTF-8 gives
/// valid UTF-8, when the opening tag ends and the closing tag starts with
/// a byte below `0x80`.
proof fn lemma_replaced_valid(block: Seq<u8>, open: Seq<u8>, close: Seq<u8>, value: Seq<u8>)
    requires
        valid_utf8(block),
        valid_utf8(value),
        open.len() > 0,
        open[open.len() - 1] < 0x80,
        close.len() > 0,
        close[0] < 0x80,
    ensures
        replaced_text(block, open, close, value) matches Some(r) ==> valid_utf8(r),
{
    lemma_first_occurrence(block, open, 0);
    if let Some(start) = first_occurrence(block, open, 0) {
        let value_start = start + open.len();
        lemma_first_occurrence(block, close, value_start);
        if let Some(value_end) = first_occurrence(block, close, value_start) {
            assert(block[value_start - 1] == block.subrange(start, value_start)[open.len() - 1]);
            assert(block[value_end] == block.subrange(value_end, value_end + close.len())[0]);
            lemma_split_valid(block, value_start);
            lemma_split_valid(block, value_end);
            lemma_concat_valid(block.subrange(0, value_start), value);
            lemma_concat_valid(block.subrange(0, value_start) + value, block.subrange(value_end, block.len() as int));
        }
    }
}

/// Relinking a document that is valid UTF-8 with a path and a name that
/// are valid UTF-8 gives a document that is valid UTF-8.
pub proof fn lemma_relinked_utf8(xml: Seq<u8>, path: Seq<u8>, name: Seq<u8>)
    requires
        valid_utf8(xml),
        valid_utf8(path),
        valid_utf8(name),
    ensures
        relinked(xml, path, name) matches Some(r) ==> valid_utf8(r),
{
    lemma_first_occurrence(xml, model_open(), 0);
    if let Some(block_start) = first_occurrence(xml, model_open(), 0) {
        lemma_first_occurrence(xml, model_close(), block_start);
        if let Some(close_at) = first_occurrence(xml, model_close(), block_start) {
            let block_end = close_at + model_close().len();
            let len = xml.len() as int;
            assert(xml[block_start] == xml.subrange(block_start, block_start + model_open().len())[0]);
            lemma_split_valid(xml, block_start);
            let tail = xml.subrange(block_start, len);
            assert(tail[block_end - block_start - 1] == xml.subrange(close_at, block_end)[model_close().len() - 1]);
            lemma_split_valid(tail, block_end - block_start);
            let block = xml.subrange(block_start, block_end);
            assert(tail.subrange(0, block_end - block_start) =~= block);
            assert(tail.subrange(block_end - block_start, tail.len() as int) =~= xml.subrange(block_end, len));
            lemma_escape_valid(path);
            lemma_escape_valid(name);
            lemma_replaced_valid(block, file_open(), file_close(), escape_bytes(path));
            if let Some(with_path) = replaced_text(block, file_open(), file_close(), escape_bytes(path)) {
                lemma_replaced_valid(with_path, name_open(), name_close(), escape_bytes(name));
                if let Some(with_name) = replaced_text(with_path, name_open(), name_close(), escape_bytes(name)) {
                    lemma_concat_valid(xml.subrange(0, block_start), with_name);
                    lemma_concat_valid(xml.subrange(0, block_start) + with_name, xml.subrange(block_end, len));
                }
            }
        }
    }
}

/// Relinking changes nothing before the linked-model resource and nothing
/// after it.
pub proof fn lemma_relink_keeps_outside(xml: Seq<u8>, path: Seq<u8>, name: Seq<u8>)
    ensures
        relinked(xml, path, name) matches Some(r) ==> {
            let block_start = first_occurrence(xml, model_open(), 0)->Some_0;
            let block_end = first_occurrence(xml, model_close(), block_start)->Some_0 + model_close().len();
            &&& r.subrange(0, block_start) == xml.subrange(0, block_start)
            &&& r.subrange(r.len() - (xml.len() - block_end), r.len() as int) == xml.subrange(
                block_end,
                xml.len() as int,
            )
        },
{
    lemma_first_occurrence(xml, model_open(), 0);
    if let Some(r) = relinked(xml, path, name) {
        let block_start = first_occurrence(xml, model_open(), 0)->Some_0;
        lemma_first_occurrence(xml, model_close(), block_start);
        let block_end = first_occurrence(xml, model_close(), block_start)->Some_0 + model_close().len();
        let block = xml.subrange(block_start, block_end);
        let with_path = replaced_text(block, file_open(), file_close(), escape_bytes(path))->Some_0;
        let with_name = replaced_text(with_path, name_open(), name_close(), escape_bytes(name))->Some_0;
        assert(r == xml.subrange(0, block_start) + with_name + xml.subrange(block_end, xml.len() as int));
        assert(r.subrange(0, block_start) =~= xml.subrange(0, block_start));
        assert(r.subrange(r.len() - (xml.len() - block_end), r.len() as int) =~= xml.subrange(
            block_end,
            xml.len() as int,
        ));
    }
}

} // verus!
