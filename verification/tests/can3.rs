use moc2cmo::caff::{decode_archive, encode_archive, ArchiveEntry, Compression};
use moc2cmo::can3::{relink_document, segment_type, Can3Project};
use moc2cmo::motion3::{MotionPoint, MotionSegment};
use moc2cmo::Error;

const XML: &str = "<root><CResource_Linked_Model xs.n=\"resourceRef\"><file xs.n=\"srcFile\">old/path.cmo3</file><s xs.n=\"name\">old</s></CResource_Linked_Model><tail/></root>";

fn entry(path: &str, tag: &str, bytes: &[u8], compression: Compression) -> ArchiveEntry {
    ArchiveEntry {
        path: path.to_string(),
        tag: tag.to_string(),
        bytes: bytes.to_vec(),
        compression,
    }
}

fn archive(entries: Vec<ArchiveEntry>, key: i32) -> Vec<u8> {
    encode_archive(&entries, key).unwrap()
}

fn sample() -> Vec<u8> {
    archive(
        vec![
            entry("motion.bin", "motion", &[5, 6, 7], Compression::Raw),
            entry("main.xml", "main_xml", XML.as_bytes(), Compression::Fast),
        ],
        -3,
    )
}

#[test]
fn decode_reads_the_document_and_key() {
    let project = Can3Project::decode(&sample()).unwrap();
    assert_eq!(project.main_xml(), XML.as_bytes());
    assert_eq!(project.obfuscation_key(), -3);
}

#[test]
fn encode_then_decode_keeps_the_project() {
    let mut project = Can3Project::decode(&sample()).unwrap();
    project.set_obfuscation_key(11);
    let bytes = project.encode().unwrap();
    let archive = decode_archive(&bytes).unwrap();
    assert_eq!(archive.key, 11);
    assert_eq!(archive.entries.len(), 2);
    assert_eq!(archive.entries[0].path, "motion.bin");
    assert_eq!(archive.entries[0].tag, "motion");
    assert_eq!(archive.entries[0].bytes, vec![5, 6, 7]);
    assert_eq!(archive.entries[1].path, "main.xml");
    let again = Can3Project::decode(&bytes).unwrap();
    assert_eq!(again.main_xml(), XML.as_bytes());
    assert_eq!(again.obfuscation_key(), 11);
}

#[test]
fn decode_rejects_a_missing_document() {
    let bytes = archive(vec![entry("motion.bin", "", &[1], Compression::Raw)], 0);
    assert!(matches!(Can3Project::decode(&bytes), Err(Error::InvalidCan3(_))));
}

#[test]
fn decode_rejects_two_documents() {
    let bytes = archive(
        vec![
            entry("main.xml", "", b"<a/>", Compression::Raw),
            entry("main.xml", "", b"<b/>", Compression::Raw),
        ],
        0,
    );
    assert!(matches!(Can3Project::decode(&bytes), Err(Error::InvalidCan3(_))));
}

#[test]
fn decode_rejects_a_document_that_is_not_utf8() {
    let bytes = archive(vec![entry("main.xml", "", &[0xff, 0xfe], Compression::Raw)], 0);
    assert!(matches!(Can3Project::decode(&bytes), Err(Error::InvalidCan3(_))));
}

#[test]
fn decode_reports_a_malformed_archive() {
    assert!(matches!(Can3Project::decode(b"not an archive"), Err(Error::InvalidCaff(_))));
}

#[test]
fn relink_model_sets_path_and_name() {
    let mut project = Can3Project::decode(&sample()).unwrap();
    project.relink_model("models/a&b.cmo3").unwrap();
    let expected = "<root><CResource_Linked_Model xs.n=\"resourceRef\"><file xs.n=\"srcFile\">models/a&amp;b.cmo3</file><s xs.n=\"name\">a&amp;b.cmo3</s></CResource_Linked_Model><tail/></root>";
    assert_eq!(std::str::from_utf8(project.main_xml()).unwrap(), expected);
}

#[test]
fn relinking_twice_equals_relinking_once() {
    let mut once = Can3Project::decode(&sample()).unwrap();
    once.relink_model("models/hero.cmo3").unwrap();
    let mut twice = once.clone();
    twice.relink_model("models/hero.cmo3").unwrap();
    assert_eq!(twice.main_xml(), once.main_xml());
    assert_eq!(twice.obfuscation_key(), once.obfuscation_key());
    assert!(std::str::from_utf8(twice.main_xml()).is_ok());
}

#[test]
fn relink_model_rejects_an_empty_path() {
    let mut project = Can3Project::decode(&sample()).unwrap();
    assert!(matches!(project.relink_model(""), Err(Error::InvalidCan3(_))));
    assert_eq!(project.main_xml(), XML.as_bytes());
}

#[test]
fn relink_document_uses_the_given_name() {
    let out = relink_document(XML.as_bytes(), "x.cmo3", "Model <1>").unwrap();
    let expected = "<root><CResource_Linked_Model xs.n=\"resourceRef\"><file xs.n=\"srcFile\">x.cmo3</file><s xs.n=\"name\">Model &lt;1&gt;</s></CResource_Linked_Model><tail/></root>";
    assert_eq!(String::from_utf8(out).unwrap(), expected);
}

#[test]
fn relink_document_needs_the_linked_model_block() {
    let missing = relink_document(b"<root/>", "a", "a");
    assert!(matches!(missing, Err(Error::InvalidCan3(_))));
    let incomplete = relink_document(b"<CResource_Linked_Model xs.n=\"resourceRef\"><file xs.n=\"srcFile\">a</file>", "a", "a");
    assert!(matches!(incomplete, Err(Error::InvalidCan3(_))));
    let no_name = relink_document(
        b"<CResource_Linked_Model xs.n=\"resourceRef\"><file xs.n=\"srcFile\">a</file></CResource_Linked_Model>",
        "a",
        "a",
    );
    assert!(matches!(no_name, Err(Error::InvalidCan3(_))));
}

#[test]
fn segment_types_name_each_interpolation() {
    let a = MotionPoint { time_bits: 0, value_bits: 0 };
    let b = MotionPoint { time_bits: 1.0f32.to_bits(), value_bits: 1.0f32.to_bits() };
    assert_eq!(segment_type(&MotionSegment::Linear { start: a, end: b }), "LINEAR");
    assert_eq!(segment_type(&MotionSegment::Bezier { start: a, control1: a, control2: b, end: b }), "BEZIER");
    assert_eq!(segment_type(&MotionSegment::Stepped { start: a, end: b }), "STEP");
    assert_eq!(segment_type(&MotionSegment::InverseStepped { start: a, end: b }), "INVERSE_STEP");
}

#[test]
fn relink_model_names_the_last_component_without_trailing_slashes() {
    let mut project = Can3Project::decode(&sample()).unwrap();
    project.relink_model("models/hero.cmo3/").unwrap();
    let expected = "<root><CResource_Linked_Model xs.n=\"resourceRef\"><file xs.n=\"srcFile\">models/hero.cmo3/</file><s xs.n=\"name\">hero.cmo3</s></CResource_Linked_Model><tail/></root>";
    assert_eq!(std::str::from_utf8(project.main_xml()).unwrap(), expected);
}

#[test]
fn relink_model_names_a_parent_path_by_its_whole_text() {
    let mut project = Can3Project::decode(&sample()).unwrap();
    project.relink_model("a/..").unwrap();
    let expected = "<root><CResource_Linked_Model xs.n=\"resourceRef\"><file xs.n=\"srcFile\">a/..</file><s xs.n=\"name\">a/..</s></CResource_Linked_Model><tail/></root>";
    assert_eq!(std::str::from_utf8(project.main_xml()).unwrap(), expected);
}
