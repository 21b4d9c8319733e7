use moc2cmo::caff::{decode_archive, Compression};
use moc2cmo::cmo3::{validate_resource_path, Cmo3Project};
use moc2cmo::Error;

#[test]
fn new_project_uses_key_42() {
    let project = Cmo3Project::new(b"<root/>".to_vec());
    assert_eq!(project.obfuscation_key(), 42);
    assert_eq!(project.main_xml(), b"<root/>");
}

#[test]
fn set_obfuscation_key_changes_the_key() {
    let mut project = Cmo3Project::new(b"<root/>".to_vec());
    project.set_obfuscation_key(-5);
    assert_eq!(project.obfuscation_key(), -5);
}

#[test]
fn encode_stores_resources_then_main_xml() {
    let mut project = Cmo3Project::new(b"<root><a/></root>".to_vec());
    project.insert_resource("tex/a.png".to_string(), vec![1, 2]);
    project.insert_resource("tex/b.png".to_string(), vec![3]);
    project.set_obfuscation_key(7);
    let bytes = project.encode().unwrap();
    let archive = decode_archive(&bytes).unwrap();
    assert_eq!(archive.key, 7);
    assert_eq!(archive.entries.len(), 3);
    assert_eq!(archive.entries[0].path, "tex/a.png");
    assert_eq!(archive.entries[0].bytes, vec![1, 2]);
    assert_eq!(archive.entries[0].compression, Compression::Raw);
    assert_eq!(archive.entries[0].tag, "");
    assert_eq!(archive.entries[1].path, "tex/b.png");
    assert_eq!(archive.entries[2].path, "main.xml");
    assert_eq!(archive.entries[2].tag, "main_xml");
    assert_eq!(archive.entries[2].compression, Compression::Fast);
    assert_eq!(archive.entries[2].bytes, b"<root><a/></root>".to_vec());
}

#[test]
fn insert_resource_replaces_an_existing_path() {
    let mut project = Cmo3Project::new(b"<root/>".to_vec());
    project.insert_resource("a.bin".to_string(), vec![1]);
    project.insert_resource("b.bin".to_string(), vec![2]);
    project.insert_resource("a.bin".to_string(), vec![9, 9]);
    let archive = decode_archive(&project.encode().unwrap()).unwrap();
    assert_eq!(archive.entries.len(), 3);
    assert_eq!(archive.entries[0].path, "a.bin");
    assert_eq!(archive.entries[0].bytes, vec![9, 9]);
    assert_eq!(archive.entries[1].path, "b.bin");
    assert_eq!(archive.entries[1].bytes, vec![2]);
}

#[test]
fn encode_rejects_an_empty_document() {
    let project = Cmo3Project::new(Vec::new());
    assert!(matches!(project.encode(), Err(Error::InvalidCmo3(_))));
}

#[test]
fn encode_rejects_malformed_xml() {
    let project = Cmo3Project::new(b"<a><b></a>".to_vec());
    assert!(matches!(project.validate_xml(), Err(Error::InvalidCmo3(_))));
    assert!(matches!(project.encode(), Err(Error::InvalidCmo3(_))));
}

#[test]
fn validate_xml_accepts_well_formed_documents() {
    let project = Cmo3Project::new(b"<?xml version=\"1.0\"?><a x=\"1\"><b/></a>".to_vec());
    assert!(project.validate_xml().is_ok());
}

#[test]
fn encode_rejects_a_bad_resource_path() {
    let mut project = Cmo3Project::new(b"<root/>".to_vec());
    project.insert_resource("../escape.png".to_string(), vec![1]);
    assert!(matches!(project.encode(), Err(Error::InvalidCmo3(_))));
}

#[test]
fn resource_paths_that_are_refused() {
    for path in ["", "/abs.png", "\\abs.png", "a/../b", "..", "a\\..\\b", "x/..", "main.xml", "main\\..\\main.xml"] {
        assert!(
            matches!(validate_resource_path(path), Err(Error::InvalidCmo3(_))),
            "{path:?} should be refused"
        );
    }
}

#[test]
fn resource_paths_that_are_accepted() {
    for path in ["a.png", "textures/a.png", "a..b", "...", ".hidden", "dir/main.xml", "Main.xml"] {
        assert!(validate_resource_path(path).is_ok(), "{path:?} should be accepted");
    }
}

#[test]
fn encode_names_an_empty_document() {
    let project = Cmo3Project::new(Vec::new());
    match project.encode() {
        Err(Error::InvalidCmo3(message)) => assert_eq!(message, "main.xml is empty"),
        other => panic!("unexpected {:?}", other.map(|bytes| bytes.len())),
    }
}

#[test]
fn inserting_twice_keeps_the_later_bytes() {
    let mut twice = Cmo3Project::new(b"<root/>".to_vec());
    twice.insert_resource("a.png".to_string(), vec![1]);
    twice.insert_resource("a.png".to_string(), vec![2]);
    let mut once = Cmo3Project::new(b"<root/>".to_vec());
    once.insert_resource("a.png".to_string(), vec![2]);
    assert_eq!(twice.encode().unwrap(), once.encode().unwrap());
    let archive = decode_archive(&twice.encode().unwrap()).unwrap();
    assert_eq!(archive.entries.len(), 2);
    assert_eq!(archive.entries[0].bytes, vec![2]);
}
