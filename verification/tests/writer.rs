use moc2cmo::decompiler::{attr, grid_access_key, write_grid, GridPlan, RefId, XmlWriter};
use moc2cmo::moc3::Moc3Model;
use moc2cmo::Error;
use moc2cmo::model3::{referenced_json_paths, Model3Expression, Model3References};

#[test]
fn xml_writer_indents_nested_elements() {
    let mut xml = XmlWriter::new();
    xml.declaration("<?xml version=\"1.0\" encoding=\"UTF-8\"?>");
    xml.start("root", &[attr("fileFormatVersion", "402030000".to_string())]);
    xml.text("s", &[attr("xs.n", "name".to_string())], "A & B");
    xml.empty("CColor", &[attr("xs.n", "background".to_string()), attr("v", "a\"b".to_string())]);
    xml.end("root");
    let text = String::from_utf8(xml.finish()).unwrap();
    assert_eq!(
        text,
        "<?xml version=\"1.0\" encoding=\"UTF-8\"?>\n<root fileFormatVersion=\"402030000\">\n  <s xs.n=\"name\">A &amp; B</s>\n  <CColor xs.n=\"background\" v=\"a&quot;b\" />\n</root>\n"
    );
}

#[test]
fn access_keys_are_mixed_radix_digits() {
    let counts = [2usize, 3, 0, 2];
    let mut seen = Vec::new();
    for form in 0..12 {
        let keys = grid_access_key(form, &counts);
        assert_eq!(keys.len(), 4);
        assert_eq!(keys[2], 0);
        assert_eq!(keys[0] + 2 * keys[1] + 6 * keys[3], form);
        seen.push(keys);
    }
    assert_eq!(grid_access_key(5, &counts), vec![1, 2, 0, 0]);
    assert_eq!(grid_access_key(7, &counts), vec![1, 0, 0, 1]);
    seen.dedup();
    assert_eq!(seen.len(), 12);
}

#[test]
fn access_keys_of_an_empty_grid() {
    assert!(grid_access_key(3, &[]).is_empty());
}

#[test]
fn referenced_json_lists_optional_files_then_expressions() {
    let references = Model3References {
        moc: "a.moc3".into(),
        textures: vec!["t.png".into()],
        physics: Some("a.physics3.json".into()),
        pose: None,
        user_data: Some("a.userdata3.json".into()),
        display_info: Some("a.cdi3.json".into()),
        expressions: vec![
            Model3Expression { name: "smile".into(), file: "e/smile.exp3.json".into() },
            Model3Expression { name: "sad".into(), file: "e/sad.exp3.json".into() },
        ],
        motions: vec![],
    };
    assert_eq!(
        referenced_json_paths(&references),
        vec!["a.physics3.json", "a.userdata3.json", "a.cdi3.json", "e/smile.exp3.json", "e/sad.exp3.json"]
    );
}

#[test]
fn grid_of_an_object_without_bindings() {
    let bytes = {
        let counts_at = 0x2c0usize;
        let canvas_at = counts_at + 4 * 23;
        let mut bytes = vec![0u8; canvas_at + 24];
        bytes[0..4].copy_from_slice(b"MOC3");
        bytes[4] = 1;
        bytes[0x40..0x44].copy_from_slice(&(counts_at as u32).to_le_bytes());
        bytes[0x44..0x48].copy_from_slice(&(canvas_at as u32).to_le_bytes());
        bytes
    };
    let model = Moc3Model::parse(&bytes).unwrap();
    let plan = GridPlan { grid: RefId { index: 4 }, bindings: vec![], forms: vec![RefId { index: 5 }] };
    let mut xml = XmlWriter::new();
    write_grid(&mut xml, &plan, &model, None, &[], "part", &vec![]).unwrap();
    let text = String::from_utf8(xml.finish()).unwrap();
    let expected = [
        "<KeyformGridSource xs.id=\"#4\" xs.idx=\"4\">\n",
        "  <array_list xs.n=\"keyformsOnGrid\" count=\"1\">\n",
        "    <KeyformOnGrid>\n",
        "      <KeyformGridAccessKey xs.n=\"accessKey\">\n",
        "        <array_list xs.n=\"_keyOnParameterList\" count=\"0\">\n",
        "        </array_list>\n",
        "      </KeyformGridAccessKey>\n",
        "      <CFormGuid xs.n=\"keyformGuid\" xs.ref=\"#5\" />\n",
        "    </KeyformOnGrid>\n",
        "  </array_list>\n",
        "  <array_list xs.n=\"keyformBindings\" count=\"0\">\n",
        "  </array_list>\n",
        "</KeyformGridSource>\n",
    ]
    .concat();
    assert_eq!(text, expected);
}

#[test]
fn grid_with_a_missing_band_writes_nothing() {
    let counts_at = 0x2c0usize;
    let canvas_at = counts_at + 4 * 23;
    let mut bytes = vec![0u8; canvas_at + 24];
    bytes[0..4].copy_from_slice(b"MOC3");
    bytes[4] = 1;
    bytes[0x40..0x44].copy_from_slice(&(counts_at as u32).to_le_bytes());
    bytes[0x44..0x48].copy_from_slice(&(canvas_at as u32).to_le_bytes());
    let model = Moc3Model::parse(&bytes).unwrap();
    let plan = GridPlan { grid: RefId { index: 0 }, bindings: vec![], forms: vec![RefId { index: 1 }] };
    let mut xml = XmlWriter::new();
    let result = write_grid(&mut xml, &plan, &model, Some(0), &[], "part", &vec![]);
    assert!(matches!(result, Err(Error::InvalidCmo3(_))));
    assert!(xml.finish().is_empty());
}

#[test]
fn color_composition_follows_the_flags() {
    use_color_composition();
}

fn use_color_composition() {
    assert_eq!(moc2cmo::decompiler::color_composition(0), "NORMAL");
    assert_eq!(moc2cmo::decompiler::color_composition(1), "ADD");
    assert_eq!(moc2cmo::decompiler::color_composition(2), "MULTIPLY");
    assert_eq!(moc2cmo::decompiler::color_composition(3), "ADD");
    assert_eq!(moc2cmo::decompiler::color_composition(4), "NORMAL");
}

#[test]
fn triangle_edges_are_sorted_and_distinct() {
    let edges = moc2cmo::decompiler::triangle_edges(&[0, 1, 2, 2, 1, 3, 9]);
    assert_eq!(edges, vec![0, 1, 0, 2, 1, 2, 1, 3, 2, 3]);
    assert!(moc2cmo::decompiler::triangle_edges(&[4, 5]).is_empty());
    assert_eq!(moc2cmo::decompiler::triangle_edges(&[7, 7, 7]), vec![7, 7]);
}
