use moc2cmo::caff::decode_archive;
use moc2cmo::decompiler::deformers::{complete_rotation_forms, complete_warp_forms, ColorTexts, RotationFormTexts, WarpFormTexts};
use moc2cmo::decompiler::document::DocumentTexts;
use moc2cmo::decompiler::generate::{DocumentHeader, ModelTexts};
use moc2cmo::decompiler::meshes::{complete_mesh_forms, MeshFormTexts};
use moc2cmo::decompiler::{decompile, plan_fits, Decompiler, ProjectPlan, Texture};
use moc2cmo::moc3::Moc3Model;
use moc2cmo::Error;

fn png_header(width: u32, height: u32) -> Vec<u8> {
    let mut bytes = vec![137, 80, 78, 71, 13, 10, 26, 10, 0, 0, 0, 13, b'I', b'H', b'D', b'R'];
    bytes.extend_from_slice(&width.to_be_bytes());
    bytes.extend_from_slice(&height.to_be_bytes());
    bytes.extend_from_slice(&[8, 6, 0, 0, 0]);
    bytes
}

fn empty_model() -> Moc3Model {
    let counts_at = 0x2c0usize;
    let canvas_at = counts_at + 4 * 23;
    let mut bytes = vec![0u8; canvas_at + 24];
    bytes[0..4].copy_from_slice(b"MOC3");
    bytes[4] = 1;
    bytes[0x40..0x44].copy_from_slice(&(counts_at as u32).to_le_bytes());
    bytes[0x44..0x48].copy_from_slice(&(canvas_at as u32).to_le_bytes());
    Moc3Model::parse(&bytes).unwrap()
}

#[test]
fn texture_from_png_reads_the_dimensions() {
    let texture = Texture::from_png(png_header(640, 480)).unwrap();
    assert_eq!(texture.width(), 640);
    assert_eq!(texture.height(), 480);
    assert_eq!(texture.png(), png_header(640, 480).as_slice());
}

#[test]
fn texture_from_png_rejects_a_bad_signature() {
    let mut bytes = png_header(1, 1);
    bytes[1] = b'Q';
    assert!(matches!(Texture::from_png(bytes), Err(Error::InvalidCmo3(_))));
    assert!(matches!(Texture::from_png(vec![137, 80, 78, 71]), Err(Error::InvalidCmo3(_))));
}

#[test]
fn texture_from_png_rejects_a_missing_header_chunk() {
    let mut bytes = png_header(1, 1);
    bytes[12] = b'X';
    assert!(matches!(Texture::from_png(bytes), Err(Error::InvalidCmo3(_))));
}

#[test]
fn texture_from_png_rejects_zero_dimensions() {
    assert!(matches!(Texture::from_png(png_header(0, 5)), Err(Error::InvalidCmo3(_))));
    assert!(matches!(Texture::from_png(png_header(5, 0)), Err(Error::InvalidCmo3(_))));
}

#[test]
fn transparent_placeholder_is_one_pixel() {
    let texture = Texture::transparent();
    assert_eq!((texture.width(), texture.height()), (1, 1));
    let again = Texture::from_png(texture.png().to_vec()).unwrap();
    assert_eq!((again.width(), again.height()), (1, 1));
}

#[test]
fn new_decompiler_has_default_options() {
    let decompiler = Decompiler::new();
    assert_eq!(decompiler.model_name(), "Decompiled Model");
}

#[test]
fn extra_pages_are_kept() {
    let mut decompiler = Decompiler::new();
    decompiler.set_textures(vec![Texture::from_png(png_header(2, 3)).unwrap()]);
    decompiler.push_texture(Texture::from_png(png_header(4, 5)).unwrap());
    let pages = decompiler.pages(&empty_model());
    assert_eq!(pages.len(), 2);
    assert_eq!(pages[0].width(), 2);
    assert_eq!(pages[1].height(), 5);
}

#[test]
fn assembled_project_holds_pages_and_runtime_data() {
    let mut decompiler = Decompiler::new();
    decompiler.set_model_name("Model".to_string());
    decompiler.set_obfuscation_key(9);
    decompiler.set_textures(vec![
        Texture::from_png(png_header(2, 3)).unwrap(),
        Texture::from_png(png_header(4, 5)).unwrap(),
    ]);
    let project = decompiler.assemble_project(&empty_model(), b"<root/>".to_vec(), b"{}".to_vec());
    assert_eq!(project.obfuscation_key(), 9);
    let archive = decode_archive(&project.encode().unwrap()).unwrap();
    let paths: Vec<&str> = archive.entries.iter().map(|e| e.path.as_str()).collect();
    assert_eq!(paths, vec!["imageFileBuf_0.png", "imageFileBuf_1.png", "moc2cmo.model.json", "main.xml"]);
    assert_eq!(archive.entries[1].bytes, png_header(4, 5));
    assert_eq!(archive.entries[2].bytes, b"{}".to_vec());
}

#[test]
fn plan_numbers_objects_in_allocation_order() {
    let plan = ProjectPlan::new(&empty_model(), 2);
    assert_eq!(plan.parameter_group_guid.index(), 0);
    assert_eq!(plan.layer_group.index(), 7);
    assert_eq!(plan.filters.selector_definition.index(), 8);
    assert_eq!(plan.filters.value_ids[7].index(), 17);
    assert_eq!(plan.filters.values[8].index(), 26);
    assert!(plan.parameters.is_empty());
    assert_eq!(plan.pages.len(), 2);
    assert_eq!(plan.pages[0].model_image_guid.index(), 27);
    assert_eq!(plan.pages[0].texture.index(), 37);
    assert_eq!(plan.pages[1].model_image_guid.index(), 38);
    assert_eq!(plan.root_part.guid.index(), 49);
    assert_eq!(plan.root_part.grid.grid.index(), 51);
    assert!(plan.root_part.grid.bindings.is_empty());
    assert_eq!(plan.root_part.grid.forms.len(), 1);
    assert_eq!(plan.root_part.grid.forms[0].index(), 52);
    assert_eq!(plan.image_group.index(), 53);
    assert_eq!(plan.image_group.value(), "#53");
}

fn texts() -> ModelTexts {
    ModelTexts {
        document: DocumentTexts {
            width: "1".to_string(),
            height: "1".to_string(),
            parameter_values: Vec::new(),
            pixels_per_unit: "1".to_string(),
            origin_x: "0".to_string(),
            origin_y: "0".to_string(),
        },
        part_keys: Vec::new(),
        part_orders: Vec::new(),
        deformer_keys: Vec::new(),
        warps: Vec::new(),
        rotations: Vec::new(),
        base_angles: Vec::new(),
        mesh_keys: Vec::new(),
        meshes: Vec::new(),
        glue_keys: Vec::new(),
        glue_weights: Vec::new(),
        glue_intensities: Vec::new(),
    }
}

fn header() -> DocumentHeader {
    DocumentHeader {
        versions: vec![("CModelSource".to_string(), "3".to_string())],
        imports: vec!["com.live2d".to_string()],
        group_uuid: "group".to_string(),
        deformer_uuid: "deformer".to_string(),
    }
}

#[test]
fn an_empty_model_fits_its_plan() {
    assert!(plan_fits(&empty_model(), 0));
    assert!(plan_fits(&empty_model(), 3));
    assert!(!plan_fits(&empty_model(), usize::MAX / 16));
}

#[test]
fn decompiled_project_holds_document_pages_and_runtime_data() {
    let mut decompiler = Decompiler::new();
    decompiler.set_model_name("Model".to_string());
    decompiler.set_obfuscation_key(9);
    decompiler.push_texture(Texture::from_png(png_header(2, 3)).unwrap());
    let model = empty_model();
    let plan = ProjectPlan::new(&model, 1);
    let project = decompiler.decompile_project(&model, &plan, b"{}".to_vec(), &texts(), &header()).unwrap();
    assert_eq!(project.obfuscation_key(), 9);
    let main = std::str::from_utf8(project.main_xml()).unwrap();
    assert!(main.starts_with(
        "<?xml version=\"1.0\" encoding=\"UTF-8\"?>\n<?version CModelSource:3?>\n<?import com.live2d?>\n<root fileFormatVersion=\"402030000\">\n"
    ));
    assert!(main.ends_with("</root>\n"));
    assert!(main.contains(">Model<"));
    assert!(main.contains("group"));
    assert!(main.contains("deformer"));
    let archive = decode_archive(&project.encode().unwrap()).unwrap();
    let paths: Vec<&str> = archive.entries.iter().map(|e| e.path.as_str()).collect();
    assert_eq!(paths, vec!["imageFileBuf_0.png", "moc2cmo.model.json", "main.xml"]);
    assert_eq!(archive.entries[2].bytes, project.main_xml().to_vec());
}

#[test]
fn decompiling_with_defaults_encodes_the_project() {
    let model = empty_model();
    let plan = ProjectPlan::new(&model, 0);
    let bytes = decompile(&model, &plan, b"{}".to_vec(), &texts(), &header()).unwrap();
    let archive = decode_archive(&bytes).unwrap();
    assert_eq!(archive.key, 42);
    let paths: Vec<&str> = archive.entries.iter().map(|e| e.path.as_str()).collect();
    assert_eq!(paths, vec!["moc2cmo.model.json", "main.xml"]);
}

fn form(draw_order: &str) -> MeshFormTexts {
    let color = |v: &str| ColorTexts { red: v.to_string(), green: v.to_string(), blue: v.to_string() };
    MeshFormTexts {
        draw_order: draw_order.to_string(),
        opacity: "0.5".to_string(),
        multiply: color("0.25"),
        screen: color("0.75"),
        positions: "1 2".to_string(),
    }
}

#[test]
fn forms_without_a_keyform_get_the_default_texts() {
    let mut forms = vec![form("7")];
    complete_mesh_forms(&mut forms, 3);
    assert_eq!(forms.len(), 3);
    assert_eq!(forms[0].draw_order, "7");
    assert_eq!(forms[0].positions, "1 2");
    for f in &forms[1..] {
        assert_eq!(f.draw_order, "500");
        assert_eq!(f.opacity, "1");
        assert_eq!((f.multiply.red.as_str(), f.multiply.green.as_str(), f.multiply.blue.as_str()), ("1", "1", "1"));
        assert_eq!((f.screen.red.as_str(), f.screen.green.as_str(), f.screen.blue.as_str()), ("0", "0", "0"));
        assert_eq!(f.positions, "");
    }
}

#[test]
fn keyforms_beyond_the_grid_are_dropped() {
    let mut forms = vec![form("1"), form("2")];
    complete_mesh_forms(&mut forms, 1);
    assert_eq!(forms.len(), 1);
    assert_eq!(forms[0].draw_order, "1");
}

#[test]
fn warp_forms_without_a_keyform_are_opaque_and_neutral() {
    let color = |v: &str| ColorTexts { red: v.to_string(), green: v.to_string(), blue: v.to_string() };
    let mut forms = vec![WarpFormTexts {
        opacity: "0.5".to_string(),
        multiply: color("0.25"),
        screen: color("0.75"),
        positions: "1 2".to_string(),
    }];
    complete_warp_forms(&mut forms, 2);
    assert_eq!(forms.len(), 2);
    assert_eq!(forms[0].opacity, "0.5");
    assert_eq!(forms[1].opacity, "1");
    assert_eq!(forms[1].multiply.green, "1");
    assert_eq!(forms[1].screen.blue, "0");
    assert_eq!(forms[1].positions, "");
}

#[test]
fn rotation_forms_without_a_keyform_keep_the_identity() {
    let mut forms: Vec<RotationFormTexts> = Vec::new();
    complete_rotation_forms(&mut forms, 1);
    assert_eq!(forms.len(), 1);
    let f = &forms[0];
    assert_eq!((f.angle.as_str(), f.origin_x.as_str(), f.origin_y.as_str()), ("0", "0", "0"));
    assert_eq!((f.scale.as_str(), f.opacity.as_str()), ("1", "1"));
    assert_eq!((f.multiply.red.as_str(), f.screen.red.as_str()), ("1", "0"));
}
