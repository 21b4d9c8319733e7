use moc2cmo::moc3::{Deformer, Endianness, Moc3Model, Moc3Version};
use moc2cmo::decompiler::meshes::{write_mesh_source, MeshFormTexts, MeshTexts};
use moc2cmo::decompiler::{write_grid, GridPlan, ProjectPlan, RefId, XmlWriter};
use moc2cmo::Error;

fn put_u32(bytes: &mut [u8], at: usize, value: u32, big: bool) {
    let raw = if big { value.to_be_bytes() } else { value.to_le_bytes() };
    bytes[at..at + 4].copy_from_slice(&raw);
}

/// A model with no entities: a header, the offset table, the count section
/// at 0x2c0 and the canvas after it.
fn empty_model(version: u8, big: bool) -> Vec<u8> {
    let words = match version {
        1 | 2 | 3 => 23,
        4 => 32,
        _ => 35,
    };
    let counts_at = 0x2c0;
    let canvas_at = counts_at + 4 * words;
    let len = canvas_at + 24;
    let mut bytes = vec![0u8; len];
    bytes[0..4].copy_from_slice(b"MOC3");
    bytes[4] = version;
    bytes[5] = if big { 1 } else { 0 };
    put_u32(&mut bytes, 0x40, counts_at as u32, big);
    put_u32(&mut bytes, 0x44, canvas_at as u32, big);
    put_u32(&mut bytes, canvas_at, 100.0f32.to_bits(), big);
    put_u32(&mut bytes, canvas_at + 4, 0.5f32.to_bits(), big);
    put_u32(&mut bytes, canvas_at + 8, 0.25f32.to_bits(), big);
    put_u32(&mut bytes, canvas_at + 12, 1024.0f32.to_bits(), big);
    put_u32(&mut bytes, canvas_at + 16, 2048.0f32.to_bits(), big);
    bytes[canvas_at + 20] = 1;
    bytes
}

#[test]
fn parse_reads_an_empty_little_endian_model() {
    let model = Moc3Model::parse(&empty_model(1, false)).unwrap();
    assert_eq!(model.version(), Moc3Version::V3_0);
    assert_eq!(model.endianness(), Endianness::Little);
    let canvas = model.canvas();
    assert_eq!(f32::from_bits(canvas.pixels_per_unit_bits()), 100.0);
    assert_eq!(canvas.origin_bits(), (0.5f32.to_bits(), 0.25f32.to_bits()));
    assert_eq!(canvas.size_bits(), (1024.0f32.to_bits(), 2048.0f32.to_bits()));
    assert!(canvas.reverse_y());
    assert!(model.parameters().is_empty());
    assert!(model.parts().is_empty());
    assert!(model.art_meshes().is_empty());
    assert!(model.deformers().is_empty());
    assert!(model.glues().is_empty());
    assert!(model.binding_bands().is_empty());
}

#[test]
fn parse_reads_a_big_endian_model() {
    let model = Moc3Model::parse(&empty_model(5, true)).unwrap();
    assert_eq!(model.version(), Moc3Version::V5_0);
    assert_eq!(model.endianness(), Endianness::Big);
    assert_eq!(f32::from_bits(model.canvas().size_bits().1), 2048.0);
}

#[test]
fn parse_rejects_a_short_header() {
    assert!(matches!(Moc3Model::parse(b"MOC3"), Err(Error::InvalidMoc3(_))));
}

#[test]
fn parse_rejects_a_wrong_magic() {
    let mut bytes = empty_model(1, false);
    bytes[3] = b'4';
    assert!(matches!(Moc3Model::parse(&bytes), Err(Error::InvalidMoc3(_))));
}

#[test]
fn parse_rejects_an_unknown_version() {
    let mut bytes = empty_model(1, false);
    bytes[4] = 9;
    assert!(matches!(Moc3Model::parse(&bytes), Err(Error::InvalidMoc3(_))));
    assert!(matches!(Moc3Version::from_raw(0), Err(Error::InvalidMoc3(_))));
    assert_eq!(Moc3Version::from_raw(6).unwrap(), Moc3Version::V5_3);
}

#[test]
fn parse_rejects_an_unknown_byte_order() {
    let mut bytes = empty_model(1, false);
    bytes[5] = 2;
    assert!(matches!(Moc3Model::parse(&bytes), Err(Error::InvalidMoc3(_))));
}

#[test]
fn parse_rejects_a_missing_count_section() {
    let mut bytes = empty_model(1, false);
    put_u32(&mut bytes, 0x40, 0, false);
    assert!(matches!(Moc3Model::parse(&bytes), Err(Error::InvalidMoc3(_))));
}

#[test]
fn parse_rejects_a_misaligned_offset() {
    let mut bytes = empty_model(1, false);
    put_u32(&mut bytes, 0x48, 0x2c1, false);
    assert!(matches!(Moc3Model::parse(&bytes), Err(Error::InvalidMoc3(_))));
}

#[test]
fn parse_rejects_a_truncated_canvas() {
    let bytes = empty_model(1, false);
    let cut = bytes.len() - 4;
    let mut short = bytes[..cut].to_vec();
    put_u32(&mut short, 0x44, (0x2c0 + 4 * 23) as u32, false);
    assert!(matches!(Moc3Model::parse(&short), Err(Error::InvalidMoc3(_))));
}

#[test]
fn count_words_depend_on_the_version() {
    assert_eq!(Moc3Version::V3_0.count_words(), 23);
    assert_eq!(Moc3Version::V4_2.count_words(), 32);
    assert_eq!(Moc3Version::V5_3.count_words(), 35);
}

fn put_slot(bytes: &mut Vec<u8>, slot: usize, words: &[u32]) {
    let at = bytes.len();
    put_u32(bytes, 0x40 + 4 * slot, at as u32, false);
    for word in words {
        bytes.extend_from_slice(&word.to_le_bytes());
    }
}

fn put_id(bytes: &mut Vec<u8>, slot: usize, id: &str) {
    let at = bytes.len();
    put_u32(bytes, 0x40 + 4 * slot, at as u32, false);
    let mut raw = [0u8; 64];
    raw[..id.len()].copy_from_slice(id.as_bytes());
    bytes.extend_from_slice(&raw);
}

/// A version 3.0 model with one parameter, one binding band of one binding
/// with two keys, and one root part with a single keyform.
fn model_with_a_part() -> Vec<u8> {
    let mut bytes = empty_model(1, false);
    let counts_at = 0x2c0;
    let count = |bytes: &mut Vec<u8>, index: usize, value: u32| put_u32(bytes, counts_at + 4 * index, value, false);
    count(&mut bytes, 0, 1); // parts
    count(&mut bytes, 5, 1); // parameters
    count(&mut bytes, 6, 1); // part keyforms
    count(&mut bytes, 11, 1); // parameter binding indices
    count(&mut bytes, 12, 1); // keyform bindings
    count(&mut bytes, 13, 1); // parameter bindings
    count(&mut bytes, 14, 2); // keys
    put_id(&mut bytes, 3, "PartHead");
    put_id(&mut bytes, 50, "ParamAngleX");
    put_slot(&mut bytes, 51, &[30.0f32.to_bits()]);
    put_slot(&mut bytes, 52, &[(-30.0f32).to_bits()]);
    put_slot(&mut bytes, 53, &[0.0f32.to_bits()]);
    put_slot(&mut bytes, 56, &[0]);
    put_slot(&mut bytes, 72, &[0]);
    put_slot(&mut bytes, 73, &[0]);
    put_slot(&mut bytes, 74, &[1]);
    put_slot(&mut bytes, 75, &[0]);
    put_slot(&mut bytes, 76, &[2]);
    put_slot(&mut bytes, 77, &[(-30.0f32).to_bits(), 30.0f32.to_bits()]);
    put_slot(&mut bytes, 4, &[0]);
    put_slot(&mut bytes, 5, &[0]);
    put_slot(&mut bytes, 6, &[1]);
    put_slot(&mut bytes, 9, &[u32::MAX]);
    put_slot(&mut bytes, 58, &[500.0f32.to_bits()]);
    put_slot(&mut bytes, 59, &[1.0f32.to_bits()]);
    bytes
}

#[test]
fn parse_reads_parameters_bindings_and_parts() {
    let model = Moc3Model::parse(&model_with_a_part()).unwrap();
    let parameters = model.parameters();
    assert_eq!(parameters.len(), 1);
    assert_eq!(parameters[0].id(), "ParamAngleX");
    assert_eq!(f32::from_bits(parameters[0].minimum_bits()), -30.0);
    assert_eq!(f32::from_bits(parameters[0].maximum_bits()), 30.0);
    assert_eq!(f32::from_bits(parameters[0].default_bits()), 0.0);

    let bands = model.binding_bands();
    assert_eq!(bands.len(), 1);
    let bindings = bands[0].bindings();
    assert_eq!(bindings.len(), 1);
    assert_eq!(bindings[0].parameter_index(), 0);
    assert_eq!(bindings[0].key_bits(), &[(-30.0f32).to_bits(), 30.0f32.to_bits()]);

    let parts = model.parts();
    assert_eq!(parts.len(), 1);
    assert_eq!(parts[0].id(), "PartHead");
    assert_eq!(parts[0].parent_part_index(), None);
    assert_eq!(parts[0].binding_band_index(), Some(0));
    assert_eq!(parts[0].keyforms().len(), 1);
    assert_eq!(f32::from_bits(parts[0].keyforms()[0].opacity), 1.0);
    assert_eq!(f32::from_bits(parts[0].keyforms()[0].draw_order), 500.0);
}

#[test]
fn parse_rejects_a_part_keyform_range_outside_its_section() {
    let mut bytes = model_with_a_part();
    let at = u32::from_le_bytes(bytes[0x40 + 4 * 6..0x40 + 4 * 6 + 4].try_into().unwrap()) as usize;
    put_u32(&mut bytes, at, 2, false);
    assert!(matches!(Moc3Model::parse(&bytes), Err(Error::InvalidMoc3(_))));
}

#[test]
fn parse_rejects_a_part_parent_outside_the_table() {
    let mut bytes = model_with_a_part();
    let at = u32::from_le_bytes(bytes[0x40 + 4 * 9..0x40 + 4 * 9 + 4].try_into().unwrap()) as usize;
    put_u32(&mut bytes, at, 1, false);
    assert!(matches!(Moc3Model::parse(&bytes), Err(Error::InvalidMoc3(_))));
}

fn bits(values: &[f32]) -> Vec<u32> {
    values.iter().map(|v| v.to_bits()).collect()
}

/// The model above with one triangle ArtMesh under the part, drawn from
/// texture 0, inverted-mask flag set and one keyform.
fn model_with_a_mesh() -> Vec<u8> {
    let mut bytes = model_with_a_part();
    let counts_at = 0x2c0;
    let count = |bytes: &mut Vec<u8>, index: usize, value: u32| put_u32(bytes, counts_at + 4 * index, value, false);
    count(&mut bytes, 4, 1); // art meshes
    count(&mut bytes, 9, 1); // art mesh keyforms
    count(&mut bytes, 10, 6); // keyform positions
    count(&mut bytes, 15, 6); // uvs
    count(&mut bytes, 16, 3); // position indices
    put_id(&mut bytes, 33, "ArtMesh0");
    put_slot(&mut bytes, 35, &[0]);
    put_slot(&mut bytes, 36, &[1]);
    put_slot(&mut bytes, 39, &[0]);
    put_slot(&mut bytes, 41, &[0]);
    put_slot(&mut bytes, 42, &[8]);
    put_slot(&mut bytes, 43, &[3]);
    put_slot(&mut bytes, 44, &[0]);
    put_slot(&mut bytes, 45, &[0]);
    put_slot(&mut bytes, 46, &[3]);
    put_slot(&mut bytes, 47, &[0]);
    put_slot(&mut bytes, 48, &[0]);
    put_slot(&mut bytes, 68, &bits(&[0.5]));
    put_slot(&mut bytes, 69, &bits(&[400.0]));
    put_slot(&mut bytes, 70, &[0]);
    put_slot(&mut bytes, 71, &bits(&[0.0, 0.0, 1.0, 0.0, 0.0, 1.0]));
    put_slot(&mut bytes, 78, &bits(&[0.0, 0.0, 0.5, 0.0, 0.0, 0.5]));
    put_slot(&mut bytes, 79, &[1 << 16, 2]);
    bytes
}

#[test]
fn parse_reads_an_art_mesh() {
    let model = Moc3Model::parse(&model_with_a_mesh()).unwrap();
    let meshes = model.art_meshes();
    assert_eq!(meshes.len(), 1);
    let mesh = &meshes[0];
    assert_eq!(mesh.id(), "ArtMesh0");
    assert_eq!(mesh.texture_index(), 0);
    assert_eq!(mesh.drawable_flags(), 8);
    assert_eq!(mesh.parent_part_index(), Some(0));
    assert_eq!(mesh.parent_deformer_index(), None);
    assert_eq!(mesh.binding_band_index(), None);
    assert_eq!(mesh.triangle_indices(), &[0, 1, 2]);
    assert!(mesh.mask_drawable_indices().is_empty());
    let uvs: Vec<(f32, f32)> = mesh.uv_bits().iter().map(|(u, v)| (f32::from_bits(*u), f32::from_bits(*v))).collect();
    assert_eq!(uvs, vec![(0.0, 0.0), (0.5, 0.0), (0.0, 0.5)]);
    assert_eq!(mesh.keyforms().len(), 1);
    let keyform = &mesh.keyforms()[0];
    assert_eq!(f32::from_bits(keyform.opacity), 0.5);
    assert_eq!(f32::from_bits(keyform.draw_order), 400.0);
    assert_eq!(keyform.positions.len(), 3);
    assert_eq!(f32::from_bits(keyform.positions[1].0), 1.0);
    assert_eq!(f32::from_bits(keyform.multiply_color.red), 1.0);
    assert_eq!(keyform.screen_color.green, 0);
}

#[test]
fn parse_rejects_a_negative_triangle_index() {
    let mut bytes = model_with_a_mesh();
    let at = u32::from_le_bytes(bytes[0x40 + 4 * 79..0x40 + 4 * 79 + 4].try_into().unwrap()) as usize;
    put_u32(&mut bytes, at, 0xffff_0000, false);
    assert!(matches!(Moc3Model::parse(&bytes), Err(Error::InvalidMoc3(_))));
}

#[test]
fn parse_rejects_uvs_outside_their_section() {
    let mut bytes = model_with_a_mesh();
    let at = u32::from_le_bytes(bytes[0x40 + 4 * 44..0x40 + 4 * 44 + 4].try_into().unwrap()) as usize;
    put_u32(&mut bytes, at, 2, false);
    assert!(matches!(Moc3Model::parse(&bytes), Err(Error::InvalidMoc3(_))));
}

/// The model above with a warp deformer at the top and a rotation deformer
/// under it, each with one keyform.
fn model_with_deformers() -> Vec<u8> {
    let mut bytes = model_with_a_mesh();
    let counts_at = 0x2c0;
    let count = |bytes: &mut Vec<u8>, index: usize, value: u32| put_u32(bytes, counts_at + 4 * index, value, false);
    count(&mut bytes, 1, 2); // deformers
    count(&mut bytes, 2, 1); // warp deformers
    count(&mut bytes, 3, 1); // rotation deformers
    count(&mut bytes, 7, 1); // warp keyforms
    count(&mut bytes, 8, 1); // rotation keyforms
    put_slot(&mut bytes, 16, &[u32::MAX, 0]);
    put_slot(&mut bytes, 17, &[0, 1]);
    put_slot(&mut bytes, 18, &[0, 0]);
    put_slot(&mut bytes, 19, &[u32::MAX]);
    put_slot(&mut bytes, 20, &[0]);
    put_slot(&mut bytes, 21, &[1]);
    put_slot(&mut bytes, 22, &[2]);
    put_slot(&mut bytes, 23, &[1]);
    put_slot(&mut bytes, 24, &[1]);
    put_slot(&mut bytes, 25, &[0]);
    put_slot(&mut bytes, 26, &[0]);
    put_slot(&mut bytes, 27, &[1]);
    put_slot(&mut bytes, 28, &bits(&[45.0]));
    put_slot(&mut bytes, 60, &[0]);
    put_slot(&mut bytes, 61, &bits(&[1.0]));
    put_slot(&mut bytes, 62, &bits(&[30.0]));
    put_slot(&mut bytes, 63, &bits(&[1.0]));
    put_slot(&mut bytes, 64, &bits(&[2.0]));
    put_slot(&mut bytes, 65, &bits(&[1.5]));
    put_slot(&mut bytes, 66, &[1]);
    put_slot(&mut bytes, 67, &[0]);
    bytes
}

#[test]
fn parse_reads_warp_and_rotation_deformers() {
    let model = Moc3Model::parse(&model_with_deformers()).unwrap();
    let deformers = model.deformers();
    assert_eq!(deformers.len(), 2);
    match &deformers[0] {
        Deformer::Warp(warp) => {
            assert_eq!(warp.parent_deformer_index, None);
            assert_eq!(warp.binding_band_index, None);
            assert_eq!((warp.rows, warp.columns), (1, 1));
            assert_eq!(warp.keyforms.len(), 1);
            assert_eq!(warp.keyforms[0].positions, vec![(0, 0), (1.0f32.to_bits(), 0)]);
            assert_eq!(f32::from_bits(warp.keyforms[0].opacity), 1.0);
        }
        other => panic!("expected a warp deformer, got {other:?}"),
    }
    match &deformers[1] {
        Deformer::Rotation(rotation) => {
            assert_eq!(rotation.parent_deformer_index, Some(0));
            assert_eq!(rotation.binding_band_index, Some(0));
            assert_eq!(f32::from_bits(rotation.base_angle_degrees), 45.0);
            let keyform = &rotation.keyforms[0];
            assert_eq!(f32::from_bits(keyform.angle_degrees), 30.0);
            assert_eq!(keyform.origin, (1.0f32.to_bits(), 2.0f32.to_bits()));
            assert_eq!(f32::from_bits(keyform.scale), 1.5);
            assert_eq!(keyform.reflected, (true, false));
            assert_eq!(f32::from_bits(keyform.multiply_color.red), 1.0);
        }
        other => panic!("expected a rotation deformer, got {other:?}"),
    }
    assert_eq!(deformers[1].parent_deformer_index(), Some(0));
    assert_eq!(deformers[0].keyform_count(), 1);
}

#[test]
fn parse_rejects_an_unknown_deformer_kind() {
    let mut bytes = model_with_deformers();
    let at = u32::from_le_bytes(bytes[0x40 + 4 * 17..0x40 + 4 * 17 + 4].try_into().unwrap()) as usize;
    put_u32(&mut bytes, at + 4, 2, false);
    assert!(matches!(Moc3Model::parse(&bytes), Err(Error::InvalidMoc3(_))));
}

/// The model above with one glue joining the mesh to itself through two
/// vertex pairs.
fn model_with_a_glue() -> Vec<u8> {
    let mut bytes = model_with_a_mesh();
    let counts_at = 0x2c0;
    let count = |bytes: &mut Vec<u8>, index: usize, value: u32| put_u32(bytes, counts_at + 4 * index, value, false);
    count(&mut bytes, 20, 1); // glues
    count(&mut bytes, 21, 4); // glue vertices
    count(&mut bytes, 22, 1); // glue keyforms
    put_slot(&mut bytes, 91, &[u32::MAX]);
    put_slot(&mut bytes, 92, &[0]);
    put_slot(&mut bytes, 93, &[1]);
    put_slot(&mut bytes, 94, &[0]);
    put_slot(&mut bytes, 95, &[0]);
    put_slot(&mut bytes, 96, &[0]);
    put_slot(&mut bytes, 97, &[4]);
    put_slot(&mut bytes, 98, &bits(&[0.25, 0.75, 0.5, 0.5]));
    put_slot(&mut bytes, 99, &[1 << 16, 2]);
    put_slot(&mut bytes, 100, &bits(&[0.75]));
    bytes
}

#[test]
fn parse_reads_a_glue() {
    let model = Moc3Model::parse(&model_with_a_glue()).unwrap();
    let glues = model.glues();
    assert_eq!(glues.len(), 1);
    let glue = &glues[0];
    assert_eq!(glue.art_mesh_indices(), (0, 0));
    assert_eq!(glue.binding_band_index, None);
    let a: Vec<usize> = glue.vertices_a.iter().map(|v| v.vertex_index).collect();
    let b: Vec<usize> = glue.vertices_b.iter().map(|v| v.vertex_index).collect();
    assert_eq!((a, b), (vec![0, 2], vec![1, 0]));
    assert_eq!(f32::from_bits(glue.vertices_b[0].weight), 0.75);
    assert_eq!(glue.intensities, vec![0.75f32.to_bits()]);
}

#[test]
fn parse_rejects_an_unpaired_glue_vertex() {
    let mut bytes = model_with_a_glue();
    let at = u32::from_le_bytes(bytes[0x40 + 4 * 97..0x40 + 4 * 97 + 4].try_into().unwrap()) as usize;
    put_u32(&mut bytes, at, 3, false);
    assert!(matches!(Moc3Model::parse(&bytes), Err(Error::InvalidMoc3(_))));
}

#[test]
fn grid_with_an_unplanned_parameter_fails_after_the_grid() {
    let model = Moc3Model::parse(&model_with_a_part()).unwrap();
    let plan = GridPlan {
        grid: RefId { index: 0 },
        bindings: vec![RefId { index: 1 }],
        forms: vec![RefId { index: 2 }, RefId { index: 3 }],
    };
    let mut xml = XmlWriter::new();
    let texts = vec![vec!["-30.0".to_string(), "30.0".to_string()]];
    let result = write_grid(&mut xml, &plan, &model, Some(0), &[], "part", &texts);
    assert!(matches!(result, Err(Error::InvalidCmo3(_))));
    let text = String::from_utf8(xml.finish()).unwrap();
    assert!(text.starts_with("<KeyformGridSource xs.id=\"#0\" xs.idx=\"0\">\n"));
    assert!(text.ends_with("</KeyformGridSource>\n"));
    assert!(!text.contains("<KeyformBindingSource xs.id"));
}

fn colors(value: &str) -> moc2cmo::decompiler::deformers::ColorTexts {
    moc2cmo::decompiler::deformers::ColorTexts { red: value.into(), green: value.into(), blue: value.into() }
}

#[test]
fn mesh_source_writes_drawable_keyforms_and_state() {
    let model = Moc3Model::parse(&model_with_a_mesh()).unwrap();
    let plan = ProjectPlan::new(&model, 1);
    let mesh = &model.art_meshes()[0];
    let form = |order: &str, positions: &str| MeshFormTexts {
        draw_order: order.into(),
        opacity: "0.5".into(),
        multiply: colors("1"),
        screen: colors("0"),
        positions: positions.into(),
    };
    let texts = MeshTexts {
        points: "0 0 1 0 0 1".into(),
        uvs: "0 0 0.5 0 0 0.5".into(),
        forms: (0..plan.meshes[0].grid.forms.len()).map(|i| if i == 0 { form("400", "0 0 1 0 0 1") } else { form("500", "") }).collect(),
    };
    let mut xml = XmlWriter::new();
    write_mesh_source(&mut xml, &plan, &plan.meshes[0], mesh, &plan.pages[0], &texts);
    let text = String::from_utf8(xml.finish()).unwrap();
    let source = plan.meshes[0].source.index;
    assert!(text.starts_with(&format!("<CArtMeshSource xs.id=\"#{source}\" xs.idx=\"{source}\">\n  <ACDrawableSource xs.n=\"super\">\n")));
    assert!(text.contains("<s xs.n=\"localName\">ArtMesh0</s>"));
    assert!(text.contains(&format!("<CPartGuid xs.n=\"parentGuid\" xs.ref=\"#{}\" />", plan.parts[0].guid.index)));
    assert!(text.contains("<carray_list xs.n=\"_extensions\" count=\"3\">"));
    assert!(text.contains("<float-array xs.n=\"point\" count=\"6\">0 0 1 0 0 1</float-array>"));
    assert!(text.contains("<short-array xs.n=\"edge\" count=\"6\">0 1 0 2 1 2</short-array>"));
    assert!(text.contains("<CDrawableId xs.n=\"id\" idstr=\"ArtMesh0\" />"));
    assert!(text.contains(&format!("<CDeformerGuid xs.n=\"targetDeformerGuid\" xs.ref=\"#{}\" />", plan.root_deformer_guid.index)));
    assert!(text.contains("<carray_list xs.n=\"clipGuidList\" count=\"0\">"));
    assert!(text.contains("<b xs.n=\"invertClippingMask\">true</b>"));
    assert!(text.contains("<int-array xs.n=\"indices\" count=\"3\">0 1 2</int-array>"));
    assert!(text.contains("<i xs.n=\"drawOrder\">400</i>"));
    assert!(text.contains("<float-array xs.n=\"positions\" count=\"6\">0 0 1 0 0 1</float-array>"));
    assert!(text.contains("<float-array xs.n=\"uvs\" count=\"6\">0 0 0.5 0 0 0.5</float-array>"));
    assert!(text.contains(&format!("<GTexture2D xs.n=\"texture\" xs.ref=\"#{}\" />", plan.pages[0].texture.index)));
    assert!(text.contains("<ColorComposition xs.n=\"colorComposition\" v=\"NORMAL\" />"));
    assert!(text.contains("<b xs.n=\"culling\">true</b>"));
    assert!(text.contains("<TextureState xs.n=\"textureState\" v=\"TEXTURE_ATLAS\" />"));
    assert!(text.ends_with("  <s xs.n=\"userData\" />\n</CArtMeshSource>\n"));
}
