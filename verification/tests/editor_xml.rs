use moc2cmo::decompiler::document::{write_main, DocumentTexts};
use moc2cmo::decompiler::filters::{env_connector, write_filter_page, write_globals};
use moc2cmo::decompiler::images::{
    affine, write_layer, write_layer_group_with, write_layer_with, write_layered_image, write_manager,
    write_model_image_group, write_texture,
};
use moc2cmo::decompiler::parts::{write_form_header, write_parts};
use moc2cmo::decompiler::{ProjectPlan, RefId, Texture, XmlWriter};
use moc2cmo::moc3::Moc3Model;

fn empty_model() -> Moc3Model {
    let counts_at = 0x2c0usize;
    let canvas_at = counts_at + 4 * 23;
    let mut bytes = vec![0u8; canvas_at + 24];
    bytes[0..4].copy_from_slice(b"MOC3");
    bytes[4] = 1;
    bytes[0x40..0x44].copy_from_slice(&(counts_at as u32).to_le_bytes());
    bytes[0x44..0x48].copy_from_slice(&(canvas_at as u32).to_le_bytes());
    Moc3Model::parse(&bytes).unwrap()
}

fn written(write: impl FnOnce(&mut XmlWriter)) -> String {
    let mut xml = XmlWriter::new();
    write(&mut xml);
    String::from_utf8(xml.finish()).unwrap()
}

#[test]
fn affine_writes_the_identity() {
    assert_eq!(
        written(|xml| affine(xml, "t")),
        "<CAffine xs.n=\"t\" m00=\"1.0\" m01=\"0.0\" m02=\"0.0\" m10=\"0.0\" m11=\"1.0\" m12=\"0.0\" />\n"
    );
}

#[test]
fn form_header_names_the_form_and_its_source() {
    let text = written(|xml| write_form_header(xml, RefId { index: 5 }, "CPartSource", RefId { index: 9 }));
    assert_eq!(
        text,
        "<ACForm xs.n=\"super\">\n  <CFormGuid xs.n=\"guid\" xs.ref=\"#5\" />\n  <b xs.n=\"isAnimatedForm\">false</b>\n  <b xs.n=\"isLocalAnimatedForm\">false</b>\n  <CPartSource xs.n=\"_source\" xs.ref=\"#9\" />\n  <null xs.n=\"name\" />\n  <s xs.n=\"notes\" />\n</ACForm>\n"
    );
}

#[test]
fn texture_object_of_a_page() {
    let plan = ProjectPlan::new(&empty_model(), 1);
    let text = written(|xml| write_texture(xml, &plan.pages[0], 3));
    assert_eq!(
        text,
        "<GTexture2D xs.id=\"#37\" xs.idx=\"37\">\n  <GTexture xs.n=\"super\">\n    <s xs.n=\"name\">Texture 3</s>\n    <WrapMode xs.n=\"wrapMode\" v=\"CLAMP_TO_BORDER\" />\n    <FilterMode xs.n=\"filterMode\">\n      <GTexture2D xs.n=\"owner\" xs.ref=\"#37\" />\n      <MinFilter xs.n=\"minFilter\" v=\"LINEAR_MIPMAP_LINEAR\" />\n      <MagFilter xs.n=\"magFilter\" v=\"LINEAR\" />\n    </FilterMode>\n    <GTextureGuid xs.n=\"guid\" xs.ref=\"#28\" />\n    <Anisotropy xs.n=\"anisotropy\" v=\"ON\" />\n  </GTexture>\n  <CImageResource xs.n=\"srcImageResource\" xs.ref=\"#29\" />\n  <CAffine xs.n=\"transformImageResource01toLogical01\" m00=\"1.0\" m01=\"0.0\" m02=\"0.0\" m10=\"0.0\" m11=\"1.0\" m12=\"0.0\" />\n  <i xs.n=\"mipmapLevel\">64</i>\n  <b xs.n=\"isPremultiplied\">true</b>\n</GTexture2D>\n"
    );
}

#[test]
fn cached_image_manager_records_the_size() {
    let texture = Texture::transparent();
    let text = written(|xml| write_manager(xml, "cachedImageManager", RefId { index: 29 }, &texture));
    assert!(text.starts_with("<CCachedImageManager xs.n=\"cachedImageManager\">\n"));
    assert!(text.contains("\n      <CSize xs.n=\"rawImageSize\" width=\"1\" height=\"1\" />\n"));
    assert!(text.contains("\n  <CImageResource xs.n=\"rawImage\" xs.ref=\"#29\" />\n"));
    assert!(text.ends_with("  <i xs.n=\"requiredMipmapLevel\">64</i>\n</CCachedImageManager>\n"));
}

#[test]
fn model_image_group_pairs_pages_and_textures() {
    let plan = ProjectPlan::new(&empty_model(), 1);
    let texture = Texture::transparent();
    let text = written(|xml| write_model_image_group(xml, &plan, &[texture]));
    assert!(text.starts_with("<CModelImageGroup xs.id=\"#42\" xs.idx=\"42\">\n"));
    assert!(text.contains("<carray_list xs.n=\"_modelImages\" count=\"1\">"));
    assert!(text.contains("<CModelImage modelImageVersion=\"0\">"));
    assert!(text.contains("<s xs.n=\"name\">Texture 0</s>"));
    assert!(text.contains("<FilterValueId xs.n=\"key\" xs.ref=\"#13\" />"));
    assert!(text.contains("<CLayer xs.n=\"layer\" xs.ref=\"#30\" />"));

    let without = written(|xml| write_model_image_group(xml, &plan, &[]));
    assert!(without.contains("<carray_list xs.n=\"_modelImages\" count=\"1\">"));
    assert!(!without.contains("CModelImage modelImageVersion"));
}

#[test]
fn layer_of_a_page_with_a_given_identifier() {
    let plan = ProjectPlan::new(&empty_model(), 1);
    let texture = Texture::transparent();
    let text = written(|xml| write_layer_with(xml, &plan, &plan.pages[0], &texture, 3, "u-1"));
    assert!(text.starts_with("<CLayer xs.id=\"#30\" xs.idx=\"30\">\n  <ACImageLayer xs.n=\"super\">\n"));
    assert!(text.contains("<CLayerGuid xs.n=\"guid\" uuid=\"u-1\" note=\"Texture 3\" />"));
    assert!(text.contains("<s xs.n=\"layerId\">00-00-03-01</s>"));
    assert!(text.contains("<i xs.n=\"layerIdValue_testImpl\">4</i>"));
    assert!(text.contains("<i xs.n=\"width\">1</i>"));
    assert!(text.ends_with("</CLayer>\n"));

    let twelfth = written(|xml| write_layer_with(xml, &plan, &plan.pages[0], &texture, 12, "u-1"));
    assert!(twelfth.contains("<s xs.n=\"layerId\">00-00-12-01</s>"));
}

#[test]
fn layer_draws_a_hyphenated_identifier() {
    let plan = ProjectPlan::new(&empty_model(), 1);
    let texture = Texture::transparent();
    let text = written(|xml| write_layer(xml, &plan, &plan.pages[0], &texture, 0));
    let start = text.find("uuid=\"").unwrap() + 6;
    let uuid = &text[start..start + 36];
    assert_eq!(&text[start + 36..start + 37], "\"");
    for (i, c) in uuid.chars().enumerate() {
        if [8, 13, 18, 23].contains(&i) {
            assert_eq!(c, '-');
        } else {
            assert!(c.is_ascii_hexdigit() && !c.is_ascii_uppercase());
        }
    }
    assert_eq!(&uuid[14..15], "4");
    assert!(["8", "9", "a", "b"].contains(&&uuid[19..20]));
}

#[test]
fn layer_group_and_layered_image_list_every_page() {
    let plan = ProjectPlan::new(&empty_model(), 1);
    let group = written(|xml| write_layer_group_with(xml, &plan, "g"));
    assert!(group.contains("<CLayerGuid xs.n=\"guid\" uuid=\"g\" note=\"root\" />"));
    assert!(group.contains("<null xs.n=\"group\" />"));
    assert!(group.contains("<carray_list xs.n=\"_children\" count=\"1\">\n      <CLayer xs.ref=\"#30\" />\n"));
    let image = written(|xml| write_layered_image(xml, &plan, "1024", "768", 1));
    assert!(image.contains("<i xs.n=\"width\">1024</i>\n  <i xs.n=\"height\">768</i>"));
    assert!(image.contains("<carray_list xs.n=\"_layerEntryList\" count=\"2\">\n      <CLayerGroup xs.ref=\"#7\" />\n      <CLayer xs.ref=\"#30\" />\n"));
}

#[test]
fn env_connector_links_a_value_to_the_environment() {
    let text = written(|xml| env_connector(xml, RefId { index: 12 }, RefId { index: 11 }));
    assert_eq!(
        text,
        "<entry>\n  <FilterValueId xs.n=\"key\" xs.ref=\"#12\" />\n  <EnvValueConnector xs.n=\"value\">\n    <AValueConnector xs.n=\"super\" />\n    <FilterValueId xs.n=\"envValueId\" xs.ref=\"#11\" />\n  </EnvValueConnector>\n</entry>\n"
    );
}

#[test]
fn filters_of_a_page() {
    let plan = ProjectPlan::new(&empty_model(), 1);
    let text = written(|xml| write_filter_page(xml, &plan, &plan.pages[0], 0));
    assert!(text.starts_with("<FilterInstanceId idstr=\"filter0_0\" xs.id=\"#32\" xs.idx=\"32\" />\n<FilterInstanceId idstr=\"filter1_0\" xs.id=\"#33\" xs.idx=\"33\" />\n"));
    assert!(text.contains("<FilterInstance filterName=\"CLayerSelector\" xs.id=\"#34\" xs.idx=\"34\">"));
    assert!(text.contains("<FilterInstance filterName=\"CLayerFilter\" xs.id=\"#35\" xs.idx=\"35\">"));
    assert!(text.contains("<hash_map xs.n=\"outputConnectors\" count=\"0\" keyType=\"string\" />"));
    assert!(text.contains("<ModelImageFilterSet xs.id=\"#31\" xs.idx=\"31\">"));
    assert_eq!(text.matches("<EnvConnection xs.n=\"value\">").count(), 4);
}

#[test]
fn shared_filter_objects() {
    let plan = ProjectPlan::new(&empty_model(), 0);
    let text = written(|xml| write_globals(xml, &plan.filters, "SEL", "LAY"));
    assert!(text.starts_with("<StaticFilterDefGuid uuid=\"SEL\" note=\"CLayerSelector\" xs.id=\"#8\" xs.idx=\"8\" />\n<StaticFilterDefGuid uuid=\"LAY\" note=\"CLayerFilter\" xs.id=\"#9\" xs.idx=\"9\" />\n<FilterValueId idstr=\"ilf_outputLayerData\" xs.id=\"#10\" xs.idx=\"10\" />\n"));
    assert!(text.contains("<FilterValueId idstr=\"ilf_inputLayer\" xs.id=\"#17\" xs.idx=\"17\" />"));
    assert!(text.contains("<s xs.n=\"name\">Output Image (Resource Format)</s>\n  <FilterValueId xs.n=\"id\" idstr=\"ilf_outputImageRes\" />"));
    assert!(text.contains("<FilterValue xs.id=\"#26\" xs.idx=\"26\">\n  <s xs.n=\"name\">LayerToCanvas transform</s>\n  <FilterValueId xs.n=\"id\" idstr=\"ilf_outputTransform\" />"));
    assert_eq!(text.matches("<FilterValue xs.id=").count(), 9);
}

#[test]
fn parts_of_an_empty_model_are_the_root() {
    let model = empty_model();
    let plan = ProjectPlan::new(&model, 0);
    let mut xml = XmlWriter::new();
    write_parts(&mut xml, &plan, &model, &vec![], &vec![]).unwrap();
    let text = String::from_utf8(xml.finish()).unwrap();
    assert!(text.contains("<CPartSource xs.id=\"#28\" xs.idx=\"28\">"));
    assert!(text.contains("<s xs.n=\"localName\">Root Part</s>"));
    assert!(text.contains("<null xs.n=\"parentGuid\" />"));
    assert!(text.contains("<CPartId xs.n=\"id\" idstr=\"__RootPart__\" />"));
    assert!(text.contains("<carray_list xs.n=\"_childGuids\" count=\"0\">"));
    assert!(text.contains("<i xs.n=\"drawOrder\">500</i>"));
}

#[test]
fn main_source_of_an_empty_model() {
    let model = empty_model();
    let plan = ProjectPlan::new(&model, 0);
    let texts = DocumentTexts {
        width: "640".into(),
        height: "480".into(),
        parameter_values: vec![],
        pixels_per_unit: "100.0".into(),
        origin_x: "320".into(),
        origin_y: "240".into(),
    };
    let text = written(|xml| write_main(xml, &plan, &model, "Model", &texts));
    assert!(text.starts_with("<CModelSource isDefaultKeyformLocked=\"false\">\n  <CModelGuid xs.n=\"guid\" xs.ref=\"#1\" />\n  <s xs.n=\"name\">Model</s>\n"));
    assert!(text.contains("<i xs.n=\"pixelWidth\">640</i>\n    <i xs.n=\"pixelHeight\">480</i>"));
    assert!(text.contains("<carray_list xs.n=\"_sources\" count=\"1\">\n      <CPartSource xs.ref=\"#28\" />\n"));
    assert!(text.contains("<f xs.n=\"pixelsPerUnit\">100.0</f>"));
    assert!(text.ends_with("  <i xs.n=\"targetVersionNo\">3000</i>\n  <i xs.n=\"latestVersionOfLastModelerNo\">5000000</i>\n</CModelSource>\n"));
}

use moc2cmo::decompiler::deformers::{write_rotation, write_warp, ColorTexts, RotationFormTexts, WarpFormTexts};
use moc2cmo::decompiler::glues::write_glue_source;
use moc2cmo::decompiler::identifiers::{write_identifiers, write_identifiers_with, Identifiers};
use moc2cmo::decompiler::sources::{number_list_text, start_deformer_source, write_editable_extension, write_generator_extension};
use moc2cmo::decompiler::{DeformerPlan, GluePlan, GridPlan, MeshPlan};
use moc2cmo::moc3::{Glue, GlueVertex, RotationDeformer, RotationDeformerKeyform, Rgb, WarpDeformer, WarpDeformerKeyform};
use moc2cmo::Error;

fn r(index: u32) -> RefId {
    RefId { index }
}

fn grid(first: u32, forms: usize) -> GridPlan {
    GridPlan { grid: r(first), bindings: vec![], forms: (0..forms as u32).map(|i| r(first + 1 + i)).collect() }
}

fn mesh_plan() -> MeshPlan {
    MeshPlan {
        guid: r(100),
        source: r(101),
        grid: grid(102, 1),
        editable_mesh_guid: r(104),
        editable_extension_guid: r(105),
        generator_extension_guid: r(106),
        texture_extension_guid: r(107),
        texture_extension: r(108),
        texture_input: r(109),
    }
}

fn colors(v: &str) -> ColorTexts {
    ColorTexts { red: v.into(), green: v.into(), blue: v.into() }
}

#[test]
fn number_lists_are_space_separated() {
    assert_eq!(number_list_text(&vec![7, 10, 0]), "7 10 0");
    assert_eq!(number_list_text(&vec![]), "");
    assert_eq!(number_list_text(&vec![42]), "42");
}

#[test]
fn generator_extension_has_fixed_settings() {
    let text = written(|xml| write_generator_extension(xml, &mesh_plan()));
    assert!(text.starts_with("<CMeshGeneratorExtension>\n  <ACExtension xs.n=\"super\">\n    <CExtensionGuid xs.n=\"guid\" xs.ref=\"#106\" />\n    <CArtMeshSource xs.n=\"_owner\" xs.ref=\"#101\" />\n"));
    assert!(text.contains("<i xs.n=\"polygonOuterDensity\">100</i>"));
    assert!(text.contains("<i xs.n=\"polygonMinBoundsPt\">5</i>"));
    assert!(text.contains("<i xs.n=\"thresholdAlpha\">0</i>"));
}

#[test]
fn editable_extension_numbers_points_and_edges() {
    let plan = ProjectPlan::new(&empty_model(), 0);
    let text = written(|xml| write_editable_extension(xml, &plan, &mesh_plan(), "0 0 1 0 0 1", 6, &[0, 1, 0, 2, 1, 2]));
    assert!(text.contains("<GEditableMesh2 xs.n=\"editableMesh\" nextPointUid=\"3\" useDelaunayTriangulation=\"true\">"));
    assert!(text.contains("<float-array xs.n=\"point\" count=\"6\">0 0 1 0 0 1</float-array>"));
    assert!(text.contains("<byte-array xs.n=\"pointPriority\" count=\"3\">20 20 20</byte-array>"));
    assert!(text.contains("<short-array xs.n=\"edge\" count=\"6\">0 1 0 2 1 2</short-array>"));
    assert!(text.contains("<byte-array xs.n=\"edgePriority\" count=\"3\">30 30 30</byte-array>"));
    assert!(text.contains("<int-array xs.n=\"pointUid\" count=\"3\">0 1 2</int-array>"));
    assert!(text.contains("<CoordType xs.n=\"coordType\" xs.ref=\"#3\" />"));
}

#[test]
fn deformer_source_targets_its_parent_or_the_root() {
    let mut plan = ProjectPlan::new(&empty_model(), 0);
    plan.deformers.push(DeformerPlan { guid: r(200), source: r(201), grid: grid(202, 1) });
    let own = DeformerPlan { guid: r(210), source: r(211), grid: grid(212, 1) };
    let under_parent = written(|xml| start_deformer_source(xml, &plan, &own, Some(0), "Warp1"));
    assert!(under_parent.contains("<CDeformerGuid xs.n=\"targetDeformerGuid\" xs.ref=\"#200\" />"));
    assert!(under_parent.contains("<CDeformerId xs.n=\"id\" idstr=\"Warp1\" />"));
    let missing = written(|xml| start_deformer_source(xml, &plan, &own, Some(4), "Warp1"));
    assert!(missing.contains("<CDeformerGuid xs.n=\"targetDeformerGuid\" xs.ref=\"#2\" />"));
    let root = written(|xml| start_deformer_source(xml, &plan, &own, None, "Warp1"));
    assert!(root.contains("<CDeformerGuid xs.n=\"targetDeformerGuid\" xs.ref=\"#2\" />"));
}

#[test]
fn warp_forms_count_the_keyed_positions() {
    let plan = ProjectPlan::new(&empty_model(), 0);
    let own = DeformerPlan { guid: r(210), source: r(211), grid: grid(212, 2) };
    let keyform = WarpDeformerKeyform {
        positions: vec![(0, 0), (1, 1)],
        opacity: 1.0f32.to_bits(),
        multiply_color: Rgb { red: 0, green: 0, blue: 0 },
        screen_color: Rgb { red: 0, green: 0, blue: 0 },
    };
    let warp = WarpDeformer { parent_deformer_index: None, binding_band_index: None, rows: 1, columns: 2, keyforms: vec![keyform] };
    let form = |p: &str| WarpFormTexts { opacity: "1".into(), multiply: colors("1"), screen: colors("0"), positions: p.into() };
    let texts = vec![form("0 0 1 1"), form("")];
    let text = written(|xml| write_warp(xml, &plan, &own, &warp, 3, &texts));
    assert!(text.starts_with("<CWarpDeformerSource xs.id=\"#211\" xs.idx=\"211\">\n"));
    assert!(text.contains("<s xs.n=\"localName\">Warp3</s>"));
    assert!(text.contains("<i xs.n=\"col\">2</i>\n  <i xs.n=\"row\">1</i>"));
    assert!(text.contains("<float-array xs.n=\"positions\" count=\"4\">0 0 1 1</float-array>"));
    assert!(text.contains("<float-array xs.n=\"positions\" count=\"0\"></float-array>"));
    assert!(text.contains("<CFloatColor xs.n=\"multiplyColor\" red=\"1\" green=\"1\" blue=\"1\" alpha=\"1.0\" />"));
}

#[test]
fn rotation_forms_carry_their_reflections() {
    let plan = ProjectPlan::new(&empty_model(), 0);
    let own = DeformerPlan { guid: r(210), source: r(211), grid: grid(212, 2) };
    let keyform = RotationDeformerKeyform {
        angle_degrees: 0,
        origin: (0, 0),
        scale: 1.0f32.to_bits(),
        reflected: (true, false),
        opacity: 1.0f32.to_bits(),
        multiply_color: Rgb { red: 0, green: 0, blue: 0 },
        screen_color: Rgb { red: 0, green: 0, blue: 0 },
    };
    let rotation = RotationDeformer { parent_deformer_index: None, binding_band_index: None, base_angle_degrees: 0, keyforms: vec![keyform] };
    let form = || RotationFormTexts {
        angle: "30".into(),
        origin_x: "1".into(),
        origin_y: "2".into(),
        scale: "1".into(),
        opacity: "1".into(),
        multiply: colors("1"),
        screen: colors("0"),
    };
    let text = written(|xml| write_rotation(xml, &plan, &own, &rotation, 0, &vec![form(), form()], "90"));
    assert!(text.contains("<CRotationDeformerForm angle=\"30\" originX=\"1\" originY=\"2\" scale=\"1\" isReflectX=\"true\" isReflectY=\"false\">"));
    assert!(text.contains("<CRotationDeformerForm angle=\"30\" originX=\"1\" originY=\"2\" scale=\"1\" isReflectX=\"false\" isReflectY=\"false\">"));
    assert!(text.contains("<f xs.n=\"baseAngle\">90</f>"));
    assert!(text.contains("<s xs.n=\"localName\">Rotation0</s>"));
}

#[test]
fn glue_source_pairs_vertices() {
    let mut plan = ProjectPlan::new(&empty_model(), 0);
    let own = GluePlan { guid: r(300), source: r(301), grid: grid(302, 2) };
    let glue = Glue {
        art_mesh_a: 0,
        art_mesh_b: 1,
        binding_band_index: None,
        vertices_a: vec![GlueVertex { vertex_index: 4, weight: 0 }, GlueVertex { vertex_index: 5, weight: 0 }],
        vertices_b: vec![GlueVertex { vertex_index: 9, weight: 0 }],
        intensities: vec![],
    };
    let mut xml = XmlWriter::new();
    let weights_a = vec!["0.5".to_string(), "0.75".to_string()];
    let weights_b = vec!["0.25".to_string()];
    let missing = write_glue_source(&mut xml, &plan, &own, &glue, 2, &weights_a, &weights_b, &vec!["0.25".to_string()]);
    assert!(matches!(missing, Err(Error::InvalidCmo3(_))));
    assert!(xml.finish().is_empty());

    plan.meshes.push(mesh_plan());
    plan.meshes.push(MeshPlan { guid: r(110), ..mesh_plan() });
    let text = written(|xml| write_glue_source(xml, &plan, &own, &glue, 2, &weights_a, &weights_b, &vec!["0.25".to_string()]).unwrap());
    assert!(text.contains("<CAffecterId xs.n=\"id\" idstr=\"Glue2_0_1\" />"));
    assert!(text.contains("<float-array xs.n=\"weights\" count=\"2\">0.5 0.25</float-array>"));
    assert!(text.contains("<f xs.n=\"intensity\">0.25</f>"));
    assert!(text.contains("<f xs.n=\"intensity\">1</f>"));
    assert!(text.contains("<CDrawableGuid xs.n=\"targetArtMeshB_guid\" xs.ref=\"#110\" />"));
    assert!(text.contains("<long-array xs.n=\"bindVertexUids\" count=\"2\">4 9</long-array>"));
}

#[test]
fn identifiers_of_an_empty_model() {
    let model = empty_model();
    let plan = ProjectPlan::new(&model, 0);
    let ids = Identifiers {
        model: "M".into(),
        parameters: vec![],
        root_part: vec!["R".into(), "F".into()],
        parts: vec![],
        deformers: vec![],
        meshes: vec![],
        glues: vec![],
    };
    let text = written(|xml| write_identifiers_with(xml, &plan, &model, "G", "D", &ids));
    assert!(text.starts_with("<CParameterGroupGuid uuid=\"G\" note=\"Parameter root\" xs.id=\"#0\" xs.idx=\"0\" />\n<CModelGuid uuid=\"M\" note=\"Decompiled model\" xs.id=\"#1\" xs.idx=\"1\" />\n<CDeformerGuid uuid=\"D\" note=\"ROOT\" xs.id=\"#2\" xs.idx=\"2\" />\n<CoordType xs.id=\"#3\" xs.idx=\"3\">\n  <s xs.n=\"coordName\">DeformerLocal</s>\n</CoordType>\n"));
    assert!(text.contains("<CPartGuid uuid=\"R\" note=\"__RootPart__\" xs.id=\"#27\" xs.idx=\"27\" />"));
    assert!(text.ends_with("<CFormGuid uuid=\"F\" note=\"Root Part keyform 0\" xs.id=\"#30\" xs.idx=\"30\" />\n"));

    let drawn = written(|xml| write_identifiers(xml, &plan, &model, "G", "D"));
    assert_eq!(drawn.matches("uuid=\"").count(), 5);
}

#[test]
fn glue_weights_alternate_between_the_two_meshes() {
    let mut plan = ProjectPlan::new(&empty_model(), 0);
    plan.meshes.push(mesh_plan());
    plan.meshes.push(MeshPlan { guid: r(110), ..mesh_plan() });
    let own = GluePlan { guid: r(300), source: r(301), grid: grid(302, 1) };
    let vertex = |vertex_index| GlueVertex { vertex_index, weight: 0 };
    let glue = Glue {
        art_mesh_a: 0,
        art_mesh_b: 1,
        binding_band_index: None,
        vertices_a: vec![vertex(1), vertex(2), vertex(3)],
        vertices_b: vec![vertex(7), vertex(8), vertex(9)],
        intensities: vec![],
    };
    let texts = |items: &[&str]| items.iter().map(|t| t.to_string()).collect::<Vec<_>>();
    let text = written(|xml| {
        write_glue_source(xml, &plan, &own, &glue, 0, &texts(&["a0", "a1", "a2"]), &texts(&["b0", "b1", "b2"]), &vec![]).unwrap()
    });
    assert!(text.contains("<float-array xs.n=\"weights\" count=\"6\">a0 b0 a1 b1 a2 b2</float-array>"));
    assert!(text.contains("<long-array xs.n=\"bindVertexUids\" count=\"6\">1 7 2 8 3 9</long-array>"));
}
