use moc2cmo::animation::{animation_document_with, generate_animation, CurveTexts, KeyPointTexts, MotionTexts};
use moc2cmo::model3::Model3Group;
use moc2cmo::motion3::{Motion3, MotionMeta, RawCurve};
use moc2cmo::Error;

fn bits(values: &[f32]) -> Vec<u32> {
    values.iter().map(|v| v.to_bits()).collect()
}

fn curve(target: &str, id: &str) -> RawCurve {
    RawCurve {
        target: target.to_string(),
        id: id.to_string(),
        segments: bits(&[0.0, 0.0, 0.0, 1.0, 1.0]),
        fade_in_bits: None,
        fade_out_bits: None,
    }
}

fn motion() -> Motion3 {
    let meta = MotionMeta {
        duration_bits: 1.0f32.to_bits(),
        fps_bits: 30.0f32.to_bits(),
        loop_motion: true,
        are_beziers_restricted: false,
        curve_count: 2,
        total_segment_count: 2,
        total_point_count: 4,
        user_data_count: 0,
        total_user_data_size: 0,
    };
    Motion3::from_fields(3, meta, vec![curve("PartOpacity", "PartArm"), curve("Parameter", "ParamAngleX")], vec![]).unwrap()
}

fn point(frame: &str, value: &str) -> KeyPointTexts {
    KeyPointTexts {
        frame: frame.into(),
        value: value.into(),
        next_time: "0.3".into(),
        next_frame: "10".into(),
        next_value: "0.3".into(),
        prev_time: "0.6".into(),
        prev_frame: "20".into(),
        prev_value: "0.6".into(),
    }
}

fn texts() -> MotionTexts {
    let curve_texts = || CurveTexts { min: "0".into(), max: "1".into(), base: "0".into(), points: vec![point("0", "0"), point("30", "1")] };
    MotionTexts { frames: 30, fps: "30".into(), curves: vec![curve_texts(), curve_texts()] }
}

fn uuids() -> Vec<(String, String, String)> {
    vec![("g".to_string(), "s".to_string(), "m".to_string())]
}

#[test]
fn animation_without_motions_is_refused() {
    let result = generate_animation("idle", "model.cmo3", &[], &[], &vec![]);
    match result {
        Err(Error::InvalidCan3(message)) => assert_eq!(message, "model has no motion files"),
        other => panic!("unexpected {:?}", other.map(|v| v.len())),
    }
}

#[test]
fn animation_numbers_its_objects_and_keys_parameter_curves() {
    let motions = vec![("idle".to_string(), motion())];
    let groups = vec![Model3Group { target: "Parameter".into(), name: "EyeBlink".into(), ids: vec!["ParamEyeLOpen".into()] }];
    let bytes = animation_document_with("Anim", "a&b.cmo3", &motions, &groups, &vec![texts()], &uuids()).unwrap();
    let text = String::from_utf8(bytes).unwrap();
    assert!(text.starts_with("<?xml version=\"1.0\" encoding=\"UTF-8\"?>\n<?version CSceneSource:3?>\n"));
    assert!(text.contains("<root fileFormatVersion=\"401000005\"><shared><CMvTrack_Group_Source xs.id=\"#16\">"));
    assert!(text.contains("<CTrackGuid uuid=\"g\" xs.id=\"#17\" />\n<CSceneSource xs.id=\"#15\"><s xs.n=\"sceneName\">idle</s>"));
    assert!(text.contains("<i xs.n=\"duration\">31</i><d xs.n=\"fps\">30</d><i xs.n=\"workspaceStart\">0</i><i xs.n=\"workspaceEnd\">30</i>"));
    assert!(text.contains("<b xs.n=\"isBezierRestricted\">false</b><b xs.n=\"isLoopMotion\">true</b>"));
    assert!(text.contains("<CSceneGuid uuid=\"s\" xs.id=\"#24\" />"));
    assert!(text.contains("<CMvTrack_Live2DModel_Source xs.id=\"#19\">"));
    assert!(text.contains("<CTrackGuid uuid=\"m\" xs.id=\"#18\" />"));
    assert!(text.contains("<CMvEffect_Live2DParameter xs.id=\"#20\"><ICMvEffect xs.n=\"super\"><CEffectId xs.n=\"id\" idstr=\"Effects:Live2DParam\" /><b xs.n=\"isActive\">true</b><b xs.n=\"canDelete\">false</b><array xs.n=\"attrList\" count=\"1\" type=\"ICMvAttr\">"));
    assert!(text.contains("<CMvAttrF xs.id=\"#200000\"><ICMvAttr xs.n=\"super\"><b xs.n=\"isShyMode\">false</b><CAttrId xs.n=\"id\" idstr=\"live2dParam_ParamAngleX\" />"));
    assert!(!text.contains("PartArm"));
    assert!(text.contains("<CCurveType v=\"LINEAR\" />"));
    assert!(text.contains("<entry><CAttrId xs.n=\"key\" idstr=\"live2dParam_ParamAngleX\" /><CMvAttrF xs.n=\"value\" xs.ref=\"#200000\" /></entry>"));
    assert!(text.contains("<CAttrId idstr=\"live2dParam_ParamEyeLOpen\" />"));
    assert!(text.contains("<CAnimation xs.id=\"#10\"><s xs.n=\"name\">Anim</s>"));
    assert!(text.contains("<file xs.n=\"srcFile\">a&amp;b.cmo3</file>"));
    assert!(text.ends_with("</shared><main><CAnimation xs.ref=\"#10\" />\n</main></root>"));
}

#[test]
fn generated_animation_draws_version_4_identifiers() {
    let motions = vec![("idle".to_string(), motion())];
    let text = String::from_utf8(generate_animation("Anim", "m.cmo3", &motions, &[], &vec![texts()]).unwrap()).unwrap();
    let start = text.find("<CTrackGuid uuid=\"").unwrap() + 18;
    let uuid = &text[start..start + 36];
    assert_eq!(&uuid[14..15], "4");
    assert_eq!(&text[start + 36..start + 45], "\" xs.id=\"");
}
