use moc2cmo::model3::Model3Group;
use moc2cmo::scene::{write_animation, write_parts_effect, write_resource_manager, write_special_effects};

fn text(write: impl FnOnce(&mut Vec<u8>)) -> String {
    let mut out = Vec::new();
    write(&mut out);
    String::from_utf8(out).unwrap()
}

#[test]
fn parts_effect_names_its_track() {
    assert_eq!(
        text(|out| write_parts_effect(out, 21, 14)),
        "<CMvEffect_Live2DPartsVisible xs.id=\"#21\"><ICMvEffect xs.n=\"super\"><CEffectId xs.n=\"id\" idstr=\"Effects:Live2DPartsOpacity\" /><b xs.n=\"isActive\">true</b><b xs.n=\"canDelete\">false</b><array xs.n=\"attrList\" count=\"0\" type=\"ICMvAttr\" /><hash_map xs.n=\"attrMap\" count=\"0\" keyType=\"string\" /><CMvTrack_Live2DModel_Source xs.n=\"track\" xs.ref=\"#14\" /></ICMvEffect><carray_list xs.n=\"effectParameterAttrIds\" count=\"0\" /></CMvEffect_Live2DPartsVisible>\n"
    );
}

#[test]
fn special_effects_drive_their_groups_parameters() {
    let groups = vec![
        Model3Group { target: "Parameter".into(), name: "LipSync".into(), ids: vec!["ParamMouthOpenY".into()] },
        Model3Group { target: "Other".into(), name: "EyeBlink".into(), ids: vec!["Ignored".into()] },
        Model3Group { target: "Parameter".into(), name: "EyeBlink".into(), ids: vec!["ParamEyeLOpen".into(), "A&B".into()] },
        Model3Group { target: "Parameter".into(), name: "EyeBlink".into(), ids: vec!["Later".into()] },
    ];
    let out = text(|out| write_special_effects(out, 7, 8, 5, &groups));
    let expected = "<CMvEffect_EyeBlink xs.id=\"#7\"><ICMvEffect xs.n=\"super\"><CEffectId xs.n=\"id\" idstr=\"Effects:EyeBlink\" /><b xs.n=\"isActive\">true</b><b xs.n=\"canDelete\">true</b><array xs.n=\"attrList\" count=\"0\" type=\"ICMvAttr\" /><hash_map xs.n=\"attrMap\" count=\"0\" keyType=\"string\" /><CMvTrack_Live2DModel_Source xs.n=\"track\" xs.ref=\"#5\" /></ICMvEffect><carray_list xs.n=\"effectParameterAttrIds\" count=\"2\">\n<CAttrId idstr=\"live2dParam_ParamEyeLOpen\" />\n<CAttrId idstr=\"live2dParam_A&amp;B\" />\n</carray_list></CMvEffect_EyeBlink>\n<CMvEffect_LipSync xs.id=\"#8\"><ICMvEffect xs.n=\"super\"><CEffectId xs.n=\"id\" idstr=\"Effects:LipSync\" /><b xs.n=\"isActive\">true</b><b xs.n=\"canDelete\">true</b><array xs.n=\"attrList\" count=\"0\" type=\"ICMvAttr\" /><hash_map xs.n=\"attrMap\" count=\"0\" keyType=\"string\" /><CMvTrack_Live2DModel_Source xs.n=\"track\" xs.ref=\"#5\" /></ICMvEffect><carray_list xs.n=\"effectParameterAttrIds\" count=\"1\">\n<CAttrId idstr=\"live2dParam_ParamMouthOpenY\" />\n</carray_list></CMvEffect_LipSync>\n";
    assert_eq!(out, expected);
}

#[test]
fn special_effects_without_groups_drive_nothing() {
    let out = text(|out| write_special_effects(out, 1, 2, 3, &[]));
    assert_eq!(out.matches("count=\"0\">\n</carray_list>").count(), 2);
}

#[test]
fn animation_lists_its_scenes() {
    let out = text(|out| write_animation(out, 10, "Idle <1>", &[(15, 24), (25, 34)], 11));
    assert_eq!(
        out,
        "<CAnimation xs.id=\"#10\"><s xs.n=\"name\">Idle &lt;1&gt;</s><file xs.n=\"file\" /><carray_list xs.n=\"_scenes\" count=\"2\">\n<CSceneSource xs.ref=\"#15\" />\n<CSceneSource xs.ref=\"#25\" />\n</carray_list><CSceneSource xs.n=\"currentScene\" xs.ref=\"#15\" /><CResourceManager xs.n=\"resourceManager\" xs.ref=\"#11\" /><EditorEdition xs.n=\"editorEdition\"><i xs.n=\"edition\">15</i></EditorEdition><Animation xs.n=\"targetVersion\" v=\"FOR_SDK\" /></CAnimation>\n"
    );
}

#[test]
fn resource_manager_links_the_model() {
    let out = text(|out| write_resource_manager(out, 11, 12, 13, 14, "a&b.cmo3"));
    assert_eq!(
        out,
        "<CResourceManager xs.id=\"#11\"><CResourceGroup xs.n=\"rootGroup\"><CResourceGroupGuid xs.n=\"guid\" xs.ref=\"#12\" /><carray_list xs.n=\"_childGuids\" count=\"1\"><CResourceGuid xs.ref=\"#13\" /></carray_list><s xs.n=\"name\">Resources</s></CResourceGroup><carray_list xs.n=\"_resourceRefList\" count=\"1\"><CResourceData xs.ref=\"#14\" /></carray_list><CResourceData xs.id=\"#14\"><CResource_Linked_Model xs.n=\"resourceRef\"><ACResource_File xs.n=\"super\"><file xs.n=\"srcFile\">a&amp;b.cmo3</file><CResourceGuid xs.n=\"guid\" xs.ref=\"#13\" /><s xs.n=\"name\">a&amp;b.cmo3</s></ACResource_File></CResource_Linked_Model></CResourceData></CResourceManager><CResourceGroupGuid xs.id=\"#12\" /><CResourceGuid xs.id=\"#13\" />\n"
    );
}
