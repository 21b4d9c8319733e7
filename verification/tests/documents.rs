use moc2cmo::displayinfo3::{check_version, DisplayInfo3, DisplayInfo3Parameter, DisplayInfo3ParameterGroup, DisplayInfo3Part};
use moc2cmo::expression3::check_expression_type;
use moc2cmo::Error;

#[test]
fn display_info_keeps_its_records() {
    let info = DisplayInfo3::from_fields(
        3,
        vec![DisplayInfo3Parameter { id: "ParamAngleX".into(), group_id: "G".into(), name: "Angle X".into() }],
        vec![DisplayInfo3ParameterGroup { id: "G".into(), group_id: String::new(), name: "Face".into() }],
        vec![DisplayInfo3Part { id: "PartHead".into(), name: "Head".into() }],
    )
    .unwrap();
    assert_eq!(info.version(), 3);
    assert_eq!(info.parameters()[0].name, "Angle X");
    assert_eq!(info.parameter_groups()[0].name, "Face");
    assert_eq!(info.parts()[0].id, "PartHead");
}

#[test]
fn display_info_rejects_other_versions() {
    let result = DisplayInfo3::from_fields(2, vec![], vec![], vec![]);
    match result {
        Err(Error::UnsupportedVersion { format, version }) => {
            assert_eq!(format, "cdi3.json");
            assert_eq!(version, 2);
        }
        other => panic!("unexpected {other:?}"),
    }
}

#[test]
fn check_version_names_the_document() {
    assert!(check_version("model3.json", 3).is_ok());
    assert!(matches!(
        check_version("model3.json", 4),
        Err(Error::UnsupportedVersion { version: 4, .. })
    ));
}

#[test]
fn expression_type_must_be_live2d_expression() {
    assert!(check_expression_type("Live2D Expression").is_ok());
    assert!(matches!(check_expression_type("Expression"), Err(Error::InvalidJson { .. })));
}
