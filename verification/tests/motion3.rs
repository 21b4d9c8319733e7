use moc2cmo::motion3::{parse_curve, validate_metadata, Motion3, MotionMeta, MotionPoint, MotionSegment, RawCurve};
use moc2cmo::Error;

fn bits(values: &[f32]) -> Vec<u32> {
    values.iter().map(|v| v.to_bits()).collect()
}

fn raw(segments: &[f32]) -> RawCurve {
    RawCurve {
        target: "Parameter".to_string(),
        id: "ParamAngleX".to_string(),
        segments: bits(segments),
        fade_in_bits: None,
        fade_out_bits: Some(0.5f32.to_bits()),
    }
}

fn point(time: f32, value: f32) -> MotionPoint {
    MotionPoint { time_bits: time.to_bits(), value_bits: value.to_bits() }
}

fn meta(curves: u32, segments: u32, points: u32) -> MotionMeta {
    MotionMeta {
        duration_bits: 1.0f32.to_bits(),
        fps_bits: 30.0f32.to_bits(),
        loop_motion: true,
        are_beziers_restricted: false,
        curve_count: curves,
        total_segment_count: segments,
        total_point_count: points,
        user_data_count: 0,
        total_user_data_size: 0,
    }
}

#[test]
fn parse_curve_reads_every_segment_kind() {
    let curve = parse_curve(raw(&[
        0.0, 1.0, // first point
        0.0, 1.0, 2.0, // linear
        1.0, 1.5, 2.0, 2.0, 3.0, 3.0, 4.0, // bezier
        2.0, 4.0, 5.0, // stepped
        3.0, 5.0, 6.0, // inverse stepped
    ]))
    .unwrap();
    assert_eq!(curve.target(), "Parameter");
    assert_eq!(curve.id(), "ParamAngleX");
    assert_eq!(curve.first_point(), point(0.0, 1.0));
    assert_eq!(curve.fade_out_bits(), Some(0.5f32.to_bits()));
    let segments = curve.segments();
    assert_eq!(segments.len(), 4);
    assert_eq!(segments[0], MotionSegment::Linear { start: point(0.0, 1.0), end: point(1.0, 2.0) });
    assert_eq!(
        segments[1],
        MotionSegment::Bezier {
            start: point(1.0, 2.0),
            control1: point(1.5, 2.0),
            control2: point(2.0, 3.0),
            end: point(3.0, 4.0),
        }
    );
    assert_eq!(segments[2], MotionSegment::Stepped { start: point(3.0, 4.0), end: point(4.0, 5.0) });
    assert_eq!(segments[3], MotionSegment::InverseStepped { start: point(4.0, 5.0), end: point(5.0, 6.0) });
    assert_eq!(segments[3].end(), point(5.0, 6.0));
}

#[test]
fn parse_curve_accepts_negative_zero_as_linear() {
    let curve = parse_curve(raw(&[0.0, 0.0, -0.0, 1.0, 1.0])).unwrap();
    assert!(matches!(curve.segments()[0], MotionSegment::Linear { .. }));
}

#[test]
fn parse_curve_rejects_a_missing_first_point() {
    assert!(matches!(parse_curve(raw(&[0.0])), Err(Error::InvalidJson { .. })));
}

#[test]
fn parse_curve_rejects_unknown_segment_types() {
    for kind in [4.0f32, 0.5, -1.0, f32::NAN] {
        assert!(matches!(parse_curve(raw(&[0.0, 0.0, kind, 1.0, 1.0])), Err(Error::InvalidJson { .. })));
    }
}

#[test]
fn parse_curve_rejects_incomplete_points() {
    assert!(matches!(parse_curve(raw(&[0.0, 0.0, 0.0, 1.0])), Err(Error::InvalidJson { .. })));
    assert!(matches!(parse_curve(raw(&[0.0, 0.0, 1.0, 1.0, 1.0, 2.0, 2.0, 3.0])), Err(Error::InvalidJson { .. })));
}

#[test]
fn metadata_counts_are_checked() {
    let curve = parse_curve(raw(&[0.0, 1.0, 1.0, 1.5, 2.0, 2.0, 3.0, 3.0, 4.0, 0.0, 4.0, 5.0])).unwrap();
    let curves = vec![curve];
    assert!(validate_metadata(&meta(1, 2, 5), &curves, 0).is_ok());
    assert!(validate_metadata(&meta(0, 0, 0), &curves, 0).is_ok());
    assert!(matches!(validate_metadata(&meta(2, 0, 0), &curves, 0), Err(Error::InvalidJson { .. })));
    assert!(matches!(validate_metadata(&meta(0, 3, 0), &curves, 0), Err(Error::InvalidJson { .. })));
    assert!(matches!(validate_metadata(&meta(0, 0, 4), &curves, 0), Err(Error::InvalidJson { .. })));
    let mut with_events = meta(0, 0, 0);
    with_events.user_data_count = 2;
    assert!(matches!(validate_metadata(&with_events, &curves, 1), Err(Error::InvalidJson { .. })));
}

#[test]
fn motion_from_fields_checks_version_and_curves() {
    let motion = Motion3::from_fields(3, meta(1, 1, 2), vec![raw(&[0.0, 0.0, 0.0, 1.0, 1.0])], vec![]).unwrap();
    assert_eq!(motion.version(), 3);
    assert_eq!(motion.curves().len(), 1);
    assert_eq!(motion.meta().curve_count, 1);
    assert!(matches!(
        Motion3::from_fields(2, meta(0, 0, 0), vec![], vec![]),
        Err(Error::UnsupportedVersion { version: 2, .. })
    ));
    assert!(matches!(
        Motion3::from_fields(3, meta(0, 0, 0), vec![raw(&[0.0])], vec![]),
        Err(Error::InvalidJson { .. })
    ));
}

#[test]
fn motion_meta_getters_report_the_fields() {
    let m = meta(2, 5, 9);
    assert_eq!(f32::from_bits(m.duration_bits()), 1.0);
    assert_eq!(f32::from_bits(m.fps_bits()), 30.0);
    assert!(m.is_looping());
    assert!(!m.are_beziers_restricted());
    assert_eq!(m.curve_count(), 2);
    assert_eq!(m.total_segment_count(), 5);
    assert_eq!(m.total_point_count(), 9);
    assert_eq!(m.user_data_count(), 0);
    assert_eq!(m.total_user_data_size(), 0);
}
