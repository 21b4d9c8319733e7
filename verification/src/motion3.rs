//! Cubism `motion3.json` animations: curves of interpolation segments.
//!
//! Times and values are single-precision floats; they are kept as their
//! IEEE-754 bit patterns, exactly as read from the document.

use vstd::prelude::*;

use crate::displayinfo3::check_version;
use crate::error::{invalid_json, unsupported_version, Error};

verus! {

/// A point on a motion curve; its time and value are float bit patterns.
#[derive(Debug, Copy, Clone, PartialEq, Eq, Structural)]
pub struct MotionPoint {
    /// Bit pattern of the time in seconds.
    pub time_bits: u32,
    /// Bit pattern of the value at the point.
    pub value_bits: u32,
}

/// Interpolation mode between two motion points.
#[derive(Debug, Copy, Clone, PartialEq, Eq, Structural)]
pub enum MotionSegment {
    /// Linear interpolation.
    Linear {
        /// Start point.
        start: MotionPoint,
        /// End point.
        end: MotionPoint,
    },
    /// Cubic Bezier interpolation.
    Bezier {
        /// Start point.
        start: MotionPoint,
        /// First control point.
        control1: MotionPoint,
        /// Second control point.
        control2: MotionPoint,
        /// End point.
        end: MotionPoint,
    },
    /// Holds the start value until the end point.
    Stepped {
        /// Start point.
        start: MotionPoint,
        /// End point.
        end: MotionPoint,
    },
    /// Holds the end value for the segment.
    InverseStepped {
        /// Start point.
        start: MotionPoint,
        /// End point.
        end: MotionPoint,
    },
}

/// The end point of a segment.
pub open spec fn segment_end(s: MotionSegment) -> MotionPoint {
    match s {
        MotionSegment::Linear { end, .. } => end,
        MotionSegment::Bezier { end, .. } => end,
        MotionSegment::Stepped { end, .. } => end,
        MotionSegment::InverseStepped { end, .. } => end,
    }
}

impl MotionSegment {
    /// Returns the segment's end point.
    pub fn end(&self) -> (res: MotionPoint)
        ensures
            res == segment_end(*self),
    {
        match *self {
            MotionSegment::Linear { end, .. } => end,
            MotionSegment::Bezier { end, .. } => end,
            MotionSegment::Stepped { end, .. } => end,
            MotionSegment::InverseStepped { end, .. } => end,
        }
    }
}

/// The start point of a segment.
pub open spec fn segment_start(s: MotionSegment) -> MotionPoint {
    match s {
        MotionSegment::Linear { start, .. } => start,
        MotionSegment::Bezier { start, .. } => start,
        MotionSegment::Stepped { start, .. } => start,
        MotionSegment::InverseStepped { start, .. } => start,
    }
}

/// The segment type a float names, given by its bit pattern: `0`, `1`, `2`
/// or `3` (negative zero counting as `0`); any other value names none.
pub open spec fn segment_kind(bits: u32) -> Option<u32> {
    if bits == 0 || bits == 0x8000_0000 {
        Some(0)
    } else if bits == 0x3f80_0000 {
        Some(1)
    } else if bits == 0x4000_0000 {
        Some(2)
    } else if bits == 0x4040_0000 {
        Some(3)
    } else {
        None
    }
}

/// The point whose time and value stand at `c` and `c + 1`.
pub open spec fn point_at(values: Seq<u32>, c: int) -> MotionPoint {
    MotionPoint { time_bits: values[c], value_bits: values[c + 1] }
}

/// The segments encoded from `cursor` on, each a type followed by its
/// points, starting at `start`; `None` when a type is unknown or a point is
/// incomplete.
pub open spec fn segments_from(values: Seq<u32>, cursor: int, start: MotionPoint) -> Option<Seq<MotionSegment>>
    decreases values.len() - cursor,
{
    if cursor < 0 || cursor >= values.len() {
        Some(Seq::empty())
    } else {
        let c = cursor + 1;
        match segment_kind(values[cursor]) {
            None => None,
            Some(kind) => if kind == 1 {
                if c + 6 > values.len() {
                    None
                } else {
                    let segment = MotionSegment::Bezier {
                        start,
                        control1: point_at(values, c),
                        control2: point_at(values, c + 2),
                        end: point_at(values, c + 4),
                    };
                    match segments_from(values, c + 6, point_at(values, c + 4)) {
                        None => None,
                        Some(rest) => Some(seq![segment] + rest),
                    }
                }
            } else if c + 2 > values.len() {
                None
            } else {
                let end = point_at(values, c);
                let segment = if kind == 0 {
                    MotionSegment::Linear { start, end }
                } else if kind == 2 {
                    MotionSegment::Stepped { start, end }
                } else {
                    MotionSegment::InverseStepped { start, end }
                };
                match segments_from(values, c + 2, end) {
                    None => None,
                    Some(rest) => Some(seq![segment] + rest),
                }
            },
        }
    }
}

/// A curve as read from the document: its segments are the flat list of
/// float bit patterns.
#[derive(Debug, Clone)]
pub struct RawCurve {
    /// The curve target, such as `Parameter` or `PartOpacity`.
    pub target: String,
    /// The target identifier.
    pub id: String,
    /// Bit patterns of the flat segment list.
    pub segments: Vec<u32>,
    /// Bit pattern of the optional fade-in override.
    pub fade_in_bits: Option<u32>,
    /// Bit pattern of the optional fade-out override.
    pub fade_out_bits: Option<u32>,
}

/// The abstract contents of a [`MotionCurve`].
pub struct MotionCurveView {
    pub target: Seq<char>,
    pub id: Seq<char>,
    pub first_point: MotionPoint,
    pub segments: Seq<MotionSegment>,
    pub fade_in_bits: Option<u32>,
    pub fade_out_bits: Option<u32>,
}

/// One animated target curve.
#[derive(Debug, Clone)]
pub struct MotionCurve {
    target: String,
    id: String,
    first_point: MotionPoint,
    segments: Vec<MotionSegment>,
    fade_in_bits: Option<u32>,
    fade_out_bits: Option<u32>,
}

impl View for MotionCurve {
    type V = MotionCurveView;

    closed spec fn view(&self) -> MotionCurveView {
        MotionCurveView {
            target: self.target@,
            id: self.id@,
            first_point: self.first_point,
            segments: self.segments@,
            fade_in_bits: self.fade_in_bits,
            fade_out_bits: self.fade_out_bits,
        }
    }
}

/// The views of a sequence of curves.
pub open spec fn curve_views(v: Seq<MotionCurve>) -> Seq<MotionCurveView> {
    v.map_values(|c: MotionCurve| c@)
}

/// The curve a raw curve encodes: its first point, then its segments.
pub open spec fn curve_of(
    target: Seq<char>,
    id: Seq<char>,
    values: Seq<u32>,
    fade_in_bits: Option<u32>,
    fade_out_bits: Option<u32>,
) -> Option<MotionCurveView> {
    if values.len() < 2 {
        None
    } else {
        let first = point_at(values, 0);
        match segments_from(values, 2, first) {
            None => None,
            Some(segments) => Some(
                MotionCurveView { target, id, first_point: first, segments, fade_in_bits, fade_out_bits },
            ),
        }
    }
}

/// The document kind named in errors, `motion3.json`.
pub open spec fn motion_format() -> Seq<char> {
    "motion3.json"@
}

/// Builds an [`Error::InvalidJson`] for a motion document.
fn invalid_motion(message: &str) -> (res: Error)
    ensures
        invalid_json(Err::<(), Error>(res), motion_format()),
{
    Error::InvalidJson { format: String::from_str("motion3.json"), message: String::from_str(message) }
}

/// Decodes the segment type named by a float's bit pattern.
fn read_kind(bits: u32) -> (res: Option<u32>)
    ensures
        res == segment_kind(bits),
{
    if bits == 0 || bits == 0x8000_0000 {
        Some(0)
    } else if bits == 0x3f80_0000 {
        Some(1)
    } else if bits == 0x4000_0000 {
        Some(2)
    } else if bits == 0x4040_0000 {
        Some(3)
    } else {
        None
    }
}

/// Reads the first point and the segments of a curve.
pub fn parse_curve(raw: RawCurve) -> (res: Result<MotionCurve, Error>)
    ensures
        match curve_of(raw.target@, raw.id@, raw.segments@, raw.fade_in_bits, raw.fade_out_bits) {
            Some(c) => res matches Ok(v) && v@ == c,
            None => invalid_json(res, motion_format()),
        },
{
    let values = &raw.segments;
    let ghost vs = values@;
    if values.len() < 2 {
        return Err(invalid_motion("curve has no first point"));
    }
    let first_point = MotionPoint { time_bits: values[0], value_bits: values[1] };
    let mut cursor: usize = 2;
    let mut start = first_point;
    let mut segments: Vec<MotionSegment> = Vec::new();
    while cursor < values.len()
        invariant
            vs == values@,
            vs == raw.segments@,
            first_point == point_at(vs, 0),
            2 <= cursor <= vs.len(),
            segments_from(vs, 2, first_point) == match segments_from(vs, cursor as int, start) {
                None => None,
                Some(rest) => Some(segments@ + rest),
            },
        decreases vs.len() - cursor,
    {
        let kind = match read_kind(values[cursor]) {
            Some(kind) => kind,
            None => {
                assert(segments_from(vs, cursor as int, start) is None);
                return Err(invalid_motion("segment type must be 0, 1, 2, or 3"));
            },
        };
        let c = cursor + 1;
        let ghost before = segments@;
        if kind == 1 {
            if values.len() - c < 6 {
                assert(segments_from(vs, cursor as int, start) is None);
                return Err(invalid_motion("segment point is incomplete"));
            }
            let end = MotionPoint { time_bits: values[c + 4], value_bits: values[c + 5] };
            let segment = MotionSegment::Bezier {
                start,
                control1: MotionPoint { time_bits: values[c], value_bits: values[c + 1] },
                control2: MotionPoint { time_bits: values[c + 2], value_bits: values[c + 3] },
                end,
            };
            segments.push(segment);
            start = end;
            cursor = c + 6;
        } else {
            if values.len() - c < 2 {
                assert(segments_from(vs, cursor as int, start) is None);
                return Err(invalid_motion("segment point is incomplete"));
            }
            let end = MotionPoint { time_bits: values[c], value_bits: values[c + 1] };
            let segment = if kind == 0 {
                MotionSegment::Linear { start, end }
            } else if kind == 2 {
                MotionSegment::Stepped { start, end }
            } else {
                MotionSegment::InverseStepped { start, end }
            };
            segments.push(segment);
            start = end;
            cursor = c + 2;
        }
        proof {
            let last = segments@.last();
            assert(segments@ == before.push(last));
            match segments_from(vs, cursor as int, start) {
                None => {},
                Some(rest) => {
                    assert(before + (seq![last] + rest) =~= segments@ + rest);
                },
            }
        }
    }
    assert(segments@ + Seq::<MotionSegment>::empty() =~= segments@);
    Ok(MotionCurve {
        target: raw.target,
        id: raw.id,
        first_point,
        segments,
        fade_in_bits: raw.fade_in_bits,
        fade_out_bits: raw.fade_out_bits,
    })
}

impl MotionCurve {
    /// Returns the curve target, such as `Parameter` or `PartOpacity`.
    pub fn target(&self) -> (res: &str)
        ensures
            res@ == self@.target,
    {
        self.target.as_str()
    }

    /// Returns the target parameter or part identifier.
    pub fn id(&self) -> (res: &str)
        ensures
            res@ == self@.id,
    {
        self.id.as_str()
    }

    /// Returns the first point.
    pub fn first_point(&self) -> (res: MotionPoint)
        ensures
            res == self@.first_point,
    {
        self.first_point
    }

    /// Returns all interpolation segments.
    pub fn segments(&self) -> (res: &[MotionSegment])
        ensures
            res@ == self@.segments,
    {
        self.segments.as_slice()
    }

    /// Returns the bit pattern of the optional curve fade-in override.
    pub fn fade_in_bits(&self) -> (res: Option<u32>)
        ensures
            res == self@.fade_in_bits,
    {
        self.fade_in_bits
    }

    /// Returns the bit pattern of the optional curve fade-out override.
    pub fn fade_out_bits(&self) -> (res: Option<u32>)
        ensures
            res == self@.fade_out_bits,
    {
        self.fade_out_bits
    }
}

/// Metadata from a Cubism motion file; `duration_bits` and `fps_bits` are
/// float bit patterns.
#[derive(Debug, Copy, Clone, PartialEq, Eq, Structural)]
pub struct MotionMeta {
    /// Bit pattern of the motion duration in seconds.
    pub duration_bits: u32,
    /// Bit pattern of the motion frame rate.
    pub fps_bits: u32,
    /// Whether the motion loops.
    pub loop_motion: bool,
    /// Whether Bezier time coordinates use restricted semantics.
    pub are_beziers_restricted: bool,
    /// The curve count reported by the file.
    pub curve_count: u32,
    /// The total segment count reported by the file.
    pub total_segment_count: u32,
    /// The total point count reported by the file.
    pub total_point_count: u32,
    /// The user-data event count reported by the file.
    pub user_data_count: u32,
    /// The user-data byte size reported by the file.
    pub total_user_data_size: u32,
}

impl MotionMeta {
    /// Returns the bit pattern of the motion duration in seconds.
    pub fn duration_bits(&self) -> (res: u32)
        ensures
            res == self.duration_bits,
    {
        self.duration_bits
    }

    /// Returns the bit pattern of the motion frame rate.
    pub fn fps_bits(&self) -> (res: u32)
        ensures
            res == self.fps_bits,
    {
        self.fps_bits
    }

    /// Returns whether the motion loops.
    pub fn is_looping(&self) -> (res: bool)
        ensures
            res == self.loop_motion,
    {
        self.loop_motion
    }

    /// Returns whether Bezier time coordinates use restricted semantics.
    pub fn are_beziers_restricted(&self) -> (res: bool)
        ensures
            res == self.are_beziers_restricted,
    {
        self.are_beziers_restricted
    }

    /// Returns the curve count reported by the file.
    pub fn curve_count(&self) -> (res: u32)
        ensures
            res == self.curve_count,
    {
        self.curve_count
    }

    /// Returns the total segment count reported by the file.
    pub fn total_segment_count(&self) -> (res: u32)
        ensures
            res == self.total_segment_count,
    {
        self.total_segment_count
    }

    /// Returns the total point count reported by the file.
    pub fn total_point_count(&self) -> (res: u32)
        ensures
            res == self.total_point_count,
    {
        self.total_point_count
    }

    /// Returns the user-data event count reported by the file.
    pub fn user_data_count(&self) -> (res: u32)
        ensures
            res == self.user_data_count,
    {
        self.user_data_count
    }

    /// Returns the user-data byte size reported by the file.
    pub fn total_user_data_size(&self) -> (res: u32)
        ensures
            res == self.total_user_data_size,
    {
        self.total_user_data_size
    }
}

/// A timed user-data event embedded in a motion.
#[derive(Debug, Clone)]
pub struct MotionUserData {
    /// Bit pattern of the event time in seconds.
    pub time_bits: u32,
    /// Event payload.
    pub value: String,
}

/// How many points a segment adds: three for a Bezier curve, else one.
pub open spec fn segment_points(s: MotionSegment) -> nat {
    match s {
        MotionSegment::Bezier { .. } => 3,
        _ => 1,
    }
}

/// How many points a curve has: its first point and those of its segments.
pub open spec fn curve_points(segments: Seq<MotionSegment>) -> nat
    decreases segments.len(),
{
    if segments.len() == 0 {
        1
    } else {
        curve_points(segments.drop_last()) + segment_points(segments.last())
    }
}

/// Whether a segment is a Bezier curve.
pub open spec fn is_bezier(s: MotionSegment) -> bool {
    s is Bezier
}

/// A curve's point count: its first point, one end point per segment,
/// and the two control points of each Bezier segment; a linear, stepped
/// or inverse stepped segment adds its end point alone.
pub proof fn lemma_curve_points_count(segments: Seq<MotionSegment>)
    ensures
        curve_points(segments) == 1 + segments.len() + 2 * segments.filter(|s: MotionSegment| is_bezier(s)).len(),
    decreases segments.len(),
{
    reveal(Seq::filter);
    if segments.len() > 0 {
        lemma_curve_points_count(segments.drop_last());
    }
}

/// The point count of a motion's curves: per curve its first point, one
/// end point per segment and two control points per Bezier segment.
pub proof fn lemma_total_points_count(curves: Seq<MotionCurveView>)
    ensures
        total_points(curves) == curves.len() + total_segments(curves) + 2 * bezier_total(curves),
    decreases curves.len(),
{
    if curves.len() > 0 {
        lemma_total_points_count(curves.drop_last());
        lemma_curve_points_count(curves.last().segments);
    }
}

/// A document whose point count is the curves' first points, segment end
/// points and Bezier control points, and whose other counts agree, passes
/// the metadata check.
pub proof fn lemma_exact_point_count_accepted(meta: MotionMeta, curves: Seq<MotionCurveView>, user_data_count: nat)
    requires
        count_agrees(meta.curve_count, curves.len()),
        count_agrees(meta.total_segment_count, total_segments(curves)),
        count_agrees(meta.user_data_count, user_data_count),
        meta.total_point_count == curves.len() + total_segments(curves) + 2 * bezier_total(curves),
    ensures
        metadata_ok(meta, curves, user_data_count),
{
    lemma_total_points_count(curves);
}

/// How many Bezier segments the curves have.
pub open spec fn bezier_total(curves: Seq<MotionCurveView>) -> nat
    decreases curves.len(),
{
    if curves.len() == 0 {
        0
    } else {
        bezier_total(curves.drop_last()) + curves.last().segments.filter(|s: MotionSegment| is_bezier(s)).len()
    }
}

/// How many segments the curves have.
pub open spec fn total_segments(curves: Seq<MotionCurveView>) -> nat
    decreases curves.len(),
{
    if curves.len() == 0 {
        0
    } else {
        total_segments(curves.drop_last()) + curves.last().segments.len()
    }
}

/// How many points the curves have.
pub open spec fn total_points(curves: Seq<MotionCurveView>) -> nat
    decreases curves.len(),
{
    if curves.len() == 0 {
        0
    } else {
        total_points(curves.drop_last()) + curve_points(curves.last().segments)
    }
}

/// Whether a count the document reports is absent (zero) or right.
pub open spec fn count_agrees(reported: u32, actual: nat) -> bool {
    reported == 0 || reported == actual
}

/// Whether the counts of the metadata agree with the curves and events.
pub open spec fn metadata_ok(meta: MotionMeta, curves: Seq<MotionCurveView>, user_data_count: nat) -> bool {
    &&& count_agrees(meta.curve_count, curves.len())
    &&& count_agrees(meta.total_segment_count, total_segments(curves))
    &&& count_agrees(meta.total_point_count, total_points(curves))
    &&& count_agrees(meta.user_data_count, user_data_count)
}

/// The smaller of `n` and `2^32`.
pub open spec fn capped(n: nat) -> nat {
    if n > 0x1_0000_0000 {
        0x1_0000_0000
    } else {
        n
    }
}

/// Counts the points of a curve, stopping at `2^32`.
fn count_curve_points(segments: &[MotionSegment]) -> (res: u64)
    ensures
        res == capped(curve_points(segments@)),
{
    let mut count: u64 = 1;
    let mut i: usize = 0;
    while i < segments.len()
        invariant
            i <= segments@.len(),
            count == capped(curve_points(segments@.subrange(0, i as int))),
        decreases segments@.len() - i,
    {
        assert(segments@.subrange(0, i + 1).drop_last() =~= segments@.subrange(0, i as int));
        let add: u64 = match segments[i] {
            MotionSegment::Bezier { .. } => 3,
            _ => 1,
        };
        count = if count + add > 0x1_0000_0000 {
            0x1_0000_0000
        } else {
            count + add
        };
        i = i + 1;
    }
    assert(segments@.subrange(0, segments@.len() as int) =~= segments@);
    count
}

/// Checks the counts of the metadata against the curves and events.
pub fn validate_metadata(meta: &MotionMeta, curves: &[MotionCurve], user_data_count: usize) -> (res: Result<(), Error>)
    ensures
        res is Ok <==> metadata_ok(*meta, curve_views(curves@), user_data_count as nat),
        res is Err ==> invalid_json(res, motion_format()),
{
    let ghost cs = curve_views(curves@);
    let mut segment_count: u64 = 0;
    let mut point_count: u64 = 0;
    let mut i: usize = 0;
    while i < curves.len()
        invariant
            i <= curves@.len(),
            cs == curve_views(curves@),
            segment_count == capped(total_segments(cs.subrange(0, i as int))),
            point_count == capped(total_points(cs.subrange(0, i as int))),
        decreases curves@.len() - i,
    {
        assert(cs.subrange(0, i + 1).drop_last() =~= cs.subrange(0, i as int));
        assert(cs[i as int] == curves@[i as int]@);
        let segments = curves[i].segments();
        let len = segments.len() as u64;
        segment_count = if len > 0x1_0000_0000 || segment_count + len > 0x1_0000_0000 {
            0x1_0000_0000
        } else {
            segment_count + len
        };
        let points = count_curve_points(segments);
        point_count = if point_count + points > 0x1_0000_0000 {
            0x1_0000_0000
        } else {
            point_count + points
        };
        i = i + 1;
    }
    assert(cs.subrange(0, curves@.len() as int) =~= cs);
    if meta.curve_count != 0 && meta.curve_count as usize != curves.len() {
        return Err(invalid_motion("Meta.CurveCount does not match Curves"));
    }
    if meta.total_segment_count != 0 && meta.total_segment_count as u64 != segment_count {
        return Err(invalid_motion("Meta.TotalSegmentCount does not match parsed segments"));
    }
    if meta.total_point_count != 0 && meta.total_point_count as u64 != point_count {
        return Err(invalid_motion("Meta.TotalPointCount does not match parsed points"));
    }
    if meta.user_data_count != 0 && meta.user_data_count as usize != user_data_count {
        return Err(invalid_motion("Meta.UserDataCount does not match UserData"));
    }
    Ok(())
}

/// The abstract contents of a [`Motion3`].
pub struct Motion3View {
    pub version: u32,
    pub meta: MotionMeta,
    pub curves: Seq<MotionCurveView>,
    pub user_data: Seq<MotionUserData>,
}

/// A parsed Cubism `motion3.json` document.
#[derive(Debug, Clone)]
pub struct Motion3 {
    version: u32,
    meta: MotionMeta,
    curves: Vec<MotionCurve>,
    user_data: Vec<MotionUserData>,
}

impl View for Motion3 {
    type V = Motion3View;

    closed spec fn view(&self) -> Motion3View {
        Motion3View {
            version: self.version,
            meta: self.meta,
            curves: curve_views(self.curves@),
            user_data: self.user_data@,
        }
    }
}

/// Whether every raw curve encodes a curve.
pub open spec fn curves_ok(raw: Seq<RawCurve>) -> bool {
    forall|i: int|
        0 <= i < raw.len() ==> (#[trigger] curve_of(
            raw[i].target@,
            raw[i].id@,
            raw[i].segments@,
            raw[i].fade_in_bits,
            raw[i].fade_out_bits,
        )) is Some
}

/// The curves the raw curves encode.
pub open spec fn curves_of(raw: Seq<RawCurve>) -> Seq<MotionCurveView> {
    Seq::new(
        raw.len(),
        |i: int|
            curve_of(raw[i].target@, raw[i].id@, raw[i].segments@, raw[i].fade_in_bits, raw[i].fade_out_bits)->Some_0,
    )
}

impl Motion3 {
    /// Builds a motion from the fields read from its JSON text: only
    /// version 3 is accepted, every curve must decode and the metadata
    /// counts must agree with what was decoded.
    pub fn from_fields(
        version: u32,
        meta: MotionMeta,
        curves: Vec<RawCurve>,
        user_data: Vec<MotionUserData>,
    ) -> (res: Result<Motion3, Error>)
        ensures
            version != 3 ==> unsupported_version(res, motion_format(), version),
            version == 3 && !curves_ok(curves@) ==> invalid_json(res, motion_format()),
            version == 3 && curves_ok(curves@) && !metadata_ok(meta, curves_of(curves@), user_data@.len())
                ==> invalid_json(res, motion_format()),
            version == 3 && curves_ok(curves@) && metadata_ok(meta, curves_of(curves@), user_data@.len()) ==> (
            res matches Ok(m) && m@ == (Motion3View {
                version,
                meta,
                curves: curves_of(curves@),
                user_data: user_data@,
            })),
    {
        check_version("motion3.json", version)?;
        let ghost raw = curves@;
        let mut parsed: Vec<MotionCurve> = Vec::new();
        let mut remaining = curves;
        let mut index: usize = 0;
        let count = remaining.len();
        while index < count
            invariant
                index <= count,
                version == 3,
                raw == curves@,
                count == raw.len(),
                remaining@ == raw.subrange(index as int, count as int),
                parsed@.len() == index,
                forall|j: int|
                    0 <= j < index ==> (#[trigger] curve_of(
                        raw[j].target@,
                        raw[j].id@,
                        raw[j].segments@,
                        raw[j].fade_in_bits,
                        raw[j].fade_out_bits,
                    )) == Some(parsed@[j]@),
            decreases count - index,
        {
            let curve = remaining.remove(0);
            assert(curve == raw[index as int]);
            let parsed_curve = match parse_curve(curve) {
                Ok(c) => c,
                Err(e) => {
                    let ghost r = raw[index as int];
                    assert(curve_of(r.target@, r.id@, r.segments@, r.fade_in_bits, r.fade_out_bits) is None);
                    assert(!curves_ok(raw));
                    return Err(e);
                },
            };
            parsed.push(parsed_curve);
            index = index + 1;
            assert(remaining@ =~= raw.subrange(index as int, count as int));
        }
        assert(curve_views(parsed@) =~= curves_of(raw));
        validate_metadata(&meta, parsed.as_slice(), user_data.len())?;
        Ok(Motion3 { version, meta, curves: parsed, user_data })
    }

    /// Returns the motion format version.
    pub fn version(&self) -> (res: u32)
        ensures
            res == self@.version,
    {
        self.version
    }

    /// Returns motion metadata.
    pub fn meta(&self) -> (res: MotionMeta)
        ensures
            res == self@.meta,
    {
        self.meta
    }

    /// Returns all animation curves.
    pub fn curves(&self) -> (res: &[MotionCurve])
        ensures
            curve_views(res@) == self@.curves,
    {
        self.curves.as_slice()
    }

    /// Returns timed user-data events.
    pub fn user_data(&self) -> (res: &[MotionUserData])
        ensures
            res@ == self@.user_data,
    {
        self.user_data.as_slice()
    }
}

/// Decoded segments form a chain: the first starts at the given point and
/// each one starts where the one before it ends.
pub proof fn lemma_segments_chain(values: Seq<u32>, cursor: int, start: MotionPoint)
    ensures
        segments_from(values, cursor, start) matches Some(segs) ==> {
            &&& segs.len() > 0 ==> segment_start(segs[0]) == start
            &&& forall|i: int| 0 <= i < segs.len() - 1 ==> segment_start(#[trigger] segs[i + 1]) == segment_end(segs[i])
        },
    decreases values.len() - cursor,
{
    if 0 <= cursor < values.len() {
        let c = cursor + 1;
        match segment_kind(values[cursor]) {
            None => {},
            Some(kind) => {
                if kind == 1 {
                    if c + 6 <= values.len() {
                        lemma_segments_chain(values, c + 6, point_at(values, c + 4));
                    }
                } else if c + 2 <= values.len() {
                    lemma_segments_chain(values, c + 2, point_at(values, c));
                }
                if let Some(segs) = segments_from(values, cursor, start) {
                    let first = segs[0];
                    let rest = segs.drop_first();
                    assert(segs == seq![first] + rest);
                    assert forall|i: int| 0 <= i < segs.len() - 1 implies segment_start(#[trigger] segs[i + 1])
                        == segment_end(segs[i]) by {
                        if i > 0 {
                            assert(segs[i + 1] == rest[i]);
                            assert(segs[i] == rest[i - 1]);
                        } else {
                            assert(segs[1] == rest[0]);
                        }
                    }
                }
            },
        }
    }
}

/// A decoded curve's segments start at its first point and each starts
/// where the one before it ends.
pub proof fn lemma_curve_chain(
    target: Seq<char>,
    id: Seq<char>,
    values: Seq<u32>,
    fade_in_bits: Option<u32>,
    fade_out_bits: Option<u32>,
)
    ensures
        curve_of(target, id, values, fade_in_bits, fade_out_bits) matches Some(c) ==> {
            &&& c.segments.len() > 0 ==> segment_start(c.segments[0]) == c.first_point
            &&& forall|i: int|
                0 <= i < c.segments.len() - 1 ==> segment_start(#[trigger] c.segments[i + 1]) == segment_end(
                    c.segments[i],
                )
        },
{
    if values.len() >= 2 {
        lemma_segments_chain(values, 2, point_at(values, 0));
    }
}

} // verus!
