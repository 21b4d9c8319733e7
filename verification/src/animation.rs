//! The animation document written for a model's motions: one scene per
//! motion with its group and model tracks, the model's parameter curves as
//! keyed attributes, its effects, the animation listing the scenes and the
//! manager of the linked model.

use vstd::prelude::*;
use vstd::string::StringSliceAdditionalSpecFns;

use crate::can3::{segment_type, segment_type_name};
use crate::decompiler::images::{random_uuid, uuid_text};
use crate::error::{can3_error, invalid_can3, Error};
use crate::model3::Model3Group;
use crate::motion3::{curve_views, Motion3, MotionCurve, MotionCurveView, MotionSegment};
use crate::scene::{
    animation_text, bytes_of, parts_effect_text, push_escaped, push_text, resource_manager_text, special_effects_text,
    write_animation, write_parts_effect, write_resource_manager, write_special_effects,
};
use crate::text::{decimal, escape_bytes, occurs_at, push_decimal};

verus! {

/// The text of a flag.
pub open spec fn flag_bytes(b: bool) -> Seq<u8> {
    if b {
        "true".spec_bytes()
    } else {
        "false".spec_bytes()
    }
}

/// Appends the text of a flag.
fn push_flag(out: &mut Vec<u8>, b: bool)
    ensures
        final(out)@ == old(out)@ + flag_bytes(b),
{
    if b {
        push_text(out, "true");
    } else {
        push_text(out, "false");
    }
}

/// The root group track of a scene and its identifier `uuid`.
#[verifier::opaque]
pub open spec fn group_track_text(group: u64, guid: u64, scene: u64, track: u64, uuid: Seq<char>) -> Seq<u8> {
    "<CMvTrack_Group_Source xs.id=\"#".spec_bytes()
        + decimal(group as nat)
        + "\"><ICMvTrack_Source xs.n=\"super\"><s xs.n=\"name\">Root</s><b xs.n=\"isUserRenamed\">false</b><CTrackGuid xs.n=\"guid\" xs.ref=\"#".spec_bytes()
        + decimal(guid as nat)
        + "\" /><i xs.n=\"start\">0</i><i xs.n=\"internalOffset\">0</i><i xs.n=\"duration\">0</i><b xs.n=\"editable\">true</b><b xs.n=\"visible\">true</b><b xs.n=\"mute\">false</b><b xs.n=\"isGuide\">false</b><b xs.n=\"isRepeat\">false</b><b xs.n=\"soloSwitch\">false</b><null xs.n=\"soundEffect\" /><null xs.n=\"visualEffect\" /><CMvEffectManager xs.n=\"effectManager\"><array xs.n=\"effectList\" count=\"0\" type=\"ICMvEffect\" /></CMvEffectManager><null xs.n=\"parentGuid\" /><CSceneSource xs.n=\"_sceneSource\" xs.ref=\"#".spec_bytes()
        + decimal(scene as nat)
        + "\" /><hash_map xs.n=\"userData\" count=\"0\" keyType=\"string\" /></ICMvTrack_Source><carray_list xs.n=\"_childTrackGuids\" count=\"1\"><CTrackGuid xs.ref=\"#".spec_bytes()
        + decimal(track as nat)
        + "\" /></carray_list><GRectF xs.n=\"bounds\"><f xs.n=\"x\">0.0</f><f xs.n=\"y\">0.0</f><f xs.n=\"width\">640.0</f><f xs.n=\"height\">480.0</f></GRectF></CMvTrack_Group_Source><CTrackGuid uuid=\"".spec_bytes()
        + bytes_of(uuid)
        + "\" xs.id=\"#".spec_bytes()
        + decimal(guid as nat)
        + "\" />\n".spec_bytes()
}

/// Appends the root group track of a scene.
#[verifier::spinoff_prover]
fn write_group_track(out: &mut Vec<u8>, group: u64, guid: u64, scene: u64, track: u64, uuid: &str)
    ensures
        final(out)@ == old(out)@ + group_track_text(group, guid, scene, track, uuid@),
{
    let ghost start = out@;
    push_text(out, "<CMvTrack_Group_Source xs.id=\"#");
    push_decimal(out, group);
    push_text(out, "\"><ICMvTrack_Source xs.n=\"super\"><s xs.n=\"name\">Root</s><b xs.n=\"isUserRenamed\">false</b><CTrackGuid xs.n=\"guid\" xs.ref=\"#");
    push_decimal(out, guid);
    push_text(out, "\" /><i xs.n=\"start\">0</i><i xs.n=\"internalOffset\">0</i><i xs.n=\"duration\">0</i><b xs.n=\"editable\">true</b><b xs.n=\"visible\">true</b><b xs.n=\"mute\">false</b><b xs.n=\"isGuide\">false</b><b xs.n=\"isRepeat\">false</b><b xs.n=\"soloSwitch\">false</b><null xs.n=\"soundEffect\" /><null xs.n=\"visualEffect\" /><CMvEffectManager xs.n=\"effectManager\"><array xs.n=\"effectList\" count=\"0\" type=\"ICMvEffect\" /></CMvEffectManager><null xs.n=\"parentGuid\" /><CSceneSource xs.n=\"_sceneSource\" xs.ref=\"#");
    push_decimal(out, scene);
    push_text(out, "\" /><hash_map xs.n=\"userData\" count=\"0\" keyType=\"string\" /></ICMvTrack_Source><carray_list xs.n=\"_childTrackGuids\" count=\"1\"><CTrackGuid xs.ref=\"#");
    push_decimal(out, track);
    push_text(out, "\" /></carray_list><GRectF xs.n=\"bounds\"><f xs.n=\"x\">0.0</f><f xs.n=\"y\">0.0</f><f xs.n=\"width\">640.0</f><f xs.n=\"height\">480.0</f></GRectF></CMvTrack_Group_Source><CTrackGuid uuid=\"");
    push_text(out, uuid);
    push_text(out, "\" xs.id=\"#");
    push_decimal(out, guid);
    push_text(out, "\" />\n");
    reveal(group_track_text);
    assert(out@ =~= start + group_track_text(group, guid, scene, track, uuid@));
}

/// Part 1 of a scene named `name` of `frames` frames at `fps`, with its identifier `uuid`.
#[verifier::opaque]
pub open spec fn scene_a_text(scene: u64, name: Seq<char>, scene_guid: u64, group: u64) -> Seq<u8> {
    "<CSceneSource xs.id=\"#".spec_bytes()
        + decimal(scene as nat)
        + "\"><s xs.n=\"sceneName\">".spec_bytes()
        + escape_bytes(bytes_of(name))
        + "</s><CImageCanvas xs.n=\"canvas\"><i xs.n=\"pixelWidth\">320</i><i xs.n=\"pixelHeight\">240</i><CColor xs.n=\"background\" /></CImageCanvas><CSceneGuid xs.n=\"guid\" xs.ref=\"#".spec_bytes()
        + decimal(scene_guid as nat)
        + "\" /><s xs.n=\"tag\" /><CTrackSourceSet xs.n=\"trackSourceSet\"><carray_list xs.n=\"_sources\" count=\"2\"><CMvTrack_Group_Source xs.ref=\"#".spec_bytes()
        + decimal(group as nat)
}

/// Appends part 1 of a scene.
#[verifier::spinoff_prover]
fn write_scene_a(out: &mut Vec<u8>, scene: u64, name: &str, scene_guid: u64, group: u64)
    ensures
        final(out)@ == old(out)@ + scene_a_text(scene, name@, scene_guid, group),
{
    let ghost start = out@;
    push_text(out, "<CSceneSource xs.id=\"#");
    push_decimal(out, scene);
    push_text(out, "\"><s xs.n=\"sceneName\">");
    push_escaped(out, name);
    push_text(out, "</s><CImageCanvas xs.n=\"canvas\"><i xs.n=\"pixelWidth\">320</i><i xs.n=\"pixelHeight\">240</i><CColor xs.n=\"background\" /></CImageCanvas><CSceneGuid xs.n=\"guid\" xs.ref=\"#");
    push_decimal(out, scene_guid);
    push_text(out, "\" /><s xs.n=\"tag\" /><CTrackSourceSet xs.n=\"trackSourceSet\"><carray_list xs.n=\"_sources\" count=\"2\"><CMvTrack_Group_Source xs.ref=\"#");
    push_decimal(out, group);
    reveal(scene_a_text);
    assert(out@ =~= start + scene_a_text(scene, name@, scene_guid, group));
}

/// Part 2 of a scene named `name` of `frames` frames at `fps`, with its identifier `uuid`.
#[verifier::opaque]
pub open spec fn scene_b_text(track: u64, group: u64, duration: u64, fps: Seq<char>, frames: u64) -> Seq<u8> {
    "\" /><CMvTrack_Live2DModel_Source xs.ref=\"#".spec_bytes()
        + decimal(track as nat)
        + "\" /></carray_list></CTrackSourceSet><CMvTrack_Group_Source xs.n=\"rootTrack\" xs.ref=\"#".spec_bytes()
        + decimal(group as nat)
        + "\" /><CMvMovieInfo xs.n=\"movieInfo\"><i xs.n=\"width\">320</i><i xs.n=\"height\">240</i><i xs.n=\"duration\">".spec_bytes()
        + decimal(duration as nat)
        + "</i><d xs.n=\"fps\">".spec_bytes()
        + bytes_of(fps)
        + "</d><i xs.n=\"workspaceStart\">0</i><i xs.n=\"workspaceEnd\">".spec_bytes()
        + decimal(frames as nat)
}

/// Appends part 2 of a scene.
#[verifier::spinoff_prover]
fn write_scene_b(out: &mut Vec<u8>, track: u64, group: u64, duration: u64, fps: &str, frames: u64)
    ensures
        final(out)@ == old(out)@ + scene_b_text(track, group, duration, fps@, frames),
{
    let ghost start = out@;
    push_text(out, "\" /><CMvTrack_Live2DModel_Source xs.ref=\"#");
    push_decimal(out, track);
    push_text(out, "\" /></carray_list></CTrackSourceSet><CMvTrack_Group_Source xs.n=\"rootTrack\" xs.ref=\"#");
    push_decimal(out, group);
    push_text(out, "\" /><CMvMovieInfo xs.n=\"movieInfo\"><i xs.n=\"width\">320</i><i xs.n=\"height\">240</i><i xs.n=\"duration\">");
    push_decimal(out, duration);
    push_text(out, "</i><d xs.n=\"fps\">");
    push_text(out, fps);
    push_text(out, "</d><i xs.n=\"workspaceStart\">0</i><i xs.n=\"workspaceEnd\">");
    push_decimal(out, frames);
    reveal(scene_b_text);
    assert(out@ =~= start + scene_b_text(track, group, duration, fps@, frames));
}

/// Part 3 of a scene named `name` of `frames` frames at `fps`, with its identifier `uuid`.
#[verifier::opaque]
pub open spec fn scene_c_text(restricted: bool, looping: bool, uuid: Seq<char>, scene_guid: u64) -> Seq<u8> {
    "</i><CColor xs.n=\"background\" /><i xs.n=\"fadeInMSec\">-1</i><i xs.n=\"fadeOutMSec\">-1</i><b xs.n=\"isBezierRestricted\">".spec_bytes()
        + flag_bytes(restricted)
        + "</b><b xs.n=\"isLoopMotion\">".spec_bytes()
        + flag_bytes(looping)
        + "</b><i xs.n=\"startFrame\">0</i><CFrameIndexType xs.n=\"frameIndexType\" v=\"ZERO_INDEX\" /></CMvMovieInfo><hash_map xs.n=\"marker\" count=\"0\" keyType=\"string\" /><CCurveType xs.n=\"defaultParameterCurveType\" v=\"SMOOTH\" /><CCurveType xs.n=\"defaultPartCurveType\" v=\"STEP\" /><b xs.n=\"fixAspect\">true</b><Animation xs.n=\"targetVersion\" v=\"FOR_SDK\" /></CSceneSource><CSceneGuid uuid=\"".spec_bytes()
        + bytes_of(uuid)
        + "\" xs.id=\"#".spec_bytes()
        + decimal(scene_guid as nat)
        + "\" />\n".spec_bytes()
}

/// Appends part 3 of a scene.
#[verifier::spinoff_prover]
fn write_scene_c(out: &mut Vec<u8>, restricted: bool, looping: bool, uuid: &str, scene_guid: u64)
    ensures
        final(out)@ == old(out)@ + scene_c_text(restricted, looping, uuid@, scene_guid),
{
    let ghost start = out@;
    push_text(out, "</i><CColor xs.n=\"background\" /><i xs.n=\"fadeInMSec\">-1</i><i xs.n=\"fadeOutMSec\">-1</i><b xs.n=\"isBezierRestricted\">");
    push_flag(out, restricted);
    push_text(out, "</b><b xs.n=\"isLoopMotion\">");
    push_flag(out, looping);
    push_text(out, "</b><i xs.n=\"startFrame\">0</i><CFrameIndexType xs.n=\"frameIndexType\" v=\"ZERO_INDEX\" /></CMvMovieInfo><hash_map xs.n=\"marker\" count=\"0\" keyType=\"string\" /><CCurveType xs.n=\"defaultParameterCurveType\" v=\"SMOOTH\" /><CCurveType xs.n=\"defaultPartCurveType\" v=\"STEP\" /><b xs.n=\"fixAspect\">true</b><Animation xs.n=\"targetVersion\" v=\"FOR_SDK\" /></CSceneSource><CSceneGuid uuid=\"");
    push_text(out, uuid);
    push_text(out, "\" xs.id=\"#");
    push_decimal(out, scene_guid);
    push_text(out, "\" />\n");
    reveal(scene_c_text);
    assert(out@ =~= start + scene_c_text(restricted, looping, uuid@, scene_guid));
}

/// Part 1 of the model track of a scene, `duration` frames long, with its effects, its linked resource and its identifier `uuid`.
#[verifier::opaque]
pub open spec fn model_track_a_text(track: u64, guid: u64, duration: u64, eye: u64, lip: u64) -> Seq<u8> {
    "<CMvTrack_Live2DModel_Source xs.id=\"#".spec_bytes()
        + decimal(track as nat)
        + "\"><ICMvTrack_Linked xs.n=\"super\"><ICMvTrack_Source xs.n=\"super\"><s xs.n=\"name\">Model</s><b xs.n=\"isUserRenamed\">true</b><CTrackGuid xs.n=\"guid\" xs.ref=\"#".spec_bytes()
        + decimal(guid as nat)
        + "\" /><i xs.n=\"start\">0</i><i xs.n=\"internalOffset\">0</i><i xs.n=\"duration\">".spec_bytes()
        + decimal(duration as nat)
        + "</i><b xs.n=\"editable\">true</b><b xs.n=\"visible\">true</b><b xs.n=\"mute\">false</b><b xs.n=\"isGuide\">false</b><b xs.n=\"isRepeat\">false</b><b xs.n=\"soloSwitch\">false</b><null xs.n=\"soundEffect\" /><CMvEffectManager xs.n=\"effectManager\"><array xs.n=\"effectList\" count=\"4\" type=\"ICMvEffect\"><CMvEffect_EyeBlink xs.ref=\"#".spec_bytes()
        + decimal(eye as nat)
        + "\" /><CMvEffect_LipSync xs.ref=\"#".spec_bytes()
        + decimal(lip as nat)
}

/// Appends part 1 of the model track of a scene.
#[verifier::spinoff_prover]
fn write_model_track_a(out: &mut Vec<u8>, track: u64, guid: u64, duration: u64, eye: u64, lip: u64)
    ensures
        final(out)@ == old(out)@ + model_track_a_text(track, guid, duration, eye, lip),
{
    let ghost start = out@;
    push_text(out, "<CMvTrack_Live2DModel_Source xs.id=\"#");
    push_decimal(out, track);
    push_text(out, "\"><ICMvTrack_Linked xs.n=\"super\"><ICMvTrack_Source xs.n=\"super\"><s xs.n=\"name\">Model</s><b xs.n=\"isUserRenamed\">true</b><CTrackGuid xs.n=\"guid\" xs.ref=\"#");
    push_decimal(out, guid);
    push_text(out, "\" /><i xs.n=\"start\">0</i><i xs.n=\"internalOffset\">0</i><i xs.n=\"duration\">");
    push_decimal(out, duration);
    push_text(out, "</i><b xs.n=\"editable\">true</b><b xs.n=\"visible\">true</b><b xs.n=\"mute\">false</b><b xs.n=\"isGuide\">false</b><b xs.n=\"isRepeat\">false</b><b xs.n=\"soloSwitch\">false</b><null xs.n=\"soundEffect\" /><CMvEffectManager xs.n=\"effectManager\"><array xs.n=\"effectList\" count=\"4\" type=\"ICMvEffect\"><CMvEffect_EyeBlink xs.ref=\"#");
    push_decimal(out, eye);
    push_text(out, "\" /><CMvEffect_LipSync xs.ref=\"#");
    push_decimal(out, lip);
    reveal(model_track_a_text);
    assert(out@ =~= start + model_track_a_text(track, guid, duration, eye, lip));
}

/// Part 2 of the model track of a scene, `duration` frames long, with its effects, its linked resource and its identifier `uuid`.
#[verifier::opaque]
pub open spec fn model_track_b_text(parameter: u64, parts: u64, parent: u64, scene: u64, resource: u64) -> Seq<u8> {
    "\" /><CMvEffect_Live2DParameter xs.ref=\"#".spec_bytes()
        + decimal(parameter as nat)
        + "\" /><CMvEffect_Live2DPartsVisible xs.ref=\"#".spec_bytes()
        + decimal(parts as nat)
        + "\" /></array></CMvEffectManager><CTrackGuid xs.n=\"parentGuid\" xs.ref=\"#".spec_bytes()
        + decimal(parent as nat)
        + "\" /><CSceneSource xs.n=\"_sceneSource\" xs.ref=\"#".spec_bytes()
        + decimal(scene as nat)
        + "\" /><hash_map xs.n=\"userData\" count=\"0\" keyType=\"string\" /></ICMvTrack_Source><CResourceGuid xs.n=\"_resourceGuid\" xs.ref=\"#".spec_bytes()
        + decimal(resource as nat)
}

/// Appends part 2 of the model track of a scene.
#[verifier::spinoff_prover]
fn write_model_track_b(out: &mut Vec<u8>, parameter: u64, parts: u64, parent: u64, scene: u64, resource: u64)
    ensures
        final(out)@ == old(out)@ + model_track_b_text(parameter, parts, parent, scene, resource),
{
    let ghost start = out@;
    push_text(out, "\" /><CMvEffect_Live2DParameter xs.ref=\"#");
    push_decimal(out, parameter);
    push_text(out, "\" /><CMvEffect_Live2DPartsVisible xs.ref=\"#");
    push_decimal(out, parts);
    push_text(out, "\" /></array></CMvEffectManager><CTrackGuid xs.n=\"parentGuid\" xs.ref=\"#");
    push_decimal(out, parent);
    push_text(out, "\" /><CSceneSource xs.n=\"_sceneSource\" xs.ref=\"#");
    push_decimal(out, scene);
    push_text(out, "\" /><hash_map xs.n=\"userData\" count=\"0\" keyType=\"string\" /></ICMvTrack_Source><CResourceGuid xs.n=\"_resourceGuid\" xs.ref=\"#");
    push_decimal(out, resource);
    reveal(model_track_b_text);
    assert(out@ =~= start + model_track_b_text(parameter, parts, parent, scene, resource));
}

/// Part 3 of the model track of a scene, `duration` frames long, with its effects, its linked resource and its identifier `uuid`.
#[verifier::opaque]
pub open spec fn model_track_c_text(parameter: u64, parts: u64, eye: u64, lip: u64, uuid: Seq<char>, guid: u64) -> Seq<u8> {
    "\" /></ICMvTrack_Linked><CMvEffect_Live2DParameter xs.n=\"keyParamEffect\" xs.ref=\"#".spec_bytes()
        + decimal(parameter as nat)
        + "\" /><CMvEffect_Live2DPartsVisible xs.n=\"partsVisibleEffect\" xs.ref=\"#".spec_bytes()
        + decimal(parts as nat)
        + "\" /><CMvEffect_EyeBlink xs.n=\"eyeBlinkEffect\" xs.ref=\"#".spec_bytes()
        + decimal(eye as nat)
        + "\" /><CMvEffect_LipSync xs.n=\"lipSyncEffect\" xs.ref=\"#".spec_bytes()
        + decimal(lip as nat)
        + "\" /><null xs.n=\"formEditEffect\" /><GRectF xs.n=\"bounds\"><f xs.n=\"x\">0</f><f xs.n=\"y\">0</f><f xs.n=\"width\">640</f><f xs.n=\"height\">1100</f></GRectF></CMvTrack_Live2DModel_Source><CTrackGuid uuid=\"".spec_bytes()
        + bytes_of(uuid)
        + "\" xs.id=\"#".spec_bytes()
        + decimal(guid as nat)
        + "\" />\n".spec_bytes()
}

/// Appends part 3 of the model track of a scene.
#[verifier::spinoff_prover]
fn write_model_track_c(out: &mut Vec<u8>, parameter: u64, parts: u64, eye: u64, lip: u64, uuid: &str, guid: u64)
    ensures
        final(out)@ == old(out)@ + model_track_c_text(parameter, parts, eye, lip, uuid@, guid),
{
    let ghost start = out@;
    push_text(out, "\" /></ICMvTrack_Linked><CMvEffect_Live2DParameter xs.n=\"keyParamEffect\" xs.ref=\"#");
    push_decimal(out, parameter);
    push_text(out, "\" /><CMvEffect_Live2DPartsVisible xs.n=\"partsVisibleEffect\" xs.ref=\"#");
    push_decimal(out, parts);
    push_text(out, "\" /><CMvEffect_EyeBlink xs.n=\"eyeBlinkEffect\" xs.ref=\"#");
    push_decimal(out, eye);
    push_text(out, "\" /><CMvEffect_LipSync xs.n=\"lipSyncEffect\" xs.ref=\"#");
    push_decimal(out, lip);
    push_text(out, "\" /><null xs.n=\"formEditEffect\" /><GRectF xs.n=\"bounds\"><f xs.n=\"x\">0</f><f xs.n=\"y\">0</f><f xs.n=\"width\">640</f><f xs.n=\"height\">1100</f></GRectF></CMvTrack_Live2DModel_Source><CTrackGuid uuid=\"");
    push_text(out, uuid);
    push_text(out, "\" xs.id=\"#");
    push_decimal(out, guid);
    push_text(out, "\" />\n");
    reveal(model_track_c_text);
    assert(out@ =~= start + model_track_c_text(parameter, parts, eye, lip, uuid@, guid));
}

/// A scene named `name` of `frames` frames at `fps`, listed as `duration`
/// frames, with its identifier `uuid`.
pub open spec fn scene_text(
    scene: u64,
    name: Seq<char>,
    scene_guid: u64,
    group: u64,
    track: u64,
    duration: u64,
    fps: Seq<char>,
    frames: u64,
    restricted: bool,
    looping: bool,
    uuid: Seq<char>,
) -> Seq<u8> {
    scene_a_text(scene, name, scene_guid, group) + scene_b_text(track, group, duration, fps, frames) + scene_c_text(
        restricted,
        looping,
        uuid,
        scene_guid,
    )
}

/// Appends a scene.
fn write_scene(
    out: &mut Vec<u8>,
    scene: u64,
    name: &str,
    scene_guid: u64,
    group: u64,
    track: u64,
    duration: u64,
    fps: &str,
    frames: u64,
    restricted: bool,
    looping: bool,
    uuid: &str,
)
    ensures
        final(out)@ == old(out)@ + scene_text(scene, name@, scene_guid, group, track, duration, fps@, frames, restricted, looping, uuid@),
{
    let ghost start = out@;
    write_scene_a(out, scene, name, scene_guid, group);
    write_scene_b(out, track, group, duration, fps, frames);
    write_scene_c(out, restricted, looping, uuid, scene_guid);
    assert(out@ =~= start + scene_text(scene, name@, scene_guid, group, track, duration, fps@, frames, restricted, looping, uuid@));
}

/// The model track of a scene, `duration` frames long, with its effects,
/// its linked resource and its identifier `uuid`.
pub open spec fn model_track_text(
    track: u64,
    guid: u64,
    duration: u64,
    eye: u64,
    lip: u64,
    parameter: u64,
    parts: u64,
    parent: u64,
    scene: u64,
    resource: u64,
    uuid: Seq<char>,
) -> Seq<u8> {
    model_track_a_text(track, guid, duration, eye, lip) + model_track_b_text(parameter, parts, parent, scene, resource)
        + model_track_c_text(parameter, parts, eye, lip, uuid, guid)
}

/// Appends the model track of a scene.
fn write_model_track(
    out: &mut Vec<u8>,
    track: u64,
    guid: u64,
    duration: u64,
    eye: u64,
    lip: u64,
    parameter: u64,
    parts: u64,
    parent: u64,
    scene: u64,
    resource: u64,
    uuid: &str,
)
    ensures
        final(out)@ == old(out)@ + model_track_text(track, guid, duration, eye, lip, parameter, parts, parent, scene, resource, uuid@),
{
    let ghost start = out@;
    write_model_track_a(out, track, guid, duration, eye, lip);
    write_model_track_b(out, parameter, parts, parent, scene, resource);
    write_model_track_c(out, parameter, parts, eye, lip, uuid, guid);
    assert(out@ =~= start + model_track_text(track, guid, duration, eye, lip, parameter, parts, parent, scene, resource, uuid@));
}

/// The head of the parameter effect with `count` attributes.
#[verifier::opaque]
pub open spec fn parameter_head_text(effect: u64, count: u64) -> Seq<u8> {
    "<CMvEffect_Live2DParameter xs.id=\"#".spec_bytes()
        + decimal(effect as nat)
        + "\"><ICMvEffect xs.n=\"super\"><CEffectId xs.n=\"id\" idstr=\"Effects:Live2DParam\" /><b xs.n=\"isActive\">true</b><b xs.n=\"canDelete\">false</b><array xs.n=\"attrList\" count=\"".spec_bytes()
        + decimal(count as nat)
        + "\" type=\"ICMvAttr\">\n".spec_bytes()
}

/// Appends the head of a parameter effect.
#[verifier::spinoff_prover]
fn write_parameter_head(out: &mut Vec<u8>, effect: u64, count: u64)
    ensures
        final(out)@ == old(out)@ + parameter_head_text(effect, count),
{
    let ghost start = out@;
    push_text(out, "<CMvEffect_Live2DParameter xs.id=\"#");
    push_decimal(out, effect);
    push_text(out, "\"><ICMvEffect xs.n=\"super\"><CEffectId xs.n=\"id\" idstr=\"Effects:Live2DParam\" /><b xs.n=\"isActive\">true</b><b xs.n=\"canDelete\">false</b><array xs.n=\"attrList\" count=\"");
    push_decimal(out, count);
    push_text(out, "\" type=\"ICMvAttr\">\n");
    reveal(parameter_head_text);
    assert(out@ =~= start + parameter_head_text(effect, count));
}

/// The end of the attribute list and the head of the attribute map of `count` entries.
#[verifier::opaque]
pub open spec fn attr_map_head_text(count: u64) -> Seq<u8> {
    "</array><hash_map xs.n=\"attrMap\" count=\"".spec_bytes()
        + decimal(count as nat)
        + "\">".spec_bytes()
}

/// Appends the head of an attribute map.
#[verifier::spinoff_prover]
fn write_attr_map_head(out: &mut Vec<u8>, count: u64)
    ensures
        final(out)@ == old(out)@ + attr_map_head_text(count),
{
    let ghost start = out@;
    push_text(out, "</array><hash_map xs.n=\"attrMap\" count=\"");
    push_decimal(out, count);
    push_text(out, "\">");
    reveal(attr_map_head_text);
    assert(out@ =~= start + attr_map_head_text(count));
}

/// The attribute map entry of the parameter `id`, held by attribute `attr`.
#[verifier::opaque]
pub open spec fn attr_entry_text(id: Seq<char>, attr: u64) -> Seq<u8> {
    "<entry><CAttrId xs.n=\"key\" idstr=\"live2dParam_".spec_bytes()
        + escape_bytes(bytes_of(id))
        + "\" /><CMvAttrF xs.n=\"value\" xs.ref=\"#".spec_bytes()
        + decimal(attr as nat)
        + "\" /></entry>\n".spec_bytes()
}

/// Appends an attribute map entry.
#[verifier::spinoff_prover]
fn write_attr_entry(out: &mut Vec<u8>, id: &str, attr: u64)
    ensures
        final(out)@ == old(out)@ + attr_entry_text(id@, attr),
{
    let ghost start = out@;
    push_text(out, "<entry><CAttrId xs.n=\"key\" idstr=\"live2dParam_");
    push_escaped(out, id);
    push_text(out, "\" /><CMvAttrF xs.n=\"value\" xs.ref=\"#");
    push_decimal(out, attr);
    push_text(out, "\" /></entry>\n");
    reveal(attr_entry_text);
    assert(out@ =~= start + attr_entry_text(id@, attr));
}

/// The end of the parameter effect of `track`.
#[verifier::opaque]
pub open spec fn parameter_tail_text(track: u64) -> Seq<u8> {
    "</hash_map><CMvTrack_Live2DModel_Source xs.n=\"track\" xs.ref=\"#".spec_bytes()
        + decimal(track as nat)
        + "\" /></ICMvEffect></CMvEffect_Live2DParameter>\n".spec_bytes()
}

/// Appends the end of a parameter effect.
#[verifier::spinoff_prover]
fn write_parameter_tail(out: &mut Vec<u8>, track: u64)
    ensures
        final(out)@ == old(out)@ + parameter_tail_text(track),
{
    let ghost start = out@;
    push_text(out, "</hash_map><CMvTrack_Live2DModel_Source xs.n=\"track\" xs.ref=\"#");
    push_decimal(out, track);
    push_text(out, "\" /></ICMvEffect></CMvEffect_Live2DParameter>\n");
    reveal(parameter_tail_text);
    assert(out@ =~= start + parameter_tail_text(track));
}

/// The head of the keyed attribute `attr` of the parameter `id`: its range, base value and count of points.
#[verifier::opaque]
pub open spec fn attr_head_text(attr: u64, id: Seq<char>, track: u64, min: Seq<char>, max: Seq<char>, base: Seq<char>, count: u64) -> Seq<u8> {
    "<CMvAttrF xs.id=\"#".spec_bytes()
        + decimal(attr as nat)
        + "\"><ICMvAttr xs.n=\"super\"><b xs.n=\"isShyMode\">false</b><CAttrId xs.n=\"id\" idstr=\"live2dParam_".spec_bytes()
        + escape_bytes(bytes_of(id))
        + "\" /><s xs.n=\"name\">".spec_bytes()
        + escape_bytes(bytes_of(id))
        + "</s><b xs.n=\"isActive\">true</b><hash_map xs.n=\"optionParam\" count=\"0\" keyType=\"string\" /><CMvTrack_Live2DModel_Source xs.n=\"track\" xs.ref=\"#".spec_bytes()
        + decimal(track as nat)
        + "\" /></ICMvAttr><CMutableSequence xs.n=\"valueData\"><ACValueSequence xs.n=\"super\"><d xs.n=\"curMin\">".spec_bytes()
        + bytes_of(min)
        + "</d><d xs.n=\"curMax\">".spec_bytes()
        + bytes_of(max)
        + "</d><i xs.n=\"posStart\">0</i><d xs.n=\"baseValue\">".spec_bytes()
        + bytes_of(base)
        + "</d></ACValueSequence><array xs.n=\"points\" count=\"".spec_bytes()
        + decimal(count as nat)
        + "\" type=\"CBezierPt\">\n".spec_bytes()
}

/// Appends the head of a keyed attribute.
#[verifier::spinoff_prover]
#[verifier::rlimit(60)]
fn write_attr_head(out: &mut Vec<u8>, attr: u64, id: &str, track: u64, min: &str, max: &str, base: &str, count: u64)
    ensures
        final(out)@ == old(out)@ + attr_head_text(attr, id@, track, min@, max@, base@, count),
{
    let ghost start = out@;
    push_text(out, "<CMvAttrF xs.id=\"#");
    push_decimal(out, attr);
    push_text(out, "\"><ICMvAttr xs.n=\"super\"><b xs.n=\"isShyMode\">false</b><CAttrId xs.n=\"id\" idstr=\"live2dParam_");
    push_escaped(out, id);
    push_text(out, "\" /><s xs.n=\"name\">");
    push_escaped(out, id);
    push_text(out, "</s><b xs.n=\"isActive\">true</b><hash_map xs.n=\"optionParam\" count=\"0\" keyType=\"string\" /><CMvTrack_Live2DModel_Source xs.n=\"track\" xs.ref=\"#");
    push_decimal(out, track);
    push_text(out, "\" /></ICMvAttr><CMutableSequence xs.n=\"valueData\"><ACValueSequence xs.n=\"super\"><d xs.n=\"curMin\">");
    push_text(out, min);
    push_text(out, "</d><d xs.n=\"curMax\">");
    push_text(out, max);
    push_text(out, "</d><i xs.n=\"posStart\">0</i><d xs.n=\"baseValue\">");
    push_text(out, base);
    push_text(out, "</d></ACValueSequence><array xs.n=\"points\" count=\"");
    push_decimal(out, count);
    push_text(out, "\" type=\"CBezierPt\">\n");
    reveal(attr_head_text);
    assert(out@ =~= start + attr_head_text(attr, id@, track, min@, max@, base@, count));
}

/// One keyed point: its frame and value and its two control points.
#[verifier::opaque]
pub open spec fn key_point_text(frame: Seq<char>, value: Seq<char>, next_time: Seq<char>, next_frame: Seq<char>, next_value: Seq<char>, prev_time: Seq<char>, prev_frame: Seq<char>, prev_value: Seq<char>) -> Seq<u8> {
    "<CBezierPt><CSeqPt xs.n=\"anchor\"><b xs.n=\"isCorner\">false</b><i xs.n=\"pos\">".spec_bytes()
        + bytes_of(frame)
        + "</i><d xs.n=\"doubleValue\">".spec_bytes()
        + bytes_of(value)
        + "</d></CSeqPt><CBezierCtrlPt xs.n=\"next\"><f xs.n=\"posF\">".spec_bytes()
        + bytes_of(next_time)
        + "</f><i xs.n=\"pos\">".spec_bytes()
        + bytes_of(next_frame)
        + "</i><d xs.n=\"doubleValue\">".spec_bytes()
        + bytes_of(next_value)
        + "</d><b xs.n=\"isPosOptimized\">false</b></CBezierCtrlPt><CBezierCtrlPt xs.n=\"prev\"><f xs.n=\"posF\">".spec_bytes()
        + bytes_of(prev_time)
        + "</f><i xs.n=\"pos\">".spec_bytes()
        + bytes_of(prev_frame)
        + "</i><d xs.n=\"doubleValue\">".spec_bytes()
        + bytes_of(prev_value)
        + "</d><b xs.n=\"isPosOptimized\">false</b></CBezierCtrlPt></CBezierPt>\n".spec_bytes()
}

/// Appends one keyed point.
#[verifier::spinoff_prover]
#[verifier::rlimit(60)]
fn write_key_point(out: &mut Vec<u8>, frame: &str, value: &str, next_time: &str, next_frame: &str, next_value: &str, prev_time: &str, prev_frame: &str, prev_value: &str)
    ensures
        final(out)@ == old(out)@ + key_point_text(frame@, value@, next_time@, next_frame@, next_value@, prev_time@, prev_frame@, prev_value@),
{
    let ghost start = out@;
    push_text(out, "<CBezierPt><CSeqPt xs.n=\"anchor\"><b xs.n=\"isCorner\">false</b><i xs.n=\"pos\">");
    push_text(out, frame);
    push_text(out, "</i><d xs.n=\"doubleValue\">");
    push_text(out, value);
    push_text(out, "</d></CSeqPt><CBezierCtrlPt xs.n=\"next\"><f xs.n=\"posF\">");
    push_text(out, next_time);
    push_text(out, "</f><i xs.n=\"pos\">");
    push_text(out, next_frame);
    push_text(out, "</i><d xs.n=\"doubleValue\">");
    push_text(out, next_value);
    push_text(out, "</d><b xs.n=\"isPosOptimized\">false</b></CBezierCtrlPt><CBezierCtrlPt xs.n=\"prev\"><f xs.n=\"posF\">");
    push_text(out, prev_time);
    push_text(out, "</f><i xs.n=\"pos\">");
    push_text(out, prev_frame);
    push_text(out, "</i><d xs.n=\"doubleValue\">");
    push_text(out, prev_value);
    push_text(out, "</d><b xs.n=\"isPosOptimized\">false</b></CBezierCtrlPt></CBezierPt>\n");
    reveal(key_point_text);
    assert(out@ =~= start + key_point_text(frame@, value@, next_time@, next_frame@, next_value@, prev_time@, prev_frame@, prev_value@));
}

/// The end of the point list and the head of `count` curve types.
#[verifier::opaque]
pub open spec fn curve_types_head_text(count: u64) -> Seq<u8> {
    "</array><carray_list xs.n=\"curveTypes\" count=\"".spec_bytes()
        + decimal(count as nat)
        + "\">\n".spec_bytes()
}

/// Appends the head of a curve type list.
#[verifier::spinoff_prover]
fn write_curve_types_head(out: &mut Vec<u8>, count: u64)
    ensures
        final(out)@ == old(out)@ + curve_types_head_text(count),
{
    let ghost start = out@;
    push_text(out, "</array><carray_list xs.n=\"curveTypes\" count=\"");
    push_decimal(out, count);
    push_text(out, "\">\n");
    reveal(curve_types_head_text);
    assert(out@ =~= start + curve_types_head_text(count));
}

/// One curve type.
#[verifier::opaque]
pub open spec fn curve_type_text(kind: Seq<char>) -> Seq<u8> {
    "<CCurveType v=\"".spec_bytes()
        + bytes_of(kind)
        + "\" />\n".spec_bytes()
}

/// Appends one curve type.
#[verifier::spinoff_prover]
fn write_curve_type(out: &mut Vec<u8>, kind: &str)
    ensures
        final(out)@ == old(out)@ + curve_type_text(kind@),
{
    let ghost start = out@;
    push_text(out, "<CCurveType v=\"");
    push_text(out, kind);
    push_text(out, "\" />\n");
    reveal(curve_type_text);
    assert(out@ =~= start + curve_type_text(kind@));
}

/// The end of a keyed attribute.
#[verifier::opaque]
pub open spec fn attr_tail_text() -> Seq<u8> {
    "</carray_list><d xs.n=\"rangeMin\">-Infinity</d><d xs.n=\"rangeMax\">Infinity</d><b xs.n=\"isRepeat\">false</b></CMutableSequence></CMvAttrF>".spec_bytes()
}

/// Appends the end of a keyed attribute.
#[verifier::spinoff_prover]
fn write_attr_tail(out: &mut Vec<u8>)
    ensures
        final(out)@ == old(out)@ + attr_tail_text(),
{
    let ghost start = out@;
    push_text(out, "</carray_list><d xs.n=\"rangeMin\">-Infinity</d><d xs.n=\"rangeMax\">Infinity</d><b xs.n=\"isRepeat\">false</b></CMutableSequence></CMvAttrF>");
    reveal(attr_tail_text);
    assert(out@ =~= start + attr_tail_text());
}

/// The declarations of an animation document and the start of its shared objects.
#[verifier::opaque]
pub open spec fn document_head_text() -> Seq<u8> {
    "<?xml version=\"1.0\" encoding=\"UTF-8\"?>\n<?version CSceneSource:3?>\n<?version CAnimation:4?>\n<?version CMvParameter_Group:1?>\n<?version SerializeFormatVersion:2?>\n<?version CMvMovieInfo:3?>\n<?version CBezierCtrlPt:2?>\n<root fileFormatVersion=\"401000005\"><shared>".spec_bytes()
}

/// Appends the start of an animation document.
#[verifier::spinoff_prover]
fn write_document_head(out: &mut Vec<u8>)
    ensures
        final(out)@ == old(out)@ + document_head_text(),
{
    let ghost start = out@;
    push_text(out, "<?xml version=\"1.0\" encoding=\"UTF-8\"?>\n<?version CSceneSource:3?>\n<?version CAnimation:4?>\n<?version CMvParameter_Group:1?>\n<?version SerializeFormatVersion:2?>\n<?version CMvMovieInfo:3?>\n<?version CBezierCtrlPt:2?>\n<root fileFormatVersion=\"401000005\"><shared>");
    reveal(document_head_text);
    assert(out@ =~= start + document_head_text());
}

/// The end of the shared objects and the main part, which holds the animation `animation`.
#[verifier::opaque]
pub open spec fn document_tail_text(animation: u64) -> Seq<u8> {
    "</shared><main><CAnimation xs.ref=\"#".spec_bytes()
        + decimal(animation as nat)
        + "\" />\n</main></root>".spec_bytes()
}

/// Appends the end of an animation document.
#[verifier::spinoff_prover]
fn write_document_tail(out: &mut Vec<u8>, animation: u64)
    ensures
        final(out)@ == old(out)@ + document_tail_text(animation),
{
    let ghost start = out@;
    push_text(out, "</shared><main><CAnimation xs.ref=\"#");
    push_decimal(out, animation);
    push_text(out, "\" />\n</main></root>");
    reveal(document_tail_text);
    assert(out@ =~= start + document_tail_text(animation));
}

/// The texts of one keyed point: its frame and value, and the time, frame
/// and value of its next and previous control points.
pub struct KeyPointTexts {
    pub frame: String,
    pub value: String,
    pub next_time: String,
    pub next_frame: String,
    pub next_value: String,
    pub prev_time: String,
    pub prev_frame: String,
    pub prev_value: String,
}

/// The texts of a curve keyed as an attribute: its smallest and largest
/// keyed value, its base value and its points, the first point and then
/// the end of each segment.
pub struct CurveTexts {
    pub min: String,
    pub max: String,
    pub base: String,
    pub points: Vec<KeyPointTexts>,
}

/// The first `n` keyed points.
pub open spec fn key_points_text(points: Seq<KeyPointTexts>, n: int) -> Seq<u8>
    decreases n,
{
    if n <= 0 {
        Seq::empty()
    } else {
        let p = points[n - 1];
        key_points_text(points, n - 1) + key_point_text(
            p.frame@,
            p.value@,
            p.next_time@,
            p.next_frame@,
            p.next_value@,
            p.prev_time@,
            p.prev_frame@,
            p.prev_value@,
        )
    }
}

/// The curve types of the first `n` segments.
pub open spec fn curve_types_text(segments: Seq<MotionSegment>, n: int) -> Seq<u8>
    decreases n,
{
    if n <= 0 {
        Seq::empty()
    } else {
        curve_types_text(segments, n - 1) + curve_type_text(segment_type_name(segments[n - 1]))
    }
}

/// The keyed attribute `attr` of the parameter `id` on `track`: its
/// range, base value and points, then the curve type of each segment.
#[verifier::opaque]
pub open spec fn attr_text(attr: u64, id: Seq<char>, track: u64, t: CurveTexts, segments: Seq<MotionSegment>) -> Seq<u8> {
    attr_head_text(attr, id, track, t.min@, t.max@, t.base@, t.points@.len() as u64) + key_points_text(
        t.points@,
        t.points@.len() as int,
    ) + curve_types_head_text(segments.len() as u64) + curve_types_text(segments, segments.len() as int)
        + attr_tail_text()
}

/// Whether the texts of a curve fit it: one point more than it has
/// segments.
pub open spec fn curve_texts_fit(c: MotionCurveView, t: CurveTexts) -> bool {
    t.points@.len() == c.segments.len() + 1
}

/// Appends the keyed attribute `attr` of a curve.
fn write_attr(out: &mut Vec<u8>, attr: u64, curve: &MotionCurve, track: u64, t: &CurveTexts)
    requires
        curve_texts_fit(curve@, *t),
    ensures
        final(out)@ == old(out)@ + attr_text(attr, curve@.id, track, *t, curve@.segments),
{
    let ghost start = out@;
    let segments = curve.segments();
    write_attr_head(out, attr, curve.id(), track, t.min.as_str(), t.max.as_str(), t.base.as_str(), t.points.len() as u64);
    let ghost points_start = out@;
    let mut i: usize = 0;
    while i < t.points.len()
        invariant
            i <= t.points@.len(),
            out@ == points_start + key_points_text(t.points@, i as int),
        decreases t.points@.len() - i,
    {
        let p = &t.points[i];
        write_key_point(
            out,
            p.frame.as_str(),
            p.value.as_str(),
            p.next_time.as_str(),
            p.next_frame.as_str(),
            p.next_value.as_str(),
            p.prev_time.as_str(),
            p.prev_frame.as_str(),
            p.prev_value.as_str(),
        );
        i = i + 1;
    }
    write_curve_types_head(out, segments.len() as u64);
    let ghost types_start = out@;
    let mut k: usize = 0;
    while k < segments.len()
        invariant
            k <= segments@.len(),
            out@ == types_start + curve_types_text(segments@, k as int),
        decreases segments@.len() - k,
    {
        write_curve_type(out, segment_type(&segments[k]));
        k = k + 1;
    }
    write_attr_tail(out);
    reveal(attr_text);
    assert(out@ =~= start + attr_text(attr, curve@.id, track, *t, curve@.segments));
}

/// The indices of the curves among the first `n` that target parameters,
/// in order.
pub open spec fn parameter_curves(curves: Seq<MotionCurveView>, n: int) -> Seq<int>
    decreases n,
{
    if n <= 0 {
        Seq::empty()
    } else if curves[n - 1].target == "Parameter"@ {
        parameter_curves(curves, n - 1).push(n - 1)
    } else {
        parameter_curves(curves, n - 1)
    }
}

/// There are at most `n` curves among the first `n` that target
/// parameters, and their indices are below `n`.
proof fn lemma_parameter_curves(curves: Seq<MotionCurveView>, n: int)
    requires
        0 <= n <= curves.len(),
    ensures
        parameter_curves(curves, n).len() <= n,
        forall|k: int| 0 <= k < parameter_curves(curves, n).len() ==> 0 <= #[trigger] parameter_curves(curves, n)[k] < n,
    decreases n,
{
    if n > 0 {
        lemma_parameter_curves(curves, n - 1);
    }
}

/// Returns the indices of the curves that target parameters, in order.
fn find_parameter_curves(curves: &[MotionCurve]) -> (res: Vec<usize>)
    ensures
        res@.len() == parameter_curves(curve_views(curves@), curves@.len() as int).len(),
        forall|k: int| 0 <= k < res@.len() ==> res@[k] as int == #[trigger] parameter_curves(curve_views(curves@), curves@.len() as int)[k],
        forall|k: int| 0 <= k < res@.len() ==> #[trigger] res@[k] < curves@.len(),
{
    let ghost cv = curve_views(curves@);
    let parameter = String::from_str("Parameter");
    let mut found: Vec<usize> = Vec::new();
    let mut i: usize = 0;
    while i < curves.len()
        invariant
            i <= curves@.len(),
            cv == curve_views(curves@),
            parameter@ == "Parameter"@,
            found@.len() == parameter_curves(cv, i as int).len(),
            forall|k: int| 0 <= k < found@.len() ==> found@[k] as int == #[trigger] parameter_curves(cv, i as int)[k],
        decreases curves@.len() - i,
    {
        assert(cv[i as int] == curves@[i as int]@);
        let target = String::from_str(curves[i].target());
        if target == parameter {
            found.push(i);
        }
        i = i + 1;
    }
    proof {
        lemma_parameter_curves(cv, curves@.len() as int);
        assert forall|k: int| 0 <= k < found@.len() implies #[trigger] found@[k] < curves@.len() by {
            assert(found@[k] as int == parameter_curves(cv, curves@.len() as int)[k]);
        }
    }
    found
}

/// The keyed attributes of the first `n` of the curves `chosen`, numbered
/// from `effect * 10000`.
pub open spec fn attrs_text(
    effect: u64,
    track: u64,
    curves: Seq<MotionCurveView>,
    texts: Seq<CurveTexts>,
    chosen: Seq<int>,
    n: int,
) -> Seq<u8>
    decreases n,
{
    if n <= 0 {
        Seq::empty()
    } else {
        let c = chosen[n - 1];
        attrs_text(effect, track, curves, texts, chosen, n - 1) + attr_text(
            (effect * 10000 + (n - 1)) as u64,
            curves[c].id,
            track,
            texts[c],
            curves[c].segments,
        )
    }
}

/// The attribute map entries of the first `n` of the curves `chosen`.
pub open spec fn entries_text(effect: u64, curves: Seq<MotionCurveView>, chosen: Seq<int>, n: int) -> Seq<u8>
    decreases n,
{
    if n <= 0 {
        Seq::empty()
    } else {
        entries_text(effect, curves, chosen, n - 1) + attr_entry_text(curves[chosen[n - 1]].id, (effect * 10000 + (n - 1)) as u64)
    }
}

/// The parameter effect `effect` of `track`: one keyed attribute per curve
/// that targets a parameter, numbered from `effect * 10000` in curve order,
/// and the map from each parameter to its attribute.
pub open spec fn parameter_effect_text(effect: u64, track: u64, curves: Seq<MotionCurveView>, texts: Seq<CurveTexts>) -> Seq<u8> {
    let chosen = parameter_curves(curves, curves.len() as int);
    parameter_head_text(effect, chosen.len() as u64) + attrs_text(effect, track, curves, texts, chosen, chosen.len() as int)
        + attr_map_head_text(chosen.len() as u64) + entries_text(effect, curves, chosen, chosen.len() as int)
        + parameter_tail_text(track)
}

/// The first `n` map entries extend the first `k + 1`, which hold entry `k`
/// after the first `k`.
proof fn lemma_entries_prefix(effect: u64, curves: Seq<MotionCurveView>, chosen: Seq<int>, k: int, n: int) -> (rest: Seq<u8>)
    requires
        0 <= k < n,
    ensures
        entries_text(effect, curves, chosen, n) == entries_text(effect, curves, chosen, k + 1) + rest,
    decreases n - k,
{
    if n == k + 1 {
        assert(entries_text(effect, curves, chosen, n) =~= entries_text(effect, curves, chosen, k + 1) + Seq::<u8>::empty());
        Seq::empty()
    } else {
        let rest = lemma_entries_prefix(effect, curves, chosen, k, n - 1);
        let last = attr_entry_text(curves[chosen[n - 1]].id, (effect * 10000 + (n - 1)) as u64);
        assert(entries_text(effect, curves, chosen, n) =~= entries_text(effect, curves, chosen, k + 1) + (rest + last));
        rest + last
    }
}

/// The first `n` keyed attributes extend the first `k + 1`.
proof fn lemma_attrs_prefix(
    effect: u64,
    track: u64,
    curves: Seq<MotionCurveView>,
    texts: Seq<CurveTexts>,
    chosen: Seq<int>,
    k: int,
    n: int,
) -> (rest: Seq<u8>)
    requires
        0 <= k < n,
    ensures
        attrs_text(effect, track, curves, texts, chosen, n) == attrs_text(effect, track, curves, texts, chosen, k + 1) + rest,
    decreases n - k,
{
    if n == k + 1 {
        assert(attrs_text(effect, track, curves, texts, chosen, n) =~= attrs_text(effect, track, curves, texts, chosen, k + 1)
            + Seq::<u8>::empty());
        Seq::empty()
    } else {
        let rest = lemma_attrs_prefix(effect, track, curves, texts, chosen, k, n - 1);
        let c = chosen[n - 1];
        let last = attr_text((effect * 10000 + (n - 1)) as u64, curves[c].id, track, texts[c], curves[c].segments);
        assert(attrs_text(effect, track, curves, texts, chosen, n) =~= attrs_text(effect, track, curves, texts, chosen, k + 1) + (
        rest + last));
        rest + last
    }
}

/// In the parameter effect `effect` of a motion, the `k`-th curve that
/// targets a parameter is keyed by attribute `effect * 10000 + k`, and the
/// attribute map binds that curve's parameter to that same attribute.
pub proof fn lemma_parameter_attribute(
    effect: u64,
    track: u64,
    curves: Seq<MotionCurveView>,
    texts: Seq<CurveTexts>,
    k: int,
)
    requires
        0 <= k < parameter_curves(curves, curves.len() as int).len(),
        effect * 10000 + curves.len() <= u64::MAX,
    ensures
        ({
            let c = parameter_curves(curves, curves.len() as int)[k];
            let attr = (effect * 10000 + k) as u64;
            let doc = parameter_effect_text(effect, track, curves, texts);
            &&& 0 <= c < curves.len() && curves[c].target == "Parameter"@
            &&& exists|at: int| occurs_at(doc, attr_text(attr, curves[c].id, track, texts[c], curves[c].segments), at)
            &&& exists|at: int| occurs_at(doc, attr_entry_text(curves[c].id, attr), at)
        }),
{
    let chosen = parameter_curves(curves, curves.len() as int);
    let n = chosen.len() as int;
    let c = chosen[k];
    let attr = (effect * 10000 + k) as u64;
    let doc = parameter_effect_text(effect, track, curves, texts);
    lemma_parameter_curves(curves, curves.len() as int);
    lemma_parameter_curve_targets(curves, curves.len() as int, k);
    let head = parameter_head_text(effect, n as u64);
    let map_head = attr_map_head_text(n as u64);
    let tail = parameter_tail_text(track);
    let attrs = attrs_text(effect, track, curves, texts, chosen, n);
    let entries = entries_text(effect, curves, chosen, n);
    let rest_a = lemma_attrs_prefix(effect, track, curves, texts, chosen, k, n);
    let keyed = attr_text(attr, curves[c].id, track, texts[c], curves[c].segments);
    assert(attrs_text(effect, track, curves, texts, chosen, k + 1) == attrs_text(effect, track, curves, texts, chosen, k) + keyed);
    let before_a = head + attrs_text(effect, track, curves, texts, chosen, k);
    assert(doc =~= before_a + keyed + (rest_a + map_head + entries + tail));
    assert(doc.subrange(before_a.len() as int, (before_a.len() + keyed.len()) as int) =~= keyed);
    assert(occurs_at(doc, keyed, before_a.len() as int));
    let rest_e = lemma_entries_prefix(effect, curves, chosen, k, n);
    let entry = attr_entry_text(curves[c].id, attr);
    assert(entries_text(effect, curves, chosen, k + 1) == entries_text(effect, curves, chosen, k) + entry);
    let before_e = head + attrs + map_head + entries_text(effect, curves, chosen, k);
    assert(doc =~= before_e + entry + (rest_e + tail));
    assert(doc.subrange(before_e.len() as int, (before_e.len() + entry.len()) as int) =~= entry);
    assert(occurs_at(doc, entry, before_e.len() as int));
}

/// The `k`-th of the curves among the first `n` that target parameters is
/// one of them.
proof fn lemma_parameter_curve_targets(curves: Seq<MotionCurveView>, n: int, k: int)
    requires
        0 <= n <= curves.len(),
        0 <= k < parameter_curves(curves, n).len(),
    ensures
        curves[parameter_curves(curves, n)[k]].target == "Parameter"@,
    decreases n,
{
    if n > 0 {
        if curves[n - 1].target == "Parameter"@ {
            if k < parameter_curves(curves, n - 1).len() {
                lemma_parameter_curve_targets(curves, n - 1, k);
            }
        } else {
            lemma_parameter_curve_targets(curves, n - 1, k);
        }
    }
}

/// Whether the texts of a motion's curves fit them: one entry per curve.
pub open spec fn curves_texts_fit(curves: Seq<MotionCurveView>, texts: Seq<CurveTexts>) -> bool {
    &&& texts.len() == curves.len()
    &&& forall|i: int| 0 <= i < curves.len() ==> curve_texts_fit(#[trigger] curves[i], texts[i])
}

/// Appends the keyed attributes of the chosen curves.
#[verifier::spinoff_prover]
fn write_attrs(
    out: &mut Vec<u8>,
    effect: u64,
    track: u64,
    curves: &[MotionCurve],
    texts: &Vec<CurveTexts>,
    chosen: &Vec<usize>,
    Ghost(ch): Ghost<Seq<int>>,
)
    requires
        chosen@.len() == ch.len(),
        forall|j: int| 0 <= j < chosen@.len() ==> chosen@[j] as int == #[trigger] ch[j],
        forall|j: int| 0 <= j < chosen@.len() ==> #[trigger] chosen@[j] < curves@.len(),
        chosen@.len() <= curves@.len(),
        curves_texts_fit(curve_views(curves@), texts@),
        effect * 10000 + curves@.len() <= u32::MAX,
    ensures
        final(out)@ == old(out)@ + attrs_text(effect, track, curve_views(curves@), texts@, ch, ch.len() as int),
{
    let ghost cv = curve_views(curves@);
    let ghost start = out@;
    let mut k: usize = 0;
    while k < chosen.len()
        invariant
            k <= chosen@.len(),
            chosen@.len() == ch.len(),
            chosen@.len() <= curves@.len(),
            cv == curve_views(curves@),
            forall|j: int| 0 <= j < chosen@.len() ==> chosen@[j] as int == #[trigger] ch[j],
            forall|j: int| 0 <= j < chosen@.len() ==> #[trigger] chosen@[j] < curves@.len(),
            curves_texts_fit(cv, texts@),
            effect * 10000 + curves@.len() <= u32::MAX,
            out@ == start + attrs_text(effect, track, cv, texts@, ch, k as int),
        decreases chosen@.len() - k,
    {
        let c = chosen[k];
        let ghost before = out@;
        assert(cv[c as int] == curves@[c as int]@);
        assert(ch[k as int] == c as int);
        assert(curve_texts_fit(cv[c as int], texts@[c as int]));
        write_attr(out, effect * 10000 + k as u64, &curves[c], track, &texts[c]);
        assert(attrs_text(effect, track, cv, texts@, ch, k + 1) == attrs_text(effect, track, cv, texts@, ch, k as int)
            + attr_text((effect * 10000 + k) as u64, cv[c as int].id, track, texts@[c as int], cv[c as int].segments));
        k = k + 1;
    }
}

/// Appends the attribute map entries of the chosen curves.
#[verifier::spinoff_prover]
fn write_entries(out: &mut Vec<u8>, effect: u64, curves: &[MotionCurve], chosen: &Vec<usize>, Ghost(ch): Ghost<Seq<int>>)
    requires
        chosen@.len() == ch.len(),
        forall|j: int| 0 <= j < chosen@.len() ==> chosen@[j] as int == #[trigger] ch[j],
        forall|j: int| 0 <= j < chosen@.len() ==> #[trigger] chosen@[j] < curves@.len(),
        chosen@.len() <= curves@.len(),
        effect * 10000 + curves@.len() <= u32::MAX,
    ensures
        final(out)@ == old(out)@ + entries_text(effect, curve_views(curves@), ch, ch.len() as int),
{
    let ghost cv = curve_views(curves@);
    let ghost start = out@;
    let mut e: usize = 0;
    while e < chosen.len()
        invariant
            e <= chosen@.len(),
            chosen@.len() == ch.len(),
            chosen@.len() <= curves@.len(),
            cv == curve_views(curves@),
            forall|j: int| 0 <= j < chosen@.len() ==> chosen@[j] as int == #[trigger] ch[j],
            forall|j: int| 0 <= j < chosen@.len() ==> #[trigger] chosen@[j] < curves@.len(),
            effect * 10000 + curves@.len() <= u32::MAX,
            out@ == start + entries_text(effect, cv, ch, e as int),
        decreases chosen@.len() - e,
    {
        let c = chosen[e];
        assert(cv[c as int] == curves@[c as int]@);
        assert(ch[e as int] == c as int);
        write_attr_entry(out, curves[c].id(), effect * 10000 + e as u64);
        e = e + 1;
    }
}

/// Appends the parameter effect `effect` of `track` for a motion's curves.
pub fn write_parameter_effect(out: &mut Vec<u8>, effect: u64, track: u64, curves: &[MotionCurve], texts: &Vec<CurveTexts>)
    requires
        curves_texts_fit(curve_views(curves@), texts@),
        effect * 10000 + curves@.len() <= u32::MAX,
    ensures
        final(out)@ == old(out)@ + parameter_effect_text(effect, track, curve_views(curves@), texts@),
{
    let ghost start = out@;
    let ghost cv = curve_views(curves@);
    let chosen = find_parameter_curves(curves);
    let ghost ch = parameter_curves(cv, cv.len() as int);
    proof {
        lemma_parameter_curves(cv, cv.len() as int);
    }
    write_parameter_head(out, effect, chosen.len() as u64);
    write_attrs(out, effect, track, curves, texts, &chosen, Ghost(ch));
    write_attr_map_head(out, chosen.len() as u64);
    write_entries(out, effect, curves, &chosen, Ghost(ch));
    write_parameter_tail(out, track);
    assert(out@ =~= start + parameter_effect_text(effect, track, cv, texts@));
}

/// The texts of a motion: its length in frames, its frame rate and one
/// entry per curve.
pub struct MotionTexts {
    pub frames: u32,
    pub fps: String,
    pub curves: Vec<CurveTexts>,
}

/// The identifiers of a motion's group track, scene and model track.
pub open spec fn uuid_views(u: (String, String, String)) -> (Seq<char>, Seq<char>, Seq<char>) {
    (u.0@, u.1@, u.2@)
}

/// The objects of the motion named `name`, whose identifiers start at
/// `base`: its root group track, its scene, its model track linked to
/// `resource`, and the track's parameter, parts, eye-blink and lip-sync
/// effects; `u` holds the identifiers of the group track, the scene and the
/// model track.
#[verifier::opaque]
pub open spec fn motion_text(
    base: u64,
    name: Seq<char>,
    m: Motion3,
    groups: Seq<Model3Group>,
    resource: u64,
    t: MotionTexts,
    u: (Seq<char>, Seq<char>, Seq<char>),
) -> Seq<u8> {
    group_track_text((base + 1) as u64, (base + 2) as u64, base, (base + 3) as u64, u.0) + scene_text(
        base,
        name,
        (base + 9) as u64,
        (base + 1) as u64,
        (base + 4) as u64,
        (t.frames + 1) as u64,
        t.fps@,
        t.frames as u64,
        m@.meta.are_beziers_restricted,
        m@.meta.loop_motion,
        u.1,
    ) + model_track_text(
        (base + 4) as u64,
        (base + 3) as u64,
        t.frames as u64,
        (base + 7) as u64,
        (base + 8) as u64,
        (base + 5) as u64,
        (base + 6) as u64,
        (base + 2) as u64,
        base,
        resource,
        u.2,
    ) + parameter_effect_text((base + 5) as u64, (base + 4) as u64, m@.curves, t.curves@) + parts_effect_text(
        (base + 6) as u32,
        (base + 4) as u32,
    ) + special_effects_text((base + 7) as u32, (base + 8) as u32, (base + 4) as u32, groups)
}

/// Whether a motion's texts fit it and its identifiers from `base` fit
/// 32 bits: the attributes of its parameter effect are numbered from ten
/// thousand times the effect's identifier.
pub open spec fn motion_fits(base: int, m: Motion3, t: MotionTexts) -> bool {
    &&& (base + 5) * 10000 + m@.curves.len() <= u32::MAX
    &&& t.frames < u32::MAX
    &&& curves_texts_fit(m@.curves, t.curves@)
}

/// Appends the objects of one motion.
#[verifier::spinoff_prover]
#[verifier::rlimit(60)]
fn write_motion(
    out: &mut Vec<u8>,
    base: u64,
    name: &str,
    motion: &Motion3,
    groups: &[Model3Group],
    resource: u64,
    t: &MotionTexts,
    u: &(String, String, String),
)
    requires
        motion_fits(base as int, *motion, *t),
    ensures
        final(out)@ == old(out)@ + motion_text(base, name@, *motion, groups@, resource, *t, uuid_views(*u)),
{
    let ghost start = out@;
    let meta = motion.meta();
    write_group_track(out, base + 1, base + 2, base, base + 3, u.0.as_str());
    write_scene(
        out,
        base,
        name,
        base + 9,
        base + 1,
        base + 4,
        t.frames as u64 + 1,
        t.fps.as_str(),
        t.frames as u64,
        meta.are_beziers_restricted(),
        meta.is_looping(),
        u.1.as_str(),
    );
    write_model_track(
        out,
        base + 4,
        base + 3,
        t.frames as u64,
        base + 7,
        base + 8,
        base + 5,
        base + 6,
        base + 2,
        base,
        resource,
        u.2.as_str(),
    );
    write_parameter_effect(out, base + 5, base + 4, motion.curves(), &t.curves);
    write_parts_effect(out, (base + 6) as u32, (base + 4) as u32);
    write_special_effects(out, (base + 7) as u32, (base + 8) as u32, (base + 4) as u32, groups);
    reveal(motion_text);
    assert(out@ =~= start + motion_text(base, name@, *motion, groups@, resource, *t, uuid_views(*u)));
}

/// The objects of the first `n` motions, motion `k`'s identifiers starting
/// at `15 + 10 * k`.
pub open spec fn motions_text(
    motions: Seq<(String, Motion3)>,
    groups: Seq<Model3Group>,
    texts: Seq<MotionTexts>,
    uuids: Seq<(String, String, String)>,
    n: int,
) -> Seq<u8>
    decreases n,
{
    if n <= 0 {
        Seq::empty()
    } else {
        motions_text(motions, groups, texts, uuids, n - 1) + motion_text(
            (15 + 10 * (n - 1)) as u64,
            motions[n - 1].0@,
            motions[n - 1].1,
            groups,
            13,
            texts[n - 1],
            uuid_views(uuids[n - 1]),
        )
    }
}

/// The scene and scene identifier of each of `n` motions.
pub open spec fn scene_refs(n: nat) -> Seq<(u32, u32)> {
    Seq::new(n, |k: int| ((15 + 10 * k) as u32, (24 + 10 * k) as u32))
}

/// The animation document named `name` for the motions, linked to the
/// model at `model_path`: the animation is object 10, its resource manager
/// 11, the manager's group, resource and data 12 to 14; each motion's
/// objects follow, ten identifiers apiece.
pub open spec fn document_text(
    name: Seq<char>,
    model_path: Seq<char>,
    motions: Seq<(String, Motion3)>,
    groups: Seq<Model3Group>,
    texts: Seq<MotionTexts>,
    uuids: Seq<(String, String, String)>,
) -> Seq<u8> {
    document_head_text() + motions_text(motions, groups, texts, uuids, motions.len() as int) + animation_text(
        10,
        name,
        scene_refs(motions.len()),
        11,
    ) + resource_manager_text(11, 12, 13, 14, model_path) + document_tail_text(10)
}

/// Whether every motion's texts fit it and its identifiers fit 32 bits.
pub open spec fn motions_fit(motions: Seq<(String, Motion3)>, texts: Seq<MotionTexts>) -> bool {
    &&& texts.len() == motions.len()
    &&& forall|k: int| 0 <= k < motions.len() ==> motion_fits(15 + 10 * k, #[trigger] motions[k].1, texts[k])
}

/// Writes the animation document named `name` for the motions, linked to
/// the model at `model_path`, with the identifiers `uuids` drawn for each
/// motion. Fails when there is no motion.
pub fn animation_document_with(
    name: &str,
    model_path: &str,
    motions: &[(String, Motion3)],
    groups: &[Model3Group],
    texts: &Vec<MotionTexts>,
    uuids: &Vec<(String, String, String)>,
) -> (res: Result<Vec<u8>, Error>)
    requires
        motions_fit(motions@, texts@),
        uuids@.len() == motions@.len(),
    ensures
        motions@.len() == 0 ==> can3_error(res),
        motions@.len() > 0 ==> (res matches Ok(v) && v@ == document_text(name@, model_path@, motions@, groups@, texts@, uuids@)),
{
    if motions.len() == 0 {
        return Err(invalid_can3("model has no motion files"));
    }
    let mut out: Vec<u8> = Vec::new();
    write_document_head(&mut out);
    let ghost motions_start = out@;
    let mut scenes: Vec<(u32, u32)> = Vec::new();
    let mut k: usize = 0;
    while k < motions.len()
        invariant
            k <= motions@.len(),
            motions_fit(motions@, texts@),
            uuids@.len() == motions@.len(),
            scenes@ == scene_refs(k as nat),
            out@ == motions_start + motions_text(motions@, groups@, texts@, uuids@, k as int),
        decreases motions@.len() - k,
    {
        assert(motion_fits(15 + 10 * k, motions@[k as int].1, texts@[k as int]));
        let base = 15 + 10 * (k as u64);
        write_motion(&mut out, base, motions[k].0.as_str(), &motions[k].1, groups, 13, &texts[k], &uuids[k]);
        scenes.push((base as u32, (base + 9) as u32));
        k = k + 1;
        assert(scenes@ =~= scene_refs(k as nat));
    }
    write_animation(&mut out, 10, name, scenes.as_slice(), 11);
    write_resource_manager(&mut out, 11, 12, 13, 14, model_path);
    write_document_tail(&mut out, 10);
    Ok(out)
}

/// Writes the animation document named `name` for the motions, linked to
/// the model at `model_path`, drawing a version 4 identifier for each
/// motion's group track, scene and model track. Fails when there is no
/// motion.
pub fn generate_animation(
    name: &str,
    model_path: &str,
    motions: &[(String, Motion3)],
    groups: &[Model3Group],
    texts: &Vec<MotionTexts>,
) -> (res: Result<Vec<u8>, Error>)
    requires
        motions_fit(motions@, texts@),
    ensures
        motions@.len() == 0 <==> can3_error(res),
        motions@.len() > 0 ==> res is Ok,
        res matches Ok(v) ==> exists|uuids: Seq<(String, String, String)>|
            uuids.len() == motions@.len() && (forall|k: int|
                0 <= k < uuids.len() ==> uuid_text((#[trigger] uuids[k]).0@) && uuid_text(uuids[k].1@) && uuid_text(
                    uuids[k].2@,
                )) && v@ == document_text(name@, model_path@, motions@, groups@, texts@, uuids),
{
    let mut uuids: Vec<(String, String, String)> = Vec::new();
    let mut k: usize = 0;
    while k < motions.len()
        invariant
            k <= motions@.len(),
            uuids@.len() == k,
            forall|j: int|
                0 <= j < k ==> uuid_text((#[trigger] uuids@[j]).0@) && uuid_text(uuids@[j].1@) && uuid_text(uuids@[j].2@),
        decreases motions@.len() - k,
    {
        let group_track = random_uuid();
        let scene = random_uuid();
        let model_track = random_uuid();
        uuids.push((group_track, scene, model_track));
        k = k + 1;
    }
    animation_document_with(name, model_path, motions, groups, texts, &uuids)
}

} // verus!
