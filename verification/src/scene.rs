//! Pieces of an animation document: the effects of a model track, the
//! animation that lists the scenes and the manager of the linked model.

use vstd::prelude::*;
use vstd::string::StringSliceAdditionalSpecFns;

use crate::model3::Model3Group;
use crate::text::{decimal, escape_bytes, push_decimal, xml_escape};

verus! {

/// The UTF-8 bytes of a text.
pub open spec fn bytes_of(s: Seq<char>) -> Seq<u8> {
    vstd::utf8::encode_utf8(s)
}

/// Appends the bytes of `text`.
pub(crate) fn push_text(out: &mut Vec<u8>, text: &str)
    ensures
        final(out)@ == old(out)@ + text.spec_bytes(),
{
    let bytes = text.as_bytes();
    let mut i: usize = 0;
    while i < bytes.len()
        invariant
            i <= bytes@.len(),
            bytes@ == text.spec_bytes(),
            out@ == old(out)@ + bytes@.subrange(0, i as int),
        decreases bytes@.len() - i,
    {
        out.push(bytes[i]);
        i = i + 1;
        assert(out@ =~= old(out)@ + bytes@.subrange(0, i as int));
    }
    assert(bytes@.subrange(0, bytes@.len() as int) =~= bytes@);
}

/// Appends `text` escaped for XML.
pub(crate) fn push_escaped(out: &mut Vec<u8>, text: &str)
    ensures
        final(out)@ == old(out)@ + escape_bytes(text.spec_bytes()),
{
    let escaped = xml_escape(text);
    let mut i: usize = 0;
    while i < escaped.len()
        invariant
            i <= escaped@.len(),
            escaped@ == escape_bytes(text.spec_bytes()),
            out@ == old(out)@ + escaped@.subrange(0, i as int),
        decreases escaped@.len() - i,
    {
        out.push(escaped[i]);
        i = i + 1;
        assert(out@ =~= old(out)@ + escaped@.subrange(0, i as int));
    }
    assert(escaped@.subrange(0, escaped@.len() as int) =~= escaped@);
}

/// The parts-visibility effect of a model track.
pub open spec fn parts_effect_text(effect: u32, track: u32) -> Seq<u8> {
    "<CMvEffect_Live2DPartsVisible xs.id=\"#".spec_bytes() + decimal(effect as nat)
        + "\"><ICMvEffect xs.n=\"super\"><CEffectId xs.n=\"id\" idstr=\"Effects:Live2DPartsOpacity\" /><b xs.n=\"isActive\">true</b><b xs.n=\"canDelete\">false</b><array xs.n=\"attrList\" count=\"0\" type=\"ICMvAttr\" /><hash_map xs.n=\"attrMap\" count=\"0\" keyType=\"string\" /><CMvTrack_Live2DModel_Source xs.n=\"track\" xs.ref=\"#".spec_bytes()
        + decimal(track as nat)
        + "\" /></ICMvEffect><carray_list xs.n=\"effectParameterAttrIds\" count=\"0\" /></CMvEffect_Live2DPartsVisible>\n".spec_bytes()
}

/// Appends the parts-visibility effect of a model track.
pub fn write_parts_effect(out: &mut Vec<u8>, effect: u32, track: u32)
    ensures
        final(out)@ == old(out)@ + parts_effect_text(effect, track),
{
    let ghost start = out@;
    push_text(out, "<CMvEffect_Live2DPartsVisible xs.id=\"#");
    push_decimal(out, effect as u64);
    push_text(out, "\"><ICMvEffect xs.n=\"super\"><CEffectId xs.n=\"id\" idstr=\"Effects:Live2DPartsOpacity\" /><b xs.n=\"isActive\">true</b><b xs.n=\"canDelete\">false</b><array xs.n=\"attrList\" count=\"0\" type=\"ICMvAttr\" /><hash_map xs.n=\"attrMap\" count=\"0\" keyType=\"string\" /><CMvTrack_Live2DModel_Source xs.n=\"track\" xs.ref=\"#");
    push_decimal(out, track as u64);
    push_text(out, "\" /></ICMvEffect><carray_list xs.n=\"effectParameterAttrIds\" count=\"0\" /></CMvEffect_Live2DPartsVisible>\n");
    assert(out@ =~= start + parts_effect_text(effect, track));
}

/// The index of the first of the first `n` groups named `name` that
/// targets parameters.
pub open spec fn first_group(groups: Seq<Model3Group>, name: Seq<char>, n: int) -> Option<int>
    decreases n,
{
    if n <= 0 {
        None
    } else {
        match first_group(groups, name, n - 1) {
            Some(i) => Some(i),
            None => if groups[n - 1].name@ == name && groups[n - 1].target@ == "Parameter"@ {
                Some(n - 1)
            } else {
                None
            },
        }
    }
}

/// The parameters of the first group named `name` that targets parameters;
/// none without such a group.
pub open spec fn group_ids(groups: Seq<Model3Group>, name: Seq<char>) -> Seq<Seq<char>> {
    match first_group(groups, name, groups.len() as int) {
        Some(i) => groups[i].ids@.map_values(|s: String| s@),
        None => Seq::empty(),
    }
}

/// Once found, the first matching group stays the first.
proof fn lemma_first_group_stays(groups: Seq<Model3Group>, name: Seq<char>, n: int, m: int)
    requires
        0 < n <= m,
        first_group(groups, name, n - 1) is None,
        groups[n - 1].name@ == name && groups[n - 1].target@ == "Parameter"@,
    ensures
        first_group(groups, name, m) == Some(n - 1),
    decreases m - n,
{
    if m > n {
        lemma_first_group_stays(groups, name, n, m - 1);
    }
}

/// Returns the index of the first group named `name` that targets
/// parameters.
fn find_group(groups: &[Model3Group], name: &str) -> (res: Option<usize>)
    ensures
        res matches Some(i) ==> i < groups@.len() && first_group(groups@, name@, groups@.len() as int) == Some(i as int),
        res is None ==> first_group(groups@, name@, groups@.len() as int) is None,
{
    let parameter = String::from_str("Parameter");
    let wanted = String::from_str(name);
    let mut i: usize = 0;
    while i < groups.len()
        invariant
            i <= groups@.len(),
            parameter@ == "Parameter"@,
            wanted@ == name@,
            first_group(groups@, name@, i as int) is None,
        decreases groups@.len() - i,
    {
        if groups[i].name == wanted && groups[i].target == parameter {
            proof {
                lemma_first_group_stays(groups@, name@, i + 1, groups@.len() as int);
            }
            return Some(i);
        }
        i = i + 1;
    }
    None
}

/// The references to the first `n` parameters of an effect.
pub open spec fn attr_ids_text(ids: Seq<Seq<char>>, n: int) -> Seq<u8>
    decreases n,
{
    if n <= 0 {
        Seq::empty()
    } else {
        attr_ids_text(ids, n - 1) + "<CAttrId idstr=\"live2dParam_".spec_bytes() + escape_bytes(bytes_of(ids[n - 1]))
            + "\" />\n".spec_bytes()
    }
}

/// The head of a special effect, up to the count of its parameters.
pub open spec fn special_head_text(id: u32, kind: Seq<char>, target: Seq<char>, track: u32, count: nat) -> Seq<u8> {
    "<".spec_bytes() + bytes_of(kind) + " xs.id=\"#".spec_bytes() + decimal(id as nat)
        + "\"><ICMvEffect xs.n=\"super\"><CEffectId xs.n=\"id\" idstr=\"Effects:".spec_bytes() + bytes_of(target)
        + "\" /><b xs.n=\"isActive\">true</b><b xs.n=\"canDelete\">true</b><array xs.n=\"attrList\" count=\"0\" type=\"ICMvAttr\" /><hash_map xs.n=\"attrMap\" count=\"0\" keyType=\"string\" /><CMvTrack_Live2DModel_Source xs.n=\"track\" xs.ref=\"#".spec_bytes() + decimal(track as nat) + "\" /></ICMvEffect><carray_list xs.n=\"effectParameterAttrIds\" count=\"".spec_bytes() + decimal(count) + "\">\n".spec_bytes()
}

/// Appends the head of a special effect.
fn write_special_head(out: &mut Vec<u8>, id: u32, kind: &str, target: &str, track: u32, count: usize)
    ensures
        final(out)@ == old(out)@ + special_head_text(id, kind@, target@, track, count as nat),
{
    let ghost start = out@;
    push_text(out, "<");
    push_text(out, kind);
    push_text(out, " xs.id=\"#");
    push_decimal(out, id as u64);
    push_text(out, "\"><ICMvEffect xs.n=\"super\"><CEffectId xs.n=\"id\" idstr=\"Effects:");
    push_text(out, target);
    push_text(out, "\" /><b xs.n=\"isActive\">true</b><b xs.n=\"canDelete\">true</b><array xs.n=\"attrList\" count=\"0\" type=\"ICMvAttr\" /><hash_map xs.n=\"attrMap\" count=\"0\" keyType=\"string\" /><CMvTrack_Live2DModel_Source xs.n=\"track\" xs.ref=\"#");
    push_decimal(out, track as u64);
    push_text(out, "\" /></ICMvEffect><carray_list xs.n=\"effectParameterAttrIds\" count=\"");
    push_decimal(out, count as u64);
    push_text(out, "\">\n");
    assert(out@ =~= start + special_head_text(id, kind@, target@, track, count as nat));
}

/// A special effect of a model track: its kind, its target effect and the
/// parameters it drives.
pub open spec fn special_effect_text(id: u32, kind: Seq<char>, target: Seq<char>, track: u32, ids: Seq<Seq<char>>) -> Seq<u8> {
    special_head_text(id, kind, target, track, ids.len()) + attr_ids_text(ids, ids.len() as int)
        + "</carray_list></".spec_bytes() + bytes_of(kind) + ">\n".spec_bytes()
}

/// Appends a special effect of a model track.
fn write_special_effect(out: &mut Vec<u8>, id: u32, kind: &str, target: &str, track: u32, ids: &[String])
    ensures
        final(out)@ == old(out)@ + special_effect_text(id, kind@, target@, track, ids@.map_values(|s: String| s@)),
{
    let ghost start = out@;
    let ghost iv = ids@.map_values(|s: String| s@);
    write_special_head(out, id, kind, target, track, ids.len());
    let ghost list_start = out@;
    let mut i: usize = 0;
    while i < ids.len()
        invariant
            i <= ids@.len(),
            iv == ids@.map_values(|s: String| s@),
            out@ == list_start + attr_ids_text(iv, i as int),
        decreases ids@.len() - i,
    {
        push_text(out, "<CAttrId idstr=\"live2dParam_");
        push_escaped(out, ids[i].as_str());
        push_text(out, "\" />\n");
        i = i + 1;
    }
    push_text(out, "</carray_list></");
    push_text(out, kind);
    push_text(out, ">\n");
    assert(out@ =~= start + special_effect_text(id, kind@, target@, track, iv));
}

/// The eye-blink and lip-sync effects of a model track, each driving the
/// parameters of the group of its name.
pub open spec fn special_effects_text(eye: u32, lip: u32, track: u32, groups: Seq<Model3Group>) -> Seq<u8> {
    special_effect_text(eye, "CMvEffect_EyeBlink"@, "EyeBlink"@, track, group_ids(groups, "EyeBlink"@)) + special_effect_text(
        lip,
        "CMvEffect_LipSync"@,
        "LipSync"@,
        track,
        group_ids(groups, "LipSync"@),
    )
}

/// Appends the effect of the group named `name`.
fn write_group_effect(out: &mut Vec<u8>, id: u32, kind: &str, name: &str, track: u32, groups: &[Model3Group])
    ensures
        final(out)@ == old(out)@ + special_effect_text(id, kind@, name@, track, group_ids(groups@, name@)),
{
    match find_group(groups, name) {
        Some(g) => write_special_effect(out, id, kind, name, track, groups[g].ids.as_slice()),
        None => {
            let none: Vec<String> = Vec::new();
            assert(none@.map_values(|s: String| s@) =~= Seq::<Seq<char>>::empty());
            write_special_effect(out, id, kind, name, track, none.as_slice());
        },
    }
}

/// Appends the eye-blink and lip-sync effects of a model track.
pub fn write_special_effects(out: &mut Vec<u8>, eye: u32, lip: u32, track: u32, groups: &[Model3Group])
    ensures
        final(out)@ == old(out)@ + special_effects_text(eye, lip, track, groups@),
{
    let ghost start = out@;
    write_group_effect(out, eye, "CMvEffect_EyeBlink", "EyeBlink", track, groups);
    write_group_effect(out, lip, "CMvEffect_LipSync", "LipSync", track, groups);
    assert(out@ =~= start + special_effects_text(eye, lip, track, groups@));
}

/// References to the first `n` scenes.
pub open spec fn scene_refs_text(scenes: Seq<(u32, u32)>, n: int) -> Seq<u8>
    decreases n,
{
    if n <= 0 {
        Seq::empty()
    } else {
        scene_refs_text(scenes, n - 1) + "<CSceneSource xs.ref=\"#".spec_bytes() + decimal(scenes[n - 1].0 as nat) + "\" />\n".spec_bytes()
    }
}

/// The head of the animation named `name`, up to its count of scenes.
pub open spec fn animation_head_text(animation: u32, name: Seq<char>, count: nat) -> Seq<u8> {
    "<CAnimation xs.id=\"#".spec_bytes() + decimal(animation as nat) + "\"><s xs.n=\"name\">".spec_bytes() + escape_bytes(bytes_of(name)) + "</s><file xs.n=\"file\" /><carray_list xs.n=\"_scenes\" count=\"".spec_bytes()
        + decimal(count) + "\">\n".spec_bytes()
}

/// The tail of an animation: its current scene and its resource manager.
pub open spec fn animation_tail_text(current: u32, manager: u32) -> Seq<u8> {
    "</carray_list><CSceneSource xs.n=\"currentScene\" xs.ref=\"#".spec_bytes() + decimal(current as nat) + "\" /><CResourceManager xs.n=\"resourceManager\" xs.ref=\"#".spec_bytes() + decimal(manager as nat) + "\" /><EditorEdition xs.n=\"editorEdition\"><i xs.n=\"edition\">15</i></EditorEdition><Animation xs.n=\"targetVersion\" v=\"FOR_SDK\" /></CAnimation>\n".spec_bytes()
}

/// The animation named `name`: its scenes, the first of them current, and
/// its resource manager.
pub open spec fn animation_text(animation: u32, name: Seq<char>, scenes: Seq<(u32, u32)>, manager: u32) -> Seq<u8> {
    animation_head_text(animation, name, scenes.len()) + scene_refs_text(scenes, scenes.len() as int) + animation_tail_text(
        scenes[0].0,
        manager,
    )
}

/// Appends the head of an animation.
fn write_animation_head(out: &mut Vec<u8>, animation: u32, name: &str, count: usize)
    ensures
        final(out)@ == old(out)@ + animation_head_text(animation, name@, count as nat),
{
    let ghost start = out@;
    push_text(out, "<CAnimation xs.id=\"#");
    push_decimal(out, animation as u64);
    push_text(out, "\"><s xs.n=\"name\">");
    push_escaped(out, name);
    push_text(out, "</s><file xs.n=\"file\" /><carray_list xs.n=\"_scenes\" count=\"");
    push_decimal(out, count as u64);
    push_text(out, "\">\n");
    assert(out@ =~= start + animation_head_text(animation, name@, count as nat));
}

/// Appends the tail of an animation.
fn write_animation_tail(out: &mut Vec<u8>, current: u32, manager: u32)
    ensures
        final(out)@ == old(out)@ + animation_tail_text(current, manager),
{
    let ghost start = out@;
    push_text(out, "</carray_list><CSceneSource xs.n=\"currentScene\" xs.ref=\"#");
    push_decimal(out, current as u64);
    push_text(out, "\" /><CResourceManager xs.n=\"resourceManager\" xs.ref=\"#");
    push_decimal(out, manager as u64);
    push_text(out, "\" /><EditorEdition xs.n=\"editorEdition\"><i xs.n=\"edition\">15</i></EditorEdition><Animation xs.n=\"targetVersion\" v=\"FOR_SDK\" /></CAnimation>\n");
    assert(out@ =~= start + animation_tail_text(current, manager));
}

/// Appends the animation named `name` with its scenes and resource manager.
pub fn write_animation(out: &mut Vec<u8>, animation: u32, name: &str, scenes: &[(u32, u32)], manager: u32)
    requires
        scenes@.len() > 0,
    ensures
        final(out)@ == old(out)@ + animation_text(animation, name@, scenes@, manager),
{
    let ghost start = out@;
    write_animation_head(out, animation, name, scenes.len());
    let ghost list_start = out@;
    let mut i: usize = 0;
    while i < scenes.len()
        invariant
            i <= scenes@.len(),
            out@ == list_start + scene_refs_text(scenes@, i as int),
        decreases scenes@.len() - i,
    {
        push_text(out, "<CSceneSource xs.ref=\"#");
        push_decimal(out, scenes[i].0 as u64);
        push_text(out, "\" />\n");
        i = i + 1;
    }
    write_animation_tail(out, scenes[0].0, manager);
    assert(out@ =~= start + animation_text(animation, name@, scenes@, manager));
}

/// The head of the resource manager, up to its data's identifier.
pub open spec fn manager_head_text(manager: u32, group: u32, resource: u32, data: u32) -> Seq<u8> {
    "<CResourceManager xs.id=\"#".spec_bytes() + decimal(manager as nat) + "\"><CResourceGroup xs.n=\"rootGroup\"><CResourceGroupGuid xs.n=\"guid\" xs.ref=\"#".spec_bytes() + decimal(group as nat) + "\" /><carray_list xs.n=\"_childGuids\" count=\"1\"><CResourceGuid xs.ref=\"#".spec_bytes()
        + decimal(resource as nat) + "\" /></carray_list><s xs.n=\"name\">Resources</s></CResourceGroup><carray_list xs.n=\"_resourceRefList\" count=\"1\"><CResourceData xs.ref=\"#".spec_bytes() + decimal(data as nat) + "\" /></carray_list><CResourceData xs.id=\"#".spec_bytes() + decimal(data as nat)
}

/// The resource manager holding the linked model at `model_path`, under
/// its group, resource and data identifiers.
pub open spec fn resource_manager_text(manager: u32, group: u32, resource: u32, data: u32, model_path: Seq<char>) -> Seq<u8> {
    manager_head_text(manager, group, resource, data) + "\"><CResource_Linked_Model xs.n=\"resourceRef\"><ACResource_File xs.n=\"super\"><file xs.n=\"srcFile\">".spec_bytes() + escape_bytes(bytes_of(model_path))
        + "</file><CResourceGuid xs.n=\"guid\" xs.ref=\"#".spec_bytes() + decimal(resource as nat) + "\" /><s xs.n=\"name\">".spec_bytes() + escape_bytes(bytes_of(model_path))
        + "</s></ACResource_File></CResource_Linked_Model></CResourceData></CResourceManager><CResourceGroupGuid xs.id=\"#".spec_bytes() + decimal(group as nat) + "\" /><CResourceGuid xs.id=\"#".spec_bytes() + decimal(resource as nat) + "\" />\n".spec_bytes()
}

/// Appends the head of the resource manager.
fn write_manager_head(out: &mut Vec<u8>, manager: u32, group: u32, resource: u32, data: u32)
    ensures
        final(out)@ == old(out)@ + manager_head_text(manager, group, resource, data),
{
    let ghost start = out@;
    push_text(out, "<CResourceManager xs.id=\"#");
    push_decimal(out, manager as u64);
    push_text(out, "\"><CResourceGroup xs.n=\"rootGroup\"><CResourceGroupGuid xs.n=\"guid\" xs.ref=\"#");
    push_decimal(out, group as u64);
    push_text(out, "\" /><carray_list xs.n=\"_childGuids\" count=\"1\"><CResourceGuid xs.ref=\"#");
    push_decimal(out, resource as u64);
    push_text(out, "\" /></carray_list><s xs.n=\"name\">Resources</s></CResourceGroup><carray_list xs.n=\"_resourceRefList\" count=\"1\"><CResourceData xs.ref=\"#");
    push_decimal(out, data as u64);
    push_text(out, "\" /></carray_list><CResourceData xs.id=\"#");
    push_decimal(out, data as u64);
    assert(out@ =~= start + manager_head_text(manager, group, resource, data));
}

/// Appends the resource manager holding the linked model at `model_path`.
pub fn write_resource_manager(out: &mut Vec<u8>, manager: u32, group: u32, resource: u32, data: u32, model_path: &str)
    ensures
        final(out)@ == old(out)@ + resource_manager_text(manager, group, resource, data, model_path@),
{
    let ghost start = out@;
    write_manager_head(out, manager, group, resource, data);
    push_text(out, "\"><CResource_Linked_Model xs.n=\"resourceRef\"><ACResource_File xs.n=\"super\"><file xs.n=\"srcFile\">");
    push_escaped(out, model_path);
    push_text(out, "</file><CResourceGuid xs.n=\"guid\" xs.ref=\"#");
    push_decimal(out, resource as u64);
    push_text(out, "\" /><s xs.n=\"name\">");
    push_escaped(out, model_path);
    push_text(out, "</s></ACResource_File></CResource_Linked_Model></CResourceData></CResourceManager><CResourceGroupGuid xs.id=\"#");
    push_decimal(out, group as u64);
    push_text(out, "\" /><CResourceGuid xs.id=\"#");
    push_decimal(out, resource as u64);
    push_text(out, "\" />\n");
    assert(out@ =~= start + resource_manager_text(manager, group, resource, data, model_path@));
}

} // verus!
