//! The wire encoding: a protocol message as a JSON document, and back.
//!
//! The schema is stated twice, from both ends. `encodes_*` says which
//! documents stand for a value; `decoded_*` says which value, if any, a
//! document is read as. Reading is lenient where that costs nothing: members
//! that the schema does not name are passed over, and an optional member may
//! be absent or null. The round-trip lemmas tie the two together: whatever
//! document encodes a message is read back as that message.
//!
//! Integers are written as JSON numbers; which number stands for an integer
//! is `serde_json`'s business, so an encoding is pinned up to that choice.
//! Bytes are written as an array of integers, one per byte.

use vstd::prelude::*;
use vstd::string::*;
use crate::json::{
    distinct_names,
    field,
    integer,
    json_of,
    json_parsed,
    json_text,
    lemma_members_map,
    members_map,
    put,
    same_text,
    trees_of,
    value_array,
    value_as_array,
    value_as_i64,
    value_as_number,
    value_as_str,
    value_from_i64,
    value_from_text,
    value_get,
    value_is_null,
    value_null,
    value_number,
    value_object,
    value_string,
    value_to_text,
    within_depth,
    Json,
    MAX_PRINT_DEPTH,
};
use crate::sync::protocol::{
    ImageUpdatePayload,
    ImageUpdatePayloadView,
    Payload,
    PayloadView,
    SceneChangePayload,
    SceneChangePayloadView,
    SceneInfo,
    SceneInfoView,
    SceneItemInfo,
    SceneItemInfoView,
    StateSyncPayload,
    StateSyncPayloadView,
    SyncMessage,
    SyncMessageType,
    SyncMessageView,
    SyncTargetType,
    TransformData,
    TransformUpdatePayload,
    TransformUpdatePayloadView,
    payload_fits,
};

verus! {

/// The name of a kind on the wire.
pub open spec fn kind_name(kind: SyncMessageType) -> Seq<char> {
    match kind {
        SyncMessageType::SourceUpdate => "source_update"@,
        SyncMessageType::TransformUpdate => "transform_update"@,
        SyncMessageType::SceneChange => "scene_change"@,
        SyncMessageType::ImageUpdate => "image_update"@,
        SyncMessageType::Heartbeat => "heartbeat"@,
        SyncMessageType::StateSync => "state_sync"@,
    }
}

/// The kind that a name on the wire stands for.
pub open spec fn kind_named(name: Seq<char>) -> Option<SyncMessageType> {
    if name == "source_update"@ {
        Some(SyncMessageType::SourceUpdate)
    } else if name == "transform_update"@ {
        Some(SyncMessageType::TransformUpdate)
    } else if name == "scene_change"@ {
        Some(SyncMessageType::SceneChange)
    } else if name == "image_update"@ {
        Some(SyncMessageType::ImageUpdate)
    } else if name == "heartbeat"@ {
        Some(SyncMessageType::Heartbeat)
    } else if name == "state_sync"@ {
        Some(SyncMessageType::StateSync)
    } else {
        None
    }
}

/// The name of a sync target on the wire.
pub open spec fn target_name(target: SyncTargetType) -> Seq<char> {
    match target {
        SyncTargetType::Source => "source"@,
        SyncTargetType::Preview => "preview"@,
        SyncTargetType::Program => "program"@,
    }
}

/// The sync target that a name on the wire stands for.
pub open spec fn target_named(name: Seq<char>) -> Option<SyncTargetType> {
    if name == "source"@ {
        Some(SyncTargetType::Source)
    } else if name == "preview"@ {
        Some(SyncTargetType::Preview)
    } else if name == "program"@ {
        Some(SyncTargetType::Program)
    } else {
        None
    }
}

/// Every kind is read back from its name.
pub proof fn lemma_kind_names(kind: SyncMessageType)
    ensures
        kind_named(kind_name(kind)) == Some(kind),
{
    reveal_strlit("source_update");
    reveal_strlit("transform_update");
    reveal_strlit("scene_change");
    reveal_strlit("image_update");
    reveal_strlit("heartbeat");
    reveal_strlit("state_sync");
    assert("source_update"@.len() == 13);
    assert("transform_update"@.len() == 16);
    assert("scene_change"@.len() == 12);
    assert("image_update"@.len() == 12);
    assert("heartbeat"@.len() == 9);
    assert("state_sync"@.len() == 10);
    assert("scene_change"@[0] != "image_update"@[0]);
}

/// Every sync target is read back from its name.
pub proof fn lemma_target_names(target: SyncTargetType)
    ensures
        target_named(target_name(target)) == Some(target),
{
    reveal_strlit("source");
    reveal_strlit("preview");
    reveal_strlit("program");
    assert("source"@.len() == 6);
    assert("preview"@.len() == 7);
    assert("program"@.len() == 7);
    assert("preview"@[2] != "program"@[2]);
}

pub fn kind_str(kind: SyncMessageType) -> (name: &'static str)
    ensures
        name@ == kind_name(kind),
{
    match kind {
        SyncMessageType::SourceUpdate => "source_update",
        SyncMessageType::TransformUpdate => "transform_update",
        SyncMessageType::SceneChange => "scene_change",
        SyncMessageType::ImageUpdate => "image_update",
        SyncMessageType::Heartbeat => "heartbeat",
        SyncMessageType::StateSync => "state_sync",
    }
}

pub fn parse_kind(name: &str) -> (kind: Option<SyncMessageType>)
    ensures
        kind == kind_named(name@),
{
    if same_text(name, "source_update") {
        Some(SyncMessageType::SourceUpdate)
    } else if same_text(name, "transform_update") {
        Some(SyncMessageType::TransformUpdate)
    } else if same_text(name, "scene_change") {
        Some(SyncMessageType::SceneChange)
    } else if same_text(name, "image_update") {
        Some(SyncMessageType::ImageUpdate)
    } else if same_text(name, "heartbeat") {
        Some(SyncMessageType::Heartbeat)
    } else if same_text(name, "state_sync") {
        Some(SyncMessageType::StateSync)
    } else {
        None
    }
}

pub fn target_str(target: SyncTargetType) -> (name: &'static str)
    ensures
        name@ == target_name(target),
{
    match target {
        SyncTargetType::Source => "source",
        SyncTargetType::Preview => "preview",
        SyncTargetType::Program => "program",
    }
}

pub fn parse_target(name: &str) -> (target: Option<SyncTargetType>)
    ensures
        target == target_named(name@),
{
    if same_text(name, "source") {
        Some(SyncTargetType::Source)
    } else if same_text(name, "preview") {
        Some(SyncTargetType::Preview)
    } else if same_text(name, "program") {
        Some(SyncTargetType::Program)
    } else {
        None
    }
}

// ---- members of an object, read by name ----

/// The text of the member of this name, where it is a string.
pub open spec fn field_text(tree: Json, name: Seq<char>) -> Option<Seq<char>> {
    match field(tree, name) {
        Some(Json::String(s)) => Some(s),
        _ => None,
    }
}

/// The integer of the member of this name, where it is one.
pub open spec fn field_int(tree: Json, name: Seq<char>) -> Option<i64> {
    match field(tree, name) {
        Some(j) => integer(j),
        None => None,
    }
}

/// The number of the member of this name, where it is a number.
pub open spec fn field_number(tree: Json, name: Seq<char>) -> Option<serde_json::Number> {
    match field(tree, name) {
        Some(Json::Number(n)) => Some(n),
        _ => None,
    }
}

/// An optional text: absent or null for none, a string for some. The outer
/// `None` is for a member that is neither.
pub open spec fn field_opt_text(tree: Json, name: Seq<char>) -> Option<Option<Seq<char>>> {
    match field(tree, name) {
        None => Some(None),
        Some(Json::Null) => Some(None),
        Some(Json::String(s)) => Some(Some(s)),
        _ => None,
    }
}

/// An optional number: absent or null for none, a number for some.
pub open spec fn field_opt_number(tree: Json, name: Seq<char>) -> Option<Option<serde_json::Number>> {
    match field(tree, name) {
        None => Some(None),
        Some(Json::Null) => Some(None),
        Some(Json::Number(n)) => Some(Some(n)),
        _ => None,
    }
}

fn get_text(v: &serde_json::Value, name: &str) -> (text: Option<String>)
    ensures
        match text {
            Some(s) => field_text(json_of(*v), name@) == Some(s@),
            None => field_text(json_of(*v), name@) is None,
        },
{
    match value_get(v, name) {
        Some(member) => match value_as_str(member) {
            Some(s) => Some(s.to_owned()),
            None => None,
        },
        None => None,
    }
}

fn get_i64(v: &serde_json::Value, name: &str) -> (value: Option<i64>)
    ensures
        value == field_int(json_of(*v), name@),
{
    match value_get(v, name) {
        Some(member) => value_as_i64(member),
        None => None,
    }
}

fn get_number(v: &serde_json::Value, name: &str) -> (value: Option<serde_json::Number>)
    ensures
        value == field_number(json_of(*v), name@),
{
    match value_get(v, name) {
        Some(member) => match value_as_number(member) {
            Some(n) => Some(n.clone()),
            None => None,
        },
        None => None,
    }
}

fn get_opt_text(v: &serde_json::Value, name: &str) -> (text: Option<Option<String>>)
    ensures
        match text {
            Some(Some(s)) => field_opt_text(json_of(*v), name@) == Some(Some(s@)),
            Some(None) => field_opt_text(json_of(*v), name@) == Some(None::<Seq<char>>),
            None => field_opt_text(json_of(*v), name@) is None,
        },
{
    match value_get(v, name) {
        None => Some(None),
        Some(member) => {
            if value_is_null(member) {
                Some(None)
            } else {
                match value_as_str(member) {
                    Some(s) => Some(Some(s.to_owned())),
                    None => None,
                }
            }
        },
    }
}

fn get_opt_number(v: &serde_json::Value, name: &str) -> (value: Option<Option<serde_json::Number>>)
    ensures
        value == field_opt_number(json_of(*v), name@),
{
    match value_get(v, name) {
        None => Some(None),
        Some(member) => {
            if value_is_null(member) {
                Some(None)
            } else {
                match value_as_number(member) {
                    Some(n) => Some(Some(n.clone())),
                    None => None,
                }
            }
        },
    }
}

fn text_value(text: &String) -> (v: serde_json::Value)
    ensures
        json_of(v) == Json::String(text@),
{
    value_string(text.clone())
}

fn opt_text_value(text: &Option<String>) -> (v: serde_json::Value)
    ensures
        json_of(v) == match *text {
            Some(s) => Json::String(s@),
            None => Json::Null,
        },
{
    match text {
        Some(s) => value_string(s.clone()),
        None => value_null(),
    }
}

fn opt_number_value(number: &Option<serde_json::Number>) -> (v: serde_json::Value)
    ensures
        json_of(v) == match *number {
            Some(n) => Json::Number(n),
            None => Json::Null,
        },
{
    match number {
        Some(n) => value_number(n.clone()),
        None => value_null(),
    }
}

// ---- bytes ----

/// The byte that a tree stands for: an integer from 0 to 255.
pub open spec fn decoded_byte(tree: Json) -> Option<u8> {
    match integer(tree) {
        Some(i) => if 0 <= i <= 255 {
            Some(i as u8)
        } else {
            None
        },
        None => None,
    }
}

/// Whether a tree encodes these bytes: an array of as many integers, each
/// the value of its byte.
pub open spec fn encodes_bytes(tree: Json, bytes: Seq<u8>) -> bool {
    &&& tree matches Json::Array(items)
    &&& items.len() == bytes.len()
    &&& forall|k: int| 0 <= k < bytes.len() ==> integer(#[trigger] items[k]) == Some(bytes[k] as i64)
}

/// The bytes that a tree is read as: every element of the array must be a
/// byte.
pub open spec fn decoded_bytes(tree: Json) -> Option<Seq<u8>> {
    match tree {
        Json::Array(items) => if forall|k: int|
            0 <= k < items.len() ==> decoded_byte(#[trigger] items[k]) is Some {
            Some(Seq::new(items.len(), |k: int| decoded_byte(items[k])->0))
        } else {
            None
        },
        _ => None,
    }
}

/// Optional bytes as a member: absent or null for none.
pub open spec fn decoded_opt_bytes(member: Option<Json>) -> Option<Option<Seq<u8>>> {
    match member {
        None => Some(None),
        Some(Json::Null) => Some(None),
        Some(j) => match decoded_bytes(j) {
            Some(b) => Some(Some(b)),
            None => None,
        },
    }
}

/// Bytes are read back from their encoding.
pub proof fn lemma_bytes_round_trip(tree: Json, bytes: Seq<u8>)
    requires
        encodes_bytes(tree, bytes),
    ensures
        decoded_bytes(tree) == Some(bytes),
{
    let items = tree->Array_0;
    assert forall|k: int| 0 <= k < items.len() implies decoded_byte(#[trigger] items[k]) == Some(
        bytes[k],
    ) by {
        assert(integer(items[k]) == Some(bytes[k] as i64));
    }
    assert(Seq::new(items.len(), |k: int| decoded_byte(items[k])->0) =~= bytes);
}

fn encode_bytes(bytes: &Vec<u8>) -> (v: serde_json::Value)
    ensures
        encodes_bytes(json_of(v), bytes@),
{
    let mut items: Vec<serde_json::Value> = Vec::new();
    let mut i: usize = 0;
    while i < bytes.len()
        invariant
            i <= bytes@.len(),
            items@.len() == i,
            forall|k: int| 0 <= k < i ==> integer(json_of(#[trigger] items@[k])) == Some(bytes@[k] as i64),
        decreases bytes@.len() - i,
    {
        items.push(value_from_i64(bytes[i] as i64));
        i = i + 1;
    }
    let ghost listed = items@;
    let v = value_array(items);
    proof {
        let out = trees_of(listed);
        assert forall|k: int| 0 <= k < bytes@.len() implies integer(#[trigger] out[k]) == Some(
            bytes@[k] as i64,
        ) by {
            assert(out[k] == json_of(listed[k]));
        }
    }
    v
}

fn decode_bytes(v: &serde_json::Value) -> (bytes: Option<Vec<u8>>)
    ensures
        match bytes {
            Some(b) => decoded_bytes(json_of(*v)) == Some(b@),
            None => decoded_bytes(json_of(*v)) is None,
        },
{
    match value_as_array(v) {
        Some(items) => {
            let ghost trees = trees_of(items@);
            let mut bytes: Vec<u8> = Vec::new();
            let mut i: usize = 0;
            while i < items.len()
                invariant
                    i <= items@.len(),
                    json_of(*v) == Json::Array(trees),
                    trees == trees_of(items@),
                    bytes@.len() == i,
                    forall|k: int| 0 <= k < i ==> decoded_byte(#[trigger] trees[k]) == Some(bytes@[k]),
                decreases items@.len() - i,
            {
                assert(trees[i as int] == json_of(items@[i as int]));
                match value_as_i64(&items[i]) {
                    Some(value) => {
                        if 0 <= value && value <= 255 {
                            bytes.push(value as u8);
                        } else {
                            assert(decoded_byte(trees[i as int]) is None);
                            return None;
                        }
                    },
                    None => {
                        assert(decoded_byte(trees[i as int]) is None);
                        return None;
                    },
                }
                i = i + 1;
            }
            assert(Seq::new(trees.len(), |k: int| decoded_byte(trees[k])->0) =~= bytes@);
            Some(bytes)
        },
        None => None,
    }
}

/// Optional bytes as a document: the array of the bytes, or null.
pub fn serialize(value: &Option<Vec<u8>>) -> (v: serde_json::Value)
    ensures
        match *value {
            Some(b) => encodes_bytes(json_of(v), b@),
            None => json_of(v) is Null,
        },
{
    match value {
        Some(bytes) => encode_bytes(bytes),
        None => value_null(),
    }
}

/// Optional bytes from a document: null for none, an array of bytes for
/// some. Anything else is refused.
pub fn deserialize(v: &serde_json::Value) -> (out: Result<Option<Vec<u8>>, WireError>)
    ensures
        match out {
            Ok(Some(b)) => decoded_opt_bytes(Some(json_of(*v))) == Some(Some(b@)),
            Ok(None) => decoded_opt_bytes(Some(json_of(*v))) == Some(None::<Seq<u8>>),
            Err(e) => decoded_opt_bytes(Some(json_of(*v))) is None && e == WireError::Payload,
        },
{
    if value_is_null(v) {
        Ok(None)
    } else {
        match decode_bytes(v) {
            Some(bytes) => Ok(Some(bytes)),
            None => Err(WireError::Payload),
        }
    }
}

/// Why a text is not a protocol message.
#[derive(Debug, Clone, Copy, PartialEq, Eq, Hash, Structural)]
pub enum WireError {
    /// The text is not JSON.
    Syntax,
    /// The document is not an object with a kind, a stamp, a target and a
    /// payload.
    Envelope,
    /// The kind is a name that this protocol does not have.
    UnknownKind,
    /// The target is a name that this protocol does not have.
    UnknownTarget,
    /// The payload does not have the schema of the kind.
    Payload,
}

// ---- transforms ----

/// Whether a tree encodes a transform: an object of its seven numbers.
pub open spec fn encodes_transform(tree: Json, transform: TransformData) -> bool {
    &&& tree matches Json::Object(members) && members.dom() == set![
        "position_x"@,
        "position_y"@,
        "rotation"@,
        "scale_x"@,
        "scale_y"@,
        "width"@,
        "height"@,
    ]
    &&& field_number(tree, "position_x"@) == Some(transform.position_x)
    &&& field_number(tree, "position_y"@) == Some(transform.position_y)
    &&& field_number(tree, "rotation"@) == Some(transform.rotation)
    &&& field_number(tree, "scale_x"@) == Some(transform.scale_x)
    &&& field_number(tree, "scale_y"@) == Some(transform.scale_y)
    &&& field_number(tree, "width"@) == Some(transform.width)
    &&& field_number(tree, "height"@) == Some(transform.height)
}

/// The transform that a tree is read as: all seven members must be numbers.
pub open spec fn decoded_transform(tree: Json) -> Option<TransformData> {
    match (
        field_number(tree, "position_x"@),
        field_number(tree, "position_y"@),
        field_number(tree, "rotation"@),
        field_number(tree, "scale_x"@),
        field_number(tree, "scale_y"@),
        field_number(tree, "width"@),
        field_number(tree, "height"@),
    ) {
        (
            Some(position_x),
            Some(position_y),
            Some(rotation),
            Some(scale_x),
            Some(scale_y),
            Some(width),
            Some(height),
        ) => Some(
            TransformData { position_x, position_y, rotation, scale_x, scale_y, width, height },
        ),
        _ => None,
    }
}

/// The transform of the member of this name.
pub open spec fn field_transform(tree: Json, name: Seq<char>) -> Option<TransformData> {
    match field(tree, name) {
        Some(j) => decoded_transform(j),
        None => None,
    }
}

fn encode_transform(transform: &TransformData) -> (v: serde_json::Value)
    ensures
        encodes_transform(json_of(v), *transform),
{
    let mut members: Vec<(String, serde_json::Value)> = Vec::new();
    put(&mut members, "position_x", value_number(transform.position_x.clone()));
    put(&mut members, "position_y", value_number(transform.position_y.clone()));
    put(&mut members, "rotation", value_number(transform.rotation.clone()));
    put(&mut members, "scale_x", value_number(transform.scale_x.clone()));
    put(&mut members, "scale_y", value_number(transform.scale_y.clone()));
    put(&mut members, "width", value_number(transform.width.clone()));
    put(&mut members, "height", value_number(transform.height.clone()));
    let ghost ms = members@;
    proof {
        reveal_strlit("position_x");
        reveal_strlit("position_y");
        reveal_strlit("rotation");
        reveal_strlit("scale_x");
        reveal_strlit("scale_y");
        reveal_strlit("width");
        reveal_strlit("height");
        assert("position_x"@.len() == 10 && "position_y"@.len() == 10 && "rotation"@.len() == 8);
        assert("scale_x"@.len() == 7 && "scale_y"@.len() == 7);
        assert("width"@.len() == 5 && "height"@.len() == 6);
        assert("position_x"@[9] != "position_y"@[9]);
        assert("scale_x"@[6] != "scale_y"@[6]);
        assert(ms[0].0@ == "position_x"@ && ms[1].0@ == "position_y"@ && ms[2].0@ == "rotation"@);
        assert(ms[3].0@ == "scale_x"@ && ms[4].0@ == "scale_y"@ && ms[5].0@ == "width"@ && ms[6].0@
            == "height"@);
        assert(distinct_names(ms));
    }
    let v = value_object(members);
    proof {
        lemma_members_map(ms);
        assert(members_map(ms).dom() =~= set![
            "position_x"@,
            "position_y"@,
            "rotation"@,
            "scale_x"@,
            "scale_y"@,
            "width"@,
            "height"@,
        ]);
    }
    v
}

fn decode_transform(v: &serde_json::Value) -> (transform: Option<TransformData>)
    ensures
        transform == decoded_transform(json_of(*v)),
{
    let position_x = get_number(v, "position_x");
    let position_y = get_number(v, "position_y");
    let rotation = get_number(v, "rotation");
    let scale_x = get_number(v, "scale_x");
    let scale_y = get_number(v, "scale_y");
    let width = get_number(v, "width");
    let height = get_number(v, "height");
    match (position_x, position_y, rotation, scale_x, scale_y, width, height) {
        (
            Some(position_x),
            Some(position_y),
            Some(rotation),
            Some(scale_x),
            Some(scale_y),
            Some(width),
            Some(height),
        ) => Some(
            TransformData { position_x, position_y, rotation, scale_x, scale_y, width, height },
        ),
        _ => None,
    }
}

fn get_transform(v: &serde_json::Value, name: &str) -> (transform: Option<TransformData>)
    ensures
        transform == field_transform(json_of(*v), name@),
{
    match value_get(v, name) {
        Some(member) => decode_transform(member),
        None => None,
    }
}

// ---- scene items ----

/// The tree of an optional text that is always written: null for none.
pub open spec fn opt_text_json(text: Option<Seq<char>>) -> Json {
    match text {
        Some(s) => Json::String(s),
        None => Json::Null,
    }
}

/// The tree of an optional number that is always written: null for none.
pub open spec fn opt_number_json(number: Option<serde_json::Number>) -> Json {
    match number {
        Some(n) => Json::Number(n),
        None => Json::Null,
    }
}

/// The names of the members of an encoded scene item. The image's bytes are
/// a member only where the item has them.
pub open spec fn item_names(with_bytes: bool) -> Set<Seq<char>> {
    if with_bytes {
        set![
            "item_id"@,
            "source_name"@,
            "source_type"@,
            "transform"@,
            "image_path"@,
            "image_data"@,
        ]
    } else {
        set!["item_id"@, "source_name"@, "source_type"@, "transform"@, "image_path"@]
    }
}

/// Whether a tree encodes a scene item.
pub open spec fn encodes_item(tree: Json, item: SceneItemInfoView) -> bool {
    &&& tree matches Json::Object(members) && members.dom() == item_names(item.image_data is Some)
    &&& field_int(tree, "item_id"@) == Some(item.item_id)
    &&& field_text(tree, "source_name"@) == Some(item.source_name)
    &&& field_text(tree, "source_type"@) == Some(item.source_type)
    &&& field(tree, "transform"@) matches Some(t) && encodes_transform(t, item.transform)
    &&& field(tree, "image_path"@) == Some(opt_text_json(item.image_path))
    &&& match item.image_data {
        Some(bytes) => field(tree, "image_data"@) matches Some(d) && encodes_bytes(d, bytes),
        None => field(tree, "image_data"@) is None,
    }
}

/// The scene item that a tree is read as.
pub open spec fn decoded_item(tree: Json) -> Option<SceneItemInfoView> {
    match (
        field_int(tree, "item_id"@),
        field_text(tree, "source_name"@),
        field_text(tree, "source_type"@),
        field_transform(tree, "transform"@),
        field_opt_text(tree, "image_path"@),
        decoded_opt_bytes(field(tree, "image_data"@)),
    ) {
        (
            Some(item_id),
            Some(source_name),
            Some(source_type),
            Some(transform),
            Some(image_path),
            Some(image_data),
        ) => Some(
            SceneItemInfoView { item_id, source_name, source_type, transform, image_path, image_data },
        ),
        _ => None,
    }
}

pub open spec fn encodes_items(tree: Json, items: Seq<SceneItemInfoView>) -> bool {
    &&& tree matches Json::Array(trees)
    &&& trees.len() == items.len()
    &&& forall|k: int| 0 <= k < items.len() ==> encodes_item(#[trigger] trees[k], items[k])
}

pub open spec fn decoded_items(tree: Json) -> Option<Seq<SceneItemInfoView>> {
    match tree {
        Json::Array(trees) => if forall|k: int|
            0 <= k < trees.len() ==> decoded_item(#[trigger] trees[k]) is Some {
            Some(Seq::new(trees.len(), |k: int| decoded_item(trees[k])->0))
        } else {
            None
        },
        _ => None,
    }
}

/// A scene item is read back from its encoding.
pub proof fn lemma_item_round_trip(tree: Json, item: SceneItemInfoView)
    requires
        encodes_item(tree, item),
    ensures
        decoded_item(tree) == Some(item),
{
    match item.image_data {
        Some(bytes) => {
            lemma_bytes_round_trip(field(tree, "image_data"@)->0, bytes);
        },
        None => {},
    }
}

pub proof fn lemma_items_round_trip(tree: Json, items: Seq<SceneItemInfoView>)
    requires
        encodes_items(tree, items),
    ensures
        decoded_items(tree) == Some(items),
{
    let trees = tree->Array_0;
    assert forall|k: int| 0 <= k < trees.len() implies decoded_item(#[trigger] trees[k]) == Some(
        items[k],
    ) by {
        lemma_item_round_trip(trees[k], items[k]);
    }
    assert(Seq::new(trees.len(), |k: int| decoded_item(trees[k])->0) =~= items);
}

fn get_opt_bytes(v: &serde_json::Value, name: &str) -> (bytes: Option<Option<Vec<u8>>>)
    ensures
        match bytes {
            Some(Some(b)) => decoded_opt_bytes(field(json_of(*v), name@)) == Some(Some(b@)),
            Some(None) => decoded_opt_bytes(field(json_of(*v), name@)) == Some(None::<Seq<u8>>),
            None => decoded_opt_bytes(field(json_of(*v), name@)) is None,
        },
{
    match value_get(v, name) {
        None => Some(None),
        Some(member) => match deserialize(member) {
            Ok(bytes) => Some(bytes),
            Err(_) => None,
        },
    }
}

fn encode_item(item: &SceneItemInfo) -> (v: serde_json::Value)
    ensures
        encodes_item(json_of(v), item@),
{
    let mut members: Vec<(String, serde_json::Value)> = Vec::new();
    put(&mut members, "item_id", value_from_i64(item.item_id));
    put(&mut members, "source_name", text_value(&item.source_name));
    put(&mut members, "source_type", text_value(&item.source_type));
    put(&mut members, "transform", encode_transform(&item.transform));
    put(&mut members, "image_path", opt_text_value(&item.image_path));
    match &item.image_data {
        Some(bytes) => {
            put(&mut members, "image_data", encode_bytes(bytes));
        },
        None => {},
    }
    let ghost ms = members@;
    proof {
        reveal_strlit("item_id");
        reveal_strlit("source_name");
        reveal_strlit("source_type");
        reveal_strlit("transform");
        reveal_strlit("image_path");
        reveal_strlit("image_data");
        assert("item_id"@.len() == 7 && "source_name"@.len() == 11 && "source_type"@.len() == 11);
        assert("transform"@.len() == 9 && "image_path"@.len() == 10 && "image_data"@.len() == 10);
        assert("source_name"@[7] != "source_type"@[7]);
        assert("image_path"@[6] != "image_data"@[6]);
        assert(ms[0].0@ == "item_id"@ && ms[1].0@ == "source_name"@ && ms[2].0@ == "source_type"@);
        assert(ms[3].0@ == "transform"@ && ms[4].0@ == "image_path"@);
        if item.image_data is Some {
            assert(ms[5].0@ == "image_data"@);
        }
        assert(distinct_names(ms));
    }
    let v = value_object(members);
    proof {
        lemma_members_map(ms);
        assert(members_map(ms).dom() =~= item_names(item.image_data is Some));
    }
    v
}

fn decode_item(v: &serde_json::Value) -> (item: Option<SceneItemInfo>)
    ensures
        match item {
            Some(i) => decoded_item(json_of(*v)) == Some(i@),
            None => decoded_item(json_of(*v)) is None,
        },
{
    let item_id = get_i64(v, "item_id");
    let source_name = get_text(v, "source_name");
    let source_type = get_text(v, "source_type");
    let transform = get_transform(v, "transform");
    let image_path = get_opt_text(v, "image_path");
    let image_data = get_opt_bytes(v, "image_data");
    match (item_id, source_name, source_type, transform, image_path, image_data) {
        (
            Some(item_id),
            Some(source_name),
            Some(source_type),
            Some(transform),
            Some(image_path),
            Some(image_data),
        ) => Some(
            SceneItemInfo { item_id, source_name, source_type, transform, image_path, image_data },
        ),
        _ => None,
    }
}

fn encode_items(items: &Vec<SceneItemInfo>) -> (v: serde_json::Value)
    ensures
        encodes_items(json_of(v), items@.map_values(|i: SceneItemInfo| i@)),
{
    let mut trees: Vec<serde_json::Value> = Vec::new();
    let mut i: usize = 0;
    while i < items.len()
        invariant
            i <= items@.len(),
            trees@.len() == i,
            forall|k: int| 0 <= k < i ==> encodes_item(json_of(#[trigger] trees@[k]), items@[k]@),
        decreases items@.len() - i,
    {
        trees.push(encode_item(&items[i]));
        i = i + 1;
    }
    let ghost listed = trees@;
    let v = value_array(trees);
    proof {
        let out = trees_of(listed);
        let views = items@.map_values(|i: SceneItemInfo| i@);
        assert forall|k: int| 0 <= k < views.len() implies encodes_item(#[trigger] out[k], views[k]) by {
            assert(out[k] == json_of(listed[k]));
        }
    }
    v
}

fn decode_items(v: &serde_json::Value) -> (items: Option<Vec<SceneItemInfo>>)
    ensures
        match items {
            Some(list) => decoded_items(json_of(*v)) == Some(list@.map_values(|i: SceneItemInfo| i@)),
            None => decoded_items(json_of(*v)) is None,
        },
{
    match value_as_array(v) {
        Some(values) => {
            let ghost trees = trees_of(values@);
            let mut items: Vec<SceneItemInfo> = Vec::new();
            let mut i: usize = 0;
            while i < values.len()
                invariant
                    i <= values@.len(),
                    json_of(*v) == Json::Array(trees),
                    trees == trees_of(values@),
                    items@.len() == i,
                    forall|k: int| 0 <= k < i ==> decoded_item(#[trigger] trees[k]) == Some(items@[k]@),
                decreases values@.len() - i,
            {
                assert(trees[i as int] == json_of(values@[i as int]));
                match decode_item(&values[i]) {
                    Some(item) => {
                        items.push(item);
                    },
                    None => {
                        assert(decoded_item(trees[i as int]) is None);
                        return None;
                    },
                }
                i = i + 1;
            }
            assert(Seq::new(trees.len(), |k: int| decoded_item(trees[k])->0) =~= items@.map_values(
                |i: SceneItemInfo| i@,
            ));
            Some(items)
        },
        None => None,
    }
}

// ---- scenes ----

pub open spec fn encodes_scene(tree: Json, scene: SceneInfoView) -> bool {
    &&& tree matches Json::Object(members) && members.dom() == set!["scene_name"@, "items"@]
    &&& field_text(tree, "scene_name"@) == Some(scene.scene_name)
    &&& field(tree, "items"@) matches Some(list) && encodes_items(list, scene.items)
}

pub open spec fn decoded_scene(tree: Json) -> Option<SceneInfoView> {
    match (field_text(tree, "scene_name"@), field(tree, "items"@)) {
        (Some(scene_name), Some(list)) => match decoded_items(list) {
            Some(items) => Some(SceneInfoView { scene_name, items }),
            None => None,
        },
        _ => None,
    }
}

pub open spec fn encodes_scenes(tree: Json, scenes: Seq<SceneInfoView>) -> bool {
    &&& tree matches Json::Array(trees)
    &&& trees.len() == scenes.len()
    &&& forall|k: int| 0 <= k < scenes.len() ==> encodes_scene(#[trigger] trees[k], scenes[k])
}

pub open spec fn decoded_scenes(tree: Json) -> Option<Seq<SceneInfoView>> {
    match tree {
        Json::Array(trees) => if forall|k: int|
            0 <= k < trees.len() ==> decoded_scene(#[trigger] trees[k]) is Some {
            Some(Seq::new(trees.len(), |k: int| decoded_scene(trees[k])->0))
        } else {
            None
        },
        _ => None,
    }
}

pub proof fn lemma_scene_round_trip(tree: Json, scene: SceneInfoView)
    requires
        encodes_scene(tree, scene),
    ensures
        decoded_scene(tree) == Some(scene),
{
    lemma_items_round_trip(field(tree, "items"@)->0, scene.items);
}

pub proof fn lemma_scenes_round_trip(tree: Json, scenes: Seq<SceneInfoView>)
    requires
        encodes_scenes(tree, scenes),
    ensures
        decoded_scenes(tree) == Some(scenes),
{
    let trees = tree->Array_0;
    assert forall|k: int| 0 <= k < trees.len() implies decoded_scene(#[trigger] trees[k]) == Some(
        scenes[k],
    ) by {
        lemma_scene_round_trip(trees[k], scenes[k]);
    }
    assert(Seq::new(trees.len(), |k: int| decoded_scene(trees[k])->0) =~= scenes);
}

fn encode_scene(scene: &SceneInfo) -> (v: serde_json::Value)
    ensures
        encodes_scene(json_of(v), scene@),
{
    let mut members: Vec<(String, serde_json::Value)> = Vec::new();
    put(&mut members, "scene_name", text_value(&scene.scene_name));
    put(&mut members, "items", encode_items(&scene.items));
    let ghost ms = members@;
    proof {
        reveal_strlit("scene_name");
        reveal_strlit("items");
        assert("scene_name"@.len() == 10 && "items"@.len() == 5);
        assert(ms[0].0@ == "scene_name"@ && ms[1].0@ == "items"@);
        assert(distinct_names(ms));
    }
    let v = value_object(members);
    proof {
        lemma_members_map(ms);
        assert(members_map(ms).dom() =~= set!["scene_name"@, "items"@]);
    }
    v
}

fn decode_scene(v: &serde_json::Value) -> (scene: Option<SceneInfo>)
    ensures
        match scene {
            Some(s) => decoded_scene(json_of(*v)) == Some(s@),
            None => decoded_scene(json_of(*v)) is None,
        },
{
    let scene_name = get_text(v, "scene_name");
    match (scene_name, value_get(v, "items")) {
        (Some(scene_name), Some(list)) => match decode_items(list) {
            Some(items) => Some(SceneInfo { scene_name, items }),
            None => None,
        },
        _ => None,
    }
}

fn encode_scenes(scenes: &Vec<SceneInfo>) -> (v: serde_json::Value)
    ensures
        encodes_scenes(json_of(v), scenes@.map_values(|s: SceneInfo| s@)),
{
    let mut trees: Vec<serde_json::Value> = Vec::new();
    let mut i: usize = 0;
    while i < scenes.len()
        invariant
            i <= scenes@.len(),
            trees@.len() == i,
            forall|k: int| 0 <= k < i ==> encodes_scene(json_of(#[trigger] trees@[k]), scenes@[k]@),
        decreases scenes@.len() - i,
    {
        trees.push(encode_scene(&scenes[i]));
        i = i + 1;
    }
    let ghost listed = trees@;
    let v = value_array(trees);
    proof {
        let out = trees_of(listed);
        let views = scenes@.map_values(|s: SceneInfo| s@);
        assert forall|k: int| 0 <= k < views.len() implies encodes_scene(#[trigger] out[k], views[k]) by {
            assert(out[k] == json_of(listed[k]));
        }
    }
    v
}

fn decode_scenes(v: &serde_json::Value) -> (scenes: Option<Vec<SceneInfo>>)
    ensures
        match scenes {
            Some(list) => decoded_scenes(json_of(*v)) == Some(list@.map_values(|s: SceneInfo| s@)),
            None => decoded_scenes(json_of(*v)) is None,
        },
{
    match value_as_array(v) {
        Some(values) => {
            let ghost trees = trees_of(values@);
            let mut scenes: Vec<SceneInfo> = Vec::new();
            let mut i: usize = 0;
            while i < values.len()
                invariant
                    i <= values@.len(),
                    json_of(*v) == Json::Array(trees),
                    trees == trees_of(values@),
                    scenes@.len() == i,
                    forall|k: int| 0 <= k < i ==> decoded_scene(#[trigger] trees[k]) == Some(scenes@[k]@),
                decreases values@.len() - i,
            {
                assert(trees[i as int] == json_of(values@[i as int]));
                match decode_scene(&values[i]) {
                    Some(scene) => {
                        scenes.push(scene);
                    },
                    None => {
                        assert(decoded_scene(trees[i as int]) is None);
                        return None;
                    },
                }
                i = i + 1;
            }
            assert(Seq::new(trees.len(), |k: int| decoded_scene(trees[k])->0) =~= scenes@.map_values(
                |s: SceneInfo| s@,
            ));
            Some(scenes)
        },
        None => None,
    }
}

// ---- payloads ----

pub open spec fn encodes_state(tree: Json, state: StateSyncPayloadView) -> bool {
    &&& tree matches Json::Object(members) && members.dom() == set![
        "current_program_scene"@,
        "current_preview_scene"@,
        "scenes"@,
    ]
    &&& field_text(tree, "current_program_scene"@) == Some(state.current_program_scene)
    &&& field(tree, "current_preview_scene"@) == Some(opt_text_json(state.current_preview_scene))
    &&& field(tree, "scenes"@) matches Some(list) && encodes_scenes(list, state.scenes)
}

pub open spec fn decoded_state(tree: Json) -> Option<StateSyncPayloadView> {
    match (
        field_text(tree, "current_program_scene"@),
        field_opt_text(tree, "current_preview_scene"@),
        field(tree, "scenes"@),
    ) {
        (Some(current_program_scene), Some(current_preview_scene), Some(list)) => match decoded_scenes(
            list,
        ) {
            Some(scenes) => Some(
                StateSyncPayloadView { current_program_scene, current_preview_scene, scenes },
            ),
            None => None,
        },
        _ => None,
    }
}

pub open spec fn encodes_image(tree: Json, image: ImageUpdatePayloadView) -> bool {
    &&& tree matches Json::Object(members) && members.dom() == set![
        "scene_name"@,
        "source_name"@,
        "file"@,
        "image_data"@,
        "width"@,
        "height"@,
    ]
    &&& field_text(tree, "scene_name"@) == Some(image.scene_name)
    &&& field_text(tree, "source_name"@) == Some(image.source_name)
    &&& field_text(tree, "file"@) == Some(image.file)
    &&& field(tree, "image_data"@) matches Some(d) && encodes_bytes(d, image.image_data)
    &&& field(tree, "width"@) == Some(opt_number_json(image.width))
    &&& field(tree, "height"@) == Some(opt_number_json(image.height))
}

/// The image update that a tree is read as. The bytes must be there; the
/// dimensions may be missing.
pub open spec fn decoded_image(tree: Json) -> Option<ImageUpdatePayloadView> {
    match (
        field_text(tree, "scene_name"@),
        field_text(tree, "source_name"@),
        field_text(tree, "file"@),
        field(tree, "image_data"@),
        field_opt_number(tree, "width"@),
        field_opt_number(tree, "height"@),
    ) {
        (Some(scene_name), Some(source_name), Some(file), Some(d), Some(width), Some(height)) => match decoded_bytes(
            d,
        ) {
            Some(image_data) => Some(
                ImageUpdatePayloadView { scene_name, source_name, file, image_data, width, height },
            ),
            None => None,
        },
        _ => None,
    }
}

/// Whether a tree encodes a payload.
pub open spec fn encodes_payload(tree: Json, payload: PayloadView) -> bool {
    match payload {
        PayloadView::Empty => tree == Json::Object(Map::empty()),
        PayloadView::SceneChange(p) => {
            &&& tree matches Json::Object(members) && members.dom() == set!["scene_name"@]
            &&& field_text(tree, "scene_name"@) == Some(p.scene_name)
        },
        PayloadView::TransformNotice { scene_name, scene_item_id } => {
            &&& tree matches Json::Object(members) && members.dom() == set![
                "scene_name"@,
                "scene_item_id"@,
            ]
            &&& field_text(tree, "scene_name"@) == Some(scene_name)
            &&& field_int(tree, "scene_item_id"@) == Some(scene_item_id)
            &&& field(tree, "transform"@) is None
        },
        PayloadView::TransformUpdate(p) => {
            &&& tree matches Json::Object(members) && members.dom() == set![
                "scene_name"@,
                "scene_item_id"@,
                "transform"@,
            ]
            &&& field_text(tree, "scene_name"@) == Some(p.scene_name)
            &&& field_int(tree, "scene_item_id"@) == Some(p.scene_item_id)
            &&& field(tree, "transform"@) matches Some(t) && encodes_transform(t, p.transform)
        },
        PayloadView::InputNotice { input_name } => {
            &&& tree matches Json::Object(members) && members.dom() == set!["input_name"@]
            &&& field_text(tree, "input_name"@) == Some(input_name)
            &&& field(tree, "image_data"@) is None
        },
        PayloadView::ImageUpdate(p) => encodes_image(tree, p),
        PayloadView::StateSync(p) => encodes_state(tree, p),
    }
}

/// The payload that a tree is read as under a kind.
///
/// A heartbeat and the reserved kind carry nothing: whatever stands in their
/// payload is passed over. A transform update without a transform is a
/// notice. An image update that is not a whole image update is a notice if
/// it names an input.
pub open spec fn decoded_payload(kind: SyncMessageType, tree: Json) -> Option<PayloadView> {
    match kind {
        SyncMessageType::SourceUpdate => Some(PayloadView::Empty),
        SyncMessageType::Heartbeat => Some(PayloadView::Empty),
        SyncMessageType::SceneChange => match field_text(tree, "scene_name"@) {
            Some(scene_name) => Some(PayloadView::SceneChange(SceneChangePayloadView { scene_name })),
            None => None,
        },
        SyncMessageType::TransformUpdate => match (
            field_text(tree, "scene_name"@),
            field_int(tree, "scene_item_id"@),
        ) {
            (Some(scene_name), Some(scene_item_id)) => match field(tree, "transform"@) {
                None => Some(PayloadView::TransformNotice { scene_name, scene_item_id }),
                Some(t) => match decoded_transform(t) {
                    Some(transform) => Some(
                        PayloadView::TransformUpdate(
                            TransformUpdatePayloadView { scene_name, scene_item_id, transform },
                        ),
                    ),
                    None => None,
                },
            },
            _ => None,
        },
        SyncMessageType::ImageUpdate => match decoded_image(tree) {
            Some(p) => Some(PayloadView::ImageUpdate(p)),
            None => match field_text(tree, "input_name"@) {
                Some(input_name) => Some(PayloadView::InputNotice { input_name }),
                None => None,
            },
        },
        SyncMessageType::StateSync => match decoded_state(tree) {
            Some(p) => Some(PayloadView::StateSync(p)),
            None => None,
        },
    }
}

/// A payload that fits its kind is read back from its encoding.
pub proof fn lemma_payload_round_trip(kind: SyncMessageType, tree: Json, payload: PayloadView)
    requires
        payload_fits(kind, payload),
        encodes_payload(tree, payload),
    ensures
        decoded_payload(kind, tree) == Some(payload),
{
    match payload {
        PayloadView::ImageUpdate(p) => {
            lemma_bytes_round_trip(field(tree, "image_data"@)->0, p.image_data);
        },
        PayloadView::StateSync(p) => {
            lemma_scenes_round_trip(field(tree, "scenes"@)->0, p.scenes);
        },
        _ => {},
    }
}

fn encode_state(state: &StateSyncPayload) -> (v: serde_json::Value)
    ensures
        encodes_state(json_of(v), state@),
{
    let mut members: Vec<(String, serde_json::Value)> = Vec::new();
    put(&mut members, "current_program_scene", text_value(&state.current_program_scene));
    put(&mut members, "current_preview_scene", opt_text_value(&state.current_preview_scene));
    put(&mut members, "scenes", encode_scenes(&state.scenes));
    let ghost ms = members@;
    proof {
        reveal_strlit("current_program_scene");
        reveal_strlit("current_preview_scene");
        reveal_strlit("scenes");
        assert("current_program_scene"@.len() == 21 && "current_preview_scene"@.len() == 21);
        assert("scenes"@.len() == 6);
        assert("current_program_scene"@[10] != "current_preview_scene"@[10]);
        assert(ms[0].0@ == "current_program_scene"@ && ms[1].0@ == "current_preview_scene"@
            && ms[2].0@ == "scenes"@);
        assert(distinct_names(ms));
    }
    let v = value_object(members);
    proof {
        lemma_members_map(ms);
        assert(members_map(ms).dom() =~= set![
            "current_program_scene"@,
            "current_preview_scene"@,
            "scenes"@,
        ]);
    }
    v
}

fn decode_state(v: &serde_json::Value) -> (state: Option<StateSyncPayload>)
    ensures
        match state {
            Some(s) => decoded_state(json_of(*v)) == Some(s@),
            None => decoded_state(json_of(*v)) is None,
        },
{
    let current_program_scene = get_text(v, "current_program_scene");
    let current_preview_scene = get_opt_text(v, "current_preview_scene");
    match (current_program_scene, current_preview_scene, value_get(v, "scenes")) {
        (Some(current_program_scene), Some(current_preview_scene), Some(list)) => match decode_scenes(
            list,
        ) {
            Some(scenes) => Some(
                StateSyncPayload { current_program_scene, current_preview_scene, scenes },
            ),
            None => None,
        },
        _ => None,
    }
}

fn encode_image(image: &ImageUpdatePayload) -> (v: serde_json::Value)
    ensures
        encodes_image(json_of(v), image@),
{
    let mut members: Vec<(String, serde_json::Value)> = Vec::new();
    put(&mut members, "scene_name", text_value(&image.scene_name));
    put(&mut members, "source_name", text_value(&image.source_name));
    put(&mut members, "file", text_value(&image.file));
    put(&mut members, "image_data", encode_bytes(&image.image_data));
    put(&mut members, "width", opt_number_value(&image.width));
    put(&mut members, "height", opt_number_value(&image.height));
    let ghost ms = members@;
    proof {
        reveal_strlit("scene_name");
        reveal_strlit("source_name");
        reveal_strlit("file");
        reveal_strlit("image_data");
        reveal_strlit("width");
        reveal_strlit("height");
        assert("scene_name"@.len() == 10 && "source_name"@.len() == 11 && "file"@.len() == 4);
        assert("image_data"@.len() == 10 && "width"@.len() == 5 && "height"@.len() == 6);
        assert("scene_name"@[0] != "image_data"@[0]);
        assert(ms[0].0@ == "scene_name"@ && ms[1].0@ == "source_name"@ && ms[2].0@ == "file"@);
        assert(ms[3].0@ == "image_data"@ && ms[4].0@ == "width"@ && ms[5].0@ == "height"@);
        assert(distinct_names(ms));
    }
    let v = value_object(members);
    proof {
        lemma_members_map(ms);
        assert(members_map(ms).dom() =~= set![
            "scene_name"@,
            "source_name"@,
            "file"@,
            "image_data"@,
            "width"@,
            "height"@,
        ]);
    }
    v
}

fn decode_image(v: &serde_json::Value) -> (image: Option<ImageUpdatePayload>)
    ensures
        match image {
            Some(i) => decoded_image(json_of(*v)) == Some(i@),
            None => decoded_image(json_of(*v)) is None,
        },
{
    let scene_name = get_text(v, "scene_name");
    let source_name = get_text(v, "source_name");
    let file = get_text(v, "file");
    let width = get_opt_number(v, "width");
    let height = get_opt_number(v, "height");
    match (scene_name, source_name, file, value_get(v, "image_data"), width, height) {
        (Some(scene_name), Some(source_name), Some(file), Some(d), Some(width), Some(height)) => match decode_bytes(
            d,
        ) {
            Some(image_data) => Some(
                ImageUpdatePayload { scene_name, source_name, file, image_data, width, height },
            ),
            None => None,
        },
        _ => None,
    }
}

/// The document of a payload.
pub fn encode_payload(payload: &Payload) -> (v: serde_json::Value)
    ensures
        encodes_payload(json_of(v), payload@),
{
    match payload {
        Payload::Empty => {
            let members: Vec<(String, serde_json::Value)> = Vec::new();
            value_object(members)
        },
        Payload::SceneChange(p) => {
            let mut members: Vec<(String, serde_json::Value)> = Vec::new();
            put(&mut members, "scene_name", text_value(&p.scene_name));
            let ghost ms = members@;
            let v = value_object(members);
            proof {
                lemma_members_map(ms);
                assert(ms[0].0@ == "scene_name"@);
                assert(members_map(ms).dom() =~= set!["scene_name"@]);
            }
            v
        },
        Payload::TransformNotice { scene_name, scene_item_id } => {
            let mut members: Vec<(String, serde_json::Value)> = Vec::new();
            put(&mut members, "scene_name", text_value(scene_name));
            put(&mut members, "scene_item_id", value_from_i64(*scene_item_id));
            let ghost ms = members@;
            proof {
                reveal_strlit("scene_name");
                reveal_strlit("scene_item_id");
                reveal_strlit("transform");
                assert("scene_name"@.len() == 10 && "scene_item_id"@.len() == 13);
                assert("transform"@.len() == 9);
                assert(ms[0].0@ == "scene_name"@ && ms[1].0@ == "scene_item_id"@);
                assert(distinct_names(ms));
            }
            let v = value_object(members);
            proof {
                lemma_members_map(ms);
                assert(members_map(ms).dom() =~= set!["scene_name"@, "scene_item_id"@]);
            }
            v
        },
        Payload::TransformUpdate(p) => {
            let mut members: Vec<(String, serde_json::Value)> = Vec::new();
            put(&mut members, "scene_name", text_value(&p.scene_name));
            put(&mut members, "scene_item_id", value_from_i64(p.scene_item_id));
            put(&mut members, "transform", encode_transform(&p.transform));
            let ghost ms = members@;
            proof {
                reveal_strlit("scene_name");
                reveal_strlit("scene_item_id");
                reveal_strlit("transform");
                assert("scene_name"@.len() == 10 && "scene_item_id"@.len() == 13);
                assert("transform"@.len() == 9);
                assert(ms[0].0@ == "scene_name"@ && ms[1].0@ == "scene_item_id"@ && ms[2].0@
                    == "transform"@);
                assert(distinct_names(ms));
            }
            let v = value_object(members);
            proof {
                lemma_members_map(ms);
                assert(members_map(ms).dom() =~= set![
                    "scene_name"@,
                    "scene_item_id"@,
                    "transform"@,
                ]);
            }
            v
        },
        Payload::InputNotice { input_name } => {
            let mut members: Vec<(String, serde_json::Value)> = Vec::new();
            put(&mut members, "input_name", text_value(input_name));
            let ghost ms = members@;
            let v = value_object(members);
            proof {
                reveal_strlit("input_name");
                reveal_strlit("image_data");
                assert("input_name"@.len() == 10 && "image_data"@.len() == 10);
                assert("input_name"@[1] != "image_data"@[1]);
                lemma_members_map(ms);
                assert(ms[0].0@ == "input_name"@);
                assert(members_map(ms).dom() =~= set!["input_name"@]);
            }
            v
        },
        Payload::ImageUpdate(p) => encode_image(p),
        Payload::StateSync(p) => encode_state(p),
    }
}

/// The payload of a document under a kind, or `None` where the document
/// does not have a schema of the kind.
pub fn decode_payload(kind: SyncMessageType, v: &serde_json::Value) -> (payload: Option<Payload>)
    ensures
        match payload {
            Some(p) => decoded_payload(kind, json_of(*v)) == Some(p@),
            None => decoded_payload(kind, json_of(*v)) is None,
        },
        payload matches Some(p) ==> payload_fits(kind, p@),
{
    match kind {
        SyncMessageType::SourceUpdate => Some(Payload::Empty),
        SyncMessageType::Heartbeat => Some(Payload::Empty),
        SyncMessageType::SceneChange => match get_text(v, "scene_name") {
            Some(scene_name) => Some(Payload::SceneChange(SceneChangePayload { scene_name })),
            None => None,
        },
        SyncMessageType::TransformUpdate => {
            let scene_name = get_text(v, "scene_name");
            let scene_item_id = get_i64(v, "scene_item_id");
            match (scene_name, scene_item_id) {
                (Some(scene_name), Some(scene_item_id)) => match value_get(v, "transform") {
                    None => Some(Payload::TransformNotice { scene_name, scene_item_id }),
                    Some(t) => match decode_transform(t) {
                        Some(transform) => Some(
                            Payload::TransformUpdate(
                                TransformUpdatePayload { scene_name, scene_item_id, transform },
                            ),
                        ),
                        None => None,
                    },
                },
                _ => None,
            }
        },
        SyncMessageType::ImageUpdate => match decode_image(v) {
            Some(p) => Some(Payload::ImageUpdate(p)),
            None => match get_text(v, "input_name") {
                Some(input_name) => Some(Payload::InputNotice { input_name }),
                None => None,
            },
        },
        SyncMessageType::StateSync => match decode_state(v) {
            Some(p) => Some(Payload::StateSync(p)),
            None => None,
        },
    }
}

// ---- the envelope ----

/// Whether a tree encodes a message: an object of kind, stamp, target and
/// payload, under the names `type`, `timestamp`, `target_type` and `payload`.
pub open spec fn encodes_message(tree: Json, message: SyncMessageView) -> bool {
    &&& tree matches Json::Object(members) && members.dom() == set![
        "type"@,
        "timestamp"@,
        "target_type"@,
        "payload"@,
    ]
    &&& field_text(tree, "type"@) == Some(kind_name(message.message_type))
    &&& field_int(tree, "timestamp"@) == Some(message.timestamp)
    &&& field_text(tree, "target_type"@) == Some(target_name(message.target_type))
    &&& field(tree, "payload"@) matches Some(p) && encodes_payload(p, message.payload)
}

/// The message that a tree is read as, or the first thing that is wrong
/// with it: the kind, then the stamp, then the target, then the payload.
pub open spec fn decoded_message(tree: Json) -> Result<SyncMessageView, WireError> {
    match field_text(tree, "type"@) {
        None => Err(WireError::Envelope),
        Some(kind_text) => match kind_named(kind_text) {
            None => Err(WireError::UnknownKind),
            Some(message_type) => match field_int(tree, "timestamp"@) {
                None => Err(WireError::Envelope),
                Some(timestamp) => match field_text(tree, "target_type"@) {
                    None => Err(WireError::Envelope),
                    Some(target_text) => match target_named(target_text) {
                        None => Err(WireError::UnknownTarget),
                        Some(target_type) => match field(tree, "payload"@) {
                            None => Err(WireError::Envelope),
                            Some(p) => match decoded_payload(message_type, p) {
                                None => Err(WireError::Payload),
                                Some(payload) => Ok(
                                    SyncMessageView { message_type, timestamp, target_type, payload },
                                ),
                            },
                        },
                    },
                },
            },
        },
    }
}

/// The message that a text is read as.
pub open spec fn decoded_text(text: Seq<char>) -> Result<SyncMessageView, WireError> {
    match json_parsed(text) {
        Some(tree) => decoded_message(tree),
        None => Err(WireError::Syntax),
    }
}

/// Round trip. Whatever tree encodes a well-formed message is read back as
/// that message: kind, stamp, target and payload, every string character
/// for character and every byte buffer byte for byte.
pub proof fn lemma_message_round_trip(tree: Json, message: SyncMessageView)
    requires
        payload_fits(message.message_type, message.payload),
        encodes_message(tree, message),
    ensures
        decoded_message(tree) == Ok::<SyncMessageView, WireError>(message),
{
    lemma_kind_names(message.message_type);
    lemma_target_names(message.target_type);
    lemma_payload_round_trip(message.message_type, field(tree, "payload"@)->0, message.payload);
}

// ---- depth ----

proof fn lemma_bytes_depth(tree: Json, bytes: Seq<u8>, depth: nat)
    requires
        encodes_bytes(tree, bytes),
        depth >= 1,
    ensures
        within_depth(tree, depth),
{
    let items = tree->Array_0;
    assert forall|i: int| 0 <= i < items.len() implies within_depth(
        #[trigger] items[i],
        (depth - 1) as nat,
    ) by {
        assert(integer(items[i]) == Some(bytes[i] as i64));
    }
}

proof fn lemma_transform_depth(tree: Json, transform: TransformData, depth: nat)
    requires
        encodes_transform(tree, transform),
        depth >= 1,
    ensures
        within_depth(tree, depth),
{
    let members = tree->Object_0;
    assert forall|name: Seq<char>| members.contains_key(name) implies within_depth(
        #[trigger] members[name],
        (depth - 1) as nat,
    ) by {
        assert(members.dom().contains(name));
        assert(field(tree, name) == Some(members[name]));
    }
}

proof fn lemma_item_depth(tree: Json, item: SceneItemInfoView, depth: nat)
    requires
        encodes_item(tree, item),
        depth >= 2,
    ensures
        within_depth(tree, depth),
{
    let below = (depth - 1) as nat;
    lemma_transform_depth(field(tree, "transform"@)->0, item.transform, below);
    match item.image_data {
        Some(bytes) => {
            lemma_bytes_depth(field(tree, "image_data"@)->0, bytes, below);
        },
        None => {},
    }
    let members = tree->Object_0;
    assert forall|name: Seq<char>| members.contains_key(name) implies within_depth(
        #[trigger] members[name],
        (depth - 1) as nat,
    ) by {
        assert(members.dom().contains(name));
        assert(field(tree, name) == Some(members[name]));
    }
}

proof fn lemma_items_depth(tree: Json, items: Seq<SceneItemInfoView>, depth: nat)
    requires
        encodes_items(tree, items),
        depth >= 3,
    ensures
        within_depth(tree, depth),
{
    let trees = tree->Array_0;
    assert forall|i: int| 0 <= i < trees.len() implies within_depth(
        #[trigger] trees[i],
        (depth - 1) as nat,
    ) by {
        lemma_item_depth(trees[i], items[i], (depth - 1) as nat);
    }
}

proof fn lemma_scene_depth(tree: Json, scene: SceneInfoView, depth: nat)
    requires
        encodes_scene(tree, scene),
        depth >= 4,
    ensures
        within_depth(tree, depth),
{
    lemma_items_depth(field(tree, "items"@)->0, scene.items, (depth - 1) as nat);
    let members = tree->Object_0;
    assert forall|name: Seq<char>| members.contains_key(name) implies within_depth(
        #[trigger] members[name],
        (depth - 1) as nat,
    ) by {
        assert(members.dom().contains(name));
        assert(field(tree, name) == Some(members[name]));
    }
}

proof fn lemma_scenes_depth(tree: Json, scenes: Seq<SceneInfoView>, depth: nat)
    requires
        encodes_scenes(tree, scenes),
        depth >= 5,
    ensures
        within_depth(tree, depth),
{
    let trees = tree->Array_0;
    assert forall|i: int| 0 <= i < trees.len() implies within_depth(
        #[trigger] trees[i],
        (depth - 1) as nat,
    ) by {
        lemma_scene_depth(trees[i], scenes[i], (depth - 1) as nat);
    }
}

proof fn lemma_payload_depth(tree: Json, payload: PayloadView, depth: nat)
    requires
        encodes_payload(tree, payload),
        depth >= 6,
    ensures
        within_depth(tree, depth),
{
    let below = (depth - 1) as nat;
    match payload {
        PayloadView::TransformUpdate(p) => {
            lemma_transform_depth(field(tree, "transform"@)->0, p.transform, below);
        },
        PayloadView::ImageUpdate(p) => {
            lemma_bytes_depth(field(tree, "image_data"@)->0, p.image_data, below);
        },
        PayloadView::StateSync(p) => {
            lemma_scenes_depth(field(tree, "scenes"@)->0, p.scenes, below);
        },
        _ => {},
    }
    let members = tree->Object_0;
    assert forall|name: Seq<char>| members.contains_key(name) implies within_depth(
        #[trigger] members[name],
        (depth - 1) as nat,
    ) by {
        assert(members.dom().contains(name));
        assert(field(tree, name) == Some(members[name]));
    }
}

/// The document of a message is at most seven levels deep.
pub proof fn lemma_message_depth(tree: Json, message: SyncMessageView, depth: nat)
    requires
        encodes_message(tree, message),
        depth >= 7,
    ensures
        within_depth(tree, depth),
{
    lemma_payload_depth(field(tree, "payload"@)->0, message.payload, (depth - 1) as nat);
    let members = tree->Object_0;
    assert forall|name: Seq<char>| members.contains_key(name) implies within_depth(
        #[trigger] members[name],
        (depth - 1) as nat,
    ) by {
        assert(members.dom().contains(name));
        assert(field(tree, name) == Some(members[name]));
    }
}

/// The document of a message.
pub fn to_json(message: &SyncMessage) -> (v: serde_json::Value)
    ensures
        encodes_message(json_of(v), message@),
{
    let mut members: Vec<(String, serde_json::Value)> = Vec::new();
    put(&mut members, "type", value_string(kind_str(message.message_type).to_owned()));
    put(&mut members, "timestamp", value_from_i64(message.timestamp));
    put(&mut members, "target_type", value_string(target_str(message.target_type).to_owned()));
    put(&mut members, "payload", encode_payload(&message.payload));
    let ghost ms = members@;
    proof {
        reveal_strlit("type");
        reveal_strlit("timestamp");
        reveal_strlit("target_type");
        reveal_strlit("payload");
        assert("type"@.len() == 4 && "timestamp"@.len() == 9);
        assert("target_type"@.len() == 11 && "payload"@.len() == 7);
        assert(ms[0].0@ == "type"@ && ms[1].0@ == "timestamp"@ && ms[2].0@ == "target_type"@
            && ms[3].0@ == "payload"@);
        assert(distinct_names(ms));
    }
    let v = value_object(members);
    proof {
        lemma_members_map(ms);
        assert(members_map(ms).dom() =~= set!["type"@, "timestamp"@, "target_type"@, "payload"@]);
    }
    v
}

/// The message of a document.
pub fn from_json(v: &serde_json::Value) -> (out: Result<SyncMessage, WireError>)
    ensures
        match out {
            Ok(m) => decoded_message(json_of(*v)) == Ok::<SyncMessageView, WireError>(m@)
                && m.well_formed(),
            Err(e) => decoded_message(json_of(*v)) == Err::<SyncMessageView, WireError>(e),
        },
{
    let message_type = match get_text(v, "type") {
        None => {
            return Err(WireError::Envelope);
        },
        Some(name) => match parse_kind(name.as_str()) {
            None => {
                return Err(WireError::UnknownKind);
            },
            Some(kind) => kind,
        },
    };
    let timestamp = match get_i64(v, "timestamp") {
        None => {
            return Err(WireError::Envelope);
        },
        Some(t) => t,
    };
    let target_type = match get_text(v, "target_type") {
        None => {
            return Err(WireError::Envelope);
        },
        Some(name) => match parse_target(name.as_str()) {
            None => {
                return Err(WireError::UnknownTarget);
            },
            Some(target) => target,
        },
    };
    let payload = match value_get(v, "payload") {
        None => {
            return Err(WireError::Envelope);
        },
        Some(p) => match decode_payload(message_type, p) {
            None => {
                return Err(WireError::Payload);
            },
            Some(payload) => payload,
        },
    };
    Ok(SyncMessage { message_type, timestamp, target_type, payload })
}

/// The text of a message: its document, printed. There is a text exactly
/// where the printer gives one for the document.
pub fn encode(message: &SyncMessage) -> (text: Option<String>)
    ensures
        encoded_as(message@, text_view(text)),
{
    let v = to_json(message);
    proof {
        lemma_message_depth(json_of(v), message@, MAX_PRINT_DEPTH as nat);
    }
    let text = value_to_text(&v);
    proof {
        assert(encodes_message(json_of(v), message@) && json_text(json_of(v)) == text_view(text));
    }
    text
}

/// The characters of a text that may be missing.
pub open spec fn text_view(text: Option<String>) -> Option<Seq<char>> {
    match text {
        Some(t) => Some(t@),
        None => None,
    }
}

/// Whether `text` is what printing a document of the message gives: the
/// text of a document that encodes the message, or `None` where the printer
/// gives none for that document.
pub open spec fn encoded_as(message: SyncMessageView, text: Option<Seq<char>>) -> bool {
    exists|tree: Json| encodes_message(tree, message) && #[trigger] json_text(tree) == text
}

/// The message of a text.
pub fn decode(text: &str) -> (out: Result<SyncMessage, WireError>)
    ensures
        match out {
            Ok(m) => decoded_text(text@) == Ok::<SyncMessageView, WireError>(m@) && m.well_formed(),
            Err(e) => decoded_text(text@) == Err::<SyncMessageView, WireError>(e),
        },
{
    match value_from_text(text) {
        Some(v) => from_json(&v),
        None => Err(WireError::Syntax),
    }
}

/// What a wire error says to the operator.
pub open spec fn wire_error_text(error: WireError) -> Seq<char> {
    match error {
        WireError::Syntax => "Message is not JSON"@,
        WireError::Envelope => "Message is not a protocol envelope"@,
        WireError::UnknownKind => "Unknown kind of message"@,
        WireError::UnknownTarget => "Unknown sync target"@,
        WireError::Payload => "Payload does not fit the kind of message"@,
    }
}

impl WireError {
    pub fn describe(&self) -> (text: String)
        ensures
            text@ == wire_error_text(*self),
    {
        match self {
            WireError::Syntax => "Message is not JSON".to_owned(),
            WireError::Envelope => "Message is not a protocol envelope".to_owned(),
            WireError::UnknownKind => "Unknown kind of message".to_owned(),
            WireError::UnknownTarget => "Unknown sync target".to_owned(),
            WireError::Payload => "Payload does not fit the kind of message".to_owned(),
        }
    }
}

} // verus!
