//! The engine's control calls, each reduced to the part that decides
//! something: what is asked of the engine, and what its answer is taken to
//! mean. Making the call is the caller's business.

use vstd::prelude::*;
use crate::json::{
    distinct_names,
    field,
    integer,
    json_of,
    lemma_members_map,
    members_map,
    put,
    value_bool,
    value_from_i64,
    value_object,
    value_string,
    Json,
};
use crate::sync::protocol::TransformData;

verus! {

/// Placement of a scene item as the engine takes it.
#[derive(Debug, Clone, PartialEq, Eq)]
pub struct SceneItemTransform {
    pub position_x: serde_json::Number,
    pub position_y: serde_json::Number,
    pub rotation: serde_json::Number,
    pub scale_x: serde_json::Number,
    pub scale_y: serde_json::Number,
    pub width: serde_json::Number,
    pub height: serde_json::Number,
}

impl SceneItemTransform {
    /// The transform of a protocol message, value for value.
    pub fn from_data(data: &TransformData) -> (transform: Self)
        ensures
            transform.position_x == data.position_x,
            transform.position_y == data.position_y,
            transform.rotation == data.rotation,
            transform.scale_x == data.scale_x,
            transform.scale_y == data.scale_y,
            transform.width == data.width,
            transform.height == data.height,
    {
        SceneItemTransform {
            position_x: data.position_x.clone(),
            position_y: data.position_y.clone(),
            rotation: data.rotation.clone(),
            scale_x: data.scale_x.clone(),
            scale_y: data.scale_y.clone(),
            width: data.width.clone(),
            height: data.height.clone(),
        }
    }
}

/// A request to place a scene item. Position, rotation and scale are set;
/// the item's size follows from its source and its scale and is not sent.
#[derive(Debug, Clone, PartialEq, Eq)]
pub struct TransformRequest {
    pub scene_name: String,
    pub scene_item_id: i64,
    pub position_x: Option<serde_json::Number>,
    pub position_y: Option<serde_json::Number>,
    pub rotation: Option<serde_json::Number>,
    pub scale_x: Option<serde_json::Number>,
    pub scale_y: Option<serde_json::Number>,
}

/// A request to change the settings of an input.
#[derive(Debug, PartialEq, Eq)]
pub struct InputSettingsRequest {
    pub input_name: String,
    pub settings: serde_json::Value,
    /// Whether the settings are laid over the input's current ones, rather
    /// than over its defaults.
    pub overlay: Option<bool>,
}

/// A scene item as the engine lists it.
#[derive(Debug, Clone, PartialEq, Eq)]
pub struct SceneItemEntry {
    pub item_id: i64,
    pub source_name: String,
    pub source_type: String,
    pub enabled: bool,
}

/// Whether a tree describes a listed scene item: an object of its
/// identifier, the name and the type of its source, and whether it is
/// enabled.
pub open spec fn describes_entry(tree: Json, entry: SceneItemEntry) -> bool {
    &&& tree matches Json::Object(members) && members.dom() == set![
        "scene_item_id"@,
        "source_name"@,
        "source_type"@,
        "enabled"@,
    ]
    &&& field(tree, "scene_item_id"@) matches Some(id) && integer(id) == Some(entry.item_id)
    &&& field(tree, "source_name"@) == Some(Json::String(entry.source_name@))
    &&& field(tree, "source_type"@) == Some(Json::String(entry.source_type@))
    &&& field(tree, "enabled"@) == Some(Json::Bool(entry.enabled))
}

/// The text that stands for the failure of a call, whatever the engine gave
/// as its reason.
pub open spec fn failure_text(call: EngineCall) -> Seq<char> {
    match call {
        EngineCall::GetCurrentProgramScene => "Failed to get current program scene"@,
        EngineCall::SetCurrentProgramScene => "Failed to set current program scene"@,
        EngineCall::SetSceneItemTransform => "Failed to set scene item transform"@,
        EngineCall::GetSceneItemList => "Failed to get scene item list"@,
        EngineCall::SetInputSettings => "Failed to set input settings"@,
    }
}

/// The control calls whose failure is reported.
#[derive(Debug, Clone, Copy, PartialEq, Eq, Hash, Structural)]
pub enum EngineCall {
    GetCurrentProgramScene,
    SetCurrentProgramScene,
    SetSceneItemTransform,
    GetSceneItemList,
    SetInputSettings,
}

fn failure_of(call: EngineCall) -> (text: String)
    ensures
        text@ == failure_text(call),
{
    match call {
        EngineCall::GetCurrentProgramScene => "Failed to get current program scene".to_owned(),
        EngineCall::SetCurrentProgramScene => "Failed to set current program scene".to_owned(),
        EngineCall::SetSceneItemTransform => "Failed to set scene item transform".to_owned(),
        EngineCall::GetSceneItemList => "Failed to get scene item list".to_owned(),
        EngineCall::SetInputSettings => "Failed to set input settings".to_owned(),
    }
}

/// The engine's control surface.
#[derive(Debug, Clone, Copy, PartialEq, Eq, Structural)]
pub struct OBSCommands;

impl OBSCommands {
    /// The program scene that the engine named, or the failure of the query.
    pub fn get_current_program_scene(reply: Result<String, String>) -> (out: Result<String, String>)
        ensures
            match reply {
                Ok(scene) => out == Ok::<String, String>(scene),
                Err(_) => out matches Err(text) && text@ == failure_text(
                    EngineCall::GetCurrentProgramScene,
                ),
            },
    {
        match reply {
            Ok(scene) => Ok(scene),
            Err(_) => Err(failure_of(EngineCall::GetCurrentProgramScene)),
        }
    }

    /// The preview scene that the engine named. An engine that names none,
    /// for whatever reason, has none: this is not a failure.
    pub fn get_current_preview_scene(reply: Result<String, String>) -> (out: Option<String>)
        ensures
            out == match reply {
                Ok(scene) => Some(scene),
                Err(_) => None,
            },
    {
        match reply {
            Ok(scene) => Some(scene),
            Err(_) => None,
        }
    }

    /// What became of setting the program scene.
    pub fn set_current_program_scene(reply: Result<(), String>) -> (out: Result<(), String>)
        ensures
            match reply {
                Ok(_) => out is Ok,
                Err(_) => out matches Err(text) && text@ == failure_text(
                    EngineCall::SetCurrentProgramScene,
                ),
            },
    {
        match reply {
            Ok(_) => Ok(()),
            Err(_) => Err(failure_of(EngineCall::SetCurrentProgramScene)),
        }
    }

    /// The request that places a scene item.
    pub fn set_scene_item_transform(
        scene_name: String,
        scene_item_id: i64,
        transform: SceneItemTransform,
    ) -> (request: TransformRequest)
        ensures
            request == (TransformRequest {
                scene_name,
                scene_item_id,
                position_x: Some(transform.position_x),
                position_y: Some(transform.position_y),
                rotation: Some(transform.rotation),
                scale_x: Some(transform.scale_x),
                scale_y: Some(transform.scale_y),
            }),
    {
        TransformRequest {
            scene_name,
            scene_item_id,
            position_x: Some(transform.position_x),
            position_y: Some(transform.position_y),
            rotation: Some(transform.rotation),
            scale_x: Some(transform.scale_x),
            scale_y: Some(transform.scale_y),
        }
    }

    /// The items of a scene, each as an object of its identifier, source
    /// name, source type and enabled flag, in the engine's order.
    pub fn get_scene_item_list(items: &Vec<SceneItemEntry>) -> (out: Vec<serde_json::Value>)
        ensures
            out@.len() == items@.len(),
            forall|k: int|
                0 <= k < items@.len() ==> describes_entry(json_of(#[trigger] out@[k]), items@[k]),
    {
        let mut out: Vec<serde_json::Value> = Vec::new();
        let mut i: usize = 0;
        while i < items.len()
            invariant
                i <= items@.len(),
                out@.len() == i,
                forall|k: int| 0 <= k < i ==> describes_entry(json_of(#[trigger] out@[k]), items@[k]),
            decreases items@.len() - i,
        {
            let entry = &items[i];
            let mut members: Vec<(String, serde_json::Value)> = Vec::new();
            put(&mut members, "scene_item_id", value_from_i64(entry.item_id));
            put(&mut members, "source_name", value_string(entry.source_name.clone()));
            put(&mut members, "source_type", value_string(entry.source_type.clone()));
            put(&mut members, "enabled", value_bool(entry.enabled));
            let ghost ms = members@;
            proof {
                reveal_strlit("scene_item_id");
                reveal_strlit("source_name");
                reveal_strlit("source_type");
                reveal_strlit("enabled");
                assert("scene_item_id"@.len() == 13 && "source_name"@.len() == 11);
                assert("source_type"@.len() == 11 && "enabled"@.len() == 7);
                assert("source_name"@[7] != "source_type"@[7]);
                assert(ms[0].0@ == "scene_item_id"@ && ms[1].0@ == "source_name"@);
                assert(ms[2].0@ == "source_type"@ && ms[3].0@ == "enabled"@);
                assert(distinct_names(ms));
            }
            let described = value_object(members);
            proof {
                lemma_members_map(ms);
                assert(members_map(ms).dom() =~= set![
                    "scene_item_id"@,
                    "source_name"@,
                    "source_type"@,
                    "enabled"@,
                ]);
            }
            out.push(described);
            i = i + 1;
        }
        out
    }

    /// The settings that point an image input at a file: an object with the
    /// path under `file`.
    pub fn file_settings(file: &str) -> (settings: serde_json::Value)
        ensures
            json_of(settings) == Json::Object(map!["file"@ => Json::String(file@)]),
    {
        let mut members: Vec<(String, serde_json::Value)> = Vec::new();
        put(&mut members, "file", value_string(file.to_owned()));
        let ghost ms = members@;
        let settings = value_object(members);
        proof {
            lemma_members_map(ms);
            assert(ms[0].0@ == "file"@);
            assert(members_map(ms) =~= map!["file"@ => Json::String(file@)]);
        }
        settings
    }

    /// The request that changes an input's settings. The settings are laid
    /// over the current ones: what they do not name stays as it is.
    pub fn set_input_settings(input_name: String, settings: serde_json::Value) -> (request:
        InputSettingsRequest)
        ensures
            request == (InputSettingsRequest { input_name, settings, overlay: Some(true) }),
    {
        InputSettingsRequest { input_name, settings, overlay: Some(true) }
    }
}

} // verus!
