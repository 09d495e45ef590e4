use obs_sync::commands::{
    get_app_mode, greet, set_app_mode, start_master_server, AppMode, AppState, NetworkConfig,
};
use obs_sync::obs::commands::{
    InputSettingsRequest, OBSCommands, SceneItemEntry, SceneItemTransform, TransformRequest,
};
use obs_sync::sync::protocol::TransformData;

fn number(value: f64) -> serde_json::Number {
    serde_json::Number::from_f64(value).unwrap()
}

#[test]
fn app_state_starts_without_a_mode_on_the_default_port() {
    let state = AppState::new();
    assert_eq!(get_app_mode(&state), None);
    assert_eq!(state.network_port(), 8080);
}

#[test]
fn app_mode_and_port_are_set_independently() {
    let mut state = AppState::new();
    set_app_mode(&mut state, AppMode::Master);
    assert_eq!(get_app_mode(&state), Some(AppMode::Master));
    assert_eq!(state.network_port(), 8080);
    start_master_server(&mut state, 9001);
    assert_eq!(state.network_port(), 9001);
    assert_eq!(get_app_mode(&state), Some(AppMode::Master));
    set_app_mode(&mut state, AppMode::Slave);
    assert_eq!(get_app_mode(&state), Some(AppMode::Slave));
    assert_eq!(state.network_port(), 9001);
}

#[test]
fn network_config_holds_host_and_port() {
    let config = NetworkConfig { host: "192.168.0.2".to_string(), port: 9001 };
    assert_eq!(config.clone(), config);
    assert_eq!(config.port, 9001);
}

#[test]
fn greeting_names_the_guest() {
    assert_eq!(greet("Ada"), "Hello, Ada! You've been greeted from Rust!");
    assert_eq!(greet(""), "Hello, ! You've been greeted from Rust!");
}

#[test]
fn missing_preview_scene_is_not_a_failure() {
    assert_eq!(
        OBSCommands::get_current_preview_scene(Ok("Next".to_string())),
        Some("Next".to_string())
    );
    assert_eq!(OBSCommands::get_current_preview_scene(Err("not in studio mode".to_string())), None);
}

#[test]
fn failed_scene_calls_are_reported_by_what_was_attempted() {
    assert_eq!(
        OBSCommands::get_current_program_scene(Ok("Main".to_string())),
        Ok("Main".to_string())
    );
    assert_eq!(
        OBSCommands::get_current_program_scene(Err("socket closed".to_string())),
        Err("Failed to get current program scene".to_string())
    );
    assert_eq!(OBSCommands::set_current_program_scene(Ok(())), Ok(()));
    assert_eq!(
        OBSCommands::set_current_program_scene(Err("no such scene".to_string())),
        Err("Failed to set current program scene".to_string())
    );
}

#[test]
fn transform_request_sets_position_rotation_and_scale() {
    let data = TransformData {
        position_x: number(1.0),
        position_y: number(2.0),
        rotation: number(3.0),
        scale_x: number(4.0),
        scale_y: number(5.0),
        width: number(6.0),
        height: number(7.0),
    };
    let transform = SceneItemTransform::from_data(&data);
    assert_eq!(transform.width, number(6.0));
    assert_eq!(transform.height, number(7.0));
    let request = OBSCommands::set_scene_item_transform("Main".to_string(), 12, transform);
    assert_eq!(
        request,
        TransformRequest {
            scene_name: "Main".to_string(),
            scene_item_id: 12,
            position_x: Some(number(1.0)),
            position_y: Some(number(2.0)),
            rotation: Some(number(3.0)),
            scale_x: Some(number(4.0)),
            scale_y: Some(number(5.0)),
        }
    );
}

#[test]
fn scene_items_are_listed_as_objects() {
    let items = vec![
        SceneItemEntry {
            item_id: 3,
            source_name: "Logo".to_string(),
            source_type: "input".to_string(),
            enabled: true,
        },
        SceneItemEntry {
            item_id: 4,
            source_name: "Nested".to_string(),
            source_type: "scene".to_string(),
            enabled: false,
        },
    ];
    let listed = OBSCommands::get_scene_item_list(&items);
    assert_eq!(listed.len(), 2);
    assert_eq!(
        serde_json::to_string(&listed[0]).unwrap(),
        "{\"enabled\":true,\"scene_item_id\":3,\"source_name\":\"Logo\",\"source_type\":\"input\"}"
    );
    assert_eq!(listed[1]["scene_item_id"].as_i64(), Some(4));
    assert_eq!(listed[1]["source_name"].as_str(), Some("Nested"));
    assert_eq!(listed[1]["source_type"].as_str(), Some("scene"));
    assert_eq!(listed[1]["enabled"], serde_json::Value::Bool(false));
    assert_eq!(listed[1].as_object().unwrap().len(), 4);
    assert_eq!(OBSCommands::get_scene_item_list(&vec![]).len(), 0);
}

#[test]
fn input_settings_point_at_the_file_and_overlay_the_current_ones() {
    let settings = OBSCommands::file_settings("/tmp/obs-sync/foo.png");
    assert_eq!(
        serde_json::to_string(&settings).unwrap(),
        "{\"file\":\"/tmp/obs-sync/foo.png\"}"
    );
    let request = OBSCommands::set_input_settings("Logo".to_string(), settings);
    let mut expected = serde_json::Map::new();
    expected.insert(
        "file".to_string(),
        serde_json::Value::String("/tmp/obs-sync/foo.png".to_string()),
    );
    assert_eq!(
        request,
        InputSettingsRequest {
            input_name: "Logo".to_string(),
            settings: serde_json::Value::Object(expected),
            overlay: Some(true),
        }
    );
}
