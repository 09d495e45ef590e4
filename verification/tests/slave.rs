use obs_sync::network::server::{Frame, MasterServer};
use obs_sync::obs::events::OBSEvent;
use obs_sync::sync::master::MasterSync;
use obs_sync::sync::protocol::{
    ImageUpdatePayload, Payload, SceneChangePayload, SceneInfo, SceneItemInfo, StateSyncPayload,
    SyncMessage, SyncMessageType, SyncTargetType, TransformData, TransformUpdatePayload,
};
use obs_sync::sync::slave::{
    failure_message, scratch_name, AlertSeverity, ApplySession, DesyncAlert, EngineCommand, Failure,
    SlaveSync, SyncError,
};
use obs_sync::sync::wire::decode;

fn number(value: f64) -> serde_json::Number {
    serde_json::Number::from_f64(value).unwrap()
}

fn unit_transform() -> TransformData {
    TransformData {
        position_x: number(1.0),
        position_y: number(2.0),
        rotation: number(3.0),
        scale_x: number(4.0),
        scale_y: number(5.0),
        width: number(6.0),
        height: number(7.0),
    }
}

fn message(kind: SyncMessageType, payload: Payload) -> SyncMessage {
    SyncMessage { message_type: kind, timestamp: 1, target_type: SyncTargetType::Program, payload }
}

fn scene_change(name: &str) -> SyncMessage {
    message(
        SyncMessageType::SceneChange,
        Payload::SceneChange(SceneChangePayload { scene_name: name.to_string() }),
    )
}

fn image_item(id: i64, source: &str, path: Option<&str>, data: Option<Vec<u8>>) -> SceneItemInfo {
    SceneItemInfo {
        item_id: id,
        source_name: source.to_string(),
        source_type: "image_source".to_string(),
        transform: unit_transform(),
        image_path: path.map(|p| p.to_string()),
        image_data: data,
    }
}

fn snapshot(preview: Option<&str>, scenes: Vec<SceneInfo>) -> SyncMessage {
    message(
        SyncMessageType::StateSync,
        Payload::StateSync(StateSyncPayload {
            current_program_scene: "Main".to_string(),
            current_preview_scene: preview.map(|p| p.to_string()),
            scenes,
        }),
    )
}

/// Carries a session out against an engine that takes every command, and
/// writes scratch files under `/scratch/obs-sync/`.
fn run_smoothly(mut session: ApplySession) -> (Vec<EngineCommand>, Vec<DesyncAlert>) {
    let mut commands = Vec::new();
    let mut alerts = Vec::new();
    while let Some(command) = session.next_command() {
        let outcome = match &command {
            EngineCommand::WriteImage { file_name, .. } => {
                Ok(format!("/scratch/obs-sync/{}", file_name))
            }
            _ => Ok(String::new()),
        };
        commands.push(command);
        if let Some(alert) = session.record(outcome) {
            alerts.push(alert);
        }
    }
    assert!(session.is_finished());
    (commands, alerts)
}

#[test]
fn scene_change_of_the_master_reaches_the_slave_engine_once() {
    // Master side: the event is translated and fanned out by the hub.
    let master = MasterSync::new();
    let mut hub = MasterServer::new(9001);
    hub.register("slave-1".to_string());
    let emitted = master
        .translate_event(&OBSEvent::SceneChanged { scene_name: "Intro".to_string() })
        .unwrap();
    assert_eq!(emitted.target_type, SyncTargetType::Program);
    hub.broadcast_message(&emitted).unwrap();
    // Transport: the frame taken from the queue is what the slave reads.
    let frame = hub.next_outbound(&"slave-1".to_string()).unwrap();
    assert_eq!(hub.next_outbound(&"slave-1".to_string()), None);
    let text = match frame {
        Frame::Text(text) => text,
        other => panic!("unexpected frame {:?}", other),
    };
    // Slave side.
    let received = decode(&text).unwrap();
    let session = SlaveSync::new().apply_sync_message(received, true).unwrap();
    let (commands, alerts) = run_smoothly(session);
    assert_eq!(commands, vec![EngineCommand::SetProgramScene { scene_name: "Intro".to_string() }]);
    assert_eq!(alerts.len(), 0);
}

#[test]
fn snapshot_image_is_written_and_the_input_repointed() {
    let message = snapshot(
        None,
        vec![SceneInfo {
            scene_name: "Main".to_string(),
            items: vec![image_item(1, "Logo", Some("foo.png"), Some(vec![1, 2, 3]))],
        }],
    );
    let mut session = SlaveSync::new().apply_sync_message(message, true).unwrap();
    assert_eq!(
        session.next_command(),
        Some(EngineCommand::SetProgramScene { scene_name: "Main".to_string() })
    );
    assert_eq!(session.record(Ok(String::new())), None);
    assert_eq!(
        session.next_command(),
        Some(EngineCommand::WriteImage { file_name: "foo.png".to_string(), image_data: vec![1, 2, 3] })
    );
    assert_eq!(session.record(Ok("/tmp/obs-sync/foo.png".to_string())), None);
    assert_eq!(
        session.next_command(),
        Some(EngineCommand::SetInputSettings {
            input_name: "Logo".to_string(),
            file: "/tmp/obs-sync/foo.png".to_string(),
        })
    );
    assert_eq!(session.record(Ok(String::new())), None);
    assert_eq!(session.next_command(), None);
    assert!(session.is_finished());
}

#[test]
fn failed_scene_change_raises_one_error_alert_and_processing_goes_on() {
    let slave = SlaveSync::new();
    let mut session = slave.apply_sync_message(scene_change("X"), true).unwrap();
    assert_eq!(
        session.next_command(),
        Some(EngineCommand::SetProgramScene { scene_name: "X".to_string() })
    );
    let alert = session.record(Err("no such scene".to_string())).unwrap();
    assert_eq!(alert.severity, AlertSeverity::Error);
    assert_eq!(alert.scene_name, "X");
    assert_eq!(alert.source_name, "");
    assert_eq!(alert.message, "Failed to change scene: no such scene");
    assert_eq!(session.next_command(), None);
    assert_eq!(session.record(Err("again".to_string())), None);
    assert!(session.is_finished());
    // The next message is applied as if nothing had happened.
    let next = slave.apply_sync_message(scene_change("Y"), true).unwrap();
    let (commands, alerts) = run_smoothly(next);
    assert_eq!(commands, vec![EngineCommand::SetProgramScene { scene_name: "Y".to_string() }]);
    assert_eq!(alerts.len(), 0);
}

#[test]
fn nothing_is_applied_without_an_engine() {
    let out = SlaveSync::new().apply_sync_message(scene_change("X"), false);
    assert_eq!(out, Err(SyncError::NotConnected));
    let out = SlaveSync::new().apply_sync_message(
        message(SyncMessageType::SourceUpdate, Payload::Empty),
        false,
    );
    assert_eq!(out, Err(SyncError::NotConnected));
}

#[test]
fn reserved_kind_is_refused() {
    let out = SlaveSync::new()
        .apply_sync_message(message(SyncMessageType::SourceUpdate, Payload::Empty), true);
    assert_eq!(out, Err(SyncError::Unsupported));
}

#[test]
fn payload_of_another_kind_is_a_protocol_violation() {
    let slave = SlaveSync::new();
    let wrong = vec![
        message(SyncMessageType::SceneChange, Payload::Empty),
        message(
            SyncMessageType::TransformUpdate,
            Payload::SceneChange(SceneChangePayload { scene_name: "a".to_string() }),
        ),
        message(SyncMessageType::ImageUpdate, Payload::InputNotice { input_name: "Logo".to_string() }),
        message(SyncMessageType::ImageUpdate, Payload::Empty),
        message(SyncMessageType::StateSync, Payload::Empty),
    ];
    for message in wrong {
        assert_eq!(slave.apply_sync_message(message, true), Err(SyncError::InvalidPayload));
    }
}

#[test]
fn heartbeat_and_transform_notice_have_nothing_to_do() {
    let slave = SlaveSync::new();
    let session = slave.apply_sync_message(SyncMessage::heartbeat(), true).unwrap();
    assert!(session.is_finished());
    assert_eq!(session.pending_len(), 0);
    let session = slave
        .apply_sync_message(
            message(
                SyncMessageType::TransformUpdate,
                Payload::TransformNotice { scene_name: "Main".to_string(), scene_item_id: 1 },
            ),
            true,
        )
        .unwrap();
    assert!(session.is_finished());
    let odd_heartbeat = message(
        SyncMessageType::Heartbeat,
        Payload::SceneChange(SceneChangePayload { scene_name: "a".to_string() }),
    );
    assert!(slave.apply_sync_message(odd_heartbeat, true).unwrap().is_finished());
}

#[test]
fn scene_change_sets_the_program_scene_whatever_its_target() {
    let mut preview = scene_change("Next");
    preview.target_type = SyncTargetType::Preview;
    let session = SlaveSync::new().apply_sync_message(preview, true).unwrap();
    let (commands, _) = run_smoothly(session);
    assert_eq!(commands, vec![EngineCommand::SetProgramScene { scene_name: "Next".to_string() }]);
}

#[test]
fn transform_update_is_applied_and_its_failure_is_a_warning() {
    let update = message(
        SyncMessageType::TransformUpdate,
        Payload::TransformUpdate(TransformUpdatePayload {
            scene_name: "Main".to_string(),
            scene_item_id: 5,
            transform: unit_transform(),
        }),
    );
    let mut session = SlaveSync::new().apply_sync_message(update, true).unwrap();
    assert_eq!(
        session.next_command(),
        Some(EngineCommand::SetSceneItemTransform {
            scene_name: "Main".to_string(),
            scene_item_id: 5,
            transform: unit_transform(),
        })
    );
    let alert = session.record(Err("rejected".to_string())).unwrap();
    assert_eq!(alert.severity, AlertSeverity::Warning);
    assert_eq!(alert.scene_name, "Main");
    assert_eq!(alert.source_name, "");
    assert_eq!(alert.message, "Failed to update transform: rejected");
    assert!(session.is_finished());
}

#[test]
fn image_update_writes_under_the_base_name_and_repoints() {
    let update = message(
        SyncMessageType::ImageUpdate,
        Payload::ImageUpdate(ImageUpdatePayload {
            scene_name: "Main".to_string(),
            source_name: "Logo".to_string(),
            file: "/home/master/images/logo.png".to_string(),
            image_data: vec![7, 7],
            width: None,
            height: None,
        }),
    );
    let session = SlaveSync::new().apply_sync_message(update, true).unwrap();
    let (commands, alerts) = run_smoothly(session);
    assert_eq!(
        commands,
        vec![
            EngineCommand::WriteImage { file_name: "logo.png".to_string(), image_data: vec![7, 7] },
            EngineCommand::SetInputSettings {
                input_name: "Logo".to_string(),
                file: "/scratch/obs-sync/logo.png".to_string(),
            },
        ]
    );
    assert_eq!(alerts.len(), 0);
}

#[test]
fn image_without_a_base_name_gets_the_default_name() {
    for file in ["", "..", "/"] {
        let update = message(
            SyncMessageType::ImageUpdate,
            Payload::ImageUpdate(ImageUpdatePayload {
                scene_name: "Main".to_string(),
                source_name: "Logo".to_string(),
                file: file.to_string(),
                image_data: vec![],
                width: None,
                height: None,
            }),
        );
        let mut session = SlaveSync::new().apply_sync_message(update, true).unwrap();
        assert_eq!(
            session.next_command(),
            Some(EngineCommand::WriteImage {
                file_name: "synced_image.png".to_string(),
                image_data: vec![],
            })
        );
    }
    assert_eq!(scratch_name(None), "synced_image.png");
    assert_eq!(scratch_name(Some("a.png".to_string())), "a.png");
}

#[test]
fn image_update_failure_at_either_step_is_one_warning() {
    let update = || {
        message(
            SyncMessageType::ImageUpdate,
            Payload::ImageUpdate(ImageUpdatePayload {
                scene_name: "Main".to_string(),
                source_name: "Logo".to_string(),
                file: "logo.png".to_string(),
                image_data: vec![1],
                width: None,
                height: None,
            }),
        )
    };
    let mut session = SlaveSync::new().apply_sync_message(update(), true).unwrap();
    session.next_command().unwrap();
    let alert = session.record(Err("disk full".to_string())).unwrap();
    assert_eq!(alert.severity, AlertSeverity::Warning);
    assert_eq!(alert.scene_name, "Main");
    assert_eq!(alert.source_name, "Logo");
    assert_eq!(alert.message, "Failed to update image: disk full");
    assert!(session.is_finished());

    let mut session = SlaveSync::new().apply_sync_message(update(), true).unwrap();
    session.next_command().unwrap();
    assert_eq!(session.record(Ok("/s/logo.png".to_string())), None);
    assert!(!session.is_finished());
    session.next_command().unwrap();
    let alert = session.record(Err("no such input".to_string())).unwrap();
    assert_eq!(alert.severity, AlertSeverity::Warning);
    assert_eq!(alert.source_name, "Logo");
    assert_eq!(alert.message, "Failed to update image: no such input");
    assert!(session.is_finished());
}

#[test]
fn snapshot_lays_out_program_preview_and_images_in_order() {
    let message = snapshot(
        Some("Next"),
        vec![
            SceneInfo {
                scene_name: "Main".to_string(),
                items: vec![
                    image_item(1, "Logo", Some("/a/logo.png"), Some(vec![1])),
                    image_item(2, "NoBytes", Some("/a/nobytes.png"), None),
                    image_item(3, "NoPath", None, Some(vec![3])),
                ],
            },
            SceneInfo { scene_name: "Empty".to_string(), items: vec![] },
            SceneInfo {
                scene_name: "Next".to_string(),
                items: vec![image_item(4, "Banner", Some("banner.jpg"), Some(vec![4, 4]))],
            },
        ],
    );
    let session = SlaveSync::new().apply_sync_message(message, true).unwrap();
    assert_eq!(session.pending_len(), 4);
    let (commands, alerts) = run_smoothly(session);
    assert_eq!(
        commands,
        vec![
            EngineCommand::SetProgramScene { scene_name: "Main".to_string() },
            EngineCommand::SetPreviewScene { scene_name: "Next".to_string() },
            EngineCommand::WriteImage { file_name: "logo.png".to_string(), image_data: vec![1] },
            EngineCommand::SetInputSettings {
                input_name: "Logo".to_string(),
                file: "/scratch/obs-sync/logo.png".to_string(),
            },
            EngineCommand::WriteImage { file_name: "banner.jpg".to_string(), image_data: vec![4, 4] },
            EngineCommand::SetInputSettings {
                input_name: "Banner".to_string(),
                file: "/scratch/obs-sync/banner.jpg".to_string(),
            },
        ]
    );
    assert_eq!(alerts.len(), 0);
}

#[test]
fn snapshot_ends_with_an_error_when_the_program_scene_cannot_be_set() {
    let message = snapshot(
        Some("Next"),
        vec![SceneInfo {
            scene_name: "Main".to_string(),
            items: vec![image_item(1, "Logo", Some("logo.png"), Some(vec![1]))],
        }],
    );
    let mut session = SlaveSync::new().apply_sync_message(message, true).unwrap();
    session.next_command().unwrap();
    let alert = session.record(Err("engine busy".to_string())).unwrap();
    assert_eq!(alert.severity, AlertSeverity::Error);
    assert_eq!(alert.scene_name, "");
    assert_eq!(alert.source_name, "");
    assert_eq!(alert.message, "Failed to apply initial state: engine busy");
    assert_eq!(session.next_command(), None);
    assert!(session.is_finished());
    assert_eq!(session.pending_len(), 0);
}

#[test]
fn snapshot_goes_on_after_a_preview_or_image_failure() {
    let message = snapshot(
        Some("Next"),
        vec![SceneInfo {
            scene_name: "Main".to_string(),
            items: vec![
                image_item(1, "Bad", Some("bad.png"), Some(vec![1])),
                image_item(2, "Good", Some("good.png"), Some(vec![2])),
            ],
        }],
    );
    let mut session = SlaveSync::new().apply_sync_message(message, true).unwrap();
    session.next_command().unwrap();
    assert_eq!(session.record(Ok(String::new())), None);
    assert_eq!(
        session.next_command(),
        Some(EngineCommand::SetPreviewScene { scene_name: "Next".to_string() })
    );
    assert_eq!(session.record(Err("not in studio mode".to_string())), None);
    assert_eq!(
        session.next_command(),
        Some(EngineCommand::WriteImage { file_name: "bad.png".to_string(), image_data: vec![1] })
    );
    let alert = session.record(Err("read-only file system".to_string())).unwrap();
    assert_eq!(alert.severity, AlertSeverity::Warning);
    assert_eq!(alert.scene_name, "Main");
    assert_eq!(alert.source_name, "Bad");
    assert_eq!(alert.message, "Failed to update image: read-only file system");
    assert_eq!(
        session.next_command(),
        Some(EngineCommand::WriteImage { file_name: "good.png".to_string(), image_data: vec![2] })
    );
    assert_eq!(session.record(Ok("/s/good.png".to_string())), None);
    assert_eq!(
        session.next_command(),
        Some(EngineCommand::SetInputSettings {
            input_name: "Good".to_string(),
            file: "/s/good.png".to_string(),
        })
    );
    assert_eq!(session.record(Ok(String::new())), None);
    assert!(session.is_finished());
}

#[test]
fn applying_a_snapshot_twice_issues_the_same_commands() {
    let build = || {
        snapshot(
            Some("Next"),
            vec![SceneInfo {
                scene_name: "Main".to_string(),
                items: vec![
                    image_item(1, "Logo", Some("/x/logo.png"), Some(vec![1, 2])),
                    image_item(2, "Logo2", Some("/y/logo.png"), Some(vec![3])),
                ],
            }],
        )
    };
    let slave = SlaveSync::new();
    let (first, _) = run_smoothly(slave.apply_sync_message(build(), true).unwrap());
    let (second, _) = run_smoothly(slave.apply_sync_message(build(), true).unwrap());
    assert_eq!(first, second);
    assert_eq!(first.len(), 6);
}

#[test]
fn session_hands_out_one_command_at_a_time() {
    let mut session = SlaveSync::new()
        .apply_sync_message(snapshot(Some("Next"), vec![]), true)
        .unwrap();
    assert_eq!(session.record(Ok(String::new())), None);
    assert_eq!(session.pending_len(), 2);
    assert!(session.next_command().is_some());
    assert_eq!(session.next_command(), None);
    assert_eq!(session.pending_len(), 1);
    assert!(!session.is_finished());
    assert_eq!(session.record(Ok(String::new())), None);
    assert!(session.next_command().is_some());
}

#[test]
fn alerts_carry_fresh_identifiers_and_the_current_time() {
    let first = DesyncAlert::new("s".to_string(), "i".to_string(), "m".to_string(), AlertSeverity::Warning);
    let second = DesyncAlert::new("s".to_string(), "i".to_string(), "m".to_string(), AlertSeverity::Warning);
    assert_eq!(first.id.len(), 36);
    assert_eq!(second.id.len(), 36);
    assert_ne!(first.id, second.id);
    assert_eq!(first.id.chars().filter(|c| *c == '-').count(), 4);
    assert!(first.timestamp > 1_577_836_800_000);
    assert_eq!(first.scene_name, "s");
    assert_eq!(first.source_name, "i");
    assert_eq!(first.message, "m");
    assert_eq!(first.severity, AlertSeverity::Warning);
}

#[test]
fn failure_messages_start_with_the_failed_operation() {
    assert_eq!(failure_message(Failure::ChangeScene, "x"), "Failed to change scene: x");
    assert_eq!(failure_message(Failure::UpdateTransform, "x"), "Failed to update transform: x");
    assert_eq!(failure_message(Failure::UpdateImage, ""), "Failed to update image: ");
    assert_eq!(failure_message(Failure::ApplyInitialState, "x"), "Failed to apply initial state: x");
}

#[test]
fn refusals_say_why() {
    assert_eq!(SyncError::NotConnected.describe(), "OBS client not connected");
    assert_eq!(SyncError::InvalidPayload.describe(), "Invalid payload for the kind of message");
    assert_eq!(SyncError::Unsupported.describe(), "Unsupported kind of message");
}
