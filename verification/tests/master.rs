use obs_sync::obs::events::{FeedItem, NativeEvent, OBSEvent, OBSEventHandler};
use obs_sync::sync::master::{
    EngineReport, FileProbe, ImageError, ImageReport, ItemReport, MasterSync, SceneReport,
    SkippedImage, SnapshotError,
};
use obs_sync::sync::protocol::{
    Payload, SceneChangePayload, SceneItemInfo, SyncMessageType, SyncTargetType, TransformData,
};

fn number(value: f64) -> serde_json::Number {
    serde_json::Number::from_f64(value).unwrap()
}

fn unit_transform() -> TransformData {
    TransformData {
        position_x: number(0.0),
        position_y: number(0.0),
        rotation: number(0.0),
        scale_x: number(1.0),
        scale_y: number(1.0),
        width: number(100.0),
        height: number(50.0),
    }
}

fn program_changed(name: &str) -> OBSEvent {
    OBSEvent::SceneChanged { scene_name: name.to_string() }
}

#[test]
fn new_master_syncs_program_and_sources() {
    let master = MasterSync::new();
    assert_eq!(master.active_targets(), vec![SyncTargetType::Program, SyncTargetType::Source]);
}

#[test]
fn program_scene_change_becomes_a_scene_change_for_program() {
    let master = MasterSync::new();
    let message = master.translate_event_at(&program_changed("Intro"), 77).unwrap();
    assert_eq!(message.message_type, SyncMessageType::SceneChange);
    assert_eq!(message.target_type, SyncTargetType::Program);
    assert_eq!(message.timestamp, 77);
    assert_eq!(
        message.payload,
        Payload::SceneChange(SceneChangePayload { scene_name: "Intro".to_string() })
    );
}

#[test]
fn preview_scene_change_is_dropped_by_default_and_emitted_when_active() {
    let mut master = MasterSync::new();
    let event = OBSEvent::CurrentPreviewSceneChanged { scene_name: "Next".to_string() };
    assert_eq!(master.translate_event(&event), None);
    master.set_active_targets(vec![SyncTargetType::Preview]);
    let message = master.translate_event(&event).unwrap();
    assert_eq!(message.message_type, SyncMessageType::SceneChange);
    assert_eq!(message.target_type, SyncTargetType::Preview);
    assert_eq!(
        message.payload,
        Payload::SceneChange(SceneChangePayload { scene_name: "Next".to_string() })
    );
}

#[test]
fn preview_only_filter_emits_nothing_for_program_scene_change() {
    let mut master = MasterSync::new();
    master.set_active_targets(vec![SyncTargetType::Preview]);
    assert_eq!(master.translate_event(&program_changed("Intro")), None);
    assert_eq!(master.start_monitoring(&vec![program_changed("Intro")]).len(), 0);
}

#[test]
fn transform_and_input_events_are_announced_without_values() {
    let master = MasterSync::new();
    let moved = OBSEvent::SceneItemTransformChanged { scene_name: "Main".to_string(), scene_item_id: 4 };
    let message = master.translate_event_at(&moved, 1).unwrap();
    assert_eq!(message.message_type, SyncMessageType::TransformUpdate);
    assert_eq!(message.target_type, SyncTargetType::Source);
    assert_eq!(
        message.payload,
        Payload::TransformNotice { scene_name: "Main".to_string(), scene_item_id: 4 }
    );
    let changed = OBSEvent::InputSettingsChanged { input_name: "Logo".to_string() };
    let message = master.translate_event_at(&changed, 2).unwrap();
    assert_eq!(message.message_type, SyncMessageType::ImageUpdate);
    assert_eq!(message.target_type, SyncTargetType::Source);
    assert_eq!(message.payload, Payload::InputNotice { input_name: "Logo".to_string() });
}

#[test]
fn source_targets_are_filtered_like_the_others() {
    let mut master = MasterSync::new();
    master.set_active_targets(vec![SyncTargetType::Program]);
    let moved = OBSEvent::SceneItemTransformChanged { scene_name: "Main".to_string(), scene_item_id: 4 };
    let changed = OBSEvent::InputSettingsChanged { input_name: "Logo".to_string() };
    assert_eq!(master.translate_event(&moved), None);
    assert_eq!(master.translate_event(&changed), None);
    assert!(master.translate_event(&program_changed("Intro")).is_some());
}

#[test]
fn created_and_destroyed_sources_are_never_translated() {
    let mut master = MasterSync::new();
    master.set_active_targets(vec![
        SyncTargetType::Program,
        SyncTargetType::Preview,
        SyncTargetType::Source,
    ]);
    assert_eq!(master.translate_event(&OBSEvent::SourceCreated { source_name: "a".to_string() }), None);
    assert_eq!(master.translate_event(&OBSEvent::SourceDestroyed { source_name: "a".to_string() }), None);
}

#[test]
fn empty_filter_emits_nothing() {
    let mut master = MasterSync::new();
    master.set_active_targets(vec![]);
    assert_eq!(master.active_targets(), vec![]);
    assert_eq!(master.translate_event(&program_changed("Intro")), None);
}

#[test]
fn monitoring_keeps_event_order_and_drops_filtered_events() {
    let master = MasterSync::new();
    let events = vec![
        program_changed("One"),
        OBSEvent::CurrentPreviewSceneChanged { scene_name: "Hidden".to_string() },
        OBSEvent::SourceCreated { source_name: "x".to_string() },
        OBSEvent::InputSettingsChanged { input_name: "Logo".to_string() },
        program_changed("Two"),
    ];
    let messages = master.start_monitoring(&events);
    assert_eq!(messages.len(), 3);
    assert_eq!(
        messages[0].payload,
        Payload::SceneChange(SceneChangePayload { scene_name: "One".to_string() })
    );
    assert_eq!(messages[1].payload, Payload::InputNotice { input_name: "Logo".to_string() });
    assert_eq!(
        messages[2].payload,
        Payload::SceneChange(SceneChangePayload { scene_name: "Two".to_string() })
    );
}

#[test]
fn replacing_the_filter_affects_only_later_events() {
    let mut master = MasterSync::new();
    let before = master.start_monitoring(&vec![program_changed("One")]);
    master.set_active_targets(vec![SyncTargetType::Source]);
    let after = master.start_monitoring(&vec![program_changed("Two")]);
    assert_eq!(before.len(), 1);
    assert_eq!(
        before[0].payload,
        Payload::SceneChange(SceneChangePayload { scene_name: "One".to_string() })
    );
    assert_eq!(after.len(), 0);
}

#[test]
fn master_heartbeat_is_a_heartbeat() {
    let message = MasterSync::new().send_heartbeat();
    assert_eq!(message.message_type, SyncMessageType::Heartbeat);
    assert_eq!(message.target_type, SyncTargetType::Program);
    assert_eq!(message.payload, Payload::Empty);
}

#[test]
fn reading_a_missing_image_reports_not_found_with_the_path() {
    let out = MasterSync::read_image_file(ImageReport {
        path: "/nowhere/logo.png".to_string(),
        probe: FileProbe::Missing,
    });
    assert_eq!(out, Err(ImageError::NotFound { path: "/nowhere/logo.png".to_string() }));
}

#[test]
fn reading_an_image_gives_its_bytes_or_the_reason() {
    let out = MasterSync::read_image_file(ImageReport {
        path: "logo.png".to_string(),
        probe: FileProbe::Contents(vec![9, 8, 7]),
    });
    assert_eq!(out, Ok(vec![9, 8, 7]));
    let out = MasterSync::read_image_file(ImageReport {
        path: "logo.png".to_string(),
        probe: FileProbe::Unreadable("permission denied".to_string()),
    });
    assert_eq!(
        out,
        Err(ImageError::Unreadable {
            path: "logo.png".to_string(),
            reason: "permission denied".to_string(),
        })
    );
}

#[test]
fn no_snapshot_without_an_engine_or_its_program_scene() {
    let master = MasterSync::new();
    assert_eq!(master.send_initial_state(None), Err(SnapshotError::NotConnected));
    let out = master.send_initial_state(Some(EngineReport {
        program_scene: Err("timed out".to_string()),
        preview_scene: None,
        scenes: Ok(vec![]),
    }));
    assert_eq!(out, Err(SnapshotError::Engine { reason: "timed out".to_string() }));
    let out = master.send_initial_state(Some(EngineReport {
        program_scene: Ok("Main".to_string()),
        preview_scene: None,
        scenes: Err("list failed".to_string()),
    }));
    assert_eq!(out, Err(SnapshotError::Engine { reason: "list failed".to_string() }));
}

#[test]
fn snapshot_embeds_images_and_skips_the_unreadable_ones() {
    let master = MasterSync::new();
    let report = EngineReport {
        program_scene: Ok("Main".to_string()),
        preview_scene: Some("Next".to_string()),
        scenes: Ok(vec![
            SceneReport {
                scene_name: "Main".to_string(),
                items: vec![
                    ItemReport {
                        item_id: 1,
                        source_name: "Logo".to_string(),
                        source_type: "image_source".to_string(),
                        transform: unit_transform(),
                        image: Some(ImageReport {
                            path: "/img/logo.png".to_string(),
                            probe: FileProbe::Contents(vec![1, 2, 3]),
                        }),
                    },
                    ItemReport {
                        item_id: 2,
                        source_name: "Camera".to_string(),
                        source_type: "dshow_input".to_string(),
                        transform: unit_transform(),
                        image: None,
                    },
                ],
            },
            SceneReport {
                scene_name: "Next".to_string(),
                items: vec![ItemReport {
                    item_id: 3,
                    source_name: "Gone".to_string(),
                    source_type: "image_source".to_string(),
                    transform: unit_transform(),
                    image: Some(ImageReport {
                        path: "/img/gone.png".to_string(),
                        probe: FileProbe::Missing,
                    }),
                }],
            },
        ]),
    };
    let snapshot = master.send_initial_state(Some(report)).unwrap();
    assert_eq!(snapshot.message.message_type, SyncMessageType::StateSync);
    assert_eq!(snapshot.message.target_type, SyncTargetType::Program);
    let state = match snapshot.message.payload {
        Payload::StateSync(state) => state,
        other => panic!("unexpected payload {:?}", other),
    };
    assert_eq!(state.current_program_scene, "Main");
    assert_eq!(state.current_preview_scene, Some("Next".to_string()));
    assert_eq!(state.scenes.len(), 2);
    assert_eq!(state.scenes[0].scene_name, "Main");
    assert_eq!(
        state.scenes[0].items,
        vec![
            SceneItemInfo {
                item_id: 1,
                source_name: "Logo".to_string(),
                source_type: "image_source".to_string(),
                transform: unit_transform(),
                image_path: Some("/img/logo.png".to_string()),
                image_data: Some(vec![1, 2, 3]),
            },
            SceneItemInfo {
                item_id: 2,
                source_name: "Camera".to_string(),
                source_type: "dshow_input".to_string(),
                transform: unit_transform(),
                image_path: None,
                image_data: None,
            },
        ]
    );
    assert_eq!(state.scenes[1].items[0].image_path, Some("/img/gone.png".to_string()));
    assert_eq!(state.scenes[1].items[0].image_data, None);
    assert_eq!(
        snapshot.skipped,
        vec![SkippedImage {
            scene_name: "Next".to_string(),
            source_name: "Gone".to_string(),
            error: ImageError::NotFound { path: "/img/gone.png".to_string() },
        }]
    );
}

#[test]
fn native_events_map_to_their_counterparts() {
    assert_eq!(
        OBSEventHandler::map_event(&NativeEvent::CurrentProgramSceneChanged {
            scene_name: "a".to_string()
        }),
        Some(OBSEvent::SceneChanged { scene_name: "a".to_string() })
    );
    assert_eq!(
        OBSEventHandler::map_event(&NativeEvent::SceneItemTransformChanged {
            scene_name: "a".to_string(),
            scene_item_id: 9
        }),
        Some(OBSEvent::SceneItemTransformChanged { scene_name: "a".to_string(), scene_item_id: 9 })
    );
    assert_eq!(
        OBSEventHandler::map_event(&NativeEvent::InputCreated { input_name: "i".to_string() }),
        Some(OBSEvent::SourceCreated { source_name: "i".to_string() })
    );
    assert_eq!(
        OBSEventHandler::map_event(&NativeEvent::InputRemoved { input_name: "i".to_string() }),
        Some(OBSEvent::SourceDestroyed { source_name: "i".to_string() })
    );
    assert_eq!(
        OBSEventHandler::map_event(&NativeEvent::InputSettingsChanged { input_name: "i".to_string() }),
        Some(OBSEvent::InputSettingsChanged { input_name: "i".to_string() })
    );
    assert_eq!(
        OBSEventHandler::map_event(&NativeEvent::CurrentPreviewSceneChanged {
            scene_name: "p".to_string()
        }),
        Some(OBSEvent::CurrentPreviewSceneChanged { scene_name: "p".to_string() })
    );
    assert_eq!(OBSEventHandler::map_event(&NativeEvent::Other), None);
}

#[test]
fn listener_forwards_in_order_and_stops_at_the_first_failure() {
    let mut handler = OBSEventHandler::new();
    assert!(!handler.stopped());
    let feed = vec![
        FeedItem::Event(NativeEvent::CurrentProgramSceneChanged { scene_name: "a".to_string() }),
        FeedItem::Event(NativeEvent::Other),
        FeedItem::Event(NativeEvent::InputRemoved { input_name: "i".to_string() }),
        FeedItem::Failed("connection reset".to_string()),
        FeedItem::Event(NativeEvent::CurrentProgramSceneChanged { scene_name: "late".to_string() }),
    ];
    let out = handler.start_listening(&feed);
    assert_eq!(
        out,
        vec![
            OBSEvent::SceneChanged { scene_name: "a".to_string() },
            OBSEvent::SourceDestroyed { source_name: "i".to_string() },
        ]
    );
    assert!(handler.stopped());
    let later = handler.start_listening(&vec![FeedItem::Event(
        NativeEvent::CurrentProgramSceneChanged { scene_name: "b".to_string() },
    )]);
    assert_eq!(later, vec![]);
    assert!(handler.stopped());
}

#[test]
fn listener_keeps_going_over_several_stretches() {
    let mut handler = OBSEventHandler::new();
    let first = handler.start_listening(&vec![FeedItem::Event(
        NativeEvent::CurrentProgramSceneChanged { scene_name: "a".to_string() },
    )]);
    let second = handler.start_listening(&vec![]);
    let third = handler.start_listening(&vec![FeedItem::Event(
        NativeEvent::CurrentPreviewSceneChanged { scene_name: "b".to_string() },
    )]);
    assert_eq!(first.len(), 1);
    assert_eq!(second.len(), 0);
    assert_eq!(third, vec![OBSEvent::CurrentPreviewSceneChanged { scene_name: "b".to_string() }]);
    assert!(!handler.stopped());
}

#[test]
fn image_and_snapshot_errors_say_why() {
    assert_eq!(
        ImageError::NotFound { path: "/a/b.png".to_string() }.describe(),
        "Image file not found: /a/b.png"
    );
    assert_eq!(
        ImageError::Unreadable { path: "/a/b.png".to_string(), reason: "denied".to_string() }
            .describe(),
        "Image file not readable: /a/b.png: denied"
    );
    assert_eq!(SnapshotError::NotConnected.describe(), "OBS not connected");
    assert_eq!(SnapshotError::Engine { reason: "timed out".to_string() }.describe(), "timed out");
}

#[test]
fn default_listener_is_a_new_listener() {
    assert_eq!(OBSEventHandler::default(), OBSEventHandler::new());
    assert!(!OBSEventHandler::default().stopped());
}
