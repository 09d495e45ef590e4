use obs_sync::sync::protocol::{
    ImageUpdatePayload, Payload, SceneChangePayload, SceneInfo, SceneItemInfo, StateSyncPayload,
    SyncMessage, SyncMessageType, SyncTargetType, TransformData, TransformUpdatePayload,
};
use obs_sync::sync::wire::{
    decode, decode_payload, deserialize, encode, encode_payload, from_json, kind_str, parse_kind,
    parse_target, serialize, target_str, to_json, WireError,
};

/// Writes JSON with single quotes for double ones.
fn q(text: &str) -> String {
    text.replace('\'', "\"")
}

fn document(text: &str) -> serde_json::Value {
    serde_json::from_str(text).unwrap()
}

fn number(value: f64) -> serde_json::Number {
    serde_json::Number::from_f64(value).unwrap()
}

fn sample_transform() -> TransformData {
    TransformData {
        position_x: number(10.5),
        position_y: number(-20.25),
        rotation: number(90.0),
        scale_x: number(1.0),
        scale_y: number(0.5),
        width: number(1920.0),
        height: number(1080.0),
    }
}

fn message(kind: SyncMessageType, target: SyncTargetType, payload: Payload) -> SyncMessage {
    SyncMessage { message_type: kind, timestamp: 1_700_000_000_123, target_type: target, payload }
}

fn round_trip(original: SyncMessage) {
    let text = encode(&original).unwrap();
    let back = decode(&text).unwrap();
    assert_eq!(back, original);
}

#[test]
fn round_trip_scene_change() {
    round_trip(message(
        SyncMessageType::SceneChange,
        SyncTargetType::Program,
        Payload::SceneChange(SceneChangePayload { scene_name: "Intro".to_string() }),
    ));
}

#[test]
fn round_trip_heartbeat_and_reserved_kind() {
    round_trip(message(SyncMessageType::Heartbeat, SyncTargetType::Program, Payload::Empty));
    round_trip(message(SyncMessageType::SourceUpdate, SyncTargetType::Source, Payload::Empty));
}

#[test]
fn round_trip_transform_notice_and_update() {
    round_trip(message(
        SyncMessageType::TransformUpdate,
        SyncTargetType::Source,
        Payload::TransformNotice { scene_name: "Main".to_string(), scene_item_id: -7 },
    ));
    round_trip(message(
        SyncMessageType::TransformUpdate,
        SyncTargetType::Source,
        Payload::TransformUpdate(TransformUpdatePayload {
            scene_name: "Main".to_string(),
            scene_item_id: i64::MAX,
            transform: sample_transform(),
        }),
    ));
}

#[test]
fn round_trip_image_update_with_binary_data() {
    let all_bytes: Vec<u8> = (0..=255u8).collect();
    round_trip(message(
        SyncMessageType::ImageUpdate,
        SyncTargetType::Source,
        Payload::ImageUpdate(ImageUpdatePayload {
            scene_name: "Main".to_string(),
            source_name: "Logo".to_string(),
            file: "C:/images/logo \"final\".png".to_string(),
            image_data: all_bytes,
            width: Some(number(640.0)),
            height: None,
        }),
    ));
    round_trip(message(
        SyncMessageType::ImageUpdate,
        SyncTargetType::Source,
        Payload::InputNotice { input_name: "Logo".to_string() },
    ));
}

#[test]
fn round_trip_state_sync_with_and_without_image_bytes() {
    let with_image = SceneItemInfo {
        item_id: 1,
        source_name: "Logo".to_string(),
        source_type: "image_source".to_string(),
        transform: sample_transform(),
        image_path: Some("foo.png".to_string()),
        image_data: Some(vec![1, 2, 3]),
    };
    let without_image = SceneItemInfo {
        item_id: 2,
        source_name: "Camera".to_string(),
        source_type: "dshow_input".to_string(),
        transform: sample_transform(),
        image_path: None,
        image_data: None,
    };
    let empty_image = SceneItemInfo {
        item_id: 3,
        source_name: "Blank".to_string(),
        source_type: "image_source".to_string(),
        transform: sample_transform(),
        image_path: Some("blank.png".to_string()),
        image_data: Some(vec![]),
    };
    round_trip(message(
        SyncMessageType::StateSync,
        SyncTargetType::Program,
        Payload::StateSync(StateSyncPayload {
            current_program_scene: "Main".to_string(),
            current_preview_scene: Some("Next".to_string()),
            scenes: vec![
                SceneInfo { scene_name: "Main".to_string(), items: vec![with_image, without_image] },
                SceneInfo { scene_name: "Next".to_string(), items: vec![empty_image] },
                SceneInfo { scene_name: "Empty".to_string(), items: vec![] },
            ],
        }),
    ));
    round_trip(message(
        SyncMessageType::StateSync,
        SyncTargetType::Program,
        Payload::StateSync(StateSyncPayload {
            current_program_scene: "Main".to_string(),
            current_preview_scene: None,
            scenes: vec![],
        }),
    ));
}

#[test]
fn round_trip_keeps_unicode_and_control_characters() {
    round_trip(message(
        SyncMessageType::SceneChange,
        SyncTargetType::Preview,
        Payload::SceneChange(SceneChangePayload { scene_name: "\u{30b7}\u{30fc}\u{30f3}\n\t\u{1}\\ \u{1F3A5}".to_string() }),
    ));
}

#[test]
fn encoded_text_is_the_envelope_with_snake_case_names() {
    let text = encode(&SyncMessage {
        message_type: SyncMessageType::SceneChange,
        timestamp: 42,
        target_type: SyncTargetType::Program,
        payload: Payload::SceneChange(SceneChangePayload { scene_name: "Intro".to_string() }),
    })
    .unwrap();
    let document: serde_json::Value = serde_json::from_str(&text).unwrap();
    let object = document.as_object().unwrap();
    assert_eq!(object.len(), 4);
    assert_eq!(document["type"], serde_json::Value::String("scene_change".to_string()));
    assert_eq!(document["target_type"], serde_json::Value::String("program".to_string()));
    assert_eq!(document["timestamp"].as_i64(), Some(42));
    assert_eq!(document["payload"]["scene_name"].as_str(), Some("Intro"));
    assert_eq!(document["payload"].as_object().unwrap().len(), 1);
}

#[test]
fn integers_stay_integers_on_the_wire() {
    let text = encode(&SyncMessage {
        message_type: SyncMessageType::TransformUpdate,
        timestamp: 9_007_199_254_740_993,
        target_type: SyncTargetType::Source,
        payload: Payload::TransformNotice { scene_name: "Main".to_string(), scene_item_id: 12 },
    })
    .unwrap();
    assert!(text.contains("\"timestamp\":9007199254740993"));
    assert!(text.contains("\"scene_item_id\":12"));
    assert!(!text.contains("12.0"));
    let back = decode(&text).unwrap();
    assert_eq!(back.timestamp, 9_007_199_254_740_993);
}

#[test]
fn bytes_are_written_as_an_array_of_numbers() {
    let tree = serialize(&Some(vec![1, 2, 3]));
    assert_eq!(serde_json::to_string(&tree).unwrap(), "[1,2,3]");
    assert_eq!(serialize(&None), serde_json::Value::Null);
    assert_eq!(serialize(&Some(vec![])), serde_json::Value::Array(vec![]));
    assert_eq!(
        serialize(&Some(vec![0, 255])),
        serde_json::Value::Array(vec![serde_json::Value::from(0), serde_json::Value::from(255)])
    );
}

#[test]
fn bytes_are_read_from_an_array_of_numbers() {
    assert_eq!(deserialize(&document("[0,255,7]")), Ok(Some(vec![0, 255, 7])));
    assert_eq!(deserialize(&document("null")), Ok(None));
    assert_eq!(deserialize(&document("[]")), Ok(Some(vec![])));
    assert_eq!(deserialize(&document("[256]")), Err(WireError::Payload));
    assert_eq!(deserialize(&document("[-1]")), Err(WireError::Payload));
    assert_eq!(deserialize(&document("[1.5]")), Err(WireError::Payload));
    assert_eq!(deserialize(&document("\"abc\"")), Err(WireError::Payload));
}

#[test]
fn decode_reads_members_in_any_order_and_passes_over_unknown_ones() {
    let text = q("{'type':'scene_change','extra':[1,2],'timestamp':5,'target_type':'preview','payload':{'note':null,'scene_name':'Intro'}}");
    let back = decode(&text).unwrap();
    assert_eq!(
        back,
        SyncMessage {
            message_type: SyncMessageType::SceneChange,
            timestamp: 5,
            target_type: SyncTargetType::Preview,
            payload: Payload::SceneChange(SceneChangePayload { scene_name: "Intro".to_string() }),
        }
    );
}

#[test]
fn decode_takes_missing_optional_members_as_none() {
    let text = q("{'type':'state_sync','timestamp':5,'target_type':'program','payload':{\
        'current_program_scene':'Main',\
        'scenes':[{'scene_name':'Main','items':[{'item_id':1,'source_name':'Logo','source_type':'image_source',\
          'transform':{'position_x':0,'position_y':0,'rotation':0,'scale_x':1,'scale_y':1,'width':10,'height':10}}]}]}}");
    let back = decode(&text).unwrap();
    match back.payload {
        Payload::StateSync(state) => {
            assert_eq!(state.current_preview_scene, None);
            assert_eq!(state.scenes.len(), 1);
            assert_eq!(state.scenes[0].items[0].image_path, None);
            assert_eq!(state.scenes[0].items[0].image_data, None);
            assert_eq!(state.scenes[0].items[0].transform.scale_x.as_i64(), Some(1));
        }
        other => panic!("unexpected payload {:?}", other),
    }
}

#[test]
fn decode_refuses_text_that_is_not_json() {
    assert_eq!(decode("not json"), Err(WireError::Syntax));
    assert_eq!(decode(""), Err(WireError::Syntax));
    assert_eq!(decode("{\"type\":"), Err(WireError::Syntax));
}

#[test]
fn decode_refuses_a_broken_envelope() {
    assert_eq!(decode("[]"), Err(WireError::Envelope));
    assert_eq!(decode("{}"), Err(WireError::Envelope));
    assert_eq!(
        decode(&q("{'type':7,'timestamp':1,'target_type':'program','payload':{}}")),
        Err(WireError::Envelope)
    );
    assert_eq!(
        decode(&q("{'type':'heartbeat','timestamp':1.5,'target_type':'program','payload':{}}")),
        Err(WireError::Envelope)
    );
    assert_eq!(
        decode(&q("{'type':'heartbeat','timestamp':1,'payload':{}}")),
        Err(WireError::Envelope)
    );
    assert_eq!(
        decode(&q("{'type':'heartbeat','timestamp':1,'target_type':'program'}")),
        Err(WireError::Envelope)
    );
}

#[test]
fn decode_refuses_unknown_kinds_and_targets() {
    assert_eq!(
        decode(&q("{'type':'SceneChange','timestamp':1,'target_type':'program','payload':{}}")),
        Err(WireError::UnknownKind)
    );
    assert_eq!(
        decode(&q("{'type':'heartbeat','timestamp':1,'target_type':'audio','payload':{}}")),
        Err(WireError::UnknownTarget)
    );
}

#[test]
fn decode_refuses_a_payload_that_does_not_fit_its_kind() {
    assert_eq!(
        decode(&q("{'type':'scene_change','timestamp':1,'target_type':'program','payload':{}}")),
        Err(WireError::Payload)
    );
    assert_eq!(
        decode(&q("{'type':'scene_change','timestamp':1,'target_type':'program','payload':{'scene_name':5}}")),
        Err(WireError::Payload)
    );
    assert_eq!(
        decode(&q("{'type':'transform_update','timestamp':1,'target_type':'source','payload':{'scene_name':'a','scene_item_id':1,'transform':{}}}")),
        Err(WireError::Payload)
    );
    assert_eq!(
        decode(&q("{'type':'image_update','timestamp':1,'target_type':'source','payload':{'scene_name':'a'}}")),
        Err(WireError::Payload)
    );
    assert_eq!(
        decode(&q("{'type':'state_sync','timestamp':1,'target_type':'program','payload':{'current_program_scene':'a','scenes':[{'scene_name':'a','items':[{}]}]}}")),
        Err(WireError::Payload)
    );
}

#[test]
fn heartbeat_payload_is_passed_over() {
    let back =
        decode(&q("{'type':'heartbeat','timestamp':1,'target_type':'program','payload':{'x':1}}"))
            .unwrap();
    assert_eq!(back.payload, Payload::Empty);
    assert_eq!(back.message_type, SyncMessageType::Heartbeat);
}

#[test]
fn kinds_and_targets_have_their_wire_names() {
    assert_eq!(kind_str(SyncMessageType::SourceUpdate), "source_update");
    assert_eq!(kind_str(SyncMessageType::TransformUpdate), "transform_update");
    assert_eq!(kind_str(SyncMessageType::SceneChange), "scene_change");
    assert_eq!(kind_str(SyncMessageType::ImageUpdate), "image_update");
    assert_eq!(kind_str(SyncMessageType::Heartbeat), "heartbeat");
    assert_eq!(kind_str(SyncMessageType::StateSync), "state_sync");
    assert_eq!(target_str(SyncTargetType::Source), "source");
    assert_eq!(target_str(SyncTargetType::Preview), "preview");
    assert_eq!(target_str(SyncTargetType::Program), "program");
    assert_eq!(parse_kind("state_sync"), Some(SyncMessageType::StateSync));
    assert_eq!(parse_kind("state-sync"), None);
    assert_eq!(parse_target("preview"), Some(SyncTargetType::Preview));
    assert_eq!(parse_target("Preview"), None);
}

#[test]
fn tree_of_a_message_reads_back_without_going_through_text() {
    let original = message(
        SyncMessageType::TransformUpdate,
        SyncTargetType::Source,
        Payload::TransformUpdate(TransformUpdatePayload {
            scene_name: "Main".to_string(),
            scene_item_id: 3,
            transform: sample_transform(),
        }),
    );
    assert_eq!(from_json(&to_json(&original)), Ok(original));
}

#[test]
fn payload_codec_follows_the_kind() {
    let notice = Payload::InputNotice { input_name: "Logo".to_string() };
    let tree = encode_payload(&notice);
    assert_eq!(decode_payload(SyncMessageType::ImageUpdate, &tree), Some(notice));
    assert_eq!(decode_payload(SyncMessageType::SceneChange, &tree), None);
    assert_eq!(decode_payload(SyncMessageType::Heartbeat, &tree), Some(Payload::Empty));
}

#[test]
fn wire_errors_say_what_is_wrong() {
    assert_eq!(WireError::Syntax.describe(), "Message is not JSON");
    assert_eq!(WireError::Envelope.describe(), "Message is not a protocol envelope");
    assert_eq!(WireError::UnknownKind.describe(), "Unknown kind of message");
    assert_eq!(WireError::UnknownTarget.describe(), "Unknown sync target");
    assert_eq!(WireError::Payload.describe(), "Payload does not fit the kind of message");
}

#[test]
fn message_document_has_the_four_members_of_the_envelope() {
    let original = message(
        SyncMessageType::ImageUpdate,
        SyncTargetType::Source,
        Payload::ImageUpdate(ImageUpdatePayload {
            scene_name: "Main".to_string(),
            source_name: "Logo".to_string(),
            file: "logo.png".to_string(),
            image_data: vec![1, 2, 3],
            width: None,
            height: Some(number(2.5)),
        }),
    );
    let tree = to_json(&original);
    assert_eq!(
        tree,
        document(&q("{'type':'image_update','timestamp':1700000000123,'target_type':'source',\
            'payload':{'scene_name':'Main','source_name':'Logo','file':'logo.png',\
            'image_data':[1,2,3],'width':null,'height':2.5}}"))
    );
}

#[test]
fn state_sync_document_leaves_out_missing_image_bytes() {
    let item = SceneItemInfo {
        item_id: 1,
        source_name: "Camera".to_string(),
        source_type: "input".to_string(),
        transform: sample_transform(),
        image_path: None,
        image_data: None,
    };
    let tree = to_json(&message(
        SyncMessageType::StateSync,
        SyncTargetType::Program,
        Payload::StateSync(StateSyncPayload {
            current_program_scene: "Main".to_string(),
            current_preview_scene: None,
            scenes: vec![SceneInfo { scene_name: "Main".to_string(), items: vec![item] }],
        }),
    ));
    let listed = &tree["payload"]["scenes"][0]["items"][0];
    assert_eq!(listed.as_object().unwrap().len(), 5);
    assert!(listed.get("image_data").is_none());
    assert!(listed["image_path"].is_null());
    assert!(tree["payload"]["current_preview_scene"].is_null());
    assert_eq!(listed["transform"]["position_x"].as_f64(), Some(10.5));
}
