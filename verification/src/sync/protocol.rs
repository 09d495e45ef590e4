//! The protocol model: the message envelope, the kinds of message and the
//! payload that each kind carries.
//!
//! Every type that owns text or bytes has a view, in which strings are
//! `Seq<char>` and byte buffers are `Seq<u8>`. Contracts that create new
//! values (the decoder, the alert constructor) speak of views; contracts that
//! only move values around speak of the values themselves.
//!
//! Numbers that the engine treats as floating point (positions, scales,
//! sizes) are carried as `serde_json::Number`: the reconcilers never compute
//! with them, they only hand them from the wire to the engine and back.

use vstd::prelude::*;
use crate::platform::now_millis;

verus! {

/// Discriminates the payload schema of a message.
#[derive(Debug, Clone, Copy, PartialEq, Eq, Hash, Structural)]
pub enum SyncMessageType {
    SourceUpdate,
    TransformUpdate,
    SceneChange,
    ImageUpdate,
    Heartbeat,
    StateSync,
}

/// The class of state that a message belongs to. The master filters on it
/// before a message is built; slaves use it for diagnostics only.
#[derive(Debug, Clone, Copy, PartialEq, Eq, Hash, Structural)]
pub enum SyncTargetType {
    Source,
    Preview,
    Program,
}

/// Placement of a scene item. All seven values are opaque to this crate.
#[derive(Debug, Clone, PartialEq, Eq)]
pub struct TransformData {
    pub position_x: serde_json::Number,
    pub position_y: serde_json::Number,
    pub rotation: serde_json::Number,
    pub scale_x: serde_json::Number,
    pub scale_y: serde_json::Number,
    pub width: serde_json::Number,
    pub height: serde_json::Number,
}

#[derive(Debug, Clone, PartialEq, Eq)]
pub struct SceneChangePayload {
    pub scene_name: String,
}

pub struct SceneChangePayloadView {
    pub scene_name: Seq<char>,
}

impl View for SceneChangePayload {
    type V = SceneChangePayloadView;

    open spec fn view(&self) -> SceneChangePayloadView {
        SceneChangePayloadView { scene_name: self.scene_name@ }
    }
}

#[derive(Debug, Clone, PartialEq, Eq)]
pub struct TransformUpdatePayload {
    pub scene_name: String,
    pub scene_item_id: i64,
    pub transform: TransformData,
}

pub struct TransformUpdatePayloadView {
    pub scene_name: Seq<char>,
    pub scene_item_id: i64,
    pub transform: TransformData,
}

impl View for TransformUpdatePayload {
    type V = TransformUpdatePayloadView;

    open spec fn view(&self) -> TransformUpdatePayloadView {
        TransformUpdatePayloadView {
            scene_name: self.scene_name@,
            scene_item_id: self.scene_item_id,
            transform: self.transform,
        }
    }
}

#[derive(Debug, Clone, PartialEq, Eq)]
pub struct ImageUpdatePayload {
    pub scene_name: String,
    pub source_name: String,
    /// Path or name of the image on the master; only its base name is used.
    pub file: String,
    pub image_data: Vec<u8>,
    pub width: Option<serde_json::Number>,
    pub height: Option<serde_json::Number>,
}

pub struct ImageUpdatePayloadView {
    pub scene_name: Seq<char>,
    pub source_name: Seq<char>,
    pub file: Seq<char>,
    pub image_data: Seq<u8>,
    pub width: Option<serde_json::Number>,
    pub height: Option<serde_json::Number>,
}

impl View for ImageUpdatePayload {
    type V = ImageUpdatePayloadView;

    open spec fn view(&self) -> ImageUpdatePayloadView {
        ImageUpdatePayloadView {
            scene_name: self.scene_name@,
            source_name: self.source_name@,
            file: self.file@,
            image_data: self.image_data@,
            width: self.width,
            height: self.height,
        }
    }
}

#[derive(Debug, Clone, PartialEq, Eq)]
pub struct SceneItemInfo {
    pub item_id: i64,
    pub source_name: String,
    pub source_type: String,
    pub transform: TransformData,
    pub image_path: Option<String>,
    /// Present only for image sources whose file could be read.
    pub image_data: Option<Vec<u8>>,
}

pub struct SceneItemInfoView {
    pub item_id: i64,
    pub source_name: Seq<char>,
    pub source_type: Seq<char>,
    pub transform: TransformData,
    pub image_path: Option<Seq<char>>,
    pub image_data: Option<Seq<u8>>,
}

impl View for SceneItemInfo {
    type V = SceneItemInfoView;

    open spec fn view(&self) -> SceneItemInfoView {
        SceneItemInfoView {
            item_id: self.item_id,
            source_name: self.source_name@,
            source_type: self.source_type@,
            transform: self.transform,
            image_path: match self.image_path {
                Some(p) => Some(p@),
                None => None,
            },
            image_data: match self.image_data {
                Some(d) => Some(d@),
                None => None,
            },
        }
    }
}

#[derive(Debug, Clone, PartialEq, Eq)]
pub struct SceneInfo {
    pub scene_name: String,
    pub items: Vec<SceneItemInfo>,
}

pub struct SceneInfoView {
    pub scene_name: Seq<char>,
    pub items: Seq<SceneItemInfoView>,
}

impl View for SceneInfo {
    type V = SceneInfoView;

    open spec fn view(&self) -> SceneInfoView {
        SceneInfoView {
            scene_name: self.scene_name@,
            items: self.items@.map_values(|i: SceneItemInfo| i@),
        }
    }
}

#[derive(Debug, Clone, PartialEq, Eq)]
pub struct StateSyncPayload {
    pub current_program_scene: String,
    pub current_preview_scene: Option<String>,
    pub scenes: Vec<SceneInfo>,
}

pub struct StateSyncPayloadView {
    pub current_program_scene: Seq<char>,
    pub current_preview_scene: Option<Seq<char>>,
    pub scenes: Seq<SceneInfoView>,
}

impl View for StateSyncPayload {
    type V = StateSyncPayloadView;

    open spec fn view(&self) -> StateSyncPayloadView {
        StateSyncPayloadView {
            current_program_scene: self.current_program_scene@,
            current_preview_scene: match self.current_preview_scene {
                Some(s) => Some(s@),
                None => None,
            },
            scenes: self.scenes@.map_values(|s: SceneInfo| s@),
        }
    }
}

/// What a message carries, one case per schema.
///
/// Two kinds have a short form besides their full one. The master's live
/// event path announces a changed transform or a changed input without the
/// values themselves (`TransformNotice`, `InputNotice`); only a snapshot or an
/// explicit update carries them.
#[derive(Debug, Clone, PartialEq, Eq)]
pub enum Payload {
    /// The empty object, carried by `Heartbeat` and by the reserved
    /// `SourceUpdate`.
    Empty,
    SceneChange(SceneChangePayload),
    TransformNotice { scene_name: String, scene_item_id: i64 },
    TransformUpdate(TransformUpdatePayload),
    InputNotice { input_name: String },
    ImageUpdate(ImageUpdatePayload),
    StateSync(StateSyncPayload),
}

pub enum PayloadView {
    Empty,
    SceneChange(SceneChangePayloadView),
    TransformNotice { scene_name: Seq<char>, scene_item_id: i64 },
    TransformUpdate(TransformUpdatePayloadView),
    InputNotice { input_name: Seq<char> },
    ImageUpdate(ImageUpdatePayloadView),
    StateSync(StateSyncPayloadView),
}

impl View for Payload {
    type V = PayloadView;

    open spec fn view(&self) -> PayloadView {
        match *self {
            Payload::Empty => PayloadView::Empty,
            Payload::SceneChange(p) => PayloadView::SceneChange(p@),
            Payload::TransformNotice { scene_name, scene_item_id } => PayloadView::TransformNotice {
                scene_name: scene_name@,
                scene_item_id,
            },
            Payload::TransformUpdate(p) => PayloadView::TransformUpdate(p@),
            Payload::InputNotice { input_name } => PayloadView::InputNotice {
                input_name: input_name@,
            },
            Payload::ImageUpdate(p) => PayloadView::ImageUpdate(p@),
            Payload::StateSync(p) => PayloadView::StateSync(p@),
        }
    }
}

/// Whether a payload has one of the schemas of the given kind. A message for
/// which this fails is a protocol violation.
pub open spec fn payload_fits(kind: SyncMessageType, payload: PayloadView) -> bool {
    match kind {
        SyncMessageType::SourceUpdate => payload is Empty,
        SyncMessageType::Heartbeat => payload is Empty,
        SyncMessageType::SceneChange => payload is SceneChange,
        SyncMessageType::TransformUpdate => payload is TransformNotice || payload is TransformUpdate,
        SyncMessageType::ImageUpdate => payload is InputNotice || payload is ImageUpdate,
        SyncMessageType::StateSync => payload is StateSync,
    }
}

/// The wire envelope.
#[derive(Debug, Clone, PartialEq, Eq)]
pub struct SyncMessage {
    pub message_type: SyncMessageType,
    /// Wall-clock milliseconds since the epoch at the producer. Diagnostic
    /// only: the order of delivery is the order of the transport.
    pub timestamp: i64,
    pub target_type: SyncTargetType,
    pub payload: Payload,
}

pub struct SyncMessageView {
    pub message_type: SyncMessageType,
    pub timestamp: i64,
    pub target_type: SyncTargetType,
    pub payload: PayloadView,
}

impl View for SyncMessage {
    type V = SyncMessageView;

    open spec fn view(&self) -> SyncMessageView {
        SyncMessageView {
            message_type: self.message_type,
            timestamp: self.timestamp,
            target_type: self.target_type,
            payload: self.payload@,
        }
    }
}

impl SyncMessage {
    /// The payload has a schema of the declared kind.
    pub open spec fn well_formed(&self) -> bool {
        payload_fits(self.message_type, self.payload@)
    }

    /// A message with the given stamp.
    pub fn stamped(
        message_type: SyncMessageType,
        target_type: SyncTargetType,
        payload: Payload,
        timestamp: i64,
    ) -> (message: Self)
        ensures
            message == (SyncMessage { message_type, timestamp, target_type, payload }),
    {
        SyncMessage { message_type, timestamp, target_type, payload }
    }

    /// A message stamped with the current time. Kind, target and payload are
    /// the arguments; the stamp is whatever the clock said.
    pub fn new(message_type: SyncMessageType, target_type: SyncTargetType, payload: Payload) -> (message: Self)
        ensures
            message.message_type == message_type,
            message.target_type == target_type,
            message.payload == payload,
    {
        SyncMessage::stamped(message_type, target_type, payload, now_millis())
    }

    /// A heartbeat: kind `Heartbeat`, the empty payload, and `Program` as
    /// target, a fixed convention since a heartbeat has no target of its own.
    pub fn heartbeat() -> (message: Self)
        ensures
            message.message_type == SyncMessageType::Heartbeat,
            message.target_type == SyncTargetType::Program,
            message.payload == Payload::Empty,
            message.well_formed(),
    {
        SyncMessage::new(SyncMessageType::Heartbeat, SyncTargetType::Program, Payload::Empty)
    }
}

} // verus!
