//! The master reconciler: decides which engine events become protocol
//! messages, and builds the snapshot that brings a newly joined slave up to
//! date.

use vstd::prelude::*;
use vstd::string::*;
use crate::obs::events::OBSEvent;
use crate::platform::now_millis;
use crate::sync::protocol::{
    Payload,
    PayloadView,
    SceneChangePayload,
    SceneInfo,
    SceneInfoView,
    SceneItemInfo,
    SceneItemInfoView,
    StateSyncPayload,
    StateSyncPayloadView,
    SyncMessage,
    SyncMessageType,
    SyncTargetType,
    TransformData,
};
use crate::vecs::reversed;

verus! {

/// The message that an event translates to when nothing filters it, stamped
/// with `timestamp`. Events that report a created or destroyed source have no
/// translation.
///
/// A changed transform and a changed input are announced without their
/// values: those travel in a snapshot.
pub open spec fn translation(event: OBSEvent, timestamp: i64) -> Option<SyncMessage> {
    match event {
        OBSEvent::SceneChanged { scene_name } => Some(
            SyncMessage {
                message_type: SyncMessageType::SceneChange,
                timestamp,
                target_type: SyncTargetType::Program,
                payload: Payload::SceneChange(SceneChangePayload { scene_name }),
            },
        ),
        OBSEvent::CurrentPreviewSceneChanged { scene_name } => Some(
            SyncMessage {
                message_type: SyncMessageType::SceneChange,
                timestamp,
                target_type: SyncTargetType::Preview,
                payload: Payload::SceneChange(SceneChangePayload { scene_name }),
            },
        ),
        OBSEvent::SceneItemTransformChanged { scene_name, scene_item_id } => Some(
            SyncMessage {
                message_type: SyncMessageType::TransformUpdate,
                timestamp,
                target_type: SyncTargetType::Source,
                payload: Payload::TransformNotice { scene_name, scene_item_id },
            },
        ),
        OBSEvent::InputSettingsChanged { input_name } => Some(
            SyncMessage {
                message_type: SyncMessageType::ImageUpdate,
                timestamp,
                target_type: SyncTargetType::Source,
                payload: Payload::InputNotice { input_name },
            },
        ),
        OBSEvent::SourceCreated { .. } => None,
        OBSEvent::SourceDestroyed { .. } => None,
    }
}

/// The sync target that an event belongs to, if it has one.
pub open spec fn event_target(event: OBSEvent) -> Option<SyncTargetType> {
    match event {
        OBSEvent::SceneChanged { .. } => Some(SyncTargetType::Program),
        OBSEvent::CurrentPreviewSceneChanged { .. } => Some(SyncTargetType::Preview),
        OBSEvent::SceneItemTransformChanged { .. } => Some(SyncTargetType::Source),
        OBSEvent::InputSettingsChanged { .. } => Some(SyncTargetType::Source),
        OBSEvent::SourceCreated { .. } => None,
        OBSEvent::SourceDestroyed { .. } => None,
    }
}

/// What the master emits for one event under the given filter: the event's
/// translation if its target is active, nothing otherwise.
pub open spec fn emitted(targets: Seq<SyncTargetType>, event: OBSEvent, timestamp: i64) -> Option<
    SyncMessage,
> {
    match translation(event, timestamp) {
        Some(m) => if targets.contains(m.target_type) {
            Some(m)
        } else {
            None
        },
        None => None,
    }
}

/// A message with its stamp set to zero, for comparing messages whose stamps
/// came from the clock.
pub open spec fn unstamped(m: SyncMessage) -> SyncMessage {
    SyncMessage { timestamp: 0, ..m }
}

/// What the master emits for a run of events under one filter, in event
/// order, stamps set to zero.
pub open spec fn emitted_all(targets: Seq<SyncTargetType>, events: Seq<OBSEvent>) -> Seq<SyncMessage>
    decreases events.len(),
{
    if events.len() == 0 {
        Seq::empty()
    } else {
        let earlier = emitted_all(targets, events.drop_last());
        match emitted(targets, events.last(), 0) {
            Some(m) => earlier.push(m),
            None => earlier,
        }
    }
}

/// The filter of a new master: program scene and sources, no preview.
pub open spec fn default_targets() -> Seq<SyncTargetType> {
    seq![SyncTargetType::Program, SyncTargetType::Source]
}

fn has_target(targets: &Vec<SyncTargetType>, wanted: SyncTargetType) -> (found: bool)
    ensures
        found == targets@.contains(wanted),
{
    let mut i: usize = 0;
    while i < targets.len()
        invariant
            i <= targets@.len(),
            forall|k: int| 0 <= k < i ==> targets@[k] != wanted,
        decreases targets@.len() - i,
    {
        if targets[i] == wanted {
            return true;
        }
        i = i + 1;
    }
    false
}

/// What became of an attempt to read a file.
#[derive(Debug, Clone, PartialEq, Eq)]
pub enum FileProbe {
    /// Nothing exists at the path.
    Missing,
    /// The file exists and could not be read, for the reason given.
    Unreadable(String),
    /// The bytes of the file.
    Contents(Vec<u8>),
}

/// Why an image has no bytes.
#[derive(Debug, Clone, PartialEq, Eq)]
pub enum ImageError {
    NotFound { path: String },
    Unreadable { path: String, reason: String },
}

/// What an image error says to the operator.
pub open spec fn image_error_text(error: ImageError) -> Seq<char> {
    match error {
        ImageError::NotFound { path } => "Image file not found: "@ + path@,
        ImageError::Unreadable { path, reason } => "Image file not readable: "@ + path@ + ": "@
            + reason@,
    }
}

impl ImageError {
    pub fn describe(&self) -> (text: String)
        ensures
            text@ == image_error_text(*self),
    {
        match self {
            ImageError::NotFound { path } => {
                let mut text = "Image file not found: ".to_owned();
                text.append(path.as_str());
                text
            },
            ImageError::Unreadable { path, reason } => {
                let mut text = "Image file not readable: ".to_owned();
                text.append(path.as_str());
                text.append(": ");
                text.append(reason.as_str());
                text
            },
        }
    }
}

/// What a snapshot error says to the operator.
pub open spec fn snapshot_error_text(error: SnapshotError) -> Seq<char> {
    match error {
        SnapshotError::NotConnected => "OBS not connected"@,
        SnapshotError::Engine { reason } => reason@,
    }
}

impl SnapshotError {
    pub fn describe(&self) -> (text: String)
        ensures
            text@ == snapshot_error_text(*self),
    {
        match self {
            SnapshotError::NotConnected => "OBS not connected".to_owned(),
            SnapshotError::Engine { reason } => reason.clone(),
        }
    }
}

/// Why there is no snapshot.
#[derive(Debug, Clone, PartialEq, Eq)]
pub enum SnapshotError {
    /// The master has no connection to its engine.
    NotConnected,
    /// The engine did not answer a query that the snapshot cannot do
    /// without.
    Engine { reason: String },
}

/// The file behind an image source, and what reading it came to.
#[derive(Debug, Clone, PartialEq, Eq)]
pub struct ImageReport {
    pub path: String,
    pub probe: FileProbe,
}

/// A scene item as the engine reported it. `image` is set for image sources.
#[derive(Debug, Clone, PartialEq, Eq)]
pub struct ItemReport {
    pub item_id: i64,
    pub source_name: String,
    pub source_type: String,
    pub transform: TransformData,
    pub image: Option<ImageReport>,
}

#[derive(Debug, Clone, PartialEq, Eq)]
pub struct SceneReport {
    pub scene_name: String,
    pub items: Vec<ItemReport>,
}

/// The answers of the engine to the queries that a snapshot is built from.
/// An engine that reports no preview scene has none.
#[derive(Debug, PartialEq, Eq)]
pub struct EngineReport {
    pub program_scene: Result<String, String>,
    pub preview_scene: Option<String>,
    pub scenes: Result<Vec<SceneReport>, String>,
}

/// An image left out of a snapshot.
#[derive(Debug, Clone, PartialEq, Eq)]
pub struct SkippedImage {
    pub scene_name: String,
    pub source_name: String,
    pub error: ImageError,
}

/// A snapshot and the images that it had to leave out.
#[derive(Debug, Clone, PartialEq, Eq)]
pub struct Snapshot {
    pub message: SyncMessage,
    pub skipped: Vec<SkippedImage>,
}

/// The bytes of an image, or why there are none. A path at which nothing
/// exists is reported as not found.
pub open spec fn image_read(image: ImageReport) -> Result<Vec<u8>, ImageError> {
    match image.probe {
        FileProbe::Contents(bytes) => Ok(bytes),
        FileProbe::Missing => Err(ImageError::NotFound { path: image.path }),
        FileProbe::Unreadable(reason) => Err(ImageError::Unreadable { path: image.path, reason }),
    }
}

/// The item of a snapshot for a reported item. An image source goes out
/// with its path, and with its bytes if they could be read.
pub open spec fn item_info(item: ItemReport) -> SceneItemInfoView {
    SceneItemInfoView {
        item_id: item.item_id,
        source_name: item.source_name@,
        source_type: item.source_type@,
        transform: item.transform,
        image_path: match item.image {
            Some(image) => Some(image.path@),
            None => None,
        },
        image_data: match item.image {
            Some(image) => match image_read(image) {
                Ok(bytes) => Some(bytes@),
                Err(_) => None,
            },
            None => None,
        },
    }
}

/// The record of an item whose image could not be read.
pub open spec fn item_skip(scene_name: String, item: ItemReport) -> Option<SkippedImage> {
    match item.image {
        Some(image) => match image_read(image) {
            Ok(_) => None,
            Err(error) => Some(SkippedImage { scene_name, source_name: item.source_name, error }),
        },
        None => None,
    }
}

/// The images of one scene that could not be read, in item order.
pub open spec fn skipped_in_items(scene_name: String, items: Seq<ItemReport>) -> Seq<SkippedImage>
    decreases items.len(),
{
    if items.len() == 0 {
        Seq::empty()
    } else {
        let earlier = skipped_in_items(scene_name, items.drop_last());
        match item_skip(scene_name, items.last()) {
            Some(skip) => earlier.push(skip),
            None => earlier,
        }
    }
}

/// The images of all scenes that could not be read, scene by scene.
pub open spec fn skipped_in_scenes(scenes: Seq<SceneReport>) -> Seq<SkippedImage>
    decreases scenes.len(),
{
    if scenes.len() == 0 {
        Seq::empty()
    } else {
        skipped_in_scenes(scenes.drop_last()) + skipped_in_items(
            scenes.last().scene_name,
            scenes.last().items@,
        )
    }
}

pub open spec fn scene_info(scene: SceneReport) -> SceneInfoView {
    SceneInfoView {
        scene_name: scene.scene_name@,
        items: scene.items@.map_values(|i: ItemReport| item_info(i)),
    }
}

/// The payload of the snapshot built from the engine's answers.
pub open spec fn snapshot_payload(
    program_scene: String,
    preview_scene: Option<String>,
    scenes: Seq<SceneReport>,
) -> StateSyncPayloadView {
    StateSyncPayloadView {
        current_program_scene: program_scene@,
        current_preview_scene: match preview_scene {
            Some(s) => Some(s@),
            None => None,
        },
        scenes: scenes.map_values(|s: SceneReport| scene_info(s)),
    }
}

fn describe_items(scene_name: &String, items: Vec<ItemReport>, skipped: &mut Vec<SkippedImage>) -> (infos:
    Vec<SceneItemInfo>)
    ensures
        infos@.map_values(|i: SceneItemInfo| i@) == items@.map_values(|i: ItemReport| item_info(i)),
        final(skipped)@ == old(skipped)@ + skipped_in_items(*scene_name, items@),
{
    let ghost all = items@;
    let ghost before = skipped@;
    let mut rest = reversed(items);
    let mut infos: Vec<SceneItemInfo> = Vec::new();
    let ghost mut done: int = 0;
    proof {
        assert(all.take(0) =~= Seq::<ItemReport>::empty());
        assert(infos@.map_values(|i: SceneItemInfo| i@) =~= all.take(0).map_values(
            |i: ItemReport| item_info(i),
        ));
        assert(skipped@ =~= before + skipped_in_items(*scene_name, all.take(0)));
    }
    while rest.len() > 0
        invariant
            0 <= done,
            done + rest@.len() == all.len(),
            forall|k: int| 0 <= k < rest@.len() ==> rest@[k] == all[all.len() - 1 - k],
            infos@.map_values(|i: SceneItemInfo| i@) == all.take(done).map_values(
                |i: ItemReport| item_info(i),
            ),
            skipped@ == before + skipped_in_items(*scene_name, all.take(done)),
        decreases rest@.len(),
    {
        let item = rest.pop().unwrap();
        let ghost infos_before = infos@.map_values(|i: SceneItemInfo| i@);
        let ghost skipped_before = skipped@;
        proof {
            assert(item == all[done]);
            assert(all.take(done + 1).drop_last() =~= all.take(done));
            assert(all.take(done + 1).last() == all[done]);
            done = done + 1;
        }
        let ItemReport { item_id, source_name, source_type, transform, image } = item;
        let mut image_path: Option<String> = None;
        let mut image_data: Option<Vec<u8>> = None;
        match image {
            Some(image) => {
                image_path = Some(image.path.clone());
                match MasterSync::read_image_file(image) {
                    Ok(bytes) => {
                        image_data = Some(bytes);
                    },
                    Err(error) => {
                        skipped.push(
                            SkippedImage {
                                scene_name: scene_name.clone(),
                                source_name: source_name.clone(),
                                error,
                            },
                        );
                    },
                }
            },
            None => {},
        }
        let info = SceneItemInfo { item_id, source_name, source_type, transform, image_path, image_data };
        assert(info@ == item_info(all[done - 1]));
        infos.push(info);
        proof {
            assert(infos@.map_values(|i: SceneItemInfo| i@) =~= infos_before.push(info@));
            assert(all.take(done).map_values(|i: ItemReport| item_info(i)) =~= all.take(
                done - 1,
            ).map_values(|i: ItemReport| item_info(i)).push(item_info(all[done - 1])));
            assert(skipped@ =~= before + skipped_in_items(*scene_name, all.take(done)));
        }
    }
    assert(all.take(done) =~= all);
    infos
}

/// The master reconciler. Its only state is the set of active sync targets.
#[derive(Debug, Clone, PartialEq, Eq)]
pub struct MasterSync {
    active_targets: Vec<SyncTargetType>,
}

impl MasterSync {
    /// The active sync targets, in the order in which they were given. Only
    /// membership matters.
    pub closed spec fn targets(&self) -> Seq<SyncTargetType> {
        self.active_targets@
    }

    pub fn new() -> (master: Self)
        ensures
            master.targets() == default_targets(),
    {
        let mut active_targets: Vec<SyncTargetType> = Vec::new();
        active_targets.push(SyncTargetType::Program);
        active_targets.push(SyncTargetType::Source);
        assert(active_targets@ =~= default_targets());
        MasterSync { active_targets }
    }

    /// A copy of the active sync targets.
    pub fn active_targets(&self) -> (targets: Vec<SyncTargetType>)
        ensures
            targets@ == self.targets(),
    {
        let mut targets: Vec<SyncTargetType> = Vec::new();
        let mut i: usize = 0;
        while i < self.active_targets.len()
            invariant
                i <= self.active_targets@.len(),
                targets@ == self.active_targets@.take(i as int),
            decreases self.active_targets@.len() - i,
        {
            targets.push(self.active_targets[i]);
            assert(targets@ =~= self.active_targets@.take(i + 1));
            i = i + 1;
        }
        assert(self.active_targets@.take(i as int) =~= self.active_targets@);
        targets
    }

    /// Replaces the filter wholesale. Events translated after this call see
    /// the new set; messages already emitted are not touched.
    pub fn set_active_targets(&mut self, targets: Vec<SyncTargetType>)
        ensures
            final(self).targets() == targets@,
    {
        self.active_targets = targets;
    }

    /// Translates one event under the current filter, with the given stamp.
    pub fn translate_event_at(&self, event: &OBSEvent, timestamp: i64) -> (out: Option<SyncMessage>)
        ensures
            out == emitted(self.targets(), *event, timestamp),
    {
        match event {
            OBSEvent::SceneChanged { scene_name } => {
                if has_target(&self.active_targets, SyncTargetType::Program) {
                    Some(
                        SyncMessage::stamped(
                            SyncMessageType::SceneChange,
                            SyncTargetType::Program,
                            Payload::SceneChange(SceneChangePayload { scene_name: scene_name.clone() }),
                            timestamp,
                        ),
                    )
                } else {
                    None
                }
            },
            OBSEvent::CurrentPreviewSceneChanged { scene_name } => {
                if has_target(&self.active_targets, SyncTargetType::Preview) {
                    Some(
                        SyncMessage::stamped(
                            SyncMessageType::SceneChange,
                            SyncTargetType::Preview,
                            Payload::SceneChange(SceneChangePayload { scene_name: scene_name.clone() }),
                            timestamp,
                        ),
                    )
                } else {
                    None
                }
            },
            OBSEvent::SceneItemTransformChanged { scene_name, scene_item_id } => {
                if has_target(&self.active_targets, SyncTargetType::Source) {
                    Some(
                        SyncMessage::stamped(
                            SyncMessageType::TransformUpdate,
                            SyncTargetType::Source,
                            Payload::TransformNotice {
                                scene_name: scene_name.clone(),
                                scene_item_id: *scene_item_id,
                            },
                            timestamp,
                        ),
                    )
                } else {
                    None
                }
            },
            OBSEvent::InputSettingsChanged { input_name } => {
                if has_target(&self.active_targets, SyncTargetType::Source) {
                    Some(
                        SyncMessage::stamped(
                            SyncMessageType::ImageUpdate,
                            SyncTargetType::Source,
                            Payload::InputNotice { input_name: input_name.clone() },
                            timestamp,
                        ),
                    )
                } else {
                    None
                }
            },
            OBSEvent::SourceCreated { .. } => None,
            OBSEvent::SourceDestroyed { .. } => None,
        }
    }

    /// Translates one event under the current filter and stamps the message
    /// with the current time.
    pub fn translate_event(&self, event: &OBSEvent) -> (out: Option<SyncMessage>)
        ensures
            out is Some <==> emitted(self.targets(), *event, 0) is Some,
            out matches Some(m) ==> unstamped(m) == emitted(self.targets(), *event, 0)->0,
    {
        self.translate_event_at(event, now_millis())
    }

    /// Translates a run of events under the current filter. The messages come
    /// out in event order, one for each event whose target is active, each
    /// with the stamp of the moment it was translated.
    pub fn start_monitoring(&self, events: &Vec<OBSEvent>) -> (out: Vec<SyncMessage>)
        ensures
            out@.map_values(|m: SyncMessage| unstamped(m)) == emitted_all(self.targets(), events@),
    {
        let mut out: Vec<SyncMessage> = Vec::new();
        let mut i: usize = 0;
        assert(out@.map_values(|m: SyncMessage| unstamped(m)) =~= emitted_all(
            self.targets(),
            events@.take(0),
        ));
        while i < events.len()
            invariant
                i <= events@.len(),
                out@.map_values(|m: SyncMessage| unstamped(m)) == emitted_all(
                    self.targets(),
                    events@.take(i as int),
                ),
            decreases events@.len() - i,
        {
            proof {
                assert(events@.take(i + 1).drop_last() == events@.take(i as int));
                assert(events@.take(i + 1).last() == events@[i as int]);
            }
            let ghost before = out@;
            match self.translate_event(&events[i]) {
                Some(m) => {
                    out.push(m);
                    assert(out@.map_values(|m: SyncMessage| unstamped(m)) =~= before.map_values(
                        |m: SyncMessage| unstamped(m),
                    ).push(unstamped(m)));
                },
                None => {},
            }
            i = i + 1;
        }
        assert(events@.take(events@.len() as int) == events@);
        out
    }

    /// A heartbeat for the caller to send. The master holds no timer: calling
    /// this at intervals is the caller's business.
    pub fn send_heartbeat(&self) -> (message: SyncMessage)
        ensures
            message.message_type == SyncMessageType::Heartbeat,
            message.target_type == SyncTargetType::Program,
            message.payload == Payload::Empty,
    {
        SyncMessage::heartbeat()
    }

    /// What reading an image file came to: its bytes, or why there are none.
    pub fn read_image_file(image: ImageReport) -> (out: Result<Vec<u8>, ImageError>)
        ensures
            out == image_read(image),
    {
        let ImageReport { path, probe } = image;
        match probe {
            FileProbe::Contents(bytes) => Ok(bytes),
            FileProbe::Missing => Err(ImageError::NotFound { path }),
            FileProbe::Unreadable(reason) => Err(ImageError::Unreadable { path, reason }),
        }
    }

    /// Builds the snapshot for a newly joined slave from what the engine
    /// reported: a `StateSync` message, targeted at `Program`, stamped with
    /// the current time.
    ///
    /// Without an engine, or without its program scene or its list of scenes,
    /// there is no snapshot. An image that could not be read does not stop
    /// the snapshot: its item goes out with its path and without bytes, and
    /// the image is listed among the skipped.
    pub fn send_initial_state(&self, engine: Option<EngineReport>) -> (out: Result<Snapshot, SnapshotError>)
        ensures
            match engine {
                None => out == Err::<Snapshot, SnapshotError>(SnapshotError::NotConnected),
                Some(report) => match (report.program_scene, report.scenes) {
                    (Err(reason), _) => out == Err::<Snapshot, SnapshotError>(
                        SnapshotError::Engine { reason },
                    ),
                    (Ok(_), Err(reason)) => out == Err::<Snapshot, SnapshotError>(
                        SnapshotError::Engine { reason },
                    ),
                    (Ok(program), Ok(scenes)) => {
                        &&& out matches Ok(snapshot)
                        &&& snapshot.message.message_type == SyncMessageType::StateSync
                        &&& snapshot.message.target_type == SyncTargetType::Program
                        &&& snapshot.message.payload@ == PayloadView::StateSync(
                            snapshot_payload(program, report.preview_scene, scenes@),
                        )
                        &&& snapshot.skipped@ == skipped_in_scenes(scenes@)
                    },
                },
            },
    {
        let report = match engine {
            Some(report) => report,
            None => {
                return Err(SnapshotError::NotConnected);
            },
        };
        let EngineReport { program_scene, preview_scene, scenes } = report;
        let current_program_scene = match program_scene {
            Ok(name) => name,
            Err(reason) => {
                return Err(SnapshotError::Engine { reason });
            },
        };
        let scenes = match scenes {
            Ok(scenes) => scenes,
            Err(reason) => {
                return Err(SnapshotError::Engine { reason });
            },
        };
        let ghost all = scenes@;
        let mut rest = reversed(scenes);
        let mut infos: Vec<SceneInfo> = Vec::new();
        let mut skipped: Vec<SkippedImage> = Vec::new();
        let ghost mut done: int = 0;
        proof {
            assert(all.take(0) =~= Seq::<SceneReport>::empty());
            assert(infos@.map_values(|s: SceneInfo| s@) =~= all.take(0).map_values(
                |s: SceneReport| scene_info(s),
            ));
        }
        while rest.len() > 0
            invariant
                0 <= done,
                done + rest@.len() == all.len(),
                forall|k: int| 0 <= k < rest@.len() ==> rest@[k] == all[all.len() - 1 - k],
                infos@.map_values(|s: SceneInfo| s@) == all.take(done).map_values(
                    |s: SceneReport| scene_info(s),
                ),
                skipped@ == skipped_in_scenes(all.take(done)),
            decreases rest@.len(),
        {
            let scene = rest.pop().unwrap();
            let ghost before = infos@.map_values(|s: SceneInfo| s@);
            proof {
                assert(scene == all[done]);
                assert(all.take(done + 1).drop_last() =~= all.take(done));
                assert(all.take(done + 1).last() == all[done]);
                done = done + 1;
            }
            let SceneReport { scene_name, items } = scene;
            let described = describe_items(&scene_name, items, &mut skipped);
            let info = SceneInfo { scene_name, items: described };
            assert(info@ == scene_info(all[done - 1]));
            infos.push(info);
            proof {
                assert(infos@.map_values(|s: SceneInfo| s@) =~= before.push(info@));
                assert(all.take(done).map_values(|s: SceneReport| scene_info(s)) =~= all.take(
                    done - 1,
                ).map_values(|s: SceneReport| scene_info(s)).push(scene_info(all[done - 1])));
            }
        }
        assert(all.take(done) =~= all);
        let payload = StateSyncPayload {
            current_program_scene,
            current_preview_scene: preview_scene,
            scenes: infos,
        };
        let message = SyncMessage::new(
            SyncMessageType::StateSync,
            SyncTargetType::Program,
            Payload::StateSync(payload),
        );
        Ok(Snapshot { message, skipped })
    }
}

/// Filtering. An event whose target is not active yields no message; an
/// event whose target is active yields exactly one, with that target. Events
/// without a target yield none under any filter.
pub proof fn lemma_filtering(targets: Seq<SyncTargetType>, event: OBSEvent, timestamp: i64)
    ensures
        match event_target(event) {
            Some(x) => {
                &&& !targets.contains(x) ==> emitted(targets, event, timestamp) is None
                &&& targets.contains(x) ==> (emitted(targets, event, timestamp) matches Some(m)
                    && m.target_type == x && m.timestamp == timestamp)
                &&& emitted_all(targets, seq![event]).len() == (if targets.contains(x) {
                    1nat
                } else {
                    0nat
                })
            },
            None => emitted(targets, event, timestamp) is None && emitted_all(
                targets,
                seq![event],
            ).len() == 0,
        },
{
    let one = seq![event];
    assert(one.drop_last() =~= Seq::<OBSEvent>::empty());
    assert(emitted_all(targets, one.drop_last()).len() == 0);
    assert(one.last() == event);
}

/// Translating one more event adds at most one message at the end and
/// leaves what was emitted for the earlier events as it is.
pub proof fn lemma_emitted_all_extends(
    targets: Seq<SyncTargetType>,
    events: Seq<OBSEvent>,
    next: OBSEvent,
)
    ensures
        emitted_all(targets, events.push(next)) == match emitted(targets, next, 0) {
            Some(m) => emitted_all(targets, events).push(m),
            None => emitted_all(targets, events),
        },
{
    assert(events.push(next).drop_last() =~= events);
}

} // verus!
