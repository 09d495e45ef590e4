//! The slave reconciler: turns an incoming message into engine commands and
//! turns the failures of those commands into alerts.
//!
//! Applying a message is a conversation. `SlaveSync::apply_sync_message`
//! checks the message and lays out the steps; the caller then asks the
//! session for one command at a time, carries it out against the engine or
//! the file system, and reports how it went. The session decides what follows:
//! the next command, an alert, or the end.

use std::collections::VecDeque;
use vstd::prelude::*;
use vstd::string::*;
use crate::platform::{base_name, fresh_id, now_millis};
use crate::vecs::reversed;
use crate::sync::protocol::{
    Payload,
    SceneInfo,
    SceneItemInfo,
    StateSyncPayload,
    SyncMessage,
    SyncMessageType,
    TransformData,
};

verus! {

#[derive(Debug, Clone, Copy, PartialEq, Eq, Hash, Structural)]
pub enum AlertSeverity {
    Warning,
    Error,
}

/// A record of one failure to apply a message, for the operator. Never part
/// of the wire protocol.
#[derive(Debug, Clone, PartialEq, Eq)]
pub struct DesyncAlert {
    pub id: String,
    pub timestamp: i64,
    pub scene_name: String,
    pub source_name: String,
    pub message: String,
    pub severity: AlertSeverity,
}

impl DesyncAlert {
    /// An alert with a fresh identifier and the current time.
    pub fn new(scene_name: String, source_name: String, message: String, severity: AlertSeverity) -> (alert:
        Self)
        ensures
            alert.scene_name == scene_name,
            alert.source_name == source_name,
            alert.message == message,
            alert.severity == severity,
            alert.id@.len() == 36,
    {
        DesyncAlert {
            id: fresh_id(),
            timestamp: now_millis(),
            scene_name,
            source_name,
            message,
            severity,
        }
    }
}

/// Why a message could not be applied at all. Distinct from the failure of
/// an engine command, which becomes an alert.
#[derive(Debug, Clone, Copy, PartialEq, Eq, Hash, Structural)]
pub enum SyncError {
    /// The slave has no connection to its engine.
    NotConnected,
    /// The payload does not have the schema that its kind calls for.
    InvalidPayload,
    /// The kind is reserved and has no meaning yet.
    Unsupported,
}

/// What a refusal says to the operator.
pub open spec fn sync_error_text(error: SyncError) -> Seq<char> {
    match error {
        SyncError::NotConnected => "OBS client not connected"@,
        SyncError::InvalidPayload => "Invalid payload for the kind of message"@,
        SyncError::Unsupported => "Unsupported kind of message"@,
    }
}

impl SyncError {
    pub fn describe(&self) -> (text: String)
        ensures
            text@ == sync_error_text(*self),
    {
        match self {
            SyncError::NotConnected => "OBS client not connected".to_owned(),
            SyncError::InvalidPayload => "Invalid payload for the kind of message".to_owned(),
            SyncError::Unsupported => "Unsupported kind of message".to_owned(),
        }
    }
}

/// The operation that failed, which fixes the wording and the severity of
/// the alert.
#[derive(Debug, Clone, Copy, PartialEq, Eq, Hash, Structural)]
pub enum Failure {
    ChangeScene,
    UpdateTransform,
    UpdateImage,
    ApplyInitialState,
}

/// The text that an alert's message starts with; the reason reported for the
/// failure follows it.
pub open spec fn failure_prefix(failure: Failure) -> Seq<char> {
    match failure {
        Failure::ChangeScene => "Failed to change scene: "@,
        Failure::UpdateTransform => "Failed to update transform: "@,
        Failure::UpdateImage => "Failed to update image: "@,
        Failure::ApplyInitialState => "Failed to apply initial state: "@,
    }
}

/// Failures that concern the program scene are errors; a transform or an
/// image that could not be applied is a warning.
pub open spec fn failure_severity(failure: Failure) -> AlertSeverity {
    match failure {
        Failure::ChangeScene => AlertSeverity::Error,
        Failure::ApplyInitialState => AlertSeverity::Error,
        Failure::UpdateTransform => AlertSeverity::Warning,
        Failure::UpdateImage => AlertSeverity::Warning,
    }
}

/// Only the failure to set the program scene of a snapshot ends the
/// application of a message.
pub open spec fn failure_is_fatal(failure: Failure) -> bool {
    failure is ApplyInitialState
}

/// What to do when a step fails.
#[derive(Debug, Clone, PartialEq, Eq)]
pub enum OnFailure {
    /// Carry on as if the step had succeeded.
    Ignore,
    /// Raise an alert with this context. A name that is not known is left
    /// empty in the alert.
    Report { failure: Failure, scene_name: Option<String>, source_name: Option<String> },
}

/// One step of applying a message.
#[derive(Debug, Clone, PartialEq, Eq)]
pub enum StepAction {
    SetProgramScene { scene_name: String },
    SetPreviewScene { scene_name: String },
    SetSceneItemTransform { scene_name: String, scene_item_id: i64, transform: TransformData },
    /// Write the bytes to the scratch directory under the base name of
    /// `file`, then point the input at what was written.
    SyncImage { source_name: String, file: String, image_data: Vec<u8> },
    /// Second half of `SyncImage`, laid out once the file has been written.
    RepointInput { input_name: String, file: String },
}

#[derive(Debug, Clone, PartialEq, Eq)]
pub struct PlannedStep {
    pub action: StepAction,
    pub on_failure: OnFailure,
}

/// A single call for the caller to make.
#[derive(Debug, Clone, PartialEq, Eq)]
pub enum EngineCommand {
    SetProgramScene { scene_name: String },
    /// An engine that cannot set a preview scene treats this as done.
    SetPreviewScene { scene_name: String },
    SetSceneItemTransform { scene_name: String, scene_item_id: i64, transform: TransformData },
    /// Write `image_data` to the file of this name in the scratch directory,
    /// replacing what is there, and report the path written.
    WriteImage { file_name: String, image_data: Vec<u8> },
    /// Set the input's file setting to `file`, leaving its other settings.
    SetInputSettings { input_name: String, file: String },
}

/// What the session remembers of a command that is under way.
#[derive(Debug, Clone, PartialEq, Eq)]
pub struct Outstanding {
    pub on_failure: OnFailure,
    /// For a `WriteImage`: the input to point at the written file.
    pub repoint: Option<String>,
}

/// The name given to a scratch file when the image's path has no final
/// component.
pub open spec fn default_scratch_name() -> Seq<char> {
    "synced_image.png"@
}

/// The name of the scratch file for an image, given the final component of
/// the image's path on the master.
pub fn scratch_name(base: Option<String>) -> (name: String)
    ensures
        name@ == match base {
            Some(n) => n@,
            None => default_scratch_name(),
        },
{
    match base {
        Some(n) => n,
        None => "synced_image.png".to_owned(),
    }
}

/// The alert's message: the prefix of the failed operation, then the reason.
pub fn failure_message(failure: Failure, reason: &str) -> (message: String)
    ensures
        message@ == failure_prefix(failure) + reason@,
{
    let mut message = match failure {
        Failure::ChangeScene => "Failed to change scene: ".to_owned(),
        Failure::UpdateTransform => "Failed to update transform: ".to_owned(),
        Failure::UpdateImage => "Failed to update image: ".to_owned(),
        Failure::ApplyInitialState => "Failed to apply initial state: ".to_owned(),
    };
    message.append(reason);
    message
}

fn name_or_empty(name: Option<String>) -> (text: String)
    ensures
        text@ == context_name(name),
{
    match name {
        Some(n) => n,
        None => String::new(),
    }
}

fn severity_of(failure: Failure) -> (severity: AlertSeverity)
    ensures
        severity == failure_severity(failure),
{
    match failure {
        Failure::ChangeScene => AlertSeverity::Error,
        Failure::ApplyInitialState => AlertSeverity::Error,
        Failure::UpdateTransform => AlertSeverity::Warning,
        Failure::UpdateImage => AlertSeverity::Warning,
    }
}

fn is_fatal(failure: Failure) -> (fatal: bool)
    ensures
        fatal == failure_is_fatal(failure),
{
    match failure {
        Failure::ApplyInitialState => true,
        _ => false,
    }
}

/// What is remembered while the command of a step is under way.
pub open spec fn outstanding_for(step: PlannedStep) -> Outstanding {
    Outstanding {
        on_failure: step.on_failure,
        repoint: match step.action {
            StepAction::SyncImage { source_name, .. } => Some(source_name),
            _ => None,
        },
    }
}

/// Whether `command` is the command of `action`. For every action but
/// `SyncImage` there is exactly one; for `SyncImage` it is a `WriteImage` of
/// the same bytes, whose file name is the platform's reading of the path.
pub open spec fn issues(action: StepAction, command: EngineCommand) -> bool {
    match action {
        StepAction::SetProgramScene { scene_name } => command == (EngineCommand::SetProgramScene {
            scene_name,
        }),
        StepAction::SetPreviewScene { scene_name } => command == (EngineCommand::SetPreviewScene {
            scene_name,
        }),
        StepAction::SetSceneItemTransform { scene_name, scene_item_id, transform } => command == (
        EngineCommand::SetSceneItemTransform { scene_name, scene_item_id, transform }),
        StepAction::SyncImage { image_data, .. } => command is WriteImage
            && command->WriteImage_image_data == image_data,
        StepAction::RepointInput { input_name, file } => command == (
        EngineCommand::SetInputSettings { input_name, file }),
    }
}

/// The steps still to come once an outstanding command has ended, given the
/// steps that were waiting behind it.
pub open spec fn pending_after(
    outstanding: Outstanding,
    outcome: Result<String, String>,
    waiting: Seq<PlannedStep>,
) -> Seq<PlannedStep> {
    match outcome {
        Ok(path) => match outstanding.repoint {
            Some(input_name) => seq![
                PlannedStep {
                    action: StepAction::RepointInput { input_name, file: path },
                    on_failure: outstanding.on_failure,
                },
            ] + waiting,
            None => waiting,
        },
        Err(_) => match outstanding.on_failure {
            OnFailure::Ignore => waiting,
            OnFailure::Report { failure, .. } => if failure_is_fatal(failure) {
                Seq::empty()
            } else {
                waiting
            },
        },
    }
}

/// A name of an alert's context as the alert shows it.
pub open spec fn context_name(name: Option<String>) -> Seq<char> {
    match name {
        Some(n) => n@,
        None => Seq::empty(),
    }
}

/// Whether `alert` is what the end of an outstanding command calls for: an
/// alert with the step's context, the severity of the failed operation and
/// its prefix followed by the reason, where a step that reports failures has
/// failed; none otherwise. Identifier and time of the alert are left open.
pub open spec fn alert_due(
    outstanding: Outstanding,
    outcome: Result<String, String>,
    alert: Option<DesyncAlert>,
) -> bool {
    match (outcome, outstanding.on_failure) {
        (Err(reason), OnFailure::Report { failure, scene_name, source_name }) => {
            &&& alert matches Some(a)
            &&& a.scene_name@ == context_name(scene_name)
            &&& a.source_name@ == context_name(source_name)
            &&& a.message@ == failure_prefix(failure) + reason@
            &&& a.severity == failure_severity(failure)
            &&& a.id@.len() == 36
        },
        _ => alert is None,
    }
}

/// The application of one message, in progress.
#[derive(Debug, Clone, PartialEq, Eq)]
pub struct ApplySession {
    steps: VecDeque<PlannedStep>,
    under_way: Option<Outstanding>,
}

impl ApplySession {
    /// The steps not yet begun, next first.
    pub closed spec fn pending(&self) -> Seq<PlannedStep> {
        self.steps@
    }

    /// The command handed out and not yet reported on, if any.
    pub closed spec fn awaiting(&self) -> Option<Outstanding> {
        self.under_way
    }

    /// Nothing is under way and nothing is left to do.
    pub open spec fn finished(&self) -> bool {
        self.awaiting() is None && self.pending().len() == 0
    }

    pub fn is_finished(&self) -> (done: bool)
        ensures
            done == self.finished(),
    {
        self.under_way.is_none() && self.steps.len() == 0
    }

    /// Number of steps not yet begun.
    pub fn pending_len(&self) -> (n: usize)
        ensures
            n == self.pending().len(),
    {
        self.steps.len()
    }

    /// The next command to carry out, or `None` when a command is still
    /// under way or nothing is left. Handing out a command begins its step.
    pub fn next_command(&mut self) -> (out: Option<EngineCommand>)
        ensures
            old(self).awaiting() is Some || old(self).pending().len() == 0 ==> {
                &&& out is None
                &&& final(self).pending() == old(self).pending()
                &&& final(self).awaiting() == old(self).awaiting()
            },
            old(self).awaiting() is None && old(self).pending().len() > 0 ==> {
                &&& out matches Some(command) && issues(old(self).pending()[0].action, command)
                &&& final(self).pending() == old(self).pending().skip(1)
                &&& final(self).awaiting() == Some(outstanding_for(old(self).pending()[0]))
            },
    {
        if self.under_way.is_some() || self.steps.len() == 0 {
            return None;
        }
        let step = self.steps.pop_front().unwrap();
        assert(self.steps@ =~= old(self).steps@.skip(1));
        let PlannedStep { action, on_failure } = step;
        match action {
            StepAction::SetProgramScene { scene_name } => {
                self.under_way = Some(Outstanding { on_failure, repoint: None });
                Some(EngineCommand::SetProgramScene { scene_name })
            },
            StepAction::SetPreviewScene { scene_name } => {
                self.under_way = Some(Outstanding { on_failure, repoint: None });
                Some(EngineCommand::SetPreviewScene { scene_name })
            },
            StepAction::SetSceneItemTransform { scene_name, scene_item_id, transform } => {
                self.under_way = Some(Outstanding { on_failure, repoint: None });
                Some(EngineCommand::SetSceneItemTransform { scene_name, scene_item_id, transform })
            },
            StepAction::SyncImage { source_name, file, image_data } => {
                self.under_way = Some(Outstanding { on_failure, repoint: Some(source_name) });
                let file_name = scratch_name(base_name(file.as_str()));
                Some(EngineCommand::WriteImage { file_name, image_data })
            },
            StepAction::RepointInput { input_name, file } => {
                self.under_way = Some(Outstanding { on_failure, repoint: None });
                Some(EngineCommand::SetInputSettings { input_name, file })
            },
        }
    }

    /// Reports how the command under way went: `Ok` with the path written
    /// for a `WriteImage` (for any other command the text is not looked at),
    /// `Err` with the reason otherwise. Returns the alert to deliver, if the
    /// failure calls for one. Delivery is the caller's and cannot fail the
    /// session: whatever becomes of the alert, the session carries on.
    ///
    /// With no command under way the report is dropped.
    pub fn record(&mut self, outcome: Result<String, String>) -> (alert: Option<DesyncAlert>)
        ensures
            final(self).awaiting() is None,
            old(self).awaiting() is None ==> alert is None && final(self).pending() == old(
                self,
            ).pending(),
            old(self).awaiting() matches Some(outstanding) ==> {
                &&& final(self).pending() == pending_after(outstanding, outcome, old(self).pending())
                &&& alert_due(outstanding, outcome, alert)
            },
    {
        let outstanding = match self.under_way.take() {
            Some(o) => o,
            None => {
                return None;
            },
        };
        let Outstanding { on_failure, repoint } = outstanding;
        match outcome {
            Ok(path) => {
                match repoint {
                    Some(input_name) => {
                        let ghost waiting = self.steps@;
                        let step = PlannedStep {
                            action: StepAction::RepointInput { input_name, file: path },
                            on_failure,
                        };
                        self.steps.push_front(step);
                        assert(self.steps@ =~= seq![step] + waiting);
                    },
                    None => {},
                }
                None
            },
            Err(reason) => {
                match on_failure {
                    OnFailure::Ignore => None,
                    OnFailure::Report { failure, scene_name, source_name } => {
                        if is_fatal(failure) {
                            self.steps.clear();
                        }
                        let message = failure_message(failure, reason.as_str());
                        Some(
                            DesyncAlert::new(
                                name_or_empty(scene_name),
                                name_or_empty(source_name),
                                message,
                                severity_of(failure),
                            ),
                        )
                    },
                }
            },
        }
    }
}

/// The step that a snapshot lays out for one scene item: an image to
/// materialise, where the item carries both the bytes and the path they came
/// from. Transforms of a snapshot are not reapplied.
pub open spec fn image_step(scene_name: String, item: SceneItemInfo) -> Option<PlannedStep> {
    match (item.image_data, item.image_path) {
        (Some(image_data), Some(file)) => Some(
            PlannedStep {
                action: StepAction::SyncImage { source_name: item.source_name, file, image_data },
                on_failure: OnFailure::Report {
                    failure: Failure::UpdateImage,
                    scene_name: Some(scene_name),
                    source_name: Some(item.source_name),
                },
            },
        ),
        _ => None,
    }
}

/// The image steps of one scene, in item order.
pub open spec fn item_steps(scene_name: String, items: Seq<SceneItemInfo>) -> Seq<PlannedStep>
    decreases items.len(),
{
    if items.len() == 0 {
        Seq::empty()
    } else {
        let earlier = item_steps(scene_name, items.drop_last());
        match image_step(scene_name, items.last()) {
            Some(step) => earlier.push(step),
            None => earlier,
        }
    }
}

/// The image steps of all scenes, scene by scene.
pub open spec fn scene_steps(scenes: Seq<SceneInfo>) -> Seq<PlannedStep>
    decreases scenes.len(),
{
    if scenes.len() == 0 {
        Seq::empty()
    } else {
        scene_steps(scenes.drop_last()) + item_steps(scenes.last().scene_name, scenes.last().items@)
    }
}

/// The steps of a snapshot. Setting the program scene comes first and is the
/// one step whose failure ends the application, with an error. The preview
/// scene follows if there is one; an engine that cannot set it is not at
/// fault. Then the images, each of which may fail, with a warning, without
/// holding up the rest.
pub open spec fn snapshot_steps(snapshot: StateSyncPayload) -> Seq<PlannedStep> {
    let program = seq![
        PlannedStep {
            action: StepAction::SetProgramScene { scene_name: snapshot.current_program_scene },
            on_failure: OnFailure::Report {
                failure: Failure::ApplyInitialState,
                scene_name: None,
                source_name: None,
            },
        },
    ];
    let preview = match snapshot.current_preview_scene {
        Some(scene_name) => seq![
            PlannedStep {
                action: StepAction::SetPreviewScene { scene_name },
                on_failure: OnFailure::Ignore,
            },
        ],
        None => Seq::empty(),
    };
    program + preview + scene_steps(snapshot.scenes@)
}

/// The steps that applying a message consists of, or the reason why it
/// cannot be applied.
///
/// A scene change sets the program scene, whatever the message's target. A
/// transform update sets the item's transform where the message carries one
/// and has nothing to do where it only announces a change. An image update
/// must carry the image. A heartbeat has no steps, whatever it carries: that
/// it arrived is all it says. The reserved kind is refused.
pub open spec fn plan_of(message: SyncMessage) -> Result<Seq<PlannedStep>, SyncError> {
    match message.message_type {
        SyncMessageType::SceneChange => match message.payload {
            Payload::SceneChange(p) => Ok(
                seq![
                    PlannedStep {
                        action: StepAction::SetProgramScene { scene_name: p.scene_name },
                        on_failure: OnFailure::Report {
                            failure: Failure::ChangeScene,
                            scene_name: Some(p.scene_name),
                            source_name: None,
                        },
                    },
                ],
            ),
            _ => Err(SyncError::InvalidPayload),
        },
        SyncMessageType::TransformUpdate => match message.payload {
            Payload::TransformNotice { .. } => Ok(Seq::empty()),
            Payload::TransformUpdate(p) => Ok(
                seq![
                    PlannedStep {
                        action: StepAction::SetSceneItemTransform {
                            scene_name: p.scene_name,
                            scene_item_id: p.scene_item_id,
                            transform: p.transform,
                        },
                        on_failure: OnFailure::Report {
                            failure: Failure::UpdateTransform,
                            scene_name: Some(p.scene_name),
                            source_name: None,
                        },
                    },
                ],
            ),
            _ => Err(SyncError::InvalidPayload),
        },
        SyncMessageType::ImageUpdate => match message.payload {
            Payload::ImageUpdate(p) => Ok(
                seq![
                    PlannedStep {
                        action: StepAction::SyncImage {
                            source_name: p.source_name,
                            file: p.file,
                            image_data: p.image_data,
                        },
                        on_failure: OnFailure::Report {
                            failure: Failure::UpdateImage,
                            scene_name: Some(p.scene_name),
                            source_name: Some(p.source_name),
                        },
                    },
                ],
            ),
            _ => Err(SyncError::InvalidPayload),
        },
        SyncMessageType::StateSync => match message.payload {
            Payload::StateSync(p) => Ok(snapshot_steps(p)),
            _ => Err(SyncError::InvalidPayload),
        },
        SyncMessageType::Heartbeat => Ok(Seq::empty()),
        SyncMessageType::SourceUpdate => Err(SyncError::Unsupported),
    }
}

fn plan_items(scene_name: &String, items: Vec<SceneItemInfo>, steps: &mut VecDeque<PlannedStep>)
    ensures
        final(steps)@ == old(steps)@ + item_steps(*scene_name, items@),
{
    let ghost all = items@;
    let ghost before = steps@;
    let mut rest = reversed(items);
    let ghost mut done: int = 0;
    proof {
        assert(all.take(0) =~= Seq::<SceneItemInfo>::empty());
        assert(steps@ =~= before + item_steps(*scene_name, all.take(0)));
    }
    while rest.len() > 0
        invariant
            0 <= done,
            done + rest@.len() == all.len(),
            forall|k: int| 0 <= k < rest@.len() ==> rest@[k] == all[all.len() - 1 - k],
            steps@ == before + item_steps(*scene_name, all.take(done)),
        decreases rest@.len(),
    {
        let item = rest.pop().unwrap();
        proof {
            assert(item == all[done]);
            assert(all.take(done + 1).drop_last() =~= all.take(done));
            assert(all.take(done + 1).last() == all[done]);
            done = done + 1;
        }
        let SceneItemInfo { source_name, image_path, image_data, .. } = item;
        match (image_data, image_path) {
            (Some(image_data), Some(file)) => {
                let context = source_name.clone();
                steps.push_back(
                    PlannedStep {
                        action: StepAction::SyncImage { source_name, file, image_data },
                        on_failure: OnFailure::Report {
                            failure: Failure::UpdateImage,
                            scene_name: Some(scene_name.clone()),
                            source_name: Some(context),
                        },
                    },
                );
                assert(steps@ =~= before + item_steps(*scene_name, all.take(done)));
            },
            _ => {},
        }
    }
    assert(all.take(done) =~= all);
}

fn plan_scenes(scenes: Vec<SceneInfo>, steps: &mut VecDeque<PlannedStep>)
    ensures
        final(steps)@ == old(steps)@ + scene_steps(scenes@),
{
    let ghost all = scenes@;
    let ghost before = steps@;
    let mut rest = reversed(scenes);
    let ghost mut done: int = 0;
    proof {
        assert(all.take(0) =~= Seq::<SceneInfo>::empty());
        assert(steps@ =~= before + scene_steps(all.take(0)));
    }
    while rest.len() > 0
        invariant
            0 <= done,
            done + rest@.len() == all.len(),
            forall|k: int| 0 <= k < rest@.len() ==> rest@[k] == all[all.len() - 1 - k],
            steps@ == before + scene_steps(all.take(done)),
        decreases rest@.len(),
    {
        let scene = rest.pop().unwrap();
        proof {
            assert(scene == all[done]);
            assert(all.take(done + 1).drop_last() =~= all.take(done));
            assert(all.take(done + 1).last() == all[done]);
            done = done + 1;
        }
        let SceneInfo { scene_name, items } = scene;
        plan_items(&scene_name, items, steps);
        assert(steps@ =~= before + scene_steps(all.take(done)));
    }
    assert(all.take(done) =~= all);
}

/// The slave reconciler. It keeps nothing between messages: whether the
/// engine is connected is asked anew for each one.
#[derive(Debug, Clone, Copy, PartialEq, Eq, Structural)]
pub struct SlaveSync {}

impl SlaveSync {
    pub fn new() -> (slave: Self)
        ensures
            slave == (SlaveSync {  }),
    {
        SlaveSync {  }
    }

    /// Begins to apply a message. Without an engine connection nothing can
    /// be applied. Otherwise the message is checked against its kind and its
    /// steps are laid out, none of them begun.
    pub fn apply_sync_message(&self, message: SyncMessage, engine_connected: bool) -> (out: Result<
        ApplySession,
        SyncError,
    >)
        ensures
            !engine_connected ==> out == Err::<ApplySession, SyncError>(SyncError::NotConnected),
            engine_connected ==> match plan_of(message) {
                Ok(steps) => out matches Ok(session) && session.pending() == steps
                    && session.awaiting() is None,
                Err(e) => out == Err::<ApplySession, SyncError>(e),
            },
    {
        if !engine_connected {
            return Err(SyncError::NotConnected);
        }
        let SyncMessage { message_type, payload, .. } = message;
        let mut steps: VecDeque<PlannedStep> = VecDeque::new();
        match message_type {
            SyncMessageType::SceneChange => match payload {
                Payload::SceneChange(p) => {
                    let context = p.scene_name.clone();
                    steps.push_back(
                        PlannedStep {
                            action: StepAction::SetProgramScene { scene_name: p.scene_name },
                            on_failure: OnFailure::Report {
                                failure: Failure::ChangeScene,
                                scene_name: Some(context),
                                source_name: None,
                            },
                        },
                    );
                },
                _ => {
                    return Err(SyncError::InvalidPayload);
                },
            },
            SyncMessageType::TransformUpdate => match payload {
                Payload::TransformNotice { .. } => {},
                Payload::TransformUpdate(p) => {
                    let context = p.scene_name.clone();
                    steps.push_back(
                        PlannedStep {
                            action: StepAction::SetSceneItemTransform {
                                scene_name: p.scene_name,
                                scene_item_id: p.scene_item_id,
                                transform: p.transform,
                            },
                            on_failure: OnFailure::Report {
                                failure: Failure::UpdateTransform,
                                scene_name: Some(context),
                                source_name: None,
                            },
                        },
                    );
                },
                _ => {
                    return Err(SyncError::InvalidPayload);
                },
            },
            SyncMessageType::ImageUpdate => match payload {
                Payload::ImageUpdate(p) => {
                    let context = p.source_name.clone();
                    steps.push_back(
                        PlannedStep {
                            action: StepAction::SyncImage {
                                source_name: p.source_name,
                                file: p.file,
                                image_data: p.image_data,
                            },
                            on_failure: OnFailure::Report {
                                failure: Failure::UpdateImage,
                                scene_name: Some(p.scene_name),
                                source_name: Some(context),
                            },
                        },
                    );
                },
                _ => {
                    return Err(SyncError::InvalidPayload);
                },
            },
            SyncMessageType::StateSync => match payload {
                Payload::StateSync(p) => {
                    let StateSyncPayload { current_program_scene, current_preview_scene, scenes } = p;
                    steps.push_back(
                        PlannedStep {
                            action: StepAction::SetProgramScene { scene_name: current_program_scene },
                            on_failure: OnFailure::Report {
                                failure: Failure::ApplyInitialState,
                                scene_name: None,
                                source_name: None,
                            },
                        },
                    );
                    match current_preview_scene {
                        Some(scene_name) => {
                            steps.push_back(
                                PlannedStep {
                                    action: StepAction::SetPreviewScene { scene_name },
                                    on_failure: OnFailure::Ignore,
                                },
                            );
                        },
                        None => {},
                    }
                    plan_scenes(scenes, &mut steps);
                },
                _ => {
                    return Err(SyncError::InvalidPayload);
                },
            },
            SyncMessageType::Heartbeat => {},
            SyncMessageType::SourceUpdate => {
                return Err(SyncError::Unsupported);
            },
        }
        assert(steps@ =~= plan_of(message)->Ok_0);
        Ok(ApplySession { steps, under_way: None })
    }
}

} // verus!
