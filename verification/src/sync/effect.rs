//! A model of what the slave's commands do, for stating what applying a
//! message comes to.
//!
//! The engine and the scratch directory are seen as a set of cells, each
//! holding one value: the program scene, the preview scene, the transform
//! of each scene item, the contents of each scratch file, the file that
//! each input points at. A command that succeeds overwrites one cell.
//! Nothing else about the engine is modelled.

use vstd::prelude::*;
use crate::sync::protocol::{StateSyncPayload, TransformData};
use crate::sync::slave::{issues, snapshot_steps, EngineCommand, PlannedStep, StepAction};

verus! {

/// A place that a command writes to.
pub enum Cell {
    ProgramScene,
    PreviewScene,
    ItemTransform { scene_name: Seq<char>, scene_item_id: i64 },
    ScratchFile { file_name: Seq<char> },
    InputFile { input_name: Seq<char> },
}

/// What a cell holds.
pub enum CellValue {
    Scene(Seq<char>),
    Transform(TransformData),
    Bytes(Seq<u8>),
    Path(Seq<char>),
}

/// One overwrite of one cell.
pub struct Write {
    pub cell: Cell,
    pub value: CellValue,
}

/// The state of every cell that has been written.
pub type Cells = Map<Cell, CellValue>;

/// The write that a command makes when it succeeds.
pub open spec fn write_of(command: EngineCommand) -> Write {
    match command {
        EngineCommand::SetProgramScene { scene_name } => Write {
            cell: Cell::ProgramScene,
            value: CellValue::Scene(scene_name@),
        },
        EngineCommand::SetPreviewScene { scene_name } => Write {
            cell: Cell::PreviewScene,
            value: CellValue::Scene(scene_name@),
        },
        EngineCommand::SetSceneItemTransform { scene_name, scene_item_id, transform } => Write {
            cell: Cell::ItemTransform { scene_name: scene_name@, scene_item_id },
            value: CellValue::Transform(transform),
        },
        EngineCommand::WriteImage { file_name, image_data } => Write {
            cell: Cell::ScratchFile { file_name: file_name@ },
            value: CellValue::Bytes(image_data@),
        },
        EngineCommand::SetInputSettings { input_name, file } => Write {
            cell: Cell::InputFile { input_name: input_name@ },
            value: CellValue::Path(file@),
        },
    }
}

/// The writes of one step, all of whose commands succeed. An image is
/// written under the name that `name_of` gives to its path, and its input
/// is pointed at the path that `path_of` gives to that name: the two stand
/// for the platform's reading of a path and for the place of the scratch
/// directory, which are fixed while a slave runs.
pub open spec fn step_writes(
    action: StepAction,
    name_of: spec_fn(Seq<char>) -> Seq<char>,
    path_of: spec_fn(Seq<char>) -> Seq<char>,
) -> Seq<Write> {
    match action {
        StepAction::SetProgramScene { scene_name } => seq![
            Write { cell: Cell::ProgramScene, value: CellValue::Scene(scene_name@) },
        ],
        StepAction::SetPreviewScene { scene_name } => seq![
            Write { cell: Cell::PreviewScene, value: CellValue::Scene(scene_name@) },
        ],
        StepAction::SetSceneItemTransform { scene_name, scene_item_id, transform } => seq![
            Write {
                cell: Cell::ItemTransform { scene_name: scene_name@, scene_item_id },
                value: CellValue::Transform(transform),
            },
        ],
        StepAction::SyncImage { source_name, file, image_data } => seq![
            Write {
                cell: Cell::ScratchFile { file_name: name_of(file@) },
                value: CellValue::Bytes(image_data@),
            },
            Write {
                cell: Cell::InputFile { input_name: source_name@ },
                value: CellValue::Path(path_of(name_of(file@))),
            },
        ],
        StepAction::RepointInput { input_name, file } => seq![
            Write { cell: Cell::InputFile { input_name: input_name@ }, value: CellValue::Path(file@) },
        ],
    }
}

/// The model follows the session. The command that a session issues for a
/// step makes the step's first write, where the scratch file of an image is
/// named as `name_of` has it; and the command that follows a written image
/// makes the step's second write, where the path reported for the file is
/// the one that `path_of` has for it.
pub proof fn lemma_commands_make_the_writes(
    action: StepAction,
    command: EngineCommand,
    reported: String,
    name_of: spec_fn(Seq<char>) -> Seq<char>,
    path_of: spec_fn(Seq<char>) -> Seq<char>,
)
    requires
        issues(action, command),
        action matches StepAction::SyncImage { file, .. } ==> {
            &&& command->WriteImage_file_name@ == name_of(file@)
            &&& reported@ == path_of(name_of(file@))
        },
    ensures
        match action {
            StepAction::SyncImage { source_name, .. } => step_writes(action, name_of, path_of) == seq![
                write_of(command),
                write_of(EngineCommand::SetInputSettings { input_name: source_name, file: reported }),
            ],
            _ => step_writes(action, name_of, path_of) == seq![write_of(command)],
        },
{
}

/// The writes of a run of steps, all of whose commands succeed, in order.
pub open spec fn plan_writes(
    steps: Seq<PlannedStep>,
    name_of: spec_fn(Seq<char>) -> Seq<char>,
    path_of: spec_fn(Seq<char>) -> Seq<char>,
) -> Seq<Write>
    decreases steps.len(),
{
    if steps.len() == 0 {
        Seq::empty()
    } else {
        plan_writes(steps.drop_last(), name_of, path_of) + step_writes(
            steps.last().action,
            name_of,
            path_of,
        )
    }
}

/// The cells after a run of writes.
pub open spec fn apply_writes(cells: Cells, writes: Seq<Write>) -> Cells
    decreases writes.len(),
{
    if writes.len() == 0 {
        cells
    } else {
        apply_writes(cells, writes.drop_last()).insert(writes.last().cell, writes.last().value)
    }
}

/// A run of writes lays its own cells over whatever was there: the result is
/// the earlier state, overridden by what the run writes to an empty state.
pub proof fn lemma_writes_override(cells: Cells, writes: Seq<Write>)
    ensures
        apply_writes(cells, writes) == cells.union_prefer_right(apply_writes(Map::empty(), writes)),
    decreases writes.len(),
{
    if writes.len() == 0 {
        assert(cells.union_prefer_right(Map::<Cell, CellValue>::empty()) =~= cells);
    } else {
        lemma_writes_override(cells, writes.drop_last());
        let laid = apply_writes(Map::empty(), writes.drop_last());
        let last = writes.last();
        assert(cells.union_prefer_right(laid).insert(last.cell, last.value)
            =~= cells.union_prefer_right(laid.insert(last.cell, last.value)));
    }
}

/// Making the same run of writes twice leaves every cell as making it once
/// does.
pub proof fn lemma_writes_idempotent(cells: Cells, writes: Seq<Write>)
    ensures
        apply_writes(apply_writes(cells, writes), writes) == apply_writes(cells, writes),
{
    let laid = apply_writes(Map::empty(), writes);
    lemma_writes_override(cells, writes);
    lemma_writes_override(apply_writes(cells, writes), writes);
    assert(cells.union_prefer_right(laid).union_prefer_right(laid) =~= cells.union_prefer_right(
        laid,
    ));
}

/// Idempotence of a snapshot. Applying a snapshot a second time, with every
/// command succeeding as it did the first time, leaves the engine and the
/// scratch directory as the first application left them: each image goes to
/// the same scratch file and each input points at the same path.
pub proof fn lemma_snapshot_idempotent(
    cells: Cells,
    snapshot: StateSyncPayload,
    name_of: spec_fn(Seq<char>) -> Seq<char>,
    path_of: spec_fn(Seq<char>) -> Seq<char>,
)
    ensures
        ({
            let writes = plan_writes(snapshot_steps(snapshot), name_of, path_of);
            apply_writes(apply_writes(cells, writes), writes) == apply_writes(cells, writes)
        }),
{
    lemma_writes_idempotent(cells, plan_writes(snapshot_steps(snapshot), name_of, path_of));
}

} // verus!
