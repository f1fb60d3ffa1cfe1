//! The order of the pipeline's external steps, and what each step's outcome
//! leads to. Every step runs once; the first failure ends the run.
use vstd::prelude::*;

verus! {

/// How far a run has come.
#[derive(Clone, Copy, Debug, PartialEq, Eq, Structural)]
pub enum Stage {
    /// The package's name and version are known.
    MetadataRead,
    /// The project has been built in release mode.
    ProjectBuilt,
    /// The image has been built.
    ImageBuilt,
    /// Every step has run, the export included when it was asked for.
    Done,
}

/// An external step.
#[derive(Clone, Copy, Debug, PartialEq, Eq, Structural)]
pub enum Step {
    /// The project build tool, in release mode.
    BuildProject,
    /// The container engine's image build.
    BuildImage,
    /// The saved image, compressed into an archive.
    ExportImage,
}

/// How a step ended.
#[derive(Clone, Copy, Debug, PartialEq, Eq, Structural)]
pub enum Outcome {
    /// It exited with success.
    Succeeded,
    /// It exited with a failure.
    Failed,
    /// It could not be started.
    NotStarted,
}

/// Why a run was aborted.
#[derive(Clone, Copy, Debug, PartialEq, Eq, Structural)]
pub enum PipelineError {
    /// The project build failed.
    BuildFailed,
    /// The image build failed.
    ImageBuildFailed,
    /// The export failed.
    ExportFailed,
    /// A step's command could not be started.
    NotStarted(Step),
}

/// The step that a run at `stage` takes next, if any.
pub open spec fn next_step_of(stage: Stage, export: bool) -> Option<Step> {
    match stage {
        Stage::MetadataRead => Some(Step::BuildProject),
        Stage::ProjectBuilt => Some(Step::BuildImage),
        Stage::ImageBuilt => if export {
            Some(Step::ExportImage)
        } else {
            None
        },
        _ => None,
    }
}

/// The stage that a successful step leads to.
pub open spec fn stage_after(step: Step, export: bool) -> Stage {
    match step {
        Step::BuildProject => Stage::ProjectBuilt,
        Step::BuildImage => if export {
            Stage::ImageBuilt
        } else {
            Stage::Done
        },
        Step::ExportImage => Stage::Done,
    }
}

/// The error of a failed step.
pub open spec fn failure_of(step: Step) -> PipelineError {
    match step {
        Step::BuildProject => PipelineError::BuildFailed,
        Step::BuildImage => PipelineError::ImageBuildFailed,
        Step::ExportImage => PipelineError::ExportFailed,
    }
}

/// The step to run at `stage`, when export is or is not requested.
pub fn next_step(stage: Stage, export: bool) -> (r: Option<Step>)
    ensures
        r == next_step_of(stage, export),
{
    match stage {
        Stage::MetadataRead => Some(Step::BuildProject),
        Stage::ProjectBuilt => Some(Step::BuildImage),
        Stage::ImageBuilt => if export {
            Some(Step::ExportImage)
        } else {
            None
        },
        _ => None,
    }
}

/// Where a run goes once the step at `stage` has ended with `outcome`.
pub fn advance(stage: Stage, export: bool, outcome: Outcome) -> (r: Result<Stage, PipelineError>)
    requires
        next_step_of(stage, export) is Some,
    ensures
        ({
            let step = next_step_of(stage, export)->0;
            r == match outcome {
                Outcome::Succeeded => Ok::<Stage, PipelineError>(stage_after(step, export)),
                Outcome::Failed => Err(failure_of(step)),
                Outcome::NotStarted => Err(PipelineError::NotStarted(step)),
            }
        }),
{
    let step = match next_step(stage, export) {
        Some(s) => s,
        None => return Ok(stage),
    };
    match outcome {
        Outcome::Succeeded => Ok(
            match step {
                Step::BuildProject => Stage::ProjectBuilt,
                Step::BuildImage => if export {
                    Stage::ImageBuilt
                } else {
                    Stage::Done
                },
                Step::ExportImage => Stage::Done,
            },
        ),
        Outcome::Failed => Err(
            match step {
                Step::BuildProject => PipelineError::BuildFailed,
                Step::BuildImage => PipelineError::ImageBuildFailed,
                Step::ExportImage => PipelineError::ExportFailed,
            },
        ),
        Outcome::NotStarted => Err(PipelineError::NotStarted(step)),
    }
}

/// The steps of a run from `stage` in which every step succeeds.
pub open spec fn successful_run(stage: Stage, export: bool, fuel: nat) -> Seq<Step>
    decreases fuel,
{
    if fuel == 0 {
        Seq::empty()
    } else {
        match next_step_of(stage, export) {
            None => Seq::empty(),
            Some(step) => seq![step] + successful_run(stage_after(step, export), export, (fuel - 1) as nat),
        }
    }
}

/// A run in which every step succeeds builds the project, then the image,
/// then exports it when asked, each once, and ends done.
pub proof fn lemma_successful_run(export: bool)
    ensures
        successful_run(Stage::MetadataRead, export, 4) == if export {
            seq![Step::BuildProject, Step::BuildImage, Step::ExportImage]
        } else {
            seq![Step::BuildProject, Step::BuildImage]
        },
{
    reveal_with_fuel(successful_run, 5);
    if export {
        assert(successful_run(Stage::MetadataRead, export, 4) =~= seq![
            Step::BuildProject,
            Step::BuildImage,
            Step::ExportImage,
        ]);
    } else {
        assert(successful_run(Stage::MetadataRead, export, 4) =~= seq![
            Step::BuildProject,
            Step::BuildImage,
        ]);
    }
}

} // verus!
