//! The materialization pipeline: a linear state machine.
//!
//! A run fetches the template, patches the root files, renames
//! directory entries, patches the files those renames exposed, and
//! writes the auxiliary files — strictly in that order, with a
//! terminal failure state reachable from every non-terminal stage.
//! A failed run is never resumed and nothing is rolled back.

use vstd::prelude::*;
use crate::errors::Error;
use crate::patch::Replacement;

verus! {

/// The stages of one run, in pipeline order.
#[derive(Clone, Copy, Debug, PartialEq, Eq, Structural)]
pub enum Stage {
    /// Nothing has happened yet.
    Idle,
    /// The external fetch command is materializing the raw template.
    TemplateFetching,
    /// The root files the template is known to reference are patched.
    RootPatching,
    /// Directory entries are renamed to the chosen identifiers.
    DirectoryRenaming,
    /// Files exposed by the renames are patched.
    NestedPatching,
    /// The auxiliary scaffolding files are written.
    AuxiliaryWriting,
    /// The run finished successfully.
    Done,
    /// The run stopped at a failing stage; terminal.
    Failed(Error),
}

/// What one stage's work came to.
#[derive(Clone, Copy, Debug, PartialEq, Eq, Structural)]
pub enum StageResult {
    /// The stage's work succeeded.
    Success,
    /// The stage's work failed with this error.
    Failure(Error),
}

/// The stage that follows a successfully completed stage.
pub open spec fn successor(s: Stage) -> Stage {
    match s {
        Stage::Idle => Stage::TemplateFetching,
        Stage::TemplateFetching => Stage::RootPatching,
        Stage::RootPatching => Stage::DirectoryRenaming,
        Stage::DirectoryRenaming => Stage::NestedPatching,
        Stage::NestedPatching => Stage::AuxiliaryWriting,
        Stage::AuxiliaryWriting => Stage::Done,
        Stage::Done => Stage::Done,
        Stage::Failed(e) => Stage::Failed(e),
    }
}

/// The stage after one stage's work is reported: success advances to
/// the next stage in pipeline order, failure moves to the terminal
/// failed state, and the two terminal states absorb every report.
pub open spec fn next_stage_spec(s: Stage, r: StageResult) -> Stage {
    match s {
        Stage::Done => Stage::Done,
        Stage::Failed(e) => Stage::Failed(e),
        _ => match r {
            StageResult::Success => successor(s),
            StageResult::Failure(e) => Stage::Failed(e),
        },
    }
}

/// Advances the pipeline by one reported stage result.
pub fn next_stage(s: Stage, r: StageResult) -> (n: Stage)
    ensures
        n == next_stage_spec(s, r),
{
    match s {
        Stage::Done => Stage::Done,
        Stage::Failed(e) => Stage::Failed(e),
        _ => match r {
            StageResult::Success => match s {
                Stage::Idle => Stage::TemplateFetching,
                Stage::TemplateFetching => Stage::RootPatching,
                Stage::RootPatching => Stage::DirectoryRenaming,
                Stage::DirectoryRenaming => Stage::NestedPatching,
                Stage::NestedPatching => Stage::AuxiliaryWriting,
                Stage::AuxiliaryWriting => Stage::Done,
                Stage::Done => Stage::Done,
                Stage::Failed(e) => Stage::Failed(e),
            },
            StageResult::Failure(e) => Stage::Failed(e),
        },
    }
}

/// The stage after a whole sequence of reports.
pub open spec fn run_stages(s: Stage, rs: Seq<StageResult>) -> Stage
    decreases rs.len(),
{
    if rs.len() == 0 {
        s
    } else {
        run_stages(next_stage_spec(s, rs[0]), rs.drop_first())
    }
}

/// A failed run stays failed: whatever is reported afterwards, the
/// stage remains the same terminal failure, so no later stage of the
/// pipeline can execute.
pub proof fn lemma_failed_absorbing(e: Error, rs: Seq<StageResult>)
    ensures
        run_stages(Stage::Failed(e), rs) == Stage::Failed(e),
    decreases rs.len(),
{
    if rs.len() > 0 {
        lemma_failed_absorbing(e, rs.drop_first());
    }
}

/// A failing template fetch aborts the whole run: the pipeline moves
/// to the terminal failed state with the fetch's error — for a fetch
/// command that exited with a non-zero status, `NonZeroExit` — and no
/// patch, rename or write stage is ever reached.
pub proof fn lemma_fetch_failure_aborts(e: Error, rs: Seq<StageResult>)
    ensures
        next_stage_spec(Stage::TemplateFetching, StageResult::Failure(e)) == Stage::Failed(e),
        run_stages(next_stage_spec(Stage::TemplateFetching, StageResult::Failure(e)), rs)
            == Stage::Failed(e),
{
    lemma_failed_absorbing(e, rs);
}

/// One file to patch, with the replacements to apply. A strict patch
/// must find at least one match: the file is one the template is known
/// to reference, and `Unchanged` there means the fetched template's
/// shape is not what the pipeline expects.
pub struct FilePatch {
    /// The file, relative to the working root.
    pub path: String,
    /// The replacements to apply in one pass.
    pub queries: Vec<Replacement>,
    /// Whether `Unchanged` is fatal (`NoMatchFound`).
    pub strict: bool,
}

/// One directory entry to rename in place.
pub struct RenameStep {
    /// The entry, relative to the working root.
    pub path: String,
    /// Its new leaf name.
    pub new_name: String,
}

/// One auxiliary file to create with fixed content.
pub struct FileWrite {
    /// The file, relative to the working root.
    pub path: String,
    /// Its full content.
    pub content: String,
}

/// Everything one run does, in pipeline order.
pub struct Plan {
    /// The template locator handed verbatim to the fetch command.
    pub template: String,
    /// The root files to patch, in order.
    pub root_patches: Vec<FilePatch>,
    /// The directory entries to rename, in order.
    pub renames: Vec<RenameStep>,
    /// The files to patch after the renames, in order.
    pub nested_patches: Vec<FilePatch>,
    /// The auxiliary files to write, in order.
    pub aux_writes: Vec<FileWrite>,
}

} // verus!
