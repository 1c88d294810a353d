//! The move of one file: create the destination folder, try an atomic
//! rename, fall back to copy then delete. Each step is carried out by the
//! caller, who reports how it went; this module decides what comes next.

use vstd::prelude::*;

verus! {

/// Why a move did not happen.
#[derive(Clone, Debug)]
pub enum MoveError {
    /// The destination folder could not be created.
    FolderCreation { error: String },
    /// Both the rename and the fallback copy failed.
    Transfer { rename_error: String, copy_error: String },
}

/// Where a move stands; each non-final phase names the step to carry out next.
#[derive(Clone, Debug)]
pub enum MovePhase {
    /// Create the destination folder, with its parents.
    CreateFolder,
    /// Rename the source to the destination.
    Rename,
    /// Copy the source to the destination; the rename failed with `rename_error`.
    Copy { rename_error: String },
    /// Delete the source; the copy is in place.
    RemoveSource,
    /// The file is at its destination.
    Moved,
    /// The move failed; the source is where it was.
    Failed { error: MoveError },
}

/// The phase that follows `phase` once its step reported `step`.
pub open spec fn next_phase(phase: MovePhase, step: Result<(), String>) -> MovePhase {
    match phase {
        MovePhase::CreateFolder => match step {
            Ok(()) => MovePhase::Rename,
            Err(e) => MovePhase::Failed { error: MoveError::FolderCreation { error: e } },
        },
        MovePhase::Rename => match step {
            Ok(()) => MovePhase::Moved,
            Err(e) => MovePhase::Copy { rename_error: e },
        },
        MovePhase::Copy { rename_error } => match step {
            Ok(()) => MovePhase::RemoveSource,
            Err(e) => MovePhase::Failed {
                error: MoveError::Transfer { rename_error, copy_error: e },
            },
        },
        MovePhase::RemoveSource => MovePhase::Moved,
        MovePhase::Moved => MovePhase::Moved,
        MovePhase::Failed { error } => MovePhase::Failed { error },
    }
}

/// The phase is final.
pub open spec fn is_finished(phase: MovePhase) -> bool {
    phase is Moved || phase is Failed
}

/// The move of one file from `source` to `destination`.
#[derive(Debug)]
pub struct MoveJob {
    pub source: String,
    pub destination: String,
    pub phase: MovePhase,
}

impl MoveJob {
    /// A move that starts by creating the destination folder when
    /// `create_folder` is set, else by the rename.
    pub fn new(source: String, destination: String, create_folder: bool) -> (r: MoveJob)
        ensures
            r.source == source,
            r.destination == destination,
            r.phase == (if create_folder {
                MovePhase::CreateFolder
            } else {
                MovePhase::Rename
            }),
    {
        MoveJob {
            source,
            destination,
            phase: if create_folder {
                MovePhase::CreateFolder
            } else {
                MovePhase::Rename
            },
        }
    }

    /// Records how the current step went. A failed delete of the source
    /// after a successful copy still completes the move.
    pub fn advance(&mut self, step: Result<(), String>)
        ensures
            final(self).phase == next_phase(old(self).phase, step),
            final(self).source == old(self).source,
            final(self).destination == old(self).destination,
    {
        let mut phase = MovePhase::Moved;
        std::mem::swap(&mut self.phase, &mut phase);
        self.phase = match phase {
            MovePhase::CreateFolder => match step {
                Ok(()) => MovePhase::Rename,
                Err(e) => MovePhase::Failed { error: MoveError::FolderCreation { error: e } },
            },
            MovePhase::Rename => match step {
                Ok(()) => MovePhase::Moved,
                Err(e) => MovePhase::Copy { rename_error: e },
            },
            MovePhase::Copy { rename_error } => match step {
                Ok(()) => MovePhase::RemoveSource,
                Err(e) => MovePhase::Failed {
                    error: MoveError::Transfer { rename_error, copy_error: e },
                },
            },
            MovePhase::RemoveSource => MovePhase::Moved,
            MovePhase::Moved => MovePhase::Moved,
            MovePhase::Failed { error } => MovePhase::Failed { error },
        };
    }

    /// Whether the move has come to an end.
    pub fn is_done(&self) -> (r: bool)
        ensures
            r == is_finished(self.phase),
    {
        match self.phase {
            MovePhase::Moved => true,
            MovePhase::Failed { .. } => true,
            _ => false,
        }
    }

    /// The outcome of a finished move: the destination, or the error.
    pub fn finish(self) -> (r: Result<String, MoveError>)
        requires
            is_finished(self.phase),
        ensures
            self.phase is Moved ==> r == Ok::<String, MoveError>(self.destination),
            self.phase matches MovePhase::Failed { error } ==> r == Err::<String, MoveError>(error),
    {
        match self.phase {
            MovePhase::Failed { error } => Err(error),
            _ => Ok(self.destination),
        }
    }
}

/// A move whose rename fails, whose fallback copy succeeds and whose delete
/// of the source fails is a completed move, and it reports the destination
/// it was given.
pub proof fn lemma_failed_delete_still_moves(
    job: MoveJob,
    rename_error: String,
    delete_error: String,
)
    requires
        job.phase is Rename,
    ensures
        next_phase(
            next_phase(next_phase(job.phase, Err(rename_error)), Ok(())),
            Err(delete_error),
        ) is Moved,
{
}

} // verus!
