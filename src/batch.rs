//! One action of a batch organize: create the destination folder when
//! asked to, leave the file alone when its destination is taken, else move
//! it; each end is tallied in the batch's `MoveResult`.

use vstd::prelude::*;
use crate::records::{failure_recorded, moved_recorded, skip_recorded, MoveResult};

verus! {

/// The step of a batch action to carry out next.
#[derive(Clone, Copy, Debug, PartialEq, Eq, Structural)]
pub enum BatchStage {
    /// Create the destination folder, with its parents.
    CreateFolder,
    /// Report whether a file is already at the destination.
    CheckDestination,
    /// Move the file (rename, or copy then delete).
    Move,
    /// The action is tallied.
    Done,
}

/// One action of a batch.
#[derive(Debug)]
pub struct BatchItem {
    pub stage: BatchStage,
}

impl BatchItem {
    /// Starts an action: with the folder step when folders are to be
    /// created and the destination folder is missing.
    pub fn new(create_folders: bool, folder_exists: bool) -> (r: BatchItem)
        ensures
            r.stage == (if create_folders && !folder_exists {
                BatchStage::CreateFolder
            } else {
                BatchStage::CheckDestination
            }),
    {
        if create_folders && !folder_exists {
            BatchItem { stage: BatchStage::CreateFolder }
        } else {
            BatchItem { stage: BatchStage::CheckDestination }
        }
    }

    /// The folder step ended; `failure` holds the error's description.
    pub fn folder_created(&mut self, tally: &mut MoveResult, failure: Option<String>)
        requires
            old(self).stage == BatchStage::CreateFolder,
            old(tally).wf(),
        ensures
            match failure {
                None => final(self).stage == BatchStage::CheckDestination && *final(tally) == *old(tally),
                Some(message) => final(self).stage == BatchStage::Done && failure_recorded(
                    *old(tally),
                    *final(tally),
                    message,
                ),
            },
    {
        match failure {
            None => {
                self.stage = BatchStage::CheckDestination;
            },
            Some(message) => {
                tally.record_failure(message);
                self.stage = BatchStage::Done;
            },
        }
    }

    /// Whether a file already occupies the destination: such an action is
    /// skipped, the others go on to the move.
    pub fn destination_checked(&mut self, tally: &mut MoveResult, exists: bool)
        requires
            old(self).stage == BatchStage::CheckDestination,
            old(tally).wf(),
        ensures
            (if exists {
                final(self).stage == BatchStage::Done && skip_recorded(*old(tally), *final(tally))
            } else {
                final(self).stage == BatchStage::Move && *final(tally) == *old(tally)
            }),
    {
        if exists {
            tally.record_skipped();
            self.stage = BatchStage::Done;
        } else {
            self.stage = BatchStage::Move;
        }
    }

    /// The move ended; `failure` holds the error's description.
    pub fn move_finished(&mut self, tally: &mut MoveResult, failure: Option<String>)
        requires
            old(self).stage == BatchStage::Move,
            old(tally).wf(),
        ensures
            final(self).stage == BatchStage::Done,
            match failure {
                None => moved_recorded(*old(tally), *final(tally)),
                Some(message) => failure_recorded(*old(tally), *final(tally), message),
            },
    {
        match failure {
            None => tally.record_moved(),
            Some(message) => tally.record_failure(message),
        }
        self.stage = BatchStage::Done;
    }
}

} // verus!
