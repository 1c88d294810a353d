//! The handling of one arrived file, as a sequence of stages. Each stage
//! names the outside work the caller does next (wait, classify, list the
//! destination, move, log); the caller reports the result and the run
//! decides the following stage.

use vstd::prelude::*;
use crate::classifier::Classification;
use crate::mover::MoveError;
use crate::records::{ActionLogRequest, ProviderError};
use crate::resolver::{resolve, resolves_to, Resolution};
use crate::text::is_hidden_spec;
use crate::tracker::{admit_arrival, ready_after_settle, should_process_spec, ProcessedSet};

verus! {

/// Why the handling of a file stopped short.
#[derive(Debug)]
pub enum FileError {
    /// The classification provider failed.
    Provider { error: ProviderError },
    /// The file at the destination could not be removed before an overwrite.
    Clear { message: String },
    /// The move failed.
    Move { error: MoveError },
}

/// How the handling of a file ended.
#[derive(Debug)]
pub enum FileOutcome {
    /// Gone or hidden after the settle delay; nothing was done.
    Dropped,
    /// Its destination was taken and the strategy said to skip.
    Skipped,
    /// An error ended the handling; the file stays where it is.
    Failed { error: FileError },
    /// The file was moved; `logged` tells whether the audit log took the record.
    Moved { record: ActionLogRequest, logged: bool },
}

/// Where the handling of a file stands.
#[derive(Debug)]
pub enum Stage {
    /// Wait the settle delay, then report whether the file still exists.
    Settling,
    /// Classify the file.
    Classifying,
    /// List the names in the destination folder `classification.destination`.
    Resolving { classification: Classification },
    /// Move the file to `name` in the destination folder, removing the file
    /// there first when `replace` is set.
    Moving { classification: Classification, name: String, replace: bool },
    /// Send `record` to the audit log.
    Logging { record: ActionLogRequest },
    /// Nothing more to do.
    Finished { outcome: FileOutcome },
}

/// The audit record of a completed move.
pub open spec fn record_for(
    r: ActionLogRequest,
    filename: String,
    path: String,
    dest: String,
    c: Classification,
) -> bool {
    &&& r.filename == filename
    &&& r.source_path == path
    &&& r.dest_path == dest
    &&& r.category_id is None
    &&& r.rule_id == c.rule_id
    &&& r.confidence_percent == c.confidence_percent
}

/// The handling of the file at `path`, whose name is `filename`.
#[derive(Debug)]
pub struct FileRun {
    pub path: String,
    pub filename: String,
    pub stage: Stage,
}

/// The run's end marks the path as processed when the file's pipeline
/// completed: a skip, or a move whose record the audit log took. A drop, an
/// error, or a failed log leaves the path unmarked, so that a later arrival
/// at it is handled again.
pub open spec fn marks_processed_spec(stage: Stage) -> bool {
    stage matches Stage::Finished { outcome } && (outcome is Skipped || (
    outcome matches FileOutcome::Moved { logged, .. } && logged))
}

/// A run that ends in an error does not mark its path, so a path that was
/// not processed before stays eligible for its next arrival.
pub proof fn lemma_failed_run_stays_eligible(
    processed: Set<Seq<char>>,
    path: Seq<char>,
    stage: Stage,
)
    requires
        should_process_spec(processed, path),
        stage matches Stage::Finished { outcome } && outcome is Failed,
    ensures
        !marks_processed_spec(stage),
        should_process_spec(
            if marks_processed_spec(stage) {
                processed.insert(path)
            } else {
                processed
            },
            path,
        ),
{
}

impl FileRun {
    /// Starts the handling of an arrival, unless it is to be dropped: while
    /// paused, or when the path was already processed.
    pub fn arrive(processed: &ProcessedSet, path: String, filename: String, paused: bool) -> (r: Option<FileRun>)
        ensures
            r is Some <==> (!paused && should_process_spec(processed@, path@)),
            r matches Some(run) ==> run.path == path && run.filename == filename && run.stage is Settling,
    {
        if admit_arrival(processed, path.as_str(), paused) {
            Some(FileRun { path, filename, stage: Stage::Settling })
        } else {
            None
        }
    }

    /// After the settle delay: classify a file that is still there and not
    /// hidden; drop it otherwise.
    pub fn settled(&mut self, still_exists: bool)
        requires
            old(self).stage is Settling,
        ensures
            final(self).path == old(self).path,
            final(self).filename == old(self).filename,
            if still_exists && !is_hidden_spec(old(self).filename@) {
                final(self).stage is Classifying
            } else {
                final(self).stage matches Stage::Finished { outcome } && outcome is Dropped
            },
    {
        if ready_after_settle(still_exists, self.filename.as_str()) {
            self.stage = Stage::Classifying;
        } else {
            self.stage = Stage::Finished { outcome: FileOutcome::Dropped };
        }
    }

    /// The classification came back: go on to resolve its destination, or
    /// end with the provider's error.
    pub fn classified(&mut self, result: Result<Classification, ProviderError>)
        requires
            old(self).stage is Classifying,
        ensures
            final(self).path == old(self).path,
            final(self).filename == old(self).filename,
            match result {
                Ok(c) => final(self).stage == (Stage::Resolving { classification: c }),
                Err(e) => final(self).stage == (Stage::Finished {
                    outcome: FileOutcome::Failed { error: FileError::Provider { error: e } },
                }),
            },
    {
        self.stage = match result {
            Ok(c) => Stage::Resolving { classification: c },
            Err(e) => Stage::Finished {
                outcome: FileOutcome::Failed { error: FileError::Provider { error: e } },
            },
        };
    }

    /// The destination folder holds `taken`: decide the final name by the
    /// classification's conflict strategy, or skip. `stem` and `ext` are
    /// the file name's stem and extension without its dot.
    pub fn resolved(&mut self, taken: &Vec<String>, stem: &str, ext: &str)
        requires
            old(self).stage is Resolving,
        ensures
            final(self).path == old(self).path,
            final(self).filename == old(self).filename,
            old(self).stage matches Stage::Resolving { classification } ==> exists|res: Resolution| {
                &&& #[trigger] resolves_to(res, taken@, old(self).filename@, stem@, ext@, classification.conflict_strategy)
                &&& match res {
                    Resolution::Proceed { name } => final(self).stage == (Stage::Moving {
                        classification,
                        name,
                        replace: false,
                    }),
                    Resolution::Replace { name } => final(self).stage == (Stage::Moving {
                        classification,
                        name,
                        replace: true,
                    }),
                    Resolution::Skip => final(self).stage == (Stage::Finished {
                        outcome: FileOutcome::Skipped,
                    }),
                }
            },
    {
        // Take the current stage out to move its fields into the next one.
        let mut stage = Stage::Classifying;
        std::mem::swap(&mut self.stage, &mut stage);
        match stage {
            Stage::Resolving { classification } => {
                let res = resolve(taken, self.filename.as_str(), stem, ext, classification.conflict_strategy);
                let ghost kept = res;
                self.stage = match res {
                    Resolution::Proceed { name } => Stage::Moving { classification, name, replace: false },
                    Resolution::Replace { name } => Stage::Moving { classification, name, replace: true },
                    Resolution::Skip => Stage::Finished { outcome: FileOutcome::Skipped },
                };
                assert(resolves_to(kept, taken@, self.filename@, stem@, ext@, classification.conflict_strategy));
            },
            _ => {},  // excluded by the precondition
        }
    }

    /// The file at the destination could not be removed before an
    /// overwrite: the handling ends there.
    pub fn clear_failed(&mut self, message: String)
        requires
            old(self).stage matches Stage::Moving { replace, .. } && replace,
        ensures
            final(self).path == old(self).path,
            final(self).filename == old(self).filename,
            final(self).stage == (Stage::Finished {
                outcome: FileOutcome::Failed { error: FileError::Clear { message } },
            }),
    {
        self.stage = Stage::Finished { outcome: FileOutcome::Failed { error: FileError::Clear { message } } };
    }

    /// The move ended: on success the audit record is built for the
    /// destination reached; on failure the handling ends with the error.
    pub fn moved(&mut self, result: Result<String, MoveError>)
        requires
            old(self).stage is Moving,
        ensures
            final(self).path == old(self).path,
            final(self).filename == old(self).filename,
            old(self).stage matches Stage::Moving { classification, .. } ==> match result {
                Ok(dest) => final(self).stage matches Stage::Logging { record } && record_for(
                    record,
                    old(self).filename,
                    old(self).path,
                    dest,
                    classification,
                ),
                Err(e) => final(self).stage == (Stage::Finished {
                    outcome: FileOutcome::Failed { error: FileError::Move { error: e } },
                }),
            },
    {
        // Take the current stage out to move its fields into the next one.
        let mut stage = Stage::Classifying;
        std::mem::swap(&mut self.stage, &mut stage);
        match stage {
            Stage::Moving { classification, .. } => {
                self.stage = match result {
                    Ok(dest) => Stage::Logging {
                        record: ActionLogRequest {
                            filename: self.filename.clone(),
                            source_path: self.path.clone(),
                            dest_path: dest,
                            category_id: None,
                            rule_id: classification.rule_id,
                            confidence_percent: classification.confidence_percent,
                        },
                    },
                    Err(e) => Stage::Finished {
                        outcome: FileOutcome::Failed { error: FileError::Move { error: e } },
                    },
                };
            },
            _ => {},  // excluded by the precondition
        }
    }

    /// The audit log took the record, or did not; the move stands either way.
    pub fn logged(&mut self, ok: bool)
        requires
            old(self).stage is Logging,
        ensures
            final(self).path == old(self).path,
            final(self).filename == old(self).filename,
            old(self).stage matches Stage::Logging { record } ==> final(self).stage == (Stage::Finished {
                outcome: FileOutcome::Moved { record, logged: ok },
            }),
    {
        // Take the current stage out to move its fields into the next one.
        let mut stage = Stage::Classifying;
        std::mem::swap(&mut self.stage, &mut stage);
        match stage {
            Stage::Logging { record } => {
                self.stage = Stage::Finished { outcome: FileOutcome::Moved { record, logged: ok } };
            },
            _ => {},  // excluded by the precondition
        }
    }

    /// Whether the path is now to be marked processed: after a skip, or
    /// after a move whose record was logged.
    pub fn marks_processed(&self) -> (r: bool)
        ensures
            r == marks_processed_spec(self.stage),
    {
        match &self.stage {
            Stage::Finished { outcome } => match outcome {
                FileOutcome::Skipped => true,
                FileOutcome::Moved { logged, .. } => *logged,
                _ => false,
            },
            _ => false,
        }
    }

    /// Whether the run counts toward the day's total: a move whose record
    /// the audit log took.
    pub fn sorted_a_file(&self) -> (r: bool)
        ensures
            r == (self.stage matches Stage::Finished { outcome } && (
            outcome matches FileOutcome::Moved { logged, .. } && logged)),
    {
        match &self.stage {
            Stage::Finished { outcome } => match outcome {
                FileOutcome::Moved { logged, .. } => *logged,
                _ => false,
            },
            _ => false,
        }
    }
}

} // verus!
