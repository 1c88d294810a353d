use filesorter::classifier::{ClassificationMethod, ConflictStrategy, LocalClassifier};
use filesorter::mover::{MoveError, MoveJob, MovePhase};
use filesorter::pipeline::{FileError, FileOutcome, FileRun, Stage};
use filesorter::records::{ActionLogRequest, ProviderError};
use filesorter::text::{contains_text, eq_ignore_ascii_case, is_hidden_name, same_text};
use filesorter::tracker::{admit_arrival, ready_after_settle, ProcessedSet};

#[test]
fn processed_path_is_never_eligible_again() {
    let mut set = ProcessedSet::new();
    assert!(set.should_process("/w/a.txt"));
    set.mark_processed("/w/a.txt");
    assert!(!set.should_process("/w/a.txt"));
    set.mark_processed("/w/b.txt");
    set.mark_processed("/w/a.txt");
    assert!(!set.should_process("/w/a.txt"));
    assert!(!set.should_process("/w/b.txt"));
    assert!(set.should_process("/w/c.txt"));
}

#[test]
fn paused_arrivals_are_dropped() {
    let set = ProcessedSet::new();
    assert!(!admit_arrival(&set, "/w/a.txt", true));
    assert!(admit_arrival(&set, "/w/a.txt", false));
}

#[test]
fn settle_check_filters_hidden_and_vanished() {
    assert!(ready_after_settle(true, "a.txt"));
    assert!(!ready_after_settle(false, "a.txt"));
    assert!(!ready_after_settle(true, ".hidden"));
    assert!(!ready_after_settle(true, "~lock.docx"));
    assert!(is_hidden_name("~x"));
    assert!(!is_hidden_name(""));
    assert!(same_text("ab", "ab"));
    assert!(!same_text("ab", "abc"));
}

#[test]
fn ascii_case_and_substring_helpers() {
    assert!(eq_ignore_ascii_case(".PDF", ".pdf"));
    assert!(eq_ignore_ascii_case("Ärger", "ärger") == false);
    assert!(eq_ignore_ascii_case("", ""));
    assert!(!eq_ignore_ascii_case("ab", "abc"));
    assert!(!eq_ignore_ascii_case("[", "{"));
    assert!(contains_text("report-final.txt", "final"));
    assert!(contains_text("abc", ""));
    assert!(contains_text("abc", "abc"));
    assert!(!contains_text("abc", "abcd"));
    assert!(!contains_text("abc", "ac"));
    assert!(contains_text("aab", "ab"));
}

fn run(job: &mut MoveJob, steps: Vec<Result<(), String>>) {
    for s in steps {
        assert!(!job.is_done());
        job.advance(s);
    }
}

#[test]
fn failed_delete_after_copy_still_moves() {
    let mut job = MoveJob::new("/w/a.pdf".to_string(), "/w/Documents/a.pdf".to_string(), false);
    run(&mut job, vec![Err("cross-device".to_string()), Ok(()), Err("busy".to_string())]);
    assert!(job.is_done());
    assert_eq!(job.finish().unwrap(), "/w/Documents/a.pdf");
}

#[test]
fn rename_success_moves() {
    let mut job = MoveJob::new("s".to_string(), "d".to_string(), true);
    assert!(matches!(job.phase, MovePhase::CreateFolder));
    run(&mut job, vec![Ok(()), Ok(())]);
    assert!(matches!(job.phase, MovePhase::Moved));
}

#[test]
fn rename_and_copy_failure_reports_both() {
    let mut job = MoveJob::new("s".to_string(), "d".to_string(), false);
    run(&mut job, vec![Err("r".to_string()), Err("c".to_string())]);
    match job.finish() {
        Err(MoveError::Transfer { rename_error, copy_error }) => {
            assert_eq!(rename_error, "r");
            assert_eq!(copy_error, "c");
        }
        other => panic!("unexpected {:?}", other),
    }
}

#[test]
fn folder_creation_failure_ends_move() {
    let mut job = MoveJob::new("s".to_string(), "d".to_string(), true);
    run(&mut job, vec![Err("denied".to_string())]);
    assert!(job.is_done());
    assert!(matches!(job.finish(), Err(MoveError::FolderCreation { .. })));
}

fn drive_in_memory(run: &mut FileRun, classifier: &LocalClassifier, taken: &Vec<String>, stem: &str, ext: &str) {
    loop {
        match &run.stage {
            Stage::Settling | Stage::Finished { .. } => return,
            Stage::Classifying => {
                let c = classifier.classify(&run.filename.clone(), &format!(".{}", ext));
                run.classified(Ok(c));
            }
            Stage::Resolving { .. } => run.resolved(taken, stem, ext),
            Stage::Moving { classification, name, .. } => {
                let dest = format!("/watched/{}/{}", classification.destination, name);
                let mut job = MoveJob::new(run.path.clone(), dest, true);
                while !job.is_done() {
                    job.advance(Ok(()));
                }
                run.moved(job.finish());
            }
            Stage::Logging { .. } => run.logged(true),
        }
    }
}

#[test]
fn invoice_end_to_end_once() {
    let classifier = LocalClassifier::new();
    let mut processed = ProcessedSet::new();
    let path = "/watched/invoice.pdf";
    let mut records: Vec<ActionLogRequest> = Vec::new();
    for _trigger in 0..2 {
        let Some(mut run) = FileRun::arrive(&processed, path.to_string(), "invoice.pdf".to_string(), false) else {
            continue;
        };
        run.settled(true);
        drive_in_memory(&mut run, &classifier, &Vec::new(), "invoice", "pdf");
        assert!(run.sorted_a_file());
        assert!(run.marks_processed());
        if let Stage::Finished { outcome: FileOutcome::Moved { record, logged } } = run.stage {
            assert!(logged);
            records.push(record);
        }
        processed.mark_processed(path);
    }
    assert_eq!(records.len(), 1);
    assert_eq!(records[0].dest_path, "/watched/Documents/invoice.pdf");
    assert_eq!(records[0].source_path, "/watched/invoice.pdf");
    assert_eq!(records[0].confidence_percent, 80);
    assert_eq!(records[0].rule_id, None);
    let c = classifier.classify("invoice.pdf", ".pdf");
    assert_eq!(c.method, ClassificationMethod::LocalExtension);
}

#[test]
fn skipped_file_is_marked_but_not_counted() {
    let classifier = LocalClassifier::new();
    let processed = ProcessedSet::new();
    let mut run = FileRun::arrive(&processed, "/w/a.pdf".to_string(), "a.pdf".to_string(), false).unwrap();
    run.settled(true);
    drive_in_memory(&mut run, &classifier, &vec!["a.pdf".to_string()], "a", "pdf");
    assert!(matches!(run.stage, Stage::Finished { outcome: FileOutcome::Skipped }));
    assert!(run.marks_processed());
    assert!(!run.sorted_a_file());
}

#[test]
fn hidden_file_is_dropped_unmarked() {
    let processed = ProcessedSet::new();
    let mut run = FileRun::arrive(&processed, "/w/.x".to_string(), ".x".to_string(), false).unwrap();
    run.settled(true);
    assert!(matches!(run.stage, Stage::Finished { outcome: FileOutcome::Dropped }));
    assert!(!run.marks_processed());
    assert!(FileRun::arrive(&processed, "/w/y".to_string(), "y".to_string(), true).is_none());
}

#[test]
fn provider_error_leaves_path_unmarked() {
    let processed = ProcessedSet::new();
    let mut run = FileRun::arrive(&processed, "/w/y.txt".to_string(), "y.txt".to_string(), false).unwrap();
    run.settled(true);
    run.classified(Err(ProviderError::QuotaExceeded));
    assert!(matches!(
        run.stage,
        Stage::Finished { outcome: FileOutcome::Failed { error: FileError::Provider { error: ProviderError::QuotaExceeded } } }
    ));
    assert!(!run.marks_processed());
    assert!(!run.sorted_a_file());
}

fn run_to_moving(path: &str, filename: &str) -> FileRun {
    let processed = ProcessedSet::new();
    let mut run = FileRun::arrive(&processed, path.to_string(), filename.to_string(), false).unwrap();
    run.settled(true);
    run.classified(Ok(LocalClassifier::new().classify(filename, ".pdf")));
    run.resolved(&Vec::new(), "a", "pdf");
    run
}

#[test]
fn move_failure_leaves_path_unmarked() {
    let mut run = run_to_moving("/w/a.pdf", "a.pdf");
    run.moved(Err(MoveError::Transfer { rename_error: "r".to_string(), copy_error: "c".to_string() }));
    assert!(matches!(run.stage, Stage::Finished { outcome: FileOutcome::Failed { error: FileError::Move { .. } } }));
    assert!(!run.marks_processed());
    assert!(!run.sorted_a_file());
}

#[test]
fn unlogged_move_is_neither_counted_nor_marked() {
    let mut run = run_to_moving("/w/a.pdf", "a.pdf");
    run.moved(Ok("/w/Documents/a.pdf".to_string()));
    run.logged(false);
    match &run.stage {
        Stage::Finished { outcome: FileOutcome::Moved { record, logged } } => {
            assert!(!logged);
            assert_eq!(record.dest_path, "/w/Documents/a.pdf");
        }
        other => panic!("unexpected {:?}", other),
    }
    assert!(!run.marks_processed());
    assert!(!run.sorted_a_file());
}

#[test]
fn logged_move_is_counted_and_marked() {
    let mut run = run_to_moving("/w/a.pdf", "a.pdf");
    run.moved(Ok("/w/Documents/a.pdf".to_string()));
    run.logged(true);
    assert!(run.marks_processed());
    assert!(run.sorted_a_file());
}

#[test]
fn overwrite_run_asks_to_replace() {
    let mut rule_classifier = LocalClassifier::new();
    rule_classifier.set_rules(Vec::new());
    let processed = ProcessedSet::new();
    let mut run = FileRun::arrive(&processed, "/w/a.pdf".to_string(), "a.pdf".to_string(), false).unwrap();
    run.settled(true);
    let mut c = rule_classifier.classify("a.pdf", ".pdf");
    c.conflict_strategy = ConflictStrategy::Overwrite;
    run.classified(Ok(c));
    run.resolved(&vec!["a.pdf".to_string()], "a", "pdf");
    match &run.stage {
        Stage::Moving { name, replace, .. } => {
            assert_eq!(name, "a.pdf");
            assert!(*replace);
        }
        other => panic!("unexpected {:?}", other),
    }
    run.clear_failed("locked".to_string());
    assert!(matches!(run.stage, Stage::Finished { outcome: FileOutcome::Failed { error: FileError::Clear { .. } } }));
}
