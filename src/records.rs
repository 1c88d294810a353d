//! The engine's plain records: requests, audit entries, configuration,
//! local storage and the tally of a batch of moves.

use vstd::prelude::*;
use vstd::string::*;
use crate::classifier::{is_text_extension, LocalRule};
use crate::text::{lower_of, to_lower};

verus! {

/// What the remote service is asked about one file.
#[derive(Clone, Debug)]
pub struct ClassifyRequest {
    pub filename: String,
    /// With its leading dot, or empty.
    pub extension: String,
    pub size_bytes: Option<u64>,
    pub content_preview: Option<String>,
}

impl ClassifyRequest {
    /// A request for one file; `preview` (its first bytes, decoded) is kept
    /// only for text extensions.
    pub fn for_file(
        filename: String,
        extension: String,
        size_bytes: Option<u64>,
        preview: Option<String>,
    ) -> (r: ClassifyRequest)
        ensures
            r.filename == filename,
            r.extension == extension,
            r.size_bytes == size_bytes,
            r.content_preview == (if is_text_extension(lower_of(extension@)) {
                preview
            } else {
                None
            }),
    {
        let keep = crate::classifier::is_text_file(extension.as_str());
        ClassifyRequest {
            filename,
            extension,
            size_bytes,
            content_preview: if keep {
                preview
            } else {
                None
            },
        }
    }
}

/// Why the remote service gave no classification.
#[derive(Clone, Debug)]
pub enum ProviderError {
    /// The plan's limit is reached; retrying will not help.
    QuotaExceeded,
    /// The service answered with a status other than success.
    Status { code: u16 },
    /// The service could not be reached.
    Network { message: String },
    /// The answer could not be read.
    Parse { message: String },
}

/// The status check of a classification answer: 402 means the quota is
/// spent, any other status outside 200..=299 is a failure.
pub open spec fn status_outcome(code: u16) -> Result<(), ProviderError> {
    if code == 402 {
        Err(ProviderError::QuotaExceeded)
    } else if 200 <= code <= 299 {
        Ok(())
    } else {
        Err(ProviderError::Status { code })
    }
}

/// Checks the HTTP status of a classification answer.
pub fn check_classify_status(code: u16) -> (r: Result<(), ProviderError>)
    ensures
        r == status_outcome(code),
{
    if code == 402 {
        Err(ProviderError::QuotaExceeded)
    } else if 200 <= code && code <= 299 {
        Ok(())
    } else {
        Err(ProviderError::Status { code })
    }
}

/// The audit entry of one completed move.
#[derive(Clone, Debug)]
pub struct ActionLogRequest {
    pub filename: String,
    pub source_path: String,
    pub dest_path: String,
    pub category_id: Option<String>,
    pub rule_id: Option<String>,
    /// Confidence in hundredths, from 0 to 100.
    pub confidence_percent: u32,
}

/// A completed move kept locally until it can be logged remotely.
#[derive(Clone, Debug)]
pub struct PendingAction {
    pub filename: String,
    pub source_path: String,
    pub dest_path: String,
    /// Confidence in hundredths, from 0 to 100.
    pub confidence_percent: u32,
    /// Seconds since the Unix epoch.
    pub timestamp: i64,
}

/// Rules and queued actions kept on this machine.
#[derive(Debug)]
pub struct LocalStorage {
    pub cached_rules: Vec<LocalRule>,
    pub pending_actions: Vec<PendingAction>,
}

impl LocalStorage {
    /// Nothing cached, nothing queued.
    pub fn new() -> (r: LocalStorage)
        ensures
            r.cached_rules@.len() == 0,
            r.pending_actions@.len() == 0,
    {
        LocalStorage { cached_rules: Vec::new(), pending_actions: Vec::new() }
    }

    /// Replaces the cached rules in full.
    pub fn cache_rules(&mut self, rules: Vec<LocalRule>)
        ensures
            final(self).cached_rules@ == rules@,
            final(self).pending_actions@ == old(self).pending_actions@,
    {
        self.cached_rules = rules;
    }

    /// Queues an action at the end.
    pub fn add_pending_action(&mut self, action: PendingAction)
        ensures
            final(self).pending_actions@ == old(self).pending_actions@.push(action),
            final(self).cached_rules@ == old(self).cached_rules@,
    {
        self.pending_actions.push(action);
    }

    /// Empties the queue.
    pub fn clear_pending_actions(&mut self)
        ensures
            final(self).pending_actions@.len() == 0,
            final(self).cached_rules@ == old(self).cached_rules@,
    {
        self.pending_actions.clear();
    }
}

/// The agent's settings.
#[derive(Clone, Debug)]
pub struct AppConfig {
    pub api_url: String,
    pub dashboard_url: String,
    pub access_token: Option<String>,
    pub refresh_token: Option<String>,
    pub watched_folders: Vec<String>,
    pub show_notifications: bool,
    pub start_on_boot: bool,
    /// Settle delay before an arrived file is handled, in seconds.
    pub processing_delay_seconds: u64,
}

impl AppConfig {
    /// The settings of a fresh install: local service addresses, logged
    /// out, watching `download_folder`, a settle delay of 3 seconds.
    pub fn with_download_folder(download_folder: String) -> (r: AppConfig)
        ensures
            r.api_url@ == "http://localhost:8085"@,
            r.dashboard_url@ == "http://localhost:3000"@,
            r.access_token is None,
            r.refresh_token is None,
            r.watched_folders@ == seq![download_folder],
            r.show_notifications,
            !r.start_on_boot,
            r.processing_delay_seconds == 3,
    {
        let mut watched_folders: Vec<String> = Vec::new();
        watched_folders.push(download_folder);
        AppConfig {
            api_url: String::from_str("http://localhost:8085"),
            dashboard_url: String::from_str("http://localhost:3000"),
            access_token: None,
            refresh_token: None,
            watched_folders,
            show_notifications: true,
            start_on_boot: false,
            processing_delay_seconds: 3,
        }
    }
}

/// One move asked for by a batch organize.
#[derive(Clone, Debug)]
pub struct MoveAction {
    pub source_path: String,
    pub dest_folder: String,
    pub filename: String,
}

/// The tally of a batch of moves.
#[derive(Clone, Debug)]
pub struct MoveResult {
    pub success: bool,
    pub moved_count: u32,
    pub skipped_count: u32,
    pub errors: Vec<String>,
}

/// `b` is `a` with one more moved file.
pub open spec fn moved_recorded(a: MoveResult, b: MoveResult) -> bool {
    &&& b.wf()
    &&& b.moved_count == a.moved_count.saturating_add(1)
    &&& b.skipped_count == a.skipped_count
    &&& b.errors@ == a.errors@
    &&& b.success == a.success
}

/// `b` is `a` with one more file left in place because its destination was taken.
pub open spec fn skip_recorded(a: MoveResult, b: MoveResult) -> bool {
    &&& b.wf()
    &&& b.skipped_count == a.skipped_count.saturating_add(1)
    &&& b.moved_count == a.moved_count
    &&& b.errors@ == a.errors@
    &&& b.success == a.success
}

/// `b` is `a` with one more file left in place because of the error `message`.
pub open spec fn failure_recorded(a: MoveResult, b: MoveResult, message: String) -> bool {
    &&& b.wf()
    &&& !b.success
    &&& b.skipped_count == a.skipped_count.saturating_add(1)
    &&& b.moved_count == a.moved_count
    &&& b.errors@ == a.errors@.push(message)
}

impl MoveResult {
    /// The batch is a success exactly when no error was recorded.
    pub open spec fn wf(&self) -> bool {
        self.success == (self.errors@.len() == 0)
    }

    /// Nothing done yet.
    pub fn new() -> (r: MoveResult)
        ensures
            r.wf(),
            r.success,
            r.moved_count == 0,
            r.skipped_count == 0,
            r.errors@.len() == 0,
    {
        MoveResult { success: true, moved_count: 0, skipped_count: 0, errors: Vec::new() }
    }

    /// One file moved (the count stops at its maximum).
    pub fn record_moved(&mut self)
        requires
            old(self).wf(),
        ensures
            moved_recorded(*old(self), *final(self)),
    {
        self.moved_count = self.moved_count.saturating_add(1);
    }

    /// One file left in place because its destination was taken.
    pub fn record_skipped(&mut self)
        requires
            old(self).wf(),
        ensures
            skip_recorded(*old(self), *final(self)),
    {
        self.skipped_count = self.skipped_count.saturating_add(1);
    }

    /// One file left in place because of an error; the batch is no longer
    /// a success.
    pub fn record_failure(&mut self, message: String)
        requires
            old(self).wf(),
        ensures
            failure_recorded(*old(self), *final(self), message),
    {
        self.errors.push(message);
        self.skipped_count = self.skipped_count.saturating_add(1);
        self.success = false;
    }
}

/// The RFC 3339 text of a UTC instant given in seconds and nanoseconds
/// since the Unix epoch, as chrono writes it.
pub uninterp spec fn rfc3339_text(secs: int, nanos: int) -> Seq<char>;

/// Instants that chrono can always represent: nanoseconds below one
/// second, and seconds within about 250,000 years of the epoch (chrono's
/// dates reach the years -262143 to 262142).
pub open spec fn representable_instant(secs: int, nanos: int) -> bool {
    &&& 0 <= nanos < 1_000_000_000
    &&& -8_000_000_000_000 <= secs <= 8_000_000_000_000
}

/// Relies on `chrono::DateTime::<Utc>::from_timestamp` (`None` only for
/// out-of-range seconds or invalid nanoseconds) and `DateTime::to_rfc3339`.
#[verifier::external_body]
fn rfc3339_utc(secs: i64, nanos: u32) -> (r: Option<String>)
    ensures
        r matches Some(t) ==> t@ == rfc3339_text(secs as int, nanos as int),
        representable_instant(secs as int, nanos as int) ==> r is Some,
{
    chrono::DateTime::<chrono::Utc>::from_timestamp(secs, nanos).map(|d| d.to_rfc3339())
}

/// A file offered for batch organizing.
#[derive(Clone, Debug)]
pub struct FileInfoForOrganize {
    pub filename: String,
    /// Lower-cased, with its leading dot, or empty.
    pub extension: String,
    pub size_bytes: u64,
    pub path: String,
    pub modified: Option<String>,
}

/// The extension as listed: a dot and the lower-cased extension, or empty.
pub open spec fn listed_extension(raw: Option<Seq<char>>) -> Seq<char> {
    match raw {
        Some(e) => seq!['.'] + lower_of(e),
        None => Seq::empty(),
    }
}

impl FileInfoForOrganize {
    /// The entry for one regular file of a scanned folder: `None` for a
    /// hidden file (name starting with `.`). `raw_extension` is the
    /// extension without its dot, `size_bytes` and `modified` (seconds and
    /// nanoseconds since the epoch) what the file system told, if anything.
    pub fn from_entry(
        filename: String,
        raw_extension: Option<&str>,
        size_bytes: Option<u64>,
        path: String,
        modified: Option<(i64, u32)>,
    ) -> (r: Option<FileInfoForOrganize>)
        ensures
            (filename@.len() > 0 && filename@[0] == '.') <==> r is None,
            r matches Some(info) ==> {
                &&& info.filename == filename
                &&& info.extension@ == listed_extension(
                    match raw_extension {
                        Some(e) => Some(e@),
                        None => None,
                    },
                )
                &&& info.size_bytes == (match size_bytes {
                    Some(n) => n,
                    None => 0,
                })
                &&& info.path == path
                &&& (modified is None ==> info.modified is None)
                &&& (modified matches Some(m) && representable_instant(m.0 as int, m.1 as int)
                    ==> info.modified is Some)
                &&& (info.modified matches Some(t) ==> modified matches Some(m) && t@ == rfc3339_text(
                    m.0 as int,
                    m.1 as int,
                ))
            },
    {
        if filename.unicode_len() > 0 && filename.get_char(0) == '.' {
            return None;
        }
        let extension = match raw_extension {
            Some(e) => {
                let mut dotted = String::from_str(".");
                proof {
                    reveal_strlit(".");
                }
                let lowered = to_lower(e);
                dotted.append(lowered.as_str());
                dotted
            },
            None => String::new(),
        };
        let size = match size_bytes {
            Some(n) => n,
            None => 0,
        };
        let stamp = match modified {
            Some((secs, nanos)) => rfc3339_utc(secs, nanos),
            None => None,
        };
        Some(FileInfoForOrganize { filename, extension, size_bytes: size, path, modified: stamp })
    }
}

/// Default read limit of a content request, in bytes.
pub const DEFAULT_READ_LIMIT: usize = 1048576;

/// The bytes of a content read, cut to `max_bytes` (one mebibyte when none
/// is given).
pub fn clip_content(content: Vec<u8>, max_bytes: Option<usize>) -> (r: Vec<u8>)
    ensures
        ({
            let limit = match max_bytes {
                Some(m) => m,
                None => DEFAULT_READ_LIMIT,
            };
            r@ == if content@.len() > limit {
                content@.take(limit as int)
            } else {
                content@
            }
        }),
{
    let limit = match max_bytes {
        Some(m) => m,
        None => DEFAULT_READ_LIMIT,
    };
    let mut out = content;
    if out.len() > limit {
        out.truncate(limit);
    }
    out
}

} // verus!
