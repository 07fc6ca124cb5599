//! What an export is asked to do and what it reports: requests, log
//! entries, error codes, terminal responses and progress events.

use crate::text::{copy_opt, opt_text};
use vstd::prelude::*;

verus! {

/// A delivery backend.
#[derive(Clone, Copy, Debug, PartialEq, Eq, Structural)]
pub enum ExportTarget {
    Git,
    Ftp,
    Netlify,
    Vercel,
}

/// A request to export one document.
#[derive(Clone, Debug)]
pub struct ExportRequest {
    pub file_path: String,
    pub target: ExportTarget,
    pub profile: Option<String>,
}

/// Why an export failed.
#[derive(Clone, Copy, Debug, PartialEq, Eq, Structural)]
pub enum ExportErrorCode {
    ExportCancelled,
    ConfigMissing,
    ConfigInvalid,
    UnsupportedConfigVersion,
    TargetDisabled,
    ProfileMissing,
    ProfileDisabled,
    ProfileRequired,
    FileMissing,
    FileNotInRepo,
    GitRepoMissing,
    GitDirty,
    GitFailed,
    FtpFailed,
    FtpMissingUsername,
    FtpMissingPassword,
    NetlifyMissingToken,
    NetlifyFailed,
    VercelFailed,
}

/// The error of a failed export.
#[derive(Clone, Debug)]
pub struct ExportError {
    pub code: ExportErrorCode,
    pub message: String,
    pub detail: Option<String>,
}

/// The weight of a log entry.
#[derive(Clone, Copy, Debug, PartialEq, Eq, Structural)]
pub enum ExportLogLevel {
    Info,
    Warn,
    Error,
}

/// One entry of an export's diagnostic trail.
#[derive(Clone, Debug)]
pub struct ExportLog {
    pub level: ExportLogLevel,
    pub message: String,
    pub detail: Option<String>,
}

/// The terminal result of an export.
#[derive(Clone, Debug)]
pub struct ExportResponse {
    pub ok: bool,
    pub summary: String,
    pub logs: Vec<ExportLog>,
    pub error: Option<ExportError>,
}

/// The completion event of a job.
#[derive(Clone, Debug)]
pub struct ExportFinished {
    pub job_id: String,
    pub response: ExportResponse,
}

/// An error, as text.
pub struct ErrorView {
    pub code: ExportErrorCode,
    pub message: Seq<char>,
    pub detail: Option<Seq<char>>,
}

/// A log entry, as text.
pub struct LogView {
    pub level: ExportLogLevel,
    pub message: Seq<char>,
    pub detail: Option<Seq<char>>,
}

/// A response, as text.
pub struct ResponseView {
    pub ok: bool,
    pub summary: Seq<char>,
    pub logs: Seq<LogView>,
    pub error: Option<ErrorView>,
}

impl View for ExportError {
    type V = ErrorView;

    open spec fn view(&self) -> ErrorView {
        ErrorView { code: self.code, message: self.message@, detail: opt_text(self.detail) }
    }
}

impl View for ExportLog {
    type V = LogView;

    open spec fn view(&self) -> LogView {
        LogView { level: self.level, message: self.message@, detail: opt_text(self.detail) }
    }
}

/// The entries of `logs`, as text.
pub open spec fn log_views(logs: Seq<ExportLog>) -> Seq<LogView> {
    logs.map_values(|l: ExportLog| l@)
}

impl View for ExportResponse {
    type V = ResponseView;

    open spec fn view(&self) -> ResponseView {
        ResponseView {
            ok: self.ok,
            summary: self.summary@,
            logs: log_views(self.logs@),
            error: match self.error {
                Some(e) => Some(e@),
                None => None,
            },
        }
    }
}

/// An informational entry.
pub open spec fn info(message: Seq<char>, detail: Option<Seq<char>>) -> LogView {
    LogView { level: ExportLogLevel::Info, message, detail }
}

/// A warning entry.
pub open spec fn warning(message: Seq<char>, detail: Option<Seq<char>>) -> LogView {
    LogView { level: ExportLogLevel::Warn, message, detail }
}

/// The response of an export that succeeded.
pub open spec fn success(summary: Seq<char>, logs: Seq<LogView>) -> ResponseView {
    ResponseView { ok: true, summary, logs, error: None }
}

/// The response of an export that failed: the message is also the summary.
pub open spec fn failure(
    code: ExportErrorCode,
    message: Seq<char>,
    detail: Option<Seq<char>>,
    logs: Seq<LogView>,
) -> ResponseView {
    ResponseView {
        ok: false,
        summary: message,
        logs,
        error: Some(ErrorView { code, message, detail }),
    }
}

/// The response of an export that was cancelled: a failure without detail,
/// whose trail ends with a warning.
pub open spec fn cancellation(message: Seq<char>, logs: Seq<LogView>) -> ResponseView {
    failure(
        ExportErrorCode::ExportCancelled,
        message,
        None,
        logs.push(warning("Export cancelled"@, None)),
    )
}

/// Whether a response has one of the two shapes that a response can have:
/// success without an error, or failure with an error whose message is the
/// summary.
pub open spec fn coherent(r: ResponseView) -> bool {
    if r.ok {
        r.error is None
    } else {
        r.error is Some && r.error.unwrap().message == r.summary
    }
}

/// Appends an informational entry to the trail.
pub fn log_info(logs: &mut Vec<ExportLog>, message: &str, detail: Option<String>)
    ensures
        log_views(final(logs)@) == log_views(old(logs)@).push(info(message@, opt_text(detail))),
{
    let entry = ExportLog {
        level: ExportLogLevel::Info,
        message: String::from_str(message),
        detail,
    };
    logs.push(entry);
    assert(log_views(logs@) =~= log_views(old(logs)@).push(entry@));
}

/// Appends a warning to the trail.
pub fn log_warn(logs: &mut Vec<ExportLog>, message: &str, detail: Option<String>)
    ensures
        log_views(final(logs)@) == log_views(old(logs)@).push(
            warning(message@, opt_text(detail)),
        ),
{
    let entry = ExportLog {
        level: ExportLogLevel::Warn,
        message: String::from_str(message),
        detail,
    };
    logs.push(entry);
    assert(log_views(logs@) =~= log_views(old(logs)@).push(entry@));
}

/// A copy of the trail.
pub fn copy_logs(logs: &Vec<ExportLog>) -> (r: Vec<ExportLog>)
    ensures
        log_views(r@) == log_views(logs@),
{
    let mut r: Vec<ExportLog> = Vec::new();
    let mut i: usize = 0;
    while i < logs.len()
        invariant
            i <= logs.len(),
            r.len() == i,
            forall|j: int| 0 <= j < i ==> r@[j]@ == logs@[j]@,
        decreases logs.len() - i,
    {
        let entry = &logs[i];
        r.push(
            ExportLog {
                level: entry.level,
                message: entry.message.clone(),
                detail: copy_opt(&entry.detail),
            },
        );
        i += 1;
    }
    assert(log_views(r@) =~= log_views(logs@));
    r
}

/// The response of an export that succeeded.
pub fn success_response(summary: &str, logs: Vec<ExportLog>) -> (r: ExportResponse)
    ensures
        r@ == success(summary@, log_views(logs@)),
{
    ExportResponse { ok: true, summary: String::from_str(summary), logs, error: None }
}

/// The response of an export that failed.
pub fn error_response(
    code: ExportErrorCode,
    message: &str,
    detail: Option<String>,
    logs: Vec<ExportLog>,
) -> (r: ExportResponse)
    ensures
        r@ == failure(code, message@, opt_text(detail), log_views(logs@)),
{
    ExportResponse {
        ok: false,
        summary: String::from_str(message),
        logs,
        error: Some(ExportError { code, message: String::from_str(message), detail }),
    }
}

/// Records the cancellation in the trail and builds the response of an
/// export that was cancelled.
pub fn cancelled_response(message: &str, logs: &mut Vec<ExportLog>) -> (r: ExportResponse)
    ensures
        r@ == cancellation(message@, log_views(old(logs)@)),
        log_views(final(logs)@) == log_views(old(logs)@).push(
            warning("Export cancelled"@, None),
        ),
{
    log_warn(logs, "Export cancelled", None);
    ExportResponse {
        ok: false,
        summary: String::from_str(message),
        logs: copy_logs(logs),
        error: Some(
            ExportError {
                code: ExportErrorCode::ExportCancelled,
                message: String::from_str(message),
                detail: None,
            },
        ),
    }
}

/// How far a transfer has come.
#[derive(Clone, Debug)]
pub struct ExportProgress {
    pub job_id: String,
    pub sent_bytes: u64,
    pub total_bytes: u64,
}

/// The whole percents of `total` that `sent` makes, 0 where `total` is 0.
pub open spec fn percent_of(sent: nat, total: nat) -> nat {
    if total == 0 {
        0
    } else {
        sent * 100 / total
    }
}

impl ExportProgress {
    /// The share of the transfer that is done, in whole percents rounded
    /// down; 0 where nothing is to be sent.
    pub fn percent(&self) -> (p: u128)
        ensures
            p == percent_of(self.sent_bytes as nat, self.total_bytes as nat),
    {
        if self.total_bytes == 0 {
            0
        } else {
            let sent: u128 = self.sent_bytes as u128;
            let total: u128 = self.total_bytes as u128;
            sent * 100 / total
        }
    }
}

} // verus!
