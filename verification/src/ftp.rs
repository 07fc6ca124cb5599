//! The file-transfer target: what is needed before an upload can start, in
//! which order it is asked for, and what the upload's outcome means.

use crate::config::{ExportConfig, FtpProtocol, DEFAULT_TRANSFER_PORT};
use crate::paths::{file_name, path_file_name};
use crate::response::{
    cancellation,
    cancelled_response,
    coherent,
    error_response,
    failure,
    info,
    log_info,
    log_views,
    success,
    success_response,
    ExportErrorCode,
    ExportLog,
    ExportRequest,
    ExportResponse,
    LogView,
    ResponseView,
};
use crate::text::{
    blank,
    copy_opt,
    ends_with_char,
    is_blank,
    join2,
    opt_as_str,
    opt_text,
    same_text,
    trim,
    trimmed,
};
use vstd::prelude::*;

verus! {

/// The environment variable that names the user where the profile does not.
pub const USER_VARIABLE: &'static str = "USER";

/// The environment variable that holds the password of a plain transfer
/// where the secret store holds none.
pub const PASSWORD_VARIABLE: &'static str = "ERNEST_FTP_PASSWORD";

/// The failure text of an upload that was cancelled.
pub const UPLOAD_CANCELLED: &'static str = "export_cancelled";

/// The failure text of an upload that could not authenticate.
pub const UPLOAD_AUTH_FAILED: &'static str = "ssh_auth_failed";

/// The remote file that a document goes to: where the configured path ends
/// in a slash, the document's file name in that directory (`export.md` for
/// a path without a file name), else the configured path itself.
pub open spec fn remote_target(remote_path: Seq<char>, file_path: Seq<char>) -> Seq<char> {
    if remote_path.len() > 0 && remote_path.last() == '/' {
        remote_path + match path_file_name(file_path) {
            Some(name) => name,
            None => "export.md"@,
        }
    } else {
        remote_path
    }
}

/// Resolves the remote file that a document goes to.
pub fn resolve_remote_path(remote_path: &str, file_path: &str) -> (r: String)
    ensures
        r@ == remote_target(remote_path@, file_path@),
{
    if ends_with_char(remote_path, '/') {
        match file_name(file_path) {
            Some(name) => join2(remote_path, name.as_str()),
            None => join2(remote_path, "export.md"),
        }
    } else {
        String::from_str(remote_path)
    }
}

/// The user of a transfer: the configured name without the white space
/// around it, or, where that is blank, the fallback, or the empty string.
pub open spec fn user_name(configured: Seq<char>, fallback: Option<Seq<char>>) -> Seq<char> {
    if !is_blank(configured) {
        trimmed(configured)
    } else {
        match fallback {
            Some(name) => name,
            None => Seq::empty(),
        }
    }
}

/// Resolves the user of a transfer; `fallback` is the user that the
/// environment names.
pub fn resolve_username(configured: &str, fallback: Option<String>) -> (r: String)
    ensures
        r@ == user_name(configured@, opt_text(fallback)),
{
    if !blank(configured) {
        trim(configured)
    } else {
        match fallback {
            Some(name) => name,
            None => String::new(),
        }
    }
}

/// What a file-transfer export waits for.
#[derive(Clone, Copy, Debug, PartialEq, Eq, Structural)]
pub enum FtpPending {
    /// The password that the secret store holds for the profile.
    Credential,
    /// The value of the user variable.
    UserName,
    /// The size of the document.
    FileSize,
    /// The value of the password variable.
    Password,
    /// The outcome of the upload over the secure protocol.
    SecureUpload,
    /// The outcome of the upload over the plain protocol.
    PlainUpload,
}

/// What came back from outside.
#[derive(Debug)]
pub enum FtpEvent {
    Credential(Result<Option<String>, String>),
    Variable(Option<String>),
    FileSize(Result<u64, String>),
    Upload(Result<(), String>),
}

/// An event, as text.
pub enum FtpEventView {
    Credential(Result<Option<Seq<char>>, Seq<char>>),
    Variable(Option<Seq<char>>),
    FileSize(Result<u64, Seq<char>>),
    Upload(Result<(), Seq<char>>),
}

impl View for FtpEvent {
    type V = FtpEventView;

    open spec fn view(&self) -> FtpEventView {
        match self {
            FtpEvent::Credential(Ok(p)) => FtpEventView::Credential(Ok(opt_text(*p))),
            FtpEvent::Credential(Err(e)) => FtpEventView::Credential(Err(e@)),
            FtpEvent::Variable(v) => FtpEventView::Variable(opt_text(*v)),
            FtpEvent::FileSize(Ok(n)) => FtpEventView::FileSize(Ok(*n)),
            FtpEvent::FileSize(Err(e)) => FtpEventView::FileSize(Err(e@)),
            FtpEvent::Upload(Ok(_)) => FtpEventView::Upload(Ok(())),
            FtpEvent::Upload(Err(e)) => FtpEventView::Upload(Err(e@)),
        }
    }
}

/// A file-transfer export that waits for something from outside.
#[derive(Debug)]
pub struct FtpExport {
    pub pending: FtpPending,
    pub protocol: FtpProtocol,
    pub host: String,
    pub port: u16,
    pub username: String,
    pub remote_path: String,
    pub file_path: String,
    pub profile: String,
    pub stored_password: Option<String>,
    pub password: String,
    pub total_bytes: u64,
    pub logs: Vec<ExportLog>,
}

/// A waiting export, as text.
pub struct FtpExportView {
    pub pending: FtpPending,
    pub protocol: FtpProtocol,
    pub host: Seq<char>,
    pub port: u16,
    pub username: Seq<char>,
    pub remote_path: Seq<char>,
    pub file_path: Seq<char>,
    pub profile: Seq<char>,
    pub stored_password: Option<Seq<char>>,
    pub password: Seq<char>,
    pub total_bytes: u64,
    pub logs: Seq<LogView>,
}

impl View for FtpExport {
    type V = FtpExportView;

    open spec fn view(&self) -> FtpExportView {
        FtpExportView {
            pending: self.pending,
            protocol: self.protocol,
            host: self.host@,
            port: self.port,
            username: self.username@,
            remote_path: self.remote_path@,
            file_path: self.file_path@,
            profile: self.profile@,
            stored_password: opt_text(self.stored_password),
            password: self.password@,
            total_bytes: self.total_bytes,
            logs: log_views(self.logs@),
        }
    }
}

/// Where a file-transfer export stands.
#[derive(Debug)]
pub enum FtpStep {
    Run(FtpExport),
    Done(ExportResponse),
}

/// A step, as text.
pub enum FtpStepView {
    Run(FtpExportView),
    Done(ResponseView),
}

impl View for FtpStep {
    type V = FtpStepView;

    open spec fn view(&self) -> FtpStepView {
        match self {
            FtpStep::Run(e) => FtpStepView::Run(e@),
            FtpStep::Done(r) => FtpStepView::Done(r@),
        }
    }
}

/// How the file-transfer export of the document at `file_path` begins.
/// The section must be enabled; a profile must be named, which must exist,
/// be enabled, and have a host and a remote path; a cancelled export ends
/// here; else the stored password is asked for.
pub open spec fn ftp_begin(
    config: ExportConfig,
    file_path: Seq<char>,
    profile_name: Option<Seq<char>>,
    cancelled: bool,
    logs: Seq<LogView>,
) -> FtpStepView {
    if config.ftp is None || !config.ftp.unwrap().enabled {
        FtpStepView::Done(
            failure(ExportErrorCode::TargetDisabled, "FTP export is disabled"@, None, logs),
        )
    } else if profile_name is None {
        FtpStepView::Done(
            failure(
                ExportErrorCode::ProfileRequired,
                "FTP export requires a profile"@,
                None,
                logs,
            ),
        )
    } else {
        let ftp = config.ftp.unwrap();
        let name = profile_name.unwrap();
        if !ftp.profiles.named.contains(name) {
            FtpStepView::Done(
                failure(
                    ExportErrorCode::ProfileMissing,
                    "FTP profile not found"@,
                    Some(name),
                    logs,
                ),
            )
        } else {
            let profile = ftp.profiles.named.lookup(name);
            if !profile.enabled {
                FtpStepView::Done(
                    failure(
                        ExportErrorCode::ProfileDisabled,
                        "FTP profile is disabled"@,
                        Some(name),
                        logs,
                    ),
                )
            } else if profile.host is None {
                FtpStepView::Done(
                    failure(
                        ExportErrorCode::ConfigInvalid,
                        "Invalid FTP profile"@,
                        Some("Missing FTP host"@),
                        logs,
                    ),
                )
            } else if profile.remote_path is None {
                FtpStepView::Done(
                    failure(
                        ExportErrorCode::ConfigInvalid,
                        "Invalid FTP profile"@,
                        Some("Missing remote path"@),
                        logs,
                    ),
                )
            } else if cancelled {
                FtpStepView::Done(cancellation("Export cancelled"@, logs))
            } else {
                FtpStepView::Run(
                    FtpExportView {
                        pending: FtpPending::Credential,
                        protocol: ftp.merged_protocol(),
                        host: profile.host.unwrap()@,
                        port: if profile.port is Some {
                            profile.port.unwrap()
                        } else {
                            DEFAULT_TRANSFER_PORT
                        },
                        username: if profile.username is Some {
                            profile.username.unwrap()@
                        } else {
                            Seq::empty()
                        },
                        remote_path: profile.remote_path.unwrap()@,
                        file_path,
                        profile: name,
                        stored_password: None,
                        password: Seq::empty(),
                        total_bytes: 0,
                        logs,
                    },
                )
            }
        }
    }
}

/// The step once the user is known: without a user the export fails, else
/// the remote file is fixed and the size of the document is asked for.
pub open spec fn with_user(e: FtpExportView, user: Seq<char>) -> FtpStepView {
    if user.len() == 0 {
        FtpStepView::Done(
            failure(ExportErrorCode::FtpMissingUsername, "FTP username is missing"@, None, e.logs),
        )
    } else {
        FtpStepView::Run(
            FtpExportView {
                pending: FtpPending::FileSize,
                username: user,
                remote_path: remote_target(e.remote_path, e.file_path),
                ..e
            },
        )
    }
}

/// The step once the password of a plain transfer is known: without one
/// the export fails, else the connection is announced and the upload is
/// asked for.
pub open spec fn with_password(e: FtpExportView, password: Seq<char>) -> FtpStepView {
    if password.len() == 0 {
        FtpStepView::Done(
            failure(
                ExportErrorCode::FtpMissingPassword,
                "FTP password missing (set in app)"@,
                None,
                e.logs,
            ),
        )
    } else {
        FtpStepView::Run(
            FtpExportView {
                pending: FtpPending::PlainUpload,
                password,
                logs: e.logs.push(info("Connecting via FTP"@, Some(e.host))),
                ..e
            },
        )
    }
}

/// What an event means for the export. An event that the export does not
/// wait for changes nothing.
pub open spec fn ftp_advance(e: FtpExportView, event: FtpEventView) -> FtpStepView {
    match (e.pending, event) {
        (FtpPending::Credential, FtpEventView::Credential(Ok(stored))) => {
            let e = FtpExportView { stored_password: stored, ..e };
            if !is_blank(e.username) {
                with_user(e, trimmed(e.username))
            } else {
                FtpStepView::Run(FtpExportView { pending: FtpPending::UserName, ..e })
            }
        },
        (FtpPending::Credential, FtpEventView::Credential(Err(err))) => FtpStepView::Done(
            failure(
                ExportErrorCode::FtpFailed,
                "Unable to access credential storage"@,
                Some(err),
                e.logs,
            ),
        ),
        (FtpPending::UserName, FtpEventView::Variable(value)) => with_user(
            e,
            user_name(e.username, value),
        ),
        (FtpPending::FileSize, FtpEventView::FileSize(Ok(size))) => {
            let e = FtpExportView { total_bytes: size, ..e };
            match e.protocol {
                FtpProtocol::Sftp => FtpStepView::Run(
                    FtpExportView {
                        pending: FtpPending::SecureUpload,
                        logs: e.logs.push(info("Connecting via SFTP"@, Some(e.host))),
                        ..e
                    },
                ),
                FtpProtocol::Ftp => match e.stored_password {
                    Some(password) => with_password(e, password),
                    None => FtpStepView::Run(FtpExportView { pending: FtpPending::Password, ..e }),
                },
            }
        },
        (FtpPending::FileSize, FtpEventView::FileSize(Err(err))) => FtpStepView::Done(
            failure(
                ExportErrorCode::FtpFailed,
                "Unable to read file metadata"@,
                Some(err),
                e.logs,
            ),
        ),
        (FtpPending::Password, FtpEventView::Variable(value)) => with_password(
            e,
            match value {
                Some(password) => password,
                None => Seq::empty(),
            },
        ),
        (FtpPending::SecureUpload, FtpEventView::Upload(Ok(_))) => FtpStepView::Done(
            success("SFTP export completed"@, e.logs),
        ),
        (FtpPending::SecureUpload, FtpEventView::Upload(Err(err))) => {
            if err == UPLOAD_CANCELLED@ {
                FtpStepView::Done(cancellation("Export cancelled"@, e.logs))
            } else if err == UPLOAD_AUTH_FAILED@ && e.stored_password is None {
                FtpStepView::Done(
                    failure(
                        ExportErrorCode::FtpMissingPassword,
                        "SFTP password missing (set in app or use SSH agent)"@,
                        None,
                        e.logs,
                    ),
                )
            } else {
                FtpStepView::Done(
                    failure(
                        ExportErrorCode::FtpFailed,
                        "SFTP export failed"@,
                        Some(err),
                        e.logs,
                    ),
                )
            }
        },
        (FtpPending::PlainUpload, FtpEventView::Upload(Ok(_))) => FtpStepView::Done(
            success("FTP export completed"@, e.logs),
        ),
        (FtpPending::PlainUpload, FtpEventView::Upload(Err(err))) => FtpStepView::Done(
            failure(ExportErrorCode::FtpFailed, "FTP export failed"@, Some(err), e.logs),
        ),
        _ => FtpStepView::Run(e),
    }
}

/// The trail of a step.
pub open spec fn ftp_step_logs(step: FtpStepView) -> Seq<LogView> {
    match step {
        FtpStepView::Run(e) => e.logs,
        FtpStepView::Done(r) => r.logs,
    }
}

/// Every export ends with a response of one of the two shapes, success or
/// failure with a code, and with the whole trail: what was logged before a
/// step is still there after it. The size of the document is asked for
/// only once a user is known, an upload is asked for only once the size is
/// known, and one over the plain protocol only with a password.
pub proof fn lemma_ftp_responses(
    config: ExportConfig,
    file_path: Seq<char>,
    profile_name: Option<Seq<char>>,
    logs: Seq<LogView>,
    e: FtpExportView,
    event: FtpEventView,
    cancelled: bool,
)
    ensures
        logs.is_prefix_of(ftp_step_logs(ftp_begin(config, file_path, profile_name, cancelled, logs))),
        e.logs.is_prefix_of(ftp_step_logs(ftp_advance(e, event))),
        ftp_begin(config, file_path, profile_name, cancelled, logs) is Done ==> coherent(
            ftp_begin(config, file_path, profile_name, cancelled, logs)->Done_0,
        ),
        ftp_advance(e, event) is Done ==> coherent(ftp_advance(e, event)->Done_0),
        match ftp_advance(e, event) {
            FtpStepView::Run(next) => {
                &&& next.pending == FtpPending::SecureUpload && e.pending != next.pending
                    ==> e.pending == FtpPending::FileSize
                &&& next.pending == FtpPending::PlainUpload && e.pending != next.pending
                    ==> (e.pending == FtpPending::FileSize || e.pending == FtpPending::Password)
                    && next.password.len() > 0
                &&& next.pending == FtpPending::FileSize && e.pending != next.pending
                    ==> next.username.len() > 0
            },
            FtpStepView::Done(_) => true,
        },
{
}

/// Begins a file-transfer export. `cancelled` is the cancellation flag as
/// it stands now.
pub fn run_ftp_export(
    config: &ExportConfig,
    request: &ExportRequest,
    cancelled: bool,
    logs: Vec<ExportLog>,
) -> (step: FtpStep)
    ensures
        step@ == ftp_begin(
            *config,
            request.file_path@,
            opt_text(request.profile),
            cancelled,
            log_views(logs@),
        ),
{
    let mut logs = logs;
    let ftp = match &config.ftp {
        Some(ftp) => ftp,
        None => {
            return FtpStep::Done(
                error_response(
                    ExportErrorCode::TargetDisabled,
                    "FTP export is disabled",
                    None,
                    logs,
                ),
            );
        },
    };
    if !ftp.enabled {
        return FtpStep::Done(
            error_response(ExportErrorCode::TargetDisabled, "FTP export is disabled", None, logs),
        );
    }
    let name = match opt_as_str(&request.profile) {
        Some(name) => name,
        None => {
            return FtpStep::Done(
                error_response(
                    ExportErrorCode::ProfileRequired,
                    "FTP export requires a profile",
                    None,
                    logs,
                ),
            );
        },
    };
    let profile = match ftp.profiles.named.get(name) {
        Some(profile) => profile,
        None => {
            return FtpStep::Done(
                error_response(
                    ExportErrorCode::ProfileMissing,
                    "FTP profile not found",
                    Some(String::from_str(name)),
                    logs,
                ),
            );
        },
    };
    if !profile.enabled {
        return FtpStep::Done(
            error_response(
                ExportErrorCode::ProfileDisabled,
                "FTP profile is disabled",
                Some(String::from_str(name)),
                logs,
            ),
        );
    }
    let resolved = match ftp.resolve(profile) {
        Ok(resolved) => resolved,
        Err(reason) => {
            return FtpStep::Done(
                error_response(
                    ExportErrorCode::ConfigInvalid,
                    "Invalid FTP profile",
                    Some(String::from_str(reason)),
                    logs,
                ),
            );
        },
    };
    if cancelled {
        return FtpStep::Done(cancelled_response("Export cancelled", &mut logs));
    }
    FtpStep::Run(
        FtpExport {
            pending: FtpPending::Credential,
            protocol: resolved.protocol,
            host: resolved.host,
            port: resolved.port,
            username: resolved.username,
            remote_path: resolved.remote_path,
            file_path: request.file_path.clone(),
            profile: String::from_str(name),
            stored_password: None,
            password: String::new(),
            total_bytes: 0,
            logs,
        },
    )
}

impl FtpExport {
    fn continue_with_user(self, user: String) -> (step: FtpStep)
        ensures
            step@ == with_user(self@, user@),
    {
        if user.as_str().unicode_len() == 0 {
            return FtpStep::Done(
                error_response(
                    ExportErrorCode::FtpMissingUsername,
                    "FTP username is missing",
                    None,
                    self.logs,
                ),
            );
        }
        let remote_path = resolve_remote_path(self.remote_path.as_str(), self.file_path.as_str());
        FtpStep::Run(
            FtpExport { pending: FtpPending::FileSize, username: user, remote_path, ..self },
        )
    }

    fn continue_with_password(self, password: String) -> (step: FtpStep)
        ensures
            step@ == with_password(self@, password@),
    {
        if password.as_str().unicode_len() == 0 {
            return FtpStep::Done(
                error_response(
                    ExportErrorCode::FtpMissingPassword,
                    "FTP password missing (set in app)",
                    None,
                    self.logs,
                ),
            );
        }
        let mut logs = self.logs;
        log_info(&mut logs, "Connecting via FTP", Some(self.host.clone()));
        FtpStep::Run(
            FtpExport {
                pending: FtpPending::PlainUpload,
                password,
                logs,
                protocol: self.protocol,
                host: self.host,
                port: self.port,
                username: self.username,
                remote_path: self.remote_path,
                file_path: self.file_path,
                profile: self.profile,
                stored_password: self.stored_password,
                total_bytes: self.total_bytes,
            },
        )
    }

    /// Takes an event from outside and says how the export goes on.
    pub fn advance(self, event: FtpEvent) -> (step: FtpStep)
        ensures
            step@ == ftp_advance(self@, event@),
    {
        match (self.pending, event) {
            (FtpPending::Credential, FtpEvent::Credential(Ok(stored))) => {
                let state = FtpExport { stored_password: stored, ..self };
                if !blank(state.username.as_str()) {
                    let user = trim(state.username.as_str());
                    state.continue_with_user(user)
                } else {
                    FtpStep::Run(FtpExport { pending: FtpPending::UserName, ..state })
                }
            },
            (FtpPending::Credential, FtpEvent::Credential(Err(err))) => FtpStep::Done(
                error_response(
                    ExportErrorCode::FtpFailed,
                    "Unable to access credential storage",
                    Some(err),
                    self.logs,
                ),
            ),
            (FtpPending::UserName, FtpEvent::Variable(value)) => {
                let user = resolve_username(self.username.as_str(), value);
                self.continue_with_user(user)
            },
            (FtpPending::FileSize, FtpEvent::FileSize(Ok(size))) => {
                let state = FtpExport { total_bytes: size, ..self };
                match state.protocol {
                    FtpProtocol::Sftp => {
                        let mut logs = state.logs;
                        log_info(&mut logs, "Connecting via SFTP", Some(state.host.clone()));
                        FtpStep::Run(
                            FtpExport {
                                pending: FtpPending::SecureUpload,
                                logs,
                                protocol: state.protocol,
                                host: state.host,
                                port: state.port,
                                username: state.username,
                                remote_path: state.remote_path,
                                file_path: state.file_path,
                                profile: state.profile,
                                stored_password: state.stored_password,
                                password: state.password,
                                total_bytes: state.total_bytes,
                            },
                        )
                    },
                    FtpProtocol::Ftp => {
                        match copy_opt(&state.stored_password) {
                            Some(password) => state.continue_with_password(password),
                            None => FtpStep::Run(
                                FtpExport { pending: FtpPending::Password, ..state },
                            ),
                        }
                    },
                }
            },
            (FtpPending::FileSize, FtpEvent::FileSize(Err(err))) => FtpStep::Done(
                error_response(
                    ExportErrorCode::FtpFailed,
                    "Unable to read file metadata",
                    Some(err),
                    self.logs,
                ),
            ),
            (FtpPending::Password, FtpEvent::Variable(value)) => {
                let password = match value {
                    Some(password) => password,
                    None => String::new(),
                };
                self.continue_with_password(password)
            },
            (FtpPending::SecureUpload, FtpEvent::Upload(Ok(_))) => FtpStep::Done(
                success_response("SFTP export completed", self.logs),
            ),
            (FtpPending::SecureUpload, FtpEvent::Upload(Err(err))) => {
                let mut logs = self.logs;
                if same_text(err.as_str(), UPLOAD_CANCELLED) {
                    FtpStep::Done(cancelled_response("Export cancelled", &mut logs))
                } else if same_text(err.as_str(), UPLOAD_AUTH_FAILED)
                    && self.stored_password.is_none() {
                    FtpStep::Done(
                        error_response(
                            ExportErrorCode::FtpMissingPassword,
                            "SFTP password missing (set in app or use SSH agent)",
                            None,
                            logs,
                        ),
                    )
                } else {
                    FtpStep::Done(
                        error_response(
                            ExportErrorCode::FtpFailed,
                            "SFTP export failed",
                            Some(err),
                            logs,
                        ),
                    )
                }
            },
            (FtpPending::PlainUpload, FtpEvent::Upload(Ok(_))) => FtpStep::Done(
                success_response("FTP export completed", self.logs),
            ),
            (FtpPending::PlainUpload, FtpEvent::Upload(Err(err))) => FtpStep::Done(
                error_response(
                    ExportErrorCode::FtpFailed,
                    "FTP export failed",
                    Some(err),
                    self.logs,
                ),
            ),
            (_, _) => FtpStep::Run(self),
        }
    }
}

} // verus!
