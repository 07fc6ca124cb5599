//! The front of an export job: the document is probed, its project is
//! located, the configuration is loaded and checked, and the export is
//! handed to the target that the request names.

use crate::config::{ConfigError, ExportConfig, SUPPORTED_VERSION};
use crate::ftp::{ftp_begin, run_ftp_export, FtpStep, FtpStepView};
use crate::git::{git_begin, run_git_export, GitStep, GitStepView};
use crate::paths::path_join;
use crate::project::{config_file_name, config_path, find_project_root, located_root};
use crate::response::{
    cancellation,
    cancelled_response,
    coherent,
    error_response,
    failure,
    info,
    log_info,
    log_views,
    ExportErrorCode,
    ExportLog,
    ExportRequest,
    ExportResponse,
    ExportTarget,
    LogView,
    ResponseView,
};
use crate::text::{opt_text, texts};
use crate::webhook::{
    netlify_begin,
    run_netlify_export,
    run_vercel_export,
    vercel_begin,
    NetlifyStep,
    NetlifyStepView,
    VercelStep,
    VercelStepView,
};
use vstd::prelude::*;

verus! {

/// What was made of the configuration file.
#[derive(Debug)]
pub enum ConfigLoad {
    /// The file could not be read, and why.
    Unreadable(String),
    /// The file could not be parsed, and why.
    Unparsable(String),
    /// The configuration that the file holds.
    Loaded(ExportConfig),
}

/// What the front of a job waits for.
#[derive(Clone, Copy, Debug, PartialEq, Eq, Structural)]
pub enum ExportPending {
    /// Whether the document exists.
    FileProbe,
    /// The directories above the document, and which of them hold the
    /// configuration file.
    Locate,
    /// The configuration file, read and parsed.
    LoadConfig,
}

/// What came back from outside.
#[derive(Debug)]
pub enum ExportEvent {
    FileProbed(bool),
    Located { candidates: Vec<String>, has_config: Vec<bool> },
    ConfigLoaded(ConfigLoad),
}

/// A job whose front waits for something from outside. Once the project is
/// located, `project_root` is its root and `config_path` the file to load.
#[derive(Debug)]
pub struct ExportRun {
    pub pending: ExportPending,
    pub request: ExportRequest,
    pub project_root: String,
    pub config_path: String,
    pub logs: Vec<ExportLog>,
}

/// A waiting job, as text.
pub struct ExportRunView {
    pub pending: ExportPending,
    pub file_path: Seq<char>,
    pub target: ExportTarget,
    pub profile: Option<Seq<char>>,
    pub project_root: Seq<char>,
    pub config_path: Seq<char>,
    pub logs: Seq<LogView>,
}

impl View for ExportRun {
    type V = ExportRunView;

    open spec fn view(&self) -> ExportRunView {
        ExportRunView {
            pending: self.pending,
            file_path: self.request.file_path@,
            target: self.request.target,
            profile: opt_text(self.request.profile),
            project_root: self.project_root@,
            config_path: self.config_path@,
            logs: log_views(self.logs@),
        }
    }
}

/// Where a job stands: at its front, with one of the targets, or at its
/// end.
#[derive(Debug)]
pub enum ExportStep {
    Run(ExportRun),
    Git(GitStep),
    Ftp(FtpStep),
    Netlify(NetlifyStep),
    Vercel(VercelStep),
    Done(ExportResponse),
}

/// A step, as text.
pub enum ExportStepView {
    Run(ExportRunView),
    Git(GitStepView),
    Ftp(FtpStepView),
    Netlify(NetlifyStepView),
    Vercel(VercelStepView),
    Done(ResponseView),
}

impl View for ExportStep {
    type V = ExportStepView;

    open spec fn view(&self) -> ExportStepView {
        match self {
            ExportStep::Run(r) => ExportStepView::Run(r@),
            ExportStep::Git(s) => ExportStepView::Git(s@),
            ExportStep::Ftp(s) => ExportStepView::Ftp(s@),
            ExportStep::Netlify(s) => ExportStepView::Netlify(s@),
            ExportStep::Vercel(s) => ExportStepView::Vercel(s@),
            ExportStep::Done(r) => ExportStepView::Done(r@),
        }
    }
}

/// How a job begins: a cancelled job ends at once, else the document is
/// probed.
pub open spec fn export_begin(
    file_path: Seq<char>,
    target: ExportTarget,
    profile: Option<Seq<char>>,
    cancelled: bool,
) -> ExportStepView {
    if cancelled {
        ExportStepView::Done(cancellation("Export cancelled"@, Seq::empty()))
    } else {
        ExportStepView::Run(
            ExportRunView {
                pending: ExportPending::FileProbe,
                file_path,
                target,
                profile,
                project_root: Seq::empty(),
                config_path: Seq::empty(),
                logs: Seq::empty(),
            },
        )
    }
}

/// The code under which a configuration that breaks a rule is refused.
pub open spec fn refusal_code(config: ExportConfig) -> ExportErrorCode {
    if config.version != SUPPORTED_VERSION {
        ExportErrorCode::UnsupportedConfigVersion
    } else {
        ExportErrorCode::ConfigInvalid
    }
}

/// The export handed to the target that the request names.
pub open spec fn dispatch(r: ExportRunView, config: ExportConfig, cancelled: bool)
    -> ExportStepView {
    match r.target {
        ExportTarget::Git => ExportStepView::Git(
            git_begin(config, r.file_path, r.profile, r.project_root, cancelled, r.logs),
        ),
        ExportTarget::Ftp => ExportStepView::Ftp(
            ftp_begin(config, r.file_path, r.profile, cancelled, r.logs),
        ),
        ExportTarget::Netlify => ExportStepView::Netlify(netlify_begin(config, cancelled, r.logs)),
        ExportTarget::Vercel => ExportStepView::Vercel(vercel_begin(config, cancelled, r.logs)),
    }
}

/// What an event means for the front of a job. A document that does not
/// exist, a document outside any project, a configuration that cannot be
/// read or parsed or that breaks a rule each end the job. The cancellation
/// flag is looked at once the configuration is accepted, and again by the
/// target. An event that the job does not wait for changes nothing.
pub open spec fn export_advance(r: ExportRunView, event: ExportEvent, cancelled: bool)
    -> ExportStepView {
    match (r.pending, event) {
        (ExportPending::FileProbe, ExportEvent::FileProbed(exists)) => if exists {
            ExportStepView::Run(ExportRunView { pending: ExportPending::Locate, ..r })
        } else {
            ExportStepView::Done(
                failure(ExportErrorCode::FileMissing, "File does not exist"@, None, r.logs),
            )
        },
        (ExportPending::Locate, ExportEvent::Located { candidates, has_config }) => match located_root(
            texts(candidates@),
            has_config@,
        ) {
            Some(root) => {
                let path = path_join(root, config_file_name());
                ExportStepView::Run(
                    ExportRunView {
                        pending: ExportPending::LoadConfig,
                        project_root: root,
                        config_path: path,
                        logs: r.logs.push(info("Loading export configuration"@, Some(path))),
                        ..r
                    },
                )
            },
            None => ExportStepView::Done(
                failure(
                    ExportErrorCode::ConfigMissing,
                    "No .export.toml found in parent folders"@,
                    None,
                    r.logs,
                ),
            ),
        },
        (ExportPending::LoadConfig, ExportEvent::ConfigLoaded(load)) => match load {
            ConfigLoad::Unreadable(reason) => ExportStepView::Done(
                failure(
                    ExportErrorCode::ConfigMissing,
                    "Unable to read .export.toml"@,
                    Some(reason@),
                    r.logs,
                ),
            ),
            ConfigLoad::Unparsable(reason) => ExportStepView::Done(
                failure(
                    ExportErrorCode::ConfigInvalid,
                    "Invalid .export.toml"@,
                    Some(reason@),
                    r.logs,
                ),
            ),
            ConfigLoad::Loaded(config) => if !config.valid() {
                ExportStepView::Done(
                    failure(
                        refusal_code(config),
                        "Invalid export configuration"@,
                        Some(config.refusal_text()),
                        r.logs,
                    ),
                )
            } else if cancelled {
                ExportStepView::Done(cancellation("Export cancelled"@, r.logs))
            } else {
                dispatch(r, config, cancelled)
            },
        },
        _ => ExportStepView::Run(r),
    }
}

/// A job that is cancelled before it starts ends as cancelled, and nothing
/// is asked of the outside. A document outside any project ends the job
/// with the code for a missing configuration. A configuration that breaks
/// a rule ends the job before any target is reached. No target is reached
/// but through a configuration that passes every rule.
pub proof fn lemma_export_front(r: ExportRunView, event: ExportEvent, cancelled: bool)
    ensures
        export_begin(r.file_path, r.target, r.profile, true) == ExportStepView::Done(
            cancellation("Export cancelled"@, Seq::empty()),
        ),
        r.pending == ExportPending::Locate ==> match event {
            ExportEvent::Located { candidates, has_config } => located_root(
                texts(candidates@),
                has_config@,
            ) is None ==> export_advance(r, event, cancelled) == ExportStepView::Done(
                failure(
                    ExportErrorCode::ConfigMissing,
                    "No .export.toml found in parent folders"@,
                    None,
                    r.logs,
                ),
            ),
            _ => true,
        },
        r.pending == ExportPending::LoadConfig ==> match event {
            ExportEvent::ConfigLoaded(ConfigLoad::Loaded(config)) => !config.valid()
                ==> export_advance(r, event, cancelled) is Done && !export_advance(
                r,
                event,
                cancelled,
            )->Done_0.ok,
            _ => true,
        },
        match export_advance(r, event, cancelled) {
            ExportStepView::Run(_) | ExportStepView::Done(_) => true,
            _ => r.pending == ExportPending::LoadConfig && !cancelled && match event {
                ExportEvent::ConfigLoaded(ConfigLoad::Loaded(config)) => config.valid(),
                _ => false,
            },
        },
        export_advance(r, event, cancelled) is Done ==> coherent(
            export_advance(r, event, cancelled)->Done_0,
        ),
{
}

/// Begins the job for `request`. `cancelled` is the cancellation flag as
/// it stands now.
pub fn run_export(request: ExportRequest, cancelled: bool) -> (step: ExportStep)
    ensures
        step@ == export_begin(
            request.file_path@,
            request.target,
            opt_text(request.profile),
            cancelled,
        ),
{
    let mut logs: Vec<ExportLog> = Vec::new();
    assert(log_views(logs@) =~= Seq::<LogView>::empty());
    if cancelled {
        return ExportStep::Done(cancelled_response("Export cancelled", &mut logs));
    }
    ExportStep::Run(
        ExportRun {
            pending: ExportPending::FileProbe,
            request,
            project_root: String::new(),
            config_path: String::new(),
            logs,
        },
    )
}

impl ExportRun {
    /// Takes an event from outside and says how the job goes on.
    /// `cancelled` is the cancellation flag as it stands now.
    pub fn advance(self, event: ExportEvent, cancelled: bool) -> (step: ExportStep)
        ensures
            step@ == export_advance(self@, event, cancelled),
    {
        match (self.pending, event) {
            (ExportPending::FileProbe, ExportEvent::FileProbed(exists)) => {
                if exists {
                    ExportStep::Run(ExportRun { pending: ExportPending::Locate, ..self })
                } else {
                    ExportStep::Done(
                        error_response(
                            ExportErrorCode::FileMissing,
                            "File does not exist",
                            None,
                            self.logs,
                        ),
                    )
                }
            },
            (ExportPending::Locate, ExportEvent::Located { candidates, has_config }) => {
                match find_project_root(&candidates, &has_config) {
                    Some(root) => {
                        let path = config_path(root.as_str());
                        let mut logs = self.logs;
                        log_info(&mut logs, "Loading export configuration", Some(path.clone()));
                        ExportStep::Run(
                            ExportRun {
                                pending: ExportPending::LoadConfig,
                                request: self.request,
                                project_root: root,
                                config_path: path,
                                logs,
                            },
                        )
                    },
                    None => ExportStep::Done(
                        error_response(
                            ExportErrorCode::ConfigMissing,
                            "No .export.toml found in parent folders",
                            None,
                            self.logs,
                        ),
                    ),
                }
            },
            (ExportPending::LoadConfig, ExportEvent::ConfigLoaded(load)) => match load {
                ConfigLoad::Unreadable(reason) => ExportStep::Done(
                    error_response(
                        ExportErrorCode::ConfigMissing,
                        "Unable to read .export.toml",
                        Some(reason),
                        self.logs,
                    ),
                ),
                ConfigLoad::Unparsable(reason) => ExportStep::Done(
                    error_response(
                        ExportErrorCode::ConfigInvalid,
                        "Invalid .export.toml",
                        Some(reason),
                        self.logs,
                    ),
                ),
                ConfigLoad::Loaded(config) => {
                    if let Err(error) = config.validate() {
                        let code = match error {
                            ConfigError::UnsupportedVersion(_) => {
                                ExportErrorCode::UnsupportedConfigVersion
                            },
                            _ => ExportErrorCode::ConfigInvalid,
                        };
                        proof {
                            config.lemma_refusal_text(error);
                        }
                        return ExportStep::Done(
                            error_response(
                                code,
                                "Invalid export configuration",
                                Some(error.message()),
                                self.logs,
                            ),
                        );
                    }
                    let mut logs = self.logs;
                    if cancelled {
                        return ExportStep::Done(cancelled_response("Export cancelled", &mut logs));
                    }
                    match self.request.target {
                        ExportTarget::Git => ExportStep::Git(
                            run_git_export(
                                self.project_root.as_str(),
                                &config,
                                &self.request,
                                cancelled,
                                logs,
                            ),
                        ),
                        ExportTarget::Ftp => ExportStep::Ftp(
                            run_ftp_export(&config, &self.request, cancelled, logs),
                        ),
                        ExportTarget::Netlify => ExportStep::Netlify(
                            run_netlify_export(&config, cancelled, logs),
                        ),
                        ExportTarget::Vercel => ExportStep::Vercel(
                            run_vercel_export(&config, cancelled, logs),
                        ),
                    }
                },
            },
            (_, _) => ExportStep::Run(self),
        }
    }
}

} // verus!
