//! The version-control target: which command runs next, and what each
//! command's outcome means for the export.

use crate::config::{ExportConfig, GitCheck, GitConfig, GitMode, GitProfile};
use crate::paths::{
    file_name,
    is_absolute,
    join,
    path_file_name,
    path_is_absolute,
    path_join,
    path_starts_with,
    starts_with,
};
use crate::response::{
    cancellation,
    cancelled_response,
    coherent,
    error_response,
    failure,
    info,
    log_info,
    log_views,
    log_warn,
    success,
    success_response,
    warning,
    ExportErrorCode,
    ExportLog,
    ExportRequest,
    ExportResponse,
    LogView,
    ResponseView,
};
use crate::text::{
    blank,
    contains,
    has_substring,
    is_blank,
    join2,
    join3,
    opt_as_str,
    opt_text,
    texts,
    trim,
    trimmed,
};
use vstd::prelude::*;

verus! {

/// What a finished process left behind.
#[derive(Debug)]
pub struct ProcessOutput {
    pub success: bool,
    pub stdout: String,
    pub stderr: String,
}

/// The outcome of a command, as text.
pub open spec fn outcome_text(outcome: Result<String, String>) -> Result<Seq<char>, Seq<char>> {
    match outcome {
        Ok(s) => Ok(s@),
        Err(e) => Err(e@),
    }
}

/// The text that a process leaves: its standard output, followed on a new
/// line by its standard error where that is not blank.
pub open spec fn combined_output(stdout: Seq<char>, stderr: Seq<char>) -> Seq<char> {
    if is_blank(stderr) {
        stdout
    } else {
        stdout + "\n"@ + stderr
    }
}

/// What a run of the version-control tool means: the combined output of a
/// process, as success where its exit status is zero, else as failure; a
/// process that could not be started fails with the reason.
pub fn run_git_command(spawned: Result<ProcessOutput, String>) -> (r: Result<String, String>)
    ensures
        match spawned {
            Ok(out) => if out.success {
                outcome_text(r) == Ok::<Seq<char>, Seq<char>>(
                    combined_output(out.stdout@, out.stderr@),
                )
            } else {
                outcome_text(r) == Err::<Seq<char>, Seq<char>>(
                    combined_output(out.stdout@, out.stderr@),
                )
            },
            Err(e) => outcome_text(r) == Err::<Seq<char>, Seq<char>>(e@),
        },
{
    match spawned {
        Ok(out) => {
            let text = if blank(out.stderr.as_str()) {
                out.stdout
            } else {
                join3(out.stdout.as_str(), "\n", out.stderr.as_str())
            };
            if out.success {
                Ok(text)
            } else {
                Err(text)
            }
        },
        Err(e) => Err(e),
    }
}

/// The place of a repository: `repo_path` itself where it is absolute,
/// else `repo_path` under the project root.
pub open spec fn resolved_path(project_root: Seq<char>, repo_path: Seq<char>) -> Seq<char> {
    if path_is_absolute(repo_path) {
        repo_path
    } else {
        path_join(project_root, repo_path)
    }
}

/// Resolves a repository path against the project root.
pub fn resolve_path(project_root: &str, repo_path: &str) -> (r: String)
    ensures
        r@ == resolved_path(project_root@, repo_path@),
{
    if is_absolute(repo_path) {
        String::from_str(repo_path)
    } else {
        join(project_root, repo_path)
    }
}

/// A command of the version-control tool.
#[derive(Clone, Copy, Debug, PartialEq, Eq, Structural)]
pub enum GitCommand {
    /// Is the directory inside a work tree?
    IsWorkTree,
    /// The status of the work tree, one line for each change.
    Status,
    /// The top-level directory of the work tree.
    TopLevel,
    /// Stage the document.
    Add,
    /// Commit what is staged.
    Commit,
}

/// An export to version control that waits for the outcome of a command.
#[derive(Debug)]
pub struct GitExport {
    pub pending: GitCommand,
    pub repo_path: String,
    pub repo_root: String,
    pub file_path: String,
    pub mode: GitMode,
    pub checks: Vec<GitCheck>,
    pub logs: Vec<ExportLog>,
}

/// Where an export to version control stands: a command is to be run, or
/// the export has ended.
#[derive(Debug)]
pub enum GitStep {
    Run(GitExport),
    Done(ExportResponse),
}

/// A waiting export, as text.
pub struct GitExportView {
    pub pending: GitCommand,
    pub repo_path: Seq<char>,
    pub repo_root: Seq<char>,
    pub file_path: Seq<char>,
    pub mode: GitMode,
    pub checks: Seq<GitCheck>,
    pub logs: Seq<LogView>,
}

/// A step, as text.
pub enum GitStepView {
    Run(GitExportView),
    Done(ResponseView),
}

impl View for GitExport {
    type V = GitExportView;

    open spec fn view(&self) -> GitExportView {
        GitExportView {
            pending: self.pending,
            repo_path: self.repo_path@,
            repo_root: self.repo_root@,
            file_path: self.file_path@,
            mode: self.mode,
            checks: self.checks@,
            logs: log_views(self.logs@),
        }
    }
}

impl View for GitStep {
    type V = GitStepView;

    open spec fn view(&self) -> GitStepView {
        match self {
            GitStep::Run(e) => GitStepView::Run(e@),
            GitStep::Done(r) => GitStepView::Done(r@),
        }
    }
}

/// Whether the status of the work tree is to be read: for the status check
/// and for the clean check.
pub open spec fn wants_status(checks: Seq<GitCheck>) -> bool {
    checks.contains(GitCheck::Status) || checks.contains(GitCheck::Clean)
}

/// The command that follows the repository check.
pub open spec fn after_repo_check(checks: Seq<GitCheck>) -> GitCommand {
    if wants_status(checks) {
        GitCommand::Status
    } else {
        GitCommand::TopLevel
    }
}

/// The first command of an export.
pub open spec fn first_command(checks: Seq<GitCheck>) -> GitCommand {
    if checks.contains(GitCheck::Repo) {
        GitCommand::IsWorkTree
    } else {
        after_repo_check(checks)
    }
}

/// The message of the commit that exports the document at `file_path`.
pub open spec fn commit_message(file_path: Seq<char>) -> Seq<char> {
    "Export "@ + match path_file_name(file_path) {
        Some(name) => name,
        None => "file"@,
    }
}

/// The profile that a request names in the section, if the section has it.
pub open spec fn named_git_profile(git: GitConfig, profile: Option<Seq<char>>) -> Option<
    GitProfile,
> {
    match profile {
        Some(name) => if git.profiles.named.contains(name) {
            Some(git.profiles.named.lookup(name))
        } else {
            None
        },
        None => None,
    }
}

/// How the export of the document at `file_path` to version control
/// begins. The section must be enabled; the profile `name`, where one is
/// given, must exist and be enabled; a cancelled export ends here; else the
/// checks are announced and the first command is chosen.
pub open spec fn git_begin(
    config: ExportConfig,
    file_path: Seq<char>,
    name: Option<Seq<char>>,
    project_root: Seq<char>,
    cancelled: bool,
    logs: Seq<LogView>,
) -> GitStepView {
    if config.git is None || !config.git.unwrap().enabled {
        GitStepView::Done(
            failure(ExportErrorCode::TargetDisabled, "Git export is disabled"@, None, logs),
        )
    } else {
        let git = config.git.unwrap();
        let profile = named_git_profile(git, name);
        if name is Some && profile is None {
            GitStepView::Done(
                failure(ExportErrorCode::ProfileMissing, "Git profile not found"@, name, logs),
            )
        } else if profile is Some && !profile.unwrap().enabled {
            GitStepView::Done(
                failure(ExportErrorCode::ProfileDisabled, "Git profile is disabled"@, name, logs),
            )
        } else {
            let chosen: Option<&GitProfile> = match profile {
                Some(p) => Some(&p),
                None => None,
            };
            let repo_path = resolved_path(project_root, git.merged_repo_path(chosen));
            if cancelled {
                GitStepView::Done(cancellation("Export cancelled"@, logs))
            } else {
                GitStepView::Run(
                    GitExportView {
                        pending: first_command(git.merged_checks(chosen)),
                        repo_path,
                        repo_root: Seq::empty(),
                        file_path,
                        mode: git.merged_mode(chosen),
                        checks: git.merged_checks(chosen),
                        logs: logs.push(info("Running Git checks"@, Some(repo_path))),
                    },
                )
            }
        }
    }
}

/// What the outcome of the pending command means for the export. The
/// cancellation flag is looked at once, before the document is staged.
pub open spec fn git_advance(
    e: GitExportView,
    outcome: Result<Seq<char>, Seq<char>>,
    cancelled: bool,
) -> GitStepView {
    match e.pending {
        GitCommand::IsWorkTree => match outcome {
            Ok(_) => GitStepView::Run(
                GitExportView { pending: after_repo_check(e.checks), ..e },
            ),
            Err(_) => GitStepView::Done(
                failure(ExportErrorCode::GitRepoMissing, "Not a git repository"@, None, e.logs),
            ),
        },
        GitCommand::Status => match outcome {
            Ok(out) => {
                let logs = if is_blank(out) {
                    e.logs.push(info("Git status clean"@, None))
                } else {
                    e.logs.push(warning("Git status is not clean"@, Some(trimmed(out))))
                };
                if e.checks.contains(GitCheck::Clean) && !is_blank(out) {
                    GitStepView::Done(
                        failure(
                            ExportErrorCode::GitDirty,
                            "Git working tree is not clean"@,
                            None,
                            logs,
                        ),
                    )
                } else {
                    GitStepView::Run(GitExportView { pending: GitCommand::TopLevel, logs, ..e })
                }
            },
            Err(err) => GitStepView::Done(
                failure(
                    ExportErrorCode::GitFailed,
                    "Unable to read git status"@,
                    Some(err),
                    e.logs,
                ),
            ),
        },
        GitCommand::TopLevel => match outcome {
            Ok(out) => {
                let root = trimmed(out);
                if !path_starts_with(e.file_path, root) {
                    GitStepView::Done(
                        failure(
                            ExportErrorCode::FileNotInRepo,
                            "File is outside the git repository"@,
                            Some(root),
                            e.logs,
                        ),
                    )
                } else if cancelled {
                    GitStepView::Done(cancellation("Export cancelled"@, e.logs))
                } else {
                    GitStepView::Run(
                        GitExportView {
                            pending: GitCommand::Add,
                            repo_root: root,
                            logs: e.logs.push(info("Git add"@, Some(e.file_path))),
                            ..e
                        },
                    )
                }
            },
            Err(err) => GitStepView::Done(
                failure(
                    ExportErrorCode::GitRepoMissing,
                    "Unable to resolve repository root"@,
                    Some(err),
                    e.logs,
                ),
            ),
        },
        GitCommand::Add => match outcome {
            Ok(_) => if e.mode == GitMode::AddAndCommit {
                GitStepView::Run(
                    GitExportView {
                        pending: GitCommand::Commit,
                        logs: e.logs.push(info("Git commit"@, Some(commit_message(e.file_path)))),
                        ..e
                    },
                )
            } else {
                GitStepView::Done(success("Git export completed"@, e.logs))
            },
            Err(err) => GitStepView::Done(
                failure(ExportErrorCode::GitFailed, "git add failed"@, Some(err), e.logs),
            ),
        },
        GitCommand::Commit => match outcome {
            Ok(out) => if has_substring(out, "nothing to commit"@) {
                GitStepView::Done(
                    success(
                        "No changes to commit"@,
                        e.logs.push(warning("Nothing to commit"@, None)),
                    ),
                )
            } else {
                GitStepView::Done(success("Git export completed"@, e.logs))
            },
            Err(err) => if has_substring(err, "nothing to commit"@) {
                GitStepView::Done(
                    success(
                        "No changes to commit"@,
                        e.logs.push(warning("Nothing to commit"@, Some(err))),
                    ),
                )
            } else {
                GitStepView::Done(
                    failure(ExportErrorCode::GitFailed, "git commit failed"@, Some(err), e.logs),
                )
            },
        },
    }
}

/// The trail of a step.
pub open spec fn step_logs(step: GitStepView) -> Seq<LogView> {
    match step {
        GitStepView::Run(e) => e.logs,
        GitStepView::Done(r) => r.logs,
    }
}

/// An export that checks for a clean work tree reads the status before
/// anything else is done to the work tree, and ends as dirty, with nothing
/// staged or committed, where the status shows changes.
pub proof fn lemma_dirty_tree_ends_export(e: GitExportView, status: Seq<char>, cancelled: bool)
    requires
        e.checks.contains(GitCheck::Clean),
    ensures
        first_command(e.checks) == GitCommand::IsWorkTree || first_command(e.checks)
            == GitCommand::Status,
        after_repo_check(e.checks) == GitCommand::Status,
        e.pending == GitCommand::Status && !is_blank(status) ==> git_advance(
            e,
            Ok(status),
            cancelled,
        ) == GitStepView::Done(
            failure(
                ExportErrorCode::GitDirty,
                "Git working tree is not clean"@,
                None,
                e.logs.push(warning("Git status is not clean"@, Some(trimmed(status)))),
            ),
        ),
{
}

/// A commit that finds nothing to commit, whether the tool reports it as
/// success or as failure, ends the export well, with the summary that
/// nothing changed.
pub proof fn lemma_nothing_to_commit(
    e: GitExportView,
    outcome: Result<Seq<char>, Seq<char>>,
    cancelled: bool,
)
    requires
        e.pending == GitCommand::Commit,
        match outcome {
            Ok(out) => has_substring(out, "nothing to commit"@),
            Err(err) => has_substring(err, "nothing to commit"@),
        },
    ensures
        git_advance(e, outcome, cancelled) is Done,
        git_advance(e, outcome, cancelled)->Done_0.ok,
        git_advance(e, outcome, cancelled)->Done_0.error is None,
        git_advance(e, outcome, cancelled)->Done_0.summary == "No changes to commit"@,
{
}

/// The document is staged only once the top level of the work tree is
/// known and holds it, and committed only once it is staged; the top level
/// is asked for only after the checks. The trail of an export only grows.
pub proof fn lemma_git_order(
    e: GitExportView,
    outcome: Result<Seq<char>, Seq<char>>,
    cancelled: bool,
)
    ensures
        match git_advance(e, outcome, cancelled) {
            GitStepView::Run(next) => {
                &&& next.pending != GitCommand::IsWorkTree
                &&& next.pending == GitCommand::Status ==> e.pending == GitCommand::IsWorkTree
                &&& next.pending == GitCommand::TopLevel ==> e.pending == GitCommand::IsWorkTree
                    || e.pending == GitCommand::Status
                &&& next.pending == GitCommand::Add ==> e.pending == GitCommand::TopLevel
                    && outcome is Ok && path_starts_with(e.file_path, next.repo_root)
                &&& next.pending == GitCommand::Commit ==> e.pending == GitCommand::Add
                    && e.mode == GitMode::AddAndCommit
            },
            GitStepView::Done(_) => true,
        },
        e.logs.is_prefix_of(step_logs(git_advance(e, outcome, cancelled))),
{
}

/// Every export ends with a response of one of the two shapes, success or
/// failure with a code, and with the whole trail: what was logged before a
/// step is still there after it.
pub proof fn lemma_git_responses(
    config: ExportConfig,
    file_path: Seq<char>,
    name: Option<Seq<char>>,
    project_root: Seq<char>,
    logs: Seq<LogView>,
    e: GitExportView,
    outcome: Result<Seq<char>, Seq<char>>,
    cancelled: bool,
)
    ensures
        logs.is_prefix_of(
            step_logs(git_begin(config, file_path, name, project_root, cancelled, logs)),
        ),
        e.logs.is_prefix_of(step_logs(git_advance(e, outcome, cancelled))),
        git_begin(config, file_path, name, project_root, cancelled, logs) is Done ==> coherent(
            git_begin(config, file_path, name, project_root, cancelled, logs)->Done_0,
        ),
        git_advance(e, outcome, cancelled) is Done ==> coherent(
            git_advance(e, outcome, cancelled)->Done_0,
        ),
{
}

/// Tests whether `check` is among `checks`.
pub fn has_check(checks: &Vec<GitCheck>, check: GitCheck) -> (b: bool)
    ensures
        b == checks@.contains(check),
{
    let mut i: usize = 0;
    while i < checks.len()
        invariant
            i <= checks.len(),
            forall|j: int| 0 <= j < i ==> checks@[j] != check,
        decreases checks.len() - i,
    {
        if checks[i] == check {
            return true;
        }
        i += 1;
    }
    false
}

fn command_after_repo_check(checks: &Vec<GitCheck>) -> (c: GitCommand)
    ensures
        c == after_repo_check(checks@),
{
    if has_check(checks, GitCheck::Status) || has_check(checks, GitCheck::Clean) {
        GitCommand::Status
    } else {
        GitCommand::TopLevel
    }
}

/// Writes the message of the commit that exports the document.
pub fn write_commit_message(file_path: &str) -> (m: String)
    ensures
        m@ == commit_message(file_path@),
{
    match file_name(file_path) {
        Some(name) => join2("Export ", name.as_str()),
        None => join2("Export ", "file"),
    }
}

/// Begins an export to version control, for a project rooted at
/// `project_root`. `cancelled` is the cancellation flag as it stands now.
pub fn run_git_export(
    project_root: &str,
    config: &ExportConfig,
    request: &ExportRequest,
    cancelled: bool,
    logs: Vec<ExportLog>,
) -> (step: GitStep)
    ensures
        step@ == git_begin(
            *config,
            request.file_path@,
            opt_text(request.profile),
            project_root@,
            cancelled,
            log_views(logs@),
        ),
{
    let mut logs = logs;
    let git = match &config.git {
        Some(git) => git,
        None => {
            return GitStep::Done(
                error_response(
                    ExportErrorCode::TargetDisabled,
                    "Git export is disabled",
                    None,
                    logs,
                ),
            );
        },
    };
    if !git.enabled {
        return GitStep::Done(
            error_response(ExportErrorCode::TargetDisabled, "Git export is disabled", None, logs),
        );
    }
    let profile: Option<&GitProfile> = match opt_as_str(&request.profile) {
        Some(name) => match git.profiles.named.get(name) {
            Some(profile) => {
                if !profile.enabled {
                    return GitStep::Done(
                        error_response(
                            ExportErrorCode::ProfileDisabled,
                            "Git profile is disabled",
                            Some(String::from_str(name)),
                            logs,
                        ),
                    );
                }
                Some(profile)
            },
            None => {
                return GitStep::Done(
                    error_response(
                        ExportErrorCode::ProfileMissing,
                        "Git profile not found",
                        Some(String::from_str(name)),
                        logs,
                    ),
                );
            },
        },
        None => None,
    };
    let resolved = git.resolve(profile);
    let repo_path = resolve_path(project_root, resolved.repo_path.as_str());
    if cancelled {
        return GitStep::Done(cancelled_response("Export cancelled", &mut logs));
    }
    log_info(&mut logs, "Running Git checks", Some(repo_path.clone()));
    let pending = if has_check(&resolved.checks, GitCheck::Repo) {
        GitCommand::IsWorkTree
    } else {
        command_after_repo_check(&resolved.checks)
    };
    GitStep::Run(
        GitExport {
            pending,
            repo_path,
            repo_root: String::new(),
            file_path: request.file_path.clone(),
            mode: resolved.mode,
            checks: resolved.checks,
            logs,
        },
    )
}

impl GitExport {
    /// The directory in which the pending command runs: the repository
    /// path for the checks, the top level of the work tree for staging and
    /// committing.
    pub open spec fn directory_text(e: GitExportView) -> Seq<char> {
        match e.pending {
            GitCommand::Add | GitCommand::Commit => e.repo_root,
            _ => e.repo_path,
        }
    }

    /// The arguments of the pending command.
    pub open spec fn argument_texts(e: GitExportView) -> Seq<Seq<char>> {
        match e.pending {
            GitCommand::IsWorkTree => seq!["rev-parse"@, "--is-inside-work-tree"@],
            GitCommand::Status => seq!["status"@, "--porcelain"@],
            GitCommand::TopLevel => seq!["rev-parse"@, "--show-toplevel"@],
            GitCommand::Add => seq!["add"@, "--"@, e.file_path],
            GitCommand::Commit => seq!["commit"@, "-m"@, commit_message(e.file_path)],
        }
    }

    /// The directory in which the pending command is to be run.
    pub fn directory(&self) -> (dir: String)
        ensures
            dir@ == Self::directory_text(self@),
    {
        match self.pending {
            GitCommand::Add | GitCommand::Commit => self.repo_root.clone(),
            _ => self.repo_path.clone(),
        }
    }

    /// The arguments with which the pending command is to be run.
    pub fn arguments(&self) -> (args: Vec<String>)
        ensures
            texts(args@) == Self::argument_texts(self@),
    {
        let mut args: Vec<String> = Vec::new();
        match self.pending {
            GitCommand::IsWorkTree => {
                args.push(String::from_str("rev-parse"));
                args.push(String::from_str("--is-inside-work-tree"));
            },
            GitCommand::Status => {
                args.push(String::from_str("status"));
                args.push(String::from_str("--porcelain"));
            },
            GitCommand::TopLevel => {
                args.push(String::from_str("rev-parse"));
                args.push(String::from_str("--show-toplevel"));
            },
            GitCommand::Add => {
                args.push(String::from_str("add"));
                args.push(String::from_str("--"));
                args.push(self.file_path.clone());
            },
            GitCommand::Commit => {
                args.push(String::from_str("commit"));
                args.push(String::from_str("-m"));
                args.push(write_commit_message(self.file_path.as_str()));
            },
        }
        assert(texts(args@) =~= Self::argument_texts(self@));
        args
    }

    /// Takes the outcome of the pending command and says how the export
    /// goes on. `cancelled` is the cancellation flag as it stands now.
    pub fn advance(self, outcome: Result<String, String>, cancelled: bool) -> (step: GitStep)
        ensures
            step@ == git_advance(self@, outcome_text(outcome), cancelled),
    {
        let GitExport { pending, repo_path, repo_root, file_path, mode, checks, logs } = self;
        let mut logs = logs;
        match pending {
            GitCommand::IsWorkTree => match outcome {
                Ok(_) => {
                    let pending = command_after_repo_check(&checks);
                    GitStep::Run(
                        GitExport { pending, repo_path, repo_root, file_path, mode, checks, logs },
                    )
                },
                Err(_) => GitStep::Done(
                    error_response(
                        ExportErrorCode::GitRepoMissing,
                        "Not a git repository",
                        None,
                        logs,
                    ),
                ),
            },
            GitCommand::Status => match outcome {
                Ok(out) => {
                    let dirty = !blank(out.as_str());
                    if dirty {
                        log_warn(&mut logs, "Git status is not clean", Some(trim(out.as_str())));
                    } else {
                        log_info(&mut logs, "Git status clean", None);
                    }
                    if has_check(&checks, GitCheck::Clean) && dirty {
                        GitStep::Done(
                            error_response(
                                ExportErrorCode::GitDirty,
                                "Git working tree is not clean",
                                None,
                                logs,
                            ),
                        )
                    } else {
                        GitStep::Run(
                            GitExport {
                                pending: GitCommand::TopLevel,
                                repo_path,
                                repo_root,
                                file_path,
                                mode,
                                checks,
                                logs,
                            },
                        )
                    }
                },
                Err(err) => GitStep::Done(
                    error_response(
                        ExportErrorCode::GitFailed,
                        "Unable to read git status",
                        Some(err),
                        logs,
                    ),
                ),
            },
            GitCommand::TopLevel => match outcome {
                Ok(out) => {
                    let root = trim(out.as_str());
                    if !starts_with(file_path.as_str(), root.as_str()) {
                        return GitStep::Done(
                            error_response(
                                ExportErrorCode::FileNotInRepo,
                                "File is outside the git repository",
                                Some(root),
                                logs,
                            ),
                        );
                    }
                    if cancelled {
                        return GitStep::Done(cancelled_response("Export cancelled", &mut logs));
                    }
                    log_info(&mut logs, "Git add", Some(file_path.clone()));
                    GitStep::Run(
                        GitExport {
                            pending: GitCommand::Add,
                            repo_path,
                            repo_root: root,
                            file_path,
                            mode,
                            checks,
                            logs,
                        },
                    )
                },
                Err(err) => GitStep::Done(
                    error_response(
                        ExportErrorCode::GitRepoMissing,
                        "Unable to resolve repository root",
                        Some(err),
                        logs,
                    ),
                ),
            },
            GitCommand::Add => match outcome {
                Ok(_) => {
                    if mode == GitMode::AddAndCommit {
                        let message = write_commit_message(file_path.as_str());
                        log_info(&mut logs, "Git commit", Some(message));
                        GitStep::Run(
                            GitExport {
                                pending: GitCommand::Commit,
                                repo_path,
                                repo_root,
                                file_path,
                                mode,
                                checks,
                                logs,
                            },
                        )
                    } else {
                        GitStep::Done(success_response("Git export completed", logs))
                    }
                },
                Err(err) => GitStep::Done(
                    error_response(ExportErrorCode::GitFailed, "git add failed", Some(err), logs),
                ),
            },
            GitCommand::Commit => match outcome {
                Ok(out) => {
                    if contains(out.as_str(), "nothing to commit") {
                        log_warn(&mut logs, "Nothing to commit", None);
                        GitStep::Done(success_response("No changes to commit", logs))
                    } else {
                        GitStep::Done(success_response("Git export completed", logs))
                    }
                },
                Err(err) => {
                    if contains(err.as_str(), "nothing to commit") {
                        log_warn(&mut logs, "Nothing to commit", Some(err));
                        GitStep::Done(success_response("No changes to commit", logs))
                    } else {
                        GitStep::Done(
                            error_response(
                                ExportErrorCode::GitFailed,
                                "git commit failed",
                                Some(err),
                                logs,
                            ),
                        )
                    }
                },
            },
        }
    }
}

} // verus!
