use ernest::config::{
    ExportConfig, GitCheck, GitConfig, GitMode, GitProfile, GitProfiles,
};
use ernest::git::{
    has_check, resolve_path, run_git_command, run_git_export, write_commit_message, GitCommand,
    GitExport, GitStep, ProcessOutput,
};
use ernest::named::NamedMap;
use ernest::response::{
    ExportErrorCode, ExportLog, ExportLogLevel, ExportRequest, ExportResponse, ExportTarget,
};

const ROOT: &str = "/work/site";
const FILE: &str = "/work/site/posts/a.md";

fn git_config(mode: Option<GitMode>, checks: Vec<GitCheck>) -> ExportConfig {
    ExportConfig {
        version: 1,
        git: Some(GitConfig { enabled: true, mode, checks, profiles: GitProfiles::default() }),
        ftp: None,
        netlify: None,
        vercel: None,
    }
}

fn git_request(profile: Option<&str>) -> ExportRequest {
    ExportRequest {
        file_path: FILE.to_string(),
        target: ExportTarget::Git,
        profile: profile.map(|p| p.to_string()),
    }
}

fn begin(config: &ExportConfig, profile: Option<&str>) -> GitStep {
    run_git_export(ROOT, config, &git_request(profile), false, Vec::new())
}

fn running(step: GitStep) -> GitExport {
    match step {
        GitStep::Run(e) => e,
        GitStep::Done(r) => panic!("ended early: {:?}", r),
    }
}

fn done(step: GitStep) -> ExportResponse {
    match step {
        GitStep::Done(r) => r,
        GitStep::Run(e) => panic!("still running: {:?}", e),
    }
}

fn ok(text: &str) -> Result<String, String> {
    Ok(text.to_string())
}

fn err(text: &str) -> Result<String, String> {
    Err(text.to_string())
}

fn code(r: &ExportResponse) -> ExportErrorCode {
    r.error.as_ref().expect("an error").code
}

fn messages(logs: &[ExportLog]) -> Vec<&str> {
    logs.iter().map(|l| l.message.as_str()).collect()
}

#[test]
fn command_result_combines_output() {
    let out = |success, stdout: &str, stderr: &str| {
        Ok(ProcessOutput { success, stdout: stdout.to_string(), stderr: stderr.to_string() })
    };
    assert_eq!(run_git_command(out(true, "out", "")), ok("out"));
    assert_eq!(run_git_command(out(true, "out", " \n")), ok("out"));
    assert_eq!(run_git_command(out(true, "out", "warn")), ok("out\nwarn"));
    assert_eq!(run_git_command(out(false, "out", "")), err("out"));
    assert_eq!(run_git_command(out(false, "out", "fatal")), err("out\nfatal"));
    assert_eq!(run_git_command(Err("No such file".to_string())), err("No such file"));
}

#[test]
fn resolve_path_keeps_absolute_and_joins_relative() {
    assert_eq!(resolve_path(ROOT, "/repos/x"), "/repos/x");
    assert_eq!(resolve_path(ROOT, "."), "/work/site/.");
    assert_eq!(resolve_path(ROOT, "sub/repo"), "/work/site/sub/repo");
}

#[test]
fn has_check_looks_through_the_list() {
    let checks = vec![GitCheck::Repo, GitCheck::Clean];
    assert!(has_check(&checks, GitCheck::Repo));
    assert!(has_check(&checks, GitCheck::Clean));
    assert!(!has_check(&checks, GitCheck::Status));
    assert!(!has_check(&vec![], GitCheck::Repo));
}

#[test]
fn commit_message_names_the_file() {
    assert_eq!(write_commit_message(FILE), "Export a.md");
    assert_eq!(write_commit_message("/"), "Export file");
    assert_eq!(write_commit_message("notes/.."), "Export file");
}

#[test]
fn git_disabled_target() {
    let mut config = git_config(None, vec![GitCheck::Repo]);
    config.git.as_mut().unwrap().enabled = false;
    let r = done(begin(&config, None));
    assert!(!r.ok);
    assert_eq!(code(&r), ExportErrorCode::TargetDisabled);
    assert_eq!(r.summary, "Git export is disabled");
    assert_eq!(r.error.as_ref().unwrap().message, "Git export is disabled");
    assert_eq!(r.error.as_ref().unwrap().detail, None);

    let config = ExportConfig { git: None, ..config };
    assert_eq!(code(&done(begin(&config, None))), ExportErrorCode::TargetDisabled);
}

#[test]
fn git_profile_missing_and_disabled() {
    let mut named = NamedMap::new();
    named.insert(
        "off".to_string(),
        GitProfile { enabled: false, repo_path: None, mode: None, checks: None },
    );
    let mut config = git_config(None, vec![GitCheck::Repo]);
    config.git.as_mut().unwrap().profiles = GitProfiles { named };

    let r = done(begin(&config, Some("nope")));
    assert_eq!(code(&r), ExportErrorCode::ProfileMissing);
    assert_eq!(r.summary, "Git profile not found");
    assert_eq!(r.error.as_ref().unwrap().detail.as_deref(), Some("nope"));

    let r = done(begin(&config, Some("off")));
    assert_eq!(code(&r), ExportErrorCode::ProfileDisabled);
    assert_eq!(r.summary, "Git profile is disabled");
    assert_eq!(r.error.as_ref().unwrap().detail.as_deref(), Some("off"));
}

#[test]
fn git_profile_overrides_repo_path_mode_and_checks() {
    let mut named = NamedMap::new();
    named.insert(
        "mirror".to_string(),
        GitProfile {
            enabled: true,
            repo_path: Some("/repos/mirror".to_string()),
            mode: Some(GitMode::AddAndCommit),
            checks: Some(vec![GitCheck::Status]),
        },
    );
    let mut config = git_config(None, vec![GitCheck::Repo]);
    config.git.as_mut().unwrap().profiles = GitProfiles { named };
    let e = running(begin(&config, Some("mirror")));
    assert_eq!(e.pending, GitCommand::Status);
    assert_eq!(e.repo_path, "/repos/mirror");
    assert_eq!(e.mode, GitMode::AddAndCommit);
    assert_eq!(e.checks, vec![GitCheck::Status]);
    assert_eq!(e.file_path, FILE);
}

#[test]
fn git_cancelled_before_the_checks() {
    let config = git_config(None, vec![GitCheck::Repo]);
    let r = done(run_git_export(ROOT, &config, &git_request(None), true, Vec::new()));
    assert!(!r.ok);
    assert_eq!(code(&r), ExportErrorCode::ExportCancelled);
    assert_eq!(r.summary, "Export cancelled");
    assert_eq!(r.logs.len(), 1);
    assert_eq!(r.logs[0].level, ExportLogLevel::Warn);
    assert_eq!(r.logs[0].message, "Export cancelled");
}

#[test]
fn git_first_command_follows_the_checks() {
    let first = |checks: Vec<GitCheck>| running(begin(&git_config(None, checks), None)).pending;
    assert_eq!(first(vec![GitCheck::Repo]), GitCommand::IsWorkTree);
    assert_eq!(first(vec![GitCheck::Clean, GitCheck::Repo]), GitCommand::IsWorkTree);
    assert_eq!(first(vec![GitCheck::Status]), GitCommand::Status);
    assert_eq!(first(vec![GitCheck::Clean]), GitCommand::Status);
    assert_eq!(first(vec![]), GitCommand::TopLevel);
}

#[test]
fn git_commands_have_their_arguments_and_directories() {
    let config = git_config(Some(GitMode::AddAndCommit), vec![GitCheck::Repo, GitCheck::Status]);
    let e = running(begin(&config, None));
    assert_eq!(e.arguments(), vec!["rev-parse", "--is-inside-work-tree"]);
    assert_eq!(e.directory(), "/work/site/.");
    let e = running(e.advance(ok("true\n"), false));
    assert_eq!(e.arguments(), vec!["status", "--porcelain"]);
    assert_eq!(e.directory(), "/work/site/.");
    let e = running(e.advance(ok(""), false));
    assert_eq!(e.arguments(), vec!["rev-parse", "--show-toplevel"]);
    assert_eq!(e.directory(), "/work/site/.");
    let e = running(e.advance(ok("/work/site\n"), false));
    assert_eq!(e.arguments(), vec!["add", "--", FILE]);
    assert_eq!(e.directory(), "/work/site");
    let e = running(e.advance(ok(""), false));
    assert_eq!(e.arguments(), vec!["commit", "-m", "Export a.md"]);
    assert_eq!(e.directory(), "/work/site");
}

#[test]
fn git_repo_check_only_and_not_a_repository() {
    let config = git_config(None, vec![GitCheck::Repo]);
    let e = running(begin(&config, None));
    assert_eq!(e.pending, GitCommand::IsWorkTree);
    let r = done(e.advance(err("fatal: not a git repository"), false));
    assert!(!r.ok);
    assert_eq!(code(&r), ExportErrorCode::GitRepoMissing);
    assert_eq!(r.summary, "Not a git repository");
    assert_eq!(r.error.as_ref().unwrap().detail, None);
    assert_eq!(messages(&r.logs), vec!["Running Git checks"]);
    assert_eq!(r.logs[0].detail.as_deref(), Some("/work/site/."));
}

#[test]
fn git_dirty_tree_with_clean_check_stages_nothing() {
    let config = git_config(Some(GitMode::AddAndCommit), vec![GitCheck::Clean]);
    let e = running(begin(&config, None));
    assert_eq!(e.pending, GitCommand::Status);
    let r = done(e.advance(ok(" M posts/a.md\n?? new.md\n"), false));
    assert!(!r.ok);
    assert_eq!(code(&r), ExportErrorCode::GitDirty);
    assert_eq!(r.summary, "Git working tree is not clean");
    assert_eq!(r.error.as_ref().unwrap().detail, None);
    assert_eq!(messages(&r.logs), vec!["Running Git checks", "Git status is not clean"]);
    assert_eq!(r.logs[1].level, ExportLogLevel::Warn);
    assert_eq!(r.logs[1].detail.as_deref(), Some("M posts/a.md\n?? new.md"));
}

#[test]
fn git_dirty_tree_with_status_check_goes_on() {
    let config = git_config(None, vec![GitCheck::Status]);
    let e = running(begin(&config, None));
    let e = running(e.advance(ok(" M posts/a.md\n"), false));
    assert_eq!(e.pending, GitCommand::TopLevel);
    assert_eq!(messages(&e.logs), vec!["Running Git checks", "Git status is not clean"]);
}

#[test]
fn git_clean_tree_is_logged() {
    let config = git_config(None, vec![GitCheck::Clean]);
    let e = running(begin(&config, None));
    let e = running(e.advance(ok("\n"), false));
    assert_eq!(e.pending, GitCommand::TopLevel);
    assert_eq!(e.logs[1].message, "Git status clean");
    assert_eq!(e.logs[1].level, ExportLogLevel::Info);
    assert_eq!(e.logs[1].detail, None);
}

#[test]
fn git_status_failure() {
    let config = git_config(None, vec![GitCheck::Status]);
    let r = done(running(begin(&config, None)).advance(err("boom"), false));
    assert_eq!(code(&r), ExportErrorCode::GitFailed);
    assert_eq!(r.summary, "Unable to read git status");
    assert_eq!(r.error.as_ref().unwrap().detail.as_deref(), Some("boom"));
}

#[test]
fn git_top_level_failure() {
    let config = git_config(None, vec![]);
    let r = done(running(begin(&config, None)).advance(err("fatal"), false));
    assert_eq!(code(&r), ExportErrorCode::GitRepoMissing);
    assert_eq!(r.summary, "Unable to resolve repository root");
    assert_eq!(r.error.as_ref().unwrap().detail.as_deref(), Some("fatal"));
}

#[test]
fn git_file_outside_the_repository() {
    let config = git_config(None, vec![]);
    let r = done(running(begin(&config, None)).advance(ok("/work/other\n"), false));
    assert_eq!(code(&r), ExportErrorCode::FileNotInRepo);
    assert_eq!(r.summary, "File is outside the git repository");
    assert_eq!(r.error.as_ref().unwrap().detail.as_deref(), Some("/work/other"));
}

#[test]
fn git_containment_goes_by_whole_components() {
    let config = git_config(None, vec![]);
    let r = done(running(begin(&config, None)).advance(ok("/work/si\n"), false));
    assert_eq!(code(&r), ExportErrorCode::FileNotInRepo);
}

#[test]
fn git_cancelled_before_staging() {
    let config = git_config(None, vec![]);
    let r = done(running(begin(&config, None)).advance(ok("/work/site\n"), true));
    assert_eq!(code(&r), ExportErrorCode::ExportCancelled);
    assert_eq!(messages(&r.logs), vec!["Running Git checks", "Export cancelled"]);
}

#[test]
fn git_add_only_completes_after_staging() {
    let config = git_config(None, vec![GitCheck::Repo]);
    let e = running(begin(&config, None));
    let e = running(e.advance(ok("true"), false));
    assert_eq!(e.pending, GitCommand::TopLevel);
    let e = running(e.advance(ok("/work/site\n"), false));
    assert_eq!(e.pending, GitCommand::Add);
    assert_eq!(e.repo_root, "/work/site");
    let r = done(e.advance(ok(""), false));
    assert!(r.ok);
    assert!(r.error.is_none());
    assert_eq!(r.summary, "Git export completed");
    assert_eq!(messages(&r.logs), vec!["Running Git checks", "Git add"]);
    assert_eq!(r.logs[1].detail.as_deref(), Some(FILE));
}

#[test]
fn git_add_failure() {
    let config = git_config(None, vec![]);
    let e = running(running(begin(&config, None)).advance(ok("/work/site"), false));
    let r = done(e.advance(err("index locked"), false));
    assert_eq!(code(&r), ExportErrorCode::GitFailed);
    assert_eq!(r.summary, "git add failed");
    assert_eq!(r.error.as_ref().unwrap().detail.as_deref(), Some("index locked"));
}

fn at_commit() -> GitExport {
    let config = git_config(Some(GitMode::AddAndCommit), vec![]);
    let e = running(running(begin(&config, None)).advance(ok("/work/site"), false));
    let e = running(e.advance(ok(""), false));
    assert_eq!(e.pending, GitCommand::Commit);
    e
}

#[test]
fn git_commit_completes() {
    let r = done(at_commit().advance(ok("[main 1a2b3c] Export a.md\n 1 file changed"), false));
    assert!(r.ok);
    assert_eq!(r.summary, "Git export completed");
    assert_eq!(messages(&r.logs), vec!["Running Git checks", "Git add", "Git commit"]);
    assert_eq!(r.logs[2].detail.as_deref(), Some("Export a.md"));
}

#[test]
fn git_nothing_to_commit_on_the_success_channel() {
    let r = done(at_commit().advance(ok("On branch main\nnothing to commit, working tree clean"), false));
    assert!(r.ok);
    assert!(r.error.is_none());
    assert_eq!(r.summary, "No changes to commit");
    assert_eq!(r.logs.last().unwrap().message, "Nothing to commit");
    assert_eq!(r.logs.last().unwrap().level, ExportLogLevel::Warn);
    assert_eq!(r.logs.last().unwrap().detail, None);
}

#[test]
fn git_nothing_to_commit_on_the_failure_channel() {
    let text = "On branch main\nnothing to commit, working tree clean\n";
    let r = done(at_commit().advance(err(text), false));
    assert!(r.ok);
    assert!(r.error.is_none());
    assert_eq!(r.summary, "No changes to commit");
    assert_eq!(r.logs.last().unwrap().message, "Nothing to commit");
    assert_eq!(r.logs.last().unwrap().detail.as_deref(), Some(text));
}

#[test]
fn git_commit_failure() {
    let r = done(at_commit().advance(err("author identity unknown"), false));
    assert!(!r.ok);
    assert_eq!(code(&r), ExportErrorCode::GitFailed);
    assert_eq!(r.summary, "git commit failed");
    assert_eq!(r.error.as_ref().unwrap().detail.as_deref(), Some("author identity unknown"));
}

#[test]
fn git_logs_given_at_the_start_are_kept() {
    let earlier = vec![ExportLog {
        level: ExportLogLevel::Info,
        message: "Loading export configuration".to_string(),
        detail: Some("/work/site/.export.toml".to_string()),
    }];
    let config = git_config(None, vec![GitCheck::Repo]);
    let e = running(run_git_export(ROOT, &config, &git_request(None), false, earlier));
    let r = done(e.advance(err("x"), false));
    assert_eq!(messages(&r.logs), vec!["Loading export configuration", "Running Git checks"]);
}
