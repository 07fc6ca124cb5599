use ernest::config::{
    default_git_checks, ExportConfig, GitConfig, GitProfiles, NetlifyConfig, VercelConfig,
    VercelEnvironment,
};
use ernest::export::{
    run_export, ConfigLoad, ExportEvent, ExportPending, ExportRun, ExportStep,
};
use ernest::ftp::FtpStep;
use ernest::git::{GitCommand, GitStep};
use ernest::response::{ExportErrorCode, ExportRequest, ExportResponse, ExportTarget};
use ernest::webhook::{NetlifyStep, VercelStep};

const DOCUMENT: &str = "/work/site/posts/a.md";

fn export_request(target: ExportTarget) -> ExportRequest {
    ExportRequest { file_path: DOCUMENT.to_string(), target, profile: None }
}

fn front(step: ExportStep) -> ExportRun {
    match step {
        ExportStep::Run(r) => r,
        other => panic!("not at the front: {:?}", other),
    }
}

fn ended(step: ExportStep) -> ExportResponse {
    match step {
        ExportStep::Done(r) => r,
        other => panic!("not ended: {:?}", other),
    }
}

fn export_code(r: &ExportResponse) -> ExportErrorCode {
    r.error.as_ref().expect("an error").code
}

fn located() -> ExportEvent {
    ExportEvent::Located {
        candidates: vec!["/work/site/posts".to_string(), "/work/site".to_string(), "/work".to_string(), "/".to_string()],
        has_config: vec![false, true, false, false],
    }
}

fn at_load(target: ExportTarget) -> ExportRun {
    let r = front(run_export(export_request(target), false));
    let r = front(r.advance(ExportEvent::FileProbed(true), false));
    front(r.advance(located(), false))
}

fn plain_config() -> ExportConfig {
    ExportConfig {
        version: 1,
        git: Some(GitConfig {
            enabled: true,
            mode: None,
            checks: default_git_checks(),
            profiles: GitProfiles::default(),
        }),
        ftp: None,
        netlify: None,
        vercel: None,
    }
}

#[test]
fn cancelled_before_the_worker_starts() {
    let r = ended(run_export(export_request(ExportTarget::Git), true));
    assert!(!r.ok);
    assert_eq!(export_code(&r), ExportErrorCode::ExportCancelled);
    assert_eq!(r.summary, "Export cancelled");
    assert_eq!(r.logs.len(), 1);
    assert_eq!(r.logs[0].message, "Export cancelled");
}

#[test]
fn job_begins_with_the_file_probe() {
    let r = front(run_export(export_request(ExportTarget::Ftp), false));
    assert_eq!(r.pending, ExportPending::FileProbe);
    assert_eq!(r.request.file_path, DOCUMENT);
    assert!(r.logs.is_empty());
}

#[test]
fn missing_document() {
    let r = front(run_export(export_request(ExportTarget::Git), false));
    let r = ended(r.advance(ExportEvent::FileProbed(false), false));
    assert_eq!(export_code(&r), ExportErrorCode::FileMissing);
    assert_eq!(r.summary, "File does not exist");
    assert!(r.logs.is_empty());
}

#[test]
fn document_outside_any_project() {
    let r = front(run_export(export_request(ExportTarget::Git), false));
    let r = front(r.advance(ExportEvent::FileProbed(true), false));
    assert_eq!(r.pending, ExportPending::Locate);
    let event = ExportEvent::Located {
        candidates: vec!["/work/site/posts".to_string(), "/work/site".to_string(), "/".to_string()],
        has_config: vec![false, false, false],
    };
    let r = ended(r.advance(event, false));
    assert!(!r.ok);
    assert_eq!(export_code(&r), ExportErrorCode::ConfigMissing);
    assert_eq!(r.summary, "No .export.toml found in parent folders");
    assert_eq!(r.error.as_ref().unwrap().detail, None);
}

#[test]
fn located_project_sets_root_and_config_path() {
    let r = at_load(ExportTarget::Git);
    assert_eq!(r.pending, ExportPending::LoadConfig);
    assert_eq!(r.project_root, "/work/site");
    assert_eq!(r.config_path, "/work/site/.export.toml");
    assert_eq!(r.logs.len(), 1);
    assert_eq!(r.logs[0].message, "Loading export configuration");
    assert_eq!(r.logs[0].detail.as_deref(), Some("/work/site/.export.toml"));
}

#[test]
fn unreadable_configuration() {
    let load = ConfigLoad::Unreadable("permission denied".to_string());
    let r = ended(at_load(ExportTarget::Git).advance(ExportEvent::ConfigLoaded(load), false));
    assert_eq!(export_code(&r), ExportErrorCode::ConfigMissing);
    assert_eq!(r.summary, "Unable to read .export.toml");
    assert_eq!(r.error.as_ref().unwrap().detail.as_deref(), Some("permission denied"));
    assert_eq!(r.logs.len(), 1);
}

#[test]
fn unparsable_configuration() {
    let load = ConfigLoad::Unparsable("expected `=`".to_string());
    let r = ended(at_load(ExportTarget::Git).advance(ExportEvent::ConfigLoaded(load), false));
    assert_eq!(export_code(&r), ExportErrorCode::ConfigInvalid);
    assert_eq!(r.summary, "Invalid .export.toml");
    assert_eq!(r.error.as_ref().unwrap().detail.as_deref(), Some("expected `=`"));
}

#[test]
fn unsupported_version() {
    let config = ExportConfig { version: 7, ..plain_config() };
    let r = ended(
        at_load(ExportTarget::Git).advance(ExportEvent::ConfigLoaded(ConfigLoad::Loaded(config)), false),
    );
    assert_eq!(export_code(&r), ExportErrorCode::UnsupportedConfigVersion);
    assert_eq!(r.summary, "Invalid export configuration");
    assert_eq!(r.error.as_ref().unwrap().detail.as_deref(), Some("unsupported config version: 7"));
}

#[test]
fn vercel_without_deploy_hook_is_rejected_before_any_adapter_runs() {
    let config = ExportConfig {
        vercel: Some(VercelConfig {
            enabled: true,
            project_name: Some("site".to_string()),
            deploy_hook_url: None,
            environment: VercelEnvironment::Production,
        }),
        ..plain_config()
    };
    for target in [ExportTarget::Git, ExportTarget::Vercel] {
        let copy = ExportConfig {
            version: config.version,
            git: None,
            ftp: None,
            netlify: None,
            vercel: Some(VercelConfig {
                enabled: true,
                project_name: Some("site".to_string()),
                deploy_hook_url: None,
                environment: VercelEnvironment::Production,
            }),
        };
        let r = ended(at_load(target).advance(ExportEvent::ConfigLoaded(ConfigLoad::Loaded(copy)), false));
        assert!(!r.ok);
        assert_eq!(export_code(&r), ExportErrorCode::ConfigInvalid);
        assert_eq!(r.summary, "Invalid export configuration");
        assert_eq!(
            r.error.as_ref().unwrap().detail.as_deref(),
            Some("vercel enabled but project_name is missing")
        );
    }
    assert!(config.validate().is_err());
}

#[test]
fn netlify_without_site_is_rejected_at_validation() {
    let config = ExportConfig {
        netlify: Some(NetlifyConfig { enabled: true, site_id: None, trigger_deploy: true }),
        ..plain_config()
    };
    let r = ended(
        at_load(ExportTarget::Netlify).advance(ExportEvent::ConfigLoaded(ConfigLoad::Loaded(config)), false),
    );
    assert_eq!(export_code(&r), ExportErrorCode::ConfigInvalid);
    assert_eq!(
        r.error.as_ref().unwrap().detail.as_deref(),
        Some("netlify enabled but site_id is missing")
    );
}

#[test]
fn cancelled_once_the_configuration_is_accepted() {
    let r = ended(
        at_load(ExportTarget::Git)
            .advance(ExportEvent::ConfigLoaded(ConfigLoad::Loaded(plain_config())), true),
    );
    assert_eq!(export_code(&r), ExportErrorCode::ExportCancelled);
    assert_eq!(r.logs.len(), 2);
    assert_eq!(r.logs[1].message, "Export cancelled");
}

#[test]
fn git_target_gets_the_export_with_the_project_root() {
    let step = at_load(ExportTarget::Git)
        .advance(ExportEvent::ConfigLoaded(ConfigLoad::Loaded(plain_config())), false);
    match step {
        ExportStep::Git(GitStep::Run(e)) => {
            assert_eq!(e.pending, GitCommand::IsWorkTree);
            assert_eq!(e.repo_path, "/work/site/.");
            assert_eq!(e.file_path, DOCUMENT);
            assert_eq!(e.logs.len(), 2);
            assert_eq!(e.logs[0].message, "Loading export configuration");
            assert_eq!(e.logs[1].message, "Running Git checks");
        }
        other => panic!("unexpected: {:?}", other),
    }
}

#[test]
fn repo_check_only_and_not_a_repository_end_to_end() {
    let step = at_load(ExportTarget::Git)
        .advance(ExportEvent::ConfigLoaded(ConfigLoad::Loaded(plain_config())), false);
    let e = match step {
        ExportStep::Git(GitStep::Run(e)) => e,
        other => panic!("unexpected: {:?}", other),
    };
    match e.advance(Err("fatal: not a git repository".to_string()), false) {
        GitStep::Done(r) => {
            assert!(!r.ok);
            assert_eq!(export_code(&r), ExportErrorCode::GitRepoMissing);
        }
        other => panic!("unexpected: {:?}", other),
    }
}

#[test]
fn other_targets_get_the_export() {
    let load = || ExportEvent::ConfigLoaded(ConfigLoad::Loaded(plain_config()));
    match at_load(ExportTarget::Ftp).advance(load(), false) {
        ExportStep::Ftp(FtpStep::Done(r)) => {
            assert_eq!(export_code(&r), ExportErrorCode::TargetDisabled);
            assert_eq!(r.summary, "FTP export is disabled");
            assert_eq!(r.logs.len(), 1);
        }
        other => panic!("unexpected: {:?}", other),
    }
    match at_load(ExportTarget::Netlify).advance(load(), false) {
        ExportStep::Netlify(NetlifyStep::Done(r)) => {
            assert_eq!(r.summary, "Netlify export is disabled")
        }
        other => panic!("unexpected: {:?}", other),
    }
    match at_load(ExportTarget::Vercel).advance(load(), false) {
        ExportStep::Vercel(VercelStep::Done(r)) => {
            assert_eq!(r.summary, "Vercel export is disabled")
        }
        other => panic!("unexpected: {:?}", other),
    }
}

#[test]
fn export_event_that_is_not_awaited_changes_nothing() {
    let r = front(run_export(export_request(ExportTarget::Git), false));
    let r = front(r.advance(located(), false));
    assert_eq!(r.pending, ExportPending::FileProbe);
    assert_eq!(r.project_root, "");
    let r = front(r.advance(ExportEvent::ConfigLoaded(ConfigLoad::Loaded(plain_config())), true));
    assert_eq!(r.pending, ExportPending::FileProbe);
    assert!(r.logs.is_empty());
}
