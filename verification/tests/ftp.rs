use ernest::config::{ExportConfig, FtpConfig, FtpProfile, FtpProfiles, FtpProtocol};
use ernest::ftp::{
    resolve_remote_path, resolve_username, run_ftp_export, FtpEvent, FtpExport, FtpPending,
    FtpStep, PASSWORD_VARIABLE, UPLOAD_AUTH_FAILED, UPLOAD_CANCELLED, USER_VARIABLE,
};
use ernest::named::NamedMap;
use ernest::response::{ExportErrorCode, ExportRequest, ExportResponse, ExportTarget};

const DOCUMENT: &str = "/work/site/posts/a.md";

fn live_profile() -> FtpProfile {
    FtpProfile {
        enabled: true,
        host: Some("example.org".to_string()),
        port: Some(2222),
        username: Some(" deploy ".to_string()),
        remote_path: Some("/srv/www/".to_string()),
    }
}

fn ftp_config(protocol: Option<FtpProtocol>, profile: FtpProfile) -> ExportConfig {
    let mut named = NamedMap::new();
    named.insert("live".to_string(), profile);
    named.insert("off".to_string(), FtpProfile { enabled: false, ..live_profile() });
    ExportConfig {
        version: 1,
        git: None,
        ftp: Some(FtpConfig { enabled: true, protocol, profiles: FtpProfiles { named } }),
        netlify: None,
        vercel: None,
    }
}

fn ftp_request(profile: Option<&str>) -> ExportRequest {
    ExportRequest {
        file_path: DOCUMENT.to_string(),
        target: ExportTarget::Ftp,
        profile: profile.map(|p| p.to_string()),
    }
}

fn begin_with(config: &ExportConfig, profile: Option<&str>) -> FtpStep {
    run_ftp_export(config, &ftp_request(profile), false, Vec::new())
}

fn ftp_running(step: FtpStep) -> FtpExport {
    match step {
        FtpStep::Run(e) => e,
        FtpStep::Done(r) => panic!("ended early: {:?}", r),
    }
}

fn ftp_done(step: FtpStep) -> ExportResponse {
    match step {
        FtpStep::Done(r) => r,
        FtpStep::Run(e) => panic!("still running: {:?}", e),
    }
}

fn ftp_code(r: &ExportResponse) -> ExportErrorCode {
    r.error.as_ref().expect("an error").code
}

fn at_upload(protocol: FtpProtocol, stored: Option<&str>) -> FtpExport {
    let config = ftp_config(Some(protocol), live_profile());
    let e = ftp_running(begin_with(&config, Some("live")));
    let e = ftp_running(e.advance(FtpEvent::Credential(Ok(stored.map(|s| s.to_string())))));
    assert_eq!(e.pending, FtpPending::FileSize);
    ftp_running(e.advance(FtpEvent::FileSize(Ok(20000))))
}

#[test]
fn ftp_constants() {
    assert_eq!(USER_VARIABLE, "USER");
    assert_eq!(PASSWORD_VARIABLE, "ERNEST_FTP_PASSWORD");
    assert_eq!(UPLOAD_CANCELLED, "export_cancelled");
    assert_eq!(UPLOAD_AUTH_FAILED, "ssh_auth_failed");
}

#[test]
fn remote_path_gets_the_file_name_behind_a_slash() {
    assert_eq!(resolve_remote_path("/srv/www/", DOCUMENT), "/srv/www/a.md");
    assert_eq!(resolve_remote_path("/srv/www/index.md", DOCUMENT), "/srv/www/index.md");
    assert_eq!(resolve_remote_path("/", DOCUMENT), "/a.md");
    assert_eq!(resolve_remote_path("", DOCUMENT), "");
    assert_eq!(resolve_remote_path("up/", "/"), "up/export.md");
}

#[test]
fn username_is_trimmed_or_falls_back() {
    assert_eq!(resolve_username(" deploy ", Some("me".to_string())), "deploy");
    assert_eq!(resolve_username("", Some("me".to_string())), "me");
    assert_eq!(resolve_username("  ", Some(" me ".to_string())), " me ");
    assert_eq!(resolve_username(" \t", None), "");
}

#[test]
fn ftp_disabled_target() {
    let mut config = ftp_config(None, live_profile());
    config.ftp.as_mut().unwrap().enabled = false;
    let r = ftp_done(begin_with(&config, Some("live")));
    assert_eq!(ftp_code(&r), ExportErrorCode::TargetDisabled);
    assert_eq!(r.summary, "FTP export is disabled");
    let config = ExportConfig { ftp: None, ..config };
    assert_eq!(ftp_code(&ftp_done(begin_with(&config, Some("live")))), ExportErrorCode::TargetDisabled);
}

#[test]
fn ftp_requires_a_profile() {
    let r = ftp_done(begin_with(&ftp_config(None, live_profile()), None));
    assert_eq!(ftp_code(&r), ExportErrorCode::ProfileRequired);
    assert_eq!(r.summary, "FTP export requires a profile");
    assert_eq!(r.error.as_ref().unwrap().detail, None);
}

#[test]
fn ftp_profile_missing_and_disabled() {
    let config = ftp_config(None, live_profile());
    let r = ftp_done(begin_with(&config, Some("nope")));
    assert_eq!(ftp_code(&r), ExportErrorCode::ProfileMissing);
    assert_eq!(r.summary, "FTP profile not found");
    assert_eq!(r.error.as_ref().unwrap().detail.as_deref(), Some("nope"));
    let r = ftp_done(begin_with(&config, Some("off")));
    assert_eq!(ftp_code(&r), ExportErrorCode::ProfileDisabled);
    assert_eq!(r.summary, "FTP profile is disabled");
    assert_eq!(r.error.as_ref().unwrap().detail.as_deref(), Some("off"));
}

#[test]
fn ftp_profile_without_host_or_path_is_invalid() {
    let config = ftp_config(None, FtpProfile { host: None, ..live_profile() });
    let r = ftp_done(begin_with(&config, Some("live")));
    assert_eq!(ftp_code(&r), ExportErrorCode::ConfigInvalid);
    assert_eq!(r.summary, "Invalid FTP profile");
    assert_eq!(r.error.as_ref().unwrap().detail.as_deref(), Some("Missing FTP host"));
    let config = ftp_config(None, FtpProfile { remote_path: None, ..live_profile() });
    let r = ftp_done(begin_with(&config, Some("live")));
    assert_eq!(ftp_code(&r), ExportErrorCode::ConfigInvalid);
    assert_eq!(r.error.as_ref().unwrap().detail.as_deref(), Some("Missing remote path"));
}

#[test]
fn ftp_cancelled_at_the_start() {
    let config = ftp_config(None, live_profile());
    let r = ftp_done(run_ftp_export(&config, &ftp_request(Some("live")), true, Vec::new()));
    assert_eq!(ftp_code(&r), ExportErrorCode::ExportCancelled);
    assert_eq!(r.logs.len(), 1);
}

#[test]
fn ftp_begins_with_the_stored_password() {
    let e = ftp_running(begin_with(&ftp_config(None, live_profile()), Some("live")));
    assert_eq!(e.pending, FtpPending::Credential);
    assert_eq!(e.protocol, FtpProtocol::Sftp);
    assert_eq!(e.host, "example.org");
    assert_eq!(e.port, 2222);
    assert_eq!(e.profile, "live");
    assert_eq!(e.file_path, DOCUMENT);
    assert_eq!(e.remote_path, "/srv/www/");
}

#[test]
fn ftp_credential_storage_failure() {
    let e = ftp_running(begin_with(&ftp_config(None, live_profile()), Some("live")));
    let r = ftp_done(e.advance(FtpEvent::Credential(Err("locked".to_string()))));
    assert_eq!(ftp_code(&r), ExportErrorCode::FtpFailed);
    assert_eq!(r.summary, "Unable to access credential storage");
    assert_eq!(r.error.as_ref().unwrap().detail.as_deref(), Some("locked"));
}

#[test]
fn ftp_configured_user_is_trimmed_and_the_variable_is_not_asked() {
    let e = ftp_running(begin_with(&ftp_config(None, live_profile()), Some("live")));
    let e = ftp_running(e.advance(FtpEvent::Credential(Ok(None))));
    assert_eq!(e.pending, FtpPending::FileSize);
    assert_eq!(e.username, "deploy");
    assert_eq!(e.remote_path, "/srv/www/a.md");
    assert_eq!(e.stored_password, None);
}

#[test]
fn ftp_user_falls_back_to_the_variable() {
    let config = ftp_config(None, FtpProfile { username: None, ..live_profile() });
    let e = ftp_running(begin_with(&config, Some("live")));
    let e = ftp_running(e.advance(FtpEvent::Credential(Ok(Some("pw".to_string())))));
    assert_eq!(e.pending, FtpPending::UserName);
    let e = ftp_running(e.advance(FtpEvent::Variable(Some("me".to_string()))));
    assert_eq!(e.pending, FtpPending::FileSize);
    assert_eq!(e.username, "me");
    assert_eq!(e.stored_password.as_deref(), Some("pw"));
}

#[test]
fn ftp_missing_username() {
    let config = ftp_config(None, FtpProfile { username: Some("  ".to_string()), ..live_profile() });
    let e = ftp_running(begin_with(&config, Some("live")));
    let e = ftp_running(e.advance(FtpEvent::Credential(Ok(None))));
    assert_eq!(e.pending, FtpPending::UserName);
    let r = ftp_done(e.advance(FtpEvent::Variable(None)));
    assert_eq!(ftp_code(&r), ExportErrorCode::FtpMissingUsername);
    assert_eq!(r.summary, "FTP username is missing");

    let e = ftp_running(begin_with(&config, Some("live")));
    let e = ftp_running(e.advance(FtpEvent::Credential(Ok(None))));
    let r = ftp_done(e.advance(FtpEvent::Variable(Some(String::new()))));
    assert_eq!(ftp_code(&r), ExportErrorCode::FtpMissingUsername);
}

#[test]
fn ftp_file_size_failure() {
    let e = ftp_running(begin_with(&ftp_config(None, live_profile()), Some("live")));
    let e = ftp_running(e.advance(FtpEvent::Credential(Ok(None))));
    let r = ftp_done(e.advance(FtpEvent::FileSize(Err("gone".to_string()))));
    assert_eq!(ftp_code(&r), ExportErrorCode::FtpFailed);
    assert_eq!(r.summary, "Unable to read file metadata");
    assert_eq!(r.error.as_ref().unwrap().detail.as_deref(), Some("gone"));
}

#[test]
fn sftp_upload_is_announced() {
    let e = at_upload(FtpProtocol::Sftp, None);
    assert_eq!(e.pending, FtpPending::SecureUpload);
    assert_eq!(e.total_bytes, 20000);
    assert_eq!(e.logs.len(), 1);
    assert_eq!(e.logs[0].message, "Connecting via SFTP");
    assert_eq!(e.logs[0].detail.as_deref(), Some("example.org"));
}

#[test]
fn sftp_upload_completes() {
    let r = ftp_done(at_upload(FtpProtocol::Sftp, None).advance(FtpEvent::Upload(Ok(()))));
    assert!(r.ok);
    assert!(r.error.is_none());
    assert_eq!(r.summary, "SFTP export completed");
}

#[test]
fn sftp_upload_cancelled() {
    let e = at_upload(FtpProtocol::Sftp, Some("pw"));
    let r = ftp_done(e.advance(FtpEvent::Upload(Err("export_cancelled".to_string()))));
    assert!(!r.ok);
    assert_eq!(ftp_code(&r), ExportErrorCode::ExportCancelled);
    assert_eq!(r.summary, "Export cancelled");
    assert_eq!(r.logs.last().unwrap().message, "Export cancelled");
}

#[test]
fn sftp_auth_failure_without_stored_password_asks_for_one() {
    let e = at_upload(FtpProtocol::Sftp, None);
    let r = ftp_done(e.advance(FtpEvent::Upload(Err("ssh_auth_failed".to_string()))));
    assert_eq!(ftp_code(&r), ExportErrorCode::FtpMissingPassword);
    assert_eq!(r.summary, "SFTP password missing (set in app or use SSH agent)");
    assert_eq!(r.error.as_ref().unwrap().detail, None);
}

#[test]
fn sftp_auth_failure_with_stored_password_is_a_failure() {
    let e = at_upload(FtpProtocol::Sftp, Some("pw"));
    let r = ftp_done(e.advance(FtpEvent::Upload(Err("ssh_auth_failed".to_string()))));
    assert_eq!(ftp_code(&r), ExportErrorCode::FtpFailed);
    assert_eq!(r.summary, "SFTP export failed");
    assert_eq!(r.error.as_ref().unwrap().detail.as_deref(), Some("ssh_auth_failed"));
}

#[test]
fn sftp_other_failure() {
    let e = at_upload(FtpProtocol::Sftp, None);
    let r = ftp_done(e.advance(FtpEvent::Upload(Err("connection refused".to_string()))));
    assert_eq!(ftp_code(&r), ExportErrorCode::FtpFailed);
    assert_eq!(r.error.as_ref().unwrap().detail.as_deref(), Some("connection refused"));
}

#[test]
fn plain_upload_uses_the_stored_password() {
    let e = at_upload(FtpProtocol::Ftp, Some("pw"));
    assert_eq!(e.pending, FtpPending::PlainUpload);
    assert_eq!(e.password, "pw");
    assert_eq!(e.logs.last().unwrap().message, "Connecting via FTP");
    assert_eq!(e.logs.last().unwrap().detail.as_deref(), Some("example.org"));
    let r = ftp_done(e.advance(FtpEvent::Upload(Ok(()))));
    assert!(r.ok);
    assert_eq!(r.summary, "FTP export completed");
}

#[test]
fn plain_upload_falls_back_to_the_variable() {
    let e = at_upload(FtpProtocol::Ftp, None);
    assert_eq!(e.pending, FtpPending::Password);
    let e = ftp_running(e.advance(FtpEvent::Variable(Some("from-env".to_string()))));
    assert_eq!(e.pending, FtpPending::PlainUpload);
    assert_eq!(e.password, "from-env");
}

#[test]
fn plain_upload_without_password() {
    let r = ftp_done(at_upload(FtpProtocol::Ftp, None).advance(FtpEvent::Variable(None)));
    assert_eq!(ftp_code(&r), ExportErrorCode::FtpMissingPassword);
    assert_eq!(r.summary, "FTP password missing (set in app)");

    let config = ftp_config(Some(FtpProtocol::Ftp), live_profile());
    let e = ftp_running(begin_with(&config, Some("live")));
    let e = ftp_running(e.advance(FtpEvent::Credential(Ok(Some(String::new())))));
    let r = ftp_done(e.advance(FtpEvent::FileSize(Ok(1))));
    assert_eq!(ftp_code(&r), ExportErrorCode::FtpMissingPassword);
}

#[test]
fn plain_upload_failure() {
    let e = at_upload(FtpProtocol::Ftp, Some("pw"));
    let r = ftp_done(e.advance(FtpEvent::Upload(Err("530 Login incorrect".to_string()))));
    assert_eq!(ftp_code(&r), ExportErrorCode::FtpFailed);
    assert_eq!(r.summary, "FTP export failed");
    assert_eq!(r.error.as_ref().unwrap().detail.as_deref(), Some("530 Login incorrect"));
}

#[test]
fn ftp_event_that_is_not_awaited_changes_nothing() {
    let e = ftp_running(begin_with(&ftp_config(None, live_profile()), Some("live")));
    let e = ftp_running(e.advance(FtpEvent::Upload(Ok(()))));
    assert_eq!(e.pending, FtpPending::Credential);
    let e = ftp_running(e.advance(FtpEvent::FileSize(Ok(5))));
    assert_eq!(e.pending, FtpPending::Credential);
    assert_eq!(e.total_bytes, 0);
    assert!(e.logs.is_empty());
}
