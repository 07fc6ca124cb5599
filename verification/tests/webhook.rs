use ernest::config::{ExportConfig, NetlifyConfig, VercelConfig, VercelEnvironment};
use ernest::response::{ExportErrorCode, ExportResponse};
use ernest::webhook::{
    finish_deploy, run_netlify_export, run_vercel_export, HttpReply, NetlifyEvent,
    NetlifyExport, NetlifyPending, NetlifyStep, VercelExport, VercelStep, ENVIRONMENT_HEADER,
};

fn netlify(enabled: bool, site_id: Option<&str>, trigger_deploy: bool) -> ExportConfig {
    ExportConfig {
        version: 1,
        git: None,
        ftp: None,
        netlify: Some(NetlifyConfig {
            enabled,
            site_id: site_id.map(|s| s.to_string()),
            trigger_deploy,
        }),
        vercel: None,
    }
}

fn vercel(enabled: bool, hook: Option<&str>, project: Option<&str>, environment: VercelEnvironment) -> ExportConfig {
    ExportConfig {
        version: 1,
        git: None,
        ftp: None,
        netlify: None,
        vercel: Some(VercelConfig {
            enabled,
            project_name: project.map(|s| s.to_string()),
            deploy_hook_url: hook.map(|s| s.to_string()),
            environment,
        }),
    }
}

fn netlify_running(step: NetlifyStep) -> NetlifyExport {
    match step {
        NetlifyStep::Run(e) => e,
        NetlifyStep::Done(r) => panic!("ended early: {:?}", r),
    }
}

fn netlify_done(step: NetlifyStep) -> ExportResponse {
    match step {
        NetlifyStep::Done(r) => r,
        NetlifyStep::Run(e) => panic!("still running: {:?}", e),
    }
}

fn vercel_running(step: VercelStep) -> VercelExport {
    match step {
        VercelStep::Run(e) => e,
        VercelStep::Done(r) => panic!("ended early: {:?}", r),
    }
}

fn vercel_done(step: VercelStep) -> ExportResponse {
    match step {
        VercelStep::Done(r) => r,
        VercelStep::Run(e) => panic!("still running: {:?}", e),
    }
}

fn hook_code(r: &ExportResponse) -> ExportErrorCode {
    r.error.as_ref().expect("an error").code
}

fn reply(success: bool, status: &str, body: Option<&str>) -> Result<HttpReply, String> {
    Ok(HttpReply { success, status: status.to_string(), body: body.map(|b| b.to_string()) })
}

fn netlify_at_post() -> NetlifyExport {
    let e = netlify_running(run_netlify_export(&netlify(true, Some(" site-1 "), true), false, Vec::new()));
    netlify_running(e.advance(NetlifyEvent::Credential(Ok(Some("tok".to_string()))), false))
}

#[test]
fn environment_header_name() {
    assert_eq!(ENVIRONMENT_HEADER, "X-Ernest-Environment");
}

#[test]
fn finish_deploy_reads_the_answer() {
    let code = ExportErrorCode::NetlifyFailed;
    let r = finish_deploy(reply(true, "200 OK", Some("{}")), code, "went", "failed", Vec::new());
    assert!(r.ok);
    assert_eq!(r.summary, "went");
    assert!(r.error.is_none());

    let r = finish_deploy(reply(false, "404 Not Found", Some("no such site")), code, "went", "failed", Vec::new());
    assert!(!r.ok);
    assert_eq!(r.summary, "failed");
    assert_eq!(hook_code(&r), ExportErrorCode::NetlifyFailed);
    assert_eq!(r.error.as_ref().unwrap().detail.as_deref(), Some("no such site"));

    let r = finish_deploy(reply(false, "500 Internal Server Error", Some("  \n")), code, "went", "failed", Vec::new());
    assert_eq!(r.error.as_ref().unwrap().detail.as_deref(), Some("500 Internal Server Error"));

    let r = finish_deploy(reply(false, "502 Bad Gateway", None), code, "went", "failed", Vec::new());
    assert_eq!(r.error.as_ref().unwrap().detail.as_deref(), Some("502 Bad Gateway"));

    let r = finish_deploy(Err("dns error".to_string()), code, "went", "failed", Vec::new());
    assert_eq!(r.error.as_ref().unwrap().detail.as_deref(), Some("dns error"));
}

#[test]
fn netlify_disabled_target() {
    let r = netlify_done(run_netlify_export(&netlify(false, Some("s"), true), false, Vec::new()));
    assert_eq!(hook_code(&r), ExportErrorCode::TargetDisabled);
    assert_eq!(r.summary, "Netlify export is disabled");
    let none = ExportConfig { netlify: None, ..netlify(true, None, true) };
    let r = netlify_done(run_netlify_export(&none, false, Vec::new()));
    assert_eq!(r.summary, "Netlify export is disabled");
}

#[test]
fn netlify_trigger_not_set() {
    let r = netlify_done(run_netlify_export(&netlify(true, Some("s"), false), false, Vec::new()));
    assert_eq!(hook_code(&r), ExportErrorCode::TargetDisabled);
    assert_eq!(r.summary, "Netlify deploy trigger disabled");
}

#[test]
fn netlify_cancelled_before_the_site_is_looked_at() {
    let r = netlify_done(run_netlify_export(&netlify(true, None, true), true, Vec::new()));
    assert_eq!(hook_code(&r), ExportErrorCode::ExportCancelled);
}

#[test]
fn netlify_without_site() {
    let r = netlify_done(run_netlify_export(&netlify(true, None, true), false, Vec::new()));
    assert_eq!(hook_code(&r), ExportErrorCode::ConfigInvalid);
    assert_eq!(r.summary, "Invalid Netlify configuration");
    assert_eq!(r.error.as_ref().unwrap().detail.as_deref(), Some("site_id missing"));
}

#[test]
fn netlify_asks_for_the_token() {
    let e = netlify_running(run_netlify_export(&netlify(true, Some(" site-1 "), true), false, Vec::new()));
    assert_eq!(e.pending, NetlifyPending::Credential);
    assert_eq!(e.site_id, "site-1");
}

#[test]
fn netlify_missing_token() {
    let e = netlify_running(run_netlify_export(&netlify(true, Some("s"), true), false, Vec::new()));
    let r = netlify_done(e.advance(NetlifyEvent::Credential(Ok(None)), false));
    assert_eq!(hook_code(&r), ExportErrorCode::NetlifyMissingToken);
    assert_eq!(r.summary, "Netlify token missing (set in app)");
    assert_eq!(r.error.as_ref().unwrap().detail, None);
}

#[test]
fn netlify_credential_storage_failure() {
    let e = netlify_running(run_netlify_export(&netlify(true, Some("s"), true), false, Vec::new()));
    let r = netlify_done(e.advance(NetlifyEvent::Credential(Err("locked".to_string())), false));
    assert_eq!(hook_code(&r), ExportErrorCode::NetlifyFailed);
    assert_eq!(r.summary, "Unable to access credential storage");
    assert_eq!(r.error.as_ref().unwrap().detail.as_deref(), Some("locked"));
}

#[test]
fn netlify_cancelled_before_the_request() {
    let e = netlify_running(run_netlify_export(&netlify(true, Some("s"), true), false, Vec::new()));
    let r = netlify_done(e.advance(NetlifyEvent::Credential(Ok(Some("tok".to_string()))), true));
    assert_eq!(hook_code(&r), ExportErrorCode::ExportCancelled);
}

#[test]
fn netlify_request_goes_to_the_builds_of_the_site() {
    let e = netlify_at_post();
    assert_eq!(e.pending, NetlifyPending::Post);
    assert_eq!(e.url, "https://api.netlify.com/api/v1/sites/site-1/builds");
    assert_eq!(e.token, "tok");
    assert_eq!(e.logs.len(), 1);
    assert_eq!(e.logs[0].message, "Triggering Netlify deploy");
    assert_eq!(e.logs[0].detail.as_deref(), Some("site-1"));
}

#[test]
fn netlify_deploy_triggered() {
    let r = netlify_done(netlify_at_post().advance(NetlifyEvent::Posted(reply(true, "200 OK", None)), false));
    assert!(r.ok);
    assert_eq!(r.summary, "Netlify deploy triggered");
}

#[test]
fn netlify_deploy_failed() {
    let r = netlify_done(
        netlify_at_post().advance(NetlifyEvent::Posted(reply(false, "401 Unauthorized", Some("bad token"))), false),
    );
    assert_eq!(hook_code(&r), ExportErrorCode::NetlifyFailed);
    assert_eq!(r.summary, "Netlify deploy failed");
    assert_eq!(r.error.as_ref().unwrap().detail.as_deref(), Some("bad token"));
    let r = netlify_done(netlify_at_post().advance(NetlifyEvent::Posted(Err("timed out".to_string())), false));
    assert_eq!(hook_code(&r), ExportErrorCode::NetlifyFailed);
    assert_eq!(r.error.as_ref().unwrap().detail.as_deref(), Some("timed out"));
}

#[test]
fn netlify_event_that_is_not_awaited_changes_nothing() {
    let e = netlify_running(run_netlify_export(&netlify(true, Some("s"), true), false, Vec::new()));
    let e = netlify_running(e.advance(NetlifyEvent::Posted(reply(true, "200 OK", None)), false));
    assert_eq!(e.pending, NetlifyPending::Credential);
    let e = netlify_at_post();
    let e = netlify_running(e.advance(NetlifyEvent::Credential(Ok(None)), false));
    assert_eq!(e.pending, NetlifyPending::Post);
}

#[test]
fn vercel_disabled_target() {
    let config = vercel(false, Some("https://h"), Some("p"), VercelEnvironment::Production);
    let r = vercel_done(run_vercel_export(&config, false, Vec::new()));
    assert_eq!(hook_code(&r), ExportErrorCode::TargetDisabled);
    assert_eq!(r.summary, "Vercel export is disabled");
}

#[test]
fn vercel_without_deploy_hook() {
    for hook in [None, Some(""), Some("  \t")] {
        let config = vercel(true, hook, Some("p"), VercelEnvironment::Production);
        let r = vercel_done(run_vercel_export(&config, false, Vec::new()));
        assert_eq!(hook_code(&r), ExportErrorCode::ConfigInvalid);
        assert_eq!(r.summary, "Invalid Vercel configuration");
        assert_eq!(r.error.as_ref().unwrap().detail.as_deref(), Some("deploy_hook_url missing"));
    }
}

#[test]
fn vercel_cancelled() {
    let config = vercel(true, Some("https://h"), Some("p"), VercelEnvironment::Production);
    let r = vercel_done(run_vercel_export(&config, true, Vec::new()));
    assert_eq!(hook_code(&r), ExportErrorCode::ExportCancelled);
}

#[test]
fn vercel_request_carries_the_environment() {
    let config = vercel(true, Some(" https://hook.example/x "), Some("blog"), VercelEnvironment::Preview);
    let e = vercel_running(run_vercel_export(&config, false, Vec::new()));
    assert_eq!(e.url, "https://hook.example/x");
    assert_eq!(e.environment, "preview");
    assert_eq!(e.logs[0].message, "Triggering Vercel deploy");
    assert_eq!(e.logs[0].detail.as_deref(), Some("blog (preview)"));

    let config = vercel(true, Some("https://h"), None, VercelEnvironment::Production);
    let e = vercel_running(run_vercel_export(&config, false, Vec::new()));
    assert_eq!(e.environment, "production");
    assert_eq!(e.logs[0].detail.as_deref(), Some("vercel (production)"));
}

#[test]
fn vercel_deploy_triggered_and_failed() {
    let config = vercel(true, Some("https://h"), Some("p"), VercelEnvironment::Production);
    let r = vercel_running(run_vercel_export(&config, false, Vec::new())).finish(reply(true, "201 Created", None));
    assert!(r.ok);
    assert_eq!(r.summary, "Vercel deploy triggered");
    let r = vercel_running(run_vercel_export(&config, false, Vec::new()))
        .finish(reply(false, "404 Not Found", Some("")));
    assert_eq!(hook_code(&r), ExportErrorCode::VercelFailed);
    assert_eq!(r.summary, "Vercel deploy failed");
    assert_eq!(r.error.as_ref().unwrap().detail.as_deref(), Some("404 Not Found"));
    let r = vercel_running(run_vercel_export(&config, false, Vec::new())).finish(Err("tls".to_string()));
    assert_eq!(hook_code(&r), ExportErrorCode::VercelFailed);
    assert_eq!(r.error.as_ref().unwrap().detail.as_deref(), Some("tls"));
}
