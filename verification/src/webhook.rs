//! The two webhook targets: what must hold before the deploy is triggered,
//! which request triggers it, and what the answer means.

use crate::config::{ExportConfig, VercelEnvironment};
use crate::response::{
    cancellation,
    cancelled_response,
    coherent,
    error_response,
    failure,
    info,
    log_info,
    log_views,
    success,
    success_response,
    ExportErrorCode,
    ExportLog,
    ExportResponse,
    LogView,
    ResponseView,
};
use crate::text::{blank, is_blank, join3, opt_text, trim, trimmed};
use vstd::prelude::*;

verus! {

/// The header that carries the environment to the second webhook.
pub const ENVIRONMENT_HEADER: &'static str = "X-Ernest-Environment";

/// The answer to a request: whether its status tells success, the status
/// as text, and the body where it could be read.
#[derive(Debug)]
pub struct HttpReply {
    pub success: bool,
    pub status: String,
    pub body: Option<String>,
}

/// The outcome of a request, as text: the answer, or why none came.
pub enum HttpOutcome {
    Answered { success: bool, status: Seq<char>, body: Option<Seq<char>> },
    Failed { reason: Seq<char> },
}

/// The outcome of a request, as text.
pub open spec fn http_outcome(reply: Result<HttpReply, String>) -> HttpOutcome {
    match reply {
        Ok(r) => HttpOutcome::Answered {
            success: r.success,
            status: r.status@,
            body: opt_text(r.body),
        },
        Err(e) => HttpOutcome::Failed { reason: e@ },
    }
}

/// What is told of a request that did not succeed: the body of the answer
/// where it is not blank, else the status; the reason where no answer came.
pub open spec fn failure_detail(outcome: HttpOutcome) -> Seq<char> {
    match outcome {
        HttpOutcome::Answered { success, status, body } => match body {
            Some(text) => if is_blank(text) {
                status
            } else {
                text
            },
            None => status,
        },
        HttpOutcome::Failed { reason } => reason,
    }
}

/// What the outcome of the request means for the export: success for an
/// answer whose status tells success, else a failure under `code` with the
/// detail of the outcome.
pub open spec fn deploy_result(
    outcome: HttpOutcome,
    code: ExportErrorCode,
    triggered: Seq<char>,
    failed: Seq<char>,
    logs: Seq<LogView>,
) -> ResponseView {
    match outcome {
        HttpOutcome::Answered { success: true, status, body } => success(triggered, logs),
        _ => failure(code, failed, Some(failure_detail(outcome)), logs),
    }
}

/// Turns the outcome of the request into the response of the export.
pub fn finish_deploy(
    reply: Result<HttpReply, String>,
    code: ExportErrorCode,
    triggered: &str,
    failed: &str,
    logs: Vec<ExportLog>,
) -> (r: ExportResponse)
    ensures
        r@ == deploy_result(http_outcome(reply), code, triggered@, failed@, log_views(logs@)),
{
    match reply {
        Ok(answer) => {
            if answer.success {
                success_response(triggered, logs)
            } else {
                let detail = match answer.body {
                    Some(text) => if blank(text.as_str()) {
                        answer.status
                    } else {
                        text
                    },
                    None => answer.status,
                };
                error_response(code, failed, Some(detail), logs)
            }
        },
        Err(reason) => error_response(code, failed, Some(reason), logs),
    }
}

/// What an export to the first webhook waits for.
#[derive(Clone, Copy, Debug, PartialEq, Eq, Structural)]
pub enum NetlifyPending {
    /// The token that the secret store holds.
    Credential,
    /// The outcome of the request that triggers the deploy.
    Post,
}

/// What came back from outside.
#[derive(Debug)]
pub enum NetlifyEvent {
    Credential(Result<Option<String>, String>),
    Posted(Result<HttpReply, String>),
}

/// An event, as text.
pub enum NetlifyEventView {
    Credential(Result<Option<Seq<char>>, Seq<char>>),
    Posted(HttpOutcome),
}

impl View for NetlifyEvent {
    type V = NetlifyEventView;

    open spec fn view(&self) -> NetlifyEventView {
        match self {
            NetlifyEvent::Credential(Ok(t)) => NetlifyEventView::Credential(Ok(opt_text(*t))),
            NetlifyEvent::Credential(Err(e)) => NetlifyEventView::Credential(Err(e@)),
            NetlifyEvent::Posted(reply) => NetlifyEventView::Posted(http_outcome(*reply)),
        }
    }
}

/// An export to the first webhook that waits for something from outside.
/// While the request is pending, `url` is its address and `token` its
/// bearer token.
#[derive(Debug)]
pub struct NetlifyExport {
    pub pending: NetlifyPending,
    pub site_id: String,
    pub url: String,
    pub token: String,
    pub logs: Vec<ExportLog>,
}

/// A waiting export, as text.
pub struct NetlifyExportView {
    pub pending: NetlifyPending,
    pub site_id: Seq<char>,
    pub url: Seq<char>,
    pub token: Seq<char>,
    pub logs: Seq<LogView>,
}

impl View for NetlifyExport {
    type V = NetlifyExportView;

    open spec fn view(&self) -> NetlifyExportView {
        NetlifyExportView {
            pending: self.pending,
            site_id: self.site_id@,
            url: self.url@,
            token: self.token@,
            logs: log_views(self.logs@),
        }
    }
}

/// Where an export to the first webhook stands.
#[derive(Debug)]
pub enum NetlifyStep {
    Run(NetlifyExport),
    Done(ExportResponse),
}

/// A step, as text.
pub enum NetlifyStepView {
    Run(NetlifyExportView),
    Done(ResponseView),
}

impl View for NetlifyStep {
    type V = NetlifyStepView;

    open spec fn view(&self) -> NetlifyStepView {
        match self {
            NetlifyStep::Run(e) => NetlifyStepView::Run(e@),
            NetlifyStep::Done(r) => NetlifyStepView::Done(r@),
        }
    }
}

/// The address that triggers a build of the site `site_id`.
pub open spec fn build_url(site_id: Seq<char>) -> Seq<char> {
    "https://api.netlify.com/api/v1/sites/"@ + site_id + "/builds"@
}

/// How an export to the first webhook begins. The section must be enabled
/// and its trigger set; a cancelled export ends here; the site must be
/// named; else the stored token is asked for.
pub open spec fn netlify_begin(config: ExportConfig, cancelled: bool, logs: Seq<LogView>)
    -> NetlifyStepView {
    if config.netlify is None || !config.netlify.unwrap().enabled {
        NetlifyStepView::Done(
            failure(ExportErrorCode::TargetDisabled, "Netlify export is disabled"@, None, logs),
        )
    } else if !config.netlify.unwrap().trigger_deploy {
        NetlifyStepView::Done(
            failure(
                ExportErrorCode::TargetDisabled,
                "Netlify deploy trigger disabled"@,
                None,
                logs,
            ),
        )
    } else if cancelled {
        NetlifyStepView::Done(cancellation("Export cancelled"@, logs))
    } else if config.netlify.unwrap().site_id is None {
        NetlifyStepView::Done(
            failure(
                ExportErrorCode::ConfigInvalid,
                "Invalid Netlify configuration"@,
                Some("site_id missing"@),
                logs,
            ),
        )
    } else {
        NetlifyStepView::Run(
            NetlifyExportView {
                pending: NetlifyPending::Credential,
                site_id: trimmed(config.netlify.unwrap().site_id.unwrap()@),
                url: Seq::empty(),
                token: Seq::empty(),
                logs,
            },
        )
    }
}

/// What an event means for the export. The cancellation flag is looked at
/// once the token is there. An event that the export does not wait for
/// changes nothing.
pub open spec fn netlify_advance(e: NetlifyExportView, event: NetlifyEventView, cancelled: bool)
    -> NetlifyStepView {
    match (e.pending, event) {
        (NetlifyPending::Credential, NetlifyEventView::Credential(Ok(Some(token)))) => if cancelled {
            NetlifyStepView::Done(cancellation("Export cancelled"@, e.logs))
        } else {
            NetlifyStepView::Run(
                NetlifyExportView {
                    pending: NetlifyPending::Post,
                    url: build_url(e.site_id),
                    token,
                    logs: e.logs.push(info("Triggering Netlify deploy"@, Some(e.site_id))),
                    ..e
                },
            )
        },
        (NetlifyPending::Credential, NetlifyEventView::Credential(Ok(None))) => NetlifyStepView::Done(
            failure(
                ExportErrorCode::NetlifyMissingToken,
                "Netlify token missing (set in app)"@,
                None,
                e.logs,
            ),
        ),
        (NetlifyPending::Credential, NetlifyEventView::Credential(Err(err))) => NetlifyStepView::Done(
            failure(
                ExportErrorCode::NetlifyFailed,
                "Unable to access credential storage"@,
                Some(err),
                e.logs,
            ),
        ),
        (NetlifyPending::Post, NetlifyEventView::Posted(outcome)) => NetlifyStepView::Done(
            deploy_result(
                outcome,
                ExportErrorCode::NetlifyFailed,
                "Netlify deploy triggered"@,
                "Netlify deploy failed"@,
                e.logs,
            ),
        ),
        _ => NetlifyStepView::Run(e),
    }
}

/// Every export to a webhook ends with a response of one of the two
/// shapes, success or failure with a code. The request of the first
/// webhook is made only with a token from the secret store, and goes to
/// the builds of the configured site.
pub proof fn lemma_webhook_responses(
    config: ExportConfig,
    logs: Seq<LogView>,
    e: NetlifyExportView,
    event: NetlifyEventView,
    v: VercelExportView,
    outcome: HttpOutcome,
    cancelled: bool,
)
    ensures
        netlify_begin(config, cancelled, logs) is Done ==> coherent(
            netlify_begin(config, cancelled, logs)->Done_0,
        ),
        netlify_advance(e, event, cancelled) is Done ==> coherent(
            netlify_advance(e, event, cancelled)->Done_0,
        ),
        vercel_begin(config, cancelled, logs) is Done ==> coherent(
            vercel_begin(config, cancelled, logs)->Done_0,
        ),
        coherent(VercelExport::finish_view(v, outcome)),
        match netlify_advance(e, event, cancelled) {
            NetlifyStepView::Run(next) => next.pending == NetlifyPending::Post && e.pending
                != next.pending ==> event == NetlifyEventView::Credential(Ok(Some(next.token)))
                && next.url == build_url(e.site_id),
            NetlifyStepView::Done(_) => true,
        },
{
}

/// Begins an export to the first webhook. `cancelled` is the cancellation
/// flag as it stands now.
pub fn run_netlify_export(config: &ExportConfig, cancelled: bool, logs: Vec<ExportLog>) -> (step:
    NetlifyStep)
    ensures
        step@ == netlify_begin(*config, cancelled, log_views(logs@)),
{
    let mut logs = logs;
    let netlify = match &config.netlify {
        Some(netlify) => netlify,
        None => {
            return NetlifyStep::Done(
                error_response(
                    ExportErrorCode::TargetDisabled,
                    "Netlify export is disabled",
                    None,
                    logs,
                ),
            );
        },
    };
    if !netlify.enabled {
        return NetlifyStep::Done(
            error_response(
                ExportErrorCode::TargetDisabled,
                "Netlify export is disabled",
                None,
                logs,
            ),
        );
    }
    if !netlify.trigger_deploy {
        return NetlifyStep::Done(
            error_response(
                ExportErrorCode::TargetDisabled,
                "Netlify deploy trigger disabled",
                None,
                logs,
            ),
        );
    }
    if cancelled {
        return NetlifyStep::Done(cancelled_response("Export cancelled", &mut logs));
    }
    let site_id = match &netlify.site_id {
        Some(site_id) => trim(site_id.as_str()),
        None => {
            return NetlifyStep::Done(
                error_response(
                    ExportErrorCode::ConfigInvalid,
                    "Invalid Netlify configuration",
                    Some(String::from_str("site_id missing")),
                    logs,
                ),
            );
        },
    };
    NetlifyStep::Run(
        NetlifyExport {
            pending: NetlifyPending::Credential,
            site_id,
            url: String::new(),
            token: String::new(),
            logs,
        },
    )
}

impl NetlifyExport {
    /// Takes an event from outside and says how the export goes on.
    /// `cancelled` is the cancellation flag as it stands now.
    pub fn advance(self, event: NetlifyEvent, cancelled: bool) -> (step: NetlifyStep)
        ensures
            step@ == netlify_advance(self@, event@, cancelled),
    {
        match (self.pending, event) {
            (NetlifyPending::Credential, NetlifyEvent::Credential(Ok(Some(token)))) => {
                let mut logs = self.logs;
                if cancelled {
                    return NetlifyStep::Done(cancelled_response("Export cancelled", &mut logs));
                }
                let url = join3(
                    "https://api.netlify.com/api/v1/sites/",
                    self.site_id.as_str(),
                    "/builds",
                );
                log_info(&mut logs, "Triggering Netlify deploy", Some(self.site_id.clone()));
                NetlifyStep::Run(
                    NetlifyExport {
                        pending: NetlifyPending::Post,
                        site_id: self.site_id,
                        url,
                        token,
                        logs,
                    },
                )
            },
            (NetlifyPending::Credential, NetlifyEvent::Credential(Ok(None))) => NetlifyStep::Done(
                error_response(
                    ExportErrorCode::NetlifyMissingToken,
                    "Netlify token missing (set in app)",
                    None,
                    self.logs,
                ),
            ),
            (NetlifyPending::Credential, NetlifyEvent::Credential(Err(err))) => NetlifyStep::Done(
                error_response(
                    ExportErrorCode::NetlifyFailed,
                    "Unable to access credential storage",
                    Some(err),
                    self.logs,
                ),
            ),
            (NetlifyPending::Post, NetlifyEvent::Posted(reply)) => NetlifyStep::Done(
                finish_deploy(
                    reply,
                    ExportErrorCode::NetlifyFailed,
                    "Netlify deploy triggered",
                    "Netlify deploy failed",
                    self.logs,
                ),
            ),
            (_, _) => NetlifyStep::Run(self),
        }
    }
}

/// An export to the second webhook that waits for the outcome of the
/// request to `url`, which carries `environment` in its header.
#[derive(Debug)]
pub struct VercelExport {
    pub url: String,
    pub environment: String,
    pub logs: Vec<ExportLog>,
}

/// A waiting export, as text.
pub struct VercelExportView {
    pub url: Seq<char>,
    pub environment: Seq<char>,
    pub logs: Seq<LogView>,
}

impl View for VercelExport {
    type V = VercelExportView;

    open spec fn view(&self) -> VercelExportView {
        VercelExportView {
            url: self.url@,
            environment: self.environment@,
            logs: log_views(self.logs@),
        }
    }
}

/// Where an export to the second webhook stands.
#[derive(Debug)]
pub enum VercelStep {
    Run(VercelExport),
    Done(ExportResponse),
}

/// A step, as text.
pub enum VercelStepView {
    Run(VercelExportView),
    Done(ResponseView),
}

impl View for VercelStep {
    type V = VercelStepView;

    open spec fn view(&self) -> VercelStepView {
        match self {
            VercelStep::Run(e) => VercelStepView::Run(e@),
            VercelStep::Done(r) => VercelStepView::Done(r@),
        }
    }
}

/// The name of an environment in the header.
pub open spec fn environment_name(environment: VercelEnvironment) -> Seq<char> {
    match environment {
        VercelEnvironment::Production => "production"@,
        VercelEnvironment::Preview => "preview"@,
    }
}

/// How an export to the second webhook begins. The section must be
/// enabled and name a deploy hook that is not blank; a cancelled export
/// ends here; else the deploy is announced and the request is asked for.
pub open spec fn vercel_begin(config: ExportConfig, cancelled: bool, logs: Seq<LogView>)
    -> VercelStepView {
    if config.vercel is None || !config.vercel.unwrap().enabled {
        VercelStepView::Done(
            failure(ExportErrorCode::TargetDisabled, "Vercel export is disabled"@, None, logs),
        )
    } else {
        let vercel = config.vercel.unwrap();
        if vercel.deploy_hook_url is None || is_blank(vercel.deploy_hook_url.unwrap()@) {
            VercelStepView::Done(
                failure(
                    ExportErrorCode::ConfigInvalid,
                    "Invalid Vercel configuration"@,
                    Some("deploy_hook_url missing"@),
                    logs,
                ),
            )
        } else if cancelled {
            VercelStepView::Done(cancellation("Export cancelled"@, logs))
        } else {
            let environment = environment_name(vercel.environment);
            let project = match vercel.project_name {
                Some(name) => name@,
                None => "vercel"@,
            };
            VercelStepView::Run(
                VercelExportView {
                    url: trimmed(vercel.deploy_hook_url.unwrap()@),
                    environment,
                    logs: logs.push(
                        info(
                            "Triggering Vercel deploy"@,
                            Some(project + " ("@ + environment + ")"@),
                        ),
                    ),
                },
            )
        }
    }
}

/// Begins an export to the second webhook. `cancelled` is the cancellation
/// flag as it stands now.
pub fn run_vercel_export(config: &ExportConfig, cancelled: bool, logs: Vec<ExportLog>) -> (step:
    VercelStep)
    ensures
        step@ == vercel_begin(*config, cancelled, log_views(logs@)),
{
    let mut logs = logs;
    let vercel = match &config.vercel {
        Some(vercel) => vercel,
        None => {
            return VercelStep::Done(
                error_response(
                    ExportErrorCode::TargetDisabled,
                    "Vercel export is disabled",
                    None,
                    logs,
                ),
            );
        },
    };
    if !vercel.enabled {
        return VercelStep::Done(
            error_response(
                ExportErrorCode::TargetDisabled,
                "Vercel export is disabled",
                None,
                logs,
            ),
        );
    }
    let url = match &vercel.deploy_hook_url {
        Some(url) => {
            if blank(url.as_str()) {
                return VercelStep::Done(
                    error_response(
                        ExportErrorCode::ConfigInvalid,
                        "Invalid Vercel configuration",
                        Some(String::from_str("deploy_hook_url missing")),
                        logs,
                    ),
                );
            }
            trim(url.as_str())
        },
        None => {
            return VercelStep::Done(
                error_response(
                    ExportErrorCode::ConfigInvalid,
                    "Invalid Vercel configuration",
                    Some(String::from_str("deploy_hook_url missing")),
                    logs,
                ),
            );
        },
    };
    if cancelled {
        return VercelStep::Done(cancelled_response("Export cancelled", &mut logs));
    }
    let environment = match vercel.environment {
        VercelEnvironment::Production => "production",
        VercelEnvironment::Preview => "preview",
    };
    let project = match &vercel.project_name {
        Some(name) => name.clone(),
        None => String::from_str("vercel"),
    };
    let mut detail = project;
    detail.append(" (");
    detail.append(environment);
    detail.append(")");
    log_info(&mut logs, "Triggering Vercel deploy", Some(detail));
    VercelStep::Run(VercelExport { url, environment: String::from_str(environment), logs })
}

impl VercelExport {
    /// What the outcome of the request means for the export.
    pub open spec fn finish_view(e: VercelExportView, outcome: HttpOutcome) -> ResponseView {
        deploy_result(
            outcome,
            ExportErrorCode::VercelFailed,
            "Vercel deploy triggered"@,
            "Vercel deploy failed"@,
            e.logs,
        )
    }

    /// Takes the outcome of the request and ends the export.
    pub fn finish(self, reply: Result<HttpReply, String>) -> (r: ExportResponse)
        ensures
            r@ == Self::finish_view(self@, http_outcome(reply)),
    {
        finish_deploy(
            reply,
            ExportErrorCode::VercelFailed,
            "Vercel deploy triggered",
            "Vercel deploy failed",
            self.logs,
        )
    }
}

} // verus!
