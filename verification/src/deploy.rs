//! Deploying a published snapshot: the output directory becomes a
//! repository, is committed, and is pushed to a remote over the secure
//! shell.

use crate::git::ProcessOutput;
use crate::paths::{path_is_absolute, path_join};
use crate::publish::{
    is_ssh_url,
    output_dir_name,
    resolve_output_dir,
    ssh_url,
    timestamp_now,
    DeployRequest,
    DeployResponse,
};
use crate::text::{
    blank,
    contains,
    has_prefix,
    has_substring,
    is_blank,
    join2,
    opt_as_str,
    opt_text,
    starts_with,
    texts,
    trim,
    trimmed,
};
use vstd::prelude::*;

verus! {

/// `args`, with a space between each two.
pub open spec fn spaced(args: Seq<Seq<char>>) -> Seq<char>
    decreases args.len(),
{
    if args.len() == 0 {
        Seq::empty()
    } else if args.len() == 1 {
        args[0]
    } else {
        spaced(args.drop_last()) + " "@ + args.last()
    }
}

/// Writes `args` with a space between each two.
pub fn space_out(args: &Vec<String>) -> (r: String)
    ensures
        r@ == spaced(texts(args@)),
{
    let mut r = String::new();
    let mut i: usize = 0;
    while i < args.len()
        invariant
            i <= args.len(),
            r@ == spaced(texts(args@).subrange(0, i as int)),
        decreases args.len() - i,
    {
        let ghost before = texts(args@).subrange(0, i as int);
        let ghost after = texts(args@).subrange(0, i + 1);
        proof {
            assert(after.drop_last() =~= before);
            assert(after.last() == args@[i as int]@);
        }
        if i > 0 {
            r.append(" ");
        } else {
            assert(before =~= Seq::<Seq<char>>::empty());
            assert(Seq::<char>::empty() + args@[i as int]@ =~= args@[i as int]@);
        }
        r.append(args[i].as_str());
        i += 1;
    }
    assert(texts(args@).subrange(0, args.len() as int) =~= texts(args@));
    r
}

/// What a run of the version-control tool means for a deploy: the output
/// of a process, standard output before standard error, as success where
/// its exit status is zero; else as failure, the standard output alone
/// where the standard error is blank. A process that could not be started
/// fails with the reason.
pub open spec fn command_result(spawned: Result<ProcessOutput, String>) -> Result<
    Seq<char>,
    Seq<char>,
> {
    match spawned {
        Ok(out) => if out.success {
            Ok(out.stdout@ + out.stderr@)
        } else if is_blank(out.stderr@) {
            Err(out.stdout@)
        } else {
            Err(out.stdout@ + out.stderr@)
        },
        Err(e) => Err(e@),
    }
}

/// The trail after a command: each command that was started is recorded
/// with its arguments.
pub open spec fn command_logs(
    logs: Seq<Seq<char>>,
    args: Seq<Seq<char>>,
    spawned: Result<ProcessOutput, String>,
) -> Seq<Seq<char>> {
    if spawned is Ok {
        logs.push("git "@ + spaced(args))
    } else {
        logs
    }
}

/// Records a run of the version-control tool in the trail and says what it
/// means.
pub fn run_git_command(
    logs: &mut Vec<String>,
    args: &Vec<String>,
    spawned: Result<ProcessOutput, String>,
) -> (r: Result<String, String>)
    ensures
        crate::git::outcome_text(r) == command_result(spawned),
        texts(final(logs)@) == command_logs(texts(old(logs)@), texts(args@), spawned),
{
    match spawned {
        Ok(out) => {
            let ghost before = logs@;
            let line = join2("git ", space_out(args).as_str());
            logs.push(line);
            assert(texts(logs@) =~= texts(before).push("git "@ + spaced(texts(args@))));
            if out.success {
                Ok(join2(out.stdout.as_str(), out.stderr.as_str()))
            } else if blank(out.stderr.as_str()) {
                Err(out.stdout)
            } else {
                Err(join2(out.stdout.as_str(), out.stderr.as_str()))
            }
        },
        Err(e) => Err(e),
    }
}

/// Whether a remote is given by its address rather than by its name.
pub open spec fn looks_like_url(remote: Seq<char>) -> bool {
    has_substring(remote, "://"@) || has_prefix(remote, "git@"@)
}

/// The name of the remote: `origin` for one given by its address, else
/// what was given.
pub open spec fn remote_name_of(remote: Seq<char>) -> Seq<char> {
    if looks_like_url(remote) {
        "origin"@
    } else {
        remote
    }
}

/// The branch to deploy to: the one that the request names, or `main`
/// where it names none or a blank one.
pub open spec fn branch_of(branch: Option<Seq<char>>) -> Seq<char> {
    match branch {
        Some(name) => if is_blank(name) {
            "main"@
        } else {
            name
        },
        None => "main"@,
    }
}

/// What a deploy waits for.
#[derive(Clone, Copy, Debug, PartialEq, Eq, Structural)]
pub enum DeployPending {
    /// Whether the output directory exists, what the agent variable holds,
    /// the canonical path of the directory, and whether it is a
    /// repository.
    ProbeOutput,
    /// The repository, created.
    Init,
    /// Whether the remote is known to the repository.
    RemoteProbe,
    /// The remote, added.
    RemoteAdd,
    /// The address of the remote, changed.
    RemoteSetUrl,
    /// The address of the remote.
    RemoteUrl,
    /// The branch, checked out.
    Checkout,
    /// Everything, staged.
    AddAll,
    /// The status of the work tree.
    Status,
    /// The snapshot, committed.
    Commit,
    /// The branch, pushed.
    Push,
    /// The log message, appended to the log file.
    WriteLog,
}

/// What came back from outside.
#[derive(Debug)]
pub enum DeployEvent {
    OutputProbed { exists: bool, agent: Option<String>, canonical: Result<String, String>, has_git: bool },
    RemoteKnown(bool),
    Git(Result<ProcessOutput, String>),
    Logged(Result<(), String>),
}

/// A deploy that waits for something from outside.
#[derive(Debug)]
pub struct DeployRun {
    pub pending: DeployPending,
    pub output_dir: String,
    pub remote: String,
    pub remote_name: String,
    pub branch: String,
    pub commit_message: String,
    pub log_message: String,
    pub summary: String,
    pub logs: Vec<String>,
}

/// A waiting deploy, as text.
pub struct DeployRunView {
    pub pending: DeployPending,
    pub output_dir: Seq<char>,
    pub remote: Seq<char>,
    pub remote_name: Seq<char>,
    pub branch: Seq<char>,
    pub commit_message: Seq<char>,
    pub log_message: Seq<char>,
    pub summary: Seq<char>,
    pub logs: Seq<Seq<char>>,
}

impl View for DeployRun {
    type V = DeployRunView;

    open spec fn view(&self) -> DeployRunView {
        DeployRunView {
            pending: self.pending,
            output_dir: self.output_dir@,
            remote: self.remote@,
            remote_name: self.remote_name@,
            branch: self.branch@,
            commit_message: self.commit_message@,
            log_message: self.log_message@,
            summary: self.summary@,
            logs: texts(self.logs@),
        }
    }
}

/// A response to a request to deploy, as text.
pub struct DeployResponseView {
    pub ok: bool,
    pub summary: Seq<char>,
    pub logs: Seq<Seq<char>>,
}

impl View for DeployResponse {
    type V = DeployResponseView;

    open spec fn view(&self) -> DeployResponseView {
        DeployResponseView { ok: self.ok, summary: self.summary@, logs: texts(self.logs@) }
    }
}

/// Where a deploy stands.
#[derive(Debug)]
pub enum DeployStep {
    Run(DeployRun),
    Done(Result<DeployResponse, String>),
}

/// A step, as text.
pub enum DeployStepView {
    Run(DeployRunView),
    Done(Result<DeployResponseView, Seq<char>>),
}

impl View for DeployStep {
    type V = DeployStepView;

    open spec fn view(&self) -> DeployStepView {
        match self {
            DeployStep::Run(r) => DeployStepView::Run(r@),
            DeployStep::Done(Ok(r)) => DeployStepView::Done(Ok(r@)),
            DeployStep::Done(Err(e)) => DeployStepView::Done(Err(e@)),
        }
    }
}

/// A deploy that ends with the failure `reason`.
pub open spec fn deploy_failed(reason: Seq<char>) -> DeployStepView {
    DeployStepView::Done(Err(reason))
}

/// The arguments of the pending command; none where the deploy waits for
/// something else.
pub open spec fn deploy_arguments(r: DeployRunView) -> Seq<Seq<char>> {
    match r.pending {
        DeployPending::Init => seq!["init"@],
        DeployPending::RemoteProbe => seq!["remote"@, "get-url"@, r.remote_name],
        DeployPending::RemoteAdd => seq!["remote"@, "add"@, r.remote_name, r.remote],
        DeployPending::RemoteSetUrl => seq!["remote"@, "set-url"@, r.remote_name, r.remote],
        DeployPending::RemoteUrl => seq!["remote"@, "get-url"@, r.remote_name],
        DeployPending::Checkout => seq!["checkout"@, "-B"@, r.branch],
        DeployPending::AddAll => seq!["add"@, "-A"@],
        DeployPending::Status => seq!["status"@, "--porcelain"@],
        DeployPending::Commit => seq!["commit"@, "-m"@, r.commit_message],
        DeployPending::Push => seq!["push"@, "-u"@, r.remote_name, r.branch],
        _ => Seq::empty(),
    }
}

/// How a deploy begins: the project root must be a directory, a remote
/// must be given, and the output directory must have a name; then the
/// output directory is probed.
pub open spec fn deploy_begin(request: DeployRequest, root_is_dir: bool) -> DeployStepView {
    let name = output_dir_name(opt_text(request.output_dir));
    if !root_is_dir {
        deploy_failed("Project root is missing"@)
    } else if is_blank(request.remote@) {
        deploy_failed("Deploy remote is missing"@)
    } else if name.len() == 0 {
        deploy_failed("Publish directory cannot be empty"@)
    } else {
        DeployStepView::Run(
            DeployRunView {
                pending: DeployPending::ProbeOutput,
                output_dir: if path_is_absolute(name) {
                    name
                } else {
                    path_join(request.project_root@, name)
                },
                remote: trimmed(request.remote@),
                remote_name: remote_name_of(trimmed(request.remote@)),
                branch: branch_of(opt_text(request.branch)),
                commit_message: Seq::empty(),
                log_message: Seq::empty(),
                summary: Seq::empty(),
                logs: Seq::empty(),
            },
        )
    }
}

/// The deploy turns to the remote: one given by its address is looked up
/// in the repository first, one given by its name is asked for its
/// address.
pub open spec fn to_remote(r: DeployRunView) -> DeployStepView {
    if looks_like_url(r.remote) {
        DeployStepView::Run(DeployRunView { pending: DeployPending::RemoteProbe, ..r })
    } else {
        DeployStepView::Run(DeployRunView { pending: DeployPending::RemoteUrl, ..r })
    }
}

/// The step after a command that must succeed: the failure ends the
/// deploy, else the deploy waits for `next`.
pub open spec fn after_command(
    r: DeployRunView,
    spawned: Result<ProcessOutput, String>,
    next: DeployPending,
) -> DeployStepView {
    match command_result(spawned) {
        Ok(_) => DeployStepView::Run(
            DeployRunView {
                pending: next,
                logs: command_logs(r.logs, deploy_arguments(r), spawned),
                ..r
            },
        ),
        Err(e) => deploy_failed(e),
    }
}

/// What an event means for the deploy, at the time `now`. A command that
/// fails ends the deploy, but for the two that add the remote or change
/// its address, whose outcome is not looked at. A work tree without
/// changes ends the deploy without a commit. An event that the deploy
/// does not wait for changes nothing.
pub open spec fn deploy_advance(r: DeployRunView, event: DeployEvent, now: Seq<char>)
    -> DeployStepView {
    match (r.pending, event) {
        (
            DeployPending::ProbeOutput,
            DeployEvent::OutputProbed { exists, agent, canonical, has_git },
        ) => {
            if !exists {
                deploy_failed("Publish directory does not exist. Run Publish first."@)
            } else if agent is None || is_blank(agent.unwrap()@) {
                deploy_failed("SSH agent not detected. Start ssh-agent first."@)
            } else {
                match canonical {
                    Ok(path) => {
                        let r = DeployRunView { output_dir: path@, ..r };
                        if has_git {
                            to_remote(r)
                        } else {
                            DeployStepView::Run(DeployRunView { pending: DeployPending::Init, ..r })
                        }
                    },
                    Err(e) => deploy_failed(e@),
                }
            }
        },
        (DeployPending::Init, DeployEvent::Git(spawned)) => match command_result(spawned) {
            Ok(_) => to_remote(
                DeployRunView { logs: command_logs(r.logs, deploy_arguments(r), spawned), ..r },
            ),
            Err(e) => deploy_failed(e),
        },
        (DeployPending::RemoteProbe, DeployEvent::RemoteKnown(known)) => DeployStepView::Run(
            DeployRunView {
                pending: if known {
                    DeployPending::RemoteSetUrl
                } else {
                    DeployPending::RemoteAdd
                },
                ..r
            },
        ),
        (DeployPending::RemoteAdd, DeployEvent::Git(spawned)) => DeployStepView::Run(
            DeployRunView {
                pending: DeployPending::RemoteUrl,
                logs: command_logs(r.logs, deploy_arguments(r), spawned),
                ..r
            },
        ),
        (DeployPending::RemoteSetUrl, DeployEvent::Git(spawned)) => DeployStepView::Run(
            DeployRunView {
                pending: DeployPending::RemoteUrl,
                logs: command_logs(r.logs, deploy_arguments(r), spawned),
                ..r
            },
        ),
        (DeployPending::RemoteUrl, DeployEvent::Git(spawned)) => match command_result(spawned) {
            Ok(url) => if !ssh_url(trimmed(url)) {
                deploy_failed("Deploy requires an SSH remote (git@ or ssh://)"@)
            } else {
                DeployStepView::Run(
                    DeployRunView {
                        pending: DeployPending::Checkout,
                        logs: command_logs(r.logs, deploy_arguments(r), spawned),
                        ..r
                    },
                )
            },
            Err(e) => deploy_failed(e),
        },
        (DeployPending::Checkout, DeployEvent::Git(spawned)) => after_command(
            r,
            spawned,
            DeployPending::AddAll,
        ),
        (DeployPending::AddAll, DeployEvent::Git(spawned)) => after_command(
            r,
            spawned,
            DeployPending::Status,
        ),
        (DeployPending::Status, DeployEvent::Git(spawned)) => match command_result(spawned) {
            Ok(status) => {
                let logs = command_logs(r.logs, deploy_arguments(r), spawned);
                if is_blank(status) {
                    DeployStepView::Run(
                        DeployRunView {
                            pending: DeployPending::WriteLog,
                            log_message: "No changes to deploy"@,
                            summary: "No changes to deploy"@,
                            logs,
                            ..r
                        },
                    )
                } else {
                    DeployStepView::Run(
                        DeployRunView {
                            pending: DeployPending::Commit,
                            commit_message: "Publish snapshot @ "@ + now,
                            logs,
                            ..r
                        },
                    )
                }
            },
            Err(e) => deploy_failed(e),
        },
        (DeployPending::Commit, DeployEvent::Git(spawned)) => after_command(
            r,
            spawned,
            DeployPending::Push,
        ),
        (DeployPending::Push, DeployEvent::Git(spawned)) => match command_result(spawned) {
            Ok(_) => DeployStepView::Run(
                DeployRunView {
                    pending: DeployPending::WriteLog,
                    log_message: "Pushed to "@ + r.remote_name + " ("@ + r.branch + ")"@,
                    summary: "Deployed to "@ + r.remote_name + " ("@ + r.branch + ")"@,
                    logs: command_logs(r.logs, deploy_arguments(r), spawned),
                    ..r
                },
            ),
            Err(e) => deploy_failed(e),
        },
        (DeployPending::WriteLog, DeployEvent::Logged(Ok(_))) => DeployStepView::Done(
            Ok(DeployResponseView { ok: true, summary: r.summary, logs: r.logs }),
        ),
        (DeployPending::WriteLog, DeployEvent::Logged(Err(e))) => deploy_failed(e@),
        _ => DeployStepView::Run(r),
    }
}

/// A deploy pushes only what it committed, commits only a work tree with
/// changes, and works on a branch only once the remote has shown an
/// address that is reached over the secure shell. The trail of a deploy
/// only grows.
pub proof fn lemma_deploy_order(r: DeployRunView, event: DeployEvent, now: Seq<char>)
    ensures
        match deploy_advance(r, event, now) {
            DeployStepView::Run(next) => {
                &&& next.pending == DeployPending::Push && next.pending != r.pending
                    ==> r.pending == DeployPending::Commit
                &&& next.pending == DeployPending::Commit && next.pending != r.pending
                    ==> r.pending == DeployPending::Status && match event {
                    DeployEvent::Git(spawned) => command_result(spawned) is Ok && !is_blank(
                        command_result(spawned)->Ok_0,
                    ),
                    _ => false,
                }
                &&& next.pending == DeployPending::Checkout && next.pending != r.pending
                    ==> r.pending == DeployPending::RemoteUrl && match event {
                    DeployEvent::Git(spawned) => command_result(spawned) is Ok && ssh_url(
                        trimmed(command_result(spawned)->Ok_0),
                    ),
                    _ => false,
                }
                &&& r.logs.is_prefix_of(next.logs)
            },
            DeployStepView::Done(Ok(response)) => response.ok && response.logs == r.logs
                && r.pending == DeployPending::WriteLog,
            DeployStepView::Done(Err(_)) => true,
        },
{
}

fn deploy_fail(reason: &str) -> (step: DeployStep)
    ensures
        step@ == deploy_failed(reason@),
{
    DeployStep::Done(Err(String::from_str(reason)))
}

/// The remote that a deploy goes to: its name, and whether it is given by
/// its address.
pub fn resolve_remote(remote: &str) -> (r: (String, bool))
    ensures
        r.0@ == remote_name_of(remote@),
        r.1 == looks_like_url(remote@),
{
    if contains(remote, "://") || starts_with(remote, "git@") {
        (String::from_str("origin"), true)
    } else {
        (String::from_str(remote), false)
    }
}

/// Begins a deploy. `root_is_dir` says whether the project root of the
/// request is a directory.
pub fn deploy_project(request: &DeployRequest, root_is_dir: bool) -> (step: DeployStep)
    ensures
        step@ == deploy_begin(*request, root_is_dir),
{
    if !root_is_dir {
        return deploy_fail("Project root is missing");
    }
    if blank(request.remote.as_str()) {
        return deploy_fail("Deploy remote is missing");
    }
    let output_dir = match resolve_output_dir(
        request.project_root.as_str(),
        opt_as_str(&request.output_dir),
    ) {
        Ok(dir) => dir,
        Err(e) => {
            return DeployStep::Done(Err(e));
        },
    };
    let remote = trim(request.remote.as_str());
    let (remote_name, _) = resolve_remote(remote.as_str());
    let branch = match &request.branch {
        Some(name) => if blank(name.as_str()) {
            String::from_str("main")
        } else {
            name.clone()
        },
        None => String::from_str("main"),
    };
    let run = DeployRun {
        pending: DeployPending::ProbeOutput,
        output_dir,
        remote,
        remote_name,
        branch,
        commit_message: String::new(),
        log_message: String::new(),
        summary: String::new(),
        logs: Vec::new(),
    };
    assert(texts(run.logs@) =~= Seq::<Seq<char>>::empty());
    DeployStep::Run(run)
}

fn named_branch(head: &str, name: &str, branch: &str) -> (r: String)
    ensures
        r@ == head@ + name@ + " ("@ + branch@ + ")"@,
{
    let mut r = String::from_str(head);
    r.append(name);
    r.append(" (");
    r.append(branch);
    r.append(")");
    r
}

impl DeployRun {
    /// The arguments with which the pending command is to be run.
    pub fn arguments(&self) -> (args: Vec<String>)
        ensures
            texts(args@) == deploy_arguments(self@),
    {
        let mut args: Vec<String> = Vec::new();
        match self.pending {
            DeployPending::Init => {
                args.push(String::from_str("init"));
            },
            DeployPending::RemoteProbe | DeployPending::RemoteUrl => {
                args.push(String::from_str("remote"));
                args.push(String::from_str("get-url"));
                args.push(self.remote_name.clone());
            },
            DeployPending::RemoteAdd => {
                args.push(String::from_str("remote"));
                args.push(String::from_str("add"));
                args.push(self.remote_name.clone());
                args.push(self.remote.clone());
            },
            DeployPending::RemoteSetUrl => {
                args.push(String::from_str("remote"));
                args.push(String::from_str("set-url"));
                args.push(self.remote_name.clone());
                args.push(self.remote.clone());
            },
            DeployPending::Checkout => {
                args.push(String::from_str("checkout"));
                args.push(String::from_str("-B"));
                args.push(self.branch.clone());
            },
            DeployPending::AddAll => {
                args.push(String::from_str("add"));
                args.push(String::from_str("-A"));
            },
            DeployPending::Status => {
                args.push(String::from_str("status"));
                args.push(String::from_str("--porcelain"));
            },
            DeployPending::Commit => {
                args.push(String::from_str("commit"));
                args.push(String::from_str("-m"));
                args.push(self.commit_message.clone());
            },
            DeployPending::Push => {
                args.push(String::from_str("push"));
                args.push(String::from_str("-u"));
                args.push(self.remote_name.clone());
                args.push(self.branch.clone());
            },
            _ => {},
        }
        assert(texts(args@) =~= deploy_arguments(self@));
        args
    }

    fn turn_to_remote(self) -> (step: DeployStep)
        ensures
            step@ == to_remote(self@),
    {
        let (_, by_address) = resolve_remote(self.remote.as_str());
        if by_address {
            DeployStep::Run(DeployRun { pending: DeployPending::RemoteProbe, ..self })
        } else {
            DeployStep::Run(DeployRun { pending: DeployPending::RemoteUrl, ..self })
        }
    }

    fn go_on_after(self, spawned: Result<ProcessOutput, String>, next: DeployPending) -> (step:
        DeployStep)
        ensures
            step@ == after_command(self@, spawned, next),
    {
        let args = self.arguments();
        let mut logs = self.logs;
        match run_git_command(&mut logs, &args, spawned) {
            Ok(_) => DeployStep::Run(DeployRun { pending: next, logs, ..self }),
            Err(e) => DeployStep::Done(Err(e)),
        }
    }

    /// Takes an event from outside and says how the deploy goes on; `now`
    /// is the time, which goes into the message of the commit.
    pub fn advance_at(self, event: DeployEvent, now: &str) -> (step: DeployStep)
        ensures
            step@ == deploy_advance(self@, event, now@),
    {
        match (self.pending, event) {
            (
                DeployPending::ProbeOutput,
                DeployEvent::OutputProbed { exists, agent, canonical, has_git },
            ) => {
                if !exists {
                    return deploy_fail("Publish directory does not exist. Run Publish first.");
                }
                let agent_there = match &agent {
                    Some(socket) => !blank(socket.as_str()),
                    None => false,
                };
                if !agent_there {
                    return deploy_fail("SSH agent not detected. Start ssh-agent first.");
                }
                match canonical {
                    Ok(path) => {
                        let run = DeployRun { output_dir: path, ..self };
                        if has_git {
                            run.turn_to_remote()
                        } else {
                            DeployStep::Run(DeployRun { pending: DeployPending::Init, ..run })
                        }
                    },
                    Err(e) => DeployStep::Done(Err(e)),
                }
            },
            (DeployPending::Init, DeployEvent::Git(spawned)) => {
                let args = self.arguments();
                let mut logs = self.logs;
                match run_git_command(&mut logs, &args, spawned) {
                    Ok(_) => {
                        let run = DeployRun { logs, ..self };
                        run.turn_to_remote()
                    },
                    Err(e) => DeployStep::Done(Err(e)),
                }
            },
            (DeployPending::RemoteProbe, DeployEvent::RemoteKnown(known)) => {
                let pending = if known {
                    DeployPending::RemoteSetUrl
                } else {
                    DeployPending::RemoteAdd
                };
                DeployStep::Run(DeployRun { pending, ..self })
            },
            (DeployPending::RemoteAdd, DeployEvent::Git(spawned)) => {
                let args = self.arguments();
                let mut logs = self.logs;
                let _ = run_git_command(&mut logs, &args, spawned);
                DeployStep::Run(DeployRun { pending: DeployPending::RemoteUrl, logs, ..self })
            },
            (DeployPending::RemoteSetUrl, DeployEvent::Git(spawned)) => {
                let args = self.arguments();
                let mut logs = self.logs;
                let _ = run_git_command(&mut logs, &args, spawned);
                DeployStep::Run(DeployRun { pending: DeployPending::RemoteUrl, logs, ..self })
            },
            (DeployPending::RemoteUrl, DeployEvent::Git(spawned)) => {
                let args = self.arguments();
                let mut logs = self.logs;
                match run_git_command(&mut logs, &args, spawned) {
                    Ok(url) => {
                        let url = trim(url.as_str());
                        if !is_ssh_url(url.as_str()) {
                            deploy_fail("Deploy requires an SSH remote (git@ or ssh://)")
                        } else {
                            DeployStep::Run(
                                DeployRun { pending: DeployPending::Checkout, logs, ..self },
                            )
                        }
                    },
                    Err(e) => DeployStep::Done(Err(e)),
                }
            },
            (DeployPending::Checkout, DeployEvent::Git(spawned)) => self.go_on_after(
                spawned,
                DeployPending::AddAll,
            ),
            (DeployPending::AddAll, DeployEvent::Git(spawned)) => self.go_on_after(
                spawned,
                DeployPending::Status,
            ),
            (DeployPending::Status, DeployEvent::Git(spawned)) => {
                let args = self.arguments();
                let mut logs = self.logs;
                match run_git_command(&mut logs, &args, spawned) {
                    Ok(status) => {
                        if blank(status.as_str()) {
                            DeployStep::Run(
                                DeployRun {
                                    pending: DeployPending::WriteLog,
                                    log_message: String::from_str("No changes to deploy"),
                                    summary: String::from_str("No changes to deploy"),
                                    logs,
                                    ..self
                                },
                            )
                        } else {
                            DeployStep::Run(
                                DeployRun {
                                    pending: DeployPending::Commit,
                                    commit_message: join2("Publish snapshot @ ", now),
                                    logs,
                                    ..self
                                },
                            )
                        }
                    },
                    Err(e) => DeployStep::Done(Err(e)),
                }
            },
            (DeployPending::Commit, DeployEvent::Git(spawned)) => self.go_on_after(
                spawned,
                DeployPending::Push,
            ),
            (DeployPending::Push, DeployEvent::Git(spawned)) => {
                let args = self.arguments();
                let mut logs = self.logs;
                match run_git_command(&mut logs, &args, spawned) {
                    Ok(_) => {
                        let log_message = named_branch(
                            "Pushed to ",
                            self.remote_name.as_str(),
                            self.branch.as_str(),
                        );
                        let summary = named_branch(
                            "Deployed to ",
                            self.remote_name.as_str(),
                            self.branch.as_str(),
                        );
                        DeployStep::Run(
                            DeployRun {
                                pending: DeployPending::WriteLog,
                                log_message,
                                summary,
                                logs,
                                ..self
                            },
                        )
                    },
                    Err(e) => DeployStep::Done(Err(e)),
                }
            },
            (DeployPending::WriteLog, DeployEvent::Logged(Ok(_))) => DeployStep::Done(
                Ok(DeployResponse { ok: true, summary: self.summary, logs: self.logs }),
            ),
            (DeployPending::WriteLog, DeployEvent::Logged(Err(e))) => DeployStep::Done(Err(e)),
            (_, _) => DeployStep::Run(self),
        }
    }

    /// Takes an event from outside and says how the deploy goes on, at the
    /// present time.
    pub fn advance(self, event: DeployEvent) -> (step: DeployStep)
        ensures
            exists|now: Seq<char>| step@ == deploy_advance(self@, event, now),
    {
        let now = timestamp_now();
        let step = self.advance_at(event, now.as_str());
        assert(step@ == deploy_advance(self@, event, now@));
        step
    }
}

} // verus!
