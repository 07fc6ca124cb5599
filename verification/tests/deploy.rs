use ernest::deploy::{
    deploy_project, resolve_remote, run_git_command, space_out, DeployEvent, DeployPending,
    DeployRun, DeployStep,
};
use ernest::git::ProcessOutput;
use ernest::publish::{DeployRequest, DeployResponse};

fn deploy_request(remote: &str, branch: Option<&str>) -> DeployRequest {
    DeployRequest {
        project_root: "/work/site".to_string(),
        output_dir: None,
        remote: remote.to_string(),
        branch: branch.map(|b| b.to_string()),
    }
}

fn deploying(step: DeployStep) -> DeployRun {
    match step {
        DeployStep::Run(r) => r,
        DeployStep::Done(r) => panic!("ended early: {:?}", r),
    }
}

fn deployed(step: DeployStep) -> Result<DeployResponse, String> {
    match step {
        DeployStep::Done(r) => r,
        DeployStep::Run(r) => panic!("still running: {:?}", r),
    }
}

fn refusal(step: DeployStep) -> String {
    deployed(step).unwrap_err()
}

fn ran(stdout: &str) -> DeployEvent {
    DeployEvent::Git(Ok(ProcessOutput {
        success: true,
        stdout: stdout.to_string(),
        stderr: String::new(),
    }))
}

fn broke(stderr: &str) -> DeployEvent {
    DeployEvent::Git(Ok(ProcessOutput {
        success: false,
        stdout: String::new(),
        stderr: stderr.to_string(),
    }))
}

fn probed(exists: bool, agent: Option<&str>, has_git: bool) -> DeployEvent {
    DeployEvent::OutputProbed {
        exists,
        agent: agent.map(|a| a.to_string()),
        canonical: Ok("/work/site/_publish".to_string()),
        has_git,
    }
}

fn strings(items: &[&str]) -> Vec<String> {
    items.iter().map(|s| s.to_string()).collect()
}

fn at_remote_url(remote: &str, branch: Option<&str>) -> DeployRun {
    let r = deploying(deploy_project(&deploy_request(remote, branch), true));
    let r = deploying(r.advance(probed(true, Some("/tmp/agent.sock"), true)));
    assert_eq!(r.pending, DeployPending::RemoteUrl);
    r
}

fn at_status() -> DeployRun {
    let r = at_remote_url("backup", Some("pages"));
    let r = deploying(r.advance(ran("git@host:me/site.git\n")));
    let r = deploying(r.advance(ran("")));
    let r = deploying(r.advance(ran("")));
    assert_eq!(r.pending, DeployPending::Status);
    r
}

#[test]
fn space_out_joins_with_spaces() {
    assert_eq!(space_out(&strings(&["remote", "get-url", "origin"])), "remote get-url origin");
    assert_eq!(space_out(&strings(&["init"])), "init");
    assert_eq!(space_out(&strings(&[])), "");
    assert_eq!(space_out(&strings(&["", "a", ""])), " a ");
}

#[test]
fn deploy_command_result_and_trail() {
    let args = strings(&["add", "-A"]);
    let out = |success, stdout: &str, stderr: &str| {
        Ok(ProcessOutput { success, stdout: stdout.to_string(), stderr: stderr.to_string() })
    };
    let mut logs = Vec::new();
    assert_eq!(run_git_command(&mut logs, &args, out(true, "out", "err")), Ok("outerr".to_string()));
    assert_eq!(run_git_command(&mut logs, &args, out(false, "out", " ")), Err("out".to_string()));
    assert_eq!(run_git_command(&mut logs, &args, out(false, "out", "err")), Err("outerr".to_string()));
    assert_eq!(logs, vec!["git add -A", "git add -A", "git add -A"]);
    assert_eq!(run_git_command(&mut logs, &args, Err("not found".to_string())), Err("not found".to_string()));
    assert_eq!(logs.len(), 3);
}

#[test]
fn remote_by_name_or_by_address() {
    assert_eq!(resolve_remote("backup"), ("backup".to_string(), false));
    assert_eq!(resolve_remote("git@host:me/site.git"), ("origin".to_string(), true));
    assert_eq!(resolve_remote("ssh://host/site.git"), ("origin".to_string(), true));
    assert_eq!(resolve_remote("https://host/site.git"), ("origin".to_string(), true));
}

#[test]
fn deploy_refuses_bad_requests() {
    assert_eq!(refusal(deploy_project(&deploy_request("origin", None), false)), "Project root is missing");
    assert_eq!(refusal(deploy_project(&deploy_request("  ", None), true)), "Deploy remote is missing");
    let request = DeployRequest { output_dir: Some(" ".to_string()), ..deploy_request("origin", None) };
    assert_eq!(refusal(deploy_project(&request, true)), "Publish directory cannot be empty");
}

#[test]
fn deploy_begins_by_probing_the_output_directory() {
    let r = deploying(deploy_project(&deploy_request(" git@host:me/site.git ", Some(" ")), true));
    assert_eq!(r.pending, DeployPending::ProbeOutput);
    assert_eq!(r.output_dir, "/work/site/_publish");
    assert_eq!(r.remote, "git@host:me/site.git");
    assert_eq!(r.remote_name, "origin");
    assert_eq!(r.branch, "main");
    assert!(r.arguments().is_empty());
    let r = deploying(deploy_project(&deploy_request("backup", Some("pages")), true));
    assert_eq!(r.remote_name, "backup");
    assert_eq!(r.branch, "pages");
}

#[test]
fn deploy_needs_the_output_directory_and_the_agent() {
    let begin = || deploying(deploy_project(&deploy_request("origin", None), true));
    assert_eq!(
        refusal(begin().advance(probed(false, Some("sock"), true))),
        "Publish directory does not exist. Run Publish first."
    );
    assert_eq!(
        refusal(begin().advance(probed(true, None, true))),
        "SSH agent not detected. Start ssh-agent first."
    );
    assert_eq!(
        refusal(begin().advance(probed(true, Some("  "), true))),
        "SSH agent not detected. Start ssh-agent first."
    );
    let event = DeployEvent::OutputProbed {
        exists: true,
        agent: Some("sock".to_string()),
        canonical: Err("too many links".to_string()),
        has_git: false,
    };
    assert_eq!(refusal(begin().advance(event)), "too many links");
}

#[test]
fn deploy_creates_the_repository_where_there_is_none() {
    let r = deploying(deploy_project(&deploy_request("backup", None), true));
    let r = deploying(r.advance(probed(true, Some("sock"), false)));
    assert_eq!(r.pending, DeployPending::Init);
    assert_eq!(r.arguments(), vec!["init"]);
    let r = deploying(r.advance(ran("Initialized empty Git repository")));
    assert_eq!(r.pending, DeployPending::RemoteUrl);
    assert_eq!(r.logs, vec!["git init"]);

    let r = deploying(deploy_project(&deploy_request("backup", None), true));
    let r = deploying(r.advance(probed(true, Some("sock"), false)));
    assert_eq!(refusal(r.advance(broke("cannot create"))), "cannot create");
}

#[test]
fn deploy_remote_given_by_address_is_added_or_changed() {
    let begin = || {
        let r = deploying(deploy_project(&deploy_request("git@host:me/site.git", None), true));
        deploying(r.advance(probed(true, Some("sock"), true)))
    };
    let r = begin();
    assert_eq!(r.pending, DeployPending::RemoteProbe);
    assert_eq!(r.arguments(), vec!["remote", "get-url", "origin"]);
    let r = deploying(r.advance(DeployEvent::RemoteKnown(false)));
    assert_eq!(r.pending, DeployPending::RemoteAdd);
    assert_eq!(r.arguments(), vec!["remote", "add", "origin", "git@host:me/site.git"]);
    assert!(r.logs.is_empty());
    let r = deploying(r.advance(broke("remote origin already exists")));
    assert_eq!(r.pending, DeployPending::RemoteUrl);
    assert_eq!(r.logs, vec!["git remote add origin git@host:me/site.git"]);

    let r = deploying(begin().advance(DeployEvent::RemoteKnown(true)));
    assert_eq!(r.pending, DeployPending::RemoteSetUrl);
    assert_eq!(r.arguments(), vec!["remote", "set-url", "origin", "git@host:me/site.git"]);
    let r = deploying(r.advance(DeployEvent::Git(Err("spawn failed".to_string()))));
    assert_eq!(r.pending, DeployPending::RemoteUrl);
    assert!(r.logs.is_empty());
}

#[test]
fn deploy_requires_an_ssh_remote() {
    let r = at_remote_url("backup", None);
    assert_eq!(r.arguments(), vec!["remote", "get-url", "backup"]);
    assert_eq!(
        refusal(r.advance(ran("https://host/me/site.git\n"))),
        "Deploy requires an SSH remote (git@ or ssh://)"
    );
    assert_eq!(
        refusal(at_remote_url("backup", None).advance(broke("No such remote 'backup'"))),
        "No such remote 'backup'"
    );
}

#[test]
fn deploy_commands_follow_in_order() {
    let r = at_remote_url("backup", Some("pages"));
    let r = deploying(r.advance(ran("  ssh://git@host/site.git\n")));
    assert_eq!(r.pending, DeployPending::Checkout);
    assert_eq!(r.arguments(), vec!["checkout", "-B", "pages"]);
    let r = deploying(r.advance(ran("")));
    assert_eq!(r.pending, DeployPending::AddAll);
    assert_eq!(r.arguments(), vec!["add", "-A"]);
    let r = deploying(r.advance(ran("")));
    assert_eq!(r.pending, DeployPending::Status);
    assert_eq!(r.arguments(), vec!["status", "--porcelain"]);
    let r = deploying(r.advance_at(ran("A  index.html\n"), "2024-05-01 12:00:00"));
    assert_eq!(r.pending, DeployPending::Commit);
    assert_eq!(r.commit_message, "Publish snapshot @ 2024-05-01 12:00:00");
    assert_eq!(r.arguments(), vec!["commit", "-m", "Publish snapshot @ 2024-05-01 12:00:00"]);
    let r = deploying(r.advance(ran("[pages 1a2b3c]")));
    assert_eq!(r.pending, DeployPending::Push);
    assert_eq!(r.arguments(), vec!["push", "-u", "backup", "pages"]);
    let r = deploying(r.advance(ran("")));
    assert_eq!(r.pending, DeployPending::WriteLog);
    assert_eq!(r.log_message, "Pushed to backup (pages)");
    assert!(r.arguments().is_empty());
    let response = deployed(r.advance(DeployEvent::Logged(Ok(())))).unwrap();
    assert!(response.ok);
    assert_eq!(response.summary, "Deployed to backup (pages)");
    assert_eq!(
        response.logs,
        vec![
            "git remote get-url backup",
            "git checkout -B pages",
            "git add -A",
            "git status --porcelain",
            "git commit -m Publish snapshot @ 2024-05-01 12:00:00",
            "git push -u backup pages",
        ]
    );
}

#[test]
fn deploy_without_changes_makes_no_commit() {
    let r = deploying(at_status().advance(ran(" \n")));
    assert_eq!(r.pending, DeployPending::WriteLog);
    assert_eq!(r.log_message, "No changes to deploy");
    assert_eq!(r.commit_message, "");
    let response = deployed(r.advance(DeployEvent::Logged(Ok(())))).unwrap();
    assert!(response.ok);
    assert_eq!(response.summary, "No changes to deploy");
    assert_eq!(response.logs.len(), 4);
}

#[test]
fn deploy_commit_message_holds_the_present_time() {
    let r = deploying(at_status().advance(ran("M  a.html")));
    assert_eq!(r.pending, DeployPending::Commit);
    let stamp = r.commit_message.strip_prefix("Publish snapshot @ ").expect("the head");
    let shape: String = stamp.chars().map(|c| if c.is_ascii_digit() { '9' } else { c }).collect();
    assert_eq!(shape, "9999-99-99 99:99:99");
}

#[test]
fn deploy_command_failures_end_the_deploy() {
    let r = at_remote_url("backup", None);
    let r = deploying(r.advance(ran("git@host:x.git")));
    assert_eq!(refusal(r.advance(broke("bad branch"))), "bad branch");
    assert_eq!(refusal(at_status().advance(broke("status failed"))), "status failed");
    let r = deploying(at_status().advance(ran("M a")));
    assert_eq!(refusal(r.advance(broke("nothing added"))), "nothing added");
    let r = deploying(at_status().advance(ran("M a")));
    let r = deploying(r.advance(ran("")));
    assert_eq!(refusal(r.advance(DeployEvent::Git(Err("no git".to_string())))), "no git");
    let r = deploying(at_status().advance(ran("")));
    assert_eq!(refusal(r.advance(DeployEvent::Logged(Err("read-only".to_string())))), "read-only");
}

#[test]
fn deploy_event_that_is_not_awaited_changes_nothing() {
    let r = deploying(deploy_project(&deploy_request("backup", None), true));
    let r = deploying(r.advance(ran("x")));
    assert_eq!(r.pending, DeployPending::ProbeOutput);
    assert!(r.logs.is_empty());
    let r = deploying(at_status().advance(DeployEvent::RemoteKnown(true)));
    assert_eq!(r.pending, DeployPending::Status);
}
