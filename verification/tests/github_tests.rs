use mru::command::{CommandResult, CommandSpec, RepoDir};
use mru::github::{
    auth_command, check_gh_cli, check_pr_status, clone_outcome, clone_repository, create_pr,
    dry_run_pr_url, existing_pr, existing_pr_url, fork_outcome, fork_repository, forked_url,
    list_prs, list_prs_command, merge_command, merge_pr, pr_created, pr_status_command,
    remote_command, HostError, HostFault, PullRequest,
};

fn repo() -> RepoDir {
    RepoDir { path: "~/app".to_string(), dir: "/home/ann/app".to_string() }
}

fn done(success: bool, stdout: &str, stderr: &str) -> CommandResult {
    CommandResult::Finished {
        success,
        stdout: stdout.as_bytes().to_vec(),
        stderr: stderr.as_bytes().to_vec(),
    }
}

fn cmd(program: &str, args: &[&str], dir: Option<&str>) -> CommandSpec {
    CommandSpec {
        program: program.to_string(),
        args: args.iter().map(|a| a.to_string()).collect(),
        dir: dir.map(|d| d.to_string()),
    }
}

fn gh(args: &[&str]) -> CommandSpec {
    cmd("gh", args, Some("/home/ann/app"))
}

fn fault(r: Result<impl std::fmt::Debug, HostError>) -> (HostFault, String) {
    let e = r.unwrap_err();
    (e.fault, e.detail)
}

#[test]
fn auth_check_runs_gh_auth_status() {
    assert_eq!(auth_command(), cmd("gh", &["auth", "status"], None));
    assert_eq!(check_gh_cli(&done(true, "", "")).unwrap(), true);
    assert_eq!(check_gh_cli(&done(false, "", "not logged in")).unwrap(), false);
    assert_eq!(
        fault(check_gh_cli(&CommandResult::NotStarted)),
        (HostFault::AuthNotStarted, String::new())
    );
}

#[test]
fn create_pr_builds_the_command() {
    let p = create_pr(&repo(), "update-a-1", "chore: a", false, true, None);
    assert_eq!(p.notice, "Creating PR for branch 'update-a-1' with title: 'chore: a'");
    assert_eq!(
        p.command,
        Some(gh(&["pr", "create", "--title", "chore: a", "--head", "update-a-1", "--draft"]))
    );
    let p = create_pr(&repo(), "b", "t", false, false, Some("text"));
    assert_eq!(
        p.command,
        Some(gh(&["pr", "create", "--title", "t", "--head", "b", "--body", "text"]))
    );
    let p = create_pr(&repo(), "b", "t", false, true, Some("text"));
    assert_eq!(
        p.command,
        Some(gh(&["pr", "create", "--title", "t", "--head", "b", "--draft", "--body", "text"]))
    );
    let p = create_pr(&repo(), "b", "t", false, false, None);
    assert_eq!(p.command, Some(gh(&["pr", "create", "--title", "t", "--head", "b"])));
}

#[test]
fn create_pr_in_a_dry_run_only_announces() {
    let p = create_pr(&repo(), "b", "t", true, true, Some("x"));
    assert_eq!(p.notice, "Would create PR for branch 'b' with title: 't'");
    assert_eq!(p.command, None);
    assert_eq!(dry_run_pr_url(), "dry-run-pr-url");
}

#[test]
fn created_pr_gives_its_address() {
    let r = pr_created(&done(true, "https://github.com/o/r/pull/7\n", ""));
    assert_eq!(r.unwrap().as_deref(), Some("https://github.com/o/r/pull/7"));
}

#[test]
fn pr_that_exists_is_looked_up() {
    let r = pr_created(&done(false, "", "a pull request for branch \"b\" already exists:\nurl"));
    assert_eq!(r.unwrap(), None);
    let r = pr_created(&done(false, "", "there is already a pull request open"));
    assert_eq!(r.unwrap(), None);
    let p = existing_pr(&repo(), "b");
    assert_eq!(p.notice, "PR already exists for branch 'b'");
    assert_eq!(
        p.command,
        Some(gh(&["pr", "view", "--json", "url", "--jq", ".url", "--head", "b"]))
    );
    assert_eq!(
        existing_pr_url(&done(true, " https://github.com/o/r/pull/7\n", "")).unwrap(),
        "https://github.com/o/r/pull/7"
    );
    assert_eq!(existing_pr_url(&done(false, "x", "y")).unwrap(), "existing-pr-url-not-found");
    assert_eq!(
        fault(existing_pr_url(&CommandResult::NotStarted)),
        (HostFault::ViewNotStarted, String::new())
    );
}

#[test]
fn pr_failures_carry_what_the_host_said() {
    assert_eq!(
        fault(pr_created(&done(false, "", "no commits between main and b"))),
        (HostFault::CreateFailed, "no commits between main and b".to_string())
    );
    assert_eq!(
        fault(pr_created(&CommandResult::NotStarted)),
        (HostFault::CreateNotStarted, String::new())
    );
    let e = pr_created(&done(false, "", "boom")).unwrap_err();
    assert_eq!(e.message(), "Failed to create PR: boom");
}

#[test]
fn pr_state_is_no_pr_where_the_host_knows_none() {
    assert_eq!(
        pr_status_command(&repo(), "b"),
        gh(&["pr", "view", "--json", "state", "--jq", ".state", "--head", "b"])
    );
    assert_eq!(check_pr_status(&done(true, "OPEN\n", "")).unwrap(), "OPEN");
    assert_eq!(check_pr_status(&done(false, "", "no pull requests found")).unwrap(), "NO_PR");
    assert_eq!(
        fault(check_pr_status(&CommandResult::NotStarted)),
        (HostFault::StatusNotStarted, String::new())
    );
}

#[test]
fn pr_list_is_read_from_json() {
    assert_eq!(
        list_prs_command(&repo(), "open"),
        gh(&["pr", "list", "--json", "title,headRefName,url", "--state", "open"])
    );
    let text = r#"[{"title":"A","headRefName":"a","url":"u1"},{"title":"B","url":7,"extra":1}]"#;
    let prs = list_prs(&done(true, text, "")).unwrap();
    assert_eq!(
        prs,
        vec![
            PullRequest { title: "A".into(), branch: "a".into(), url: "u1".into() },
            PullRequest { title: "B".into(), branch: "".into(), url: "".into() },
        ]
    );
    assert_eq!(list_prs(&done(true, "[]", "")).unwrap(), Vec::new());
    assert_eq!(list_prs(&done(true, "[1]", "")).unwrap().len(), 1);
}

#[test]
fn pr_list_failures() {
    assert_eq!(
        fault(list_prs(&done(false, "[]", "bad state"))),
        (HostFault::ListFailed, "bad state".to_string())
    );
    assert_eq!(fault(list_prs(&done(true, "{}", ""))), (HostFault::ListUnreadable, String::new()));
    assert_eq!(fault(list_prs(&done(true, "", ""))), (HostFault::ListUnreadable, String::new()));
    assert_eq!(
        fault(list_prs(&CommandResult::NotStarted)),
        (HostFault::ListNotStarted, String::new())
    );
}

#[test]
fn merge_counts_already_merged_as_done() {
    let p = merge_command(&repo(), "b", "--squash");
    assert_eq!(p.notice, "Merging PR for branch 'b'");
    assert_eq!(p.command, Some(gh(&["pr", "merge", "--head", "b", "--", "--squash"])));
    assert_eq!(merge_pr(&done(true, "", "")).unwrap(), true);
    assert_eq!(merge_pr(&done(false, "", "pull request was already merged")).unwrap(), true);
    assert_eq!(
        fault(merge_pr(&done(false, "", "conflicts"))),
        (HostFault::MergeFailed, "conflicts".to_string())
    );
    assert_eq!(
        fault(merge_pr(&CommandResult::NotStarted)),
        (HostFault::MergeNotStarted, String::new())
    );
}

#[test]
fn fork_and_clone() {
    let p = fork_repository("https://github.com/o/r", "r");
    assert_eq!(p.notice, "Forking repository: https://github.com/o/r");
    assert_eq!(
        p.command,
        Some(cmd("gh", &["repo", "fork", "https://github.com/o/r", "--clone", "--dir", "r"], None))
    );
    assert!(fork_outcome(&done(true, "", "")).is_ok());
    assert_eq!(
        fault(fork_outcome(&done(false, "", "nope"))),
        (HostFault::ForkFailed, "nope".to_string())
    );
    assert_eq!(
        fault(fork_outcome(&CommandResult::NotStarted)),
        (HostFault::ForkNotStarted, String::new())
    );
    assert_eq!(
        remote_command(&repo()),
        cmd("git", &["remote", "get-url", "origin"], Some("/home/ann/app"))
    );
    assert_eq!(forked_url(&done(true, "https://github.com/me/r\n", "")).unwrap(), "https://github.com/me/r");
    assert_eq!(fault(forked_url(&done(false, "", "x"))), (HostFault::RemoteFailed, String::new()));
    assert_eq!(
        fault(forked_url(&CommandResult::NotStarted)),
        (HostFault::RemoteNotStarted, String::new())
    );
    let p = clone_repository("https://github.com/o/r.git", "r");
    assert_eq!(p.notice, "Cloning repository: https://github.com/o/r.git");
    assert_eq!(p.command, Some(cmd("git", &["clone", "https://github.com/o/r.git", "r"], None)));
    assert!(clone_outcome(&done(true, "", "")).is_ok());
    assert_eq!(
        fault(clone_outcome(&done(false, "", "denied"))),
        (HostFault::CloneFailed, "denied".to_string())
    );
    assert_eq!(
        fault(clone_outcome(&CommandResult::NotStarted)),
        (HostFault::CloneNotStarted, String::new())
    );
}

#[test]
fn output_that_is_not_utf8_is_read_with_replacement_characters() {
    let r = CommandResult::Finished {
        success: true,
        stdout: vec![b'O', 0xff, b'K', b'\n'],
        stderr: vec![],
    };
    assert_eq!(check_pr_status(&r).unwrap(), "O\u{fffd}K");
}

#[test]
fn host_fault_texts() {
    assert_eq!(
        HostError::of(HostFault::LoginRequired).message(),
        "GitHub CLI is not installed or not authenticated. Please run 'gh auth login'"
    );
    assert_eq!(
        HostError::of(HostFault::NotAuthenticated).message(),
        "GitHub CLI is not installed or not authenticated"
    );
    assert_eq!(
        HostFault::AuthNotStarted.label(),
        "Failed to check GitHub CLI authentication. Is GitHub CLI installed?"
    );
    assert_eq!(HostFault::CreateNotStarted.label(), "Failed to create PR");
    assert_eq!(HostFault::ViewNotStarted.label(), "Failed to get existing PR URL");
    assert_eq!(HostFault::StatusNotStarted.label(), "Failed to check PR status");
    assert_eq!(HostFault::ListNotStarted.label(), "Failed to list PRs");
    assert_eq!(HostFault::ListFailed.label(), "Failed to list PRs: ");
    assert_eq!(HostFault::ListUnreadable.label(), "Failed to parse PR list JSON");
    assert_eq!(HostFault::MergeNotStarted.label(), "Failed to merge PR");
    assert_eq!(HostFault::MergeFailed.label(), "Failed to merge PR: ");
    assert_eq!(HostFault::ForkNotStarted.label(), "Failed to fork repository");
    assert_eq!(HostFault::ForkFailed.label(), "Failed to fork repository: ");
    assert_eq!(HostFault::RemoteNotStarted.label(), "Failed to get forked repository URL");
    assert_eq!(HostFault::RemoteFailed.label(), "Failed to get forked repository URL");
    assert_eq!(HostFault::CloneNotStarted.label(), "Failed to clone repository");
    assert_eq!(HostFault::CloneFailed.label(), "Failed to clone repository: ");
}
