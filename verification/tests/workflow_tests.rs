use mru::command::{CommandResult, CommandSpec};
use mru::git::{GitAction, GitError};
use mru::package::{InstallError, LockFiles, ManifestError, ManifestFile};
use mru::repo::{RepoError, RepoProbe};
use mru::config::{Config, Repository};
use mru::workflow::{
    default_commit_message, files_to_stage, update_package_workflow, working_branch_name, Action,
    Event, Notice, Outcome, Phase, Restore, UpdateRequest, Workflow, WorkflowError,
};

const STALE: &str = r#"{"name":"app","dependencies":{"left-pad":"1.0.0"},"devDependencies":{"left-pad":"0.9.0"}}"#;

#[derive(Clone, Debug, PartialEq)]
struct World {
    exists: bool,
    has_git: bool,
    head: String,
    branches: Vec<String>,
    manifest: ManifestFile,
    locks: LockFiles,
    failing: Vec<String>,
    missing_programs: Vec<String>,
    logged_in: bool,
    write_ok: bool,
    dirty: bool,
    staged: bool,
    commits: Vec<(String, String)>,
    pushed: Vec<String>,
    prs: Vec<(String, String)>,
    installs: Vec<String>,
    log: Vec<String>,
}

fn world() -> World {
    World {
        exists: true,
        has_git: true,
        head: "main".to_string(),
        branches: vec!["main".to_string()],
        manifest: ManifestFile::Text(STALE.to_string()),
        locks: LockFiles { pnpm: false, yarn: false, npm: true },
        failing: Vec::new(),
        missing_programs: Vec::new(),
        logged_in: true,
        write_ok: true,
        dirty: false,
        staged: false,
        commits: Vec::new(),
        pushed: Vec::new(),
        prs: Vec::new(),
        installs: Vec::new(),
        log: Vec::new(),
    }
}

fn line(c: &CommandSpec) -> String {
    let mut s = c.program.clone();
    for a in &c.args {
        s.push(' ');
        s.push_str(a);
    }
    s
}

fn ok(stdout: &str) -> CommandResult {
    CommandResult::Finished { success: true, stdout: stdout.as_bytes().to_vec(), stderr: vec![] }
}

fn failed(stderr: &str) -> CommandResult {
    CommandResult::Finished { success: false, stdout: vec![], stderr: stderr.as_bytes().to_vec() }
}

impl World {
    fn run(&mut self, c: &CommandSpec) -> CommandResult {
        let text = line(c);
        if self.missing_programs.contains(&c.program) {
            return CommandResult::NotStarted;
        }
        if self.failing.iter().any(|f| text.starts_with(f.as_str())) {
            return failed("it failed");
        }
        let args: Vec<&str> = c.args.iter().map(|a| a.as_str()).collect();
        match (c.program.as_str(), args.as_slice()) {
            ("git", ["branch", "--show-current"]) => ok(&format!("{}\n", self.head)),
            ("git", ["branch", "--list", b]) => {
                if self.branches.iter().any(|x| x == b) {
                    ok(&format!("  {}\n", b))
                } else {
                    ok("")
                }
            }
            ("git", ["checkout", "-b", b]) => {
                if self.branches.iter().any(|x| x == b) {
                    failed("exists")
                } else {
                    self.branches.push(b.to_string());
                    self.head = b.to_string();
                    ok("")
                }
            }
            ("git", ["checkout", b]) => {
                if self.branches.iter().any(|x| x == b) {
                    self.head = b.to_string();
                    ok("")
                } else {
                    failed("no such branch")
                }
            }
            ("git", ["add", ..]) => {
                self.staged = self.dirty;
                ok("")
            }
            ("git", ["diff", "--staged", "--name-only"]) => {
                if self.staged {
                    ok("package.json\n")
                } else {
                    ok("")
                }
            }
            ("git", ["commit", "-m", m]) => {
                self.commits.push((self.head.clone(), m.to_string()));
                self.staged = false;
                self.dirty = false;
                ok("")
            }
            ("git", ["push", "--set-upstream", "origin", b]) => {
                self.pushed.push(b.to_string());
                ok("")
            }
            ("gh", ["auth", "status"]) => {
                if self.logged_in {
                    ok("")
                } else {
                    failed("not logged in")
                }
            }
            ("gh", ["pr", "create", "--title", _, "--head", b, ..]) => {
                if self.prs.iter().any(|(x, _)| x == b) {
                    failed(&format!("a pull request for branch \"{}\" already exists", b))
                } else {
                    let url = format!("https://example.test/pull/{}", self.prs.len() + 1);
                    self.prs.push((b.to_string(), url.clone()));
                    ok(&format!("{}\n", url))
                }
            }
            ("gh", ["pr", "view", "--json", "url", "--jq", ".url", "--head", b]) => {
                match self.prs.iter().find(|(x, _)| x == b) {
                    Some((_, url)) => ok(&format!("{}\n", url)),
                    None => failed("none"),
                }
            }
            (manager, ["install"]) => {
                self.installs.push(manager.to_string());
                ok("")
            }
            _ => panic!("the workflow ran a command that the world does not know: {}", text),
        }
    }

    fn perform(&mut self, action: &Action) -> Event {
        match action {
            Action::ProbeRepository { dir } => {
                self.log.push(format!("probe {}", dir));
                Event::Repository(RepoProbe { exists: self.exists, has_git: self.has_git })
            }
            Action::Run(c) => {
                self.log.push(line(c));
                assert!(c.program == "gh" && c.args[0] == "auth" || c.dir.as_deref() == Some("/srv/app"));
                Event::Command(self.run(c))
            }
            Action::ReadManifest { path } => {
                self.log.push(format!("read {}", path));
                Event::Manifest(self.manifest.clone())
            }
            Action::WriteManifest { path, content } => {
                self.log.push(format!("write {}", path));
                if self.write_ok {
                    self.manifest = ManifestFile::Text(content.clone());
                    self.dirty = true;
                }
                Event::Written(self.write_ok)
            }
            Action::ProbeLockFiles { dir } => {
                self.log.push(format!("locks {}", dir));
                Event::LockFiles(self.locks)
            }
        }
    }
}

fn request(dry_run: bool, pull_request: bool) -> UpdateRequest {
    UpdateRequest {
        package: "left-pad".to_string(),
        version: "^1.2.3".to_string(),
        message: None,
        pull_request,
        dry_run,
    }
}

fn drive(w: &mut World, r: UpdateRequest, default_manager: Option<&str>) -> (Workflow, Vec<Notice>) {
    let mut step =
        Workflow::start(r, "/srv/app", None, default_manager.map(|m| m.to_string()), &None);
    let mut notices = Vec::new();
    let mut moves = 0;
    loop {
        notices.append(&mut step.notices);
        match step.action.take() {
            None => return (step.state, notices),
            Some(a) => {
                let e = w.perform(&a);
                step = step.state.step(&e);
            }
        }
        moves += 1;
        assert!(moves < 100, "the workflow does not end");
    }
}

fn infos(notices: &[Notice]) -> Vec<String> {
    notices
        .iter()
        .map(|n| match n {
            Notice::Info(t) => t.clone(),
            Notice::Warning(t) => format!("! {}", t),
        })
        .collect()
}

fn manifest_of(w: &World) -> serde_json::Value {
    match &w.manifest {
        ManifestFile::Text(t) => serde_json::from_str(t).unwrap(),
        _ => panic!("no manifest"),
    }
}

const BRANCH: &str = "update-left-pad-1.2.3";
const MESSAGE: &str = "chore: update left-pad to ^1.2.3";

#[test]
fn branch_name_strips_the_range_marks() {
    assert_eq!(working_branch_name("left-pad", "^1.2.3"), "update-left-pad-1.2.3");
    assert_eq!(working_branch_name("left-pad", "~1.2.3"), "update-left-pad-1.2.3");
    assert_eq!(working_branch_name("@scope/pkg", "1.0.0-beta.1"), "update-@scope/pkg-1.0.0-beta.1");
    assert_eq!(working_branch_name("a", "^~2"), "update-a-2");
    assert_eq!(working_branch_name("a", ">=1 <2"), "update-a->=1 <2");
    assert_eq!(working_branch_name("", ""), "update--");
}

#[test]
fn commit_message_defaults_to_the_template() {
    assert_eq!(default_commit_message("left-pad", "^1.2.3"), MESSAGE);
    assert_eq!(request(false, false).commit_message(), MESSAGE);
    let mut r = request(false, false);
    r.message = Some("bump".to_string());
    assert_eq!(r.commit_message(), "bump");
    assert_eq!(
        files_to_stage(),
        vec!["package.json", "pnpm-lock.yaml", "yarn.lock", "package-lock.json"]
    );
}

#[test]
fn live_update_runs_every_step_in_order() {
    let mut w = world();
    let (state, notices) = drive(&mut w, request(false, false), None);
    assert_eq!(state.phase, Phase::Finished(Outcome::Updated));
    assert_eq!(state.outcome(), Some(Outcome::Updated));
    assert_eq!(
        w.log,
        vec![
            "probe /srv/app".to_string(),
            "git branch --show-current".to_string(),
            format!("git branch --list {}", BRANCH),
            format!("git checkout -b {}", BRANCH),
            "read /srv/app/package.json".to_string(),
            "write /srv/app/package.json".to_string(),
            "locks /srv/app".to_string(),
            "npm install".to_string(),
            "git add package.json pnpm-lock.yaml yarn.lock package-lock.json".to_string(),
            "git diff --staged --name-only".to_string(),
            format!("git commit -m {}", MESSAGE),
            format!("git push --set-upstream origin {}", BRANCH),
            "git checkout main".to_string(),
        ]
    );
    assert_eq!(w.head, "main");
    assert_eq!(w.commits, vec![(BRANCH.to_string(), MESSAGE.to_string())]);
    assert_eq!(w.pushed, vec![BRANCH.to_string()]);
    assert_eq!(manifest_of(&w)["dependencies"]["left-pad"], "^1.2.3");
    assert_eq!(manifest_of(&w)["devDependencies"]["left-pad"], "^1.2.3");
    assert_eq!(state.context.original_branch, "main");
    assert_eq!(state.context.working_branch, BRANCH);
    assert!(state.context.changed);
    assert_eq!(state.manager, "npm");
    assert_eq!(
        infos(&notices),
        vec![
            "\n=== Processing repository: /srv/app ===".to_string(),
            format!("Creating branch '{}' in /srv/app", BRANCH),
            "Updated left-pad in dependencies from 1.0.0 to ^1.2.3".to_string(),
            "Updated left-pad in devDependencies from 0.9.0 to ^1.2.3".to_string(),
            "Saved changes to package.json in /srv/app".to_string(),
            "Running npm install in /srv/app".to_string(),
            "Staging files in /srv/app: [\"package.json\", \"pnpm-lock.yaml\", \"yarn.lock\", \"package-lock.json\"]".to_string(),
            format!("Committing changes with message: '{}'", MESSAGE),
            format!("Pushing branch '{}' to origin", BRANCH),
            "\u{2705} Successfully updated left-pad to ^1.2.3 in /srv/app".to_string(),
            "Checking out branch 'main' in /srv/app".to_string(),
        ]
    );
}

#[test]
fn second_run_changes_nothing_and_both_end_on_the_original_branch() {
    let mut w = world();
    let (first, _) = drive(&mut w, request(false, false), None);
    assert_eq!(first.outcome(), Some(Outcome::Updated));
    assert_eq!(w.head, "main");
    w.log.clear();
    let (second, notices) = drive(&mut w, request(false, false), None);
    assert_eq!(second.outcome(), Some(Outcome::UpToDate));
    assert!(!second.context.changed);
    assert_eq!(w.head, "main");
    assert_eq!(
        w.log,
        vec![
            "probe /srv/app".to_string(),
            "git branch --show-current".to_string(),
            format!("git branch --list {}", BRANCH),
            format!("git checkout {}", BRANCH),
            "read /srv/app/package.json".to_string(),
            "git checkout main".to_string(),
        ]
    );
    assert_eq!(w.commits.len(), 1);
    assert_eq!(w.pushed.len(), 1);
    assert_eq!(w.installs.len(), 1);
    assert_eq!(
        infos(&notices)[2..],
        [
            "Package 'left-pad' is already at version '^1.2.3' or not found".to_string(),
            "Package 'left-pad' is already at version '^1.2.3', skipping".to_string(),
            "Checking out branch 'main' in /srv/app".to_string(),
        ]
    );
}

#[test]
fn dry_run_changes_nothing_and_reports_every_step() {
    let mut w = world();
    let before = w.clone();
    let (state, notices) = drive(&mut w, request(true, true), None);
    assert_eq!(state.outcome(), Some(Outcome::Updated));
    assert_eq!(
        w.log,
        vec![
            "probe /srv/app".to_string(),
            "git branch --show-current".to_string(),
            "read /srv/app/package.json".to_string(),
            "locks /srv/app".to_string(),
        ]
    );
    w.log.clear();
    assert_eq!(w, before);
    assert_eq!(
        infos(&notices),
        vec![
            "\n=== Processing repository: /srv/app ===".to_string(),
            format!("Would create branch '{}' in /srv/app", BRANCH),
            "Updated left-pad in dependencies from 1.0.0 to ^1.2.3".to_string(),
            "Updated left-pad in devDependencies from 0.9.0 to ^1.2.3".to_string(),
            "Would run npm install in /srv/app".to_string(),
            "Would stage files in /srv/app: [\"package.json\", \"pnpm-lock.yaml\", \"yarn.lock\", \"package-lock.json\"]".to_string(),
            format!("Would commit changes with message: '{}'", MESSAGE),
            format!("Would push branch '{}' to origin", BRANCH),
            format!("Would create PR for branch '{}' with title: '{}'", BRANCH, MESSAGE),
            "\u{2705} Successfully updated left-pad to ^1.2.3 in /srv/app".to_string(),
            "Would checkout branch 'main' in /srv/app".to_string(),
        ]
    );
}

#[test]
fn dry_run_of_an_up_to_date_manifest() {
    let mut w = world();
    w.manifest = ManifestFile::Text(r#"{"dependencies":{"left-pad":"^1.2.3"}}"#.to_string());
    let before = w.clone();
    let (state, _) = drive(&mut w, request(true, false), None);
    assert_eq!(state.outcome(), Some(Outcome::UpToDate));
    w.log.clear();
    assert_eq!(w, before);
}

#[test]
fn failure_at_install_still_goes_back() {
    let mut w = world();
    w.failing.push("npm install".to_string());
    let (state, _) = drive(&mut w, request(false, false), None);
    assert_eq!(
        state.outcome(),
        Some(Outcome::Failed {
            error: WorkflowError::Install(InstallError::Failed),
            restored: Restore::Done
        })
    );
    assert_eq!(w.head, "main");
    assert!(w.commits.is_empty());
    assert!(w.pushed.is_empty());
    assert_eq!(w.log.last().unwrap(), "git checkout main");
    assert_eq!(WorkflowError::Install(InstallError::Failed).message(&state), "npm install failed");
}

#[test]
fn failure_at_every_later_step_still_goes_back() {
    let cases: Vec<(&str, WorkflowError)> = vec![
        ("git add", WorkflowError::Git(GitError::Failed(GitAction::Stage))),
        ("git commit", WorkflowError::Git(GitError::Failed(GitAction::Commit))),
        ("git push", WorkflowError::Git(GitError::Failed(GitAction::Push))),
    ];
    for (command, error) in cases {
        let mut w = world();
        w.failing.push(command.to_string());
        let (state, _) = drive(&mut w, request(false, true), None);
        assert_eq!(state.outcome(), Some(Outcome::Failed { error, restored: Restore::Done }));
        assert_eq!(w.head, "main");
        assert!(w.prs.is_empty());
    }
    let mut w = world();
    w.write_ok = false;
    let (state, _) = drive(&mut w, request(false, false), None);
    assert_eq!(
        state.outcome(),
        Some(Outcome::Failed { error: WorkflowError::WriteFailed, restored: Restore::Done })
    );
    assert_eq!(w.head, "main");
    assert!(w.installs.is_empty());
    let mut w = world();
    w.missing_programs.push("npm".to_string());
    let (state, _) = drive(&mut w, request(false, false), None);
    assert_eq!(
        state.outcome(),
        Some(Outcome::Failed {
            error: WorkflowError::Install(InstallError::NotStarted),
            restored: Restore::Done
        })
    );
}

#[test]
fn missing_package_manager_is_a_failure_after_the_edit() {
    let mut w = world();
    w.locks = LockFiles { pnpm: false, yarn: false, npm: false };
    let (state, _) = drive(&mut w, request(false, false), None);
    assert_eq!(
        state.outcome(),
        Some(Outcome::Failed { error: WorkflowError::NoPackageManager, restored: Restore::Done })
    );
    assert_eq!(w.head, "main");
    assert_eq!(
        WorkflowError::NoPackageManager.message(&state),
        "No package manager lock file found and no default package manager configured"
    );
}

#[test]
fn package_manager_comes_from_the_lock_file_before_the_default() {
    let mut w = world();
    w.locks = LockFiles { pnpm: true, yarn: true, npm: false };
    drive(&mut w, request(false, false), Some("npm"));
    assert_eq!(w.installs, vec!["pnpm"]);
    let mut w = world();
    w.locks = LockFiles { pnpm: false, yarn: false, npm: false };
    drive(&mut w, request(false, false), Some("yarn"));
    assert_eq!(w.installs, vec!["yarn"]);
}

#[test]
fn failures_before_the_edit_end_the_workflow_at_once() {
    let early = |error| Some(Outcome::Failed { error, restored: Restore::NotTried });
    let mut w = world();
    w.exists = false;
    let (state, _) = drive(&mut w, request(false, false), None);
    assert_eq!(state.outcome(), early(WorkflowError::Repository(RepoError::PathMissing)));
    assert_eq!(w.log, vec!["probe /srv/app"]);
    assert_eq!(
        WorkflowError::Repository(RepoError::PathMissing).message(&state),
        "Repository path does not exist: /srv/app"
    );

    let mut w = world();
    w.has_git = false;
    let (state, _) = drive(&mut w, request(false, false), None);
    assert_eq!(state.outcome(), early(WorkflowError::Repository(RepoError::NotARepository)));

    let mut w = world();
    w.head = String::new();
    let (state, _) = drive(&mut w, request(false, false), None);
    assert_eq!(state.outcome(), early(WorkflowError::Git(GitError::NoBranch)));
    assert_eq!(w.log.len(), 2);

    let mut w = world();
    w.failing.push("git branch --show-current".to_string());
    let (state, _) = drive(&mut w, request(true, false), None);
    assert_eq!(
        state.outcome(),
        early(WorkflowError::Git(GitError::Failed(GitAction::CurrentBranch)))
    );

    let mut w = world();
    w.failing.push("git checkout -b".to_string());
    let (state, _) = drive(&mut w, request(false, false), None);
    assert_eq!(
        state.outcome(),
        early(WorkflowError::Git(GitError::Failed(GitAction::CreateBranch)))
    );
    assert_eq!(
        WorkflowError::Git(GitError::Failed(GitAction::CreateBranch)).message(&state),
        format!("Failed to create branch: {}", BRANCH)
    );

    let mut w = world();
    w.manifest = ManifestFile::Missing;
    let (state, _) = drive(&mut w, request(false, false), None);
    assert_eq!(state.outcome(), early(WorkflowError::Manifest(ManifestError::NotFound)));
    assert_eq!(w.log.last().unwrap(), "read /srv/app/package.json");

    let mut w = world();
    w.manifest = ManifestFile::Unreadable;
    let (state, _) = drive(&mut w, request(false, false), None);
    assert_eq!(state.outcome(), early(WorkflowError::Manifest(ManifestError::Unreadable)));

    let mut w = world();
    w.manifest = ManifestFile::Text("{ not json".to_string());
    let (state, _) = drive(&mut w, request(false, false), None);
    assert_eq!(state.outcome(), early(WorkflowError::Manifest(ManifestError::Parse)));
}

#[test]
fn path_under_home_needs_a_home_directory() {
    let step = Workflow::start(request(false, false), "~/app", None, None, &None);
    assert_eq!(
        step.state.outcome(),
        Some(Outcome::Failed {
            error: WorkflowError::NoHomeDirectory,
            restored: Restore::NotTried
        })
    );
    assert_eq!(step.action, None);
    let step =
        Workflow::start(request(false, false), "~/app", None, None, &Some("/home/ann".to_string()));
    assert_eq!(step.action, Some(Action::ProbeRepository { dir: "/home/ann/app".to_string() }));
    assert_eq!(step.state.context.repo.path, "~/app");
    assert_eq!(step.state.phase, Phase::Probing);
}

#[test]
fn nothing_staged_means_no_commit() {
    let mut w = world();
    w.failing.clear();
    let (state, notices) = {
        // the install step undoes the edit, so nothing is left to stage
        let mut step = Workflow::start(request(false, false), "/srv/app", None, None, &None);
        let mut notices = Vec::new();
        loop {
            notices.append(&mut step.notices);
            match step.action.take() {
                None => break (step.state, notices),
                Some(a) => {
                    let e = w.perform(&a);
                    if let Action::Run(c) = &a {
                        if c.args == vec!["install"] {
                            w.dirty = false;
                        }
                    }
                    step = step.state.step(&e);
                }
            }
        }
    };
    assert_eq!(state.outcome(), Some(Outcome::Updated));
    assert!(w.commits.is_empty());
    assert_eq!(w.pushed, vec![BRANCH.to_string()]);
    assert!(infos(&notices).contains(&"No staged changes to commit".to_string()));
    assert!(!w.log.iter().any(|l| l.starts_with("git commit")));
}

#[test]
fn pull_request_is_opened_after_the_push() {
    let mut w = world();
    let (state, notices) = drive(&mut w, request(false, true), None);
    assert_eq!(state.outcome(), Some(Outcome::Updated));
    assert_eq!(w.prs, vec![(BRANCH.to_string(), "https://example.test/pull/1".to_string())]);
    let tail: Vec<String> = w.log[w.log.len() - 4..].to_vec();
    assert_eq!(
        tail,
        vec![
            format!("git push --set-upstream origin {}", BRANCH),
            "gh auth status".to_string(),
            format!("gh pr create --title {} --head {} --draft", MESSAGE, BRANCH),
            "git checkout main".to_string(),
        ]
    );
    let lines = infos(&notices);
    assert!(lines.contains(&"PR created: https://example.test/pull/1".to_string()));
    assert!(lines.contains(&format!(
        "Creating PR for branch '{}' with title: '{}'",
        BRANCH, MESSAGE
    )));
}

#[test]
fn pull_request_that_exists_gives_the_same_address_again() {
    let mut w = world();
    let (_, first) = drive(&mut w, request(false, true), None);
    assert!(infos(&first).contains(&"PR created: https://example.test/pull/1".to_string()));
    w.manifest = ManifestFile::Text(STALE.to_string());
    w.log.clear();
    let (state, second) = drive(&mut w, request(false, true), None);
    assert_eq!(state.outcome(), Some(Outcome::Updated));
    let lines = infos(&second);
    assert!(lines.contains(&format!("PR already exists for branch '{}'", BRANCH)));
    assert!(lines.contains(&"Existing PR URL: https://example.test/pull/1".to_string()));
    assert!(!lines.iter().any(|l| l.starts_with("! ")));
    assert_eq!(w.prs.len(), 1);
    assert!(w.log.contains(&format!(
        "gh pr view --json url --jq .url --head {}",
        BRANCH
    )));
    assert_eq!(w.head, "main");
}

#[test]
fn pull_request_failure_is_only_a_warning() {
    let mut w = world();
    w.logged_in = false;
    let (state, notices) = drive(&mut w, request(false, true), None);
    assert_eq!(state.outcome(), Some(Outcome::Updated));
    assert_eq!(w.head, "main");
    assert!(infos(&notices).contains(
        &"! Warning: Failed to create PR: GitHub CLI is not installed or not authenticated. Please run 'gh auth login'"
            .to_string()
    ));

    let mut w = world();
    w.failing.push("gh pr create".to_string());
    let (state, notices) = drive(&mut w, request(false, true), None);
    assert_eq!(state.outcome(), Some(Outcome::Updated));
    assert!(infos(&notices)
        .contains(&"! Warning: Failed to create PR: Failed to create PR: it failed".to_string()));

    let mut w = world();
    w.missing_programs.push("gh".to_string());
    let (state, notices) = drive(&mut w, request(false, true), None);
    assert_eq!(state.outcome(), Some(Outcome::Updated));
    assert!(infos(&notices).contains(
        &"! Warning: Failed to create PR: Failed to check GitHub CLI authentication. Is GitHub CLI installed?"
            .to_string()
    ));
    assert_eq!(w.pushed.len(), 1);
}

#[test]
fn failed_way_back_is_reported() {
    let mut w = world();
    w.failing.push("git checkout main".to_string());
    let (state, _) = drive(&mut w, request(false, false), None);
    let error = WorkflowError::Git(GitError::Failed(GitAction::Checkout));
    assert_eq!(state.outcome(), Some(Outcome::Failed { error, restored: Restore::Failed }));
    assert_eq!(w.head, BRANCH);
    assert_eq!(error.message(&state), "Failed to checkout branch: main");

    let mut w = world();
    w.failing.push("git checkout main".to_string());
    w.failing.push("npm install".to_string());
    let (state, _) = drive(&mut w, request(false, false), None);
    assert_eq!(
        state.outcome(),
        Some(Outcome::Failed {
            error: WorkflowError::Install(InstallError::Failed),
            restored: Restore::Failed
        })
    );
}

#[test]
fn an_event_of_the_wrong_kind_counts_as_a_failure() {
    let step = Workflow::start(request(false, false), "/srv/app", None, None, &None);
    let next = step.state.step(&Event::Written(true));
    assert_eq!(
        next.state.outcome(),
        Some(Outcome::Failed {
            error: WorkflowError::Repository(RepoError::PathMissing),
            restored: Restore::NotTried
        })
    );
    let step = Workflow::start(request(false, false), "/srv/app", None, None, &None);
    let step = step.state.step(&Event::Repository(RepoProbe { exists: true, has_git: true }));
    assert_eq!(step.state.phase, Phase::CurrentBranch);
    let next = step.state.step(&Event::LockFiles(LockFiles { pnpm: true, yarn: false, npm: false }));
    assert_eq!(
        next.state.outcome(),
        Some(Outcome::Failed {
            error: WorkflowError::Git(GitError::NotStarted(GitAction::CurrentBranch)),
            restored: Restore::NotTried
        })
    );
}

#[test]
fn a_finished_workflow_stays_finished() {
    let mut w = world();
    let (state, _) = drive(&mut w, request(false, false), None);
    let again = state.clone().step(&Event::Command(ok("x")));
    assert_eq!(again.state, state);
    assert!(again.notices.is_empty());
    assert_eq!(again.action, None);
}

#[test]
fn commit_message_override_is_used_for_commit_and_pull_request() {
    let mut w = world();
    let mut r = request(false, true);
    r.message = Some("deps: bump".to_string());
    drive(&mut w, r, None);
    assert_eq!(w.commits, vec![(BRANCH.to_string(), "deps: bump".to_string())]);
    assert!(w.log.contains(&format!("gh pr create --title deps: bump --head {} --draft", BRANCH)));
}

#[test]
fn workflow_of_a_configured_repository() {
    let repo = Repository { path: "~/app".to_string(), github_url: Some("https://x/y".to_string()) };
    let mut config = Config::initial();
    config.default_package_manager = Some("pnpm".to_string());
    let home = Some("/home/ann".to_string());
    let step = update_package_workflow(&repo, "a", "~2.0.0", "bump a", true, true, &config, &home);
    assert_eq!(step.action, Some(Action::ProbeRepository { dir: "/home/ann/app".to_string() }));
    assert_eq!(step.state.commit_message, "bump a");
    assert_eq!(step.state.context.working_branch, "update-a-2.0.0");
    assert_eq!(step.state.context.github_url.as_deref(), Some("https://x/y"));
    assert_eq!(step.state.default_manager.as_deref(), Some("pnpm"));
    assert!(step.state.request.pull_request && step.state.request.dry_run);
    assert_eq!(
        step.notices,
        vec![Notice::Info("\n=== Processing repository: ~/app ===".to_string())]
    );
}

#[test]
fn what_a_failed_command_wrote_is_shown() {
    let mut w = world();
    w.failing.push("git push".to_string());
    let (_, notices) = drive(&mut w, request(false, false), None);
    let lines = infos(&notices);
    let at = lines.iter().position(|l| l == "! it failed").unwrap();
    assert_eq!(lines[at - 1], format!("Pushing branch '{}' to origin", BRANCH));
    assert_eq!(lines[at + 1], "Checking out branch 'main' in /srv/app");
    let mut w = world();
    w.missing_programs.push("npm".to_string());
    let (_, notices) = drive(&mut w, request(false, false), None);
    assert!(!infos(&notices).iter().any(|l| l.starts_with("! ")));
}
