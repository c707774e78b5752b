use mru::cli::{
    handle_add_repo, handle_clone, handle_compare, handle_list_packages, handle_list_repos,
    handle_remove_repo, handle_set_package_manager, handle_update, prompt, prompt_continue,
    status_line, Decision, Fleet, FleetAction, FleetPhase,
};
use mru::config::{Config, ConfigError, Repository};
use mru::package::InstallError;
use mru::workflow::{
    Action, Notice, Outcome, Phase, Restore, Workflow, WorkflowError,
};

fn config_with(paths: &[&str]) -> Config {
    let mut c = Config::initial();
    for p in paths {
        c.repositories.push(Repository { path: p.to_string(), github_url: None });
    }
    c
}

fn texts(notices: &[Notice]) -> Vec<String> {
    notices
        .iter()
        .map(|n| match n {
            Notice::Info(t) => t.clone(),
            Notice::Warning(t) => format!("! {}", t),
        })
        .collect()
}

fn finished(fleet: &Fleet, outcome: Outcome) -> Workflow {
    let mut w = fleet.workflow(&None).unwrap().state;
    w.manager = "npm".to_string();
    w.phase = Phase::Finished(outcome);
    w
}

fn install_failure() -> Outcome {
    Outcome::Failed {
        error: WorkflowError::Install(InstallError::Failed),
        restored: Restore::Done,
    }
}

#[test]
fn answers_that_mean_yes() {
    for a in ["y", "Y", " y \n", "yes", "YES\n", "\tYes  "] {
        assert_eq!(prompt_continue(Some(a)), Decision::Continue, "{:?}", a);
    }
    for a in ["", "\n", "n", "no", "yep", "y es", "ye", "yess", "o", "1", "true"] {
        assert_eq!(prompt_continue(Some(a)), Decision::Abort, "{:?}", a);
    }
    assert_eq!(prompt_continue(None), Decision::Abort);
    assert_eq!(prompt(), "Continue with remaining repositories? [y/N]: ");
}

#[test]
fn empty_fleet_is_reported_and_is_no_error() {
    let step = handle_update(&Config::initial(), "a", "1", None, false, false);
    assert_eq!(step.action, FleetAction::Finish);
    assert_eq!(step.state.phase, FleetPhase::Done);
    assert_eq!(
        texts(&step.notices),
        vec!["No repositories configured. Use 'add-repo' command to add repositories."]
    );
    assert!(step.state.workflow(&None).is_none());
}

#[test]
fn update_opens_with_the_number_of_repositories() {
    let c = config_with(&["/a", "/b", "/c"]);
    let step = handle_update(&c, "left-pad", "^1.2.3", None, false, false);
    assert_eq!(step.action, FleetAction::Process(0));
    assert_eq!(
        texts(&step.notices),
        vec!["Updating package 'left-pad' to version '^1.2.3' in 3 repositories"]
    );
    let step = handle_update(&c, "left-pad", "^1.2.3", Some("m"), true, true);
    assert_eq!(
        texts(&step.notices),
        vec![
            "DRY RUN MODE - No changes will be made",
            "Updating package 'left-pad' to version '^1.2.3' in 3 repositories"
        ]
    );
    assert_eq!(step.state.request.message.as_deref(), Some("m"));
    assert!(step.state.request.pull_request && step.state.request.dry_run);
    assert_eq!(step.state.default_manager.as_deref(), Some("npm"));
    let twelve: Vec<String> = (0..12).map(|i| format!("/r{}", i)).collect();
    let refs: Vec<&str> = twelve.iter().map(|s| s.as_str()).collect();
    let step = handle_update(&config_with(&refs), "a", "1", None, false, false);
    assert_eq!(texts(&step.notices), vec!["Updating package 'a' to version '1' in 12 repositories"]);
}

#[test]
fn fleet_starts_the_workflow_of_the_repository_it_stands_at() {
    let c = config_with(&["/a", "/b"]);
    let step = handle_update(&c, "left-pad", "^1.2.3", None, false, false);
    let first = step.state.workflow(&None).unwrap();
    assert_eq!(first.action, Some(Action::ProbeRepository { dir: "/a".to_string() }));
    assert_eq!(first.state.context.working_branch, "update-left-pad-1.2.3");
    assert_eq!(first.state.default_manager.as_deref(), Some("npm"));
}

#[test]
fn fleet_goes_on_in_silence_after_success_and_no_op() {
    let c = config_with(&["/a", "/b", "/c"]);
    let fleet = handle_update(&c, "a", "1", None, false, false).state;
    let w = finished(&fleet, Outcome::Updated);
    let step = fleet.after_workflow(&w);
    assert_eq!(step.action, FleetAction::Process(1));
    assert!(step.notices.is_empty());
    let w = finished(&step.state, Outcome::UpToDate);
    assert_eq!(w.context.repo.path, "/b");
    let step = step.state.after_workflow(&w);
    assert_eq!(step.action, FleetAction::Process(2));
    let w = finished(&step.state, Outcome::Updated);
    let step = step.state.after_workflow(&w);
    assert_eq!(step.action, FleetAction::Finish);
    assert_eq!(step.state.phase, FleetPhase::Done);
    assert!(step.notices.is_empty());
}

#[test]
fn second_of_three_fails_and_the_operator_declines() {
    let c = config_with(&["/a", "/b", "/c"]);
    let mut processed = Vec::new();
    let mut step = handle_update(&c, "left-pad", "^1.2.3", None, false, false);
    let mut lines = Vec::new();
    let mut asked = 0;
    loop {
        lines.extend(texts(&step.notices));
        match step.action {
            FleetAction::Process(i) => {
                processed.push(i);
                let outcome = if i == 1 { install_failure() } else { Outcome::Updated };
                let w = finished(&step.state, outcome);
                step = step.state.after_workflow(&w);
            }
            FleetAction::Ask => {
                asked += 1;
                step = step.state.after_answer(prompt_continue(Some("n\n")));
            }
            FleetAction::Finish => break,
        }
    }
    assert_eq!(processed, vec![0, 1]);
    assert_eq!(asked, 1);
    assert_eq!(
        lines[1..],
        [
            "! Error processing repository /b: npm install failed".to_string(),
            "Aborting update process".to_string(),
        ]
    );
    assert_eq!(step.state.phase, FleetPhase::Done);
    assert!(step.state.workflow(&None).is_none());
}

#[test]
fn second_of_three_fails_and_the_operator_continues() {
    let c = config_with(&["/a", "/b", "/c"]);
    let mut processed = Vec::new();
    let mut step = handle_update(&c, "left-pad", "^1.2.3", None, false, false);
    loop {
        match step.action {
            FleetAction::Process(i) => {
                processed.push(i);
                let outcome = if i == 1 { install_failure() } else { Outcome::Updated };
                let w = finished(&step.state, outcome);
                step = step.state.after_workflow(&w);
            }
            FleetAction::Ask => step = step.state.after_answer(prompt_continue(Some("Y"))),
            FleetAction::Finish => break,
        }
    }
    assert_eq!(processed, vec![0, 1, 2]);
}

#[test]
fn failure_of_the_last_repository_still_asks() {
    let c = config_with(&["/a"]);
    let fleet = handle_update(&c, "a", "1", None, false, false).state;
    let w = finished(&fleet, install_failure());
    let step = fleet.after_workflow(&w);
    assert_eq!(step.action, FleetAction::Ask);
    assert_eq!(step.state.phase, FleetPhase::Asking(0));
    let step = step.state.after_answer(Decision::Continue);
    assert_eq!(step.action, FleetAction::Finish);
    assert!(step.notices.is_empty());
}

#[test]
fn moves_out_of_turn_change_nothing() {
    let c = config_with(&["/a", "/b"]);
    let fleet = handle_update(&c, "a", "1", None, false, false).state;
    let step = fleet.after_answer(Decision::Abort);
    assert_eq!(step.state.phase, FleetPhase::Running(0));
    assert_eq!(step.action, FleetAction::Process(0));
    assert!(step.notices.is_empty());
    let unfinished = step.state.workflow(&None).unwrap().state;
    let step = step.state.after_workflow(&unfinished);
    assert_eq!(step.state.phase, FleetPhase::Running(0));
    assert_eq!(step.action, FleetAction::Process(0));
    let w = finished(&step.state, install_failure());
    let step = step.state.after_workflow(&w);
    let step = step.state.after_workflow(&w);
    assert_eq!(step.state.phase, FleetPhase::Asking(0));
    assert_eq!(step.action, FleetAction::Ask);
    assert!(step.notices.is_empty());
    let step = step.state.after_answer(Decision::Abort);
    let step = step.state.after_answer(Decision::Continue);
    assert_eq!(step.action, FleetAction::Finish);
    let step = step.state.after_workflow(&w);
    assert_eq!(step.action, FleetAction::Finish);
    assert_eq!(step.state.phase, FleetPhase::Done);
}

#[test]
fn clone_goes_to_the_last_segment_without_dot_git() {
    assert_eq!(handle_clone("https://github.com/o/repo.git", None), "repo");
    assert_eq!(handle_clone("https://github.com/o/repo", None), "repo");
    assert_eq!(handle_clone("git@github.com:o/repo.git", None), "repo");
    assert_eq!(handle_clone("repo.git.git", None), "repo");
    assert_eq!(handle_clone("https://github.com/o/repo/", None), "");
    assert_eq!(handle_clone("https://github.com/o/repo.git", Some("here")), "here");
    assert_eq!(handle_clone("", None), "");
}

#[test]
fn packages_are_listed_for_one_repository_or_for_all() {
    let c = config_with(&["/a", "/b", "/c"]);
    assert_eq!(handle_list_packages(&c, None), Ok(vec![0, 1, 2]));
    assert_eq!(handle_list_packages(&c, Some("/b")), Ok(vec![1]));
    assert_eq!(handle_list_packages(&c, Some("/x")), Err(ConfigError::NotFound));
    assert_eq!(handle_list_packages(&Config::initial(), None), Ok(vec![]));
    assert_eq!(handle_list_packages(&Config::initial(), Some("/a")), Err(ConfigError::NotFound));
}

#[test]
fn report_lines() {
    assert_eq!(handle_compare("/a", &Some("1.0.0".to_string())), "/a: 1.0.0");
    assert_eq!(handle_compare("/a", &None), "/a: Not found");
    assert_eq!(handle_list_repos(1, "/a"), "1. Path: /a");
    assert_eq!(handle_list_repos(10, "~/b"), "10. Path: ~/b");
    assert_eq!(status_line(true), "   Status: Changes present");
    assert_eq!(status_line(false), "   Status: Clean");
}

#[test]
fn adding_and_removing_tell_how_it_went() {
    let mut c = Config::initial();
    let (r, n) = handle_add_repo(&mut c, "/srv/a");
    assert_eq!(r, Ok(()));
    assert_eq!(n, Notice::Info("Repository added successfully: /srv/a".to_string()));
    assert_eq!(c.repositories.len(), 1);
    let (r, n) = handle_add_repo(&mut c, "/srv/a");
    assert_eq!(r, Err(ConfigError::AlreadyExists));
    assert_eq!(
        n,
        Notice::Warning("Failed to add repository: Repository already exists in config".to_string())
    );
    assert_eq!(c.repositories.len(), 1);
    let (r, n) = handle_remove_repo(&mut c, "/srv/b");
    assert_eq!(r, Err(ConfigError::NotFound));
    assert_eq!(
        n,
        Notice::Warning("Failed to remove repository: Repository not found: /srv/b".to_string())
    );
    let (r, n) = handle_remove_repo(&mut c, "/srv/a");
    assert_eq!(r, Ok(()));
    assert_eq!(n, Notice::Info("Repository removed successfully: /srv/a".to_string()));
    assert!(c.repositories.is_empty());
}

#[test]
fn setting_the_package_manager_tells_so() {
    let mut c = Config::initial();
    assert_eq!(
        handle_set_package_manager(&mut c, "yarn"),
        Ok(Notice::Info("Default package manager set to: yarn".to_string()))
    );
    assert_eq!(c.default_package_manager.as_deref(), Some("yarn"));
    assert_eq!(handle_set_package_manager(&mut c, "bun"), Err(ConfigError::InvalidPackageManager));
    assert_eq!(c.default_package_manager.as_deref(), Some("yarn"));
}
