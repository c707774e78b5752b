use mru::command::{CommandResult, RepoDir};
use mru::package::{
    compare_package_versions, detect_package_manager, edit_notice, find_entry,
    get_package_version, group_packages, install_outcome, list_all_packages, lock_file_names,
    resolve_manager, run_install_with_manager, update_package, DependencyClass, DependencyEdit,
    InstallError, LockFiles, ManifestError, ManifestFile, ManifestSource, PackageRecord,
};

const MANIFEST: &str = r#"{
  "name": "app",
  "version": "0.1.0",
  "scripts": { "build": "tsc" },
  "dependencies": { "left-pad": "1.0.0", "react": "18.0.0" },
  "devDependencies": { "left-pad": "0.9.0", "jest": "29.0.0" },
  "peerDependencies": { "react": "17.0.0" }
}"#;

fn json(text: &str) -> serde_json::Value {
    serde_json::from_str(text).unwrap()
}

fn repo() -> RepoDir {
    RepoDir { path: "~/app".to_string(), dir: "/home/ann/app".to_string() }
}

fn finished(success: bool) -> CommandResult {
    CommandResult::Finished { success, stdout: Vec::new(), stderr: Vec::new() }
}

#[test]
fn update_sets_every_block_that_lists_the_package() {
    let u = update_package(MANIFEST, "left-pad", "^1.2.3", false).unwrap();
    assert!(u.changed);
    assert_eq!(u.edits.len(), 2);
    assert_eq!(u.edits[0].class, DependencyClass::Direct);
    assert_eq!(u.edits[0].previous.as_deref(), Some("1.0.0"));
    assert_eq!(u.edits[1].class, DependencyClass::Development);
    assert_eq!(u.edits[1].previous.as_deref(), Some("0.9.0"));
    let v = json(&u.content.unwrap());
    assert_eq!(v["dependencies"]["left-pad"], "^1.2.3");
    assert_eq!(v["devDependencies"]["left-pad"], "^1.2.3");
}

#[test]
fn update_leaves_everything_else_as_it_was() {
    let u = update_package(MANIFEST, "left-pad", "^1.2.3", false).unwrap();
    let mut expected = json(MANIFEST);
    expected["dependencies"]["left-pad"] = "^1.2.3".into();
    expected["devDependencies"]["left-pad"] = "^1.2.3".into();
    let text = u.content.unwrap();
    assert_eq!(json(&text), expected);
    assert_eq!(text, serde_json::to_string_pretty(&expected).unwrap());
}

#[test]
fn update_in_all_three_blocks() {
    let u = update_package(MANIFEST, "react", "19.0.0", false).unwrap();
    let classes: Vec<DependencyClass> = u.edits.iter().map(|e| e.class).collect();
    assert_eq!(classes, vec![DependencyClass::Direct, DependencyClass::Peer]);
    let v = json(&u.content.unwrap());
    assert_eq!(v["dependencies"]["react"], "19.0.0");
    assert_eq!(v["peerDependencies"]["react"], "19.0.0");
    assert_eq!(v["devDependencies"]["jest"], "29.0.0");
}

#[test]
fn update_touches_only_blocks_with_a_stale_version() {
    let u = update_package(MANIFEST, "left-pad", "1.0.0", false).unwrap();
    assert!(u.changed);
    assert_eq!(u.edits.len(), 1);
    assert_eq!(u.edits[0].class, DependencyClass::Development);
    let v = json(&u.content.unwrap());
    assert_eq!(v["dependencies"]["left-pad"], "1.0.0");
    assert_eq!(v["devDependencies"]["left-pad"], "1.0.0");
}

#[test]
fn second_update_changes_nothing() {
    let first = update_package(MANIFEST, "left-pad", "^1.2.3", false).unwrap();
    let text = first.content.unwrap();
    let second = update_package(&text, "left-pad", "^1.2.3", false).unwrap();
    assert!(!second.changed);
    assert!(second.edits.is_empty());
    assert_eq!(second.content, None);
}

#[test]
fn update_of_a_package_that_is_not_listed_changes_nothing() {
    let u = update_package(MANIFEST, "lodash", "4.0.0", false).unwrap();
    assert!(!u.changed);
    assert!(u.edits.is_empty());
    assert_eq!(u.content, None);
}

#[test]
fn dry_run_finds_the_changes_and_writes_nothing() {
    let u = update_package(MANIFEST, "left-pad", "^1.2.3", true).unwrap();
    assert!(u.changed);
    assert_eq!(u.edits.len(), 2);
    assert_eq!(u.content, None);
    let again = update_package(MANIFEST, "left-pad", "^1.2.3", true).unwrap();
    assert!(again.changed);
}

#[test]
fn entry_that_is_no_text_counts_as_the_empty_version() {
    let text = r#"{"dependencies":{"a":5,"b":null},"devDependencies":[1,2]}"#;
    let u = update_package(text, "a", "1.0.0", false).unwrap();
    assert!(u.changed);
    assert_eq!(u.edits.len(), 1);
    assert_eq!(u.edits[0].previous, None);
    assert_eq!(json(&u.content.unwrap())["dependencies"]["a"], "1.0.0");
    let u = update_package(text, "b", "", false).unwrap();
    assert!(!u.changed);
    assert_eq!(u.content, None);
}

#[test]
fn update_of_a_document_without_blocks_changes_nothing() {
    assert!(!update_package("{}", "a", "1", false).unwrap().changed);
    assert!(!update_package("[1,2]", "a", "1", false).unwrap().changed);
    assert!(!update_package(r#"{"dependencies":"a"}"#, "a", "1", false).unwrap().changed);
}

#[test]
fn update_of_broken_manifest_fails() {
    assert_eq!(update_package("{", "a", "1", false).unwrap_err(), ManifestError::Parse);
    assert_eq!(update_package("", "a", "1", true).unwrap_err(), ManifestError::Parse);
}

#[test]
fn find_entry_looks_the_name_up() {
    let entries = vec![
        ("a".to_string(), Some("1".to_string())),
        ("b".to_string(), None),
    ];
    assert_eq!(find_entry(&entries, "a"), Some(Some("1".to_string())));
    assert_eq!(find_entry(&entries, "b"), Some(None));
    assert_eq!(find_entry(&entries, "c"), None);
    assert_eq!(find_entry(&Vec::new(), "a"), None);
}

#[test]
fn edit_notice_names_the_block_and_both_versions() {
    let e = DependencyEdit { class: DependencyClass::Development, previous: Some("0.9.0".into()) };
    assert_eq!(
        edit_notice("left-pad", &e, "^1.2.3"),
        "Updated left-pad in devDependencies from 0.9.0 to ^1.2.3"
    );
    let e = DependencyEdit { class: DependencyClass::Peer, previous: None };
    assert_eq!(edit_notice("a", &e, "1"), "Updated a in peerDependencies from unknown to 1");
}

#[test]
fn class_keys() {
    assert_eq!(DependencyClass::Direct.key(), "dependencies");
    assert_eq!(DependencyClass::Development.key(), "devDependencies");
    assert_eq!(DependencyClass::Peer.key(), "peerDependencies");
}

#[test]
fn version_comes_from_the_first_block_that_has_it_as_text() {
    assert_eq!(get_package_version(MANIFEST, "left-pad").unwrap().as_deref(), Some("1.0.0"));
    assert_eq!(get_package_version(MANIFEST, "jest").unwrap().as_deref(), Some("29.0.0"));
    assert_eq!(get_package_version(MANIFEST, "react").unwrap().as_deref(), Some("18.0.0"));
    assert_eq!(get_package_version(MANIFEST, "lodash").unwrap(), None);
    let text = r#"{"dependencies":{"a":1},"devDependencies":{"a":{}},"peerDependencies":{"a":"3"}}"#;
    assert_eq!(get_package_version(text, "a").unwrap().as_deref(), Some("3"));
    assert_eq!(get_package_version("nope", "a"), Err(ManifestError::Parse));
}

fn record(name: &str, version: &str, class: DependencyClass) -> PackageRecord {
    PackageRecord { name: name.to_string(), version: version.to_string(), class }
}

#[test]
fn list_gives_every_package_block_by_block() {
    let all = list_all_packages(MANIFEST).unwrap();
    assert_eq!(
        all,
        vec![
            record("left-pad", "1.0.0", DependencyClass::Direct),
            record("react", "18.0.0", DependencyClass::Direct),
            record("jest", "29.0.0", DependencyClass::Development),
            record("left-pad", "0.9.0", DependencyClass::Development),
            record("react", "17.0.0", DependencyClass::Peer),
        ]
    );
}

#[test]
fn list_passes_over_entries_that_are_no_text() {
    let text = r#"{"dependencies":{"a":"1","b":2,"c":"3"},"peerDependencies":7}"#;
    let all = list_all_packages(text).unwrap();
    assert_eq!(
        all,
        vec![record("a", "1", DependencyClass::Direct), record("c", "3", DependencyClass::Direct)]
    );
    assert_eq!(list_all_packages("{}").unwrap(), Vec::new());
    assert_eq!(list_all_packages("{").unwrap_err(), ManifestError::Parse);
}

#[test]
fn groups_keep_the_order_of_the_list() {
    let all = list_all_packages(MANIFEST).unwrap();
    let g = group_packages(&all);
    assert_eq!(
        g.dependencies,
        vec![("left-pad".to_string(), "1.0.0".to_string()), ("react".to_string(), "18.0.0".to_string())]
    );
    assert_eq!(
        g.dev_dependencies,
        vec![("jest".to_string(), "29.0.0".to_string()), ("left-pad".to_string(), "0.9.0".to_string())]
    );
    assert_eq!(g.peer_dependencies, vec![("react".to_string(), "17.0.0".to_string())]);
    let none = group_packages(&Vec::new());
    assert!(none.dependencies.is_empty() && none.dev_dependencies.is_empty());
    assert!(none.peer_dependencies.is_empty());
}

fn source(repo: &str, file: ManifestFile) -> ManifestSource {
    ManifestSource { repo: repo.to_string(), file }
}

#[test]
fn comparison_lists_the_version_of_each_repository() {
    let sources = vec![
        source("/a", ManifestFile::Text(MANIFEST.to_string())),
        source("/b", ManifestFile::Text("{}".to_string())),
        source("/c", ManifestFile::Text(r#"{"peerDependencies":{"left-pad":"2"}}"#.to_string())),
    ];
    let r = compare_package_versions(&sources, "left-pad").unwrap();
    assert_eq!(
        r,
        vec![
            ("/a".to_string(), Some("1.0.0".to_string())),
            ("/b".to_string(), None),
            ("/c".to_string(), Some("2".to_string())),
        ]
    );
    assert_eq!(compare_package_versions(&Vec::new(), "x").unwrap(), Vec::new());
}

#[test]
fn comparison_ends_at_the_first_manifest_that_fails() {
    let sources = vec![
        source("/a", ManifestFile::Text("{}".to_string())),
        source("/b", ManifestFile::Missing),
        source("/c", ManifestFile::Unreadable),
    ];
    let e = compare_package_versions(&sources, "x").unwrap_err();
    assert_eq!(e.repo, "/b");
    assert_eq!(e.error, ManifestError::NotFound);
    let sources = vec![source("/c", ManifestFile::Unreadable), source("/b", ManifestFile::Missing)];
    let e = compare_package_versions(&sources, "x").unwrap_err();
    assert_eq!((e.repo.as_str(), e.error), ("/c", ManifestError::Unreadable));
    let sources = vec![source("/d", ManifestFile::Text("{".to_string()))];
    let e = compare_package_versions(&sources, "x").unwrap_err();
    assert_eq!((e.repo.as_str(), e.error), ("/d", ManifestError::Parse));
}

#[test]
fn lock_files_decide_the_package_manager_in_order() {
    let l = |pnpm, yarn, npm| LockFiles { pnpm, yarn, npm };
    assert_eq!(detect_package_manager(&l(true, true, true)).unwrap(), "pnpm");
    assert_eq!(detect_package_manager(&l(true, false, false)).unwrap(), "pnpm");
    assert_eq!(detect_package_manager(&l(false, true, true)).unwrap(), "yarn");
    assert_eq!(detect_package_manager(&l(false, false, true)).unwrap(), "npm");
    assert_eq!(detect_package_manager(&l(false, false, false)), Err(ManifestError::NoLockFile));
    assert_eq!(lock_file_names(), vec!["pnpm-lock.yaml", "yarn.lock", "package-lock.json"]);
}

#[test]
fn manager_falls_back_to_the_default() {
    let none = LockFiles { pnpm: false, yarn: false, npm: false };
    let yarn = LockFiles { pnpm: false, yarn: true, npm: false };
    assert_eq!(resolve_manager(&yarn, &Some("npm".to_string())).as_deref(), Some("yarn"));
    assert_eq!(resolve_manager(&none, &Some("pnpm".to_string())).as_deref(), Some("pnpm"));
    assert_eq!(resolve_manager(&none, &None), None);
    assert_eq!(resolve_manager(&yarn, &None).as_deref(), Some("yarn"));
}

#[test]
fn install_plan_runs_the_manager_in_the_repository() {
    let p = run_install_with_manager(&repo(), "pnpm", false);
    assert_eq!(p.notice, "Running pnpm install in ~/app");
    let c = p.command.unwrap();
    assert_eq!(c.program, "pnpm");
    assert_eq!(c.args, vec!["install"]);
    assert_eq!(c.dir.as_deref(), Some("/home/ann/app"));
    let p = run_install_with_manager(&repo(), "pnpm", true);
    assert_eq!(p.notice, "Would run pnpm install in ~/app");
    assert_eq!(p.command, None);
}

#[test]
fn install_outcomes() {
    assert_eq!(install_outcome(&finished(true)), Ok(()));
    assert_eq!(install_outcome(&finished(false)), Err(InstallError::Failed));
    assert_eq!(install_outcome(&CommandResult::NotStarted), Err(InstallError::NotStarted));
    assert_eq!(InstallError::Failed.message("npm"), "npm install failed");
    assert_eq!(InstallError::NotStarted.message("yarn"), "Failed to run yarn install");
}

#[test]
fn manifest_error_messages() {
    assert_eq!(
        ManifestError::NotFound.message("/srv/a"),
        "package.json not found in repository: /srv/a"
    );
    assert_eq!(ManifestError::Unreadable.message("x"), "Failed to read package.json");
    assert_eq!(ManifestError::Parse.message("x"), "Failed to parse package.json");
    assert_eq!(ManifestError::Render.message("x"), "Failed to write package.json");
    assert_eq!(ManifestError::NoLockFile.message("x"), "No package manager lock file found");
}
