//! The update workflow of one repository as a state machine. The machine
//! decides; the caller carries out each action that it asks for and hands
//! back what came of it.
//!
//! The order is: look at the path, capture the current branch, move to the
//! working branch, edit the manifest, install, stage, commit, push, open a
//! pull request if asked, and go back to the branch that was checked out
//! at first. A manifest that is up to date leads straight to the way back. A
//! failure before the manifest was edited ends the workflow; a later one
//! still leads to the way back, and is reported after it.

use crate::command::{
    decode_text_lossy, lossy_text, CommandResult, CommandSpec, CommandSpecView, RepoDir,
};
use crate::config::{expanded, home_text, join_path, joined_path, Config, Repository};
use crate::git::{
    anything_staged, branch_exists, checkout_branch, checkout_plan, commit_changes,
    commit_command, commit_command_spec, commit_plan, create_branch, create_branch_plan,
    current_branch_command, current_branch_command_spec, current_branch_of, get_current_branch,
    listed_any, push_branch, push_plan, require_success, stage_changes, stage_plan, success_of,
    switch_action, switch_command, switch_command_spec, switch_outcome, GitAction, GitError,
};
use crate::github::{
    auth_command, auth_command_spec, auth_of, bare, check_gh_cli, create_pr, create_pr_plan,
    created_of, existing_of, existing_pr, existing_pr_plan, existing_pr_url, host_error_text,
    pr_created, HostError, HostErrorView, HostFault,
};
use crate::package::{
    edit_notice, edit_views, install_outcome, install_plan, installed, resolve_manager,
    resolved_manager, run_install_with_manager, update_outcome, update_package, DependencyEdit,
    DependencyEditView, InstallError, LockFiles, ManifestError, ManifestFile, PackageUpdateView,
};
use crate::repo::{probed, validate_repository, RepoError, RepoProbe};
use crate::text::{join, join3, join4, join5, remove_chars, without_chars};
use vstd::prelude::*;

verus! {

/// The parameters of one update over the fleet.
#[derive(Debug, Clone, PartialEq, Eq)]
pub struct UpdateRequest {
    pub package: String,
    pub version: String,
    /// The commit message, where the default is not wanted.
    pub message: Option<String>,
    pub pull_request: bool,
    pub dry_run: bool,
}

/// What the workflow knows of the repository it works on.
#[derive(Debug, Clone, PartialEq, Eq)]
pub struct WorkflowContext {
    pub repo: RepoDir,
    pub github_url: Option<String>,
    /// The branch that was checked out at entry; empty until it is captured.
    pub original_branch: String,
    pub working_branch: String,
    /// Whether the edit changed the manifest.
    pub changed: bool,
}

/// Whether the workflow went back to the original branch.
#[derive(Debug, Clone, Copy, PartialEq, Eq, Structural)]
pub enum Restore {
    /// The workflow ended before the manifest was edited; no way back was
    /// tried.
    NotTried,
    /// The original branch is checked out again.
    Done,
    /// The checkout of the original branch failed.
    Failed,
}

/// What can end the workflow of a repository.
#[derive(Debug, Clone, Copy, PartialEq, Eq, Structural)]
pub enum WorkflowError {
    NoHomeDirectory,
    Repository(RepoError),
    Git(GitError),
    Manifest(ManifestError),
    /// The edited manifest could not be written.
    WriteFailed,
    /// No lock file names a package manager and no default is configured.
    NoPackageManager,
    Install(InstallError),
}

/// How the workflow of a repository ended.
#[derive(Debug, Clone, Copy, PartialEq, Eq, Structural)]
pub enum Outcome {
    /// The package was updated, committed and pushed.
    Updated,
    /// The manifest was at the target version already.
    UpToDate,
    Failed { error: WorkflowError, restored: Restore },
}

/// What the workflow reports once it is back on the original branch.
#[derive(Debug, Clone, Copy, PartialEq, Eq, Structural)]
pub enum Pending {
    Updated,
    UpToDate,
    Failure(WorkflowError),
}

/// What the workflow waits for.
#[derive(Debug, Clone, Copy, PartialEq, Eq, Structural)]
pub enum Phase {
    /// What is at the repository's path.
    Probing,
    /// The name of the current branch.
    CurrentBranch,
    /// The list of the branches that have the working branch's name.
    ListingBranches,
    /// The switch to the working branch, which existed or not.
    Switching(bool),
    /// The text of the manifest.
    ReadingManifest,
    /// The writing of the edited manifest.
    WritingManifest,
    /// Which lock files there are.
    ProbingLocks,
    Installing,
    Staging,
    /// The list of the staged files.
    ListingStaged,
    Committing,
    Pushing,
    /// Whether the code host's tool is logged in.
    Authenticating,
    CreatingPr,
    /// The address of the pull request that exists.
    ViewingPr,
    /// The checkout of the original branch.
    Restoring(Pending),
    Finished(Outcome),
}

/// The workflow of one repository.
#[derive(Debug, Clone, PartialEq, Eq)]
pub struct Workflow {
    pub request: UpdateRequest,
    pub commit_message: String,
    pub default_manager: Option<String>,
    pub context: WorkflowContext,
    /// The package manager to install with; empty until it is resolved.
    pub manager: String,
    pub phase: Phase,
}

/// A line for the operator.
#[derive(Debug, Clone, PartialEq, Eq)]
pub enum Notice {
    Info(String),
    Warning(String),
}

/// Something for the caller to do; the workflow goes on with what came of
/// it.
#[derive(Debug, Clone, PartialEq, Eq)]
pub enum Action {
    /// Look whether `dir` exists and holds a `.git` entry.
    ProbeRepository { dir: String },
    Run(CommandSpec),
    ReadManifest { path: String },
    WriteManifest { path: String, content: String },
    /// Look which lock files `dir` holds.
    ProbeLockFiles { dir: String },
}

/// What came of an action.
#[derive(Debug, Clone, PartialEq, Eq)]
pub enum Event {
    Repository(RepoProbe),
    Command(CommandResult),
    Manifest(ManifestFile),
    /// Whether the manifest was written.
    Written(bool),
    LockFiles(LockFiles),
}

/// One move of the workflow: its new state, the lines to show, and the
/// action to carry out next, if the workflow has not ended.
#[derive(Debug)]
pub struct Step {
    pub state: Workflow,
    pub notices: Vec<Notice>,
    pub action: Option<Action>,
}

/// The request as the contracts see it.
pub struct UpdateRequestView {
    pub package: Seq<char>,
    pub version: Seq<char>,
    pub message: Option<Seq<char>>,
    pub pull_request: bool,
    pub dry_run: bool,
}

/// The context as the contracts see it.
pub struct ContextView {
    pub path: Seq<char>,
    pub dir: Seq<char>,
    pub github_url: Option<Seq<char>>,
    pub original_branch: Seq<char>,
    pub working_branch: Seq<char>,
    pub changed: bool,
}

/// The workflow as the contracts see it.
pub struct WorkflowView {
    pub request: UpdateRequestView,
    pub commit_message: Seq<char>,
    pub default_manager: Option<Seq<char>>,
    pub context: ContextView,
    pub manager: Seq<char>,
    pub phase: Phase,
}

/// The notice as the contracts see it.
pub enum NoticeView {
    Info(Seq<char>),
    Warning(Seq<char>),
}

/// The action as the contracts see it.
pub enum ActionView {
    ProbeRepository { dir: Seq<char> },
    Run(CommandSpecView),
    ReadManifest { path: Seq<char> },
    WriteManifest { path: Seq<char>, content: Seq<char> },
    ProbeLockFiles { dir: Seq<char> },
}

/// The move as the contracts see it.
pub struct StepView {
    pub state: WorkflowView,
    pub notices: Seq<NoticeView>,
    pub action: Option<ActionView>,
}

/// The text of a text that may be missing.
pub open spec fn text_of(s: Option<String>) -> Option<Seq<char>> {
    match s {
        Some(t) => Some(t@),
        None => None,
    }
}

impl View for UpdateRequest {
    type V = UpdateRequestView;

    open spec fn view(&self) -> UpdateRequestView {
        UpdateRequestView {
            package: self.package@,
            version: self.version@,
            message: text_of(self.message),
            pull_request: self.pull_request,
            dry_run: self.dry_run,
        }
    }
}

impl View for WorkflowContext {
    type V = ContextView;

    open spec fn view(&self) -> ContextView {
        ContextView {
            path: self.repo.path@,
            dir: self.repo.dir@,
            github_url: text_of(self.github_url),
            original_branch: self.original_branch@,
            working_branch: self.working_branch@,
            changed: self.changed,
        }
    }
}

impl View for Workflow {
    type V = WorkflowView;

    open spec fn view(&self) -> WorkflowView {
        WorkflowView {
            request: self.request@,
            commit_message: self.commit_message@,
            default_manager: text_of(self.default_manager),
            context: self.context@,
            manager: self.manager@,
            phase: self.phase,
        }
    }
}

impl View for Notice {
    type V = NoticeView;

    open spec fn view(&self) -> NoticeView {
        match *self {
            Notice::Info(t) => NoticeView::Info(t@),
            Notice::Warning(t) => NoticeView::Warning(t@),
        }
    }
}

impl View for Action {
    type V = ActionView;

    open spec fn view(&self) -> ActionView {
        match *self {
            Action::ProbeRepository { dir } => ActionView::ProbeRepository { dir: dir@ },
            Action::Run(c) => ActionView::Run(c@),
            Action::ReadManifest { path } => ActionView::ReadManifest { path: path@ },
            Action::WriteManifest { path, content } => ActionView::WriteManifest {
                path: path@,
                content: content@,
            },
            Action::ProbeLockFiles { dir } => ActionView::ProbeLockFiles { dir: dir@ },
        }
    }
}

/// The views of a sequence of notices.
pub open spec fn notice_views(notices: Seq<Notice>) -> Seq<NoticeView> {
    Seq::new(notices.len(), |i: int| notices[i]@)
}

impl View for Step {
    type V = StepView;

    open spec fn view(&self) -> StepView {
        StepView {
            state: self.state@,
            notices: notice_views(self.notices@),
            action: match self.action {
                Some(a) => Some(a@),
                None => None,
            },
        }
    }
}

/// The name of the working branch: `update-`, the package, a hyphen, and the
/// version without its range marks.
pub open spec fn branch_name_of(package: Seq<char>, version: Seq<char>) -> Seq<char> {
    "update-"@ + package + "-"@ + without_chars(version, |c: char| c == '^' || c == '~')
}

/// The commit message of an update for which none was given.
pub open spec fn default_message(package: Seq<char>, version: Seq<char>) -> Seq<char> {
    "chore: update "@ + package + " to "@ + version
}

/// The commit message of a request.
pub open spec fn message_of(r: UpdateRequestView) -> Seq<char> {
    match r.message {
        Some(m) => m,
        None => default_message(r.package, r.version),
    }
}

/// The files that are staged after an update: the manifest and the three
/// lock files.
pub open spec fn staged_files() -> Seq<Seq<char>> {
    seq!["package.json"@, "pnpm-lock.yaml"@, "yarn.lock"@, "package-lock.json"@]
}

/// The place of the manifest in `dir`.
pub open spec fn manifest_path(dir: Seq<char>) -> Seq<char> {
    joined_path(dir, "package.json"@)
}

/// The answer that an event gives to a question about the repository's path;
/// an event of another kind says that nothing is there.
pub open spec fn event_probe(e: Event) -> RepoProbe {
    match e {
        Event::Repository(p) => p,
        _ => RepoProbe { exists: false, has_git: false },
    }
}

/// The result of a command that an event holds; an event of another kind
/// says that the command was not started.
pub open spec fn event_command(e: Event) -> CommandResult {
    match e {
        Event::Command(r) => r,
        _ => CommandResult::NotStarted,
    }
}

/// The manifest that an event holds; an event of another kind says that it
/// could not be read.
pub open spec fn event_manifest(e: Event) -> ManifestFile {
    match e {
        Event::Manifest(m) => m,
        _ => ManifestFile::Unreadable,
    }
}

/// Whether an event says that the manifest was written.
pub open spec fn event_written(e: Event) -> bool {
    e matches Event::Written(ok) && ok
}

/// The lock files that an event reports; an event of another kind reports
/// none.
pub open spec fn event_locks(e: Event) -> LockFiles {
    match e {
        Event::LockFiles(l) => l,
        _ => LockFiles { pnpm: false, yarn: false, npm: false },
    }
}

/// `s` in another phase.
pub open spec fn with_phase(s: WorkflowView, phase: Phase) -> WorkflowView {
    WorkflowView { phase: phase, ..s }
}

/// The workflow ends with `outcome`.
pub open spec fn finish(s: WorkflowView, n: Seq<NoticeView>, outcome: Outcome) -> StepView {
    StepView { state: with_phase(s, Phase::Finished(outcome)), notices: n, action: None }
}

/// The workflow asks for `action` and waits in `phase`.
pub open spec fn wait(s: WorkflowView, n: Seq<NoticeView>, phase: Phase, action: ActionView) -> StepView {
    StepView { state: with_phase(s, phase), notices: n, action: Some(action) }
}

/// The workflow ends on an error found before the manifest was edited.
pub open spec fn fail_early(s: WorkflowView, n: Seq<NoticeView>, error: WorkflowError) -> StepView {
    finish(s, n, Outcome::Failed { error: error, restored: Restore::NotTried })
}

/// How the workflow ends after the way back, which succeeded or not.
pub open spec fn restored_outcome(pending: Pending, back: Result<(), GitError>) -> Outcome {
    match pending {
        Pending::Updated => match back {
            Ok(_) => Outcome::Updated,
            Err(e) => Outcome::Failed { error: WorkflowError::Git(e), restored: Restore::Failed },
        },
        Pending::UpToDate => match back {
            Ok(_) => Outcome::UpToDate,
            Err(e) => Outcome::Failed { error: WorkflowError::Git(e), restored: Restore::Failed },
        },
        Pending::Failure(error) => match back {
            Ok(_) => Outcome::Failed { error: error, restored: Restore::Done },
            Err(_) => Outcome::Failed { error: error, restored: Restore::Failed },
        },
    }
}

/// The way back to the original branch. In a dry run nothing was moved, so
/// the workflow ends at once.
pub open spec fn enter_restoring(s: WorkflowView, n: Seq<NoticeView>, pending: Pending) -> StepView {
    let plan = checkout_plan(
        s.context.path,
        s.context.dir,
        s.context.original_branch,
        s.request.dry_run,
    );
    let n2 = n.push(NoticeView::Info(plan.notice));
    match plan.command {
        Some(c) => wait(s, n2, Phase::Restoring(pending), ActionView::Run(c)),
        None => finish(s, n2, restored_outcome(pending, Ok(()))),
    }
}

/// An error found after the manifest was edited: the way back is still
/// tried.
pub open spec fn late_failure(s: WorkflowView, n: Seq<NoticeView>, error: WorkflowError) -> StepView {
    enter_restoring(s, n, Pending::Failure(error))
}

/// The line that reports the update of a repository.
pub open spec fn success_notice(s: WorkflowView) -> Seq<char> {
    "\u{2705} Successfully updated "@ + s.request.package + " to "@ + s.request.version + " in "@
        + s.context.path
}

/// The update is pushed: it is reported, and the way back follows.
pub open spec fn enter_success(s: WorkflowView, n: Seq<NoticeView>) -> StepView {
    enter_restoring(s, n.push(NoticeView::Info(success_notice(s))), Pending::Updated)
}

/// A failure of the pull request is a warning: the change is pushed already.
pub open spec fn pr_warning(s: WorkflowView, n: Seq<NoticeView>, e: HostErrorView) -> StepView {
    enter_success(
        s,
        n.push(NoticeView::Warning("Warning: Failed to create PR: "@ + host_error_text(e))),
    )
}

/// The pull request, where one was asked for: in a dry run it is announced,
/// live the login is looked at first.
pub open spec fn enter_pr(s: WorkflowView, n: Seq<NoticeView>) -> StepView {
    if !s.request.pull_request {
        enter_success(s, n)
    } else if s.request.dry_run {
        enter_success(
            s,
            n.push(
                NoticeView::Info(
                    create_pr_plan(
                        s.context.dir,
                        s.context.working_branch,
                        s.commit_message,
                        true,
                        true,
                        None,
                    ).notice,
                ),
            ),
        )
    } else {
        wait(s, n, Phase::Authenticating, ActionView::Run(auth_command_spec()))
    }
}

/// The push of the working branch; in a dry run the next step follows at once.
pub open spec fn enter_pushing(s: WorkflowView, n: Seq<NoticeView>) -> StepView {
    let plan = push_plan(s.context.dir, s.context.working_branch, s.request.dry_run);
    let n2 = n.push(NoticeView::Info(plan.notice));
    match plan.command {
        Some(c) => wait(s, n2, Phase::Pushing, ActionView::Run(c)),
        None => enter_pr(s, n2),
    }
}

/// The commit; in a dry run the next step follows at once.
pub open spec fn enter_committing(s: WorkflowView, n: Seq<NoticeView>) -> StepView {
    let plan = commit_plan(s.context.dir, s.commit_message, s.request.dry_run);
    let n2 = n.push(NoticeView::Info(plan.notice));
    match plan.command {
        Some(c) => wait(s, n2, Phase::ListingStaged, ActionView::Run(c)),
        None => enter_pushing(s, n2),
    }
}

/// The staging of the manifest and the lock files; in a dry run the next step
/// follows at once.
pub open spec fn enter_staging(s: WorkflowView, n: Seq<NoticeView>) -> StepView {
    let plan = stage_plan(s.context.path, s.context.dir, staged_files(), s.request.dry_run);
    let n2 = n.push(NoticeView::Info(plan.notice));
    match plan.command {
        Some(c) => wait(s, n2, Phase::Staging, ActionView::Run(c)),
        None => enter_committing(s, n2),
    }
}

/// The install step of the package manager that was resolved; in a dry run
/// the next step follows at once.
pub open spec fn enter_installing(s: WorkflowView, n: Seq<NoticeView>) -> StepView {
    let plan = install_plan(s.context.path, s.context.dir, s.manager, s.request.dry_run);
    let n2 = n.push(NoticeView::Info(plan.notice));
    match plan.command {
        Some(c) => wait(s, n2, Phase::Installing, ActionView::Run(c)),
        None => enter_staging(s, n2),
    }
}

/// The look at the lock files.
pub open spec fn enter_detecting(s: WorkflowView, n: Seq<NoticeView>) -> StepView {
    wait(s, n, Phase::ProbingLocks, ActionView::ProbeLockFiles { dir: s.context.dir })
}

/// The reading of the manifest.
pub open spec fn enter_editing(s: WorkflowView, n: Seq<NoticeView>) -> StepView {
    wait(
        s,
        n,
        Phase::ReadingManifest,
        ActionView::ReadManifest { path: manifest_path(s.context.dir) },
    )
}

/// The move to the working branch; in a dry run the edit follows at once.
pub open spec fn enter_branching(s: WorkflowView, n: Seq<NoticeView>) -> StepView {
    let plan = create_branch_plan(
        s.context.path,
        s.context.dir,
        s.context.working_branch,
        s.request.dry_run,
    );
    let n2 = n.push(NoticeView::Info(plan.notice));
    match plan.command {
        Some(c) => wait(s, n2, Phase::ListingBranches, ActionView::Run(c)),
        None => enter_editing(s, n2),
    }
}

/// The line that reports one change of the manifest.
pub open spec fn edit_notice_text(
    package: Seq<char>,
    edit: DependencyEditView,
    version: Seq<char>,
) -> Seq<char> {
    "Updated "@ + package + " in "@ + edit.class.section() + " from "@ + (match edit.previous {
        Some(p) => p,
        None => "unknown"@,
    }) + " to "@ + version
}

/// The lines that report the changes of the manifest, in their order.
pub open spec fn edit_notices(
    package: Seq<char>,
    edits: Seq<DependencyEditView>,
    version: Seq<char>,
) -> Seq<NoticeView> {
    Seq::new(edits.len(), |i: int| NoticeView::Info(edit_notice_text(package, edits[i], version)))
}

/// The line of the manifest editor for a manifest that needs no change.
pub open spec fn unchanged_notice(s: WorkflowView) -> Seq<char> {
    "Package '"@ + s.request.package + "' is already at version '"@ + s.request.version
        + "' or not found"@
}

/// The line of the workflow for a manifest that needs no change.
pub open spec fn skipping_notice(s: WorkflowView) -> Seq<char> {
    "Package '"@ + s.request.package + "' is already at version '"@ + s.request.version
        + "', skipping"@
}

/// `s` with the note that the manifest was changed.
pub open spec fn with_changed(s: WorkflowView) -> WorkflowView {
    WorkflowView { context: ContextView { changed: true, ..s.context }, ..s }
}

/// What the workflow does with the result of the edit.
pub open spec fn after_edit(s: WorkflowView, u: PackageUpdateView) -> StepView {
    let n = edit_notices(s.request.package, u.edits, s.request.version);
    if !u.changed {
        enter_restoring(
            s,
            n.push(NoticeView::Info(unchanged_notice(s))).push(
                NoticeView::Info(skipping_notice(s)),
            ),
            Pending::UpToDate,
        )
    } else {
        match u.content {
            Some(c) => wait(
                with_changed(s),
                n,
                Phase::WritingManifest,
                ActionView::WriteManifest { path: manifest_path(s.context.dir), content: c },
            ),
            None => enter_detecting(with_changed(s), n),
        }
    }
}

/// What the workflow does with the manifest that was read.
pub open spec fn after_manifest(s: WorkflowView, file: ManifestFile) -> StepView {
    match file {
        ManifestFile::Missing => fail_early(
            s,
            Seq::empty(),
            WorkflowError::Manifest(ManifestError::NotFound),
        ),
        ManifestFile::Unreadable => fail_early(
            s,
            Seq::empty(),
            WorkflowError::Manifest(ManifestError::Unreadable),
        ),
        ManifestFile::Text(t) => match update_outcome(
            t@,
            s.request.package,
            s.request.version,
            s.request.dry_run,
        ) {
            Ok(u) => after_edit(s, u),
            Err(e) => if e == ManifestError::Render {
                late_failure(with_changed(s), Seq::empty(), WorkflowError::Manifest(e))
            } else {
                fail_early(s, Seq::empty(), WorkflowError::Manifest(e))
            },
        },
    }
}

/// The line that reports the writing of the manifest.
pub open spec fn saved_notice(s: WorkflowView) -> Seq<char> {
    "Saved changes to package.json in "@ + s.context.path
}

/// `s` with the package manager that was resolved.
pub open spec fn with_manager(s: WorkflowView, manager: Seq<char>) -> WorkflowView {
    WorkflowView { manager: manager, ..s }
}

/// `s` with the branch that was captured at entry.
pub open spec fn with_original(s: WorkflowView, branch: Seq<char>) -> WorkflowView {
    WorkflowView { context: ContextView { original_branch: branch, ..s.context }, ..s }
}

/// What a command that did not succeed wrote to its error stream, as a
/// warning; nothing where it wrote nothing.
pub open spec fn error_notices(cmd: CommandResult) -> Seq<NoticeView> {
    if cmd is Finished && !cmd.succeeded() && lossy_text(cmd.errors()).len() > 0 {
        seq![NoticeView::Warning(lossy_text(cmd.errors()))]
    } else {
        Seq::empty()
    }
}

/// After the look at the path: a path that is no repository ends the
/// workflow; else the current branch is asked for.
pub open spec fn after_probe(s: WorkflowView, probe: RepoProbe) -> StepView {
    match probed(probe) {
        Err(x) => fail_early(s, Seq::empty(), WorkflowError::Repository(x)),
        Ok(_) => wait(
            s,
            Seq::empty(),
            Phase::CurrentBranch,
            ActionView::Run(current_branch_command_spec(s.context.dir)),
        ),
    }
}

/// After the question for the current branch: without a branch the workflow
/// ends; else the branch is kept as the one to go back to, and the move to the
/// working branch follows.
pub open spec fn after_current_branch(s: WorkflowView, cmd: CommandResult) -> StepView {
    match current_branch_of(cmd) {
        Err(x) => fail_early(s, error_notices(cmd), WorkflowError::Git(x)),
        Ok(name) => enter_branching(with_original(s, name), Seq::empty()),
    }
}

/// After the list of branches: the working branch is checked out where it
/// exists, created where it does not.
pub open spec fn after_branch_list(s: WorkflowView, cmd: CommandResult) -> StepView {
    match listed_any(cmd, GitAction::ListBranches) {
        Err(x) => fail_early(s, error_notices(cmd), WorkflowError::Git(x)),
        Ok(exists) => wait(
            s,
            Seq::empty(),
            Phase::Switching(exists),
            ActionView::Run(switch_command_spec(s.context.dir, s.context.working_branch, exists)),
        ),
    }
}

/// After the switch to the working branch: the edit of the manifest follows.
pub open spec fn after_switch(s: WorkflowView, exists: bool, cmd: CommandResult) -> StepView {
    match success_of(cmd, switch_action(exists)) {
        Err(x) => fail_early(s, error_notices(cmd), WorkflowError::Git(x)),
        Ok(_) => enter_editing(s, Seq::empty()),
    }
}

/// After the writing of the manifest: the lock files are looked at; a
/// manifest that could not be written is a failure after the edit.
pub open spec fn after_write(s: WorkflowView, written: bool) -> StepView {
    if written {
        enter_detecting(s, seq![NoticeView::Info(saved_notice(s))])
    } else {
        late_failure(s, Seq::empty(), WorkflowError::WriteFailed)
    }
}

/// After the look at the lock files: the install step with the package
/// manager that they name, else with the default; without either, a failure
/// after the edit.
pub open spec fn after_locks(s: WorkflowView, locks: LockFiles) -> StepView {
    match resolved_manager(locks, s.default_manager) {
        Some(m) => enter_installing(with_manager(s, m), Seq::empty()),
        None => late_failure(s, Seq::empty(), WorkflowError::NoPackageManager),
    }
}

/// After the install step: the staging follows.
pub open spec fn after_install(s: WorkflowView, cmd: CommandResult) -> StepView {
    match installed(cmd) {
        Err(x) => late_failure(s, error_notices(cmd), WorkflowError::Install(x)),
        Ok(_) => enter_staging(s, Seq::empty()),
    }
}

/// After the staging: the commit follows.
pub open spec fn after_stage(s: WorkflowView, cmd: CommandResult) -> StepView {
    match success_of(cmd, GitAction::Stage) {
        Err(x) => late_failure(s, error_notices(cmd), WorkflowError::Git(x)),
        Ok(_) => enter_committing(s, Seq::empty()),
    }
}

/// After the list of staged files: a commit where anything is staged; else
/// the commit is passed over with a notice, and the push follows.
pub open spec fn after_staged_list(s: WorkflowView, cmd: CommandResult) -> StepView {
    match listed_any(cmd, GitAction::ListStaged) {
        Err(x) => late_failure(s, error_notices(cmd), WorkflowError::Git(x)),
        Ok(any) => if any {
            wait(
                s,
                Seq::empty(),
                Phase::Committing,
                ActionView::Run(commit_command_spec(s.context.dir, s.commit_message)),
            )
        } else {
            enter_pushing(s, seq![NoticeView::Info("No staged changes to commit"@)])
        },
    }
}

/// After the commit: the push follows.
pub open spec fn after_commit(s: WorkflowView, cmd: CommandResult) -> StepView {
    match success_of(cmd, GitAction::Commit) {
        Err(x) => late_failure(s, error_notices(cmd), WorkflowError::Git(x)),
        Ok(_) => enter_pushing(s, Seq::empty()),
    }
}

/// After the push: the pull request, where one was asked for.
pub open spec fn after_push(s: WorkflowView, cmd: CommandResult) -> StepView {
    match success_of(cmd, GitAction::Push) {
        Err(x) => late_failure(s, error_notices(cmd), WorkflowError::Git(x)),
        Ok(_) => enter_pr(s, Seq::empty()),
    }
}

/// After the look at the login: the pull request is created where the tool is
/// logged in; else a warning, and the workflow goes on.
pub open spec fn after_auth(s: WorkflowView, cmd: CommandResult) -> StepView {
    match auth_of(cmd) {
        Err(x) => pr_warning(s, Seq::empty(), x),
        Ok(logged_in) => if logged_in {
            let plan = create_pr_plan(
                s.context.dir,
                s.context.working_branch,
                s.commit_message,
                false,
                true,
                None,
            );
            wait(
                s,
                seq![NoticeView::Info(plan.notice)],
                Phase::CreatingPr,
                ActionView::Run(plan.command->0),
            )
        } else {
            pr_warning(s, Seq::empty(), bare(HostFault::LoginRequired))
        },
    }
}

/// After the creation of the pull request: its address is shown; where the
/// host says that one exists already, that one is looked up; any other
/// failure is a warning.
pub open spec fn after_pr_create(s: WorkflowView, cmd: CommandResult) -> StepView {
    match created_of(cmd) {
        Err(x) => pr_warning(s, Seq::empty(), x),
        Ok(Some(url)) => enter_success(s, seq![NoticeView::Info("PR created: "@ + url)]),
        Ok(None) => {
            let plan = existing_pr_plan(s.context.dir, s.context.working_branch);
            wait(
                s,
                seq![NoticeView::Info(plan.notice)],
                Phase::ViewingPr,
                ActionView::Run(plan.command->0),
            )
        },
    }
}

/// After the lookup of the pull request that exists: its address is shown
/// where the host gave it.
pub open spec fn after_pr_view(s: WorkflowView, cmd: CommandResult) -> StepView {
    match existing_of(cmd) {
        Err(x) => pr_warning(s, Seq::empty(), x),
        Ok(url) => if cmd.succeeded() {
            enter_success(s, seq![NoticeView::Info("Existing PR URL: "@ + url)])
        } else {
            enter_success(s, Seq::empty())
        },
    }
}

/// After the checkout of the original branch: the workflow ends.
pub open spec fn after_restore(s: WorkflowView, pending: Pending, cmd: CommandResult) -> StepView {
    finish(s, error_notices(cmd), restored_outcome(pending, success_of(cmd, GitAction::Checkout)))
}

/// The workflow's move from state `s` on the event `e`.
pub open spec fn step_model(s: WorkflowView, e: Event) -> StepView {
    let cmd = event_command(e);
    match s.phase {
        Phase::Probing => after_probe(s, event_probe(e)),
        Phase::CurrentBranch => after_current_branch(s, cmd),
        Phase::ListingBranches => after_branch_list(s, cmd),
        Phase::Switching(exists) => after_switch(s, exists, cmd),
        Phase::ReadingManifest => after_manifest(s, event_manifest(e)),
        Phase::WritingManifest => after_write(s, event_written(e)),
        Phase::ProbingLocks => after_locks(s, event_locks(e)),
        Phase::Installing => after_install(s, cmd),
        Phase::Staging => after_stage(s, cmd),
        Phase::ListingStaged => after_staged_list(s, cmd),
        Phase::Committing => after_commit(s, cmd),
        Phase::Pushing => after_push(s, cmd),
        Phase::Authenticating => after_auth(s, cmd),
        Phase::CreatingPr => after_pr_create(s, cmd),
        Phase::ViewingPr => after_pr_view(s, cmd),
        Phase::Restoring(pending) => after_restore(s, pending, cmd),
        Phase::Finished(_) => StepView { state: s, notices: Seq::empty(), action: None },
    }
}

/// The line that announces a repository.
pub open spec fn processing_notice(path: Seq<char>) -> Seq<char> {
    "\n=== Processing repository: "@ + path + " ==="@
}

/// The state in which the workflow of the repository at `path` begins.
pub open spec fn initial_state(
    request: UpdateRequestView,
    path: Seq<char>,
    github_url: Option<Seq<char>>,
    default_manager: Option<Seq<char>>,
    dir: Seq<char>,
) -> WorkflowView {
    WorkflowView {
        request: request,
        commit_message: message_of(request),
        default_manager: default_manager,
        context: ContextView {
            path: path,
            dir: dir,
            github_url: github_url,
            original_branch: Seq::empty(),
            working_branch: branch_name_of(request.package, request.version),
            changed: false,
        },
        manager: Seq::empty(),
        phase: Phase::Probing,
    }
}

/// The first move of the workflow: the repository is announced and its path
/// looked at.
pub open spec fn start_model(
    request: UpdateRequestView,
    path: Seq<char>,
    github_url: Option<Seq<char>>,
    default_manager: Option<Seq<char>>,
    home: Option<Seq<char>>,
) -> StepView {
    let n = seq![NoticeView::Info(processing_notice(path))];
    match expanded(path, home) {
        Some(dir) => {
            let s = initial_state(request, path, github_url, default_manager, dir);
            wait(s, n, Phase::Probing, ActionView::ProbeRepository { dir: dir })
        },
        None => fail_early(
            initial_state(request, path, github_url, default_manager, path),
            n,
            WorkflowError::NoHomeDirectory,
        ),
    }
}

/// The name of the working branch for an update of `package` to `version`.
pub fn working_branch_name(package: &str, version: &str) -> (name: String)
    ensures
        name@ == branch_name_of(package@, version@),
{
    let clean = remove_chars(version, '^', '~');
    join4("update-", package, "-", clean.as_str())
}

/// The commit message of an update for which none was given.
pub fn default_commit_message(package: &str, version: &str) -> (m: String)
    ensures
        m@ == default_message(package@, version@),
{
    join4("chore: update ", package, " to ", version)
}

impl UpdateRequest {
    /// The commit message of the request: the one it was given, else the
    /// default for its package and version.
    pub fn commit_message(&self) -> (m: String)
        ensures
            m@ == message_of(self@),
    {
        match &self.message {
            Some(m) => m.clone(),
            None => default_commit_message(self.package.as_str(), self.version.as_str()),
        }
    }
}

/// The files to stage after an update.
pub fn files_to_stage() -> (files: Vec<String>)
    ensures
        files.deep_view() == staged_files(),
{
    let mut files: Vec<String> = Vec::new();
    files.push("package.json".to_owned());
    files.push("pnpm-lock.yaml".to_owned());
    files.push("yarn.lock".to_owned());
    files.push("package-lock.json".to_owned());
    assert(files.deep_view() =~= staged_files());
    files
}

fn info(notices: &mut Vec<Notice>, text: String)
    ensures
        notice_views(final(notices)@) == notice_views(old(notices)@).push(NoticeView::Info(text@)),
{
    notices.push(Notice::Info(text));
    assert(notice_views(notices@) =~= notice_views(old(notices)@).push(NoticeView::Info(text@)));
}

fn warning(notices: &mut Vec<Notice>, text: String)
    ensures
        notice_views(final(notices)@) == notice_views(old(notices)@).push(
            NoticeView::Warning(text@),
        ),
{
    notices.push(Notice::Warning(text));
    assert(notice_views(notices@) =~= notice_views(old(notices)@).push(
        NoticeView::Warning(text@),
    ));
}

fn no_notices() -> (n: Vec<Notice>)
    ensures
        notice_views(n@) == Seq::<NoticeView>::empty(),
{
    let n: Vec<Notice> = Vec::new();
    assert(notice_views(n@) =~= Seq::<NoticeView>::empty());
    n
}

fn one_notice(text: String) -> (n: Vec<Notice>)
    ensures
        notice_views(n@) == seq![NoticeView::Info(text@)],
{
    let mut n: Vec<Notice> = Vec::new();
    n.push(Notice::Info(text));
    assert(notice_views(n@) =~= seq![NoticeView::Info(text@)]);
    n
}

fn finish_step(s: Workflow, notices: Vec<Notice>, outcome: Outcome) -> (r: Step)
    ensures
        r@ == finish(s@, notice_views(notices@), outcome),
{
    let mut state = s;
    state.phase = Phase::Finished(outcome);
    Step { state, notices, action: None }
}

fn wait_step(s: Workflow, notices: Vec<Notice>, phase: Phase, action: Action) -> (r: Step)
    ensures
        r@ == wait(s@, notice_views(notices@), phase, action@),
{
    let mut state = s;
    state.phase = phase;
    Step { state, notices, action: Some(action) }
}

fn fail_early_step(s: Workflow, notices: Vec<Notice>, error: WorkflowError) -> (r: Step)
    ensures
        r@ == fail_early(s@, notice_views(notices@), error),
{
    finish_step(s, notices, Outcome::Failed { error, restored: Restore::NotTried })
}

fn outcome_after(pending: Pending, back: Result<(), GitError>) -> (o: Outcome)
    ensures
        o == restored_outcome(pending, back),
{
    match pending {
        Pending::Updated => match back {
            Ok(_) => Outcome::Updated,
            Err(e) => Outcome::Failed { error: WorkflowError::Git(e), restored: Restore::Failed },
        },
        Pending::UpToDate => match back {
            Ok(_) => Outcome::UpToDate,
            Err(e) => Outcome::Failed { error: WorkflowError::Git(e), restored: Restore::Failed },
        },
        Pending::Failure(error) => match back {
            Ok(_) => Outcome::Failed { error, restored: Restore::Done },
            Err(_) => Outcome::Failed { error, restored: Restore::Failed },
        },
    }
}

fn restoring_step(s: Workflow, notices: Vec<Notice>, pending: Pending) -> (r: Step)
    ensures
        r@ == enter_restoring(s@, notice_views(notices@), pending),
{
    let mut notices = notices;
    let plan = checkout_branch(
        &s.context.repo,
        s.context.original_branch.as_str(),
        s.request.dry_run,
    );
    info(&mut notices, plan.notice);
    match plan.command {
        Some(c) => wait_step(s, notices, Phase::Restoring(pending), Action::Run(c)),
        None => finish_step(s, notices, outcome_after(pending, Ok(()))),
    }
}

fn late_failure_step(s: Workflow, notices: Vec<Notice>, error: WorkflowError) -> (r: Step)
    ensures
        r@ == late_failure(s@, notice_views(notices@), error),
{
    restoring_step(s, notices, Pending::Failure(error))
}

fn success_step(s: Workflow, notices: Vec<Notice>) -> (r: Step)
    ensures
        r@ == enter_success(s@, notice_views(notices@)),
{
    let mut notices = notices;
    let mut text = join4(
        "\u{2705} Successfully updated ",
        s.request.package.as_str(),
        " to ",
        s.request.version.as_str(),
    );
    text.append(" in ");
    text.append(s.context.repo.path.as_str());
    info(&mut notices, text);
    restoring_step(s, notices, Pending::Updated)
}

fn pr_warning_step(s: Workflow, notices: Vec<Notice>, e: &HostError) -> (r: Step)
    ensures
        r@ == pr_warning(s@, notice_views(notices@), e@),
{
    let mut notices = notices;
    let m = e.message();
    warning(&mut notices, join("Warning: Failed to create PR: ", m.as_str()));
    success_step(s, notices)
}

fn pr_step(s: Workflow, notices: Vec<Notice>) -> (r: Step)
    ensures
        r@ == enter_pr(s@, notice_views(notices@)),
{
    let mut notices = notices;
    if !s.request.pull_request {
        success_step(s, notices)
    } else if s.request.dry_run {
        let plan = create_pr(
            &s.context.repo,
            s.context.working_branch.as_str(),
            s.commit_message.as_str(),
            true,
            true,
            None,
        );
        info(&mut notices, plan.notice);
        success_step(s, notices)
    } else {
        wait_step(s, notices, Phase::Authenticating, Action::Run(auth_command()))
    }
}

fn pushing_step(s: Workflow, notices: Vec<Notice>) -> (r: Step)
    ensures
        r@ == enter_pushing(s@, notice_views(notices@)),
{
    let mut notices = notices;
    let plan = push_branch(&s.context.repo, s.context.working_branch.as_str(), s.request.dry_run);
    info(&mut notices, plan.notice);
    match plan.command {
        Some(c) => wait_step(s, notices, Phase::Pushing, Action::Run(c)),
        None => pr_step(s, notices),
    }
}

fn committing_step(s: Workflow, notices: Vec<Notice>) -> (r: Step)
    ensures
        r@ == enter_committing(s@, notice_views(notices@)),
{
    let mut notices = notices;
    let plan = commit_changes(&s.context.repo, s.commit_message.as_str(), s.request.dry_run);
    info(&mut notices, plan.notice);
    match plan.command {
        Some(c) => wait_step(s, notices, Phase::ListingStaged, Action::Run(c)),
        None => pushing_step(s, notices),
    }
}

fn staging_step(s: Workflow, notices: Vec<Notice>) -> (r: Step)
    ensures
        r@ == enter_staging(s@, notice_views(notices@)),
{
    let mut notices = notices;
    let files = files_to_stage();
    let plan = stage_changes(&s.context.repo, &files, s.request.dry_run);
    info(&mut notices, plan.notice);
    match plan.command {
        Some(c) => wait_step(s, notices, Phase::Staging, Action::Run(c)),
        None => committing_step(s, notices),
    }
}

fn installing_step(s: Workflow, notices: Vec<Notice>) -> (r: Step)
    ensures
        r@ == enter_installing(s@, notice_views(notices@)),
{
    let mut notices = notices;
    let plan = run_install_with_manager(&s.context.repo, s.manager.as_str(), s.request.dry_run);
    info(&mut notices, plan.notice);
    match plan.command {
        Some(c) => wait_step(s, notices, Phase::Installing, Action::Run(c)),
        None => staging_step(s, notices),
    }
}

fn detecting_step(s: Workflow, notices: Vec<Notice>) -> (r: Step)
    ensures
        r@ == enter_detecting(s@, notice_views(notices@)),
{
    let dir = s.context.repo.dir.clone();
    wait_step(s, notices, Phase::ProbingLocks, Action::ProbeLockFiles { dir })
}

fn manifest_path_of(s: &Workflow) -> (p: String)
    ensures
        p@ == manifest_path(s@.context.dir),
{
    join_path(s.context.repo.dir.as_str(), "package.json")
}

fn editing_step(s: Workflow, notices: Vec<Notice>) -> (r: Step)
    ensures
        r@ == enter_editing(s@, notice_views(notices@)),
{
    let path = manifest_path_of(&s);
    wait_step(s, notices, Phase::ReadingManifest, Action::ReadManifest { path })
}

fn branching_step(s: Workflow, notices: Vec<Notice>) -> (r: Step)
    ensures
        r@ == enter_branching(s@, notice_views(notices@)),
{
    let mut notices = notices;
    let plan = create_branch(
        &s.context.repo,
        s.context.working_branch.as_str(),
        s.request.dry_run,
    );
    info(&mut notices, plan.notice);
    match plan.command {
        Some(c) => wait_step(s, notices, Phase::ListingBranches, Action::Run(c)),
        None => editing_step(s, notices),
    }
}

fn edit_notices_of(package: &str, edits: &Vec<DependencyEdit>, version: &str) -> (n: Vec<Notice>)
    ensures
        notice_views(n@) == edit_notices(package@, edit_views(edits@), version@),
{
    let mut n: Vec<Notice> = Vec::new();
    let mut i: usize = 0;
    while i < edits.len()
        invariant
            i <= edits.len(),
            n@.len() == i,
            forall|k: int|
                0 <= k < i ==> (#[trigger] n@[k])@ == NoticeView::Info(
                    edit_notice_text(package@, edits@[k]@, version@),
                ),
        decreases edits.len() - i,
    {
        n.push(Notice::Info(edit_notice(package, &edits[i], version)));
        i += 1;
    }
    assert(notice_views(n@) =~= edit_notices(
        package@,
        edit_views(edits@),
        version@,
    ));
    n
}

fn manifest_step(s: Workflow, file: &ManifestFile) -> (r: Step)
    ensures
        r@ == after_manifest(s@, *file),
{
    let text = match file {
        ManifestFile::Missing => {
            return fail_early_step(
                s,
                no_notices(),
                WorkflowError::Manifest(ManifestError::NotFound),
            );
        },
        ManifestFile::Unreadable => {
            return fail_early_step(
                s,
                no_notices(),
                WorkflowError::Manifest(ManifestError::Unreadable),
            );
        },
        ManifestFile::Text(t) => t,
    };
    let update = match update_package(
        text.as_str(),
        s.request.package.as_str(),
        s.request.version.as_str(),
        s.request.dry_run,
    ) {
        Ok(u) => u,
        Err(e) => {
            match e {
                ManifestError::Render => {
                    let mut state = s;
                    state.context.changed = true;
                    return late_failure_step(state, no_notices(), WorkflowError::Manifest(e));
                },
                _ => {
                    return fail_early_step(s, no_notices(), WorkflowError::Manifest(e));
                },
            }
        },
    };
    let mut notices = edit_notices_of(
        s.request.package.as_str(),
        &update.edits,
        s.request.version.as_str(),
    );
    if !update.changed {
        info(
            &mut notices,
            join5(
                "Package '",
                s.request.package.as_str(),
                "' is already at version '",
                s.request.version.as_str(),
                "' or not found",
            ),
        );
        info(
            &mut notices,
            join5(
                "Package '",
                s.request.package.as_str(),
                "' is already at version '",
                s.request.version.as_str(),
                "', skipping",
            ),
        );
        return restoring_step(s, notices, Pending::UpToDate);
    }
    let path = manifest_path_of(&s);
    let mut state = s;
    state.context.changed = true;
    match update.content {
        Some(content) => wait_step(
            state,
            notices,
            Phase::WritingManifest,
            Action::WriteManifest { path, content },
        ),
        None => detecting_step(state, notices),
    }
}

fn error_notices_of(cmd: &CommandResult) -> (n: Vec<Notice>)
    ensures
        notice_views(n@) == error_notices(*cmd),
{
    let mut n: Vec<Notice> = Vec::new();
    let shown = match cmd {
        CommandResult::Finished { success, stderr, .. } => {
            if *success {
                None
            } else {
                let text = decode_text_lossy(stderr);
                if text.as_str().unicode_len() > 0 {
                    Some(text)
                } else {
                    None
                }
            }
        },
        CommandResult::NotStarted => None,
    };
    match shown {
        Some(text) => {
            n.push(Notice::Warning(text));
            assert(notice_views(n@) =~= seq![NoticeView::Warning(text@)]);
        },
        None => {
            assert(notice_views(n@) =~= Seq::<NoticeView>::empty());
        },
    }
    n
}

fn probe_step(s: Workflow, probe: &RepoProbe) -> (r: Step)
    ensures
        r@ == after_probe(s@, *probe),
{
    match validate_repository(probe) {
        Err(x) => fail_early_step(s, no_notices(), WorkflowError::Repository(x)),
        Ok(_) => {
            let c = current_branch_command(&s.context.repo);
            wait_step(s, no_notices(), Phase::CurrentBranch, Action::Run(c))
        },
    }
}

fn current_branch_step(s: Workflow, cmd: &CommandResult) -> (r: Step)
    ensures
        r@ == after_current_branch(s@, *cmd),
{
    match get_current_branch(cmd) {
        Err(x) => fail_early_step(s, error_notices_of(cmd), WorkflowError::Git(x)),
        Ok(name) => {
            let mut state = s;
            state.context.original_branch = name;
            branching_step(state, no_notices())
        },
    }
}

fn branch_list_step(s: Workflow, cmd: &CommandResult) -> (r: Step)
    ensures
        r@ == after_branch_list(s@, *cmd),
{
    match branch_exists(cmd) {
        Err(x) => fail_early_step(s, error_notices_of(cmd), WorkflowError::Git(x)),
        Ok(exists) => {
            let c = switch_command(&s.context.repo, s.context.working_branch.as_str(), exists);
            wait_step(s, no_notices(), Phase::Switching(exists), Action::Run(c))
        },
    }
}

fn switch_step(s: Workflow, exists: bool, cmd: &CommandResult) -> (r: Step)
    ensures
        r@ == after_switch(s@, exists, *cmd),
{
    match switch_outcome(cmd, exists) {
        Err(x) => fail_early_step(s, error_notices_of(cmd), WorkflowError::Git(x)),
        Ok(_) => editing_step(s, no_notices()),
    }
}

fn write_step(s: Workflow, written: bool) -> (r: Step)
    ensures
        r@ == after_write(s@, written),
{
    if written {
        let n = one_notice(join("Saved changes to package.json in ", s.context.repo.path.as_str()));
        detecting_step(s, n)
    } else {
        late_failure_step(s, no_notices(), WorkflowError::WriteFailed)
    }
}

fn locks_step(s: Workflow, locks: &LockFiles) -> (r: Step)
    ensures
        r@ == after_locks(s@, *locks),
{
    match resolve_manager(locks, &s.default_manager) {
        Some(m) => {
            let mut state = s;
            state.manager = m;
            installing_step(state, no_notices())
        },
        None => late_failure_step(s, no_notices(), WorkflowError::NoPackageManager),
    }
}

fn install_step(s: Workflow, cmd: &CommandResult) -> (r: Step)
    ensures
        r@ == after_install(s@, *cmd),
{
    match install_outcome(cmd) {
        Err(x) => late_failure_step(s, error_notices_of(cmd), WorkflowError::Install(x)),
        Ok(_) => staging_step(s, no_notices()),
    }
}

fn stage_step(s: Workflow, cmd: &CommandResult) -> (r: Step)
    ensures
        r@ == after_stage(s@, *cmd),
{
    match require_success(cmd, GitAction::Stage) {
        Err(x) => late_failure_step(s, error_notices_of(cmd), WorkflowError::Git(x)),
        Ok(_) => committing_step(s, no_notices()),
    }
}

fn staged_list_step(s: Workflow, cmd: &CommandResult) -> (r: Step)
    ensures
        r@ == after_staged_list(s@, *cmd),
{
    match anything_staged(cmd) {
        Err(x) => late_failure_step(s, error_notices_of(cmd), WorkflowError::Git(x)),
        Ok(any) => {
            if any {
                let c = commit_command(&s.context.repo, s.commit_message.as_str());
                wait_step(s, no_notices(), Phase::Committing, Action::Run(c))
            } else {
                pushing_step(s, one_notice("No staged changes to commit".to_owned()))
            }
        },
    }
}

fn commit_step(s: Workflow, cmd: &CommandResult) -> (r: Step)
    ensures
        r@ == after_commit(s@, *cmd),
{
    match require_success(cmd, GitAction::Commit) {
        Err(x) => late_failure_step(s, error_notices_of(cmd), WorkflowError::Git(x)),
        Ok(_) => pushing_step(s, no_notices()),
    }
}

fn push_step(s: Workflow, cmd: &CommandResult) -> (r: Step)
    ensures
        r@ == after_push(s@, *cmd),
{
    match require_success(cmd, GitAction::Push) {
        Err(x) => late_failure_step(s, error_notices_of(cmd), WorkflowError::Git(x)),
        Ok(_) => pr_step(s, no_notices()),
    }
}

fn auth_step(s: Workflow, cmd: &CommandResult) -> (r: Step)
    ensures
        r@ == after_auth(s@, *cmd),
{
    match check_gh_cli(cmd) {
        Err(x) => pr_warning_step(s, no_notices(), &x),
        Ok(logged_in) => {
            if logged_in {
                let plan = create_pr(
                    &s.context.repo,
                    s.context.working_branch.as_str(),
                    s.commit_message.as_str(),
                    false,
                    true,
                    None,
                );
                match plan.command {
                    Some(c) => wait_step(
                        s,
                        one_notice(plan.notice),
                        Phase::CreatingPr,
                        Action::Run(c),
                    ),
                    None => success_step(s, no_notices()),
                }
            } else {
                let e = HostError::of(HostFault::LoginRequired);
                pr_warning_step(s, no_notices(), &e)
            }
        },
    }
}

fn pr_create_step(s: Workflow, cmd: &CommandResult) -> (r: Step)
    ensures
        r@ == after_pr_create(s@, *cmd),
{
    match pr_created(cmd) {
        Err(x) => pr_warning_step(s, no_notices(), &x),
        Ok(Some(url)) => success_step(s, one_notice(join("PR created: ", url.as_str()))),
        Ok(None) => {
            let plan = existing_pr(&s.context.repo, s.context.working_branch.as_str());
            match plan.command {
                Some(c) => wait_step(s, one_notice(plan.notice), Phase::ViewingPr, Action::Run(c)),
                None => success_step(s, no_notices()),
            }
        },
    }
}

fn pr_view_step(s: Workflow, cmd: &CommandResult) -> (r: Step)
    ensures
        r@ == after_pr_view(s@, *cmd),
{
    match existing_pr_url(cmd) {
        Err(x) => pr_warning_step(s, no_notices(), &x),
        Ok(url) => {
            if cmd.is_success() {
                success_step(s, one_notice(join("Existing PR URL: ", url.as_str())))
            } else {
                success_step(s, no_notices())
            }
        },
    }
}

fn restore_step(s: Workflow, pending: Pending, cmd: &CommandResult) -> (r: Step)
    ensures
        r@ == after_restore(s@, pending, *cmd),
{
    let back = require_success(cmd, GitAction::Checkout);
    finish_step(s, error_notices_of(cmd), outcome_after(pending, back))
}

/// Begins the update of `package_name` to `version` in `repo`, with the given
/// commit message and the default package manager of `config`.
pub fn update_package_workflow(
    repo: &Repository,
    package_name: &str,
    version: &str,
    commit_message: &str,
    create_pr: bool,
    dry_run: bool,
    config: &Config,
    home: &Option<String>,
) -> (r: Step)
    ensures
        r@ == start_model(
            UpdateRequestView {
                package: package_name@,
                version: version@,
                message: Some(commit_message@),
                pull_request: create_pr,
                dry_run: dry_run,
            },
            repo.path@,
            text_of(repo.github_url),
            text_of(config.default_package_manager),
            home_text(*home),
        ),
{
    let request = UpdateRequest {
        package: package_name.to_owned(),
        version: version.to_owned(),
        message: Some(commit_message.to_owned()),
        pull_request: create_pr,
        dry_run,
    };
    Workflow::start(
        request,
        repo.path.as_str(),
        repo.github_url.clone(),
        config.default_package_manager.clone(),
        home,
    )
}

impl Workflow {
    /// Begins the workflow of the repository at `path`: the repository is
    /// announced, and the first thing asked for is a look at its path.
    /// Where the path cannot be expanded the workflow ends at once.
    pub fn start(
        request: UpdateRequest,
        path: &str,
        github_url: Option<String>,
        default_manager: Option<String>,
        home: &Option<String>,
    ) -> (r: Step)
        ensures
            r@ == start_model(
                request@,
                path@,
                text_of(github_url),
                text_of(default_manager),
                home_text(*home),
            ),
    {
        let notices = one_notice(join3("\n=== Processing repository: ", path, " ==="));
        let commit_message = request.commit_message();
        let working_branch = working_branch_name(
            request.package.as_str(),
            request.version.as_str(),
        );
        match RepoDir::resolve(path, home) {
            Ok(repo) => {
                let dir = repo.dir.clone();
                let state = Workflow {
                    request,
                    commit_message,
                    default_manager,
                    context: WorkflowContext {
                        repo,
                        github_url,
                        original_branch: String::new(),
                        working_branch,
                        changed: false,
                    },
                    manager: String::new(),
                    phase: Phase::Probing,
                };
                wait_step(state, notices, Phase::Probing, Action::ProbeRepository { dir })
            },
            Err(_) => {
                let state = Workflow {
                    request,
                    commit_message,
                    default_manager,
                    context: WorkflowContext {
                        repo: RepoDir { path: path.to_owned(), dir: path.to_owned() },
                        github_url,
                        original_branch: String::new(),
                        working_branch,
                        changed: false,
                    },
                    manager: String::new(),
                    phase: Phase::Probing,
                };
                fail_early_step(state, notices, WorkflowError::NoHomeDirectory)
            },
        }
    }

    /// Whether the workflow has ended, and how.
    pub fn outcome(&self) -> (o: Option<Outcome>)
        ensures
            o == match self.phase {
                Phase::Finished(x) => Some(x),
                _ => None,
            },
    {
        match self.phase {
            Phase::Finished(x) => Some(x),
            _ => None,
        }
    }

    /// The workflow's next move, on what came of the action it asked for. An
    /// event of another kind than the one awaited counts as a failure of the
    /// action.
    pub fn step(self, event: &Event) -> (r: Step)
        ensures
            r@ == step_model(self@, *event),
    {
        let not_started = CommandResult::NotStarted;
        let cmd: &CommandResult = match event {
            Event::Command(r) => r,
            _ => &not_started,
        };
        assert(*cmd == event_command(*event));
        match self.phase {
            Phase::Probing => {
                let probe = match event {
                    Event::Repository(p) => *p,
                    _ => RepoProbe { exists: false, has_git: false },
                };
                probe_step(self, &probe)
            },
            Phase::CurrentBranch => current_branch_step(self, cmd),
            Phase::ListingBranches => branch_list_step(self, cmd),
            Phase::Switching(exists) => switch_step(self, exists, cmd),
            Phase::ReadingManifest => {
                let unreadable = ManifestFile::Unreadable;
                let file: &ManifestFile = match event {
                    Event::Manifest(m) => m,
                    _ => &unreadable,
                };
                manifest_step(self, file)
            },
            Phase::WritingManifest => {
                let written = match event {
                    Event::Written(ok) => *ok,
                    _ => false,
                };
                write_step(self, written)
            },
            Phase::ProbingLocks => {
                let locks = match event {
                    Event::LockFiles(l) => *l,
                    _ => LockFiles { pnpm: false, yarn: false, npm: false },
                };
                locks_step(self, &locks)
            },
            Phase::Installing => install_step(self, cmd),
            Phase::Staging => stage_step(self, cmd),
            Phase::ListingStaged => staged_list_step(self, cmd),
            Phase::Committing => commit_step(self, cmd),
            Phase::Pushing => push_step(self, cmd),
            Phase::Authenticating => auth_step(self, cmd),
            Phase::CreatingPr => pr_create_step(self, cmd),
            Phase::ViewingPr => pr_view_step(self, cmd),
            Phase::Restoring(pending) => restore_step(self, pending, cmd),
            Phase::Finished(_) => Step { state: self, notices: no_notices(), action: None },
        }
    }
}

} // verus!
