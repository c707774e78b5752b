//! The fleet orchestrator: the workflow of each repository in the
//! configured order, with the operator's decision after a failure. Beside it
//! stand the small decisions of the other commands.

use crate::config::{added, home_text, removed, Config, ConfigError, Repository};
use crate::git::{GitAction, GitError};
use crate::text::{
    after_last, decimal, decimal_text, eq_ignore_ascii_case, join, join3, join4, last_segment,
    same_ignoring_ascii_case, trim, trim_end_matches, trimmed, without_trailing,
};
use crate::workflow::{
    notice_views, start_model, text_of, Notice, NoticeView, Outcome, Phase, Step, UpdateRequest,
    UpdateRequestView, Workflow, WorkflowError, WorkflowView,
};
use vstd::prelude::*;

verus! {

/// The operator's decision after a repository failed.
#[derive(Debug, Clone, Copy, PartialEq, Eq, Structural)]
pub enum Decision {
    Continue,
    Abort,
}

/// Where the fleet stands.
#[derive(Debug, Clone, Copy, PartialEq, Eq, Structural)]
pub enum FleetPhase {
    /// The workflow of the repository at this position is under way.
    Running(usize),
    /// The repository at this position failed; the operator is asked.
    Asking(usize),
    Done,
}

/// What the caller does next for the fleet.
#[derive(Debug, Clone, Copy, PartialEq, Eq, Structural)]
pub enum FleetAction {
    /// Run the workflow of the repository at this position.
    Process(usize),
    /// Ask the operator whether to go on.
    Ask,
    Finish,
}

/// One update over the fleet.
#[derive(Debug)]
pub struct Fleet {
    pub repositories: Vec<Repository>,
    pub request: UpdateRequest,
    pub default_manager: Option<String>,
    pub phase: FleetPhase,
}

/// One move of the fleet: its new state, the lines to show, and what to do
/// next.
#[derive(Debug)]
pub struct FleetStep {
    pub state: Fleet,
    pub notices: Vec<Notice>,
    pub action: FleetAction,
}

/// What the operator is asked after a failure.
pub open spec fn prompt_text() -> Seq<char> {
    "Continue with remaining repositories? [y/N]: "@
}

/// The answer says yes: it is `y` or `yes`, in either case, whatever
/// whitespace stands around it.
pub open spec fn affirmative(answer: Seq<char>) -> bool {
    same_ignoring_ascii_case(trimmed(answer), "y"@) || same_ignoring_ascii_case(
        trimmed(answer),
        "yes"@,
    )
}

/// The decision that an answer stands for; no answer means abort.
pub open spec fn decision_of(answer: Option<Seq<char>>) -> Decision {
    match answer {
        Some(a) => if affirmative(a) {
            Decision::Continue
        } else {
            Decision::Abort
        },
        None => Decision::Abort,
    }
}

/// The move to the repository after the one at `index`, among `count`.
pub open spec fn advance(index: usize, count: nat) -> (FleetPhase, FleetAction) {
    if index + 1 < count {
        (FleetPhase::Running((index + 1) as usize), FleetAction::Process((index + 1) as usize))
    } else {
        (FleetPhase::Done, FleetAction::Finish)
    }
}

/// The move of the fleet once the workflow of a repository has ended. A
/// failure leads to the question; anything else to the next repository.
pub open spec fn after_outcome(phase: FleetPhase, count: nat, outcome: Outcome) -> (
    FleetPhase,
    FleetAction,
) {
    match phase {
        FleetPhase::Running(i) => match outcome {
            Outcome::Failed { .. } => (FleetPhase::Asking(i), FleetAction::Ask),
            _ => advance(i, count),
        },
        _ => (phase, waiting_action(phase)),
    }
}

/// The move of the fleet on the operator's decision.
pub open spec fn after_decision(phase: FleetPhase, count: nat, decision: Decision) -> (
    FleetPhase,
    FleetAction,
) {
    match phase {
        FleetPhase::Asking(i) => match decision {
            Decision::Continue => advance(i, count),
            Decision::Abort => (FleetPhase::Done, FleetAction::Finish),
        },
        FleetPhase::Running(i) => (phase, FleetAction::Process(i)),
        FleetPhase::Done => (phase, FleetAction::Finish),
    }
}

/// What the caller is to do while the fleet stands in `phase`.
pub open spec fn waiting_action(phase: FleetPhase) -> FleetAction {
    match phase {
        FleetPhase::Running(i) => FleetAction::Process(i),
        FleetPhase::Asking(_) => FleetAction::Ask,
        FleetPhase::Done => FleetAction::Finish,
    }
}

/// The first move of a fleet of `count` repositories.
pub open spec fn first_move(count: nat) -> (FleetPhase, FleetAction) {
    if count == 0 {
        (FleetPhase::Done, FleetAction::Finish)
    } else {
        (FleetPhase::Running(0), FleetAction::Process(0))
    }
}

/// What happens to a fleet: the workflow of the current repository ends, or
/// the operator decides.
pub enum FleetEvent {
    Ended(Outcome),
    Decided(Decision),
}

/// The move of the fleet on an event.
pub open spec fn fleet_move(phase: FleetPhase, count: nat, e: FleetEvent) -> (
    FleetPhase,
    FleetAction,
) {
    match e {
        FleetEvent::Ended(o) => after_outcome(phase, count, o),
        FleetEvent::Decided(d) => after_decision(phase, count, d),
    }
}

/// Where the fleet stands after the events.
pub open spec fn fleet_run(phase: FleetPhase, count: nat, events: Seq<FleetEvent>) -> FleetPhase
    decreases events.len(),
{
    if events.len() == 0 {
        phase
    } else {
        fleet_move(fleet_run(phase, count, events.drop_last()), count, events.last()).0
    }
}

/// The position that a phase stands at; the number of repositories once the
/// fleet is done.
pub open spec fn position(phase: FleetPhase, count: nat) -> nat {
    match phase {
        FleetPhase::Running(i) => i as nat,
        FleetPhase::Asking(i) => i as nat,
        FleetPhase::Done => count,
    }
}

/// The phase stands at one of `count` repositories, or the fleet is done.
pub open spec fn standing(phase: FleetPhase, count: nat) -> bool {
    match phase {
        FleetPhase::Running(i) => i < count,
        FleetPhase::Asking(i) => i < count,
        FleetPhase::Done => true,
    }
}

/// The fleet never goes back: a move leaves it at the same repository or
/// takes it to the next one, and a repository is handed out for processing
/// only when the fleet moves on to it, or is at it still.
pub proof fn lemma_fleet_moves_forward(phase: FleetPhase, count: nat, e: FleetEvent)
    requires
        standing(phase, count),
        count <= usize::MAX,
    ensures
        standing(fleet_move(phase, count, e).0, count),
        position(phase, count) <= position(fleet_move(phase, count, e).0, count) <= count,
        fleet_move(phase, count, e).1 matches FleetAction::Process(j) ==> fleet_move(
            phase,
            count,
            e,
        ).0 == FleetPhase::Running(j) && j < count && (j == position(phase, count) + 1 || (j
            == position(phase, count) && phase == FleetPhase::Running(j))),
{
}

/// Once the operator declines to continue, the fleet is done: whatever
/// happens afterwards, no further repository is processed.
pub proof fn lemma_abort_ends_fleet(
    index: usize,
    count: nat,
    events: Seq<FleetEvent>,
    next: FleetEvent,
)
    ensures
        ({
            let stopped = after_decision(FleetPhase::Asking(index), count, Decision::Abort).0;
            &&& stopped == FleetPhase::Done
            &&& fleet_run(stopped, count, events) == FleetPhase::Done
            &&& fleet_move(fleet_run(stopped, count, events), count, next).1 == FleetAction::Finish
        }),
    decreases events.len(),
{
    if events.len() > 0 {
        lemma_abort_ends_fleet(index, count, events.drop_last(), events.last());
    }
}

/// The repositories that the fleet has left keep what was done in them:
/// whatever happens, the fleet asks for no work on a repository before the
/// one it stands at.
pub proof fn lemma_fleet_leaves_done_repositories(
    phase: FleetPhase,
    count: nat,
    events: Seq<FleetEvent>,
    next: FleetEvent,
)
    requires
        standing(phase, count),
        count <= usize::MAX,
    ensures
        standing(fleet_run(phase, count, events), count),
        position(phase, count) <= position(fleet_run(phase, count, events), count) <= count,
        fleet_move(fleet_run(phase, count, events), count, next).1 matches FleetAction::Process(j)
            ==> j >= position(phase, count),
    decreases events.len(),
{
    if events.len() > 0 {
        lemma_fleet_leaves_done_repositories(phase, count, events.drop_last(), events.last());
        lemma_fleet_moves_forward(
            fleet_run(phase, count, events.drop_last()),
            count,
            events.last(),
        );
    }
    lemma_fleet_moves_forward(fleet_run(phase, count, events), count, next);
}

/// The text of the error that ended a workflow.
pub open spec fn workflow_error_text(e: WorkflowError, w: WorkflowView) -> Seq<char> {
    match e {
        WorkflowError::NoHomeDirectory => ConfigError::NoHomeDirectory.text(w.context.path),
        WorkflowError::Repository(x) => x.text(w.context.path),
        WorkflowError::Git(x) => x.text(
            w.context.path,
            if x == GitError::Failed(GitAction::Checkout) {
                w.context.original_branch
            } else {
                w.context.working_branch
            },
        ),
        WorkflowError::Manifest(x) => x.text(w.context.path),
        WorkflowError::WriteFailed => "Failed to write package.json"@,
        WorkflowError::NoPackageManager =>
            "No package manager lock file found and no default package manager configured"@,
        WorkflowError::Install(x) => x.text(w.manager),
    }
}

/// The line that reports the failure of a repository.
pub open spec fn failure_notice(e: WorkflowError, w: WorkflowView) -> NoticeView {
    NoticeView::Warning(
        "Error processing repository "@ + w.context.path + ": "@ + workflow_error_text(e, w),
    )
}

/// The lines that open an update over `count` repositories.
pub open spec fn opening_notices(request: UpdateRequestView, count: nat) -> Seq<NoticeView> {
    if count == 0 {
        seq![
            NoticeView::Info(
                "No repositories configured. Use 'add-repo' command to add repositories."@,
            ),
        ]
    } else {
        let line = NoticeView::Info(
            "Updating package '"@ + request.package + "' to version '"@ + request.version
                + "' in "@ + decimal_text(count) + " repositories"@,
        );
        if request.dry_run {
            seq![NoticeView::Info("DRY RUN MODE - No changes will be made"@), line]
        } else {
            seq![line]
        }
    }
}

/// The directory that a clone goes to: the one that was asked for, else the
/// last segment of the address without a trailing `.git`.
pub open spec fn clone_dir_of(url: Seq<char>, output: Option<Seq<char>>) -> Seq<char> {
    match output {
        Some(dir) => dir,
        None => without_trailing(after_last(url, '/'), ".git"@),
    }
}

impl WorkflowError {
    /// The text of the error, which ended the workflow `w`.
    pub fn message(&self, w: &Workflow) -> (m: String)
        ensures
            m@ == workflow_error_text(*self, w@),
    {
        let path = w.context.repo.path.as_str();
        match self {
            WorkflowError::NoHomeDirectory => ConfigError::NoHomeDirectory.message(path),
            WorkflowError::Repository(x) => x.message(path),
            WorkflowError::Git(x) => {
                let back = match x {
                    GitError::Failed(a) => match a {
                        GitAction::Checkout => true,
                        _ => false,
                    },
                    _ => false,
                };
                if back {
                    x.message(path, w.context.original_branch.as_str())
                } else {
                    x.message(path, w.context.working_branch.as_str())
                }
            },
            WorkflowError::Manifest(x) => x.message(path),
            WorkflowError::WriteFailed => "Failed to write package.json".to_owned(),
            WorkflowError::NoPackageManager => {
                "No package manager lock file found and no default package manager configured".to_owned()
            },
            WorkflowError::Install(x) => x.message(w.manager.as_str()),
        }
    }
}

/// The operator's decision from the line that was read; `None` where no line
/// could be read.
pub fn prompt_continue(answer: Option<&str>) -> (d: Decision)
    ensures
        d == decision_of(
            match answer {
                Some(a) => Some(a@),
                None => None,
            },
        ),
{
    match answer {
        Some(a) => {
            let t = trim(a);
            if eq_ignore_ascii_case(t.as_str(), "y") || eq_ignore_ascii_case(t.as_str(), "yes") {
                Decision::Continue
            } else {
                Decision::Abort
            }
        },
        None => Decision::Abort,
    }
}

/// The question that the operator is asked after a failure.
pub fn prompt() -> (p: String)
    ensures
        p@ == prompt_text(),
{
    "Continue with remaining repositories? [y/N]: ".to_owned()
}

fn info_line(notices: &mut Vec<Notice>, text: String)
    ensures
        notice_views(final(notices)@) == notice_views(old(notices)@).push(NoticeView::Info(text@)),
{
    notices.push(Notice::Info(text));
    assert(notice_views(notices@) =~= notice_views(old(notices)@).push(NoticeView::Info(text@)));
}

fn to_action(state: Fleet, notices: Vec<Notice>, moved: (FleetPhase, FleetAction)) -> (r: FleetStep)
    ensures
        r.state.phase == moved.0,
        r.action == moved.1,
        r.notices == notices,
        r.state.repositories == state.repositories,
        r.state.request == state.request,
        r.state.default_manager == state.default_manager,
{
    let mut state = state;
    state.phase = moved.0;
    FleetStep { state, notices, action: moved.1 }
}

fn copy_request(r: &UpdateRequest) -> (c: UpdateRequest)
    ensures
        c@ == r@,
{
    UpdateRequest {
        package: r.package.clone(),
        version: r.version.clone(),
        message: r.message.clone(),
        pull_request: r.pull_request,
        dry_run: r.dry_run,
    }
}

fn advance_from(index: usize, count: usize) -> (r: (FleetPhase, FleetAction))
    ensures
        r == advance(index, count as nat),
{
    if index < usize::MAX && index + 1 < count {
        (FleetPhase::Running(index + 1), FleetAction::Process(index + 1))
    } else {
        (FleetPhase::Done, FleetAction::Finish)
    }
}

/// Begins an update of `package` to `version` over the repositories of
/// `config`, in their order. An empty fleet is reported and is no error.
pub fn handle_update(
    config: &Config,
    package: &str,
    version: &str,
    message: Option<&str>,
    pull_request: bool,
    dry_run: bool,
) -> (r: FleetStep)
    ensures
        r.state.repositories@.len() == config.repositories@.len(),
        forall|i: int|
            0 <= i < config.repositories@.len() ==> (#[trigger] r.state.repositories@[i]).path@
                == config.repositories@[i].path@ && text_of(r.state.repositories@[i].github_url)
                == text_of(config.repositories@[i].github_url),
        r.state.request@ == (UpdateRequestView {
            package: package@,
            version: version@,
            message: match message {
                Some(m) => Some(m@),
                None => None,
            },
            pull_request: pull_request,
            dry_run: dry_run,
        }),
        text_of(r.state.default_manager) == text_of(config.default_package_manager),
        (r.state.phase, r.action) == first_move(config.repositories@.len()),
        r.state.well_formed(),
        notice_views(r.notices@) == opening_notices(r.state.request@, config.repositories@.len()),
{
    let request = UpdateRequest {
        package: package.to_owned(),
        version: version.to_owned(),
        message: match message {
            Some(m) => Some(m.to_owned()),
            None => None,
        },
        pull_request,
        dry_run,
    };
    let mut repositories: Vec<Repository> = Vec::new();
    let mut i: usize = 0;
    while i < config.repositories.len()
        invariant
            i <= config.repositories@.len(),
            repositories@.len() == i,
            forall|k: int|
                0 <= k < i ==> (#[trigger] repositories@[k]).path@ == config.repositories@[k].path@
                    && text_of(repositories@[k].github_url) == text_of(
                    config.repositories@[k].github_url,
                ),
        decreases config.repositories@.len() - i,
    {
        let r = &config.repositories[i];
        repositories.push(Repository { path: r.path.clone(), github_url: r.github_url.clone() });
        i += 1;
    }
    let count = repositories.len();
    let mut notices: Vec<Notice> = Vec::new();
    assert(notice_views(notices@) =~= Seq::<NoticeView>::empty());
    let default_manager = config.default_package_manager.clone();
    if count == 0 {
        info_line(
            &mut notices,
            "No repositories configured. Use 'add-repo' command to add repositories.".to_owned(),
        );
        let state = Fleet { repositories, request, default_manager, phase: FleetPhase::Done };
        assert(notice_views(notices@) =~= opening_notices(state.request@, 0));
        return FleetStep { state, notices, action: FleetAction::Finish };
    }
    if dry_run {
        info_line(&mut notices, "DRY RUN MODE - No changes will be made".to_owned());
    }
    let n = decimal(count);
    let mut line = join4("Updating package '", package, "' to version '", version);
    line.append("' in ");
    line.append(n.as_str());
    line.append(" repositories");
    info_line(&mut notices, line);
    let state = Fleet { repositories, request, default_manager, phase: FleetPhase::Running(0) };
    assert(notice_views(notices@) =~= opening_notices(state.request@, count as nat));
    FleetStep { state, notices, action: FleetAction::Process(0) }
}

impl Fleet {
    /// The fleet stands at a repository that it holds.
    pub open spec fn well_formed(self) -> bool {
        standing(self.phase, self.repositories@.len())
    }

    /// The first move of the workflow of the repository that the fleet stands
    /// at; `None` where the fleet is not at a repository to process.
    pub fn workflow(&self, home: &Option<String>) -> (r: Option<Step>)
        ensures
            match self.phase {
                FleetPhase::Running(i) => if i < self.repositories@.len() {
                    r matches Some(step) && step@ == start_model(
                        self.request@,
                        self.repositories@[i as int].path@,
                        text_of(self.repositories@[i as int].github_url),
                        text_of(self.default_manager),
                        home_text(*home),
                    )
                } else {
                    r is None
                },
                _ => r is None,
            },
    {
        match self.phase {
            FleetPhase::Running(i) => {
                if i < self.repositories.len() {
                    let repo = &self.repositories[i];
                    Some(
                        Workflow::start(
                            copy_request(&self.request),
                            repo.path.as_str(),
                            repo.github_url.clone(),
                            self.default_manager.clone(),
                            home,
                        ),
                    )
                } else {
                    None
                }
            },
            _ => None,
        }
    }

    /// The fleet's move once the workflow of the current repository has
    /// ended. A success or an up-to-date repository leads on in silence; a
    /// failure is reported with the repository's path, and the operator is
    /// asked whether to go on. A workflow that has not ended changes nothing.
    pub fn after_workflow(self, finished: &Workflow) -> (r: FleetStep)
        ensures
            self.well_formed() ==> r.state.well_formed(),
            r.state.repositories == self.repositories,
            r.state.request == self.request,
            r.state.default_manager == self.default_manager,
            match finished.phase {
                Phase::Finished(outcome) => {
                    &&& (r.state.phase, r.action) == after_outcome(
                        self.phase,
                        self.repositories@.len(),
                        outcome,
                    )
                    &&& notice_views(r.notices@) == match (self.phase, outcome) {
                        (FleetPhase::Running(_), Outcome::Failed { error, .. }) => seq![
                            failure_notice(error, finished@),
                        ],
                        _ => Seq::empty(),
                    }
                },
                _ => r.state.phase == self.phase && r.action == waiting_action(self.phase)
                    && notice_views(r.notices@) == Seq::<NoticeView>::empty(),
            },
    {
        let mut notices: Vec<Notice> = Vec::new();
        assert(notice_views(notices@) =~= Seq::<NoticeView>::empty());
        let count = self.repositories.len();
        let phase = self.phase;
        match finished.phase {
            Phase::Finished(outcome) => match phase {
                FleetPhase::Running(i) => match outcome {
                    Outcome::Failed { error, restored } => {
                        let m = error.message(finished);
                        let line = join4(
                            "Error processing repository ",
                            finished.context.repo.path.as_str(),
                            ": ",
                            m.as_str(),
                        );
                        notices.push(Notice::Warning(line));
                        assert(notice_views(notices@) =~= seq![failure_notice(error, finished@)]);
                        to_action(self, notices, (FleetPhase::Asking(i), FleetAction::Ask))
                    },
                    _ => to_action(self, notices, advance_from(i, count)),
                },
                FleetPhase::Asking(i) => to_action(self, notices, (phase, FleetAction::Ask)),
                FleetPhase::Done => to_action(self, notices, (phase, FleetAction::Finish)),
            },
            _ => match phase {
                FleetPhase::Running(i) => to_action(
                    self,
                    notices,
                    (phase, FleetAction::Process(i)),
                ),
                FleetPhase::Asking(i) => to_action(self, notices, (phase, FleetAction::Ask)),
                FleetPhase::Done => to_action(self, notices, (phase, FleetAction::Finish)),
            },
        }
    }

    /// The fleet's move on the operator's decision: on, or to the end with
    /// the repositories that are left untouched.
    pub fn after_answer(self, decision: Decision) -> (r: FleetStep)
        ensures
            self.well_formed() ==> r.state.well_formed(),
            r.state.repositories == self.repositories,
            r.state.request == self.request,
            r.state.default_manager == self.default_manager,
            (r.state.phase, r.action) == after_decision(
                self.phase,
                self.repositories@.len(),
                decision,
            ),
            notice_views(r.notices@) == if self.phase is Asking && decision == Decision::Abort {
                seq![NoticeView::Info("Aborting update process"@)]
            } else {
                Seq::empty()
            },
    {
        let mut notices: Vec<Notice> = Vec::new();
        assert(notice_views(notices@) =~= Seq::<NoticeView>::empty());
        let count = self.repositories.len();
        let phase = self.phase;
        match phase {
            FleetPhase::Asking(i) => match decision {
                Decision::Continue => to_action(self, notices, advance_from(i, count)),
                Decision::Abort => {
                    info_line(&mut notices, "Aborting update process".to_owned());
                    to_action(self, notices, (FleetPhase::Done, FleetAction::Finish))
                },
            },
            FleetPhase::Running(i) => to_action(self, notices, (phase, FleetAction::Process(i))),
            FleetPhase::Done => to_action(self, notices, (phase, FleetAction::Finish)),
        }
    }
}

/// The line that tells how adding the repository at `path` went.
pub open spec fn add_notice(path: Seq<char>, r: Result<(), ConfigError>) -> NoticeView {
    match r {
        Ok(_) => NoticeView::Info("Repository added successfully: "@ + path),
        Err(e) => NoticeView::Warning("Failed to add repository: "@ + e.text(path)),
    }
}

/// The line that tells how removing the repository at `path` went.
pub open spec fn remove_notice(path: Seq<char>, r: Result<(), ConfigError>) -> NoticeView {
    match r {
        Ok(_) => NoticeView::Info("Repository removed successfully: "@ + path),
        Err(e) => NoticeView::Warning("Failed to remove repository: "@ + e.text(path)),
    }
}

/// Adds the repository at `path` to the configuration and tells how it
/// went.
pub fn handle_add_repo(config: &mut Config, path: &str) -> (r: (Result<(), ConfigError>, Notice))
    ensures
        exists|home: Option<Seq<char>>, given: String|
            given@ == path@ && #[trigger] added(*old(config), given, home, *final(config), r.0),
        r.1@ == add_notice(path@, r.0),
{
    let given = path.to_owned();
    let result = config.add_repository(given);
    let notice = match result {
        Ok(_) => Notice::Info(join("Repository added successfully: ", path)),
        Err(e) => {
            let m = e.message(path);
            Notice::Warning(join("Failed to add repository: ", m.as_str()))
        },
    };
    (result, notice)
}

/// Removes the repository at `path` from the configuration and tells how it
/// went.
pub fn handle_remove_repo(config: &mut Config, path: &str) -> (r: (
    Result<(), ConfigError>,
    Notice,
))
    ensures
        exists|home: Option<Seq<char>>|
            #[trigger] removed(*old(config), path@, home, *final(config), r.0),
        r.1@ == remove_notice(path@, r.0),
{
    let result = config.remove_repository(path);
    let notice = match result {
        Ok(_) => Notice::Info(join("Repository removed successfully: ", path)),
        Err(e) => {
            let m = e.message(path);
            Notice::Warning(join("Failed to remove repository: ", m.as_str()))
        },
    };
    (result, notice)
}

/// Makes `name` the default package manager, if it is one of the known
/// ones, and tells so.
pub fn handle_set_package_manager(config: &mut Config, name: &str) -> (r: Result<
    Notice,
    ConfigError,
>)
    ensures
        final(config).default_commit_message == old(config).default_commit_message,
        final(config).repositories == old(config).repositories,
        crate::config::known_manager(name@) ==> (r matches Ok(n) && n@ == NoticeView::Info(
            "Default package manager set to: "@ + name@,
        )) && (final(config).default_package_manager matches Some(m) && m@ == name@),
        !crate::config::known_manager(name@) ==> r == Err::<Notice, ConfigError>(
            ConfigError::InvalidPackageManager,
        ) && final(config).default_package_manager == old(config).default_package_manager,
{
    match config.set_default_package_manager(name) {
        Ok(_) => Ok(Notice::Info(join("Default package manager set to: ", name))),
        Err(e) => Err(e),
    }
}

/// The directory that a clone of `github_url` goes to: `output` where it is
/// given, else the last segment of the address without a trailing `.git`.
pub fn handle_clone(github_url: &str, output: Option<&str>) -> (dir: String)
    ensures
        dir@ == clone_dir_of(
            github_url@,
            match output {
                Some(o) => Some(o@),
                None => None,
            },
        ),
{
    match output {
        Some(dir) => dir.to_owned(),
        None => {
            let name = last_segment(github_url, '/');
            trim_end_matches(name.as_str(), ".git")
        },
    }
}

/// The repositories whose packages are to be listed: the one at `repo_path`,
/// which must be configured, or all of them.
pub fn handle_list_packages(config: &Config, repo_path: Option<&str>) -> (r: Result<
    Vec<usize>,
    ConfigError,
>)
    ensures
        match repo_path {
            Some(path) => match r {
                Ok(v) => v@.len() == 1 && v@[0] < config.repositories@.len()
                    && config.repositories@[v@[0] as int].path@ == path@ && forall|j: int|
                    0 <= j < v@[0] ==> (#[trigger] config.repositories@[j]).path@ != path@,
                Err(e) => e == ConfigError::NotFound && forall|j: int|
                    0 <= j < config.repositories@.len() ==> (
                    #[trigger] config.repositories@[j]).path@ != path@,
            },
            None => r matches Ok(v) && v@.len() == config.repositories@.len() && forall|j: int|
                0 <= j < v@.len() ==> v@[j] == j,
        },
{
    match repo_path {
        Some(path) => match config.find_repository(path) {
            Some(i) => {
                let mut v: Vec<usize> = Vec::new();
                v.push(i);
                Ok(v)
            },
            None => Err(ConfigError::NotFound),
        },
        None => {
            let mut v: Vec<usize> = Vec::new();
            let mut i: usize = 0;
            while i < config.repositories.len()
                invariant
                    i <= config.repositories@.len(),
                    v@.len() == i,
                    forall|j: int| 0 <= j < i ==> v@[j] == j,
                decreases config.repositories@.len() - i,
            {
                v.push(i);
                i += 1;
            }
            Ok(v)
        },
    }
}

/// The line of a comparison for one repository.
pub fn handle_compare(repo_path: &str, version: &Option<String>) -> (line: String)
    ensures
        line@ == repo_path@ + ": "@ + (match *version {
            Some(v) => v@,
            None => "Not found"@,
        }),
{
    match version {
        Some(v) => join3(repo_path, ": ", v.as_str()),
        None => join3(repo_path, ": ", "Not found"),
    }
}

/// The opening line of the repository that is number `number` in the list
/// of repositories.
pub fn handle_list_repos(number: usize, path: &str) -> (line: String)
    ensures
        line@ == decimal_text(number as nat) + ". Path: "@ + path@,
{
    let n = decimal(number);
    join3(n.as_str(), ". Path: ", path)
}

/// The line that tells whether a repository has changes.
pub fn status_line(has_changes: bool) -> (line: String)
    ensures
        line@ == if has_changes {
            "   Status: Changes present"@
        } else {
            "   Status: Clean"@
        },
{
    if has_changes {
        "   Status: Changes present".to_owned()
    } else {
        "   Status: Clean".to_owned()
    }
}

} // verus!
