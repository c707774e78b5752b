//! What holds of every run of the update workflow: a dry run changes
//! nothing, and a workflow that got past the edit of the manifest leaves the
//! repository on the branch it found it on.

use crate::git::{
    checkout_command_spec, checkout_plan, commit_plan, current_branch_command_spec,
    current_branch_of, push_plan, stage_plan,
};
use crate::github::create_pr_plan;
use crate::package::{
    install_plan, resolved_manager, update_outcome, ManifestError, ManifestFile,
    PackageUpdateView,
};
use crate::workflow::{
    after_manifest, event_command, event_locks, event_manifest, staged_files, start_model,
    step_model, success_notice, with_manager, ActionView, Event, NoticeView, Outcome, Pending,
    Phase, Restore, UpdateRequestView, WorkflowView,
};
use vstd::prelude::*;

verus! {

/// The state that the workflow moves to from `s` on the event `e`.
#[verifier::opaque]
pub open spec fn next_state(s: WorkflowView, e: Event) -> WorkflowView {
    step_model(s, e).state
}

/// The state after the workflow, begun in `s`, took the events one by one.
pub open spec fn run(s: WorkflowView, events: Seq<Event>) -> WorkflowView
    decreases events.len(),
{
    if events.len() == 0 {
        s
    } else {
        next_state(run(s, events.drop_last()), events.last())
    }
}

/// What the workflow asks for on the event `events[k]`.
pub open spec fn asked(s: WorkflowView, events: Seq<Event>, k: int) -> Option<ActionView> {
    step_model(run(s, events.take(k)), events[k]).action
}

/// An action that changes nothing: a look at the path, the manifest or the
/// lock files, or the question for the current branch.
pub open spec fn harmless(action: Option<ActionView>, dir: Seq<char>) -> bool {
    match action {
        None => true,
        Some(ActionView::ProbeRepository { .. }) => true,
        Some(ActionView::ReadManifest { .. }) => true,
        Some(ActionView::ProbeLockFiles { .. }) => true,
        Some(ActionView::Run(c)) => c == current_branch_command_spec(dir),
        Some(ActionView::WriteManifest { .. }) => false,
    }
}

/// A dry run waits only for answers to harmless actions.
pub open spec fn dry_phase(phase: Phase) -> bool {
    match phase {
        Phase::Probing => true,
        Phase::CurrentBranch => true,
        Phase::ReadingManifest => true,
        Phase::ProbingLocks => true,
        Phase::Finished(_) => true,
        _ => false,
    }
}

/// The state is one that a dry run can be in.
pub open spec fn dry(s: WorkflowView) -> bool {
    s.request.dry_run && dry_phase(s.phase)
}

/// A move of a dry run asks for nothing but a harmless action, and leaves a
/// dry run.
#[verifier::rlimit(40)]
pub proof fn lemma_dry_step(s: WorkflowView, e: Event)
    requires
        dry(s),
    ensures
        dry(next_state(s, e)),
        next_state(s, e).context.dir == s.context.dir,
        harmless(step_model(s, e).action, s.context.dir),
{
    reveal(next_state);
    match s.phase {
        Phase::ReadingManifest => {
            lemma_dry_after_manifest(s, event_manifest(e));
        },
        _ => {},
    }
}

#[verifier::rlimit(40)]
proof fn lemma_dry_after_manifest(s: WorkflowView, file: ManifestFile)
    requires
        s.request.dry_run,
    ensures
        dry(after_manifest(s, file).state),
        after_manifest(s, file).state.context.dir == s.context.dir,
        harmless(after_manifest(s, file).action, s.context.dir),
{
}

/// A dry run stays a dry run, whatever the events.
pub proof fn lemma_dry_run(s: WorkflowView, events: Seq<Event>)
    requires
        dry(s),
    ensures
        dry(run(s, events)),
        run(s, events).context.dir == s.context.dir,
    decreases events.len(),
{
    if events.len() > 0 {
        lemma_dry_run(s, events.drop_last());
        lemma_dry_step(run(s, events.drop_last()), events.last());
    }
}

/// With dry-run enabled the workflow never asks for an action that changes
/// anything: no branch is created or checked out, no file written, nothing
/// installed, committed, pushed or opened on the code host, whatever the
/// answers it gets.
pub proof fn lemma_dry_run_is_pure(
    request: UpdateRequestView,
    path: Seq<char>,
    github_url: Option<Seq<char>>,
    default_manager: Option<Seq<char>>,
    home: Option<Seq<char>>,
    events: Seq<Event>,
)
    requires
        request.dry_run,
    ensures
        ({
            let first = start_model(request, path, github_url, default_manager, home);
            &&& harmless(first.action, first.state.context.dir)
            &&& forall|k: int|
                0 <= k < events.len() ==> harmless(
                    #[trigger] asked(first.state, events, k),
                    first.state.context.dir,
                )
        }),
{
    let first = start_model(request, path, github_url, default_manager, home);
    assert(dry(first.state));
    assert forall|k: int| 0 <= k < events.len() implies harmless(
        #[trigger] asked(first.state, events, k),
        first.state.context.dir,
    ) by {
        lemma_dry_run(first.state, events.take(k));
        lemma_dry_step(run(first.state, events.take(k)), events[k]);
    }
}

/// The lines that a dry run shows once the package manager is known: every
/// step from the install to the way back is announced, in the order in which
/// a live run takes them.
pub open spec fn simulated_steps(s: WorkflowView) -> Seq<NoticeView> {
    let c = s.context;
    let steps = seq![
        NoticeView::Info(install_plan(c.path, c.dir, s.manager, true).notice),
        NoticeView::Info(stage_plan(c.path, c.dir, staged_files(), true).notice),
        NoticeView::Info(commit_plan(c.dir, s.commit_message, true).notice),
        NoticeView::Info(push_plan(c.dir, c.working_branch, true).notice),
    ];
    let with_pr = if s.request.pull_request {
        steps.push(
            NoticeView::Info(
                create_pr_plan(c.dir, c.working_branch, s.commit_message, true, true, None).notice,
            ),
        )
    } else {
        steps
    };
    with_pr.push(NoticeView::Info(success_notice(s))).push(
        NoticeView::Info(checkout_plan(c.path, c.dir, c.original_branch, true).notice),
    )
}

/// A dry run that finds a package manager reports every step of the update
/// and ends as a live run without failures does: with the package updated.
#[verifier::rlimit(40)]
pub proof fn lemma_dry_run_reports_every_step(s: WorkflowView, e: Event)
    requires
        s.request.dry_run,
        s.phase == Phase::ProbingLocks,
        resolved_manager(event_locks(e), s.default_manager) is Some,
    ensures
        ({
            let m = resolved_manager(event_locks(e), s.default_manager)->0;
            let next = step_model(s, e);
            &&& next.state.phase == Phase::Finished(Outcome::Updated)
            &&& next.action is None
            &&& next.notices =~= simulated_steps(with_manager(s, m))
        }),
{
}

/// A manifest that is at the target version leads straight to the way back:
/// nothing is installed, staged, committed or pushed.
#[verifier::rlimit(40)]
pub proof fn lemma_up_to_date_goes_back(s: WorkflowView, e: Event, u: PackageUpdateView)
    requires
        s.phase == Phase::ReadingManifest,
        e matches Event::Manifest(ManifestFile::Text(t)) && update_outcome(
            t@,
            s.request.package,
            s.request.version,
            s.request.dry_run,
        ) == Ok::<PackageUpdateView, ManifestError>(u),
        !u.changed,
    ensures
        ({
            let next = step_model(s, e);
            let c = s.context;
            if s.request.dry_run {
                next.action is None && next.state.phase == Phase::Finished(Outcome::UpToDate)
            } else {
                &&& next.state.phase == Phase::Restoring(Pending::UpToDate)
                &&& next.action == Some(
                    ActionView::Run(checkout_command_spec(c.dir, c.original_branch)),
                )
            }
        }),
{
}

/// The branch that is checked out once the action that `s` waits for was
/// answered by `e`, where `head` was checked out before: a checkout that
/// succeeded moved to its branch, and nothing else moves.
pub open spec fn head_after(head: Seq<char>, s: WorkflowView, e: Event) -> Seq<char> {
    match s.phase {
        Phase::Switching(_) => if event_command(e).succeeded() {
            s.context.working_branch
        } else {
            head
        },
        Phase::Restoring(_) => if event_command(e).succeeded() {
            s.context.original_branch
        } else {
            head
        },
        _ => head,
    }
}

/// The branch that is checked out after the events, where `head` was at
/// first.
pub open spec fn head_run(head: Seq<char>, s: WorkflowView, events: Seq<Event>) -> Seq<char>
    decreases events.len(),
{
    if events.len() == 0 {
        head
    } else {
        head_after(
            head_run(head, s, events.drop_last()),
            run(s, events.drop_last()),
            events.last(),
        )
    }
}

/// Where the workflow asks for the current branch, the answer names the
/// branch that is checked out.
pub open spec fn reports_head(s: WorkflowView, e: Event, head: Seq<char>) -> bool {
    s.phase == Phase::CurrentBranch ==> (current_branch_of(event_command(e)) matches Ok(name)
        ==> name == head)
}

/// The workflow ended after a way back that succeeded: with the update
/// done, with nothing to do, or with a failure that came after the edit.
pub open spec fn returned(phase: Phase) -> bool {
    match phase {
        Phase::Finished(Outcome::Updated) => true,
        Phase::Finished(Outcome::UpToDate) => true,
        Phase::Finished(Outcome::Failed { restored, .. }) => restored == Restore::Done,
        _ => false,
    }
}

/// The way back was at least tried: the workflow ended otherwise than on a
/// failure from before the edit.
pub open spec fn way_back_tried(phase: Phase) -> bool {
    match phase {
        Phase::Finished(Outcome::Failed { restored, .. }) => restored != Restore::NotTried,
        Phase::Finished(_) => true,
        _ => false,
    }
}

/// What the state knows of the branch that is checked out.
pub open spec fn tracks(s: WorkflowView, head: Seq<char>) -> bool {
    &&& s.request.dry_run ==> dry_phase(s.phase)
    &&& s.request.dry_run && (s.phase == Phase::ReadingManifest || s.phase == Phase::ProbingLocks)
        ==> head == s.context.original_branch
    &&& returned(s.phase) ==> head == s.context.original_branch
}

/// A move keeps what the state knows of the checked-out branch.
#[verifier::rlimit(40)]
pub proof fn lemma_step_tracks(s: WorkflowView, e: Event, head: Seq<char>)
    requires
        tracks(s, head),
        reports_head(s, e, head),
    ensures
        tracks(next_state(s, e), head_after(head, s, e)),
{
    reveal(next_state);
    match s.phase {
        Phase::ReadingManifest => {
            lemma_manifest_tracks(s, event_manifest(e), head);
        },
        _ => {},
    }
}

#[verifier::rlimit(40)]
proof fn lemma_manifest_tracks(s: WorkflowView, file: ManifestFile, head: Seq<char>)
    requires
        s.phase == Phase::ReadingManifest,
        tracks(s, head),
    ensures
        tracks(after_manifest(s, file).state, head),
{
}

/// On the event `events[k]` the workflow, begun in `first` with `head`
/// checked out, is told the truth where it asks for the current branch.
pub open spec fn reports_at(
    first: WorkflowView,
    head: Seq<char>,
    events: Seq<Event>,
    k: int,
) -> bool {
    reports_head(run(first, events.take(k)), events[k], head_run(head, first, events.take(k)))
}

/// Whenever the workflow asks for the current branch, the answer names the
/// branch that is checked out.
pub open spec fn truthful(first: WorkflowView, head: Seq<char>, events: Seq<Event>) -> bool {
    forall|k: int| 0 <= k < events.len() ==> #[trigger] reports_at(first, head, events, k)
}

proof fn lemma_run_tracks(s: WorkflowView, head: Seq<char>, events: Seq<Event>)
    requires
        tracks(s, head),
        truthful(s, head, events),
    ensures
        tracks(run(s, events), head_run(head, s, events)),
    decreases events.len(),
{
    if events.len() > 0 {
        let init = events.drop_last();
        assert forall|k: int| 0 <= k < init.len() implies #[trigger] reports_at(
            s,
            head,
            init,
            k,
        ) by {
            assert(reports_at(s, head, events, k));
            assert(init.take(k) == events.take(k));
        }
        lemma_run_tracks(s, head, init);
        assert(reports_at(s, head, events, events.len() - 1));
        assert(events.take(events.len() - 1) == init);
        lemma_step_tracks(run(s, init), events.last(), head_run(head, s, init));
    }
}

/// Whenever the workflow ends after a way back that succeeded — with the
/// update done, with nothing to do, or with a failure that came after the
/// edit of the manifest — the branch that is checked out is the one that
/// was captured at entry.
pub proof fn lemma_workflow_returns_to_original(
    first: WorkflowView,
    head: Seq<char>,
    events: Seq<Event>,
)
    requires
        first.phase == Phase::Probing,
        truthful(first, head, events),
    ensures
        returned(run(first, events).phase) ==> head_run(head, first, events) == run(
            first,
            events,
        ).context.original_branch,
{
    lemma_run_tracks(first, head, events);
}

/// The workflow has edited the manifest and is not yet on its way back.
pub open spec fn past_edit(phase: Phase) -> bool {
    match phase {
        Phase::WritingManifest => true,
        Phase::ProbingLocks => true,
        Phase::Installing => true,
        Phase::Staging => true,
        Phase::ListingStaged => true,
        Phase::Committing => true,
        Phase::Pushing => true,
        Phase::Authenticating => true,
        Phase::CreatingPr => true,
        Phase::ViewingPr => true,
        _ => false,
    }
}

/// Once the manifest is edited, a live workflow ends in no other way than
/// over the checkout of the original branch: whatever comes of a step, the
/// workflow goes on to a later step or asks for that checkout.
#[verifier::rlimit(40)]
pub proof fn lemma_after_edit_leads_to_way_back(s: WorkflowView, e: Event)
    requires
        past_edit(s.phase),
        !s.request.dry_run,
    ensures
        ({
            let next = step_model(s, e);
            &&& !(next.state.phase is Finished)
            &&& past_edit(next.state.phase) || next.state.phase is Restoring
            &&& next.state.phase is Restoring ==> next.action == Some(
                ActionView::Run(
                    checkout_command_spec(s.context.dir, s.context.original_branch),
                ),
            )
            &&& next.state.context.original_branch == s.context.original_branch
        }),
{
}

/// A failure that comes after the edit of the manifest never ends the
/// workflow by itself: the workflow ends on it only once the way back was
/// tried. So does a workflow that succeeded or had nothing to do.
#[verifier::rlimit(40)]
pub proof fn lemma_way_back_is_tried(s: WorkflowView, e: Event)
    requires
        !(s.phase is Finished),
        way_back_tried(step_model(s, e).state.phase),
    ensures
        s.request.dry_run || s.phase is Restoring,
{
    if !s.request.dry_run && s.phase == Phase::ReadingManifest {
        lemma_manifest_live(s, event_manifest(e));
    }
}

#[verifier::rlimit(40)]
proof fn lemma_manifest_live(s: WorkflowView, file: ManifestFile)
    requires
        !s.request.dry_run,
    ensures
        !way_back_tried(after_manifest(s, file).state.phase),
{
}

} // verus!
