//! The version-control operations of the workflow: the `git` command that
//! each one runs, the line that announces it, and what its result means.

use crate::command::{decode_text, CommandResult, CommandSpec, CommandSpecView, Plan, PlanView, RepoDir, command_in};
use crate::text::{join, join3, join4, trim, trimmed};
use vstd::prelude::*;
use vstd::utf8::{decode_utf8, valid_utf8};

verus! {

/// The `git` commands that the library runs.
#[derive(Debug, Clone, Copy, PartialEq, Eq, Structural)]
pub enum GitAction {
    CurrentBranch,
    ListBranches,
    CheckoutExisting,
    CreateBranch,
    Stage,
    ListStaged,
    Commit,
    Push,
    Checkout,
    Status,
    Pull,
}

/// What can go wrong with a `git` command.
#[derive(Debug, Clone, Copy, PartialEq, Eq, Structural)]
pub enum GitError {
    /// The command could not be started.
    NotStarted(GitAction),
    /// The command ran and reported failure.
    Failed(GitAction),
    /// The name of the current branch is not valid UTF-8.
    InvalidBranchName,
    /// No branch is checked out.
    NoBranch,
}

/// `git args..` run in `dir`.
pub open spec fn git_in(dir: Seq<char>, args: Seq<Seq<char>>) -> CommandSpecView {
    command_in(dir, "git"@, args)
}

/// The name of the branch that `git branch --show-current` reported.
pub open spec fn current_branch_of(result: CommandResult) -> Result<Seq<char>, GitError> {
    if !(result is Finished) {
        Err(GitError::NotStarted(GitAction::CurrentBranch))
    } else if !result.succeeded() {
        Err(GitError::Failed(GitAction::CurrentBranch))
    } else if !valid_utf8(result.output()) {
        Err(GitError::InvalidBranchName)
    } else if trimmed(decode_utf8(result.output())).len() == 0 {
        Err(GitError::NoBranch)
    } else {
        Ok(trimmed(decode_utf8(result.output())))
    }
}

/// Whether a command that must succeed did.
pub open spec fn success_of(result: CommandResult, action: GitAction) -> Result<(), GitError> {
    if !(result is Finished) {
        Err(GitError::NotStarted(action))
    } else if !result.succeeded() {
        Err(GitError::Failed(action))
    } else {
        Ok(())
    }
}

/// Whether a command that lists something listed anything. Its exit status
/// is not looked at.
pub open spec fn listed_any(result: CommandResult, action: GitAction) -> Result<bool, GitError> {
    if !(result is Finished) {
        Err(GitError::NotStarted(action))
    } else {
        Ok(result.output().len() > 0)
    }
}

/// Whether `git status --porcelain` reported changes.
pub open spec fn status_of(result: CommandResult) -> Result<bool, GitError> {
    match success_of(result, GitAction::Status) {
        Ok(_) => Ok(result.output().len() > 0),
        Err(e) => Err(e),
    }
}

/// The names in double quotes, separated by a comma and a blank.
pub open spec fn quoted_items(items: Seq<Seq<char>>) -> Seq<char>
    decreases items.len(),
{
    if items.len() == 0 {
        Seq::empty()
    } else if items.len() == 1 {
        "\""@ + items[0] + "\""@
    } else {
        quoted_items(items.drop_last()) + ", "@ + "\""@ + items.last() + "\""@
    }
}

/// The names as a list in square brackets.
pub open spec fn quoted_list(items: Seq<Seq<char>>) -> Seq<char> {
    "["@ + quoted_items(items) + "]"@
}

/// `git branch --show-current`.
pub open spec fn current_branch_command_spec(dir: Seq<char>) -> CommandSpecView {
    git_in(dir, seq!["branch"@, "--show-current"@])
}

/// `git branch --list branch`.
pub open spec fn list_branch_command_spec(dir: Seq<char>, branch: Seq<char>) -> CommandSpecView {
    git_in(dir, seq!["branch"@, "--list"@, branch])
}

/// `git checkout branch`.
pub open spec fn checkout_command_spec(dir: Seq<char>, branch: Seq<char>) -> CommandSpecView {
    git_in(dir, seq!["checkout"@, branch])
}

/// `git checkout -b branch`.
pub open spec fn create_command_spec(dir: Seq<char>, branch: Seq<char>) -> CommandSpecView {
    git_in(dir, seq!["checkout"@, "-b"@, branch])
}

/// `git add files..`.
pub open spec fn stage_command_spec(dir: Seq<char>, files: Seq<Seq<char>>) -> CommandSpecView {
    git_in(dir, seq!["add"@] + files)
}

/// `git diff --staged --name-only`.
pub open spec fn list_staged_command_spec(dir: Seq<char>) -> CommandSpecView {
    git_in(dir, seq!["diff"@, "--staged"@, "--name-only"@])
}

/// `git commit -m message`.
pub open spec fn commit_command_spec(dir: Seq<char>, message: Seq<char>) -> CommandSpecView {
    git_in(dir, seq!["commit"@, "-m"@, message])
}

/// `git push --set-upstream origin branch`.
pub open spec fn push_command_spec(dir: Seq<char>, branch: Seq<char>) -> CommandSpecView {
    git_in(dir, seq!["push"@, "--set-upstream"@, "origin"@, branch])
}

/// `git status --porcelain`.
pub open spec fn status_command_spec(dir: Seq<char>) -> CommandSpecView {
    git_in(dir, seq!["status"@, "--porcelain"@])
}

/// `git pull`.
pub open spec fn pull_command_spec(dir: Seq<char>) -> CommandSpecView {
    git_in(dir, seq!["pull"@])
}

/// The command that switches to `branch`: a checkout where the branch
/// exists, else its creation from the current position.
pub open spec fn switch_command_spec(dir: Seq<char>, branch: Seq<char>, exists: bool) -> CommandSpecView {
    if exists {
        checkout_command_spec(dir, branch)
    } else {
        create_command_spec(dir, branch)
    }
}

/// The action that switches to a branch.
pub open spec fn switch_action(exists: bool) -> GitAction {
    if exists {
        GitAction::CheckoutExisting
    } else {
        GitAction::CreateBranch
    }
}

/// A step that is run: announced by `notice`, carried out by `command`.
pub open spec fn live(notice: Seq<char>, command: CommandSpecView) -> PlanView {
    PlanView { notice: notice, command: Some(command) }
}

/// A step that is only simulated: announced by `notice`, nothing run.
pub open spec fn simulated(notice: Seq<char>) -> PlanView {
    PlanView { notice: notice, command: None }
}

/// Moving to the working branch: live, the branches of that name are listed
/// first.
pub open spec fn create_branch_plan(
    path: Seq<char>,
    dir: Seq<char>,
    branch: Seq<char>,
    dry_run: bool,
) -> PlanView {
    if dry_run {
        simulated("Would create branch '"@ + branch + "' in "@ + path)
    } else {
        live("Creating branch '"@ + branch + "' in "@ + path, list_branch_command_spec(dir, branch))
    }
}

/// Staging `files`.
pub open spec fn stage_plan(
    path: Seq<char>,
    dir: Seq<char>,
    files: Seq<Seq<char>>,
    dry_run: bool,
) -> PlanView {
    if dry_run {
        simulated("Would stage files in "@ + path + ": "@ + quoted_list(files))
    } else {
        live("Staging files in "@ + path + ": "@ + quoted_list(files), stage_command_spec(dir, files))
    }
}

/// Committing: live, the staged files are listed first.
pub open spec fn commit_plan(dir: Seq<char>, message: Seq<char>, dry_run: bool) -> PlanView {
    if dry_run {
        simulated("Would commit changes with message: '"@ + message + "'"@)
    } else {
        live(
            "Committing changes with message: '"@ + message + "'"@,
            list_staged_command_spec(dir),
        )
    }
}

/// Pushing `branch` to `origin`.
pub open spec fn push_plan(dir: Seq<char>, branch: Seq<char>, dry_run: bool) -> PlanView {
    if dry_run {
        simulated("Would push branch '"@ + branch + "' to origin"@)
    } else {
        live("Pushing branch '"@ + branch + "' to origin"@, push_command_spec(dir, branch))
    }
}

/// Checking out `branch`.
pub open spec fn checkout_plan(
    path: Seq<char>,
    dir: Seq<char>,
    branch: Seq<char>,
    dry_run: bool,
) -> PlanView {
    if dry_run {
        simulated("Would checkout branch '"@ + branch + "' in "@ + path)
    } else {
        live("Checking out branch '"@ + branch + "' in "@ + path, checkout_command_spec(dir, branch))
    }
}

/// Going back to the branch that was checked out at first.
pub open spec fn checkout_original_plan(
    path: Seq<char>,
    dir: Seq<char>,
    branch: Seq<char>,
    dry_run: bool,
) -> PlanView {
    if dry_run {
        simulated("Would checkout original branch '"@ + branch + "' in "@ + path)
    } else {
        live(
            "Checking out original branch '"@ + branch + "' in "@ + path,
            checkout_command_spec(dir, branch),
        )
    }
}

/// Pulling the latest changes.
pub open spec fn pull_plan(path: Seq<char>, dir: Seq<char>, dry_run: bool) -> PlanView {
    if dry_run {
        simulated("Would pull latest changes in "@ + path)
    } else {
        live("Pulling latest changes in "@ + path, pull_command_spec(dir))
    }
}

/// A plan runs a command exactly when it is not a dry run.
pub proof fn lemma_plans_respect_dry_run(
    path: Seq<char>,
    dir: Seq<char>,
    branch: Seq<char>,
    message: Seq<char>,
    files: Seq<Seq<char>>,
    dry_run: bool,
)
    ensures
        create_branch_plan(path, dir, branch, dry_run).command is None <==> dry_run,
        stage_plan(path, dir, files, dry_run).command is None <==> dry_run,
        commit_plan(dir, message, dry_run).command is None <==> dry_run,
        push_plan(dir, branch, dry_run).command is None <==> dry_run,
        checkout_plan(path, dir, branch, dry_run).command is None <==> dry_run,
        checkout_original_plan(path, dir, branch, dry_run).command is None <==> dry_run,
        pull_plan(path, dir, dry_run).command is None <==> dry_run,
{
}

fn git(repo: &RepoDir) -> (c: CommandSpec)
    ensures
        c@ == git_in(repo.dir@, Seq::empty()),
{
    CommandSpec::new_in(repo.dir.as_str(), "git")
}

fn plan(notice: String, command: Option<CommandSpec>) -> (p: Plan)
    ensures
        p.notice == notice,
        p.command == command,
{
    Plan { notice, command }
}

/// `git branch --show-current` in the repository.
pub fn current_branch_command(repo: &RepoDir) -> (c: CommandSpec)
    ensures
        c@ == current_branch_command_spec(repo.dir@),
{
    let c = git(repo).arg("branch").arg("--show-current");
    assert(c@.args =~= seq!["branch"@, "--show-current"@]);
    c
}

/// The name of the current branch from what `git branch --show-current`
/// gave: its output without the whitespace around it. An empty name means
/// that no branch is checked out.
pub fn get_current_branch(result: &CommandResult) -> (r: Result<String, GitError>)
    ensures
        match current_branch_of(*result) {
            Ok(name) => r matches Ok(s) && s@ == name,
            Err(e) => r == Err::<String, GitError>(e),
        },
{
    match result {
        CommandResult::NotStarted => Err(GitError::NotStarted(GitAction::CurrentBranch)),
        CommandResult::Finished { success, stdout, stderr } => {
            if !*success {
                return Err(GitError::Failed(GitAction::CurrentBranch));
            }
            let text = match decode_text(stdout) {
                Some(t) => t,
                None => {
                    return Err(GitError::InvalidBranchName);
                },
            };
            let name = trim(text.as_str());
            if name.as_str().unicode_len() == 0 {
                return Err(GitError::NoBranch);
            }
            Ok(name)
        },
    }
}

/// Whether a command that must succeed did.
pub fn require_success(result: &CommandResult, action: GitAction) -> (r: Result<(), GitError>)
    ensures
        r == success_of(*result, action),
{
    if !result.was_started() {
        Err(GitError::NotStarted(action))
    } else if !result.is_success() {
        Err(GitError::Failed(action))
    } else {
        Ok(())
    }
}

/// Moving to the working branch `branch_name`: the announcement, and, unless
/// this is a dry run, the command that lists the branches of that name.
pub fn create_branch(repo: &RepoDir, branch_name: &str, dry_run: bool) -> (p: Plan)
    ensures
        p@ == create_branch_plan(repo.path@, repo.dir@, branch_name@, dry_run),
{
    if dry_run {
        plan(join4("Would create branch '", branch_name, "' in ", repo.path.as_str()), None)
    } else {
        let c = git(repo).arg("branch").arg("--list").arg(branch_name);
        assert(c@.args =~= seq!["branch"@, "--list"@, branch_name@]);
        plan(join4("Creating branch '", branch_name, "' in ", repo.path.as_str()), Some(c))
    }
}

/// Whether the branch exists, from what `git branch --list` gave: it does
/// where anything was listed.
pub fn branch_exists(result: &CommandResult) -> (r: Result<bool, GitError>)
    ensures
        r == listed_any(*result, GitAction::ListBranches),
{
    if !result.was_started() {
        Err(GitError::NotStarted(GitAction::ListBranches))
    } else {
        Ok(result.wrote_output())
    }
}

/// The command that switches to `branch_name`: `git checkout` where the
/// branch exists, `git checkout -b` where it does not.
pub fn switch_command(repo: &RepoDir, branch_name: &str, exists: bool) -> (c: CommandSpec)
    ensures
        c@ == switch_command_spec(repo.dir@, branch_name@, exists),
{
    if exists {
        let c = git(repo).arg("checkout").arg(branch_name);
        assert(c@.args =~= seq!["checkout"@, branch_name@]);
        c
    } else {
        let c = git(repo).arg("checkout").arg("-b").arg(branch_name);
        assert(c@.args =~= seq!["checkout"@, "-b"@, branch_name@]);
        c
    }
}

/// Whether the switch to the working branch succeeded.
pub fn switch_outcome(result: &CommandResult, exists: bool) -> (r: Result<(), GitError>)
    ensures
        r == success_of(*result, switch_action(exists)),
{
    if exists {
        require_success(result, GitAction::CheckoutExisting)
    } else {
        require_success(result, GitAction::CreateBranch)
    }
}

/// The names in double quotes, as a list in square brackets.
pub fn render_list(items: &Vec<String>) -> (r: String)
    ensures
        r@ == quoted_list(items.deep_view()),
{
    let mut r = "[".to_owned();
    let ghost d = items.deep_view();
    let mut i: usize = 0;
    assert(d.take(0).len() == 0);
    while i < items.len()
        invariant
            i <= items.len(),
            d == items.deep_view(),
            r@ == "["@ + quoted_items(d.take(i as int)),
        decreases items.len() - i,
    {
        proof {
            assert(d.take(i + 1).drop_last() == d.take(i as int));
            assert(d.take(i + 1).last() == items@[i as int]@);
            assert(d.take(i + 1)[0] == d[0]);
        }
        let ghost before = r@;
        if i > 0 {
            r.append(", ");
        }
        r.append("\"");
        r.append(items[i].as_str());
        r.append("\"");
        proof {
            let item = items@[i as int]@;
            if i == 0 {
                assert(r@ =~= "["@ + ("\""@ + item + "\""@));
            } else {
                assert(r@ =~= "["@ + (quoted_items(d.take(i as int)) + ", "@ + "\""@ + item
                    + "\""@));
            }
        }
        i += 1;
    }
    assert(d.take(items.len() as int) == d);
    r.append("]");
    r
}

/// Staging `files`: the announcement, and, unless this is a dry run,
/// `git add` with the files.
pub fn stage_changes(repo: &RepoDir, files: &Vec<String>, dry_run: bool) -> (p: Plan)
    ensures
        p@ == stage_plan(repo.path@, repo.dir@, files.deep_view(), dry_run),
{
    let list = render_list(files);
    if dry_run {
        plan(join4("Would stage files in ", repo.path.as_str(), ": ", list.as_str()), None)
    } else {
        let mut c = git(repo).arg("add");
        let ghost d = files.deep_view();
        let mut i: usize = 0;
        assert(c@.args =~= seq!["add"@] + d.take(0));
        while i < files.len()
            invariant
                i <= files.len(),
                d == files.deep_view(),
                c@ == git_in(repo.dir@, seq!["add"@] + d.take(i as int)),
            decreases files.len() - i,
        {
            let ghost before = c@.args;
            c = c.arg(files[i].as_str());
            assert(c@.args =~= seq!["add"@] + d.take(i + 1)) by {
                assert(d.take(i + 1) =~= d.take(i as int).push(files@[i as int]@));
            }
            i += 1;
        }
        assert(d.take(files.len() as int) == d);
        plan(join4("Staging files in ", repo.path.as_str(), ": ", list.as_str()), Some(c))
    }
}

/// Committing with `message`: the announcement, and, unless this is a dry
/// run, the command that lists what is staged.
pub fn commit_changes(repo: &RepoDir, message: &str, dry_run: bool) -> (p: Plan)
    ensures
        p@ == commit_plan(repo.dir@, message@, dry_run),
{
    if dry_run {
        plan(join3("Would commit changes with message: '", message, "'"), None)
    } else {
        let c = git(repo).arg("diff").arg("--staged").arg("--name-only");
        assert(c@.args =~= seq!["diff"@, "--staged"@, "--name-only"@]);
        plan(join3("Committing changes with message: '", message, "'"), Some(c))
    }
}

/// Whether anything is staged, from what `git diff --staged --name-only`
/// gave. Where nothing is, no commit is made.
pub fn anything_staged(result: &CommandResult) -> (r: Result<bool, GitError>)
    ensures
        r == listed_any(*result, GitAction::ListStaged),
{
    if !result.was_started() {
        Err(GitError::NotStarted(GitAction::ListStaged))
    } else {
        Ok(result.wrote_output())
    }
}

/// `git commit -m message` in the repository.
pub fn commit_command(repo: &RepoDir, message: &str) -> (c: CommandSpec)
    ensures
        c@ == commit_command_spec(repo.dir@, message@),
{
    let c = git(repo).arg("commit").arg("-m").arg(message);
    assert(c@.args =~= seq!["commit"@, "-m"@, message@]);
    c
}

/// Pushing `branch_name` to `origin` with upstream tracking: the
/// announcement, and, unless this is a dry run, the command.
pub fn push_branch(repo: &RepoDir, branch_name: &str, dry_run: bool) -> (p: Plan)
    ensures
        p@ == push_plan(repo.dir@, branch_name@, dry_run),
{
    if dry_run {
        plan(join3("Would push branch '", branch_name, "' to origin"), None)
    } else {
        let c = git(repo).arg("push").arg("--set-upstream").arg("origin").arg(branch_name);
        assert(c@.args =~= seq!["push"@, "--set-upstream"@, "origin"@, branch_name@]);
        plan(join3("Pushing branch '", branch_name, "' to origin"), Some(c))
    }
}

fn checkout_command(repo: &RepoDir, branch_name: &str) -> (c: CommandSpec)
    ensures
        c@ == checkout_command_spec(repo.dir@, branch_name@),
{
    let c = git(repo).arg("checkout").arg(branch_name);
    assert(c@.args =~= seq!["checkout"@, branch_name@]);
    c
}

/// Checking out `branch_name`: the announcement, and, unless this is a dry
/// run, the command.
pub fn checkout_branch(repo: &RepoDir, branch_name: &str, dry_run: bool) -> (p: Plan)
    ensures
        p@ == checkout_plan(repo.path@, repo.dir@, branch_name@, dry_run),
{
    if dry_run {
        plan(join4("Would checkout branch '", branch_name, "' in ", repo.path.as_str()), None)
    } else {
        plan(
            join4("Checking out branch '", branch_name, "' in ", repo.path.as_str()),
            Some(checkout_command(repo, branch_name)),
        )
    }
}

/// Going back to the branch that was checked out at first: the
/// announcement, and, unless this is a dry run, the command.
pub fn checkout_original_branch(repo: &RepoDir, original_branch: &str, dry_run: bool) -> (p: Plan)
    ensures
        p@ == checkout_original_plan(repo.path@, repo.dir@, original_branch@, dry_run),
{
    if dry_run {
        plan(
            join4(
                "Would checkout original branch '",
                original_branch,
                "' in ",
                repo.path.as_str(),
            ),
            None,
        )
    } else {
        plan(
            join4(
                "Checking out original branch '",
                original_branch,
                "' in ",
                repo.path.as_str(),
            ),
            Some(checkout_command(repo, original_branch)),
        )
    }
}

/// `git status --porcelain` in the repository.
pub fn status_command(repo: &RepoDir) -> (c: CommandSpec)
    ensures
        c@ == status_command_spec(repo.dir@),
{
    let c = git(repo).arg("status").arg("--porcelain");
    assert(c@.args =~= seq!["status"@, "--porcelain"@]);
    c
}

/// Whether the working copy has changes, from what `git status --porcelain`
/// gave: it has where anything was listed.
pub fn check_status(result: &CommandResult) -> (r: Result<bool, GitError>)
    ensures
        r == status_of(*result),
{
    match require_success(result, GitAction::Status) {
        Ok(_) => Ok(result.wrote_output()),
        Err(e) => Err(e),
    }
}

/// Pulling the latest changes: the announcement, and, unless this is a dry
/// run, `git pull`.
pub fn pull_repository(repo: &RepoDir, dry_run: bool) -> (p: Plan)
    ensures
        p@ == pull_plan(repo.path@, repo.dir@, dry_run),
{
    if dry_run {
        plan(join("Would pull latest changes in ", repo.path.as_str()), None)
    } else {
        let c = git(repo).arg("pull");
        assert(c@.args =~= seq!["pull"@]);
        plan(join("Pulling latest changes in ", repo.path.as_str()), Some(c))
    }
}

impl GitAction {
    /// What the action was meant to do, as the text of the error that says it
    /// could not be started.
    pub open spec fn purpose(self) -> Seq<char> {
        match self {
            GitAction::CurrentBranch => "Failed to get current branch"@,
            GitAction::ListBranches => "Failed to list branches"@,
            GitAction::CheckoutExisting => "Failed to checkout existing branch"@,
            GitAction::CreateBranch => "Failed to create new branch"@,
            GitAction::Stage => "Failed to stage changes"@,
            GitAction::ListStaged => "Failed to check staged changes"@,
            GitAction::Commit => "Failed to commit changes"@,
            GitAction::Push => "Failed to push branch"@,
            GitAction::Checkout => "Failed to checkout branch"@,
            GitAction::Status => "Failed to check git status"@,
            GitAction::Pull => "Failed to pull repository"@,
        }
    }

    /// The text of the error that says that the action reported failure, for
    /// the repository at `path` and the branch `branch`.
    pub open spec fn failure(self, path: Seq<char>, branch: Seq<char>) -> Seq<char> {
        match self {
            GitAction::CurrentBranch => "Failed to get current branch for repository: "@ + path,
            GitAction::ListBranches => "Failed to list branches"@,
            GitAction::CheckoutExisting => "Failed to checkout existing branch: "@ + branch,
            GitAction::CreateBranch => "Failed to create branch: "@ + branch,
            GitAction::Stage => "Failed to stage changes"@,
            GitAction::ListStaged => "Failed to check staged changes"@,
            GitAction::Commit => "Failed to commit changes"@,
            GitAction::Push => "Failed to push branch: "@ + branch,
            GitAction::Checkout => "Failed to checkout branch: "@ + branch,
            GitAction::Status => "Failed to check git status"@,
            GitAction::Pull => "Failed to pull repository: "@ + path,
        }
    }
}

impl GitError {
    /// The text of the error, for the repository at `path` and the branch
    /// `branch`.
    pub open spec fn text(self, path: Seq<char>, branch: Seq<char>) -> Seq<char> {
        match self {
            GitError::NotStarted(a) => a.purpose(),
            GitError::Failed(a) => a.failure(path, branch),
            GitError::InvalidBranchName => "Invalid UTF-8 in branch name"@,
            GitError::NoBranch => "No branch is checked out in repository: "@ + path,
        }
    }

    /// The text of the error, for the repository at `path` and the branch
    /// `branch`.
    pub fn message(&self, path: &str, branch: &str) -> (m: String)
        ensures
            m@ == self.text(path@, branch@),
    {
        match self {
            GitError::NotStarted(a) => match a {
                GitAction::CurrentBranch => "Failed to get current branch".to_owned(),
                GitAction::ListBranches => "Failed to list branches".to_owned(),
                GitAction::CheckoutExisting => "Failed to checkout existing branch".to_owned(),
                GitAction::CreateBranch => "Failed to create new branch".to_owned(),
                GitAction::Stage => "Failed to stage changes".to_owned(),
                GitAction::ListStaged => "Failed to check staged changes".to_owned(),
                GitAction::Commit => "Failed to commit changes".to_owned(),
                GitAction::Push => "Failed to push branch".to_owned(),
                GitAction::Checkout => "Failed to checkout branch".to_owned(),
                GitAction::Status => "Failed to check git status".to_owned(),
                GitAction::Pull => "Failed to pull repository".to_owned(),
            },
            GitError::Failed(a) => match a {
                GitAction::CurrentBranch => join(
                    "Failed to get current branch for repository: ",
                    path,
                ),
                GitAction::ListBranches => "Failed to list branches".to_owned(),
                GitAction::CheckoutExisting => join("Failed to checkout existing branch: ", branch),
                GitAction::CreateBranch => join("Failed to create branch: ", branch),
                GitAction::Stage => "Failed to stage changes".to_owned(),
                GitAction::ListStaged => "Failed to check staged changes".to_owned(),
                GitAction::Commit => "Failed to commit changes".to_owned(),
                GitAction::Push => join("Failed to push branch: ", branch),
                GitAction::Checkout => join("Failed to checkout branch: ", branch),
                GitAction::Status => "Failed to check git status".to_owned(),
                GitAction::Pull => join("Failed to pull repository: ", path),
            },
            GitError::InvalidBranchName => "Invalid UTF-8 in branch name".to_owned(),
            GitError::NoBranch => join("No branch is checked out in repository: ", path),
        }
    }
}

} // verus!
