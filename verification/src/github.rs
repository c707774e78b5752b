//! The code-host operations, run through the `gh` command: creating a pull
//! request or finding the one that exists, and the smaller ones beside it.

use crate::command::{
    command_here, command_in, decode_text_lossy, lossy_text, CommandResult, CommandSpec,
    CommandSpecView, Plan, PlanView, RepoDir,
};
use crate::git::{git_in, live, simulated};
use crate::text::{contains, contains_text, join, join3, join5, trim, trimmed};
use vstd::prelude::*;

verus! {

/// What went wrong with a code-host operation.
#[derive(Debug, Clone, Copy, PartialEq, Eq, Structural)]
pub enum HostFault {
    /// `gh auth status` could not be started.
    AuthNotStarted,
    /// `gh` is not logged in; the user is told how to log in.
    LoginRequired,
    /// `gh` is not logged in.
    NotAuthenticated,
    CreateNotStarted,
    CreateFailed,
    ViewNotStarted,
    StatusNotStarted,
    ListNotStarted,
    ListFailed,
    ListUnreadable,
    MergeNotStarted,
    MergeFailed,
    ForkNotStarted,
    ForkFailed,
    RemoteNotStarted,
    RemoteFailed,
    CloneNotStarted,
    CloneFailed,
}

/// An error of a code-host operation: what went wrong and, where the
/// command reported failure, what it wrote to its error stream.
#[derive(Debug, Clone, PartialEq, Eq)]
pub struct HostError {
    pub fault: HostFault,
    pub detail: String,
}

/// The error as the contracts see it.
pub struct HostErrorView {
    pub fault: HostFault,
    pub detail: Seq<char>,
}

impl View for HostError {
    type V = HostErrorView;

    open spec fn view(&self) -> HostErrorView {
        HostErrorView { fault: self.fault, detail: self.detail@ }
    }
}

/// One pull request of a list: its title, the branch it comes from, and its
/// address.
#[derive(Debug, Clone, PartialEq, Eq)]
pub struct PullRequest {
    pub title: String,
    pub branch: String,
    pub url: String,
}

/// An error without detail.
pub open spec fn bare(fault: HostFault) -> HostErrorView {
    HostErrorView { fault: fault, detail: Seq::empty() }
}

/// An error with what the command wrote to its error stream.
pub open spec fn detailed(fault: HostFault, result: CommandResult) -> HostErrorView {
    HostErrorView { fault: fault, detail: lossy_text(result.errors()) }
}

/// `gh args..` run in `dir`.
pub open spec fn gh_in(dir: Seq<char>, args: Seq<Seq<char>>) -> CommandSpecView {
    command_in(dir, "gh"@, args)
}

/// `gh auth status`.
pub open spec fn auth_command_spec() -> CommandSpecView {
    command_here("gh"@, seq!["auth"@, "status"@])
}

/// The arguments of `gh pr create`.
pub open spec fn create_pr_args(
    branch: Seq<char>,
    title: Seq<char>,
    draft: bool,
    body: Option<Seq<char>>,
) -> Seq<Seq<char>> {
    seq!["pr"@, "create"@, "--title"@, title, "--head"@, branch] + (if draft {
        seq!["--draft"@]
    } else {
        Seq::empty()
    }) + (match body {
        Some(b) => seq!["--body"@, b],
        None => Seq::empty(),
    })
}

/// Creating a pull request from `branch`.
pub open spec fn create_pr_plan(
    dir: Seq<char>,
    branch: Seq<char>,
    title: Seq<char>,
    dry_run: bool,
    draft: bool,
    body: Option<Seq<char>>,
) -> PlanView {
    if dry_run {
        simulated("Would create PR for branch '"@ + branch + "' with title: '"@ + title + "'"@)
    } else {
        live(
            "Creating PR for branch '"@ + branch + "' with title: '"@ + title + "'"@,
            gh_in(dir, create_pr_args(branch, title, draft, body)),
        )
    }
}

/// The arguments of `gh pr view` for one field of the pull request of `branch`.
pub open spec fn view_pr_args(field: Seq<char>, query: Seq<char>, branch: Seq<char>) -> Seq<
    Seq<char>,
> {
    seq!["pr"@, "view"@, "--json"@, field, "--jq"@, query, "--head"@, branch]
}

/// Looking up the pull request that `branch` has already.
pub open spec fn existing_pr_plan(dir: Seq<char>, branch: Seq<char>) -> PlanView {
    live(
        "PR already exists for branch '"@ + branch + "'"@,
        gh_in(dir, view_pr_args("url"@, ".url"@, branch)),
    )
}

/// Whether `gh` is logged in, from what `gh auth status` gave.
pub open spec fn auth_of(result: CommandResult) -> Result<bool, HostErrorView> {
    if result is Finished {
        Ok(result.succeeded())
    } else {
        Err(bare(HostFault::AuthNotStarted))
    }
}

/// The host said that the branch has a pull request already.
pub open spec fn already_exists(errors: Seq<char>) -> bool {
    contains_text(errors, "already exists"@) || contains_text(errors, "already a pull request"@)
}

/// What the creation of a pull request gave: the address of the new one,
/// `None` where the host said that one exists already, or the error.
pub open spec fn created_of(result: CommandResult) -> Result<Option<Seq<char>>, HostErrorView> {
    if !(result is Finished) {
        Err(bare(HostFault::CreateNotStarted))
    } else if result.succeeded() {
        Ok(Some(trimmed(lossy_text(result.output()))))
    } else if already_exists(lossy_text(result.errors())) {
        Ok(None)
    } else {
        Err(detailed(HostFault::CreateFailed, result))
    }
}

/// The address of the pull request that exists, from what `gh pr view` gave;
/// a fixed text where the host did not give it.
pub open spec fn existing_of(result: CommandResult) -> Result<Seq<char>, HostErrorView> {
    if !(result is Finished) {
        Err(bare(HostFault::ViewNotStarted))
    } else if result.succeeded() {
        Ok(trimmed(lossy_text(result.output())))
    } else {
        Ok("existing-pr-url-not-found"@)
    }
}

/// The state of the pull request of a branch, from what `gh pr view` gave;
/// `NO_PR` where the host knows none.
pub open spec fn pr_state_of(result: CommandResult) -> Result<Seq<char>, HostErrorView> {
    if !(result is Finished) {
        Err(bare(HostFault::StatusNotStarted))
    } else if result.succeeded() {
        Ok(trimmed(lossy_text(result.output())))
    } else {
        Ok("NO_PR"@)
    }
}

/// Whether the pull request is merged now, from what `gh pr merge` gave: a
/// host that says it was merged already counts as success.
pub open spec fn merged_of(result: CommandResult) -> Result<bool, HostErrorView> {
    if !(result is Finished) {
        Err(bare(HostFault::MergeNotStarted))
    } else if result.succeeded() || contains_text(
        lossy_text(result.errors()),
        "already merged"@,
    ) {
        Ok(true)
    } else {
        Err(detailed(HostFault::MergeFailed, result))
    }
}

/// Whether a command of the host succeeded; where it failed, the error holds
/// what it wrote to its error stream.
pub open spec fn host_success_of(
    result: CommandResult,
    not_started: HostFault,
    failed: HostFault,
) -> Result<(), HostErrorView> {
    if !(result is Finished) {
        Err(bare(not_started))
    } else if result.succeeded() {
        Ok(())
    } else {
        Err(detailed(failed, result))
    }
}

/// The address of the remote `origin`, from what `git remote get-url origin`
/// gave.
pub open spec fn remote_of(result: CommandResult) -> Result<Seq<char>, HostErrorView> {
    if !(result is Finished) {
        Err(bare(HostFault::RemoteNotStarted))
    } else if result.succeeded() {
        Ok(trimmed(lossy_text(result.output())))
    } else {
        Err(bare(HostFault::RemoteFailed))
    }
}

/// What `gh pr list --json` wrote, as `serde_json::from_str` reads it at the
/// type of a list of documents: for each document of the list, in order, the
/// text of its members `keys`, `None` where a member is missing or no JSON
/// string. `None` where the text is no such list.
pub uninterp spec fn parsed_rows(text: Seq<char>, keys: Seq<Seq<char>>) -> Option<
    Seq<Seq<Option<Seq<char>>>>,
>;

/// `serde_json::from_str` at the type `Vec<Value>`, then `Value::get` and
/// `Value::as_str` for each key on each document of the list.
#[verifier::external_body]
fn parse_rows(text: &str, keys: &Vec<String>) -> (r: Result<
    Vec<Vec<Option<String>>>,
    serde_json::Error,
>)
    ensures
        match r {
            Ok(rows) => parsed_rows(text@, keys.deep_view()) == Some(rows.deep_view()),
            Err(_) => parsed_rows(text@, keys.deep_view()) is None,
        },
        r matches Ok(rows) ==> forall|i: int|
            0 <= i < rows@.len() ==> (#[trigger] rows@[i])@.len() == keys@.len(),
{
    serde_json::from_str::<Vec<serde_json::Value>>(text).map(
        |prs|
            prs.iter().map(
                |pr|
                    keys.iter().map(
                        |k| pr.get(k.as_str()).and_then(|v| v.as_str()).map(|s| s.to_owned()),
                    ).collect(),
            ).collect(),
    )
}

/// The keys that a list of pull requests is asked for.
pub open spec fn pr_keys() -> Seq<Seq<char>> {
    seq!["title"@, "headRefName"@, "url"@]
}

/// The text of a member, empty where there is none.
pub open spec fn text_or_empty(field: Option<Seq<char>>) -> Seq<char> {
    match field {
        Some(t) => t,
        None => Seq::empty(),
    }
}

/// The pull requests of a list, from what `gh pr list` gave.
pub open spec fn pr_list_ok(result: CommandResult, prs: Seq<PullRequest>) -> bool {
    &&& result.succeeded()
    &&& parsed_rows(lossy_text(result.output()), pr_keys()) matches Some(rows)
    &&& prs.len() == rows.len()
    &&& forall|i: int|
        0 <= i < rows.len() ==> {
            &&& (#[trigger] prs[i]).title@ == text_or_empty(rows[i][0])
            &&& prs[i].branch@ == text_or_empty(rows[i][1])
            &&& prs[i].url@ == text_or_empty(rows[i][2])
        }
}

/// The error of a list of pull requests, from what `gh pr list` gave.
pub open spec fn pr_list_err(result: CommandResult) -> Option<HostErrorView> {
    if !(result is Finished) {
        Some(bare(HostFault::ListNotStarted))
    } else if !result.succeeded() {
        Some(detailed(HostFault::ListFailed, result))
    } else if parsed_rows(lossy_text(result.output()), pr_keys()) is None {
        Some(bare(HostFault::ListUnreadable))
    } else {
        None
    }
}

fn gh(repo: &RepoDir) -> (c: CommandSpec)
    ensures
        c@ == gh_in(repo.dir@, Seq::empty()),
{
    CommandSpec::new_in(repo.dir.as_str(), "gh")
}

fn fail(fault: HostFault) -> (e: HostError)
    ensures
        e@ == bare(fault),
{
    HostError { fault, detail: String::new() }
}

fn fail_with(fault: HostFault, result: &CommandResult) -> (e: HostError)
    ensures
        e@ == detailed(fault, *result),
{
    let detail = match result {
        CommandResult::Finished { stderr, .. } => decode_text_lossy(stderr),
        CommandResult::NotStarted => {
            let empty: Vec<u8> = Vec::new();
            decode_text_lossy(&empty)
        },
    };
    HostError { fault, detail }
}

fn output_text(result: &CommandResult) -> (t: String)
    ensures
        t@ == lossy_text(result.output()),
{
    match result {
        CommandResult::Finished { stdout, .. } => decode_text_lossy(stdout),
        CommandResult::NotStarted => {
            let empty: Vec<u8> = Vec::new();
            decode_text_lossy(&empty)
        },
    }
}

fn error_text(result: &CommandResult) -> (t: String)
    ensures
        t@ == lossy_text(result.errors()),
{
    match result {
        CommandResult::Finished { stderr, .. } => decode_text_lossy(stderr),
        CommandResult::NotStarted => {
            let empty: Vec<u8> = Vec::new();
            decode_text_lossy(&empty)
        },
    }
}

/// `gh auth status`.
pub fn auth_command() -> (c: CommandSpec)
    ensures
        c@ == auth_command_spec(),
{
    let c = CommandSpec::new_here("gh").arg("auth").arg("status");
    assert(c@.args =~= seq!["auth"@, "status"@]);
    c
}

/// Whether `gh` is installed and logged in, from what `gh auth status` gave.
pub fn check_gh_cli(result: &CommandResult) -> (r: Result<bool, HostError>)
    ensures
        match auth_of(*result) {
            Ok(b) => r matches Ok(x) && x == b,
            Err(e) => r matches Err(x) && x@ == e,
        },
{
    if result.was_started() {
        Ok(result.is_success())
    } else {
        Err(fail(HostFault::AuthNotStarted))
    }
}

/// Creating a pull request from `branch_name`: the announcement, and, unless
/// this is a dry run, `gh pr create`.
pub fn create_pr(
    repo: &RepoDir,
    branch_name: &str,
    title: &str,
    dry_run: bool,
    draft: bool,
    body: Option<&str>,
) -> (p: Plan)
    ensures
        p@ == create_pr_plan(
            repo.dir@,
            branch_name@,
            title@,
            dry_run,
            draft,
            match body {
                Some(b) => Some(b@),
                None => None,
            },
        ),
{
    if dry_run {
        return Plan {
            notice: join5("Would create PR for branch '", branch_name, "' with title: '", title, "'"),
            command: None,
        };
    }
    let mut c = gh(repo).arg("pr").arg("create").arg("--title").arg(title).arg("--head").arg(
        branch_name,
    );
    assert(c@.args =~= seq!["pr"@, "create"@, "--title"@, title@, "--head"@, branch_name@]);
    if draft {
        c = c.arg("--draft");
    }
    if let Some(b) = body {
        c = c.arg("--body").arg(b);
    }
    assert(c@.args =~= create_pr_args(
        branch_name@,
        title@,
        draft,
        match body {
            Some(b) => Some(b@),
            None => None,
        },
    ));
    Plan {
        notice: join5("Creating PR for branch '", branch_name, "' with title: '", title, "'"),
        command: Some(c),
    }
}

/// The address that a dry run gives in place of a pull request's.
pub fn dry_run_pr_url() -> (url: String)
    ensures
        url@ == "dry-run-pr-url"@,
{
    "dry-run-pr-url".to_owned()
}

/// What `gh pr create` gave: the address of the new pull request; `None`
/// where the host said that the branch has one already, which is then looked
/// up; or the error.
pub fn pr_created(result: &CommandResult) -> (r: Result<Option<String>, HostError>)
    ensures
        match created_of(*result) {
            Ok(u) => r matches Ok(x) && x.deep_view() == u,
            Err(e) => r matches Err(x) && x@ == e,
        },
{
    if !result.was_started() {
        return Err(fail(HostFault::CreateNotStarted));
    }
    if result.is_success() {
        let out = output_text(result);
        return Ok(Some(trim(out.as_str())));
    }
    let errors = error_text(result);
    if contains(errors.as_str(), "already exists") || contains(
        errors.as_str(),
        "already a pull request",
    ) {
        Ok(None)
    } else {
        Err(fail_with(HostFault::CreateFailed, result))
    }
}

/// Looking up the pull request that `branch_name` has already: the
/// announcement and `gh pr view`.
pub fn existing_pr(repo: &RepoDir, branch_name: &str) -> (p: Plan)
    ensures
        p@ == existing_pr_plan(repo.dir@, branch_name@),
{
    let c = gh(repo).arg("pr").arg("view").arg("--json").arg("url").arg("--jq").arg(".url").arg(
        "--head",
    ).arg(branch_name);
    assert(c@.args =~= view_pr_args("url"@, ".url"@, branch_name@));
    Plan { notice: join3("PR already exists for branch '", branch_name, "'"), command: Some(c) }
}

/// The address of the pull request that exists, from what `gh pr view` gave.
pub fn existing_pr_url(result: &CommandResult) -> (r: Result<String, HostError>)
    ensures
        match existing_of(*result) {
            Ok(u) => r matches Ok(x) && x@ == u,
            Err(e) => r matches Err(x) && x@ == e,
        },
{
    if !result.was_started() {
        Err(fail(HostFault::ViewNotStarted))
    } else if result.is_success() {
        let out = output_text(result);
        Ok(trim(out.as_str()))
    } else {
        Ok("existing-pr-url-not-found".to_owned())
    }
}

/// `gh pr view` for the state of the pull request of `branch_name`.
pub fn pr_status_command(repo: &RepoDir, branch_name: &str) -> (c: CommandSpec)
    ensures
        c@ == gh_in(repo.dir@, view_pr_args("state"@, ".state"@, branch_name@)),
{
    let c = gh(repo).arg("pr").arg("view").arg("--json").arg("state").arg("--jq").arg(".state").arg(
        "--head",
    ).arg(branch_name);
    assert(c@.args =~= view_pr_args("state"@, ".state"@, branch_name@));
    c
}

/// The state of the pull request of a branch, from what `gh pr view` gave.
pub fn check_pr_status(result: &CommandResult) -> (r: Result<String, HostError>)
    ensures
        match pr_state_of(*result) {
            Ok(u) => r matches Ok(x) && x@ == u,
            Err(e) => r matches Err(x) && x@ == e,
        },
{
    if !result.was_started() {
        Err(fail(HostFault::StatusNotStarted))
    } else if result.is_success() {
        let out = output_text(result);
        Ok(trim(out.as_str()))
    } else {
        Ok("NO_PR".to_owned())
    }
}

/// `gh pr list` for the pull requests in `state`.
pub fn list_prs_command(repo: &RepoDir, state: &str) -> (c: CommandSpec)
    ensures
        c@ == gh_in(
            repo.dir@,
            seq!["pr"@, "list"@, "--json"@, "title,headRefName,url"@, "--state"@, state@],
        ),
{
    let c = gh(repo).arg("pr").arg("list").arg("--json").arg("title,headRefName,url").arg(
        "--state",
    ).arg(state);
    assert(c@.args =~= seq![
        "pr"@,
        "list"@,
        "--json"@,
        "title,headRefName,url"@,
        "--state"@,
        state@,
    ]);
    c
}

fn field(row: &Vec<Option<String>>, at: usize) -> (t: String)
    requires
        at < row@.len(),
    ensures
        t@ == text_or_empty(row.deep_view()[at as int]),
{
    assert(row.deep_view()[at as int] == row@[at as int].deep_view());
    match &row[at] {
        Some(s) => s.clone(),
        None => String::new(),
    }
}

/// The pull requests that `gh pr list` wrote; a member that is missing or no
/// text counts as empty.
pub fn list_prs(result: &CommandResult) -> (r: Result<Vec<PullRequest>, HostError>)
    ensures
        match pr_list_err(*result) {
            Some(e) => r matches Err(x) && x@ == e,
            None => r matches Ok(prs) && pr_list_ok(*result, prs@),
        },
{
    if !result.was_started() {
        return Err(fail(HostFault::ListNotStarted));
    }
    if !result.is_success() {
        return Err(fail_with(HostFault::ListFailed, result));
    }
    let text = output_text(result);
    let mut keys: Vec<String> = Vec::new();
    keys.push("title".to_owned());
    keys.push("headRefName".to_owned());
    keys.push("url".to_owned());
    assert(keys.deep_view() =~= pr_keys());
    let rows = match parse_rows(text.as_str(), &keys) {
        Ok(rows) => rows,
        Err(_) => {
            return Err(fail(HostFault::ListUnreadable));
        },
    };
    let ghost d = rows.deep_view();
    let mut prs: Vec<PullRequest> = Vec::new();
    let mut i: usize = 0;
    while i < rows.len()
        invariant
            i <= rows.len(),
            d == rows.deep_view(),
            prs@.len() == i,
            forall|k: int| 0 <= k < rows@.len() ==> (#[trigger] rows@[k])@.len() == 3,
            forall|k: int|
                0 <= k < i ==> {
                    &&& (#[trigger] prs@[k]).title@ == text_or_empty(d[k][0])
                    &&& prs@[k].branch@ == text_or_empty(d[k][1])
                    &&& prs@[k].url@ == text_or_empty(d[k][2])
                },
        decreases rows.len() - i,
    {
        let row = &rows[i];
        assert(d[i as int] == row.deep_view());
        let pr = PullRequest { title: field(row, 0), branch: field(row, 1), url: field(row, 2) };
        prs.push(pr);
        i += 1;
    }
    Ok(prs)
}

/// `gh pr merge` for the pull request of `branch_name`.
pub fn merge_command(repo: &RepoDir, branch_name: &str, merge_method: &str) -> (p: Plan)
    ensures
        p@ == live(
            "Merging PR for branch '"@ + branch_name@ + "'"@,
            gh_in(repo.dir@, seq!["pr"@, "merge"@, "--head"@, branch_name@, "--"@, merge_method@]),
        ),
{
    let c = gh(repo).arg("pr").arg("merge").arg("--head").arg(branch_name).arg("--").arg(
        merge_method,
    );
    assert(c@.args =~= seq!["pr"@, "merge"@, "--head"@, branch_name@, "--"@, merge_method@]);
    Plan { notice: join3("Merging PR for branch '", branch_name, "'"), command: Some(c) }
}

/// Whether the pull request is merged, from what `gh pr merge` gave.
pub fn merge_pr(result: &CommandResult) -> (r: Result<bool, HostError>)
    ensures
        match merged_of(*result) {
            Ok(b) => r matches Ok(x) && x == b,
            Err(e) => r matches Err(x) && x@ == e,
        },
{
    if !result.was_started() {
        return Err(fail(HostFault::MergeNotStarted));
    }
    if result.is_success() {
        return Ok(true);
    }
    let errors = error_text(result);
    if contains(errors.as_str(), "already merged") {
        Ok(true)
    } else {
        Err(fail_with(HostFault::MergeFailed, result))
    }
}

/// Forking `github_url` into `output_dir`: the announcement and
/// `gh repo fork`.
pub fn fork_repository(github_url: &str, output_dir: &str) -> (p: Plan)
    ensures
        p@ == live(
            "Forking repository: "@ + github_url@,
            command_here(
                "gh"@,
                seq!["repo"@, "fork"@, github_url@, "--clone"@, "--dir"@, output_dir@],
            ),
        ),
{
    let c = CommandSpec::new_here("gh").arg("repo").arg("fork").arg(github_url).arg("--clone").arg(
        "--dir",
    ).arg(output_dir);
    assert(c@.args =~= seq!["repo"@, "fork"@, github_url@, "--clone"@, "--dir"@, output_dir@]);
    Plan { notice: join("Forking repository: ", github_url), command: Some(c) }
}

/// Whether the fork succeeded.
pub fn fork_outcome(result: &CommandResult) -> (r: Result<(), HostError>)
    ensures
        match host_success_of(*result, HostFault::ForkNotStarted, HostFault::ForkFailed) {
            Ok(_) => r is Ok,
            Err(e) => r matches Err(x) && x@ == e,
        },
{
    if !result.was_started() {
        Err(fail(HostFault::ForkNotStarted))
    } else if result.is_success() {
        Ok(())
    } else {
        Err(fail_with(HostFault::ForkFailed, result))
    }
}

/// `git remote get-url origin` in the forked repository.
pub fn remote_command(repo: &RepoDir) -> (c: CommandSpec)
    ensures
        c@ == git_in(repo.dir@, seq!["remote"@, "get-url"@, "origin"@]),
{
    let c = CommandSpec::new_in(repo.dir.as_str(), "git").arg("remote").arg("get-url").arg(
        "origin",
    );
    assert(c@.args =~= seq!["remote"@, "get-url"@, "origin"@]);
    c
}

/// The address of the fork, from what `git remote get-url origin` gave.
pub fn forked_url(result: &CommandResult) -> (r: Result<String, HostError>)
    ensures
        match remote_of(*result) {
            Ok(u) => r matches Ok(x) && x@ == u,
            Err(e) => r matches Err(x) && x@ == e,
        },
{
    if !result.was_started() {
        Err(fail(HostFault::RemoteNotStarted))
    } else if result.is_success() {
        let out = output_text(result);
        Ok(trim(out.as_str()))
    } else {
        Err(fail(HostFault::RemoteFailed))
    }
}

/// Cloning `github_url` into `output_dir`: the announcement and `git clone`.
pub fn clone_repository(github_url: &str, output_dir: &str) -> (p: Plan)
    ensures
        p@ == live(
            "Cloning repository: "@ + github_url@,
            command_here("git"@, seq!["clone"@, github_url@, output_dir@]),
        ),
{
    let c = CommandSpec::new_here("git").arg("clone").arg(github_url).arg(output_dir);
    assert(c@.args =~= seq!["clone"@, github_url@, output_dir@]);
    Plan { notice: join("Cloning repository: ", github_url), command: Some(c) }
}

/// Whether the clone succeeded.
pub fn clone_outcome(result: &CommandResult) -> (r: Result<(), HostError>)
    ensures
        match host_success_of(*result, HostFault::CloneNotStarted, HostFault::CloneFailed) {
            Ok(_) => r is Ok,
            Err(e) => r matches Err(x) && x@ == e,
        },
{
    if !result.was_started() {
        Err(fail(HostFault::CloneNotStarted))
    } else if result.is_success() {
        Ok(())
    } else {
        Err(fail_with(HostFault::CloneFailed, result))
    }
}

impl HostFault {
    /// The text of the fault, before any detail.
    pub open spec fn text(self) -> Seq<char> {
        match self {
            HostFault::AuthNotStarted =>
                "Failed to check GitHub CLI authentication. Is GitHub CLI installed?"@,
            HostFault::LoginRequired =>
                "GitHub CLI is not installed or not authenticated. Please run 'gh auth login'"@,
            HostFault::NotAuthenticated => "GitHub CLI is not installed or not authenticated"@,
            HostFault::CreateNotStarted => "Failed to create PR"@,
            HostFault::CreateFailed => "Failed to create PR: "@,
            HostFault::ViewNotStarted => "Failed to get existing PR URL"@,
            HostFault::StatusNotStarted => "Failed to check PR status"@,
            HostFault::ListNotStarted => "Failed to list PRs"@,
            HostFault::ListFailed => "Failed to list PRs: "@,
            HostFault::ListUnreadable => "Failed to parse PR list JSON"@,
            HostFault::MergeNotStarted => "Failed to merge PR"@,
            HostFault::MergeFailed => "Failed to merge PR: "@,
            HostFault::ForkNotStarted => "Failed to fork repository"@,
            HostFault::ForkFailed => "Failed to fork repository: "@,
            HostFault::RemoteNotStarted => "Failed to get forked repository URL"@,
            HostFault::RemoteFailed => "Failed to get forked repository URL"@,
            HostFault::CloneNotStarted => "Failed to clone repository"@,
            HostFault::CloneFailed => "Failed to clone repository: "@,
        }
    }

    /// The text of the fault, before any detail.
    pub fn label(self) -> (t: &'static str)
        ensures
            t@ == self.text(),
    {
        match self {
            HostFault::AuthNotStarted => {
                "Failed to check GitHub CLI authentication. Is GitHub CLI installed?"
            },
            HostFault::LoginRequired => {
                "GitHub CLI is not installed or not authenticated. Please run 'gh auth login'"
            },
            HostFault::NotAuthenticated => "GitHub CLI is not installed or not authenticated",
            HostFault::CreateNotStarted => "Failed to create PR",
            HostFault::CreateFailed => "Failed to create PR: ",
            HostFault::ViewNotStarted => "Failed to get existing PR URL",
            HostFault::StatusNotStarted => "Failed to check PR status",
            HostFault::ListNotStarted => "Failed to list PRs",
            HostFault::ListFailed => "Failed to list PRs: ",
            HostFault::ListUnreadable => "Failed to parse PR list JSON",
            HostFault::MergeNotStarted => "Failed to merge PR",
            HostFault::MergeFailed => "Failed to merge PR: ",
            HostFault::ForkNotStarted => "Failed to fork repository",
            HostFault::ForkFailed => "Failed to fork repository: ",
            HostFault::RemoteNotStarted => "Failed to get forked repository URL",
            HostFault::RemoteFailed => "Failed to get forked repository URL",
            HostFault::CloneNotStarted => "Failed to clone repository",
            HostFault::CloneFailed => "Failed to clone repository: ",
        }
    }
}

/// The text of an error: that of its fault, then its detail.
pub open spec fn host_error_text(e: HostErrorView) -> Seq<char> {
    e.fault.text() + e.detail
}

impl HostError {
    /// An error without detail.
    pub fn of(fault: HostFault) -> (e: HostError)
        ensures
            e@ == bare(fault),
    {
        fail(fault)
    }

    /// The text of the error.
    pub fn message(&self) -> (m: String)
        ensures
            m@ == host_error_text(self@),
    {
        join(self.fault.label(), self.detail.as_str())
    }
}

} // verus!
