//! Commands as data: what to run and where, and what came back. Running them
//! is left to the caller.

use crate::config::{expand_tilde_in, expanded, home_text, ConfigError};
use vstd::prelude::*;
use vstd::utf8::{decode_utf8, valid_utf8};

verus! {

/// A command to run: the program, its arguments, and the directory to run it
/// in.
#[derive(Debug, Clone, PartialEq, Eq)]
pub struct CommandSpec {
    pub program: String,
    pub args: Vec<String>,
    pub dir: Option<String>,
}

/// The command as the contracts see it.
pub struct CommandSpecView {
    pub program: Seq<char>,
    pub args: Seq<Seq<char>>,
    pub dir: Option<Seq<char>>,
}

impl View for CommandSpec {
    type V = CommandSpecView;

    open spec fn view(&self) -> CommandSpecView {
        CommandSpecView {
            program: self.program@,
            args: self.args.deep_view(),
            dir: match self.dir {
                Some(d) => Some(d@),
                None => None,
            },
        }
    }
}

/// What running a command gave: it could not be started, or it ran and left
/// its exit status and what it wrote.
#[derive(Debug, Clone, PartialEq, Eq)]
pub enum CommandResult {
    NotStarted,
    Finished { success: bool, stdout: Vec<u8>, stderr: Vec<u8> },
}

/// A step that is announced and then, unless it is only simulated, run.
#[derive(Debug, Clone, PartialEq, Eq)]
pub struct Plan {
    pub notice: String,
    pub command: Option<CommandSpec>,
}

/// The plan as the contracts see it.
pub struct PlanView {
    pub notice: Seq<char>,
    pub command: Option<CommandSpecView>,
}

impl View for Plan {
    type V = PlanView;

    open spec fn view(&self) -> PlanView {
        PlanView {
            notice: self.notice@,
            command: match self.command {
                Some(c) => Some(c@),
                None => None,
            },
        }
    }
}

/// A repository's path as it is configured, for messages, and expanded, for
/// running commands in it.
#[derive(Debug, Clone, PartialEq, Eq)]
pub struct RepoDir {
    pub path: String,
    pub dir: String,
}

/// The command `program args..` run in `dir`.
pub open spec fn command_in(dir: Seq<char>, program: Seq<char>, args: Seq<Seq<char>>) -> CommandSpecView {
    CommandSpecView { program: program, args: args, dir: Some(dir) }
}

/// The command `program args..` run where the caller stands.
pub open spec fn command_here(program: Seq<char>, args: Seq<Seq<char>>) -> CommandSpecView {
    CommandSpecView { program: program, args: args, dir: None }
}

/// The text that `String::from_utf8_lossy` makes of `bytes`.
pub uninterp spec fn lossy_text(bytes: Seq<u8>) -> Seq<char>;

/// `String::from_utf8`: the text that the bytes encode, if they are valid
/// UTF-8.
#[verifier::external_body]
pub(crate) fn decode_text(bytes: &Vec<u8>) -> (r: Option<String>)
    ensures
        r is Some <==> valid_utf8(bytes@),
        r matches Some(s) ==> s@ == decode_utf8(bytes@),
{
    String::from_utf8(bytes.clone()).ok()
}

/// `String::from_utf8_lossy`: the text that the bytes encode, with the
/// replacement character where they are not valid UTF-8; bytes that are valid
/// give their text.
#[verifier::external_body]
pub(crate) fn decode_text_lossy(bytes: &Vec<u8>) -> (r: String)
    ensures
        r@ == lossy_text(bytes@),
        valid_utf8(bytes@) ==> r@ == decode_utf8(bytes@),
{
    String::from_utf8_lossy(bytes).into_owned()
}

impl CommandResult {
    /// The command ran and reported success.
    pub open spec fn succeeded(self) -> bool {
        self matches CommandResult::Finished { success, .. } && success
    }

    /// What the command wrote to its output; nothing where it did not run.
    pub open spec fn output(self) -> Seq<u8> {
        match self {
            CommandResult::Finished { stdout, .. } => stdout@,
            CommandResult::NotStarted => Seq::empty(),
        }
    }

    /// What the command wrote to its error stream; nothing where it did not
    /// run.
    pub open spec fn errors(self) -> Seq<u8> {
        match self {
            CommandResult::Finished { stderr, .. } => stderr@,
            CommandResult::NotStarted => Seq::empty(),
        }
    }

    /// Whether the command ran and reported success.
    pub fn is_success(&self) -> (r: bool)
        ensures
            r == self.succeeded(),
    {
        match self {
            CommandResult::Finished { success, .. } => *success,
            CommandResult::NotStarted => false,
        }
    }

    /// Whether the command was started at all.
    pub fn was_started(&self) -> (r: bool)
        ensures
            r == (*self is Finished),
    {
        match self {
            CommandResult::Finished { .. } => true,
            CommandResult::NotStarted => false,
        }
    }

    /// Whether the command wrote anything to its output.
    pub fn wrote_output(&self) -> (r: bool)
        ensures
            r == (self.output().len() > 0),
    {
        match self {
            CommandResult::Finished { stdout, .. } => stdout.len() > 0,
            CommandResult::NotStarted => false,
        }
    }
}

impl CommandSpec {
    /// The command `program`, without arguments, run in `dir`.
    pub fn new_in(dir: &str, program: &str) -> (c: CommandSpec)
        ensures
            c@ == command_in(dir@, program@, Seq::empty()),
    {
        let c = CommandSpec {
            program: program.to_owned(),
            args: Vec::new(),
            dir: Some(dir.to_owned()),
        };
        assert(c.args.deep_view() =~= Seq::empty());
        c
    }

    /// The command `program`, without arguments, run where the caller stands.
    pub fn new_here(program: &str) -> (c: CommandSpec)
        ensures
            c@ == command_here(program@, Seq::empty()),
    {
        let c = CommandSpec { program: program.to_owned(), args: Vec::new(), dir: None };
        assert(c.args.deep_view() =~= Seq::empty());
        c
    }

    /// The command with one more argument.
    pub fn arg(self, a: &str) -> (c: CommandSpec)
        ensures
            c@ == (CommandSpecView { args: self@.args.push(a@), ..self@ }),
    {
        let mut args = self.args;
        let ghost before = args.deep_view();
        args.push(a.to_owned());
        assert(args.deep_view() =~= before.push(a@));
        CommandSpec { program: self.program, args, dir: self.dir }
    }
}

impl RepoDir {
    /// The repository at `path`, with its directory expanded under `home`.
    pub fn resolve(path: &str, home: &Option<String>) -> (r: Result<RepoDir, ConfigError>)
        ensures
            match expanded(path@, home_text(*home)) {
                Some(d) => r matches Ok(repo) && repo.path@ == path@ && repo.dir@ == d,
                None => r == Err::<RepoDir, ConfigError>(ConfigError::NoHomeDirectory),
            },
    {
        match expand_tilde_in(path, home) {
            Ok(dir) => Ok(RepoDir { path: path.to_owned(), dir }),
            Err(_) => Err(ConfigError::NoHomeDirectory),
        }
    }
}

} // verus!
