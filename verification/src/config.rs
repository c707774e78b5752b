//! The fleet's configuration: the ordered list of repositories, the default
//! commit message and the default package manager.

use crate::text::{join, skip_chars, starts_with};
use vstd::prelude::*;

verus! {

/// One managed repository: where it is checked out and, where the
/// configuration tracks remotes, the address of its origin.
#[derive(Debug, Clone)]
pub struct Repository {
    pub path: String,
    pub github_url: Option<String>,
}

/// The stored configuration of a fleet.
#[derive(Debug)]
pub struct Config {
    pub default_commit_message: String,
    pub repositories: Vec<Repository>,
    pub default_package_manager: Option<String>,
}

/// What can go wrong when the configuration is read or changed.
#[derive(Debug, Clone, Copy, PartialEq, Eq, Structural)]
pub enum ConfigError {
    /// A path begins with `~/` and no home directory is known.
    NoHomeDirectory,
    /// The repository is listed already.
    AlreadyExists,
    /// No listed repository has this path.
    NotFound,
    /// The package manager is none of the known ones.
    InvalidPackageManager,
}

/// What `std::path::Path::join` makes of a base directory and a path,
/// rendered as text.
pub uninterp spec fn joined_path(base: Seq<char>, rest: Seq<char>) -> Seq<char>;

/// `Path::join` followed by `to_string_lossy`: the text of the path that
/// `base` gives with `rest` adjoined. The two texts decide the result.
#[verifier::external_body]
pub(crate) fn join_path(base: &str, rest: &str) -> (r: String)
    ensures
        r@ == joined_path(base@, rest@),
{
    std::path::Path::new(base).join(rest).to_string_lossy().to_string()
}

/// `dirs::home_dir`: the current user's home directory as text, if the
/// environment gives one. Nothing is promised of it.
#[verifier::external_body]
pub(crate) fn home_directory() -> (home: Option<String>) {
    dirs::home_dir().map(|p| p.to_string_lossy().to_string())
}

/// The text of a home directory that may be missing.
pub open spec fn home_text(home: Option<String>) -> Option<Seq<char>> {
    match home {
        Some(h) => Some(h@),
        None => None,
    }
}

/// `path` stands for a place under the home directory.
pub open spec fn under_home(path: Seq<char>) -> bool {
    "~/"@.is_prefix_of(path)
}

/// `path` with a leading `~/` replaced by the home directory; `None` where
/// that is needed and no home directory is known.
pub open spec fn expanded(path: Seq<char>, home: Option<Seq<char>>) -> Option<Seq<char>> {
    if under_home(path) {
        match home {
            Some(h) => Some(joined_path(h, path.skip(2))),
            None => None,
        }
    } else {
        Some(path)
    }
}

/// The place of the configuration file below `home`.
pub open spec fn config_path_under(home: Seq<char>) -> Seq<char> {
    joined_path(joined_path(joined_path(home, ".config"@), "mru"@), "config.toml"@)
}

/// The first position in `repos` whose path cannot be expanded; their number
/// where every path can.
pub open spec fn first_unexpandable(repos: Seq<Repository>, home: Option<Seq<char>>) -> nat
    decreases repos.len(),
{
    if repos.len() == 0 {
        0
    } else if expanded(repos[0].path@, home) is None {
        0
    } else {
        1 + first_unexpandable(repos.drop_first(), home)
    }
}

/// The repositories of `repos` whose expanded path is not `target`, in their
/// order.
pub open spec fn surviving(repos: Seq<Repository>, target: Seq<char>, home: Option<Seq<char>>) -> Seq<
    Repository,
>
    decreases repos.len(),
{
    if repos.len() == 0 {
        Seq::empty()
    } else if expanded(repos.last().path@, home) == Some(target) {
        surviving(repos.drop_last(), target, home)
    } else {
        surviving(repos.drop_last(), target, home).push(repos.last())
    }
}

/// No two repositories of `repos` expand to the same path.
pub open spec fn distinct_paths(repos: Seq<Repository>, home: Option<Seq<char>>) -> bool {
    forall|i: int, j: int|
        0 <= i < j < repos.len() && expanded(#[trigger] repos[i].path@, home) is Some ==> expanded(
            repos[i].path@,
            home,
        ) != expanded(#[trigger] repos[j].path@, home)
}

/// `name` is one of the package managers that can be the default.
pub open spec fn known_manager(name: Seq<char>) -> bool {
    name == "npm"@ || name == "yarn"@ || name == "pnpm"@
}

/// What adding `path` to `before` gives when the home directory is `home`.
pub open spec fn added(
    before: Config,
    path: String,
    home: Option<Seq<char>>,
    after: Config,
    r: Result<(), ConfigError>,
) -> bool {
    let repos = before.repositories@;
    let target = expanded(path@, home);
    let k = first_unexpandable(repos, home);
    let listed = exists|i: int|
        0 <= i < repos.len() && i <= k && expanded(#[trigger] repos[i].path@, home) == target;
    if target is None {
        r == Err::<(), ConfigError>(ConfigError::NoHomeDirectory) && after == before
    } else if listed {
        r == Err::<(), ConfigError>(ConfigError::AlreadyExists) && after == before
    } else if k < repos.len() {
        r == Err::<(), ConfigError>(ConfigError::NoHomeDirectory) && after == before
    } else {
        &&& r is Ok
        &&& after.repositories@ == repos.push(Repository { path: path, github_url: None })
        &&& after.default_commit_message == before.default_commit_message
        &&& after.default_package_manager == before.default_package_manager
        &&& distinct_paths(repos, home) ==> distinct_paths(after.repositories@, home)
    }
}

/// What removing `path` from `before` gives when the home directory is `home`.
pub open spec fn removed(
    before: Config,
    path: Seq<char>,
    home: Option<Seq<char>>,
    after: Config,
    r: Result<(), ConfigError>,
) -> bool {
    let repos = before.repositories@;
    let k = first_unexpandable(repos, home) as int;
    match expanded(path, home) {
        None => r == Err::<(), ConfigError>(ConfigError::NoHomeDirectory) && after == before,
        Some(target) => {
            &&& after.repositories@ == surviving(repos.take(k), target, home) + repos.skip(k)
            &&& after.default_commit_message == before.default_commit_message
            &&& after.default_package_manager == before.default_package_manager
            &&& if k < repos.len() {
                r == Err::<(), ConfigError>(ConfigError::NoHomeDirectory)
            } else if after.repositories@.len() == repos.len() {
                r == Err::<(), ConfigError>(ConfigError::NotFound)
            } else {
                r is Ok && (distinct_paths(repos, home) ==> distinct_paths(
                    after.repositories@,
                    home,
                ))
            }
        },
    }
}

/// What loading gives: the first configuration where nothing is stored yet,
/// else the stored one with every path expanded.
pub open spec fn loaded(
    stored: Option<Config>,
    home: Option<Seq<char>>,
    r: Result<Config, ConfigError>,
) -> bool {
    match stored {
        None => r matches Ok(c) && is_initial(c),
        Some(s) => if first_unexpandable(s.repositories@, home) < s.repositories@.len() {
            r == Err::<Config, ConfigError>(ConfigError::NoHomeDirectory)
        } else {
            &&& r matches Ok(c)
            &&& c.default_commit_message == s.default_commit_message
            &&& c.default_package_manager == s.default_package_manager
            &&& c.repositories@.len() == s.repositories@.len()
            &&& forall|i: int|
                0 <= i < s.repositories@.len() ==> Some((#[trigger] c.repositories@[i]).path@)
                    == expanded(s.repositories@[i].path@, home) && c.repositories@[i].github_url
                    == s.repositories@[i].github_url
        },
    }
}

/// `c` is the configuration that a fleet starts with.
pub open spec fn is_initial(c: Config) -> bool {
    &&& c.default_commit_message@ == "chore: update dependencies"@
    &&& c.repositories@.len() == 0
    &&& c.default_package_manager matches Some(m)
    &&& m@ == "npm"@
}

/// The first path that cannot be expanded is at `k` where every path before `k`
/// can be expanded and the one at `k`, if there is one, cannot.
pub proof fn lemma_first_unexpandable(repos: Seq<Repository>, home: Option<Seq<char>>, k: int)
    requires
        0 <= k <= repos.len(),
        forall|i: int| 0 <= i < k ==> expanded(#[trigger] repos[i].path@, home) is Some,
        k == repos.len() || expanded(repos[k].path@, home) is None,
    ensures
        first_unexpandable(repos, home) == k,
    decreases k,
{
    if k > 0 {
        let rest = repos.drop_first();
        assert forall|i: int| 0 <= i < k - 1 implies expanded(
            #[trigger] rest[i].path@,
            home,
        ) is Some by {
            assert(rest[i] == repos[i + 1]);
        }
        lemma_first_unexpandable(rest, home, k - 1);
    }
}

/// What survives a removal is part of what was there: no element is new, and
/// none of them expands to the removed path.
pub proof fn lemma_surviving(repos: Seq<Repository>, target: Seq<char>, home: Option<Seq<char>>)
    ensures
        surviving(repos, target, home).len() <= repos.len(),
        forall|i: int|
            0 <= i < surviving(repos, target, home).len() ==> repos.contains(
                #[trigger] surviving(repos, target, home)[i],
            ) && expanded(surviving(repos, target, home)[i].path@, home) != Some(target),
        surviving(repos, target, home).len() == repos.len() ==> surviving(repos, target, home)
            == repos,
    decreases repos.len(),
{
    if repos.len() > 0 {
        let init = repos.drop_last();
        lemma_surviving(init, target, home);
        let s = surviving(repos, target, home);
        assert forall|i: int| 0 <= i < s.len() implies repos.contains(#[trigger] s[i]) && expanded(
            s[i].path@,
            home,
        ) != Some(target) by {
            if i < surviving(init, target, home).len() {
                let e = surviving(init, target, home)[i];
                assert(init.contains(e));
                let w = choose|w: int| 0 <= w < init.len() && init[w] == e;
                assert(repos[w] == e);
            } else {
                assert(s[i] == repos[repos.len() - 1]);
            }
        }
        if s.len() == repos.len() {
            assert(s =~= repos);
        }
    }
}

/// Removing keeps the paths distinct.
pub proof fn lemma_surviving_distinct(
    repos: Seq<Repository>,
    target: Seq<char>,
    home: Option<Seq<char>>,
)
    requires
        distinct_paths(repos, home),
    ensures
        distinct_paths(surviving(repos, target, home), home),
    decreases repos.len(),
{
    if repos.len() > 0 {
        let init = repos.drop_last();
        assert(distinct_paths(init, home)) by {
            assert forall|i: int, j: int|
                0 <= i < j < init.len() && expanded(
                    #[trigger] init[i].path@,
                    home,
                ) is Some implies expanded(init[i].path@, home) != expanded(
                #[trigger] init[j].path@,
                home,
            ) by {
                assert(init[i] == repos[i] && init[j] == repos[j]);
            }
        }
        lemma_surviving_distinct(init, target, home);
        lemma_surviving(init, target, home);
        let s = surviving(repos, target, home);
        let si = surviving(init, target, home);
        assert forall|i: int, j: int|
            0 <= i < j < s.len() && expanded(#[trigger] s[i].path@, home) is Some implies expanded(
                s[i].path@,
                home,
            ) != expanded(#[trigger] s[j].path@, home) by {
            if j < si.len() {
                assert(s[i] == si[i] && s[j] == si[j]);
            } else {
                assert(s[j] == repos.last());
                assert(s[i] == si[i]);
                assert(init.contains(si[i]));
                let w = choose|w: int| 0 <= w < init.len() && init[w] == si[i];
                assert(repos[w] == si[i]);
                assert(repos[repos.len() - 1] == repos.last());
            }
        }
    }
}

/// `path` with a leading `~/` replaced by `home`.
pub fn expand_tilde_in(path: &str, home: &Option<String>) -> (r: Result<String, ConfigError>)
    ensures
        match expanded(path@, home_text(*home)) {
            Some(p) => r matches Ok(s) && s@ == p,
            None => r == Err::<String, ConfigError>(ConfigError::NoHomeDirectory),
        },
{
    if starts_with(path, "~/") {
        proof {
            reveal_strlit("~/");
        }
        match home {
            Some(h) => {
                let rest = skip_chars(path, 2);
                Ok(join_path(h.as_str(), rest.as_str()))
            },
            None => Err(ConfigError::NoHomeDirectory),
        }
    } else {
        Ok(path.to_owned())
    }
}

/// `path` with a leading `~/` replaced by the user's home directory. A path
/// that does not begin with `~/` comes back as it is, whatever the home
/// directory.
pub fn expand_tilde(path: &str) -> (r: Result<String, ConfigError>)
    ensures
        exists|home: Option<Seq<char>>|
            match #[trigger] expanded(path@, home) {
                Some(p) => r matches Ok(s) && s@ == p,
                None => r == Err::<String, ConfigError>(ConfigError::NoHomeDirectory),
            },
{
    let home = home_directory();
    let r = expand_tilde_in(path, &home);
    assert(match expanded(path@, home_text(home)) {
        Some(p) => r matches Ok(s) && s@ == p,
        None => r == Err::<String, ConfigError>(ConfigError::NoHomeDirectory),
    });
    r
}

/// The place of the configuration file below `home`:
/// `.config/mru/config.toml`.
pub fn config_path_in(home: &str) -> (r: String)
    ensures
        r@ == config_path_under(home@),
{
    let a = join_path(home, ".config");
    let b = join_path(a.as_str(), "mru");
    join_path(b.as_str(), "config.toml")
}

/// The place of the configuration file of the current user.
pub fn get_config_path() -> (r: Result<String, ConfigError>)
    ensures
        r matches Err(e) ==> e == ConfigError::NoHomeDirectory,
        r matches Ok(p) ==> exists|home: Seq<char>| p@ == #[trigger] config_path_under(home),
{
    match home_directory() {
        Some(h) => {
            let p = config_path_in(h.as_str());
            assert(p@ == config_path_under(h@));
            Ok(p)
        },
        None => Err(ConfigError::NoHomeDirectory),
    }
}

impl ConfigError {
    /// The text of the error, which is about the repository at `path`.
    pub open spec fn text(self, path: Seq<char>) -> Seq<char> {
        match self {
            ConfigError::NoHomeDirectory => "Could not find home directory"@,
            ConfigError::AlreadyExists => "Repository already exists in config"@,
            ConfigError::NotFound => "Repository not found: "@ + path,
            ConfigError::InvalidPackageManager =>
                "Invalid package manager. Must be one of: [\"npm\", \"yarn\", \"pnpm\"]"@,
        }
    }

    /// The text of the error, which is about the repository at `path`.
    pub fn message(&self, path: &str) -> (m: String)
        ensures
            m@ == self.text(path@),
    {
        match self {
            ConfigError::NoHomeDirectory => "Could not find home directory".to_owned(),
            ConfigError::AlreadyExists => "Repository already exists in config".to_owned(),
            ConfigError::NotFound => join("Repository not found: ", path),
            ConfigError::InvalidPackageManager => {
                "Invalid package manager. Must be one of: [\"npm\", \"yarn\", \"pnpm\"]".to_owned()
            },
        }
    }
}

impl Config {
    /// The configuration that a fleet starts with: no repository, `npm` as the
    /// default package manager.
    pub fn initial() -> (c: Config)
        ensures
            is_initial(c),
    {
        Config {
            default_commit_message: "chore: update dependencies".to_owned(),
            repositories: Vec::new(),
            default_package_manager: Some("npm".to_owned()),
        }
    }

    /// The configuration to work with, from what is stored: the first
    /// configuration where nothing is stored yet, else the stored one with the
    /// path of every repository expanded under `home`.
    pub fn load_in(stored: Option<Config>, home: &Option<String>) -> (r: Result<
        Config,
        ConfigError,
    >)
        ensures
            loaded(stored, home_text(*home), r),
    {
        let config = match stored {
            None => {
                return Ok(Config::initial());
            },
            Some(c) => c,
        };
        let ghost h = home_text(*home);
        let mut repos: Vec<Repository> = Vec::new();
        let n = config.repositories.len();
        let mut i: usize = 0;
        while i < n
            invariant
                h == home_text(*home),
                stored == Some(config),
                i <= n == config.repositories@.len(),
                repos@.len() == i,
                forall|k: int|
                    0 <= k < i ==> expanded(#[trigger] config.repositories@[k].path@, h) is Some,
                forall|k: int|
                    0 <= k < i ==> Some((#[trigger] repos@[k]).path@) == expanded(
                        config.repositories@[k].path@,
                        h,
                    ) && repos@[k].github_url == config.repositories@[k].github_url,
            decreases n - i,
        {
            let path = match expand_tilde_in(config.repositories[i].path.as_str(), home) {
                Ok(p) => p,
                Err(e) => {
                    proof {
                        lemma_first_unexpandable(config.repositories@, h, i as int);
                    }
                    return Err(ConfigError::NoHomeDirectory);
                },
            };
            let url = config.repositories[i].github_url.clone();
            repos.push(Repository { path, github_url: url });
            i += 1;
        }
        proof {
            lemma_first_unexpandable(config.repositories@, h, n as int);
        }
        Ok(
            Config {
                default_commit_message: config.default_commit_message,
                repositories: repos,
                default_package_manager: config.default_package_manager,
            },
        )
    }

    /// The configuration to work with, paths expanded under the home directory
    /// of the current user.
    pub fn load(stored: Option<Config>) -> (r: Result<Config, ConfigError>)
        ensures
            exists|home: Option<Seq<char>>| #[trigger] loaded(stored, home, r),
    {
        let home = home_directory();
        let r = Config::load_in(stored, &home);
        assert(loaded(stored, home_text(home), r));
        r
    }

    /// Adds the repository at `path`, unless one with the same expanded path
    /// is listed. The path is kept as it was given.
    pub fn add_repository_in(&mut self, path: String, home: &Option<String>) -> (r: Result<
        (),
        ConfigError,
    >)
        ensures
            added(*old(self), path, home_text(*home), *final(self), r),
    {
        let ghost h = home_text(*home);
        let ghost repos = self.repositories@;
        let target = match expand_tilde_in(path.as_str(), home) {
            Ok(t) => t,
            Err(e) => {
                return Err(ConfigError::NoHomeDirectory);
            },
        };
        let n = self.repositories.len();
        let mut i: usize = 0;
        while i < n
            invariant
                h == home_text(*home),
                repos == self.repositories@,
                *self == *old(self),
                i <= n == repos.len(),
                Some(target@) == expanded(path@, h),
                forall|k: int|
                    0 <= k < i ==> expanded(#[trigger] repos[k].path@, h) is Some && expanded(
                        repos[k].path@,
                        h,
                    ) != Some(target@),
            decreases n - i,
        {
            match expand_tilde_in(self.repositories[i].path.as_str(), home) {
                Ok(p) => {
                    if p == target {
                        proof {
                            lemma_first_unexpandable_at_least(repos, h, i as int);
                            assert(expanded(repos[i as int].path@, h) == Some(target@));
                        }
                        return Err(ConfigError::AlreadyExists);
                    }
                },
                Err(e) => {
                    proof {
                        lemma_first_unexpandable(repos, h, i as int);
                    }
                    return Err(ConfigError::NoHomeDirectory);
                },
            }
            i += 1;
        }
        proof {
            lemma_first_unexpandable(repos, h, n as int);
        }
        self.repositories.push(Repository { path, github_url: None });
        proof {
            let after = self.repositories@;
            if distinct_paths(repos, h) {
                assert forall|a: int, b: int|
                    0 <= a < b < after.len() && expanded(
                        #[trigger] after[a].path@,
                        h,
                    ) is Some implies expanded(after[a].path@, h) != expanded(
                    #[trigger] after[b].path@,
                    h,
                ) by {
                    assert(after[a] == repos[a]);
                    if b < repos.len() {
                        assert(after[b] == repos[b]);
                    }
                }
            }
        }
        Ok(())
    }

    /// Adds the repository at `path`, paths compared as they expand under the
    /// home directory of the current user.
    pub fn add_repository(&mut self, path: String) -> (r: Result<(), ConfigError>)
        ensures
            exists|home: Option<Seq<char>>| #[trigger] added(*old(self), path, home, *final(self), r),
    {
        let home = home_directory();
        let r = self.add_repository_in(path, &home);
        assert(added(*old(self), path, home_text(home), *self, r));
        r
    }

    /// Removes every repository whose expanded path is that of `path`.
    pub fn remove_repository_in(&mut self, path: &str, home: &Option<String>) -> (r: Result<
        (),
        ConfigError,
    >)
        ensures
            removed(*old(self), path@, home_text(*home), *final(self), r),
    {
        let ghost h = home_text(*home);
        let ghost repos = self.repositories@;
        let target = match expand_tilde_in(path, home) {
            Ok(t) => t,
            Err(e) => {
                return Err(ConfigError::NoHomeDirectory);
            },
        };
        let initial_len = self.repositories.len();
        let mut i: usize = 0;
        let ghost mut k: int = 0;
        while i < self.repositories.len()
            invariant
                h == home_text(*home),
                repos == old(self).repositories@,
                initial_len == repos.len(),
                Some(target@) == expanded(path@, h),
                self.default_commit_message == old(self).default_commit_message,
                self.default_package_manager == old(self).default_package_manager,
                0 <= k <= repos.len(),
                i == surviving(repos.take(k), target@, h).len(),
                self.repositories@ == surviving(repos.take(k), target@, h) + repos.skip(k),
                forall|j: int| 0 <= j < k ==> expanded(#[trigger] repos[j].path@, h) is Some,
            decreases repos.len() - k,
        {
            let ghost kept = surviving(repos.take(k), target@, h);
            assert(self.repositories@[i as int] == repos.skip(k)[0]);
            assert(k < repos.len());
            proof {
                assert(repos.take(k + 1).drop_last() == repos.take(k));
                assert(repos.take(k + 1).last() == repos[k]);
            }
            match expand_tilde_in(self.repositories[i].path.as_str(), home) {
                Ok(p) => {
                    if p == target {
                        self.repositories.remove(i);
                        proof {
                            assert(self.repositories@ =~= kept + repos.skip(k + 1));
                            k = k + 1;
                        }
                    } else {
                        proof {
                            assert(kept.push(repos[k]) + repos.skip(k + 1) =~= kept + repos.skip(
                                k,
                            ));
                            k = k + 1;
                        }
                        i += 1;
                    }
                },
                Err(e) => {
                    proof {
                        lemma_first_unexpandable(repos, h, k);
                    }
                    return Err(ConfigError::NoHomeDirectory);
                },
            }
        }
        proof {
            lemma_surviving(repos.take(k), target@, h);
            assert(k == repos.len());
            assert(repos.take(k) == repos);
            lemma_first_unexpandable(repos, h, k);
            assert(self.repositories@ =~= surviving(repos, target@, h));
            if distinct_paths(repos, h) {
                lemma_surviving_distinct(repos, target@, h);
            }
        }
        if self.repositories.len() == initial_len {
            return Err(ConfigError::NotFound);
        }
        Ok(())
    }

    /// Removes every repository whose expanded path is that of `path`, paths
    /// compared as they expand under the home directory of the current user.
    pub fn remove_repository(&mut self, path: &str) -> (r: Result<(), ConfigError>)
        ensures
            exists|home: Option<Seq<char>>|
                #[trigger] removed(*old(self), path@, home, *final(self), r),
    {
        let home = home_directory();
        let r = self.remove_repository_in(path, &home);
        assert(removed(*old(self), path@, home_text(home), *self, r));
        r
    }

    /// Makes `name` the default package manager, if it is `npm`, `yarn` or
    /// `pnpm`.
    pub fn set_default_package_manager(&mut self, name: &str) -> (r: Result<(), ConfigError>)
        ensures
            final(self).default_commit_message == old(self).default_commit_message,
            final(self).repositories == old(self).repositories,
            known_manager(name@) ==> r is Ok && (final(self).default_package_manager matches Some(m)
                && m@ == name@),
            !known_manager(name@) ==> r == Err::<(), ConfigError>(
                ConfigError::InvalidPackageManager,
            ) && final(self).default_package_manager == old(self).default_package_manager,
    {
        if name.eq("npm") || name.eq("yarn") || name.eq("pnpm") {
            self.default_package_manager = Some(name.to_owned());
            Ok(())
        } else {
            Err(ConfigError::InvalidPackageManager)
        }
    }

    /// The repository listed under exactly `path`, the first of them.
    pub fn find_repository(&self, path: &str) -> (r: Option<usize>)
        ensures
            match r {
                Some(i) => i < self.repositories@.len() && self.repositories@[i as int].path@
                    == path@ && forall|j: int|
                    0 <= j < i ==> (#[trigger] self.repositories@[j]).path@ != path@,
                None => forall|j: int|
                    0 <= j < self.repositories@.len() ==> (#[trigger] self.repositories@[j]).path@
                        != path@,
            },
    {
        let mut i: usize = 0;
        while i < self.repositories.len()
            invariant
                i <= self.repositories@.len(),
                forall|j: int| 0 <= j < i ==> (#[trigger] self.repositories@[j]).path@ != path@,
            decreases self.repositories@.len() - i,
        {
            if self.repositories[i].path.as_str().eq(path) {
                return Some(i);
            }
            i += 1;
        }
        None
    }
}

proof fn lemma_first_unexpandable_at_least(repos: Seq<Repository>, home: Option<Seq<char>>, k: int)
    requires
        0 <= k <= repos.len(),
        forall|i: int| 0 <= i < k ==> expanded(#[trigger] repos[i].path@, home) is Some,
    ensures
        first_unexpandable(repos, home) >= k,
    decreases k,
{
    if k > 0 {
        let rest = repos.drop_first();
        assert(expanded(repos[0].path@, home) is Some);
        assert forall|i: int| 0 <= i < k - 1 implies expanded(
            #[trigger] rest[i].path@,
            home,
        ) is Some by {
            assert(rest[i] == repos[i + 1]);
        }
        lemma_first_unexpandable_at_least(rest, home, k - 1);
    }
}

} // verus!
