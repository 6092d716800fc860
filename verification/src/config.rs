//! The daemon's configuration: four paths, where a leading `~/` stands for
//! the home directory.

use vstd::prelude::*;
use std::path::PathBuf;
use crate::model::{Config, ConfigError};
use crate::text::{chars_of, starts_with, string_from_chars};

verus! {

/// The home directory, through `dirs::home_dir`.
///
/// It comes from the environment, so nothing is claimed of it: it may be
/// absent.
#[verifier::external_body]
fn home_dir() -> Option<PathBuf> {
    dirs::home_dir()
}

/// What `Path::join` gives for `base` and `rest`.
pub uninterp spec fn path_joined(base: PathBuf, rest: Seq<char>) -> PathBuf;

/// What `PathBuf::from` gives for `text`.
pub uninterp spec fn path_of_text(text: Seq<char>) -> PathBuf;

/// `base` joined with `rest`, through `Path::join`.
///
/// Claims only that the path is what the function gives for these
/// arguments, under the name `path_joined`.
#[verifier::external_body]
fn join_path(base: &PathBuf, rest: &str) -> (p: PathBuf)
    ensures
        p == path_joined(*base, rest@),
{
    base.join(rest)
}

/// The path written as `text`, through `PathBuf::from`.
///
/// Claims only that the path is what the function gives for the text,
/// under the name `path_of_text`.
#[verifier::external_body]
fn path_from(text: &str) -> (p: PathBuf)
    ensures
        p == path_of_text(text@),
{
    PathBuf::from(text)
}

/// Whether a configured path is relative to the home directory.
pub open spec fn is_home_relative(path: Seq<char>) -> bool {
    starts_with(path, seq!['~', '/'])
}

/// What follows `~/` in a path relative to the home directory; none for any
/// other path.
pub fn home_relative(path: &str) -> (r: Option<String>)
    ensures
        is_home_relative(path@) ==> (r matches Some(rest) && rest@ == path@.skip(2)),
        !is_home_relative(path@) ==> r is None,
{
    let c = chars_of(path);
    if c.len() >= 2 && c[0] == '~' && c[1] == '/' {
        assert(c@.take(2) =~= seq!['~', '/']);
        let mut rest: Vec<char> = Vec::new();
        let mut i: usize = 2;
        while i < c.len()
            invariant
                2 <= i <= c.len(),
                rest@ == c@.subrange(2, i as int),
            decreases c.len() - i,
        {
            rest.push(c[i]);
            i += 1;
            assert(rest@ =~= c@.subrange(2, i as int));
        }
        assert(c@.subrange(2, c.len() as int) =~= c@.skip(2));
        Some(string_from_chars(&rest))
    } else {
        proof {
            if is_home_relative(path@) {
                assert(c@.take(2)[0] == '~' && c@.take(2)[1] == '/');
            }
        }
        None
    }
}

/// The complaint when a path is relative to a home directory that is not
/// known.
pub open spec fn no_home_text() -> Seq<char> {
    "HOME directory not found"@
}

/// Whether `p` is what the configured path `path` expands to: the text as
/// a path, or, after a leading `~/`, the rest joined to some home
/// directory.
pub open spec fn expands_to(path: Seq<char>, p: PathBuf) -> bool {
    if is_home_relative(path) {
        exists|home: PathBuf| p == #[trigger] path_joined(home, path.skip(2))
    } else {
        p == path_of_text(path)
    }
}

/// The path `rest` below the home directory `home`, or the complaint when
/// the home directory is not known.
pub fn under_home(rest: &str, home: Option<PathBuf>) -> (r: Result<PathBuf, ConfigError>)
    ensures
        home is Some <==> r is Ok,
        home matches Some(h) ==> r == Ok::<PathBuf, ConfigError>(path_joined(h, rest@)),
        r matches Err(ConfigError::ParseError(m)) ==> m@ == no_home_text(),
{
    match home {
        Some(h) => Ok(join_path(&h, rest)),
        None => Err(ConfigError::ParseError(String::from_str("HOME directory not found"))),
    }
}

/// A configured path, with a leading `~/` replaced by the home directory.
/// The home directory is looked up only for such a path.
pub fn expand_path(path: &str) -> (r: Result<PathBuf, ConfigError>)
    ensures
        !is_home_relative(path@) ==> r == Ok::<PathBuf, ConfigError>(path_of_text(path@)),
        r matches Ok(p) ==> expands_to(path@, p),
        r matches Err(ConfigError::ParseError(m)) ==> is_home_relative(path@) && m@
            == no_home_text(),
{
    match home_relative(path) {
        Some(rest) => {
            let home = home_dir();
            let ghost known = home;
            let r = under_home(rest.as_str(), home);
            proof {
                if let Some(h) = known {
                    assert(path_joined(h, path@.skip(2)) == path_joined(h, rest@));
                }
            }
            r
        },
        None => Ok(path_from(path)),
    }
}

impl Config {
    /// The configuration from the four paths read from the configuration
    /// file, each expanded; the first that cannot be expanded is the error.
    pub fn from_paths(hosts_file: &str, socket_path: &str, pid_path: &str, db_path: &str) -> (r:
        Result<Config, ConfigError>)
        ensures
            !is_home_relative(hosts_file@) && !is_home_relative(socket_path@) && !is_home_relative(
                pid_path@,
            ) && !is_home_relative(db_path@) ==> r is Ok,
            r matches Ok(c) ==> expands_to(hosts_file@, c.hosts_file) && expands_to(
                socket_path@,
                c.socket_path,
            ) && expands_to(pid_path@, c.pid_path) && expands_to(db_path@, c.db_path),
            r matches Err(ConfigError::ParseError(m)) ==> m@ == no_home_text() && (
            is_home_relative(hosts_file@) || is_home_relative(socket_path@) || is_home_relative(
                pid_path@,
            ) || is_home_relative(db_path@)),
    {
        let hosts_file = match expand_path(hosts_file) {
            Ok(p) => p,
            Err(e) => return Err(e),
        };
        let socket_path = match expand_path(socket_path) {
            Ok(p) => p,
            Err(e) => return Err(e),
        };
        let pid_path = match expand_path(pid_path) {
            Ok(p) => p,
            Err(e) => return Err(e),
        };
        let db_path = match expand_path(db_path) {
            Ok(p) => p,
            Err(e) => return Err(e),
        };
        Ok(Config { hosts_file, socket_path, pid_path, db_path })
    }
}

} // verus!
