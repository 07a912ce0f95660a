//! git-x: opinionated git subcommands. This crate holds their logic: what
//! each command asks git for, how it reads git's answers, what it decides and
//! what it reports. Running git and talking to the terminal happen outside.
use vstd::prelude::*;

pub mod base;
pub mod domain;
pub mod adapters;
pub mod contributors;
pub mod technical_debt;
pub mod commands;
pub mod command;
pub mod bisect;
pub mod switch_recent;
pub mod sync;
pub mod upstream;
pub mod clean_branches;
pub mod prune_branches;
pub mod common;
pub mod color_graph;
pub mod test_utils;
pub mod what;
pub mod summary;
pub mod health;
pub mod graph;
pub mod undo;
pub mod since;
pub mod info;
pub mod new_branch;
pub mod rename_branch;
pub mod fixup;

verus! {

#[verifier::external_type_specification]
#[verifier::external_body]
pub struct ExIoError(std::io::Error);

/// Common error type for git-x operations
#[derive(Debug)]
pub enum GitXError {
    GitCommand(String),
    Io(std::io::Error),
    Parse(String),
    Dialog(String),
    Other(String),
}

/// The result type of git-x operations.
pub type Result<T> = core::result::Result<T, GitXError>;

/// `r` is a git-command error whose message is `msg`.
pub open spec fn is_git_error<T>(r: Result<T>, msg: Seq<char>) -> bool {
    r matches Err(GitXError::GitCommand(m)) && m@ == msg
}

/// `r` is a parse error whose message is `msg`.
pub open spec fn is_parse_error<T>(r: Result<T>, msg: Seq<char>) -> bool {
    r matches Err(GitXError::Parse(m)) && m@ == msg
}

/// `t` is how `e` is shown: its kind's prefix and its message (an `Other`
/// failure has no prefix); for an I/O error the system's description, which
/// is not stated.
pub open spec fn shows(e: GitXError, t: Seq<char>) -> bool {
    match e {
        GitXError::GitCommand(m) => t == "Git command failed: "@ + m@,
        GitXError::Parse(m) => t == "Parse error: "@ + m@,
        GitXError::Dialog(m) => t == "Dialog error: "@ + m@,
        GitXError::Io(_) => exists|x: Seq<char>| t == "IO error: "@ + x,
        GitXError::Other(m) => t == m@,
    }
}

/// The text of an I/O error (`Display` of `std::io::Error`).
/// Nothing is stated of it: for an operating-system error it is the
/// system's own description of the error code.
#[verifier::external_body]
fn io_error_text(e: &std::io::Error) -> String {
    e.to_string()
}

impl GitXError {
    /// The message shown for this error (what `Display` gives in the CLI).
    pub fn to_string(&self) -> (r: String)
        ensures
            self matches GitXError::GitCommand(m) ==> r@ == "Git command failed: "@ + m@,
            self matches GitXError::Parse(m) ==> r@ == "Parse error: "@ + m@,
            self matches GitXError::Dialog(m) ==> r@ == "Dialog error: "@ + m@,
            self matches GitXError::Io(_) ==> exists|t: Seq<char>| r@ == "IO error: "@ + t,
            self matches GitXError::Other(m) ==> r@ == m@,
            shows(*self, r@),
    {
        match self {
            GitXError::GitCommand(m) => {
                let mut r = String::from_str("Git command failed: ");
                r.append(m.as_str());
                r
            },
            GitXError::Io(e) => {
                let t = io_error_text(e);
                let mut r = String::from_str("IO error: ");
                r.append(t.as_str());
                r
            },
            GitXError::Parse(m) => {
                let mut r = String::from_str("Parse error: ");
                r.append(m.as_str());
                r
            },
            GitXError::Dialog(m) => {
                let mut r = String::from_str("Dialog error: ");
                r.append(m.as_str());
                r
            },
            GitXError::Other(m) => crate::base::text::owned(m.as_str()),
        }
    }
}

impl From<std::io::Error> for GitXError {
    fn from(err: std::io::Error) -> (r: Self) {
        GitXError::Io(err)
    }
}

impl vstd::std_specs::convert::FromSpecImpl<std::io::Error> for GitXError {
    open spec fn obeys_from_spec() -> bool {
        true
    }

    open spec fn from_spec(v: std::io::Error) -> GitXError {
        GitXError::Io(v)
    }
}

} // verus!
