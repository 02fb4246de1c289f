use vstd::prelude::*;
use crate::git::{code_held, text_held};

verus! {

/// What git reported when an operation failed.
#[derive(Debug)]
pub struct GitFailure {
    pub code: git2::ErrorCode,
    pub message: String,
}

/// The operation on a repository that failed.
#[derive(Debug, Clone, Copy, PartialEq, Eq, Structural)]
pub enum Step {
    /// Opening the repository found on disk.
    Open,
    /// Cloning the repository from its remote.
    Clone,
    /// Reading the repository's submodule table.
    ListSubmodules,
    /// Initializing, fetching or checking out one of its submodules, or
    /// opening it to reach the submodules below it.
    UpdateSubmodule,
}

/// Why the working copies could not be brought up, or the child not found in
/// the parent.
#[derive(Debug)]
pub enum SyncError {
    /// The directory `path` of the repository `name` could not be made ready.
    Directory { name: String, path: String, message: String },
    /// `step` failed on the repository `name`.
    Repository { name: String, step: Step, cause: GitFailure },
    /// The parent has no submodule at `path`.
    SubmoduleNotFound { path: String },
}

/// A failed open says that nothing is there to open, rather than that what is
/// there cannot be used.
pub open spec fn is_missing(failure: GitFailure) -> bool {
    failure.code == git2::ErrorCode::NotFound
}

/// `error` reports a failure on the repository `name`: of its directory, or of
/// some step on it.
pub open spec fn failed_on(error: SyncError, name: Seq<char>) -> bool {
    match error {
        SyncError::Directory { name: named, .. } => named@ == name,
        SyncError::Repository { name: named, .. } => named@ == name,
        SyncError::SubmoduleNotFound { .. } => false,
    }
}

/// `error` reports a failure on `name` while its submodules were brought up.
pub open spec fn failed_on_submodules(error: SyncError, name: Seq<char>) -> bool {
    error matches SyncError::Repository { name: named, step, .. } && named@ == name && (step
        == Step::ListSubmodules || step == Step::UpdateSubmodule)
}

/// `error` reports a failure on `name` at any step after the attempt to open
/// it.
pub open spec fn failed_after_open(error: SyncError, name: Seq<char>) -> bool {
    error matches SyncError::Repository { name: named, step, .. } && named@ == name && step
        != Step::Open
}

/// `error` reports that `step` failed on the repository `name`, for the reason
/// `cause`.
pub open spec fn failed_at(error: SyncError, name: Seq<char>, step: Step, cause: GitFailure) -> bool {
    error matches SyncError::Repository { name: named, step: at, cause: given } && named@ == name
        && at == step && given == cause
}

/// `error` reports that `name` is on disk and could not be opened, for the
/// reason `cause`.
pub open spec fn failed_to_open(error: SyncError, name: Seq<char>, cause: GitFailure) -> bool {
    failed_at(error, name, Step::Open, cause)
}

/// `error` reports that the directory `path` of the repository `name` could
/// not be made ready, with `message` as the reason.
pub open spec fn failed_to_prepare(
    error: SyncError,
    name: Seq<char>,
    path: Seq<char>,
    message: Seq<char>,
) -> bool {
    error matches SyncError::Directory { name: named, path: at, message: said } && named@ == name
        && at@ == path && said@ == message
}

/// The words that introduce a failure at `step`.
pub open spec fn step_text(step: Step) -> Seq<char> {
    match step {
        Step::Open => "Could not open repository `"@,
        Step::Clone => "Could not clone repository `"@,
        Step::ListSubmodules => "Could not list the submodules of repository `"@,
        Step::UpdateSubmodule => "Could not update a submodule of repository `"@,
    }
}

/// The text that `SyncError::message` gives for `error`.
pub open spec fn message_of(error: SyncError) -> Seq<char> {
    match error {
        SyncError::Directory { name, path, message } => "Could not prepare directory `"@ + path@
            + "` for repository `"@ + name@ + "`: "@ + message@,
        SyncError::Repository { name, step, cause } => step_text(step) + name@ + "`: "@
            + cause.message@,
        SyncError::SubmoduleNotFound { path } =>
            "Could not find submodule in parent repo at path `"@ + path@ + "`"@,
    }
}

/// Reads the code and the message out of a git2 error.
pub fn describe(error: &git2::Error) -> (failure: GitFailure)
    ensures
        failure.code == code_held(*error),
        failure.message@ == text_held(*error),
{
    GitFailure { code: error.code(), message: String::from_str(error.message()) }
}

/// The outcome of a call into git with its error, if any, read into plain
/// values: what succeeded is handed on as it is, and what failed keeps the
/// code and the message of git's error.
pub fn attempted<T>(outcome: Result<T, git2::Error>) -> (plain: Result<T, GitFailure>)
    ensures
        match outcome {
            Ok(value) => plain == Ok::<T, GitFailure>(value),
            Err(error) => plain matches Err(failure) && failure.code == code_held(error)
                && failure.message@ == text_held(error),
        },
{
    match outcome {
        Ok(value) => Ok(value),
        Err(error) => Err(describe(&error)),
    }
}

/// The outcome of `step` on the repository `name`: what the step produced, or
/// the failure of that step on that repository with what git reported.
pub fn at_step<T>(outcome: Result<T, GitFailure>, name: &str, step: Step) -> (checked: Result<
    T,
    SyncError,
>)
    ensures
        match outcome {
            Ok(value) => checked == Ok::<T, SyncError>(value),
            Err(cause) => checked matches Err(error) && failed_at(error, name@, step, cause),
        },
{
    match outcome {
        Ok(value) => Ok(value),
        Err(cause) => Err(SyncError::Repository { name: String::from_str(name), step, cause }),
    }
}

impl GitFailure {
    /// Whether this failure says that nothing was found.
    pub fn reports_missing(&self) -> (missing: bool)
        ensures
            missing == is_missing(*self),
    {
        match self.code {
            git2::ErrorCode::NotFound => true,
            _ => false,
        }
    }
}

impl SyncError {
    /// One line for a person to read: what failed, on what, and why.
    pub fn message(&self) -> (text: String)
        ensures
            text@ == message_of(*self),
    {
        match self {
            SyncError::Directory { name, path, message } => {
                let mut text = String::from_str("Could not prepare directory `");
                text.append(path.as_str());
                text.append("` for repository `");
                text.append(name.as_str());
                text.append("`: ");
                text.append(message.as_str());
                text
            },
            SyncError::Repository { name, step, cause } => {
                let opening: &str = match step {
                    Step::Open => "Could not open repository `",
                    Step::Clone => "Could not clone repository `",
                    Step::ListSubmodules => "Could not list the submodules of repository `",
                    Step::UpdateSubmodule => "Could not update a submodule of repository `",
                };
                let mut text = String::from_str(opening);
                text.append(name.as_str());
                text.append("`: ");
                text.append(cause.message.as_str());
                text
            },
            SyncError::SubmoduleNotFound { path } => {
                let mut text = String::from_str("Could not find submodule in parent repo at path `");
                text.append(path.as_str());
                text.append("`");
                text
            },
        }
    }
}

} // verus!
