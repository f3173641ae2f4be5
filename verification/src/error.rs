//! The ways in which the hook step can fail.

use vstd::prelude::*;

verus! {

/// A failure of the hook step. Each one ends the step: nothing is retried,
/// and nothing is swallowed.
#[derive(Debug, Clone, PartialEq, Eq)]
pub enum HookError {
    /// The configuration file could not be read. `error` is the operating
    /// system's report.
    ConfigUnreadable { path: String, error: String },
    /// The isolated snippet does not read as a hook declaration. `error` is
    /// the reader's report, `snippet` the text it was given.
    MalformedHookSnippet { error: String, snippet: String },
    /// The operating system could not start the command. `hook` is the
    /// command as one line, `error` the operating system's report.
    HookLaunchFailed { hook: String, error: String },
    /// The command ran and did not exit with status zero. `status` is its
    /// exit code, or `None` where it ended without one.
    HookExecutionFailed { hook: String, status: Option<i32> },
}

/// A [`HookError`] over character sequences.
pub enum HookErrorView {
    ConfigUnreadable { path: Seq<char>, error: Seq<char> },
    MalformedHookSnippet { error: Seq<char>, snippet: Seq<char> },
    HookLaunchFailed { hook: Seq<char>, error: Seq<char> },
    HookExecutionFailed { hook: Seq<char>, status: Option<i32> },
}

impl View for HookError {
    type V = HookErrorView;

    open spec fn view(&self) -> HookErrorView {
        match self {
            HookError::ConfigUnreadable { path, error } => HookErrorView::ConfigUnreadable {
                path: path@,
                error: error@,
            },
            HookError::MalformedHookSnippet { error, snippet } => {
                HookErrorView::MalformedHookSnippet { error: error@, snippet: snippet@ }
            },
            HookError::HookLaunchFailed { hook, error } => HookErrorView::HookLaunchFailed {
                hook: hook@,
                error: error@,
            },
            HookError::HookExecutionFailed { hook, status } => {
                HookErrorView::HookExecutionFailed { hook: hook@, status: *status }
            },
        }
    }
}

/// The view of a step's result.
pub open spec fn result_view(result: Result<(), HookError>) -> Result<(), HookErrorView> {
    match result {
        Ok(_) => Ok(()),
        Err(error) => Err(error@),
    }
}

} // verus!
