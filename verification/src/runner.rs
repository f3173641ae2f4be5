//! The hook runner's two decisions: which process to start for a command,
//! and what the way it ended means.

use crate::error::{result_view, HookError, HookErrorView};
use crate::text::{join, joined};
use std::path::PathBuf;
use vstd::prelude::*;

verus! {

/// A process to start: the executable, its arguments, the directory to run
/// it in, and the command as one line for diagnostics. Its output and error
/// streams are the caller's own.
#[derive(Debug, PartialEq, Eq)]
pub struct Launch {
    pub program: String,
    pub arguments: Vec<String>,
    pub working_dir: PathBuf,
    pub command_line: String,
}

/// A [`Launch`] over character sequences.
pub struct LaunchView {
    pub program: Seq<char>,
    pub arguments: Seq<Seq<char>>,
    pub working_dir: PathBuf,
    pub command_line: Seq<char>,
}

impl View for Launch {
    type V = LaunchView;

    open spec fn view(&self) -> LaunchView {
        LaunchView {
            program: self.program@,
            arguments: self.arguments.deep_view(),
            working_dir: self.working_dir,
            command_line: self.command_line@,
        }
    }
}

impl LaunchView {
    /// The command line is the executable and its arguments joined by single
    /// spaces: what a diagnostic shows is what is run.
    pub open spec fn well_formed(self) -> bool {
        self.command_line == joined(seq![self.program] + self.arguments)
    }
}

/// How the attempt to run a process went.
#[derive(Debug, Clone, PartialEq, Eq)]
pub enum ProcessOutcome {
    /// The operating system did not start the process; `error` is its report.
    NotStarted { error: String },
    /// The process ran to its end. `code` is its exit code, or `None` where
    /// it ended without one (on Unix, when a signal ended it).
    Exited { code: Option<i32> },
}

/// A [`ProcessOutcome`] over character sequences.
pub enum ProcessOutcomeView {
    NotStarted { error: Seq<char> },
    Exited { code: Option<i32> },
}

impl View for ProcessOutcome {
    type V = ProcessOutcomeView;

    open spec fn view(&self) -> ProcessOutcomeView {
        match self {
            ProcessOutcome::NotStarted { error } => ProcessOutcomeView::NotStarted {
                error: error@,
            },
            ProcessOutcome::Exited { code } => ProcessOutcomeView::Exited { code: *code },
        }
    }
}

/// The process for the command `tokens` in `working_dir`: the first token is
/// the executable, the rest are its arguments, and the command line is all
/// of them joined by single spaces.
pub open spec fn launched(tokens: Seq<Seq<char>>, working_dir: PathBuf) -> LaunchView
    recommends
        tokens.len() > 0,
{
    LaunchView {
        program: tokens[0],
        arguments: tokens.skip(1),
        working_dir,
        command_line: joined(tokens),
    }
}

/// What an outcome means for the command written as `command_line`: an exit
/// with code zero is success, and nothing else is.
pub open spec fn concluded(command_line: Seq<char>, outcome: ProcessOutcomeView) -> Result<
    (),
    HookErrorView,
> {
    match outcome {
        ProcessOutcomeView::NotStarted { error } => Err(
            HookErrorView::HookLaunchFailed { hook: command_line, error },
        ),
        ProcessOutcomeView::Exited { code } => if code == Some(0i32) {
            Ok(())
        } else {
            Err(HookErrorView::HookExecutionFailed { hook: command_line, status: code })
        },
    }
}

/// Copies of the tokens after the first.
fn arguments_of(cmd: &Vec<String>) -> (arguments: Vec<String>)
    requires
        cmd.len() > 0,
    ensures
        arguments.deep_view() == cmd.deep_view().skip(1),
{
    let mut arguments: Vec<String> = Vec::new();
    let mut i: usize = 1;
    while i < cmd.len()
        invariant
            1 <= i <= cmd.len(),
            arguments.len() == i - 1,
            forall|j: int| 0 <= j < arguments.len() ==> arguments[j]@ == cmd[j + 1]@,
        decreases cmd.len() - i,
    {
        arguments.push(cmd[i].clone());
        i += 1;
    }
    assert(arguments.deep_view() =~= cmd.deep_view().skip(1));
    arguments
}

/// The process that `launched` gives for a command is well-formed.
pub proof fn lemma_launched_is_well_formed(tokens: Seq<Seq<char>>, working_dir: PathBuf)
    requires
        tokens.len() > 0,
    ensures
        launched(tokens, working_dir).well_formed(),
{
    assert(seq![tokens[0]] + tokens.skip(1) =~= tokens);
}

/// The process to start for the command `cmd` in `working_dir`.
pub fn launch_for(cmd: &Vec<String>, working_dir: PathBuf) -> (launch: Launch)
    requires
        cmd.len() > 0,
    ensures
        launch@ == launched(cmd.deep_view(), working_dir),
        launch@.well_formed(),
{
    proof {
        lemma_launched_is_well_formed(cmd.deep_view(), working_dir);
    }
    Launch {
        program: cmd[0].clone(),
        arguments: arguments_of(cmd),
        working_dir,
        command_line: join(cmd),
    }
}

/// The result of the step, once the process for the command written as
/// `command_line` has been tried.
pub fn conclude(command_line: String, outcome: ProcessOutcome) -> (result: Result<(), HookError>)
    ensures
        result_view(result) == concluded(command_line@, outcome@),
{
    match outcome {
        ProcessOutcome::NotStarted { error } => Err(
            HookError::HookLaunchFailed { hook: command_line, error },
        ),
        ProcessOutcome::Exited { code } => {
            match code {
                Some(0) => Ok(()),
                _ => Err(HookError::HookExecutionFailed { hook: command_line, status: code }),
            }
        },
    }
}

} // verus!
