//! The hook step as a state machine.
//!
//! The step alternates between the caller's work and the library's
//! decisions. [`run_pre_render_hook`] begins it for a configuration file,
//! [`run_hook`] for a command that is already known. The caller reads the
//! file, asks the YAML reader about a fragment, and runs a process; each
//! time it reports what came of it as an [`Event`], and [`advance`] answers
//! with the next [`RunnerState`], which says what is to be done next:
//!
//! ```text
//! Idle --Content--> Parsing --Reading--> Awaiting --Outcome--> Done
//!   |                  |                    (a process is running)
//!   |                  +--> Done     (rejected, or no command)
//!   +--> Done               (unreadable file, or no declaration)
//! ```
//!
//! Every transition moves forward, and `Done` and `Broken` are never left.
//! A state holds all that is about to be used, the fragment or the command,
//! so a caller that wants a trace of the step writes it from the states.

use crate::error::{result_view, HookError, HookErrorView};
use crate::extract::{extract_fragment, extracted, mentions_key};
use crate::paths::{parent_directory, parent_of, shown, shown_as};
use crate::runner::{
    conclude, concluded, launch_for, launched, Launch, LaunchView, ProcessOutcome,
    ProcessOutcomeView,
};
use crate::snippet::{interpret, interpreted, reading_view, HookConfig};
use crate::text::joined;
use std::path::{Path, PathBuf};
use vstd::prelude::*;

verus! {

/// A broken contract: a state of affairs that no caller should bring about.
/// It is no error of the step, and the caller has nothing to recover.
#[derive(Debug, Clone, Copy, PartialEq, Eq)]
pub enum Violation {
    /// The pattern engine gave no answer for the document.
    EngineSilent,
    /// A command is to run, and the configuration file's path has no parent
    /// directory to run it in.
    NoParentDirectory,
    /// The event is none that the state waits for.
    UnexpectedEvent,
}

/// Where the step stands, and with it what the caller is to do next.
#[derive(Debug, PartialEq, Eq)]
pub enum RunnerState {
    /// Nothing has happened yet: read the configuration file.
    Idle { config_file: String, working_dir: Option<PathBuf> },
    /// A declaration was isolated: ask the reader what `fragment` declares.
    Parsing { fragment: String, working_dir: Option<PathBuf> },
    /// A command is to run: start `launch` and wait for it to end.
    Awaiting { launch: Launch },
    /// The step is over, with this result.
    Done { result: Result<(), HookError> },
    /// The step cannot go on.
    Broken { violation: Violation },
}

/// A [`RunnerState`] over character sequences.
pub enum RunnerStateView {
    Idle { config_file: Seq<char>, working_dir: Option<PathBuf> },
    Parsing { fragment: Seq<char>, working_dir: Option<PathBuf> },
    Awaiting { launch: LaunchView },
    Done { result: Result<(), HookErrorView> },
    Broken { violation: Violation },
}

impl View for RunnerState {
    type V = RunnerStateView;

    open spec fn view(&self) -> RunnerStateView {
        match self {
            RunnerState::Idle { config_file, working_dir } => RunnerStateView::Idle {
                config_file: config_file@,
                working_dir: *working_dir,
            },
            RunnerState::Parsing { fragment, working_dir } => RunnerStateView::Parsing {
                fragment: fragment@,
                working_dir: *working_dir,
            },
            RunnerState::Awaiting { launch } => RunnerStateView::Awaiting { launch: launch@ },
            RunnerState::Done { result } => RunnerStateView::Done { result: result_view(*result) },
            RunnerState::Broken { violation } => RunnerStateView::Broken {
                violation: *violation,
            },
        }
    }
}

/// What the caller reports.
#[derive(Debug, PartialEq, Eq)]
pub enum Event {
    /// The configuration file was read; `text` is what it holds.
    Content { text: String },
    /// The configuration file could not be read; `error` is the operating
    /// system's report.
    Unreadable { error: String },
    /// The reader's answer on the fragment: the declaration, or its report
    /// of why there is none.
    Reading { reading: Result<HookConfig, String> },
    /// How the attempt to run the process went.
    Outcome { outcome: ProcessOutcome },
}

/// An [`Event`] over character sequences.
pub enum EventView {
    Content { text: Seq<char> },
    Unreadable { error: Seq<char> },
    Reading { reading: Result<Seq<Seq<char>>, Seq<char>> },
    Outcome { outcome: ProcessOutcomeView },
}

impl View for Event {
    type V = EventView;

    open spec fn view(&self) -> EventView {
        match self {
            Event::Content { text } => EventView::Content { text: text@ },
            Event::Unreadable { error } => EventView::Unreadable { error: error@ },
            Event::Reading { reading } => EventView::Reading { reading: reading_view(*reading) },
            Event::Outcome { outcome } => EventView::Outcome { outcome: outcome@ },
        }
    }
}

/// The step is over or cannot go on.
pub open spec fn is_final(state: RunnerStateView) -> bool {
    state is Done || state is Broken
}

/// How far the step has come.
pub open spec fn progress(state: RunnerStateView) -> nat {
    match state {
        RunnerStateView::Idle { .. } => 0,
        RunnerStateView::Parsing { .. } => 1,
        RunnerStateView::Awaiting { .. } => 2,
        RunnerStateView::Done { .. } => 3,
        RunnerStateView::Broken { .. } => 3,
    }
}

/// The state once the command is known. No tokens: the step is over, in
/// success, and the directory does not matter. Otherwise the command runs in
/// `working_dir`, which must be there.
pub open spec fn settled(tokens: Seq<Seq<char>>, working_dir: Option<PathBuf>) -> RunnerStateView {
    if tokens.len() == 0 {
        RunnerStateView::Done { result: Ok(()) }
    } else {
        match working_dir {
            Some(directory) => RunnerStateView::Awaiting { launch: launched(tokens, directory) },
            None => RunnerStateView::Broken { violation: Violation::NoParentDirectory },
        }
    }
}

/// The state that follows `state` on `event`.
pub open spec fn after(state: RunnerStateView, event: EventView) -> RunnerStateView {
    match state {
        RunnerStateView::Idle { config_file, working_dir } => match event {
            EventView::Unreadable { error } => RunnerStateView::Done {
                result: Err(HookErrorView::ConfigUnreadable { path: config_file, error }),
            },
            EventView::Content { text } => match extracted(text) {
                None => RunnerStateView::Broken { violation: Violation::EngineSilent },
                Some(fragment) => if fragment.len() == 0 {
                    settled(Seq::empty(), working_dir)
                } else {
                    RunnerStateView::Parsing { fragment, working_dir }
                },
            },
            _ => RunnerStateView::Broken { violation: Violation::UnexpectedEvent },
        },
        RunnerStateView::Parsing { fragment, working_dir } => match event {
            EventView::Reading { reading } => match interpreted(fragment, reading) {
                Ok(tokens) => settled(tokens, working_dir),
                Err(error) => RunnerStateView::Done { result: Err(error) },
            },
            _ => RunnerStateView::Broken { violation: Violation::UnexpectedEvent },
        },
        RunnerStateView::Awaiting { launch } => match event {
            EventView::Outcome { outcome } => RunnerStateView::Done {
                result: concluded(launch.command_line, outcome),
            },
            _ => RunnerStateView::Broken { violation: Violation::UnexpectedEvent },
        },
        RunnerStateView::Done { .. } => state,
        RunnerStateView::Broken { .. } => state,
    }
}

/// The state once the command `cmd` is known, given the directory found for
/// it: the parent directory of the configuration file, or `None` where the
/// file's path has none.
pub fn settle(cmd: &Vec<String>, working_dir: Option<PathBuf>) -> (state: RunnerState)
    ensures
        state@ == settled(cmd.deep_view(), working_dir),
{
    if cmd.len() == 0 {
        return RunnerState::Done { result: Ok(()) };
    }
    match working_dir {
        Some(directory) => RunnerState::Awaiting { launch: launch_for(cmd, directory) },
        None => RunnerState::Broken { violation: Violation::NoParentDirectory },
    }
}

/// The state that waits for the configuration file to be read. `config_file`
/// is the file's path as it is shown in a diagnostic, `working_dir` the
/// directory in which a command will run.
pub fn idle(config_file: String, working_dir: Option<PathBuf>) -> (state: RunnerState)
    ensures
        state@ == (RunnerStateView::Idle { config_file: config_file@, working_dir }),
{
    RunnerState::Idle { config_file, working_dir }
}

/// Begins the hook step for the configuration file at `file`: the state that
/// waits for the file to be read. The command, if the file declares one,
/// will run in the parent directory of `file`.
pub fn run_pre_render_hook(file: &Path) -> (state: RunnerState)
    ensures
        state@ == (RunnerStateView::Idle {
            config_file: shown_as(file),
            working_dir: parent_of(file),
        }),
{
    idle(shown(file), parent_directory(file))
}

/// Begins the hook step with a command that is already known: `cmd`, of the
/// configuration file at `config_path`.
///
/// An empty command is no hook: the step is over, in success, and the path
/// is not looked at. Any other command runs in the parent directory of
/// `config_path`, which the path must have: a configuration file lies in
/// some directory. For a path of which that is not known, see
/// [`run_hook_checked`].
pub fn run_hook(cmd: &Vec<String>, config_path: &Path) -> (state: RunnerState)
    requires
        cmd.len() > 0 ==> parent_of(config_path) is Some,
    ensures
        state@ == settled(cmd.deep_view(), parent_of(config_path)),
        !(state@ is Broken),
{
    if cmd.len() == 0 {
        return RunnerState::Done { result: Ok(()) };
    }
    settle(cmd, parent_directory(config_path))
}

/// Begins the hook step with a command that is already known, for any path.
///
/// Where the command is not empty and `config_path` has no parent directory,
/// the state is `Broken`, with [`Violation::NoParentDirectory`], and nothing
/// is prepared to run; on every other input the state is that of
/// [`run_hook`].
pub fn run_hook_checked(cmd: &Vec<String>, config_path: &Path) -> (state: RunnerState)
    ensures
        state@ == settled(cmd.deep_view(), parent_of(config_path)),
        state@ is Broken <==> cmd.len() > 0 && parent_of(config_path) is None,
{
    if cmd.len() > 0 && parent_directory(config_path).is_none() {
        return RunnerState::Broken { violation: Violation::NoParentDirectory };
    }
    run_hook(cmd, config_path)
}

/// The state that follows `state` on `event`.
///
/// A state that is over stays as it is. An event that the state does not
/// wait for breaks the step.
pub fn advance(state: RunnerState, event: Event) -> (next: RunnerState)
    ensures
        next@ == after(state@, event@),
{
    match state {
        RunnerState::Idle { config_file, working_dir } => match event {
            Event::Unreadable { error } => RunnerState::Done {
                result: Err(HookError::ConfigUnreadable { path: config_file, error }),
            },
            Event::Content { text } => match extract_fragment(text.as_str()) {
                None => RunnerState::Broken { violation: Violation::EngineSilent },
                Some(fragment) => {
                    if fragment.as_str().is_empty() {
                        RunnerState::Done { result: Ok(()) }
                    } else {
                        RunnerState::Parsing { fragment, working_dir }
                    }
                },
            },
            _ => RunnerState::Broken { violation: Violation::UnexpectedEvent },
        },
        RunnerState::Parsing { fragment, working_dir } => match event {
            Event::Reading { reading } => match interpret(fragment, reading) {
                Ok(tokens) => settle(&tokens, working_dir),
                Err(error) => RunnerState::Done { result: Err(error) },
            },
            _ => RunnerState::Broken { violation: Violation::UnexpectedEvent },
        },
        RunnerState::Awaiting { launch } => match event {
            Event::Outcome { outcome } => RunnerState::Done {
                result: conclude(launch.command_line, outcome),
            },
            _ => RunnerState::Broken { violation: Violation::UnexpectedEvent },
        },
        RunnerState::Done { result } => RunnerState::Done { result },
        RunnerState::Broken { violation } => RunnerState::Broken { violation },
    }
}

/// A document that does not hold the key declares no hook: the step is over
/// at once, in success, and nothing is read or run.
pub proof fn lemma_no_key_is_success(
    config_file: Seq<char>,
    working_dir: Option<PathBuf>,
    document: Seq<char>,
)
    requires
        !mentions_key(document),
    ensures
        extracted(document) == Some(Seq::<char>::empty()),
        after(
            RunnerStateView::Idle { config_file, working_dir },
            EventView::Content { text: document },
        ) == (RunnerStateView::Done { result: Ok(()) }),
{
}

/// The step that begins for a file is that file's: where the file cannot be
/// read, the error names it as it is shown, and a command that it declares
/// is settled in its parent directory.
pub proof fn lemma_step_is_the_files(
    file: &Path,
    error: Seq<char>,
    fragment: Seq<char>,
    tokens: Seq<Seq<char>>,
)
    ensures
        after(
            RunnerStateView::Idle { config_file: shown_as(file), working_dir: parent_of(file) },
            EventView::Unreadable { error },
        ) == (RunnerStateView::Done {
            result: Err(HookErrorView::ConfigUnreadable { path: shown_as(file), error }),
        }),
        after(
            RunnerStateView::Parsing { fragment, working_dir: parent_of(file) },
            EventView::Reading { reading: Ok(tokens) },
        ) == settled(tokens, parent_of(file)),
{
}

/// A fragment that the reader rejects ends the step with
/// `MalformedHookSnippet`, and the error holds the fragment as it was.
pub proof fn lemma_rejected_fragment_is_carried(
    fragment: Seq<char>,
    working_dir: Option<PathBuf>,
    report: Seq<char>,
)
    ensures
        after(
            RunnerStateView::Parsing { fragment, working_dir },
            EventView::Reading { reading: Err(report) },
        ) == (RunnerStateView::Done {
            result: Err(HookErrorView::MalformedHookSnippet { error: report, snippet: fragment }),
        }),
{
}

/// A command that the operating system cannot start ends the step with
/// `HookLaunchFailed`, and the error names the command as its tokens joined
/// by single spaces.
pub proof fn lemma_launch_failure_names_command(
    tokens: Seq<Seq<char>>,
    working_dir: PathBuf,
    error: Seq<char>,
)
    requires
        tokens.len() > 0,
    ensures
        settled(tokens, Some(working_dir)) == (RunnerStateView::Awaiting {
            launch: launched(tokens, working_dir),
        }),
        after(
            settled(tokens, Some(working_dir)),
            EventView::Outcome { outcome: ProcessOutcomeView::NotStarted { error } },
        ) == (RunnerStateView::Done {
            result: Err(HookErrorView::HookLaunchFailed { hook: joined(tokens), error }),
        }),
{
}

/// A command that ends with anything but exit code zero ends the step with
/// `HookExecutionFailed`, and the error holds that status; exit code zero
/// ends the step in success.
pub proof fn lemma_exit_status_decides(
    tokens: Seq<Seq<char>>,
    working_dir: PathBuf,
    code: Option<i32>,
)
    requires
        tokens.len() > 0,
    ensures
        after(
            settled(tokens, Some(working_dir)),
            EventView::Outcome { outcome: ProcessOutcomeView::Exited { code } },
        ) == (RunnerStateView::Done {
            result: if code == Some(0i32) {
                Ok(())
            } else {
                Err(HookErrorView::HookExecutionFailed { hook: joined(tokens), status: code })
            },
        }),
{
}

/// Every transition out of a state that is not over moves forward, and a
/// state that is over is never left: the step has no loop and no re-entry.
pub proof fn lemma_steps_go_forward(state: RunnerStateView, event: EventView)
    ensures
        is_final(state) ==> after(state, event) == state,
        !is_final(state) ==> progress(after(state, event)) > progress(state),
        progress(state) <= 3,
        progress(state) == 3 <==> is_final(state),
{
}

/// Whatever the state and whatever is reported, the step is over after three
/// events.
pub proof fn lemma_three_events_suffice(
    state: RunnerStateView,
    first: EventView,
    second: EventView,
    third: EventView,
)
    ensures
        is_final(after(after(after(state, first), second), third)),
{
    lemma_steps_go_forward(state, first);
    lemma_steps_go_forward(after(state, first), second);
    lemma_steps_go_forward(after(after(state, first), second), third);
}

} // verus!
