//! The parse step: what the YAML reader made of an isolated fragment, taken
//! as the hook's command.
//!
//! The library does not read YAML. The caller hands the fragment to the
//! reader, asking for a [`HookConfig`], and hands back the answer. Reading is
//! strict: a rejected fragment is an error that carries the fragment, and no
//! partial reading is ever used.

use crate::error::{HookError, HookErrorView};
use vstd::prelude::*;

verus! {

/// A hook declaration as the reader delivers it: a mapping whose one
/// recognised entry, `pre_render_hook`, is the list of command tokens. The
/// first token is the executable, the rest are its arguments; no tokens
/// means that no hook is configured.
#[derive(Debug, Clone, PartialEq, Eq)]
pub struct HookConfig {
    pub pre_render_hook: Vec<String>,
}

impl View for HookConfig {
    type V = Seq<Seq<char>>;

    open spec fn view(&self) -> Seq<Seq<char>> {
        self.pre_render_hook.deep_view()
    }
}

/// The command that a reading of `fragment` declares: the tokens of an
/// accepted reading; for a rejected one, an error with the reader's report
/// and the fragment.
pub open spec fn interpreted(fragment: Seq<char>, reading: Result<Seq<Seq<char>>, Seq<char>>) -> Result<
    Seq<Seq<char>>,
    HookErrorView,
> {
    match reading {
        Ok(tokens) => Ok(tokens),
        Err(report) => Err(
            HookErrorView::MalformedHookSnippet { error: report, snippet: fragment },
        ),
    }
}

/// The view of a reading.
pub open spec fn reading_view(reading: Result<HookConfig, String>) -> Result<
    Seq<Seq<char>>,
    Seq<char>,
> {
    match reading {
        Ok(config) => Ok(config@),
        Err(report) => Err(report@),
    }
}

/// The view of a command or the error in its place.
pub open spec fn command_view(command: Result<Vec<String>, HookError>) -> Result<
    Seq<Seq<char>>,
    HookErrorView,
> {
    match command {
        Ok(tokens) => Ok(tokens.deep_view()),
        Err(error) => Err(error@),
    }
}

/// The command that the reader's answer on `fragment` declares.
pub fn interpret(fragment: String, reading: Result<HookConfig, String>) -> (command: Result<
    Vec<String>,
    HookError,
>)
    ensures
        command_view(command) == interpreted(fragment@, reading_view(reading)),
{
    match reading {
        Ok(config) => Ok(config.pre_render_hook),
        Err(report) => Err(HookError::MalformedHookSnippet { error: report, snippet: fragment }),
    }
}

} // verus!
