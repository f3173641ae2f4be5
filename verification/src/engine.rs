//! The pattern engine: `fancy_regex`, which alone decides what a pattern
//! matches. The library states what it needs of a search without saying how
//! the engine arrives at it.

use crate::text::is_part_of;
use vstd::prelude::*;

verus! {

/// `fancy_regex::Error`, carried through as an opaque value.
#[verifier::external_type_specification]
#[verifier::external_body]
pub struct ExEngineError(fancy_regex::Error);

/// What a search comes to.
pub enum Search {
    /// The engine gave no answer: it rejected the pattern, or gave the search
    /// up at one of its limits.
    Abandoned,
    /// The pattern matches nowhere in the text.
    Absent,
    /// The text of the first match.
    Found(Seq<char>),
}

/// What `fancy_regex` answers when `text` is searched for the first match of
/// `pattern`, with the engine's default options.
pub uninterp spec fn first_match(pattern: Seq<char>, text: Seq<char>) -> Search;

/// A search's answer as the engine hands it over, read as a [`Search`].
pub open spec fn search_view(found: Result<Option<String>, fancy_regex::Error>) -> Search {
    match found {
        Err(_) => Search::Abandoned,
        Ok(None) => Search::Absent,
        Ok(Some(part)) => Search::Found(part@),
    }
}

/// `fancy_regex::Regex::new` on `pattern`, then `fancy_regex::Regex::find` on
/// `text`, with the text of the match copied out (`Match::as_str`).
///
/// Trusted: the answer depends on the pattern and the text alone, so it is
/// `first_match` of the two; and a match is a slice of the searched text. An
/// error of either call is handed on as it is.
#[verifier::external_body]
pub(crate) fn search(pattern: &str, text: &str) -> (found: Result<
    Option<String>,
    fancy_regex::Error,
>)
    ensures
        search_view(found) == first_match(pattern@, text@),
        found matches Ok(Some(part)) ==> is_part_of(part@, text@),
{
    match fancy_regex::Regex::new(pattern)?.find(text)? {
        Some(part) => Ok(Some(part.as_str().to_string())),
        None => Ok(None),
    }
}

} // verus!
