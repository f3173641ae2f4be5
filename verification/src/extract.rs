//! The fragment extractor: isolates the hook declaration inside a document
//! that is otherwise not parsed.
//!
//! The declaration is the first match of [`HOOK_PATTERN`] in the document: a
//! line that holds the key `pre_render_hook:` after nothing but blanks
//! (spaces and tabs), and the lines after it for as long as each starts with
//! those same blanks followed by a dash or one more blank, and holds
//! something more. A line break is no blank: an empty line is never part of
//! the indentation, and it ends the declaration. The match is one search by
//! the pattern engine over the whole document.

use crate::engine::{first_match, search, search_view, Search};
use crate::text::{chars_of, contains, is_part_of, lemma_empty_is_part};
use vstd::prelude::*;

verus! {

/// The key that opens a hook declaration.
pub const HOOK_KEY: &'static str = "pre_render_hook:";

/// The pattern of a hook declaration, in the syntax of the pattern engine:
/// the key after nothing but blanks on its line, the rest of that line, and
/// every following line that starts with the same blanks and then a dash or
/// one more blank, and holds something more.
pub const HOOK_PATTERN: &'static str = r"(?m)^([ \t]*)pre_render_hook:.*(\n\1[ \t\-].+$)*";

/// The document holds the key somewhere.
pub open spec fn mentions_key(document: Seq<char>) -> bool {
    is_part_of(HOOK_KEY@, document)
}

/// The fragment that a search's answer stands for: the match, the empty
/// fragment where there is none, and nothing where the search was abandoned.
pub open spec fn fragment_of(answer: Search) -> Option<Seq<char>> {
    match answer {
        Search::Abandoned => None,
        Search::Absent => Some(Seq::empty()),
        Search::Found(part) => Some(part),
    }
}

/// The fragment of a document. A document that does not hold the key has
/// the empty fragment; for any other, the pattern engine decides.
pub open spec fn extracted(document: Seq<char>) -> Option<Seq<char>> {
    if mentions_key(document) {
        fragment_of(first_match(HOOK_PATTERN@, document))
    } else {
        Some(Seq::empty())
    }
}

/// The view of an optional fragment.
pub open spec fn fragment_view(fragment: Option<String>) -> Option<Seq<char>> {
    match fragment {
        Some(text) => Some(text@),
        None => None,
    }
}

/// Whether the document holds the key somewhere.
pub fn holds_key(document: &str) -> (held: bool)
    ensures
        held == mentions_key(document@),
{
    let text = chars_of(document);
    let wanted = chars_of(HOOK_KEY);
    contains(&text, &wanted)
}

/// The fragment that the engine's answer to a search stands for.
pub fn fragment_from_search(found: Result<Option<String>, fancy_regex::Error>) -> (fragment:
    Option<String>)
    ensures
        fragment_view(fragment) == fragment_of(search_view(found)),
{
    match found {
        Ok(Some(part)) => Some(part),
        Ok(None) => Some(String::new()),
        Err(_) => None,
    }
}

/// Isolates the hook declaration of `document`.
///
/// The result is the declaration as it stands in the document, or the empty
/// fragment where the document declares no hook. It is `None` only where the
/// pattern engine gives no answer for this document.
pub fn extract_fragment(document: &str) -> (fragment: Option<String>)
    ensures
        fragment_view(fragment) == extracted(document@),
        !mentions_key(document@) ==> fragment_view(fragment) == Some(Seq::<char>::empty()),
        fragment matches Some(text) ==> is_part_of(text@, document@),
{
    proof {
        lemma_empty_is_part(document@);
    }
    if !holds_key(document) {
        return Some(String::new());
    }
    fragment_from_search(search(HOOK_PATTERN, document))
}

/// A declaration is only ever found in a document that holds the key.
pub proof fn lemma_fragment_needs_key(document: Seq<char>)
    ensures
        extracted(document) matches Some(fragment) && fragment.len() > 0 ==> mentions_key(
            document,
        ),
{
}

/// Extraction depends on the document's text alone: the same document gives
/// the same fragment, however often it is asked for.
pub proof fn lemma_extraction_repeats(first: Seq<char>, second: Seq<char>)
    requires
        first == second,
    ensures
        extracted(first) == extracted(second),
{
}

} // verus!
