//! Pre-render hooks: a command that a configuration document declares under
//! the key `pre_render_hook`, and that is run before the document is
//! rendered.
//!
//! The document around the declaration need not be well-formed YAML, so the
//! declaration is first isolated as text ([`extract`]), then read as a list
//! of command tokens ([`snippet`]), then run as a process whose outcome
//! decides the step ([`runner`]).
//!
//! The library reads no file, reads no YAML and starts no process. It is the
//! decisions between those: [`machine`] takes each of them as an event and
//! answers with the state that says what is to be done next.

pub mod engine;
pub mod error;
pub mod extract;
pub mod machine;
pub mod paths;
pub mod runner;
pub mod snippet;
pub mod text;
