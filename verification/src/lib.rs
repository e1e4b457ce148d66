//! Interactive Wikipedia translation pipeline.
//!
//! The library models the selection and language-filtering logic of a small
//! translation tool: a search language is resolved from a catalog of
//! `(tag, name)` pairs, a page title is picked among search results, the
//! catalog is narrowed to the languages that carry a cross-language link for
//! that page, and a target language is resolved from the narrowed set.
//!
//! All network calls and all interactive prompts happen outside the library:
//! the [`pipeline::Orchestrator`] emits [`pipeline::Action`] values telling
//! the caller what to do next, and the caller hands the outcome back.

pub mod display;
pub mod pipeline;
pub mod resolve;
