//! A client library for Jira: the rich-text document model of issue
//! descriptions with its conversion from and to Markdown, the requests of the
//! REST interface, and the state and texts of an editor front end.
//!
//! Every function is verified against its contract. The conversions are
//! stated over the views of the document types: `jira::render::markdown_text`
//! says what a tree renders as, `jira::flatten::flattened` what flattening
//! returns, `jira::mdast::content_of` what a syntax tree maps to.

pub mod auth;
pub mod buffer;
pub mod chars;
pub mod client;
pub mod config;
pub mod editing;
pub mod error;
pub mod ids;
pub mod jira;
pub mod notes;
pub mod prompt;
pub mod request;
pub mod state;
pub mod table;
pub mod text;
pub mod tree;

pub use auth::Auth;
pub use client::Jirascope;
pub use config::Config;
pub use error::Error;
pub use notes::Note;
