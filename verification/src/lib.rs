//! A verified core for a small prompt library: cleaning prompt text for
//! display, quoting full-text queries, deriving names for saved prompts,
//! and the decisions behind looking up and removing them.

pub mod std_text;

pub mod preview;
pub mod text;
pub mod fts;
pub mod naming;
pub mod prompt;
pub mod error;
pub mod like;
pub mod lookup;
pub mod query;
pub mod rows;
pub mod shell;
pub mod paths;
pub mod input;
pub mod time;

pub use error::StoreError;
pub use fts::sanitize_fts;
pub use preview::preview;
pub use prompt::Prompt;
