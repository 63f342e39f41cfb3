//! Commit message style checking: grammar parsers, the rule set, the
//! diagnostics they produce and the configuration that selects them.

pub mod author;
pub mod checks;
pub mod commit_file;
pub mod config;
pub mod conventional;
pub mod mood;
pub mod no_style;
pub mod report;
pub mod style;
pub mod text;
pub mod unicode;

pub use style::Style;
