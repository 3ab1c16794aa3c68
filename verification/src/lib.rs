pub mod commit_message_lint;
pub mod config;
pub mod header;
pub mod pattern;
pub mod prompt;
pub mod text;
