//! Project configuration records and the recent-projects registry of AI Lab,
//! kept as TOML documents, and the decisions of its project panel.
pub mod config;
pub mod messages;
pub mod registry;
pub mod text;
pub mod toml_doc;
pub mod workspace;
