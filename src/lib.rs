//! Line search: the lines of a text that contain a query, exactly or with
//! case ignored.

pub mod config;
pub mod laws;
pub mod lines;
pub mod search;
pub mod text;

pub use config::{ArgsError, Config};
pub use search::{search, search_case_insensitive, search_case_sensitive};
