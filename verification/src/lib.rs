//! Line-oriented substring search over text, with the pieces a command-line
//! front end needs around it: the recursive file pattern for a directory, the
//! lines of a text that hold a query, and the text that is printed for them.

pub mod text;
pub mod pattern;
pub mod lines;
pub mod matcher;
pub mod render;
pub mod search;

pub use matcher::{find_in_contents, SearchResult};
pub use pattern::dir_to_glob_pattern;
