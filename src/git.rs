//! The Git operations that the browser needs, over a repository at a path.
pub mod branch;
pub mod constants;
