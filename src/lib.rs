//! A terminal browser for the local branches of a Git repository: the
//! selection state, the key interpreter, the render plan, the decisions of the
//! interaction loop, and the Git operations it invokes.
pub mod git;
pub mod input;
pub mod render;
pub mod selection;
pub mod session;
