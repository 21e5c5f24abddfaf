//! Fixed settings of the Git operations.
use vstd::prelude::*;

verus! {

/// The repository the browser works on: the current working directory.
pub const CURRENT_REPO: &'static str = ".";

} // verus!
