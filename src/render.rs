//! What the screen shows for a selection state: one row per branch, the
//! highlighted row, and a fixed footer.
use vstd::prelude::*;
use crate::selection::SelectionState;

verus! {

/// Appended to the row of the checked-out branch.
pub const CURRENT_MARKER: &'static str = " *";

/// The instruction shown under the list.
pub const FOOTER_INSTRUCTION: &'static str = "Use ↓↑ or jk to move, ENTER to select, q to quit";

/// A description of one screen.
pub struct RenderPlan {
    pub rows: Vec<String>,
    pub highlighted: Option<usize>,
    pub footer: String,
}

/// A row shows the branch name, with the marker appended on the checked-out branch.
pub open spec fn row_text(name: Seq<char>, is_current: bool) -> Seq<char> {
    if is_current {
        name + CURRENT_MARKER@
    } else {
        name
    }
}

/// Describes the screen for `state`; the state is only read.
pub fn render_plan(state: &SelectionState) -> (r: RenderPlan)
    requires
        state.wf(),
    ensures
        r.rows@.len() == state@.branches.len(),
        forall|i: int|
            0 <= i < r.rows@.len() ==> #[trigger] r.rows@[i]@ == row_text(
                state@.branches[i]@,
                state@.current == Some(i as nat),
            ),
        state@.branches.len() == 0 ==> r.highlighted is None,
        state@.branches.len() > 0 ==> r.highlighted == Some(state@.cursor as usize),
        r.footer@ == FOOTER_INSTRUCTION@,
{
    let branches = state.branches();
    let current = state.current_index();
    let mut rows: Vec<String> = Vec::new();
    let mut i: usize = 0;
    while i < branches.len()
        invariant
            i <= branches@.len(),
            branches@ == state@.branches,
            crate::selection::nat_of(current) == state@.current,
            rows@.len() == i,
            forall|j: int|
                0 <= j < i ==> #[trigger] rows@[j]@ == row_text(
                    branches@[j]@,
                    state@.current == Some(j as nat),
                ),
        decreases branches@.len() - i,
    {
        let is_current = match current {
            Some(c) => c == i,
            None => false,
        };
        let name = branches[i].clone();
        let row = if is_current {
            name.concat(CURRENT_MARKER)
        } else {
            name
        };
        rows.push(row);
        i += 1;
    }
    let highlighted = if branches.len() == 0 {
        None
    } else {
        Some(state.cursor_index())
    };
    RenderPlan { rows, highlighted, footer: String::from_str(FOOTER_INSTRUCTION) }
}

} // verus!
