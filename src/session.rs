//! The decisions of the interaction loop: from the state and one key press to
//! the next state and the action to perform. Reading keys, drawing and
//! calling Git are left to the caller, which reports a checkout's outcome back.
use vstd::prelude::*;
use crate::git::branch::GitError;
use crate::input::{Command, Key, command_of, interpret};
use crate::selection::{Direction, SelectionState, SelectionView};

verus! {

/// Whether the loop goes on.
#[derive(Clone, Copy, Debug, PartialEq, Eq, Structural)]
pub enum LoopState {
    Running,
    Exiting,
}

/// What the caller is to do after a key press.
#[derive(Debug, PartialEq, Eq)]
pub enum Action {
    /// Nothing beyond drawing the new state.
    Nothing,
    /// Check out the branch `name`, at `index` in the list, and report back.
    Checkout { index: usize, name: String },
    /// Leave the loop.
    Exit,
}

/// The loop's whole state.
pub struct Session {
    pub selection: SelectionState,
    pub status: LoopState,
}

/// The action that confirming asks for in `v`: a checkout of the branch
/// under the cursor, or nothing on an empty list.
pub open spec fn confirm_action(v: SelectionView) -> Action {
    match v.selected() {
        Some(name) => Action::Checkout { index: v.cursor as usize, name },
        None => Action::Nothing,
    }
}

/// One key press: the next model, the next loop state and the action.
/// `q` exits; the movement keys move the cursor; Enter asks for a checkout of
/// the highlighted branch; any other key changes nothing.
pub open spec fn step(v: SelectionView, status: LoopState, key: Key) -> (SelectionView, LoopState, Action) {
    match command_of(key) {
        Command::Quit => (v, LoopState::Exiting, Action::Exit),
        Command::Move(dir) => (v.moved(dir), status, Action::Nothing),
        Command::Confirm => (v, status, confirm_action(v)),
        Command::Ignore => (v, status, Action::Nothing),
    }
}

/// The model once a checkout of the branch at `index` has ended: marked on
/// success, unchanged on failure.
pub open spec fn finished(v: SelectionView, index: nat, succeeded: bool) -> SelectionView {
    if succeeded {
        v.marked(index)
    } else {
        v
    }
}

impl Session {
    pub open spec fn wf(&self) -> bool {
        self.selection.wf()
    }

    /// A running session over a listing and the checked-out branch's name.
    pub fn new(branches: Vec<String>, current: &String) -> (r: Session)
        ensures
            r.wf(),
            r.status == LoopState::Running,
            crate::selection::is_first_position(branches@, current@, r.selection@.current),
            r.selection@ == SelectionView::initial(branches@, r.selection@.current),
    {
        Session { selection: SelectionState::new(branches, current), status: LoopState::Running }
    }

    /// A running session over a state built beforehand (for instance with no
    /// known checked-out branch).
    pub fn from_selection(selection: SelectionState) -> (r: Session)
        requires
            selection.wf(),
        ensures
            r.wf(),
            r.status == LoopState::Running,
            r.selection == selection,
    {
        Session { selection, status: LoopState::Running }
    }

    pub fn is_running(&self) -> (r: bool)
        ensures
            r == (self.status == LoopState::Running),
    {
        match self.status {
            LoopState::Running => true,
            LoopState::Exiting => false,
        }
    }

    /// Interprets one key press.
    pub fn handle_key(&mut self, key: Key) -> (r: Action)
        requires
            old(self).wf(),
        ensures
            final(self).wf(),
            (final(self).selection@, final(self).status, r) == step(
                old(self).selection@,
                old(self).status,
                key,
            ),
    {
        match interpret(key) {
            Command::Quit => {
                self.status = LoopState::Exiting;
                Action::Exit
            },
            Command::Move(dir) => {
                self.selection.move_cursor(dir);
                Action::Nothing
            },
            Command::Confirm => match self.selection.selected_branch() {
                Some(name) => Action::Checkout { index: self.selection.cursor_index(), name },
                None => Action::Nothing,
            },
            Command::Ignore => Action::Nothing,
        }
    }

    /// Takes in the outcome of a checkout that `handle_key` asked for: on
    /// success the branch at `index` becomes the checked-out one; on failure
    /// nothing changes and the loop keeps running.
    pub fn checkout_finished(&mut self, index: usize, outcome: &Result<(), GitError>)
        requires
            old(self).wf(),
            index < old(self).selection@.branches.len(),
        ensures
            final(self).wf(),
            final(self).status == old(self).status,
            final(self).selection@ == finished(old(self).selection@, index as nat, outcome is Ok),
    {
        if outcome.is_ok() {
            self.selection.mark_checked_out(index);
        }
    }
}

/// In a running session, `Up` or `k` on the top row and `Down` or `j` on the
/// bottom row leave the cursor where it is, keep the loop running and ask
/// for nothing.
pub proof fn lemma_edge_moves_change_nothing(v: SelectionView, key: Key)
    requires
        v.wf(),
        v.branches.len() > 0,
    ensures
        command_of(key) == Command::Move(Direction::Up) && v.cursor == 0 ==> step(
            v,
            LoopState::Running,
            key,
        ) == (v, LoopState::Running, Action::Nothing),
        command_of(key) == Command::Move(Direction::Down) && v.cursor == v.branches.len() - 1
            ==> step(v, LoopState::Running, key) == (v, LoopState::Running, Action::Nothing),
{
}

/// In a running session, Enter asks to check out the highlighted branch and
/// keeps the loop running; once that checkout succeeds, the highlighted
/// branch is the checked-out one.
pub proof fn lemma_confirmed_checkout_becomes_current(v: SelectionView)
    requires
        v.wf(),
        v.branches.len() > 0,
    ensures
        step(v, LoopState::Running, Key::Enter) == (
            v,
            LoopState::Running,
            Action::Checkout { index: v.cursor as usize, name: v.branches[v.cursor as int] },
        ),
        finished(v, v.cursor, true).current == Some(v.cursor),
        finished(v, v.cursor, true).wf(),
{
}

/// `q` ends the loop from any state, leaves the model as it was and asks
/// the caller to exit.
pub proof fn lemma_quit_exits(v: SelectionView, status: LoopState, key: Key)
    requires
        command_of(key) == Command::Quit,
    ensures
        step(v, status, key) == (v, LoopState::Exiting, Action::Exit),
{
}

/// A failed checkout leaves the model as it was; the loop state is kept by
/// `checkout_finished` whatever the outcome.
pub proof fn lemma_failed_checkout_changes_nothing(v: SelectionView, index: nat)
    ensures
        finished(v, index, false) == v,
{
}

} // verus!
