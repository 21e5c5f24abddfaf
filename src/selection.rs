//! The branch list with its two indices: the branch that is checked out and
//! the highlighted row. Pure data; no I/O.
use vstd::prelude::*;

verus! {

/// A step of the cursor.
#[derive(Clone, Copy, Debug, PartialEq, Eq, Structural)]
pub enum Direction {
    Up,
    Down,
}

/// The mathematical model of a `SelectionState`.
pub struct SelectionView {
    pub branches: Seq<String>,
    pub current: Option<nat>,
    pub cursor: nat,
}

impl SelectionView {
    /// The cursor points into a non-empty list (and is 0 on an empty one);
    /// the checked-out index, if any, points into the list.
    pub open spec fn wf(self) -> bool {
        &&& (self.branches.len() == 0 ==> self.cursor == 0)
        &&& (self.branches.len() > 0 ==> self.cursor < self.branches.len())
        &&& (self.current matches Some(c) ==> c < self.branches.len())
    }

    /// The state right after loading: the cursor starts on the checked-out
    /// branch when there is one, else on the first row.
    pub open spec fn initial(branches: Seq<String>, current: Option<nat>) -> SelectionView {
        SelectionView {
            branches,
            current,
            cursor: match current {
                Some(c) => c,
                None => 0,
            },
        }
    }

    /// One cursor step, clamped at both ends; nothing moves on an empty list.
    pub open spec fn moved(self, dir: Direction) -> SelectionView {
        if self.branches.len() == 0 {
            self
        } else {
            match dir {
                Direction::Up => SelectionView {
                    cursor: if self.cursor > 0 { (self.cursor - 1) as nat } else { 0 },
                    ..self
                },
                Direction::Down => SelectionView {
                    cursor: if self.cursor + 1 < self.branches.len() {
                        self.cursor + 1
                    } else {
                        self.cursor
                    },
                    ..self
                },
            }
        }
    }

    /// A sequence of cursor steps, applied from first to last.
    pub open spec fn moved_all(self, dirs: Seq<Direction>) -> SelectionView
        decreases dirs.len(),
    {
        if dirs.len() == 0 {
            self
        } else {
            self.moved(dirs[0]).moved_all(dirs.drop_first())
        }
    }

    /// The state after the branch at `index` has been checked out.
    pub open spec fn marked(self, index: nat) -> SelectionView {
        SelectionView { current: Some(index), ..self }
    }

    /// The branch under the cursor, if the list is not empty.
    pub open spec fn selected(self) -> Option<String> {
        if self.branches.len() == 0 {
            None
        } else {
            Some(self.branches[self.cursor as int])
        }
    }
}

/// `pos` is where `name` first occurs in `branches`, or `None` when it does not occur.
pub open spec fn is_first_position(branches: Seq<String>, name: Seq<char>, pos: Option<nat>) -> bool {
    match pos {
        Some(k) => {
            &&& k < branches.len()
            &&& branches[k as int]@ == name
            &&& forall|j: int| 0 <= j < k ==> branches[j]@ != name
        },
        None => forall|j: int| 0 <= j < branches.len() ==> branches[j]@ != name,
    }
}

pub open spec fn nat_of(o: Option<usize>) -> Option<nat> {
    match o {
        Some(i) => Some(i as nat),
        None => None,
    }
}

/// The ordered branch names, the index of the checked-out branch, and the
/// index of the highlighted row.
pub struct SelectionState {
    branches: Vec<String>,
    current_index: Option<usize>,
    cursor_index: usize,
}

impl View for SelectionState {
    type V = SelectionView;

    closed spec fn view(&self) -> SelectionView {
        SelectionView {
            branches: self.branches@,
            current: nat_of(self.current_index),
            cursor: self.cursor_index as nat,
        }
    }
}

impl SelectionState {
    /// The model is well formed, and every index into the list fits a `usize`.
    pub open spec fn wf(&self) -> bool {
        &&& self@.wf()
        &&& self@.branches.len() <= usize::MAX
    }

    /// Builds the state from a listing and the name of the checked-out
    /// branch; `current_index` is the first entry with that name.
    pub fn new(branches: Vec<String>, current: &String) -> (r: SelectionState)
        ensures
            r.wf(),
            is_first_position(branches@, current@, r@.current),
            r@ == SelectionView::initial(branches@, r@.current),
    {
        let mut i: usize = 0;
        while i < branches.len()
            invariant
                i <= branches@.len(),
                forall|j: int| 0 <= j < i ==> branches@[j]@ != current@,
            decreases branches@.len() - i,
        {
            if branches[i] == *current {
                return SelectionState { branches, current_index: Some(i), cursor_index: i };
            }
            i += 1;
        }
        SelectionState { branches, current_index: None, cursor_index: 0 }
    }

    /// Builds the state from a listing and a known index of the checked-out branch.
    pub fn with_current_index(branches: Vec<String>, current_index: Option<usize>) -> (r: SelectionState)
        requires
            current_index matches Some(k) ==> k < branches@.len(),
        ensures
            r.wf(),
            r@ == SelectionView::initial(branches@, nat_of(current_index)),
    {
        proof {
            assert(branches@.len() == branches.len());
        }
        let cursor_index = match current_index {
            Some(k) => k,
            None => 0,
        };
        SelectionState { branches, current_index, cursor_index }
    }

    pub fn branches(&self) -> (r: &Vec<String>)
        ensures
            r@ == self@.branches,
    {
        &self.branches
    }

    pub fn len(&self) -> (r: usize)
        ensures
            r == self@.branches.len(),
    {
        self.branches.len()
    }

    pub fn current_index(&self) -> (r: Option<usize>)
        ensures
            nat_of(r) == self@.current,
    {
        self.current_index
    }

    pub fn cursor_index(&self) -> (r: usize)
        ensures
            r == self@.cursor,
    {
        self.cursor_index
    }

    /// Moves the cursor one row, clamped at both ends of the list.
    pub fn move_cursor(&mut self, dir: Direction)
        requires
            old(self).wf(),
        ensures
            final(self).wf(),
            final(self)@ == old(self)@.moved(dir),
    {
        let n: usize = self.branches.len();
        if n == 0 {
            return;
        }
        match dir {
            Direction::Up => {
                if self.cursor_index > 0 {
                    self.cursor_index = self.cursor_index - 1;
                }
            },
            Direction::Down => {
                if self.cursor_index + 1 < n {
                    self.cursor_index = self.cursor_index + 1;
                }
            },
        }
    }

    /// Records that the branch at `index` is now the checked-out one.
    pub fn mark_checked_out(&mut self, index: usize)
        requires
            old(self).wf(),
            index < old(self)@.branches.len(),
        ensures
            final(self).wf(),
            final(self)@ == old(self)@.marked(index as nat),
    {
        self.current_index = Some(index);
    }

    /// The branch under the cursor, or `None` on an empty list.
    pub fn selected_branch(&self) -> (r: Option<String>)
        requires
            self.wf(),
        ensures
            r == self@.selected(),
    {
        if self.branches.len() == 0 {
            None
        } else {
            Some(self.branches[self.cursor_index].clone())
        }
    }
}

/// At the top, `Up` keeps the cursor at 0; at the bottom, `Down` keeps it
/// where it is; on an empty list both steps change nothing.
pub proof fn lemma_cursor_clamps(v: SelectionView)
    requires
        v.wf(),
    ensures
        v.cursor == 0 ==> v.moved(Direction::Up) == v,
        v.branches.len() > 0 && v.cursor == v.branches.len() - 1 ==> v.moved(Direction::Down) == v,
        v.branches.len() == 0 ==> v.moved(Direction::Up) == v && v.moved(Direction::Down) == v,
{
}

/// A cursor step keeps the state well formed.
pub proof fn lemma_move_keeps_wf(v: SelectionView, dir: Direction)
    requires
        v.wf(),
    ensures
        v.moved(dir).wf(),
        v.moved(dir).branches == v.branches,
        v.moved(dir).current == v.current,
{
}

/// On a non-empty list, any sequence of cursor steps leaves the cursor in
/// `[0, N)`.
pub proof fn lemma_cursor_in_range(v: SelectionView, dirs: Seq<Direction>)
    requires
        v.wf(),
        v.branches.len() > 0,
    ensures
        v.moved_all(dirs).cursor < v.branches.len(),
        v.moved_all(dirs).wf(),
    decreases dirs.len(),
{
    if dirs.len() > 0 {
        lemma_move_keeps_wf(v, dirs[0]);
        lemma_cursor_in_range(v.moved(dirs[0]), dirs.drop_first());
    }
}

/// A freshly built state whose checked-out index is `k` selects the branch at `k`.
pub proof fn lemma_fresh_selects_current(branches: Seq<String>, k: nat)
    requires
        k < branches.len(),
    ensures
        SelectionView::initial(branches, Some(k)).selected() == Some(branches[k as int]),
{
}

/// Marking the branch at `i` as checked out makes `i` the checked-out index.
pub proof fn lemma_marked_is_current(v: SelectionView, i: nat)
    requires
        v.wf(),
        i < v.branches.len(),
    ensures
        v.marked(i).current == Some(i),
        v.marked(i).wf(),
{
}

} // verus!
