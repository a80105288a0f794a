use vstd::prelude::*;

use crate::console::{Console, Direction, moved};
use crate::list::{OutOfRange, TodoList, contents_spec, cycled, sorted_by_state};

verus! {

/// A key pressed by the user.
#[derive(Clone, Copy, Debug, PartialEq, Eq, Structural)]
pub enum KeyPress {
    Up,
    Down,
    Left,
    Right,
    Char(char),
    Other,
}

/// What is left to do after a key, besides drawing the list again.
pub enum Action {
    /// Leave, after writing these file contents.
    Quit(String),
    /// The cursor moved: show where it is now.
    Moved,
    /// The edit was committed: write these file contents.
    Save(String),
    /// The task under the cursor does not exist, and nothing was changed.
    Refused(OutOfRange),
    /// Nothing but drawing the list again.
    Redraw,
}

/// The list was sorted by state and `contents` is what is to be written.
pub open spec fn saved(before: TodoList, after: TodoList, contents: String) -> bool {
    &&& after.tasks@ == sorted_by_state(before.tasks@)
    &&& contents@ == contents_spec(after.tasks@)
}

/// The list holds the same tasks and the same edit flag.
pub open spec fn unchanged(before: TodoList, after: TodoList) -> bool {
    after.tasks@ == before.tasks@ && after.is_editing == before.is_editing
}

/// Handles one key:
/// - `q` saves the list and quits;
/// - up and down move the cursor's row, unless an edit is in progress;
/// - right advances the state of the task under the cursor (row `r` is the
///   task at index `r - 1`) and starts an edit, or is refused when no task is
///   there;
/// - left ends the edit and saves the list;
/// - any other key changes nothing.
pub fn handle_key(list: &mut TodoList, console: &mut Console, key: KeyPress) -> (r: Action)
    requires
        old(list).wf(),
        old(console).wf(),
    ensures
        final(list).wf(),
        final(console).wf(),
        key == KeyPress::Char('q') ==> r is Quit && saved(*old(list), *final(list), r->Quit_0)
            && final(list).is_editing == old(list).is_editing && *final(console) == *old(console),
        (key == KeyPress::Up || key == KeyPress::Down) && !old(list).is_editing ==> r is Moved
            && unchanged(*old(list), *final(list)) && final(console).cursor_position == moved(
            old(console).cursor_position,
            if key == KeyPress::Up {
                Direction::Up
            } else {
                Direction::Down
            },
        ),
        (key == KeyPress::Up || key == KeyPress::Down) && old(list).is_editing ==> r is Redraw
            && unchanged(*old(list), *final(list)) && *final(console) == *old(console),
        key == KeyPress::Right ==> *final(console) == *old(console) && ({
            let index = old(console).cursor_position.1 - 1;
            if index < old(list).tasks@.len() {
                &&& r is Redraw
                &&& final(list).is_editing
                &&& final(list).tasks@.len() == old(list).tasks@.len()
                &&& cycled(old(list).tasks@[index], final(list).tasks@[index])
                &&& forall|j: int|
                    0 <= j < old(list).tasks@.len() && j != index
                        ==> #[trigger] final(list).tasks@[j] == old(list).tasks@[j]
            } else {
                &&& r == Action::Refused(
                    (OutOfRange { index: index as usize, len: old(list).tasks@.len() as usize }),
                )
                &&& unchanged(*old(list), *final(list))
            }
        }),
        key == KeyPress::Left ==> r is Save && saved(*old(list), *final(list), r->Save_0)
            && !final(list).is_editing && *final(console) == *old(console),
        !(key == KeyPress::Char('q') || key == KeyPress::Up || key == KeyPress::Down || key
            == KeyPress::Right || key == KeyPress::Left) ==> r is Redraw && *final(list)
            == *old(list) && *final(console) == *old(console),
{
    match key {
        KeyPress::Char('q') => Action::Quit(list.save()),
        KeyPress::Up => {
            if list.is_editing {
                Action::Redraw
            } else {
                console.move_cursor(Direction::Up);
                Action::Moved
            }
        },
        KeyPress::Down => {
            if list.is_editing {
                Action::Redraw
            } else {
                console.move_cursor(Direction::Down);
                Action::Moved
            }
        },
        KeyPress::Right => {
            let index = (console.cursor_position.1 - 1) as usize;
            match list.change_state(index) {
                Ok(()) => {
                    list.is_editing = true;
                    Action::Redraw
                },
                Err(e) => Action::Refused(e),
            }
        },
        KeyPress::Left => {
            list.is_editing = false;
            Action::Save(list.save())
        },
        _ => Action::Redraw,
    }
}

} // verus!
