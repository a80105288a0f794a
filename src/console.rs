use vstd::prelude::*;
use vstd::string::StringExecFns;

use crate::list::{Task, TodoList};
use crate::state::{TaskType, name_spec, next_spec};

verus! {

/// Foreground colours, written with their SGR codes 30 to 37.
#[derive(Clone, Copy, Debug, PartialEq, Eq, Structural)]
pub enum ConsoleForegroundColors {
    Black,
    Red,
    Green,
    Yellow,
    Blue,
    Magenta,
    Cyan,
    White,
}

/// Background colours, written with their SGR codes 40 to 47; `NoColor` leaves
/// the background alone.
#[derive(Clone, Copy, Debug, PartialEq, Eq, Structural)]
pub enum ConsoleBackgroundColors {
    NoColor,
    Black,
    Red,
    Green,
    Yellow,
    Blue,
    Magenta,
    Cyan,
    White,
}

/// The offset of a colour from the start of its SGR range: black 0 to white 7.
pub open spec fn fg_offset(c: ConsoleForegroundColors) -> nat {
    match c {
        ConsoleForegroundColors::Black => 0,
        ConsoleForegroundColors::Red => 1,
        ConsoleForegroundColors::Green => 2,
        ConsoleForegroundColors::Yellow => 3,
        ConsoleForegroundColors::Blue => 4,
        ConsoleForegroundColors::Magenta => 5,
        ConsoleForegroundColors::Cyan => 6,
        ConsoleForegroundColors::White => 7,
    }
}

/// The offset of a background colour from 40; `NoColor` has none.
pub open spec fn bg_offset(c: ConsoleBackgroundColors) -> nat {
    match c {
        ConsoleBackgroundColors::NoColor => 0,
        ConsoleBackgroundColors::Black => 0,
        ConsoleBackgroundColors::Red => 1,
        ConsoleBackgroundColors::Green => 2,
        ConsoleBackgroundColors::Yellow => 3,
        ConsoleBackgroundColors::Blue => 4,
        ConsoleBackgroundColors::Magenta => 5,
        ConsoleBackgroundColors::Cyan => 6,
        ConsoleBackgroundColors::White => 7,
    }
}

/// The decimal digit for `d` (below ten).
pub open spec fn digit(d: nat) -> char {
    (48 + d) as char
}

/// The two decimal digits of an SGR code whose tens digit is `tens`.
pub open spec fn code_text(tens: nat, offset: nat) -> Seq<char> {
    seq![digit(tens), digit(offset)]
}

/// `text` wrapped in the escape sequences that colour it and reset the
/// colours after it.
pub open spec fn colored_spec(
    color: ConsoleForegroundColors,
    background_color: ConsoleBackgroundColors,
    text: Seq<char>,
) -> Seq<char> {
    let codes = if background_color == ConsoleBackgroundColors::NoColor {
        code_text(3, fg_offset(color))
    } else {
        code_text(3, fg_offset(color)) + seq![';'] + code_text(4, bg_offset(background_color))
    };
    seq!['\x1b', '['] + codes + seq!['m'] + text + seq!['\x1b', '[', '0', 'm']
}

/// The offset of a foreground colour, as an integer.
fn fg_code(c: ConsoleForegroundColors) -> (r: u8)
    ensures
        r as nat == fg_offset(c),
{
    match c {
        ConsoleForegroundColors::Black => 0,
        ConsoleForegroundColors::Red => 1,
        ConsoleForegroundColors::Green => 2,
        ConsoleForegroundColors::Yellow => 3,
        ConsoleForegroundColors::Blue => 4,
        ConsoleForegroundColors::Magenta => 5,
        ConsoleForegroundColors::Cyan => 6,
        ConsoleForegroundColors::White => 7,
    }
}

/// The offset of a background colour, as an integer.
fn bg_code(c: ConsoleBackgroundColors) -> (r: u8)
    ensures
        r as nat == bg_offset(c),
{
    match c {
        ConsoleBackgroundColors::NoColor => 0,
        ConsoleBackgroundColors::Black => 0,
        ConsoleBackgroundColors::Red => 1,
        ConsoleBackgroundColors::Green => 2,
        ConsoleBackgroundColors::Yellow => 3,
        ConsoleBackgroundColors::Blue => 4,
        ConsoleBackgroundColors::Magenta => 5,
        ConsoleBackgroundColors::Cyan => 6,
        ConsoleBackgroundColors::White => 7,
    }
}

/// The one-character string of the decimal digit `d`.
fn digit_text(d: u8) -> (r: String)
    requires
        d < 8,
    ensures
        r@ == seq![digit(d as nat)],
{
    let r = if d == 0 {
        String::from_str("0")
    } else if d == 1 {
        String::from_str("1")
    } else if d == 2 {
        String::from_str("2")
    } else if d == 3 {
        String::from_str("3")
    } else if d == 4 {
        String::from_str("4")
    } else if d == 5 {
        String::from_str("5")
    } else if d == 6 {
        String::from_str("6")
    } else {
        String::from_str("7")
    };
    proof {
        reveal_strlit("0");
        reveal_strlit("1");
        reveal_strlit("2");
        reveal_strlit("3");
        reveal_strlit("4");
        reveal_strlit("5");
        reveal_strlit("6");
        reveal_strlit("7");
    }
    assert(r@ =~= seq![digit(d as nat)]);
    r
}

/// `text` in the given colours, followed by a reset of the colours.
pub fn get_color_text(
    color: ConsoleForegroundColors,
    background_color: ConsoleBackgroundColors,
    text: &str,
) -> (r: String)
    ensures
        r@ == colored_spec(color, background_color, text@),
{
    proof {
        reveal_strlit("\x1b[3");
        reveal_strlit(";4");
        reveal_strlit("m");
        reveal_strlit("\x1b[0m");
    }
    let mut r = String::from_str("\x1b[3");
    r.append(digit_text(fg_code(color)).as_str());
    if !matches!(background_color, ConsoleBackgroundColors::NoColor) {
        r.append(";4");
        r.append(digit_text(bg_code(background_color)).as_str());
    }
    r.append("m");
    r.append(text);
    r.append("\x1b[0m");
    assert(r@ =~= colored_spec(color, background_color, text@));
    r
}

/// The colour a task is drawn in; a task without a marker is not drawn.
pub open spec fn color_of(t: TaskType) -> Option<ConsoleForegroundColors> {
    match t {
        TaskType::Done => Some(ConsoleForegroundColors::Green),
        TaskType::Todo => Some(ConsoleForegroundColors::Blue),
        TaskType::Doing => Some(ConsoleForegroundColors::Magenta),
        TaskType::Rejected => Some(ConsoleForegroundColors::Red),
        TaskType::NotDefined => None,
    }
}

/// The note shown after the line of the task being edited.
pub open spec fn edit_note(t: TaskType) -> Seq<char> {
    " (Current: "@ + name_spec(t) + ", Next: "@ + name_spec(next_spec(t)) + ")"@
}

/// The text shown for a task: its line, with the edit note when it is the
/// task being edited.
pub open spec fn shown_text(task: Task, edited: bool) -> Seq<char> {
    if edited {
        task.text@ + edit_note(task.task_type)
    } else {
        task.text@
    }
}

/// The terminal cursor: column and row, both counted from 1.
pub struct Console {
    pub cursor_position: (u16, u16),
}

/// A move of the cursor.
#[derive(Clone, Copy, Debug, PartialEq, Eq, Structural)]
pub enum Direction {
    Up,
    Down,
    Left,
    Right,
}

/// Where the cursor ends up after a move: up stops at row 1, down stops only
/// at the largest row a `u16` holds, and the column stays within 1 to 10.
pub open spec fn moved(p: (u16, u16), direction: Direction) -> (u16, u16) {
    match direction {
        Direction::Up => if p.1 > 1 { (p.0, (p.1 - 1) as u16) } else { p },
        Direction::Down => if p.1 < u16::MAX { (p.0, (p.1 + 1) as u16) } else { p },
        Direction::Left => if p.0 > 1 { ((p.0 - 1) as u16, p.1) } else { p },
        Direction::Right => if p.0 < 10 { ((p.0 + 1) as u16, p.1) } else { p },
    }
}

impl Console {
    /// The row is at least 1 and the column between 1 and 10.
    pub open spec fn wf(&self) -> bool {
        1 <= self.cursor_position.1 && 1 <= self.cursor_position.0 <= 10
    }

    /// A cursor at the top-left corner.
    pub fn new() -> (r: Self)
        ensures
            r.wf(),
            r.cursor_position == (1u16, 1u16),
    {
        Self { cursor_position: (1, 1) }
    }

    /// Moves the cursor one step, within its bounds.
    pub fn move_cursor(&mut self, direction: Direction)
        requires
            old(self).wf(),
        ensures
            final(self).wf(),
            final(self).cursor_position == moved(old(self).cursor_position, direction),
    {
        let (x, y) = self.cursor_position;
        match direction {
            Direction::Up => {
                if y > 1 {
                    self.cursor_position = (x, y - 1);
                }
            },
            Direction::Down => {
                if y < u16::MAX {
                    self.cursor_position = (x, y + 1);
                }
            },
            Direction::Left => {
                if x > 1 {
                    self.cursor_position = (x - 1, y);
                }
            },
            Direction::Right => {
                if x < 10 {
                    self.cursor_position = (x + 1, y);
                }
            },
        }
    }
}

/// One line of the screen: where it starts, and what is drawn there after
/// the line is cleared (nothing for a task without a marker).
pub struct Row {
    pub column: u16,
    pub row: usize,
    pub text: Option<String>,
}

/// `r` is how the task at index `i` is drawn, with the cursor on row
/// `cursor_row` and an edit in progress or not.
pub open spec fn row_spec(r: Row, task: Task, i: int, editing: bool, cursor_row: u16) -> bool {
    let selected = cursor_row == i + 1;
    let background = if selected {
        ConsoleBackgroundColors::White
    } else {
        ConsoleBackgroundColors::NoColor
    };
    &&& r.row == i + 1
    &&& r.column == (if editing && selected { 3u16 } else { 1u16 })
    &&& match color_of(task.task_type) {
        Some(c) => r.text is Some && r.text->Some_0@ == colored_spec(
            c,
            background,
            shown_text(task, editing && selected),
        ),
        None => r.text is None,
    }
}

impl TodoList {
    /// How the task at `i` is drawn (see [`row_spec`]).
    fn render_row(&self, i: usize, cursor_row: u16) -> (r: Row)
        requires
            i < self.tasks@.len(),
            i < usize::MAX,
        ensures
            row_spec(r, self.tasks@[i as int], i as int, self.is_editing, cursor_row),
    {
        let task = &self.tasks[i];
        let selected = cursor_row as usize == i + 1;
        let edited = self.is_editing && selected;
        let column: u16 = if edited { 3 } else { 1 };
        let background = if selected {
            ConsoleBackgroundColors::White
        } else {
            ConsoleBackgroundColors::NoColor
        };
        let color = match task.task_type {
            TaskType::Done => ConsoleForegroundColors::Green,
            TaskType::Todo => ConsoleForegroundColors::Blue,
            TaskType::Doing => ConsoleForegroundColors::Magenta,
            TaskType::Rejected => ConsoleForegroundColors::Red,
            TaskType::NotDefined => {
                return Row { column, row: i + 1, text: None };
            },
        };
        let mut text = task.text.clone();
        if edited {
            proof {
                reveal_strlit(" (Current: ");
                reveal_strlit(", Next: ");
                reveal_strlit(")");
            }
            text.append(" (Current: ");
            text.append(task.task_type.name().as_str());
            text.append(", Next: ");
            text.append(task.task_type.next().name().as_str());
            text.append(")");
            assert(text@ =~= shown_text(*task, true));
        }
        Row { column, row: i + 1, text: Some(get_color_text(color, background, text.as_str())) }
    }

    /// The whole screen: one row for each task, in order.
    pub fn render(&self, console: &Console) -> (r: Vec<Row>)
        ensures
            r@.len() == self.tasks@.len(),
            forall|i: int|
                0 <= i < r@.len() ==> row_spec(
                    #[trigger] r@[i],
                    self.tasks@[i],
                    i,
                    self.is_editing,
                    console.cursor_position.1,
                ),
    {
        let mut r: Vec<Row> = Vec::new();
        let mut i: usize = 0;
        while i < self.tasks.len()
            invariant
                i <= self.tasks@.len(),
                r@.len() == i,
                forall|j: int|
                    0 <= j < i ==> row_spec(
                        #[trigger] r@[j],
                        self.tasks@[j],
                        j,
                        self.is_editing,
                        console.cursor_position.1,
                    ),
            decreases self.tasks@.len() - i,
        {
            r.push(self.render_row(i, console.cursor_position.1));
            i = i + 1;
        }
        r
    }
}

} // verus!
