use vstd::prelude::*;
use vstd::string::StrSliceExecFns;
use vstd::string::StringExecFns;

verus! {

/// The lifecycle state of a task.
#[derive(Clone, Copy, Debug, PartialEq, Eq, Structural)]
pub enum TaskType {
    Todo,
    Doing,
    Done,
    Rejected,
    NotDefined,
}

/// The cyclic successor: Todo, Doing, Done, Rejected, then Todo again.
/// `NotDefined` is a dead state and maps to itself.
pub open spec fn next_spec(t: TaskType) -> TaskType {
    match t {
        TaskType::Todo => TaskType::Doing,
        TaskType::Doing => TaskType::Done,
        TaskType::Done => TaskType::Rejected,
        TaskType::Rejected => TaskType::Todo,
        TaskType::NotDefined => TaskType::NotDefined,
    }
}

impl TaskType {
    /// The state that follows this one in the cycle.
    pub fn next(&self) -> (r: TaskType)
        ensures
            r == next_spec(*self),
    {
        match self {
            TaskType::Todo => TaskType::Doing,
            TaskType::Doing => TaskType::Done,
            TaskType::Done => TaskType::Rejected,
            TaskType::Rejected => TaskType::Todo,
            TaskType::NotDefined => TaskType::NotDefined,
        }
    }
}


/// Position of a state in the sort order used when the list is saved:
/// Todo < Doing < Done < Rejected < NotDefined.
pub open spec fn rank_spec(t: TaskType) -> nat {
    match t {
        TaskType::Todo => 0,
        TaskType::Doing => 1,
        TaskType::Done => 2,
        TaskType::Rejected => 3,
        TaskType::NotDefined => 4,
    }
}

/// The three-character marker that starts a stored line of the given state.
/// `NotDefined` has no marker of its own and is written like `Todo`.
pub open spec fn prefix_spec(t: TaskType) -> Seq<char> {
    match t {
        TaskType::Todo => seq!['[', ' ', ']'],
        TaskType::Doing => seq!['[', '+', ']'],
        TaskType::Done => seq!['[', 'X', ']'],
        TaskType::Rejected => seq!['[', '-', ']'],
        TaskType::NotDefined => seq!['[', ' ', ']'],
    }
}

/// Whether `line` starts with the marker `[`, `mark`, `]`.
pub open spec fn has_mark(line: Seq<char>, mark: char) -> bool {
    &&& line.len() >= 3
    &&& line[0] == '['
    &&& line[1] == mark
    &&& line[2] == ']'
}

/// The state that a stored line's first three characters encode.
pub open spec fn decode_spec(line: Seq<char>) -> TaskType {
    if has_mark(line, '+') {
        TaskType::Doing
    } else if has_mark(line, 'X') {
        TaskType::Done
    } else if has_mark(line, '-') {
        TaskType::Rejected
    } else if has_mark(line, ' ') {
        TaskType::Todo
    } else {
        TaskType::NotDefined
    }
}

/// The name of a state as it is shown to the user.
pub open spec fn name_spec(t: TaskType) -> Seq<char> {
    match t {
        TaskType::Todo => seq!['T', 'o', 'd', 'o'],
        TaskType::Doing => seq!['D', 'o', 'i', 'n', 'g'],
        TaskType::Done => seq!['D', 'o', 'n', 'e'],
        TaskType::Rejected => seq!['R', 'e', 'j', 'e', 'c', 't', 'e', 'd'],
        TaskType::NotDefined => seq!['N', 'o', 't', 'D', 'e', 'f', 'i', 'n', 'e', 'd'],
    }
}

impl TaskType {
    /// The position of this state in the sort order.
    pub fn rank(&self) -> (r: u8)
        ensures
            r as nat == rank_spec(*self),
    {
        match self {
            TaskType::Todo => 0,
            TaskType::Doing => 1,
            TaskType::Done => 2,
            TaskType::Rejected => 3,
            TaskType::NotDefined => 4,
        }
    }

    /// The name of this state, as shown next to a task being edited.
    pub fn name(&self) -> (r: String)
        ensures
            r@ == name_spec(*self),
    {
        let r = match self {
            TaskType::Todo => String::from_str("Todo"),
            TaskType::Doing => String::from_str("Doing"),
            TaskType::Done => String::from_str("Done"),
            TaskType::Rejected => String::from_str("Rejected"),
            TaskType::NotDefined => String::from_str("NotDefined"),
        };
        proof {
            reveal_strlit("Todo");
            reveal_strlit("Doing");
            reveal_strlit("Done");
            reveal_strlit("Rejected");
            reveal_strlit("NotDefined");
        }
        assert(r@ =~= name_spec(*self));
        r
    }
}

/// Whether `text` (of `len` characters) starts with the marker `[`, `mark`, `]`.
fn has_marker(text: &str, len: usize, mark: char) -> (r: bool)
    requires
        len == text@.len(),
    ensures
        r == has_mark(text@, mark),
{
    len >= 3 && text.get_char(0) == '[' && text.get_char(1) == mark && text.get_char(2) == ']'
}

/// Decodes the state from the marker at the start of a stored line; a line
/// without a recognised marker is `NotDefined`.
pub fn get_type_from_string(text: &str) -> (r: TaskType)
    ensures
        r == decode_spec(text@),
{
    let len = text.unicode_len();
    if has_marker(text, len, '+') {
        TaskType::Doing
    } else if has_marker(text, len, 'X') {
        TaskType::Done
    } else if has_marker(text, len, '-') {
        TaskType::Rejected
    } else if has_marker(text, len, ' ') {
        TaskType::Todo
    } else {
        TaskType::NotDefined
    }
}

/// The marker that encodes the given state.
pub fn type_to_string(task_type: TaskType) -> (r: String)
    ensures
        r@ == prefix_spec(task_type),
{
    let r = match task_type {
        TaskType::Todo => String::from_str("[ ]"),
        TaskType::Doing => String::from_str("[+]"),
        TaskType::Done => String::from_str("[X]"),
        TaskType::Rejected => String::from_str("[-]"),
        TaskType::NotDefined => String::from_str("[ ]"),
    };
    proof {
        reveal_strlit("[ ]");
        reveal_strlit("[+]");
        reveal_strlit("[X]");
        reveal_strlit("[-]");
    }
    assert(r@ =~= prefix_spec(task_type));
    r
}

/// Encoding the state decoded from a line that starts with a valid marker
/// gives that marker back, whatever follows it.
pub proof fn lemma_marker_round_trip(t: TaskType, rest: Seq<char>)
    requires
        t != TaskType::NotDefined,
    ensures
        prefix_spec(decode_spec(prefix_spec(t) + rest)) == prefix_spec(t),
{
    let line = prefix_spec(t) + rest;
    assert(line[0] == '[' && line[2] == ']' && line[1] == prefix_spec(t)[1]);
}

/// Every defined state comes back to itself after four steps of `next`,
/// and `NotDefined` is a fixed point.
pub proof fn lemma_next_cycle(t: TaskType)
    ensures
        t != TaskType::NotDefined ==> next_spec(next_spec(next_spec(next_spec(t)))) == t,
        t != TaskType::NotDefined ==> next_spec(t) != TaskType::NotDefined,
        next_spec(TaskType::NotDefined) == TaskType::NotDefined,
{
}

} // verus!
