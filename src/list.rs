use vstd::prelude::*;
use vstd::string::StrSliceExecFns;
use vstd::string::StringExecFns;

use crate::state::{
    TaskType, decode_spec, get_type_from_string, next_spec, prefix_spec, type_to_string,
};

verus! {

/// One task: its state and the whole stored line, marker included.
pub struct Task {
    pub task_type: TaskType,
    pub text: String,
}

/// `after` is `before` moved one step along the cycle, with its marker
/// rewritten; a task without a marker stays as it is.
pub open spec fn cycled(before: Task, after: Task) -> bool {
    &&& after.task_type == next_spec(before.task_type)
    &&& before.task_type == TaskType::NotDefined ==> after.text@ == before.text@
    &&& before.task_type != TaskType::NotDefined ==> after.text@ == prefix_spec(after.task_type)
        + before.text@.skip(3)
}

impl Task {
    /// The state always agrees with the marker at the start of the line.
    pub open spec fn wf(&self) -> bool {
        self.task_type == decode_spec(self.text@)
    }

    /// Advances the task to the next state and rewrites the marker at the
    /// start of its line to match. A task whose line has no marker
    /// (`NotDefined`) is outside the cycle and is left as it is.
    pub fn change_type(&mut self)
        requires
            old(self).wf(),
        ensures
            final(self).wf(),
            cycled(*old(self), *final(self)),
    {
        if matches!(self.task_type, TaskType::NotDefined) {
            return;
        }
        let next = self.task_type.next();
        let len = self.text.as_str().unicode_len();
        let new_text = type_to_string(next).concat(self.text.as_str().substring_char(3, len));
        proof {
            let old_text = self.text@;
            assert(old_text =~= prefix_spec(self.task_type) + old_text.skip(3));
            assert(new_text@[1] == prefix_spec(next)[1]);
        }
        self.text = new_text;
        self.task_type = next;
    }
}

/// The tasks of `tasks` that are in state `k`, in their order.
pub open spec fn of_state(tasks: Seq<Task>, k: TaskType) -> Seq<Task> {
    tasks.filter(|t: Task| t.task_type == k)
}

/// `tasks` stably sorted by state: all Todo tasks, then Doing, Done, Rejected
/// and NotDefined, each group in the order it had in `tasks`.
pub open spec fn sorted_by_state(tasks: Seq<Task>) -> Seq<Task> {
    of_state(tasks, TaskType::Todo) + of_state(tasks, TaskType::Doing) + of_state(
        tasks,
        TaskType::Done,
    ) + of_state(tasks, TaskType::Rejected) + of_state(tasks, TaskType::NotDefined)
}

/// The lines of `tasks`, one for each task, in order.
pub open spec fn texts(tasks: Seq<Task>) -> Seq<Seq<char>> {
    tasks.map_values(|t: Task| t.text@)
}

/// What is written to the file for `tasks`: each line followed by a newline.
pub open spec fn contents_spec(tasks: Seq<Task>) -> Seq<char>
    decreases tasks.len(),
{
    if tasks.len() == 0 {
        Seq::empty()
    } else {
        contents_spec(tasks.drop_last()) + tasks.last().text@ + seq!['\n']
    }
}

/// `tasks` holds one task for each of `lines`, in order, each with the state
/// that its line's marker gives.
pub open spec fn holds_lines(tasks: Seq<Task>, lines: Seq<Seq<char>>) -> bool {
    &&& tasks.len() == lines.len()
    &&& forall|i: int|
        0 <= i < tasks.len() ==> #[trigger] tasks[i].text@ == lines[i] && tasks[i].task_type
            == decode_spec(lines[i])
}

/// Every task of `tasks` agrees with its marker.
pub open spec fn all_wf(tasks: Seq<Task>) -> bool {
    forall|i: int| 0 <= i < tasks.len() ==> #[trigger] tasks[i].wf()
}

proof fn lemma_filter_push(s: Seq<Task>, x: Task, k: TaskType)
    ensures
        of_state(s.push(x), k) == (if x.task_type == k {
            of_state(s, k).push(x)
        } else {
            of_state(s, k)
        }),
{
    reveal(Seq::filter);
    assert(s.push(x).drop_last() =~= s);
}

proof fn lemma_all_wf_concat(a: Seq<Task>, b: Seq<Task>)
    requires
        all_wf(a),
        all_wf(b),
    ensures
        all_wf(a + b),
{
    assert forall|i: int| 0 <= i < (a + b).len() implies #[trigger] (a + b)[i].wf() by {
        if i >= a.len() {
            assert((a + b)[i] == b[i - a.len()]);
        }
    }
}

/// The position held by an index that does not fit the list.
pub struct OutOfRange {
    pub index: usize,
    pub len: usize,
}

/// The task list: its tasks in order, and whether a state edit is in
/// progress and not yet saved.
pub struct TodoList {
    pub tasks: Vec<Task>,
    pub is_editing: bool,
}

impl TodoList {
    /// Every task agrees with its marker.
    pub open spec fn wf(&self) -> bool {
        all_wf(self.tasks@)
    }

    /// An empty list, not editing.
    pub fn new() -> (r: Self)
        ensures
            r.wf(),
            r.tasks@.len() == 0,
            !r.is_editing,
    {
        TodoList { tasks: Vec::new(), is_editing: false }
    }

    /// Appends a task with the given line and state at the end of the list.
    pub fn add(&mut self, text: &str, task_type: TaskType)
        requires
            old(self).wf(),
            task_type == decode_spec(text@),
        ensures
            final(self).wf(),
            final(self).is_editing == old(self).is_editing,
            final(self).tasks@.len() == old(self).tasks@.len() + 1,
            final(self).tasks@.take(old(self).tasks@.len() as int) == old(self).tasks@,
            final(self).tasks@.last().task_type == task_type,
            final(self).tasks@.last().text@ == text@,
    {
        let new_task = Task { task_type, text: text.to_owned() };
        self.tasks.push(new_task);
        assert(final(self).tasks@.take(old(self).tasks@.len() as int) =~= old(self).tasks@);
    }

    /// Replaces the whole list by one task for each line, in order, each in
    /// the state that its line's marker gives.
    pub fn load(&mut self, lines: &Vec<String>)
        requires
            old(self).wf(),
        ensures
            final(self).wf(),
            final(self).is_editing == old(self).is_editing,
            holds_lines(final(self).tasks@, lines@.map_values(|l: String| l@)),
    {
        self.tasks = Vec::new();
        let mut i: usize = 0;
        while i < lines.len()
            invariant
                self.wf(),
                self.is_editing == old(self).is_editing,
                i <= lines@.len(),
                holds_lines(self.tasks@, lines@.take(i as int).map_values(|l: String| l@)),
            decreases lines@.len() - i,
        {
            let ghost before = self.tasks@;
            let line = lines[i].as_str();
            self.add(line, get_type_from_string(line));
            proof {
                assert forall|j: int| 0 <= j < before.len() implies self.tasks@[j] == before[j] by {
                    assert(self.tasks@.take(before.len() as int)[j] == self.tasks@[j]);
                }
                let prev = lines@.take(i as int).map_values(|l: String| l@);
                let cur = lines@.take(i + 1).map_values(|l: String| l@);
                assert forall|j: int| 0 <= j < self.tasks@.len() implies #[trigger] self.tasks@[j].text@
                    == cur[j] && self.tasks@[j].task_type == decode_spec(cur[j]) by {
                    if j < before.len() {
                        assert(prev[j] == cur[j]);
                        assert(before[j].text@ == prev[j]);
                    }
                }
            }
            i = i + 1;
        }
        assert(lines@.take(i as int) =~= lines@);
    }
}

impl TodoList {
    /// Advances the task at `index` to its next state (see
    /// [`Task::change_type`]); an index past the end of the list is refused
    /// and the list is left unchanged.
    pub fn change_state(&mut self, index: usize) -> (r: Result<(), OutOfRange>)
        requires
            old(self).wf(),
        ensures
            final(self).wf(),
            final(self).is_editing == old(self).is_editing,
            index >= old(self).tasks@.len() ==> r == Err::<(), OutOfRange>(
                (OutOfRange { index, len: old(self).tasks@.len() as usize }),
            ) && final(self).tasks@ == old(self).tasks@,
            index < old(self).tasks@.len() ==> r is Ok && final(self).tasks@.len()
                == old(self).tasks@.len() && cycled(
                old(self).tasks@[index as int],
                final(self).tasks@[index as int],
            ) && forall|j: int|
                0 <= j < old(self).tasks@.len() && j != index ==> #[trigger] final(self).tasks@[j]
                    == old(self).tasks@[j],
    {
        let len = self.tasks.len();
        if index >= len {
            return Err(OutOfRange { index, len });
        }
        let mut task = self.tasks.remove(index);
        task.change_type();
        self.tasks.insert(index, task);
        proof {
            assert forall|j: int| 0 <= j < self.tasks@.len() implies #[trigger] self.tasks@[j].wf() by {
                if j < index {
                    assert(self.tasks@[j] == old(self).tasks@[j]);
                } else if j > index {
                    assert(self.tasks@[j] == old(self).tasks@[j]);
                }
            }
        }
        Ok(())
    }

    /// Stably sorts the tasks by state: Todo, Doing, Done, Rejected, then
    /// NotDefined; tasks of one state keep their relative order.
    pub fn sort_by_state(&mut self)
        requires
            old(self).wf(),
        ensures
            final(self).wf(),
            final(self).is_editing == old(self).is_editing,
            final(self).tasks@ == sorted_by_state(old(self).tasks@),
    {
        let mut rest: Vec<Task> = Vec::new();
        std::mem::swap(&mut rest, &mut self.tasks);
        let ghost orig = rest@;
        let n: usize = rest.len();
        let mut todo: Vec<Task> = Vec::new();
        let mut doing: Vec<Task> = Vec::new();
        let mut done: Vec<Task> = Vec::new();
        let mut rejected: Vec<Task> = Vec::new();
        let mut undefined: Vec<Task> = Vec::new();
        let mut i: usize = 0;
        proof {
            reveal(Seq::filter);
            assert(orig.take(0) =~= Seq::<Task>::empty());
        }
        while rest.len() > 0
            invariant
                all_wf(orig),
                orig.len() == n,
                i <= orig.len(),
                rest@ == orig.skip(i as int),
                todo@ == of_state(orig.take(i as int), TaskType::Todo),
                doing@ == of_state(orig.take(i as int), TaskType::Doing),
                done@ == of_state(orig.take(i as int), TaskType::Done),
                rejected@ == of_state(orig.take(i as int), TaskType::Rejected),
                undefined@ == of_state(orig.take(i as int), TaskType::NotDefined),
                all_wf(todo@),
                all_wf(doing@),
                all_wf(done@),
                all_wf(rejected@),
                all_wf(undefined@),
                self.is_editing == old(self).is_editing,
            decreases rest@.len(),
        {
            let t = rest.remove(0);
            proof {
                assert(t == orig[i as int]);
                assert(t.wf());
                assert(orig.take(i + 1) =~= orig.take(i as int).push(t));
                assert(rest@ =~= orig.skip(i + 1));
                lemma_filter_push(orig.take(i as int), t, TaskType::Todo);
                lemma_filter_push(orig.take(i as int), t, TaskType::Doing);
                lemma_filter_push(orig.take(i as int), t, TaskType::Done);
                lemma_filter_push(orig.take(i as int), t, TaskType::Rejected);
                lemma_filter_push(orig.take(i as int), t, TaskType::NotDefined);
            }
            match t.task_type {
                TaskType::Todo => todo.push(t),
                TaskType::Doing => doing.push(t),
                TaskType::Done => done.push(t),
                TaskType::Rejected => rejected.push(t),
                TaskType::NotDefined => undefined.push(t),
            }
            i = i + 1;
        }
        proof {
            assert(orig.take(i as int) =~= orig);
            lemma_all_wf_concat(todo@, doing@);
            lemma_all_wf_concat(todo@ + doing@, done@);
            lemma_all_wf_concat(todo@ + doing@ + done@, rejected@);
            lemma_all_wf_concat(todo@ + doing@ + done@ + rejected@, undefined@);
        }
        todo.append(&mut doing);
        todo.append(&mut done);
        todo.append(&mut rejected);
        todo.append(&mut undefined);
        self.tasks = todo;
    }

    /// The file contents for the list as it stands: each task's line followed
    /// by a newline.
    pub fn contents(&self) -> (r: String)
        ensures
            r@ == contents_spec(self.tasks@),
    {
        let mut r = String::new();
        let mut i: usize = 0;
        while i < self.tasks.len()
            invariant
                i <= self.tasks@.len(),
                r@ == contents_spec(self.tasks@.take(i as int)),
            decreases self.tasks@.len() - i,
        {
            proof {
                reveal_strlit("\n");
                let next = self.tasks@.take(i + 1);
                assert(next.drop_last() =~= self.tasks@.take(i as int));
            }
            r.append(self.tasks[i].text.as_str());
            r.append("\n");
            i = i + 1;
        }
        assert(self.tasks@.take(i as int) =~= self.tasks@);
        r
    }

    /// Sorts the list by state and returns what is to be written to its file.
    pub fn save(&mut self) -> (r: String)
        requires
            old(self).wf(),
        ensures
            final(self).wf(),
            final(self).is_editing == old(self).is_editing,
            final(self).tasks@ == sorted_by_state(old(self).tasks@),
            r@ == contents_spec(final(self).tasks@),
    {
        self.sort_by_state();
        self.contents()
    }
}

} // verus!
