use vstd::prelude::*;

use crate::lines::{lines_spec, scan, strip_cr};
use crate::list::{Task, all_wf, contents_spec, holds_lines, of_state, sorted_by_state, texts};
use crate::state::TaskType;

verus! {

broadcast use vstd::seq_lib::group_seq_properties;

/// A line that a file read gives back as it was written: it holds no newline
/// and does not end in a carriage return.
pub open spec fn line_survives(line: Seq<char>) -> bool {
    &&& forall|i: int| 0 <= i < line.len() ==> line[i] != '\n'
    &&& !(line.len() > 0 && line.last() == '\r')
}

proof fn lemma_of_state_twice(s: Seq<Task>, j: TaskType, k: TaskType)
    ensures
        of_state(of_state(s, j), k) == (if j == k {
            of_state(s, k)
        } else {
            Seq::<Task>::empty()
        }),
    decreases s.len(),
{
    reveal(Seq::filter);
    if s.len() > 0 {
        lemma_of_state_twice(s.drop_last(), j, k);
        let inner = of_state(s, j);
        if s.last().task_type == j {
            assert(inner.drop_last() =~= of_state(s.drop_last(), j));
        }
    }
}

/// Saving keeps the order of the tasks within each state: the tasks of any
/// one state come out of the sort in the order they went in.
pub proof fn lemma_sort_is_stable(tasks: Seq<Task>, k: TaskType)
    ensures
        of_state(sorted_by_state(tasks), k) == of_state(tasks, k),
{
    let a = of_state(tasks, TaskType::Todo);
    let b = of_state(tasks, TaskType::Doing);
    let c = of_state(tasks, TaskType::Done);
    let d = of_state(tasks, TaskType::Rejected);
    let e = of_state(tasks, TaskType::NotDefined);
    lemma_of_state_twice(tasks, TaskType::Todo, k);
    lemma_of_state_twice(tasks, TaskType::Doing, k);
    lemma_of_state_twice(tasks, TaskType::Done, k);
    lemma_of_state_twice(tasks, TaskType::Rejected, k);
    lemma_of_state_twice(tasks, TaskType::NotDefined, k);
    let p = |t: Task| t.task_type == k;
    Seq::filter_distributes_over_add(a, b, p);
    Seq::filter_distributes_over_add(a + b, c, p);
    Seq::filter_distributes_over_add(a + b + c, d, p);
    Seq::filter_distributes_over_add(a + b + c + d, e, p);
    assert(of_state(sorted_by_state(tasks), k) =~= of_state(tasks, k));
}

/// Sorting an already sorted list changes nothing, so a second save with no
/// edit in between writes the same thing.
pub proof fn lemma_sort_idempotent(tasks: Seq<Task>)
    ensures
        sorted_by_state(sorted_by_state(tasks)) == sorted_by_state(tasks),
        contents_spec(sorted_by_state(sorted_by_state(tasks))) == contents_spec(
            sorted_by_state(tasks),
        ),
{
    lemma_sort_is_stable(tasks, TaskType::Todo);
    lemma_sort_is_stable(tasks, TaskType::Doing);
    lemma_sort_is_stable(tasks, TaskType::Done);
    lemma_sort_is_stable(tasks, TaskType::Rejected);
    lemma_sort_is_stable(tasks, TaskType::NotDefined);
}

proof fn lemma_of_state_from(s: Seq<Task>, k: TaskType, i: int)
    requires
        0 <= i < of_state(s, k).len(),
    ensures
        s.contains(of_state(s, k)[i]),
    decreases s.len(),
{
    reveal(Seq::filter);
    let front = s.drop_last();
    if i < of_state(front, k).len() {
        lemma_of_state_from(front, k, i);
        let j = choose|j: int| 0 <= j < front.len() && front[j] == of_state(front, k)[i];
        assert(s[j] == front[j]);
    } else {
        assert(s[s.len() - 1] == of_state(s, k)[i]);
    }
}

proof fn lemma_sorted_from(s: Seq<Task>, i: int)
    requires
        0 <= i < sorted_by_state(s).len(),
    ensures
        s.contains(sorted_by_state(s)[i]),
{
    let a = of_state(s, TaskType::Todo);
    let b = of_state(s, TaskType::Doing);
    let c = of_state(s, TaskType::Done);
    let d = of_state(s, TaskType::Rejected);
    let e = of_state(s, TaskType::NotDefined);
    let x = sorted_by_state(s)[i];
    if i < a.len() {
        assert(x == a[i]);
        lemma_of_state_from(s, TaskType::Todo, i);
    } else if i < a.len() + b.len() {
        assert(x == b[i - a.len()]);
        lemma_of_state_from(s, TaskType::Doing, i - a.len());
    } else if i < a.len() + b.len() + c.len() {
        assert(x == c[i - a.len() - b.len()]);
        lemma_of_state_from(s, TaskType::Done, i - a.len() - b.len());
    } else if i < a.len() + b.len() + c.len() + d.len() {
        assert(x == d[i - a.len() - b.len() - c.len()]);
        lemma_of_state_from(s, TaskType::Rejected, i - a.len() - b.len() - c.len());
    } else {
        assert(x == e[i - a.len() - b.len() - c.len() - d.len()]);
        lemma_of_state_from(s, TaskType::NotDefined, i - a.len() - b.len() - c.len() - d.len());
    }
}

proof fn lemma_scan_line(p: Seq<char>, w: Seq<char>)
    requires
        scan(p).1.len() == 0,
        forall|i: int| 0 <= i < w.len() ==> w[i] != '\n',
    ensures
        scan(p + w) == (scan(p).0, w),
    decreases w.len(),
{
    if w.len() == 0 {
        assert(p + w =~= p);
    } else {
        lemma_scan_line(p, w.drop_last());
        assert((p + w).drop_last() =~= p + w.drop_last());
        assert(w.drop_last().push(w.last()) =~= w);
    }
}

proof fn lemma_scan_contents(tasks: Seq<Task>)
    requires
        forall|i: int| 0 <= i < tasks.len() ==> line_survives(#[trigger] tasks[i].text@),
    ensures
        scan(contents_spec(tasks)) == (texts(tasks), Seq::<char>::empty()),
    decreases tasks.len(),
{
    if tasks.len() > 0 {
        let front = tasks.drop_last();
        assert forall|i: int| 0 <= i < front.len() implies line_survives(
            #[trigger] front[i].text@,
        ) by {
            assert(front[i] == tasks[i]);
        }
        lemma_scan_contents(front);
        let w = tasks.last().text@;
        assert(line_survives(tasks[tasks.len() - 1].text@));
        let x = contents_spec(front) + w;
        lemma_scan_line(contents_spec(front), w);
        assert((x + seq!['\n']).drop_last() =~= x);
        assert(strip_cr(w) == w);
        assert(texts(tasks) =~= texts(front).push(w));
    }
}

/// Saving a list and loading what was written gives back, line for line, the
/// saved (sorted) list with the same states and the same lines, provided no
/// line holds a newline or ends in a carriage return.
pub proof fn lemma_save_load_round_trip(tasks: Seq<Task>, loaded: Seq<Task>)
    requires
        all_wf(tasks),
        forall|i: int| 0 <= i < tasks.len() ==> line_survives(#[trigger] tasks[i].text@),
        holds_lines(loaded, lines_spec(contents_spec(sorted_by_state(tasks)))),
    ensures
        loaded.len() == sorted_by_state(tasks).len(),
        forall|i: int|
            0 <= i < loaded.len() ==> (#[trigger] loaded[i]).task_type == sorted_by_state(
                tasks,
            )[i].task_type && loaded[i].text@ == sorted_by_state(tasks)[i].text@,
{
    let sorted = sorted_by_state(tasks);
    assert forall|i: int| 0 <= i < sorted.len() implies line_survives(
        #[trigger] sorted[i].text@,
    ) && sorted[i].wf() by {
        lemma_sorted_from(tasks, i);
        let j = choose|j: int| 0 <= j < tasks.len() && tasks[j] == sorted[i];
        assert(tasks[j].wf());
    }
    lemma_scan_contents(sorted);
    let lines = lines_spec(contents_spec(sorted));
    assert(lines == texts(sorted));
    assert forall|i: int| 0 <= i < loaded.len() implies (#[trigger] loaded[i]).task_type
        == sorted[i].task_type && loaded[i].text@ == sorted[i].text@ by {
        assert(loaded[i].text@ == lines[i]);
        assert(sorted[i].wf());
    }
}

} // verus!
