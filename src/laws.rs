use vstd::prelude::*;

use crate::board::{spec_append, spec_remove_at, spec_set_status_at, valid_index, TaskRecord};
use crate::task::TaskStatus;

verus! {

/// The list after one task per title has been added, in the order of
/// `titles`.
pub open spec fn append_all(tasks: Seq<TaskRecord>, titles: Seq<Seq<char>>) -> Seq<TaskRecord>
    decreases titles.len(),
{
    if titles.len() == 0 {
        tasks
    } else {
        spec_append(append_all(tasks, titles.drop_last()), titles.last())
    }
}

/// The list after the first task has been removed `n` times over.
pub open spec fn remove_front_times(tasks: Seq<TaskRecord>, n: nat) -> Seq<TaskRecord>
    decreases n,
{
    if n == 0 {
        tasks
    } else {
        spec_remove_at(remove_front_times(tasks, (n - 1) as nat), 0)
    }
}

/// Adding tasks keeps the tasks already there, then lists the new ones in
/// the order of the calls, each with its title and in stage `Todo`.
pub proof fn lemma_appends_keep_order(tasks: Seq<TaskRecord>, titles: Seq<Seq<char>>)
    ensures
        append_all(tasks, titles).len() == tasks.len() + titles.len(),
        forall|i: int| 0 <= i < tasks.len() ==> #[trigger] append_all(tasks, titles)[i] == tasks[i],
        forall|k: int|
            0 <= k < titles.len() ==> append_all(tasks, titles)[tasks.len() + k] == (
                #[trigger] titles[k],
                TaskStatus::Todo,
            ),
    decreases titles.len(),
{
    if titles.len() > 0 {
        let rest = titles.drop_last();
        lemma_appends_keep_order(tasks, rest);
        assert forall|k: int| 0 <= k < titles.len() implies append_all(tasks, titles)[tasks.len()
            + k] == (#[trigger] titles[k], TaskStatus::Todo) by {
            if k < rest.len() {
                assert(titles[k] == rest[k]);
            }
        }
    }
}

proof fn lemma_remove_front_len(tasks: Seq<TaskRecord>, n: nat)
    requires
        n <= tasks.len(),
    ensures
        remove_front_times(tasks, n).len() == tasks.len() - n,
    decreases n,
{
    if n > 0 {
        lemma_remove_front_len(tasks, (n - 1) as nat);
    }
}

/// Adding `titles.len()` tasks to an empty list and then removing the task
/// at position 0 as many times leaves the list empty; removing from an empty
/// list changes nothing.
pub proof fn lemma_drain_front(titles: Seq<Seq<char>>)
    ensures
        remove_front_times(append_all(Seq::empty(), titles), titles.len()) == Seq::<
            TaskRecord,
        >::empty(),
        spec_remove_at(Seq::empty(), 0) == Seq::<TaskRecord>::empty(),
{
    let full = append_all(Seq::empty(), titles);
    lemma_appends_keep_order(Seq::empty(), titles);
    lemma_remove_front_len(full, titles.len());
    assert(remove_front_times(full, titles.len()) =~= Seq::<TaskRecord>::empty());
}

/// After the task at a valid `index` has been moved to `status`, the task
/// read back at `index` is in `status` and keeps its title; the list keeps
/// its length.
pub proof fn lemma_set_status_then_read(tasks: Seq<TaskRecord>, index: int, status: TaskStatus)
    requires
        valid_index(tasks, index),
    ensures
        spec_set_status_at(tasks, index, status).len() == tasks.len(),
        spec_set_status_at(tasks, index, status)[index].1 == status,
        spec_set_status_at(tasks, index, status)[index].0 == tasks[index].0,
{
}

/// An index that names no task (negative, or past the end) leaves the list
/// unchanged, whether a removal or a change of stage is asked for.
pub proof fn lemma_stale_index_no_change(tasks: Seq<TaskRecord>, index: int, status: TaskStatus)
    requires
        !valid_index(tasks, index),
    ensures
        spec_remove_at(tasks, index) == tasks,
        spec_set_status_at(tasks, index, status) == tasks,
{
}

} // verus!
