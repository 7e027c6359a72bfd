use vstd::prelude::*;

use crate::task::{Task, TaskMessage, TaskStatus};

verus! {

/// What the board knows of one task: its title and its stage.
pub type TaskRecord = (Seq<char>, TaskStatus);

/// The list after a new task titled `title` has been added at its end.
pub open spec fn spec_append(tasks: Seq<TaskRecord>, title: Seq<char>) -> Seq<TaskRecord> {
    tasks.push((title, TaskStatus::Todo))
}

/// Whether `index` names a task of the list.
pub open spec fn valid_index(tasks: Seq<TaskRecord>, index: int) -> bool {
    0 <= index < tasks.len()
}

/// The list after the task at `index` has been removed; unchanged where
/// `index` names no task.
pub open spec fn spec_remove_at(tasks: Seq<TaskRecord>, index: int) -> Seq<TaskRecord> {
    if valid_index(tasks, index) {
        tasks.remove(index)
    } else {
        tasks
    }
}

/// The list after the task at `index` has been moved to `status`; unchanged
/// where `index` names no task.
pub open spec fn spec_set_status_at(
    tasks: Seq<TaskRecord>,
    index: int,
    status: TaskStatus,
) -> Seq<TaskRecord> {
    if valid_index(tasks, index) {
        tasks.update(index, (tasks[index].0, status))
    } else {
        tasks
    }
}

/// What `str::trim` makes of a text: it depends on the characters alone.
pub uninterp spec fn trimmed(s: Seq<char>) -> Seq<char>;

/// Relies on `str::trim`: the text without its leading and trailing
/// whitespace, copied into a new `String`.
#[verifier::external_body]
fn trim_text(s: &str) -> (r: String)
    ensures
        r@ == trimmed(s@),
{
    s.trim().to_string()
}

/// The positions `0 .. n`, in order.
pub open spec fn positions(n: nat) -> Seq<int> {
    Seq::new(n, |i: int| i)
}

/// Whether the task at a position is in stage `status`.
pub open spec fn in_group(tasks: Seq<TaskRecord>, status: TaskStatus) -> spec_fn(int) -> bool {
    |i: int| tasks[i].1 == status
}

/// The positions of the tasks among the first `n` that are in stage `status`,
/// in list order.
pub open spec fn group_upto(tasks: Seq<TaskRecord>, status: TaskStatus, n: nat) -> Seq<int> {
    positions(n).filter(in_group(tasks, status))
}

/// The positions of the tasks in stage `status`, in list order.
pub open spec fn group_indices(tasks: Seq<TaskRecord>, status: TaskStatus) -> Seq<int> {
    group_upto(tasks, status, tasks.len())
}

proof fn lemma_group_upto_step(tasks: Seq<TaskRecord>, status: TaskStatus, n: nat)
    ensures
        group_upto(tasks, status, n + 1) == if tasks[n as int].1 == status {
            group_upto(tasks, status, n).push(n as int)
        } else {
            group_upto(tasks, status, n)
        },
{
    reveal(Seq::filter);
    assert(positions(n + 1).drop_last() =~= positions(n));
}

proof fn lemma_group_upto(tasks: Seq<TaskRecord>, status: TaskStatus, n: nat)
    requires
        n <= tasks.len(),
    ensures
        forall|k: int|
            0 <= k < group_upto(tasks, status, n).len() ==> {
                let i = #[trigger] group_upto(tasks, status, n)[k];
                0 <= i < n && tasks[i].1 == status
            },
        forall|k: int, l: int|
            0 <= k < l < group_upto(tasks, status, n).len() ==> group_upto(tasks, status, n)[k]
                < group_upto(tasks, status, n)[l],
        forall|i: int|
            0 <= i < n ==> (group_upto(tasks, status, n).contains(i) <==> tasks[i].1 == status),
    decreases n,
{
    if n == 0 {
        reveal(Seq::filter);
    } else {
        let m = (n - 1) as nat;
        lemma_group_upto(tasks, status, m);
        lemma_group_upto_step(tasks, status, m);
        let g = group_upto(tasks, status, m);
        let big = group_upto(tasks, status, n);
        assert forall|i: int| 0 <= i < n implies (big.contains(i) <==> tasks[i].1 == status) by {
            if i < m {
                assert(g.contains(i) <==> tasks[i].1 == status);
                if g.contains(i) {
                    let k = choose|k: int| 0 <= k < g.len() && g[k] == i;
                    assert(big[k] == i);
                }
                if big.contains(i) {
                    let k = choose|k: int| 0 <= k < big.len() && big[k] == i;
                    if k < g.len() {
                        assert(g[k] == i);
                    }
                }
            } else if tasks[m as int].1 == status {
                assert(big[g.len() as int] == m);
            } else {
                if big.contains(i) {
                    let k = choose|k: int| 0 <= k < big.len() && big[k] == i;
                    assert(g[k] == i);
                }
            }
        }
    }
}

proof fn lemma_group_sizes(tasks: Seq<TaskRecord>, n: nat)
    requires
        n <= tasks.len(),
    ensures
        group_upto(tasks, TaskStatus::Todo, n).len() + group_upto(tasks, TaskStatus::InProgress, n).len()
            + group_upto(tasks, TaskStatus::Done, n).len() == n,
    decreases n,
{
    if n == 0 {
        reveal(Seq::filter);
    } else {
        let m = (n - 1) as nat;
        lemma_group_sizes(tasks, m);
        lemma_group_upto_step(tasks, TaskStatus::Todo, m);
        lemma_group_upto_step(tasks, TaskStatus::InProgress, m);
        lemma_group_upto_step(tasks, TaskStatus::Done, m);
    }
}

/// The stage groups partition the list: a position is in a group exactly when
/// its task is in that group's stage, so each task is in exactly one group;
/// every entry of a group is a position of the list whose task is in that
/// stage; each group keeps the list's order; and the three groups together
/// are exactly as long as the list.
pub proof fn lemma_groups_partition(tasks: Seq<TaskRecord>)
    ensures
        forall|status: TaskStatus, i: int|
            valid_index(tasks, i) ==> (#[trigger] group_indices(tasks, status).contains(i)
                <==> tasks[i].1 == status),
        forall|status: TaskStatus, k: int|
            0 <= k < group_indices(tasks, status).len() ==> {
                let i = #[trigger] group_indices(tasks, status)[k];
                valid_index(tasks, i) && tasks[i].1 == status
            },
        forall|status: TaskStatus, k: int, l: int|
            0 <= k < l < group_indices(tasks, status).len() ==> #[trigger] group_indices(
                tasks,
                status,
            )[k] < #[trigger] group_indices(tasks, status)[l],
        group_indices(tasks, TaskStatus::Todo).len() + group_indices(
            tasks,
            TaskStatus::InProgress,
        ).len() + group_indices(tasks, TaskStatus::Done).len() == tasks.len(),
{
    lemma_group_upto(tasks, TaskStatus::Todo, tasks.len());
    lemma_group_upto(tasks, TaskStatus::InProgress, tasks.len());
    lemma_group_upto(tasks, TaskStatus::Done, tasks.len());
    lemma_group_sizes(tasks, tasks.len());
    assert forall|status: TaskStatus, i: int|
        valid_index(tasks, i) implies (#[trigger] group_indices(tasks, status).contains(i)
        <==> tasks[i].1 == status) by {
        match status {
            TaskStatus::Todo => {},
            TaskStatus::InProgress => {},
            TaskStatus::Done => {},
        }
    }
}

/// One entry of a stage group: where the task stands in the list, and what
/// it shows.
pub struct TaskEntry {
    pub index: usize,
    pub title: String,
    pub status: TaskStatus,
}

/// An event of the board's window.
#[derive(Clone, Debug)]
pub enum Message {
    /// A task's control was used; the task is named by its position.
    TaskChanged(usize, TaskMessage),
    /// The text of the input field changed.
    TextFieldChanged(String),
    /// A new task was asked for, titled by the input field.
    CreateTask,
}

/// The board: the ordered list of tasks and the text being typed for the
/// next one.
pub struct TodoApplication {
    task_list: Vec<Task>,
    text_input: String,
}

impl TodoApplication {
    /// The tasks, in order.
    pub closed spec fn tasks(&self) -> Seq<TaskRecord> {
        self.task_list@.map_values(|t: Task| t@)
    }

    /// The text of the input field.
    pub closed spec fn input(&self) -> Seq<char> {
        self.text_input@
    }

    /// An empty board with an empty input field.
    pub fn new() -> (r: TodoApplication)
        ensures
            r.tasks() == Seq::<TaskRecord>::empty(),
            r.input() == Seq::<char>::empty(),
    {
        let r = TodoApplication { task_list: Vec::new(), text_input: String::new() };
        assert(r.tasks() =~= Seq::<TaskRecord>::empty());
        r
    }

    /// The window's title.
    pub fn title(&self) -> (r: &'static str)
        ensures
            r@ == "Icy Kanban"@,
    {
        "Icy Kanban"
    }

    /// Adds a task titled `title`, in stage `Todo`, at the end of the list.
    pub fn add_task(&mut self, title: String)
        ensures
            final(self).tasks() == spec_append(old(self).tasks(), title@),
            final(self).input() == old(self).input(),
    {
        let ghost before = self.tasks();
        self.task_list.push(Task::new(title));
        assert(self.tasks() =~= spec_append(before, title@));
    }

    /// Removes the task at `index`; does nothing where `index` names no task.
    pub fn remove_at(&mut self, index: usize)
        ensures
            final(self).tasks() == spec_remove_at(old(self).tasks(), index as int),
            final(self).input() == old(self).input(),
    {
        if index < self.task_list.len() {
            let ghost before = self.tasks();
            self.task_list.remove(index);
            assert(self.tasks() =~= before.remove(index as int));
        }
    }

    /// Moves the task at `index` to `status`; does nothing where `index`
    /// names no task.
    pub fn set_status_at(&mut self, index: usize, status: TaskStatus)
        ensures
            final(self).tasks() == spec_set_status_at(old(self).tasks(), index as int, status),
            final(self).input() == old(self).input(),
    {
        if index < self.task_list.len() {
            let ghost before = self.tasks();
            self.task_list[index].update(TaskMessage::MarkAs(status));
            assert(self.tasks() =~= before.update(
                index as int,
                (before[index as int].0, status),
            ));
        }
    }

    /// Applies one event of the window.
    pub fn update(&mut self, message: Message)
        ensures
            match message {
                Message::TaskChanged(i, TaskMessage::Delete) => {
                    &&& final(self).tasks() == spec_remove_at(old(self).tasks(), i as int)
                    &&& final(self).input() == old(self).input()
                },
                Message::TaskChanged(i, TaskMessage::MarkAs(s)) => {
                    &&& final(self).tasks() == spec_set_status_at(old(self).tasks(), i as int, s)
                    &&& final(self).input() == old(self).input()
                },
                Message::TextFieldChanged(s) => {
                    &&& final(self).tasks() == old(self).tasks()
                    &&& final(self).input() == s@
                },
                Message::CreateTask => {
                    &&& final(self).tasks() == spec_append(
                        old(self).tasks(),
                        trimmed(old(self).input()),
                    )
                    &&& final(self).input() == Seq::<char>::empty()
                },
            },
    {
        match message {
            Message::TaskChanged(i, TaskMessage::Delete) => {
                self.remove_at(i);
            },
            Message::TaskChanged(i, TaskMessage::MarkAs(status)) => {
                self.set_status_at(i, status);
            },
            Message::TextFieldChanged(s) => {
                self.text_input = s;
            },
            Message::CreateTask => {
                let title = trim_text(self.text_input.as_str());
                self.add_task(title);
                self.text_input = String::new();
            },
        }
    }

    /// The tasks in stage `status`, in list order, each with its position so
    /// that an event from it can name the task.
    pub fn filtered_tasks(&self, status: TaskStatus) -> (r: Vec<TaskEntry>)
        ensures
            r@.len() == group_indices(self.tasks(), status).len(),
            forall|k: int|
                0 <= k < r@.len() ==> {
                    let e = #[trigger] r@[k];
                    &&& e.index as int == group_indices(self.tasks(), status)[k]
                    &&& e.title@ == self.tasks()[e.index as int].0
                    &&& e.status == status
                },
    {
        let mut r: Vec<TaskEntry> = Vec::new();
        let n = self.task_list.len();
        let mut i: usize = 0;
        while i < n
            invariant
                n == self.tasks().len(),
                i <= n,
                r@.len() == group_upto(self.tasks(), status, i as nat).len(),
                forall|k: int|
                    0 <= k < r@.len() ==> {
                        let e = #[trigger] r@[k];
                        &&& e.index as int == group_upto(self.tasks(), status, i as nat)[k]
                        &&& e.title@ == self.tasks()[e.index as int].0
                        &&& e.status == status
                    },
            decreases n - i,
        {
            proof {
                lemma_group_upto_step(self.tasks(), status, i as nat);
            }
            let task = &self.task_list[i];
            if task.status() == status {
                r.push(TaskEntry { index: i, title: task.title().to_owned(), status });
            }
            i = i + 1;
        }
        r
    }

    /// The number of tasks.
    pub fn len(&self) -> (r: usize)
        ensures
            r == self.tasks().len(),
    {
        self.task_list.len()
    }

    /// The task at `index`, if there is one.
    pub fn task_at(&self, index: usize) -> (r: Option<&Task>)
        ensures
            valid_index(self.tasks(), index as int) <==> r.is_some(),
            r.is_some() ==> r.unwrap()@ == self.tasks()[index as int],
    {
        if index < self.task_list.len() {
            Some(&self.task_list[index])
        } else {
            None
        }
    }

    /// The text of the input field.
    pub fn text_input(&self) -> (r: &str)
        ensures
            r@ == self.input(),
    {
        self.text_input.as_str()
    }
}

} // verus!
