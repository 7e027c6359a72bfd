use vstd::prelude::*;

verus! {

/// The three stages a task moves through.
#[derive(Clone, Copy, Debug, PartialEq, Eq, Structural)]
pub enum TaskStatus {
    Todo,
    InProgress,
    Done,
}

/// The stage a control offers to move back to, if any.
pub open spec fn spec_retreat(s: TaskStatus) -> Option<TaskStatus> {
    match s {
        TaskStatus::Todo => None,
        TaskStatus::InProgress => Some(TaskStatus::Todo),
        TaskStatus::Done => Some(TaskStatus::InProgress),
    }
}

/// The stage a control offers to move forward to, if any.
pub open spec fn spec_advance(s: TaskStatus) -> Option<TaskStatus> {
    match s {
        TaskStatus::Todo => Some(TaskStatus::InProgress),
        TaskStatus::InProgress => Some(TaskStatus::Done),
        TaskStatus::Done => None,
    }
}

/// The text shown for a stage.
pub open spec fn spec_label(s: TaskStatus) -> Seq<char> {
    match s {
        TaskStatus::Todo => "To do"@,
        TaskStatus::InProgress => "In Progress"@,
        TaskStatus::Done => "Done"@,
    }
}

impl TaskStatus {
    /// The text shown for this stage.
    pub fn label(&self) -> (r: &'static str)
        ensures
            r@ == spec_label(*self),
    {
        match self {
            TaskStatus::Todo => "To do",
            TaskStatus::InProgress => "In Progress",
            TaskStatus::Done => "Done",
        }
    }

    /// The stage that the "back" control of a task in this stage moves it to;
    /// `None` where the control is shown disabled.
    pub fn retreat(&self) -> (r: Option<TaskStatus>)
        ensures
            r == spec_retreat(*self),
    {
        match self {
            TaskStatus::Todo => None,
            TaskStatus::InProgress => Some(TaskStatus::Todo),
            TaskStatus::Done => Some(TaskStatus::InProgress),
        }
    }

    /// The stage that the "forward" control of a task in this stage moves it
    /// to; `None` where the control is shown disabled.
    pub fn advance(&self) -> (r: Option<TaskStatus>)
        ensures
            r == spec_advance(*self),
    {
        match self {
            TaskStatus::Todo => Some(TaskStatus::InProgress),
            TaskStatus::InProgress => Some(TaskStatus::Done),
            TaskStatus::Done => None,
        }
    }
}

/// What a single task's controls can ask for.
#[derive(Clone, Copy, Debug, PartialEq, Eq, Structural)]
pub enum TaskMessage {
    /// Remove the task; handled by the owner of the task list.
    Delete,
    /// Move the task to the given stage.
    MarkAs(TaskStatus),
}

/// The value of a task after it has handled `message`.
pub open spec fn spec_task_update(t: (Seq<char>, TaskStatus), message: TaskMessage) -> (
    Seq<char>,
    TaskStatus,
) {
    match message {
        TaskMessage::Delete => t,
        TaskMessage::MarkAs(s) => (t.0, s),
    }
}

/// A to-do item: a title fixed at creation and a stage.
pub struct Task {
    title: String,
    pub task_status: TaskStatus,
}

impl View for Task {
    type V = (Seq<char>, TaskStatus);

    closed spec fn view(&self) -> (Seq<char>, TaskStatus) {
        (self.title@, self.task_status)
    }
}

impl Task {
    /// A new task with the given title, in stage `Todo`.
    pub fn new(title: String) -> (r: Task)
        ensures
            r@ == (title@, TaskStatus::Todo),
    {
        Task { title, task_status: TaskStatus::Todo }
    }

    /// Applies a message from the task's own controls. Deletion is left to
    /// the list that owns the task, so `Delete` changes nothing here.
    pub fn update(&mut self, message: TaskMessage)
        ensures
            final(self)@ == spec_task_update(old(self)@, message),
    {
        match message {
            TaskMessage::Delete => {},
            TaskMessage::MarkAs(status) => {
                self.task_status = status;
            },
        }
    }

    /// The task's stage.
    pub fn status(&self) -> (r: TaskStatus)
        ensures
            r == self@.1,
    {
        self.task_status
    }

    /// The task's title.
    pub fn title(&self) -> (r: &str)
        ensures
            r@ == self@.0,
    {
        self.title.as_str()
    }
}

} // verus!
