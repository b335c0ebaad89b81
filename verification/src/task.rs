//! Tasks: one entry of the list, and the mathematical value that stands for it
//! in contracts.

use vstd::prelude::*;

verus! {

/// Whether a task is still to be done or has been completed.
#[derive(Clone, Copy, Debug, PartialEq, Eq, Structural)]
pub enum TodoStatus {
    /// Still to be done.
    Pending,
    /// Completed.
    Done,
}

impl TodoStatus {
    /// The other status.
    pub open spec fn toggled(self) -> TodoStatus {
        match self {
            TodoStatus::Pending => TodoStatus::Done,
            TodoStatus::Done => TodoStatus::Pending,
        }
    }

    /// Flips a pending task to done and a done task back to pending.
    pub fn toggle(&self) -> (flipped: TodoStatus)
        ensures
            flipped == self.toggled(),
    {
        match self {
            TodoStatus::Pending => TodoStatus::Done,
            TodoStatus::Done => TodoStatus::Pending,
        }
    }
}

/// Toggling twice gives the status back.
pub proof fn lemma_toggle_is_an_involution(status: TodoStatus)
    ensures
        status.toggled().toggled() == status,
        status.toggled() != status,
{
}

/// One entry of the list.
#[derive(Clone, Debug, PartialEq, Eq)]
pub struct Task {
    /// Pending or done.
    pub status: TodoStatus,
    /// What is to be done. Any text; positions in it count characters.
    pub text: String,
    /// When the task was created, as the text that is shown and stored.
    pub created_at: String,
}

/// What a [`Task`] holds, as a mathematical value.
#[verifier::ext_equal]
pub struct TaskView {
    pub status: TodoStatus,
    pub text: Seq<char>,
    pub created_at: Seq<char>,
}

impl View for Task {
    type V = TaskView;

    open spec fn view(&self) -> TaskView {
        TaskView { status: self.status, text: self.text@, created_at: self.created_at@ }
    }
}

impl TaskView {
    /// The task as it is when first created: pending, with no text yet.
    pub open spec fn fresh(created_at: Seq<char>) -> TaskView {
        TaskView { status: TodoStatus::Pending, text: Seq::empty(), created_at }
    }

    /// The same task with the other status.
    pub open spec fn toggled(self) -> TaskView {
        TaskView { status: self.status.toggled(), ..self }
    }

    /// The same task with another text.
    pub open spec fn with_text(self, text: Seq<char>) -> TaskView {
        TaskView { text, ..self }
    }
}

impl Task {
    /// A task with the given fields.
    pub fn new(status: TodoStatus, text: String, created_at: String) -> (task: Task)
        ensures
            task@ == (TaskView { status, text: text@, created_at: created_at@ }),
    {
        Task { status, text, created_at }
    }

    /// A pending task without text, created at the given time.
    pub fn fresh(created_at: String) -> (task: Task)
        ensures
            task@ == TaskView::fresh(created_at@),
    {
        Task { status: TodoStatus::Pending, text: String::new(), created_at }
    }
}

/// The tasks of a list, each as a mathematical value.
pub open spec fn task_views(tasks: Seq<Task>) -> Seq<TaskView> {
    tasks.map_values(|t: Task| t@)
}

} // verus!
