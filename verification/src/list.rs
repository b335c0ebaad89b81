//! The task list: the tasks in their order, and the one that is selected.

use vstd::prelude::*;
use crate::edit::{edit_field, EditState};
use crate::key::Key;
use crate::task::{task_views, Task, TaskView};

verus! {

/// An ordered list of tasks with a selection. New tasks enter at the front.
///
/// The selection is the index of a task of the list, and 0 while the list is
/// empty: every list that this module hands out is valid in this sense, and
/// every operation keeps a valid list valid.
#[derive(Debug)]
pub struct TaskList {
    tasks: Vec<Task>,
    selected: usize,
}

/// What a [`TaskList`] holds, as a mathematical value.
#[verifier::ext_equal]
pub struct TaskListView {
    pub tasks: Seq<TaskView>,
    pub selected: int,
}

impl View for TaskList {
    type V = TaskListView;

    closed spec fn view(&self) -> TaskListView {
        TaskListView { tasks: task_views(self.tasks@), selected: self.selected as int }
    }
}

impl TaskListView {
    /// The selection points at a task, or the list is empty and it is 0.
    pub open spec fn is_valid(self) -> bool {
        if self.tasks.len() == 0 {
            self.selected == 0
        } else {
            0 <= self.selected < self.tasks.len()
        }
    }

    /// The selection points at a task.
    pub open spec fn has_selection(self) -> bool {
        0 <= self.selected < self.tasks.len()
    }

    /// The selection moves one up, and from the first task to the last.
    pub open spec fn move_up(self) -> TaskListView {
        if self.selected > 0 {
            TaskListView { selected: self.selected - 1, ..self }
        } else if self.tasks.len() > 0 {
            TaskListView { selected: self.tasks.len() - 1, ..self }
        } else {
            self
        }
    }

    /// The selection moves one down, and from the last task to the first.
    pub open spec fn move_down(self) -> TaskListView {
        if self.selected + 1 < self.tasks.len() {
            TaskListView { selected: self.selected + 1, ..self }
        } else {
            TaskListView { selected: 0, ..self }
        }
    }

    /// The selected task changes its status. Without a selected task nothing
    /// changes.
    pub open spec fn toggle_status(self) -> TaskListView {
        if self.has_selection() {
            TaskListView {
                tasks: self.tasks.update(self.selected, self.tasks[self.selected].toggled()),
                ..self
            }
        } else {
            self
        }
    }

    /// The selected task leaves the list. The selection stays where it is, and
    /// so passes to the task that followed; where the last task left, it passes
    /// to the task before it. Without a selected task nothing changes.
    pub open spec fn delete(self) -> TaskListView {
        if self.has_selection() {
            TaskListView {
                tasks: self.tasks.remove(self.selected),
                selected: if self.selected == self.tasks.len() - 1 && self.selected > 0 {
                    self.selected - 1
                } else {
                    self.selected
                },
            }
        } else {
            self
        }
    }

    /// The list after a walk of single moves, each of them up (`true`) or down
    /// (`false`), in the order of `ups`.
    pub open spec fn after_moves(self, ups: Seq<bool>) -> TaskListView
        decreases ups.len(),
    {
        if ups.len() == 0 {
            self
        } else if ups.last() {
            self.after_moves(ups.drop_last()).move_up()
        } else {
            self.after_moves(ups.drop_last()).move_down()
        }
    }

    /// A fresh task enters at the front and is selected.
    pub open spec fn insert_new_at_front(self, created_at: Seq<char>) -> TaskListView {
        TaskListView { tasks: seq![TaskView::fresh(created_at)] + self.tasks, selected: 0 }
    }

    /// The text of the selected task, with a cursor in it.
    pub open spec fn edit_state(self, cursor: int) -> EditState
        recommends
            self.has_selection(),
    {
        EditState { text: self.tasks[self.selected].text, cursor }
    }

    /// The selected task takes the text that the editor makes of its text for
    /// one key. Without a selected task nothing changes.
    pub open spec fn edit(self, cursor: int, key: Key) -> TaskListView {
        if self.has_selection() {
            TaskListView {
                tasks: self.tasks.update(
                    self.selected,
                    self.tasks[self.selected].with_text(self.edit_state(cursor).press(key).text),
                ),
                ..self
            }
        } else {
            self
        }
    }
}

impl TaskList {
    /// The empty list.
    pub fn new() -> (list: TaskList)
        ensures
            list@.tasks.len() == 0,
            list@.selected == 0,
            list@.is_valid(),
    {
        TaskList { tasks: Vec::new(), selected: 0 }
    }

    /// The list of the given tasks, in their order, with the first selected.
    pub fn from_tasks(tasks: Vec<Task>) -> (list: TaskList)
        ensures
            list@ == (TaskListView { tasks: task_views(tasks@), selected: 0 }),
            list@.is_valid(),
    {
        TaskList { tasks, selected: 0 }
    }

    /// The number of tasks.
    pub fn len(&self) -> (n: usize)
        ensures
            n == self@.tasks.len(),
    {
        self.tasks.len()
    }

    /// Whether the list holds no task.
    pub fn is_empty(&self) -> (empty: bool)
        ensures
            empty == (self@.tasks.len() == 0),
    {
        self.tasks.len() == 0
    }

    /// The index of the selected task.
    pub fn selected_index(&self) -> (index: usize)
        ensures
            index == self@.selected,
    {
        self.selected
    }

    /// The tasks, in their order.
    pub fn tasks(&self) -> (tasks: &Vec<Task>)
        ensures
            task_views(tasks@) == self@.tasks,
    {
        &self.tasks
    }

    /// The selected task, if there is one.
    pub fn selected_task(&self) -> (task: Option<&Task>)
        ensures
            task is Some == self@.has_selection(),
            task matches Some(t) ==> t@ == self@.tasks[self@.selected],
    {
        if self.selected < self.tasks.len() {
            Some(&self.tasks[self.selected])
        } else {
            None
        }
    }

    /// Moves the selection one task up. From the first task it goes to the
    /// last. An empty list stays as it is.
    pub fn move_up(&mut self)
        ensures
            final(self)@ == old(self)@.move_up(),
            final(self)@.tasks == old(self)@.tasks,
            old(self)@.is_valid() ==> final(self)@.is_valid(),
            old(self)@.selected == 0 && old(self)@.tasks.len() > 0 ==> final(self)@.selected
                == old(self)@.tasks.len() - 1,
    {
        if self.selected > 0 {
            self.selected = self.selected - 1;
        } else if self.tasks.len() > 0 {
            self.selected = self.tasks.len() - 1;
        }
    }

    /// Moves the selection one task down. From the last task it goes to the
    /// first. An empty list stays as it is.
    pub fn move_down(&mut self)
        ensures
            final(self)@ == old(self)@.move_down(),
            final(self)@.tasks == old(self)@.tasks,
            final(self)@.is_valid(),
            old(self)@.tasks.len() > 0 && old(self)@.selected == old(self)@.tasks.len() - 1
                ==> final(self)@.selected == 0,
    {
        if self.tasks.len() > 0 && self.selected < self.tasks.len() - 1 {
            self.selected = self.selected + 1;
        } else {
            self.selected = 0;
        }
    }

    /// Flips the status of the selected task. Without a selected task, as in
    /// an empty list, nothing happens.
    pub fn toggle_status(&mut self)
        ensures
            final(self)@ == old(self)@.toggle_status(),
            old(self)@.is_valid() ==> final(self)@.is_valid(),
    {
        if self.selected < self.tasks.len() {
            let flipped = self.tasks[self.selected].status.toggle();
            self.tasks[self.selected].status = flipped;
        }
    }

    /// Removes the selected task. The selection then points at the task that
    /// followed it, or, where the last task was removed, at the new last task.
    /// Without a selected task, as in an empty list, nothing happens.
    pub fn delete(&mut self)
        ensures
            final(self)@ == old(self)@.delete(),
            old(self)@.is_valid() ==> final(self)@.is_valid(),
    {
        if self.selected < self.tasks.len() {
            let _ = self.tasks.remove(self.selected);
            if self.tasks.len() == self.selected && self.tasks.len() != 0 {
                self.selected = self.selected - 1;
            }
        }
    }

    /// Puts a fresh task, pending and without text, at the front of the list
    /// and selects it.
    pub fn insert_new_at_front(&mut self, created_at: String)
        ensures
            final(self)@ == old(self)@.insert_new_at_front(created_at@),
            final(self)@.selected == 0,
            final(self)@.tasks[0] == TaskView::fresh(created_at@),
            final(self)@.tasks.skip(1) == old(self)@.tasks,
            final(self)@.is_valid(),
    {
        self.tasks.insert(0, Task::fresh(created_at));
        self.selected = 0;
    }

    /// Lets the editor handle one key on the text of the selected task, with
    /// the cursor at `cursor`. The result says whether the editor took the key.
    /// Without a selected task nothing happens, and the key is not taken.
    pub fn edit_selected(&mut self, cursor: &mut usize, key: Key) -> (consumed: bool)
        ensures
            final(self)@ == old(self)@.edit(*old(cursor) as int, key),
            old(self)@.has_selection() ==> consumed == key.is_edit_key() && *final(cursor)
                == old(self)@.edit_state(*old(cursor) as int).press(key).cursor,
            !old(self)@.has_selection() ==> !consumed && *final(cursor) == *old(cursor),
            old(self)@.is_valid() ==> final(self)@.is_valid(),
    {
        if self.selected < self.tasks.len() {
            let consumed = edit_field(&mut self.tasks[self.selected].text, cursor, key);
            consumed
        } else {
            false
        }
    }
}

/// Every operation keeps a valid list valid.
pub proof fn lemma_operations_keep_validity(
    list: TaskListView,
    created_at: Seq<char>,
    cursor: int,
    key: Key,
)
    requires
        list.is_valid(),
    ensures
        list.move_up().is_valid(),
        list.move_down().is_valid(),
        list.toggle_status().is_valid(),
        list.delete().is_valid(),
        list.insert_new_at_front(created_at).is_valid(),
        list.edit(cursor, key).is_valid(),
{
}

/// However the selection of a list that holds a task is moved up and down, it
/// stays on a task of the list, and the tasks stay as they are.
pub proof fn lemma_moves_stay_in_list(list: TaskListView, ups: Seq<bool>)
    requires
        list.is_valid(),
        list.tasks.len() > 0,
    ensures
        0 <= list.after_moves(ups).selected < list.tasks.len(),
        list.after_moves(ups).tasks == list.tasks,
    decreases ups.len(),
{
    if ups.len() > 0 {
        lemma_moves_stay_in_list(list, ups.drop_last());
    }
}

/// Up from the first task is the last task, and down from the last task is the
/// first.
pub proof fn lemma_moves_wrap_around(list: TaskListView)
    requires
        list.tasks.len() > 0,
    ensures
        list.selected == 0 ==> list.move_up().selected == list.tasks.len() - 1,
        list.selected == list.tasks.len() - 1 ==> list.move_down().selected == 0,
{
}

/// Where the only task of a list is deleted, the list is empty, and deleting
/// or toggling once more changes nothing.
pub proof fn lemma_delete_of_the_only_task(list: TaskListView)
    requires
        list.is_valid(),
        list.tasks.len() == 1,
    ensures
        list.delete().tasks.len() == 0,
        list.delete().selected == 0,
        list.delete().delete() == list.delete(),
        list.delete().toggle_status() == list.delete(),
{
}

/// Deleting takes one task out of a list that holds one and leaves the others
/// in their order; the selection stays on a task while there is one.
pub proof fn lemma_delete_takes_one_task(list: TaskListView)
    requires
        list.is_valid(),
        list.tasks.len() > 0,
    ensures
        list.delete().tasks.len() == list.tasks.len() - 1,
        forall|i: int| 0 <= i < list.selected ==> list.delete().tasks[i] == list.tasks[i],
        forall|i: int|
            list.selected <= i < list.tasks.len() - 1 ==> list.delete().tasks[i] == list.tasks[i
                + 1],
        list.tasks.len() > 1 ==> list.delete().has_selection(),
{
}

/// No operation rewrites the time at which a task was created: toggling and
/// editing change the status and the text of the selected task and nothing
/// else.
pub proof fn lemma_time_of_creation_is_kept(list: TaskListView, cursor: int, key: Key, i: int)
    requires
        0 <= i < list.tasks.len(),
    ensures
        list.toggle_status().tasks.len() == list.tasks.len(),
        list.toggle_status().tasks[i].created_at == list.tasks[i].created_at,
        list.toggle_status().tasks[i].text == list.tasks[i].text,
        i != list.selected ==> list.toggle_status().tasks[i] == list.tasks[i],
        list.edit(cursor, key).tasks.len() == list.tasks.len(),
        list.edit(cursor, key).tasks[i].created_at == list.tasks[i].created_at,
        list.edit(cursor, key).tasks[i].status == list.tasks[i].status,
        i != list.selected ==> list.edit(cursor, key).tasks[i] == list.tasks[i],
{
}

} // verus!
