//! The commands of the to-do list, as a user gives them: add a task by its
//! name, list the tasks, and complete a task by the number under which it is
//! listed.

use vstd::prelude::*;
use vstd::string::StringExecFns;

use crate::error::TaskError;
use crate::listing::{decimal, decimal_width, listing, task_line, task_line_text, texts};
use crate::task::{Task, TaskView};
use crate::todo_db::{with_completed, TodoDb};

verus! {

/// Adds a task with the given name, not yet complete, to the end of the
/// store.
pub fn add_task(db: &mut TodoDb, name: String)
    ensures
        final(db)@ == old(db)@.push((TaskView { name: name@, complete: false })),
{
    db.add_task(Task { name, complete: false })
}

/// The lines to show for the store: one for each task, numbered from 1, or a
/// single line that says that there are no tasks.
pub fn list_tasks(db: &TodoDb) -> (lines: Vec<String>)
    ensures
        texts(lines@) == listing(db@),
{
    let tasks = db.task_list();
    let mut lines: Vec<String> = Vec::new();
    if tasks.len() == 0 {
        lines.push(String::from_str("There are no tasks!"));
        return lines;
    }
    let width = decimal_width(tasks.len());
    let mut i: usize = 0;
    while i < tasks.len()
        invariant
            i <= tasks.len(),
            tasks@.len() == db@.len(),
            width == decimal(db@.len()).len(),
            lines@.len() == i,
            forall|j: int| 0 <= j < tasks@.len() ==> #[trigger] tasks@[j]@ == db@[j],
            forall|j: int|
                0 <= j < i ==> (#[trigger] lines@[j])@ == task_line(
                    (j + 1) as nat,
                    width as nat,
                    db@[j],
                ),
        decreases tasks.len() - i,
    {
        lines.push(task_line_text(i + 1, width, &tasks[i]));
        i = i + 1;
    }
    lines
}

/// Marks the task with the given number as complete. Tasks are numbered from
/// 1, as they are listed. The other tasks stay as they are. Where the number
/// is 0 or larger than the number of tasks, nothing changes and the error is
/// `NoSuchTask`.
pub fn mark_as_complete(db: &mut TodoDb, task_number: u32) -> (r: Result<(), TaskError>)
    ensures
        if 1 <= task_number <= old(db)@.len() {
            &&& r is Ok
            &&& final(db)@ == with_completed(old(db)@, task_number - 1)
        } else {
            &&& r == Err::<(), TaskError>(TaskError::NoSuchTask)
            &&& final(db)@ == old(db)@
        },
{
    match (task_number as usize).checked_sub(1) {
        Some(index) => db.mark_as_complete(index),
        None => Err(TaskError::NoSuchTask),
    }
}

} // verus!
