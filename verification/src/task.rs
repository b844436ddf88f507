//! A task: a name and a completion flag.

use vstd::prelude::*;

verus! {

/// One entry of the list. A task has no identity of its own: it is known by
/// its position in the store.
#[derive(Clone, PartialEq, Eq, Debug)]
pub struct Task {
    pub name: String,
    pub complete: bool,
}

/// What a task is, mathematically: the characters of its name and its flag.
pub struct TaskView {
    pub name: Seq<char>,
    pub complete: bool,
}

impl View for Task {
    type V = TaskView;

    open spec fn view(&self) -> TaskView {
        TaskView { name: self.name@, complete: self.complete }
    }
}

/// What a vector of tasks holds: the view of each task, in order.
pub open spec fn task_views(tasks: Seq<Task>) -> Seq<TaskView> {
    tasks.map_values(|t: Task| t@)
}

impl TaskView {
    /// The same task, marked complete.
    pub open spec fn completed(self) -> TaskView {
        TaskView { name: self.name, complete: true }
    }
}

} // verus!
