//! The task store and its operations.

use vstd::prelude::*;
use vstd::string::StringExecFns;

use crate::document::{document_json, document_tasks, tasks_from_value, tasks_to_value};
use crate::error::{StoreError, TaskError};
use crate::json::{error_text, json_parse, json_render, json_tree, parse, render};
use crate::task::{task_views, Task, TaskView};

verus! {

/// An ordered collection of tasks. The order of insertion is the order of
/// display and the order in which the tasks are persisted. Names need not be
/// unique.
pub struct TodoDb {
    tasks: Vec<Task>,
}

impl View for TodoDb {
    type V = Seq<TaskView>;

    closed spec fn view(&self) -> Seq<TaskView> {
        task_views(self.tasks@)
    }
}

/// The tasks that are left when the completed ones are removed, in their
/// order.
pub open spec fn pending(tasks: Seq<TaskView>) -> Seq<TaskView> {
    tasks.filter(|t: TaskView| !t.complete)
}

/// The sequence with the task at `index`, counted from zero, marked complete
/// and every other task as it was.
pub open spec fn with_completed(tasks: Seq<TaskView>, index: int) -> Seq<TaskView> {
    tasks.update(index, tasks[index].completed())
}

/// Completing a task that is there changes that task's flag and nothing
/// else: the sequence keeps its length, the task keeps its name, and every
/// other task stays as it was.
pub proof fn lemma_complete_changes_one_flag(tasks: Seq<TaskView>, index: int)
    requires
        0 <= index < tasks.len(),
    ensures
        with_completed(tasks, index).len() == tasks.len(),
        with_completed(tasks, index)[index].complete,
        with_completed(tasks, index)[index].name == tasks[index].name,
        forall|other: int|
            0 <= other < tasks.len() && other != index ==> #[trigger] with_completed(
                tasks,
                index,
            )[other] == tasks[other],
{
}

/// Adding a task changes no task that was there: the sequence grows by one,
/// the new task stands at its end, and the tasks before it stay as they were.
/// Added to an empty sequence, the task is all that the sequence holds.
pub proof fn lemma_add_keeps_tasks(tasks: Seq<TaskView>, task: TaskView)
    ensures
        tasks.push(task).len() == tasks.len() + 1,
        tasks.push(task)[tasks.len() as int] == task,
        forall|i: int| 0 <= i < tasks.len() ==> tasks.push(task)[i] == tasks[i],
        Seq::<TaskView>::empty().push(task) == seq![task],
{
}

/// Removing the completed tasks of a sequence with one more task at its end
/// leaves what it leaves of the sequence, and that task where it is pending.
pub proof fn lemma_pending_push(tasks: Seq<TaskView>, t: TaskView)
    ensures
        pending(tasks.push(t)) == if t.complete {
            pending(tasks)
        } else {
            pending(tasks).push(t)
        },
{
    reveal(Seq::filter);
    assert(tasks.push(t).drop_last() =~= tasks);
}

/// The task sequence that is kept in a file of the given bytes: the one that
/// the bytes, read as JSON text, are the document of. `None` where the bytes
/// are no JSON text, or the text is the document of no task sequence.
pub open spec fn stored_tasks(bytes: Seq<u8>) -> Option<Seq<TaskView>> {
    match json_parse(bytes) {
        Some(tree) => document_tasks(tree),
        None => None,
    }
}

/// What is said of a value that parses as JSON but is not the document of a
/// store.
pub open spec fn not_a_store() -> Seq<char> {
    "not a list of tasks"@
}

impl Default for TodoDb {
    /// An empty store.
    fn default() -> (db: TodoDb)
        ensures
            db@ == Seq::<TaskView>::empty(),
    {
        TodoDb::new()
    }
}

impl TodoDb {
    /// An empty store.
    pub fn new() -> (db: TodoDb)
        ensures
            db@ == Seq::<TaskView>::empty(),
    {
        TodoDb { tasks: Vec::new() }
    }

    /// The store that a JSON value stands for. The value is accepted exactly
    /// when it is the document of some task sequence; the store then holds
    /// that sequence. Any other value is a parse error.
    pub fn from_document(doc: &serde_json::Value) -> (r: Result<TodoDb, StoreError>)
        ensures
            match document_tasks(json_tree(*doc)) {
                Some(tasks) => r matches Ok(db) && db@ == tasks,
                None => r matches Err(StoreError::Parse(detail)) && detail@ == not_a_store(),
            },
    {
        match tasks_from_value(doc) {
            Some(tasks) => Ok(TodoDb { tasks }),
            None => Err(StoreError::Parse(String::from_str("not a list of tasks"))),
        }
    }

    /// The store that is kept in a file, given what the file holds, or `None`
    /// where there is no file. No file means an empty store. A file is
    /// accepted exactly when its bytes are the JSON text of the document of
    /// some task sequence; the store then holds that sequence. Any other
    /// content is a parse error.
    pub fn load(contents: Option<&[u8]>) -> (r: Result<TodoDb, StoreError>)
        ensures
            match contents {
                None => r matches Ok(db) && db@ == Seq::<TaskView>::empty(),
                Some(bytes) => match stored_tasks(bytes@) {
                    Some(tasks) => r matches Ok(db) && db@ == tasks,
                    None => r matches Err(e) && e is Parse,
                },
            },
    {
        match contents {
            None => Ok(TodoDb::new()),
            Some(bytes) => match parse(bytes) {
                Ok(doc) => TodoDb::from_document(&doc),
                Err(e) => Err(StoreError::Parse(error_text(&e))),
            },
        }
    }

    /// The document of the store, as a JSON value.
    pub fn to_document(&self) -> (doc: serde_json::Value)
        ensures
            json_tree(doc) == document_json(self@),
    {
        tasks_to_value(&self.tasks)
    }

    /// The bytes to write to the store's file: the JSON text of the store's
    /// document. Where the document cannot be written down, the error is an
    /// I/O error.
    pub fn save(&self) -> (r: Result<Vec<u8>, StoreError>)
        ensures
            match json_render(document_json(self@)) {
                Some(bytes) => r matches Ok(written) && written@ == bytes,
                None => r matches Err(e) && e is Io,
            },
    {
        let doc = self.to_document();
        match render(&doc) {
            Ok(bytes) => Ok(bytes),
            Err(e) => Err(StoreError::Io(error_text(&e))),
        }
    }

    /// The tasks of the store, in order.
    pub fn task_list(&self) -> (tasks: &[Task])
        ensures
            task_views(tasks@) == self@,
    {
        self.tasks.as_slice()
    }

    /// Marks the task at `task_index`, counted from zero, as complete. The
    /// other tasks stay as they are. Where the store has no task at that
    /// position, nothing changes and the error is `NoSuchTask`.
    pub fn mark_as_complete(&mut self, task_index: usize) -> (r: Result<(), TaskError>)
        ensures
            if task_index < old(self)@.len() {
                &&& r is Ok
                &&& final(self)@ == with_completed(old(self)@, task_index as int)
            } else {
                &&& r == Err::<(), TaskError>(TaskError::NoSuchTask)
                &&& final(self)@ == old(self)@
            },
    {
        if task_index < self.tasks.len() {
            self.tasks[task_index].complete = true;
            Ok(())
        } else {
            Err(TaskError::NoSuchTask)
        }
    }

    /// Removes every completed task. The tasks that are left keep their
    /// order.
    pub fn delete_all_completed_tasks(&mut self)
        ensures
            final(self)@ == pending(old(self)@),
    {
        let mut all: Vec<Task> = Vec::new();
        std::mem::swap(&mut self.tasks, &mut all);
        let mut kept: Vec<Task> = Vec::new();
        for task in it: all
            invariant
                it.seq() == old(self).tasks@,
                task_views(kept@) == pending(task_views(it.seq().take(it.index()))),
        {
            proof {
                let seen = it.seq().take(it.index());
                assert(it.seq().take(it.index() + 1) =~= seen.push(task));
                assert(task_views(seen.push(task)) =~= task_views(seen).push(task@));
                lemma_pending_push(task_views(seen), task@);
            }
            if !task.complete {
                kept.push(task);
            }
        }
        proof {
            assert(old(self).tasks@.take(old(self).tasks@.len() as int) =~= old(self).tasks@);
        }
        self.tasks = kept;
    }

    /// Appends a task to the end of the store. The tasks that were there stay
    /// as they are.
    pub fn add_task(&mut self, task: Task)
        ensures
            final(self)@ == old(self)@.push(task@),
    {
        self.tasks.push(task);
    }
}

} // verus!
