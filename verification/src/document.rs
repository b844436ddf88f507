//! The document in which a store is kept: a JSON object with one member,
//! `tasks`, an array with one object per task, each with the members `name`
//! (a string) and `complete` (a boolean) and no others.
//!
//! [`document_json`] says what the document of a task sequence is. Reading is
//! its inverse, [`document_tasks`]: a value is accepted exactly when it is the
//! document of some task sequence, and then it yields that sequence. So a
//! value with a missing, a misnamed or an additional member is refused, at
//! the top and in each task.

use vstd::prelude::*;
use vstd::set_lib::lemma_subset_equality;
use vstd::string::StringExecFns;

use crate::json::{
    as_array, as_bool, as_object, as_str, bool_value, json_members, json_tree, json_trees,
    list_value, member, member_count, new_members, record_value, set_member, text_value, Json,
};
use crate::task::{task_views, Task, TaskView};

verus! {

/// The object that stands for one task.
pub open spec fn task_json(task: TaskView) -> Json {
    Json::Record(
        map!["name"@ => Json::Text(task.name), "complete"@ => Json::Bool(task.complete)],
    )
}

/// The objects that stand for a sequence of tasks, in order.
pub open spec fn tasks_json(tasks: Seq<TaskView>) -> Seq<Json> {
    tasks.map_values(|task: TaskView| task_json(task))
}

/// The document that stands for a sequence of tasks.
pub open spec fn document_json(tasks: Seq<TaskView>) -> Json {
    Json::Record(map!["tasks"@ => Json::List(tasks_json(tasks))])
}

/// The task sequence that a JSON value is the document of, or `None` where it
/// is the document of none.
pub open spec fn document_tasks(tree: Json) -> Option<Seq<TaskView>> {
    if exists|tasks: Seq<TaskView>| tree == #[trigger] document_json(tasks) {
        Some(choose|tasks: Seq<TaskView>| tree == #[trigger] document_json(tasks))
    } else {
        None
    }
}

/// The two member names of a task are different strings.
proof fn lemma_member_names_differ()
    ensures
        "name"@ != "complete"@,
{
    reveal_strlit("name");
    reveal_strlit("complete");
    assert("name"@.len() == 4);
    assert("complete"@.len() == 8);
}

/// A finite set of one key that holds `key` holds nothing else.
proof fn lemma_one_key(keys: Set<Seq<char>>, key: Seq<char>)
    requires
        keys.finite(),
        keys.len() == 1,
        keys.contains(key),
    ensures
        keys == set![key],
{
    lemma_subset_equality(set![key], keys);
}

/// A finite set of two keys that holds two different keys holds nothing else.
proof fn lemma_two_keys(keys: Set<Seq<char>>, first: Seq<char>, second: Seq<char>)
    requires
        keys.finite(),
        keys.len() == 2,
        keys.contains(first),
        keys.contains(second),
        first != second,
    ensures
        keys == set![first, second],
{
    lemma_subset_equality(set![first, second], keys);
}

/// What the object of a task holds: its two members and no others.
proof fn lemma_task_json_members(task: TaskView)
    ensures
        task_json(task) matches Json::Record(members) && {
            &&& members.dom() == set!["name"@, "complete"@]
            &&& members.dom().finite()
            &&& members.dom().len() == 2
            &&& members["name"@] == Json::Text(task.name)
            &&& members["complete"@] == Json::Bool(task.complete)
        },
{
    lemma_member_names_differ();
}

/// What a document holds: the member `tasks`, an array, and no other.
proof fn lemma_document_json_members(tasks: Seq<TaskView>)
    ensures
        document_json(tasks) matches Json::Record(members) && {
            &&& members.dom() == set!["tasks"@]
            &&& members.dom().finite()
            &&& members.dom().len() == 1
            &&& members["tasks"@] == Json::List(tasks_json(tasks))
        },
{
}

/// Two tasks with the same object are the same task.
pub proof fn lemma_task_json_injective(a: TaskView, b: TaskView)
    requires
        task_json(a) == task_json(b),
    ensures
        a == b,
{
    lemma_task_json_members(a);
    lemma_task_json_members(b);
}

/// Two task sequences with the same document are the same sequence.
pub proof fn lemma_document_json_injective(a: Seq<TaskView>, b: Seq<TaskView>)
    requires
        document_json(a) == document_json(b),
    ensures
        a == b,
{
    lemma_document_json_members(a);
    lemma_document_json_members(b);
    assert(a.len() == tasks_json(a).len());
    assert(b.len() == tasks_json(b).len());
    assert forall|i: int| 0 <= i < a.len() implies a[i] == b[i] by {
        assert(tasks_json(a)[i] == task_json(a[i]));
        assert(tasks_json(b)[i] == task_json(b[i]));
        lemma_task_json_injective(a[i], b[i]);
    }
}

/// Round trip: what is written is what is read. The document of a task
/// sequence is read as that sequence, whatever the sequence.
pub proof fn lemma_document_round_trip(tasks: Seq<TaskView>)
    ensures
        document_tasks(document_json(tasks)) == Some(tasks),
{
    let read = choose|read: Seq<TaskView>| document_json(tasks) == #[trigger] document_json(read);
    lemma_document_json_injective(tasks, read);
}

/// A value is read as a task sequence only where it is the document of that
/// sequence.
pub proof fn lemma_document_tasks_is_inverse(tree: Json, tasks: Seq<TaskView>)
    ensures
        document_tasks(tree) == Some(tasks) <==> tree == document_json(tasks),
{
    if tree == document_json(tasks) {
        lemma_document_round_trip(tasks);
    }
}

/// Reads one task from a JSON value. The value is accepted exactly when it is
/// the object of some task, and that task is returned.
fn task_from_value(v: &serde_json::Value) -> (r: Option<Task>)
    ensures
        match r {
            Some(task) => json_tree(*v) == task_json(task@),
            None => forall|task: TaskView| json_tree(*v) != #[trigger] task_json(task),
        },
{
    let members = match as_object(v) {
        Some(members) => members,
        None => {
            return None;
        },
    };
    proof {
        // What the value would hold if it were the object of a task.
        assert forall|task: TaskView| json_tree(*v) == #[trigger] task_json(task) implies {
            &&& json_members(*members).dom().len() == 2
            &&& json_members(*members).dom().contains("name"@)
            &&& json_members(*members).dom().contains("complete"@)
            &&& json_members(*members)["name"@] is Text
            &&& json_members(*members)["complete"@] is Bool
        } by {
            lemma_task_json_members(task);
        }
    }
    if member_count(members) != 2 {
        return None;
    }
    let name = match member(members, "name") {
        Some(name) => name,
        None => {
            return None;
        },
    };
    let complete = match member(members, "complete") {
        Some(complete) => complete,
        None => {
            return None;
        },
    };
    let name = match as_str(name) {
        Some(name) => name,
        None => {
            return None;
        },
    };
    let complete = match as_bool(complete) {
        Some(complete) => complete,
        None => {
            return None;
        },
    };
    let task = Task { name: name.to_owned(), complete };
    proof {
        lemma_member_names_differ();
        lemma_two_keys(json_members(*members).dom(), "name"@, "complete"@);
        assert(json_members(*members) =~= map![
            "name"@ => Json::Text(task@.name),
            "complete"@ => Json::Bool(task@.complete),
        ]);
    }
    Some(task)
}

/// Reads the tasks of an array of JSON values, in order. The array is
/// accepted exactly when each of its elements is the object of some task.
fn tasks_from_values(items: &Vec<serde_json::Value>) -> (r: Option<Vec<Task>>)
    ensures
        match r {
            Some(tasks) => json_trees(items@) == tasks_json(task_views(tasks@)),
            None => forall|tasks: Seq<TaskView>| json_trees(items@) != #[trigger] tasks_json(tasks),
        },
{
    let mut tasks: Vec<Task> = Vec::new();
    let mut i: usize = 0;
    while i < items.len()
        invariant
            i <= items.len(),
            tasks@.len() == i,
            forall|j: int| 0 <= j < i ==> json_tree(items@[j]) == task_json(#[trigger] tasks@[j]@),
        decreases items.len() - i,
    {
        match task_from_value(&items[i]) {
            Some(task) => {
                tasks.push(task);
            },
            None => {
                proof {
                    assert forall|any: Seq<TaskView>| json_trees(items@) != #[trigger] tasks_json(
                        any,
                    ) by {
                        if json_trees(items@) == tasks_json(any) {
                            assert(tasks_json(any).len() == any.len());
                            assert(tasks_json(any)[i as int] == task_json(any[i as int]));
                        }
                    }
                }
                return None;
            },
        }
        i += 1;
    }
    Some(tasks)
}

/// Reads the tasks of a document: the task sequence that the value is the
/// document of, or `None` where it is the document of none.
pub(crate) fn tasks_from_value(v: &serde_json::Value) -> (r: Option<Vec<Task>>)
    ensures
        match r {
            Some(tasks) => document_tasks(json_tree(*v)) == Some(task_views(tasks@)),
            None => document_tasks(json_tree(*v)) is None,
        },
{
    let members = match as_object(v) {
        Some(members) => members,
        None => {
            return None;
        },
    };
    proof {
        // What the value would hold if it were the document of some tasks.
        assert forall|tasks: Seq<TaskView>| json_tree(*v) == #[trigger] document_json(
            tasks,
        ) implies {
            &&& json_members(*members).dom().len() == 1
            &&& json_members(*members).dom().contains("tasks"@)
            &&& json_members(*members)["tasks"@] == Json::List(tasks_json(tasks))
        } by {
            lemma_document_json_members(tasks);
        }
    }
    if member_count(members) != 1 {
        return None;
    }
    let list = match member(members, "tasks") {
        Some(list) => list,
        None => {
            return None;
        },
    };
    let items = match as_array(list) {
        Some(items) => items,
        None => {
            return None;
        },
    };
    match tasks_from_values(items) {
        Some(tasks) => {
            proof {
                lemma_one_key(json_members(*members).dom(), "tasks"@);
                assert(json_members(*members) =~= map![
                    "tasks"@ => Json::List(tasks_json(task_views(tasks@))),
                ]);
                lemma_document_round_trip(task_views(tasks@));
            }
            Some(tasks)
        },
        None => None,
    }
}

/// Builds the JSON object of a task.
fn task_to_value(task: &Task) -> (v: serde_json::Value)
    ensures
        json_tree(v) == task_json(task@),
{
    let mut members = new_members();
    set_member(&mut members, String::from_str("name"), text_value(task.name.clone()));
    set_member(&mut members, String::from_str("complete"), bool_value(task.complete));
    record_value(members)
}

/// Builds the document of a sequence of tasks.
pub(crate) fn tasks_to_value(tasks: &Vec<Task>) -> (v: serde_json::Value)
    ensures
        json_tree(v) == document_json(task_views(tasks@)),
{
    let mut items: Vec<serde_json::Value> = Vec::new();
    let mut i: usize = 0;
    while i < tasks.len()
        invariant
            i <= tasks.len(),
            items@.len() == i,
            forall|j: int| 0 <= j < i ==> json_tree(#[trigger] items@[j]) == task_json(tasks@[j]@),
        decreases tasks.len() - i,
    {
        items.push(task_to_value(&tasks[i]));
        i += 1;
    }
    proof {
        assert(json_trees(items@) =~= tasks_json(task_views(tasks@)));
    }
    let mut members = new_members();
    set_member(&mut members, String::from_str("tasks"), list_value(items));
    record_value(members)
}

} // verus!
