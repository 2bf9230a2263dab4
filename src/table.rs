use vstd::prelude::*;

use crate::handlers::{
    delete_outcome, get_outcome, list_outcome, update_plan, write_outcome, StorageError,
    TodoError,
};
use crate::id::is_uuid_v4_text;
use crate::todo::{fresh_todo, TodoView};

verus! {

/// The statement that creates the table, where it is absent.
pub const CREATE_TABLE_SQL: &'static str =
    "CREATE TABLE IF NOT EXISTS todos (id TEXT PRIMARY KEY, title TEXT NOT NULL, completed BOOLEAN NOT NULL)";

/// The statement that reads every row.
pub const SELECT_ALL_SQL: &'static str = "SELECT id, title, completed FROM todos";

/// The statement that reads the row of one id.
pub const SELECT_BY_ID_SQL: &'static str = "SELECT id, title, completed FROM todos WHERE id = ?";

/// The statement that adds a row: id, title, completed.
pub const INSERT_SQL: &'static str = "INSERT INTO todos (id, title, completed) VALUES (?, ?, ?)";

/// The statement that writes back a row: title, completed, then the id.
pub const UPDATE_SQL: &'static str = "UPDATE todos SET title = ?, completed = ? WHERE id = ?";

/// The statement that removes the row of one id.
pub const DELETE_SQL: &'static str = "DELETE FROM todos WHERE id = ?";

/// The contents of the `todos` table, keyed by id.
pub type TableView = Map<Seq<char>, TodoView>;

/// Each row is stored under its own id.
pub open spec fn table_wf(t: TableView) -> bool {
    forall|k: Seq<char>| #[trigger] t.contains_key(k) ==> t[k].id == k
}

/// What `SELECT_ALL_SQL` may answer, in whatever order the engine reads:
/// every row once, and nothing else.
pub open spec fn lists_table(t: TableView, rows: Seq<TodoView>) -> bool {
    &&& rows.no_duplicates()
    &&& forall|r: TodoView| #[trigger] rows.contains(r) <==> (t.contains_key(r.id) && t[r.id] == r)
}

/// What `SELECT_BY_ID_SQL` answers.
pub open spec fn select_by_id(t: TableView, id: Seq<char>) -> Result<Option<TodoView>, StorageError> {
    if t.contains_key(id) {
        Ok(Some(t[id]))
    } else {
        Ok(None)
    }
}

/// What `INSERT_SQL` answers: one row added, or a violation of the primary
/// key where the id is taken.
pub open spec fn insert_reply(t: TableView, v: TodoView) -> Result<u64, StorageError> {
    if t.contains_key(v.id) {
        Err(StorageError)
    } else {
        Ok(1)
    }
}

/// The table after `INSERT_SQL`.
pub open spec fn after_insert(t: TableView, v: TodoView) -> TableView {
    if t.contains_key(v.id) {
        t
    } else {
        t.insert(v.id, v)
    }
}

/// What `UPDATE_SQL` answers: the number of rows written.
pub open spec fn update_reply(t: TableView, v: TodoView) -> Result<u64, StorageError> {
    if t.contains_key(v.id) {
        Ok(1)
    } else {
        Ok(0)
    }
}

/// The table after `UPDATE_SQL`.
pub open spec fn after_update(t: TableView, v: TodoView) -> TableView {
    if t.contains_key(v.id) {
        t.insert(v.id, v)
    } else {
        t
    }
}

/// What `DELETE_SQL` answers: the number of rows removed.
pub open spec fn delete_reply(t: TableView, id: Seq<char>) -> Result<u64, StorageError> {
    if t.contains_key(id) {
        Ok(1)
    } else {
        Ok(0)
    }
}

/// The table after `DELETE_SQL`.
pub open spec fn after_delete(t: TableView, id: Seq<char>) -> TableView {
    t.remove(id)
}

/// The table after creating each of `todos` in turn, or `None` where one of
/// the inserts failed.
pub open spec fn create_all(t: TableView, todos: Seq<TodoView>) -> Option<TableView>
    decreases todos.len(),
{
    if todos.len() == 0 {
        Some(t)
    } else if insert_reply(t, todos[0]) is Err {
        None
    } else {
        create_all(after_insert(t, todos[0]), todos.drop_first())
    }
}

/// A todo created under a free id is answered as created (non-empty id, the
/// title given, not completed), and a lookup of its id then answers the same
/// todo.
pub proof fn lemma_create_then_get(t: TableView, id: Seq<char>, title: Seq<char>)
    requires
        table_wf(t),
        is_uuid_v4_text(id),
        !t.contains_key(id),
    ensures
        ({
            let todo = fresh_todo(id, title);
            &&& write_outcome(todo, insert_reply(t, todo)) == Ok::<TodoView, TodoError>(todo)
            &&& todo.id.len() > 0 && todo.title == title && !todo.completed
            &&& get_outcome(select_by_id(after_insert(t, todo), id)) == Ok::<TodoView, TodoError>(todo)
            &&& table_wf(after_insert(t, todo))
        }),
{
}

/// A listing right after two successful creates holds both todos, each once;
/// on a table that was empty it holds exactly those two.
pub proof fn lemma_list_after_two_creates(t: TableView, a: TodoView, b: TodoView, rows: Seq<TodoView>)
    requires
        table_wf(t),
        insert_reply(t, a) is Ok,
        insert_reply(after_insert(t, a), b) is Ok,
        lists_table(after_insert(after_insert(t, a), b), rows),
    ensures
        list_outcome(Ok(rows)) == Ok::<Seq<TodoView>, TodoError>(rows),
        rows.contains(a),
        rows.contains(b),
        rows.no_duplicates(),
        a != b,
        t.is_empty() ==> rows.to_set() == set![a, b] && rows.len() == 2,
{
    let t2 = after_insert(after_insert(t, a), b);
    assert(t2.contains_key(a.id) && t2[a.id] == a);
    assert(rows.contains(a));
    assert(rows.contains(b));
    if t.is_empty() {
        assert(rows.to_set() =~= set![a, b]) by {
            assert forall|r: TodoView| rows.to_set().contains(r) implies set![a, b].contains(r) by {
                assert(rows.contains(r));
                assert(t2.contains_key(r.id));
            }
        }
        rows.unique_seq_to_set();
        assert(set![a, b].len() == 2) by {
            assert(set![a, b] == set![a].insert(b));
        }
    }
}

/// A lookup of an id that no todo has answers not-found, never a storage
/// error.
pub proof fn lemma_get_absent(t: TableView, id: Seq<char>)
    requires
        !t.contains_key(id),
    ensures
        get_outcome(select_by_id(t, id)) == Err::<TodoView, TodoError>(TodoError::NotFound),
{
}


/// An update of an id that no todo has answers not-found and leaves the
/// table as it was.
pub proof fn lemma_update_absent(t: TableView, id: Seq<char>, title: Option<Seq<char>>)
    requires
        !t.contains_key(id),
    ensures
        update_plan(select_by_id(t, id), title) == Err::<TodoView, TodoError>(TodoError::NotFound),
{
}

/// An update with a new title of a todo that exists replaces its title only:
/// the id and the completion flag stay, the answer is the updated todo, and a
/// lookup of its id then answers the same.
pub proof fn lemma_update_title(t: TableView, id: Seq<char>, title: Seq<char>)
    requires
        table_wf(t),
        t.contains_key(id),
    ensures
        ({
            let planned = update_plan(select_by_id(t, id), Some(title));
            let v = TodoView { title, ..t[id] };
            &&& planned == Ok::<TodoView, TodoError>(v)
            &&& v.id == id && v.title == title && v.completed == t[id].completed
            &&& write_outcome(v, update_reply(t, v)) == Ok::<TodoView, TodoError>(v)
            &&& get_outcome(select_by_id(after_update(t, v), id)) == Ok::<TodoView, TodoError>(v)
            &&& table_wf(after_update(t, v))
        }),
{
}

/// An update with no field given answers the todo unchanged, and writing it
/// back leaves the table as it was.
pub proof fn lemma_update_empty(t: TableView, id: Seq<char>)
    requires
        table_wf(t),
        t.contains_key(id),
    ensures
        update_plan(select_by_id(t, id), None) == Ok::<TodoView, TodoError>(t[id]),
        write_outcome(t[id], update_reply(t, t[id])) == Ok::<TodoView, TodoError>(t[id]),
        after_update(t, t[id]) == t,
{
    assert(after_update(t, t[id]) =~= t);
}

/// A delete of an existing id succeeds and removes the todo: a lookup of the
/// id then answers not-found, and a second delete answers not-found too.
pub proof fn lemma_delete_then_get(t: TableView, id: Seq<char>)
    requires
        table_wf(t),
        t.contains_key(id),
    ensures
        delete_outcome(delete_reply(t, id)) == Ok::<(), TodoError>(()),
        get_outcome(select_by_id(after_delete(t, id), id)) == Err::<TodoView, TodoError>(TodoError::NotFound),
        delete_outcome(delete_reply(after_delete(t, id), id)) == Err::<(), TodoError>(TodoError::NotFound),
        table_wf(after_delete(t, id)),
{
}

/// Creates made in sequence that all succeed have pairwise distinct ids, and
/// every one of them is then in the table.
pub proof fn lemma_created_ids_distinct(t: TableView, todos: Seq<TodoView>)
    requires
        create_all(t, todos) is Some,
    ensures
        forall|i: int, j: int|
            0 <= i < j < todos.len() ==> #[trigger] todos[i].id != #[trigger] todos[j].id,
        forall|i: int|
            0 <= i < todos.len() ==> (#[trigger] create_all(t, todos)->Some_0).contains_key(todos[i].id),
    decreases todos.len(),
{
    if todos.len() > 0 {
        let t1 = after_insert(t, todos[0]);
        let rest = todos.drop_first();
        lemma_created_ids_distinct(t1, rest);
        lemma_create_all_keeps(t1, rest, todos[0].id);
        assert forall|i: int, j: int| 0 <= i < j < todos.len() implies #[trigger] todos[i].id
            != #[trigger] todos[j].id by {
            if i > 0 {
                assert(todos[i] == rest[i - 1] && todos[j] == rest[j - 1]);
            } else {
                assert(todos[j] == rest[j - 1]);
                assert(t1.contains_key(todos[0].id));
                lemma_create_all_absent(t1, rest, j - 1);
            }
        }
        assert forall|i: int| 0 <= i < todos.len() implies (#[trigger] create_all(t, todos)->Some_0).contains_key(todos[i].id) by {
            if i > 0 {
                assert(todos[i] == rest[i - 1]);
            }
        }
    }
}

/// A key in the table stays in it through creates that all succeed.
proof fn lemma_create_all_keeps(t: TableView, todos: Seq<TodoView>, k: Seq<char>)
    requires
        create_all(t, todos) is Some,
        t.contains_key(k),
    ensures
        (create_all(t, todos)->Some_0).contains_key(k),
    decreases todos.len(),
{
    if todos.len() > 0 {
        lemma_create_all_keeps(after_insert(t, todos[0]), todos.drop_first(), k);
    }
}

/// Where creates in sequence all succeed, none of them took an id that the
/// table held before.
proof fn lemma_create_all_absent(t: TableView, todos: Seq<TodoView>, j: int)
    requires
        create_all(t, todos) is Some,
        0 <= j < todos.len(),
    ensures
        !t.contains_key(todos[j].id),
    decreases todos.len(),
{
    if j > 0 {
        let t1 = after_insert(t, todos[0]);
        lemma_create_all_absent(t1, todos.drop_first(), j - 1);
        assert(todos[j] == todos.drop_first()[j - 1]);
    }
}

} // verus!
