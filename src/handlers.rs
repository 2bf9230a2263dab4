use vstd::prelude::*;

use crate::id::{is_uuid_v4_text, random_uuid_text};
use crate::todo::{fresh_todo, merged, title_view, CreateTodo, Todo, TodoView, UpdateTodo};

verus! {

/// A failure of the storage engine: I/O, a lost connection, a violated
/// constraint. It carries no detail: none is shown to a client.
#[derive(Debug, Clone, Copy, PartialEq, Eq, Structural)]
pub struct StorageError;

/// Why a request did not succeed.
#[derive(Debug, Clone, Copy, PartialEq, Eq, Structural)]
pub enum TodoError {
    /// No todo has the id asked for.
    NotFound,
    /// The storage engine failed.
    Storage,
}

/// The HTTP status of a successful read, create or update.
pub const STATUS_OK: u16 = 200;

/// The HTTP status of a successful delete.
pub const STATUS_NO_CONTENT: u16 = 204;

/// The HTTP status that answers an error.
pub open spec fn error_status(e: TodoError) -> u16 {
    match e {
        TodoError::NotFound => 404,
        TodoError::Storage => 500,
    }
}

impl TodoError {
    /// The HTTP status that answers this error: 404 or 500.
    pub fn status_code(&self) -> (r: u16)
        ensures
            r == error_status(*self),
    {
        match self {
            TodoError::NotFound => 404,
            TodoError::Storage => 500,
        }
    }
}

/// The view of the rows that a listing read.
pub open spec fn rows_view(f: Result<Vec<Todo>, StorageError>) -> Result<Seq<TodoView>, StorageError> {
    match f {
        Ok(v) => Ok(v@.map_values(|t: Todo| t@)),
        Err(e) => Err(e),
    }
}

/// The view of the row, if any, that a lookup by id read.
pub open spec fn row_view(f: Result<Option<Todo>, StorageError>) -> Result<Option<TodoView>, StorageError> {
    match f {
        Ok(Some(t)) => Ok(Some(t@)),
        Ok(None) => Ok(None),
        Err(e) => Err(e),
    }
}

/// The view of the answer to a request that returns a list of todos.
pub open spec fn todos_result_view(r: Result<Vec<Todo>, TodoError>) -> Result<Seq<TodoView>, TodoError> {
    match r {
        Ok(v) => Ok(v@.map_values(|t: Todo| t@)),
        Err(e) => Err(e),
    }
}

/// The view of the answer to a request that returns one todo.
pub open spec fn todo_result_view(r: Result<Todo, TodoError>) -> Result<TodoView, TodoError> {
    match r {
        Ok(t) => Ok(t@),
        Err(e) => Err(e),
    }
}

/// A listing answers the rows read, or a storage error.
pub open spec fn list_outcome(f: Result<Seq<TodoView>, StorageError>) -> Result<Seq<TodoView>, TodoError> {
    match f {
        Ok(rows) => Ok(rows),
        Err(_) => Err(TodoError::Storage),
    }
}

/// A write (insert or update) of `todo` answers `todo` once the statement
/// ran, or a storage error.
pub open spec fn write_outcome(todo: TodoView, written: Result<u64, StorageError>) -> Result<TodoView, TodoError> {
    match written {
        Ok(_) => Ok(todo),
        Err(_) => Err(TodoError::Storage),
    }
}

/// A lookup by id answers the row found, not-found where there is none, or a
/// storage error.
pub open spec fn get_outcome(f: Result<Option<TodoView>, StorageError>) -> Result<TodoView, TodoError> {
    match f {
        Ok(Some(t)) => Ok(t),
        Ok(None) => Err(TodoError::NotFound),
        Err(_) => Err(TodoError::Storage),
    }
}

/// An update looks the todo up, and where it is found gives the merged todo
/// that is to be written back.
pub open spec fn update_plan(f: Result<Option<TodoView>, StorageError>, title: Option<Seq<char>>) -> Result<TodoView, TodoError> {
    match get_outcome(f) {
        Ok(t) => Ok(merged(t, title)),
        Err(e) => Err(e),
    }
}

/// A delete succeeds when exactly one row went; no row gone is not-found.
pub open spec fn delete_outcome(d: Result<u64, StorageError>) -> Result<(), TodoError> {
    match d {
        Ok(n) => if n == 1 {
            Ok(())
        } else {
            Err(TodoError::NotFound)
        },
        Err(_) => Err(TodoError::Storage),
    }
}

/// Answers a listing from the rows that the storage read.
pub fn list_todos(fetched: Result<Vec<Todo>, StorageError>) -> (r: Result<Vec<Todo>, TodoError>)
    ensures
        todos_result_view(r) == list_outcome(rows_view(fetched)),
{
    match fetched {
        Ok(rows) => Ok(rows),
        Err(_) => Err(TodoError::Storage),
    }
}

/// Builds the todo that a create request asks for, under a freshly minted id:
/// the title given, not completed. The caller inserts it, then answers with
/// `confirm_write`.
pub fn create_todo(payload: CreateTodo) -> (r: Todo)
    ensures
        r@ == fresh_todo(r@.id, payload.title@),
        is_uuid_v4_text(r@.id),
{
    let id = random_uuid_text();
    Todo::new(id, payload.title)
}

/// Answers a create or an update from the outcome of the statement that wrote
/// `todo`: the todo itself, or a storage error.
pub fn confirm_write(todo: Todo, written: Result<u64, StorageError>) -> (r: Result<Todo, TodoError>)
    ensures
        todo_result_view(r) == write_outcome(todo@, written),
{
    match written {
        Ok(_) => Ok(todo),
        Err(_) => Err(TodoError::Storage),
    }
}

/// Answers a lookup by id from the row, if any, that the storage read.
pub fn get_todo(fetched: Result<Option<Todo>, StorageError>) -> (r: Result<Todo, TodoError>)
    ensures
        todo_result_view(r) == get_outcome(row_view(fetched)),
{
    match fetched {
        Ok(Some(todo)) => Ok(todo),
        Ok(None) => Err(TodoError::NotFound),
        Err(_) => Err(TodoError::Storage),
    }
}

/// Decides an update from the row, if any, that the lookup by id read: the
/// merged todo, which the caller writes back and answers with
/// `confirm_write`, or the error to answer at once.
pub fn update_todo(fetched: Result<Option<Todo>, StorageError>, payload: UpdateTodo) -> (r: Result<Todo, TodoError>)
    ensures
        todo_result_view(r) == update_plan(row_view(fetched), title_view(payload.title)),
{
    match get_todo(fetched) {
        Ok(todo) => Ok(todo.apply(payload)),
        Err(e) => Err(e),
    }
}

/// Answers a delete from the number of rows that the statement removed.
pub fn delete_todo(deleted: Result<u64, StorageError>) -> (r: Result<(), TodoError>)
    ensures
        r == delete_outcome(deleted),
{
    match deleted {
        Ok(n) => if n == 1 {
            Ok(())
        } else {
            Err(TodoError::NotFound)
        },
        Err(_) => Err(TodoError::Storage),
    }
}

} // verus!
