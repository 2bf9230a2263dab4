use vstd::prelude::*;

verus! {

/// A task: its id, its title and whether it is done.
#[derive(Debug, Clone, PartialEq, Eq)]
pub struct Todo {
    pub id: String,
    pub title: String,
    pub completed: bool,
}

/// The mathematical value of a `Todo`.
pub ghost struct TodoView {
    pub id: Seq<char>,
    pub title: Seq<char>,
    pub completed: bool,
}

impl View for Todo {
    type V = TodoView;

    open spec fn view(&self) -> TodoView {
        TodoView { id: self.id@, title: self.title@, completed: self.completed }
    }
}

/// The body of a create request: the title of the new todo.
#[derive(Debug, Clone, PartialEq, Eq)]
pub struct CreateTodo {
    pub title: String,
}

/// The body of an update request: a new title, if one is given.
#[derive(Debug, Clone, PartialEq, Eq)]
pub struct UpdateTodo {
    pub title: Option<String>,
}

/// The view of an optional title.
pub open spec fn title_view(t: Option<String>) -> Option<Seq<char>> {
    match t {
        Some(s) => Some(s@),
        None => None,
    }
}

/// A todo as it is created: not completed.
pub open spec fn fresh_todo(id: Seq<char>, title: Seq<char>) -> TodoView {
    TodoView { id, title, completed: false }
}

/// A todo after an update: the title is replaced when one is given; the id and
/// the completion flag stay.
pub open spec fn merged(t: TodoView, title: Option<Seq<char>>) -> TodoView {
    match title {
        Some(s) => TodoView { title: s, ..t },
        None => t,
    }
}

/// The columns of the row that stores a todo: id, title, completed.
pub open spec fn row_of(t: TodoView) -> (Seq<char>, Seq<char>, bool) {
    (t.id, t.title, t.completed)
}

/// The todo that a row holds, read column by column.
pub open spec fn todo_of_row(id: Seq<char>, title: Seq<char>, completed: bool) -> TodoView {
    TodoView { id, title, completed }
}

/// Storing a todo as a row and reading the row back gives the same todo.
pub proof fn lemma_row_round_trip(t: TodoView)
    ensures
        todo_of_row(row_of(t).0, row_of(t).1, row_of(t).2) == t,
{
}

impl Todo {
    /// A new todo with the given id and title, not completed.
    pub fn new(id: String, title: String) -> (r: Todo)
        ensures
            r@ == fresh_todo(id@, title@),
    {
        Todo { id, title, completed: false }
    }

    /// Applies an update: replaces the title when the payload carries one.
    pub fn apply(self, payload: UpdateTodo) -> (r: Todo)
        ensures
            r@ == merged(self@, title_view(payload.title)),
    {
        match payload.title {
            Some(title) => Todo { title, ..self },
            None => self,
        }
    }

    /// The todo read from a row of the table, whose columns are id, title and
    /// completed.
    pub fn from_row(row: (String, String, bool)) -> (r: Todo)
        ensures
            r@ == todo_of_row(row.0@, row.1@, row.2),
    {
        let (id, title, completed) = row;
        Todo { id, title, completed }
    }

    /// The row that stores this todo: id, title, completed.
    pub fn into_row(self) -> (r: (String, String, bool))
        ensures
            (r.0@, r.1@, r.2) == row_of(self@),
    {
        (self.id, self.title, self.completed)
    }
}

} // verus!
