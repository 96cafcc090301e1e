//! The todo entity, the request payloads that touch it, and the merge that a
//! partial update performs.

use vstd::prelude::*;

verus! {

/// The mathematical value of one stored row.
#[verifier::ext_equal]
pub ghost struct TodoView {
    pub id: int,
    pub title: Seq<char>,
    pub completed: bool,
}

/// One task kept by the store: an id the store assigned, a title, and whether
/// it is done.
#[derive(Debug)]
pub struct Todo {
    pub id: i32,
    pub title: String,
    pub completed: bool,
}

impl View for Todo {
    type V = TodoView;

    open spec fn view(&self) -> TodoView {
        TodoView { id: self.id as int, title: self.title@, completed: self.completed }
    }
}

impl Clone for Todo {
    fn clone(&self) -> (other: Self)
        ensures
            other@ == self@,
    {
        Todo { id: self.id, title: self.title.clone(), completed: self.completed }
    }
}

/// The body of a create request: the title of the new row.
#[derive(Debug)]
pub struct CreateTodo {
    pub title: String,
}

/// The body of an update request: each field is overwritten only where it is
/// supplied, so both are optional and independent.
#[derive(Debug)]
pub struct UpdateTodo {
    pub title: Option<String>,
    pub completed: Option<bool>,
}

/// The mathematical value of an update request.
pub ghost struct UpdateView {
    pub title: Option<Seq<char>>,
    pub completed: Option<bool>,
}

impl View for UpdateTodo {
    type V = UpdateView;

    open spec fn view(&self) -> UpdateView {
        UpdateView {
            title: match self.title {
                Some(t) => Some(t@),
                None => None,
            },
            completed: self.completed,
        }
    }
}

/// The optional window parameters of a list request.
#[derive(Debug)]
pub struct Pagination {
    pub offset: Option<usize>,
    pub limit: Option<usize>,
}

/// The offset a list request asked for; absent means start at the first row.
pub open spec fn spec_offset(p: Pagination) -> int {
    match p.offset {
        Some(o) => o as int,
        None => 0,
    }
}

/// The limit a list request asked for; absent means unbounded, which no row
/// count can exceed.
pub open spec fn spec_limit(p: Pagination) -> int {
    match p.limit {
        Some(l) => l as int,
        None => usize::MAX as int,
    }
}

/// The row a partial update leaves behind: the id is immutable, and each of
/// the two mutable fields is overwritten exactly where the request supplied it.
pub open spec fn merged(t: TodoView, title: Option<Seq<char>>, completed: Option<bool>) -> TodoView {
    TodoView {
        id: t.id,
        title: match title {
            Some(new_title) => new_title,
            None => t.title,
        },
        completed: match completed {
            Some(new_completed) => new_completed,
            None => t.completed,
        },
    }
}

/// Overwrite exactly the fields the request supplied, leaving the others as
/// they were fetched.
pub fn apply_update(todo: &mut Todo, input: UpdateTodo)
    ensures
        final(todo)@ == merged(old(todo)@, input@.title, input@.completed),
{
    if let Some(title) = input.title {
        todo.title = title;
    }
    if let Some(completed) = input.completed {
        todo.completed = completed;
    }
}

/// Law: a partial update touches only the supplied fields — with no title the
/// title stands, with no completion flag the flag stands, and with neither the
/// row is identical to what was fetched.
pub proof fn lemma_partial_update(t: TodoView, title: Option<Seq<char>>, completed: Option<bool>)
    ensures
        merged(t, title, completed).id == t.id,
        title is None ==> merged(t, title, completed).title == t.title,
        completed is None ==> merged(t, title, completed).completed == t.completed,
        merged(t, None, None) == t,
{
    assert(merged(t, None, None) =~= t);
}

} // verus!
