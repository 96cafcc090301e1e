//! The todo table, modelled in memory: rows kept in ascending id order, ids
//! assigned by the store and never reused, and the four operations a request
//! can ask of it — create, windowed list, partial update, delete.

use vstd::prelude::*;

use crate::status::{ServiceError, STATUS_NOT_FOUND, STATUS_OK};
use crate::todo::{merged, spec_limit, spec_offset, Pagination, Todo, TodoView, UpdateTodo};
use crate::todo::apply_update;

verus! {

/// The mathematical contents of a row vector.
pub open spec fn views_of(rows: Seq<Todo>) -> Seq<TodoView> {
    rows.map_values(|t: Todo| t@)
}

/// Whether some row of `s` carries `id`.
pub open spec fn contains_id(s: Seq<TodoView>, id: int) -> bool {
    exists|i: int| 0 <= i < s.len() && s[i].id == id
}

/// The position of the row carrying `id`. Meaningful only where `contains_id`
/// holds; under `rows_well_formed` that position is unique.
pub open spec fn idx_of(s: Seq<TodoView>, id: int) -> int {
    choose|i: int| 0 <= i < s.len() && s[i].id == id
}

/// The row of `s` carrying `id`.
pub open spec fn row_of(s: Seq<TodoView>, id: int) -> TodoView {
    s[idx_of(s, id)]
}

/// The shape every reachable store has: ids strictly ascending (hence unique),
/// each at least 1 and below the next id to assign.
pub open spec fn rows_well_formed(s: Seq<TodoView>, next_id: int) -> bool {
    &&& forall|i: int| 0 <= i < s.len() ==> 1 <= (#[trigger] s[i].id) < next_id
    &&& forall|i: int, j: int|
        0 <= i < j < s.len() ==> (#[trigger] s[i].id) < (#[trigger] s[j].id)
}

/// The slice of `s` seen through the window `[offset, offset + limit)`,
/// clipped to the rows that exist.
pub open spec fn window(s: Seq<TodoView>, offset: int, limit: int) -> Seq<TodoView>
    recommends
        0 <= offset,
        0 <= limit,
{
    let lo = if offset <= s.len() {
        offset
    } else {
        s.len() as int
    };
    let hi = if offset + limit <= s.len() {
        offset + limit
    } else {
        s.len() as int
    };
    if lo <= hi {
        s.subrange(lo, hi)
    } else {
        s.subrange(lo, lo)
    }
}

/// The contents after a delete of `id`: the one row carrying it is gone, the
/// rest keep their order; nothing changes where no row carries it.
pub open spec fn remove_id(s: Seq<TodoView>, id: int) -> Seq<TodoView> {
    if contains_id(s, id) {
        s.remove(idx_of(s, id))
    } else {
        s
    }
}

/// The status a delete of `id` reports against contents `s`.
pub open spec fn spec_delete_status(s: Seq<TodoView>, id: int) -> u16 {
    if contains_id(s, id) {
        STATUS_OK
    } else {
        STATUS_NOT_FOUND
    }
}

/// The todo table, modelled in memory.
#[derive(Debug)]
pub struct TodoStore {
    rows: Vec<Todo>,
    next_id: i32,
}

impl View for TodoStore {
    type V = Seq<TodoView>;

    closed spec fn view(&self) -> Seq<TodoView> {
        views_of(self.rows@)
    }
}

impl TodoStore {
    /// The id the next created row will receive.
    pub closed spec fn spec_next_id(&self) -> int {
        self.next_id as int
    }

    /// The store's invariant, established by the constructors and preserved by
    /// every operation.
    pub open spec fn wf(&self) -> bool {
        &&& 1 <= self.spec_next_id() <= i32::MAX
        &&& rows_well_formed(self@, self.spec_next_id())
    }

    /// An empty store whose first assigned id will be `first_id`, as a store
    /// that has already spent part of its id space would report.
    pub fn starting_at(first_id: i32) -> (store: TodoStore)
        requires
            1 <= first_id,
        ensures
            store.wf(),
            store@ == Seq::<TodoView>::empty(),
            store.spec_next_id() == first_id,
    {
        let store = TodoStore { rows: Vec::new(), next_id: first_id };
        proof {
            assert(store@ =~= Seq::<TodoView>::empty());
        }
        store
    }

    /// An empty store; ids are assigned from 1 upward.
    pub fn new() -> (store: TodoStore)
        ensures
            store.wf(),
            store@ == Seq::<TodoView>::empty(),
            store.spec_next_id() == 1,
    {
        TodoStore::starting_at(1)
    }

    /// Insert a new row with the given title, not yet completed; the store
    /// assigns the id. The one insert this store rejects is exhaustion of its
    /// id space, the model of a constraint violation.
    pub fn create(&mut self, title: String) -> (result: Result<i32, ServiceError>)
        requires
            old(self).wf(),
        ensures
            final(self).wf(),
            result is Ok <==> old(self).spec_next_id() < i32::MAX,
            result matches Ok(id) ==> {
                &&& id as int == old(self).spec_next_id()
                &&& final(self)@ == old(self)@.push(
                    TodoView { id: id as int, title: title@, completed: false },
                )
                &&& final(self).spec_next_id() == old(self).spec_next_id() + 1
            },
            result matches Err(e) ==> {
                &&& e == ServiceError::StoreFailure
                &&& *final(self) == *old(self)
            },
    {
        if self.next_id == i32::MAX {
            return Err(ServiceError::StoreFailure);
        }
        let id = self.next_id;
        let todo = Todo { id, title, completed: false };
        let ghost old_rows = self.rows@;
        self.rows.push(todo);
        self.next_id = id + 1;
        proof {
            let t = TodoView { id: id as int, title: title@, completed: false };
            assert(self@ =~= views_of(old_rows).push(t));
            assert forall|i: int| 0 <= i < self@.len() implies 1 <= (#[trigger] self@[i].id)
                < self.spec_next_id() by {
                if i < old_rows.len() {
                    assert(self@[i] == views_of(old_rows)[i]);
                }
            }
            assert forall|i: int, j: int| 0 <= i < j < self@.len() implies (
            #[trigger] self@[i].id) < (#[trigger] self@[j].id) by {
                if j < old_rows.len() {
                    assert(self@[i] == views_of(old_rows)[i]);
                    assert(self@[j] == views_of(old_rows)[j]);
                } else {
                    assert(self@[i] == views_of(old_rows)[i]);
                    assert(self@[j] == t);
                }
            }
        }
        Ok(id)
    }

    /// The position of the row carrying `id`, scanning in id order.
    fn find_index(&self, id: i32) -> (found: Option<usize>)
        requires
            self.wf(),
        ensures
            found is Some <==> contains_id(self@, id as int),
            found matches Some(i) ==> {
                &&& 0 <= i < self@.len()
                &&& self@[i as int].id == id as int
                &&& i as int == idx_of(self@, id as int)
            },
    {
        let mut i: usize = 0;
        let len = self.rows.len();
        proof {
            assert(self@.len() == self.rows@.len());
        }
        while i < len
            invariant
                0 <= i <= len,
                len == self.rows@.len(),
                self@.len() == len,
                self.wf(),
                forall|m: int| 0 <= m < i ==> (#[trigger] self@[m].id) != id as int,
            decreases len - i,
        {
            if self.rows[i].id == id {
                proof {
                    assert(self@[i as int] == self.rows@[i as int]@);
                    assert(contains_id(self@, id as int));
                    let j = idx_of(self@, id as int);
                    assert(0 <= j < self@.len() && self@[j].id == id as int);
                    if j < i {
                        assert(self@[j].id < self@[i as int].id);
                    } else if j > i {
                        assert(self@[i as int].id < self@[j].id);
                    }
                }
                return Some(i);
            }
            proof {
                assert(self@[i as int] == self.rows@[i as int]@);
            }
            i += 1;
        }
        proof {
            assert(!contains_id(self@, id as int));
        }
        None
    }

    /// Fetch the row by id, overwrite the fields the request supplied, and
    /// persist the merged row; the merged row is what the caller gets back.
    /// A missing row is reported as a store failure, not as not-found — the
    /// same surface the delete operation gives only to a vanished row.
    pub fn update(&mut self, id: i32, input: UpdateTodo) -> (result: Result<Todo, ServiceError>)
        requires
            old(self).wf(),
        ensures
            final(self).wf(),
            final(self).spec_next_id() == old(self).spec_next_id(),
            result is Ok <==> contains_id(old(self)@, id as int),
            result matches Ok(t) ==> {
                &&& t@ == merged(row_of(old(self)@, id as int), input@.title, input@.completed)
                &&& final(self)@ == old(self)@.update(idx_of(old(self)@, id as int), t@)
            },
            result matches Err(e) ==> {
                &&& e == ServiceError::StoreFailure
                &&& *final(self) == *old(self)
            },
    {
        let found = self.find_index(id);
        match found {
            None => Err(ServiceError::StoreFailure),
            Some(i) => {
                let mut todo = self.rows[i].clone();
                apply_update(&mut todo, input);
                let merged_row = todo.clone();
                let ghost old_rows = self.rows@;
                self.rows[i] = todo;
                proof {
                    let ghost j = i as int;
                    assert(self.rows@ == old_rows.update(j, self.rows@[j]));
                    assert(self@ =~= views_of(old_rows).update(j, self.rows@[j]@));
                    assert(merged_row@ == merged(
                        row_of(views_of(old_rows), id as int),
                        input@.title,
                        input@.completed,
                    ));
                    assert forall|a: int| 0 <= a < self@.len() implies 1 <= (
                    #[trigger] self@[a].id) < self.spec_next_id() by {
                        if a != j {
                            assert(self@[a] == views_of(old_rows)[a]);
                        }
                    }
                    assert forall|a: int, b: int| 0 <= a < b < self@.len() implies (
                    #[trigger] self@[a].id) < (#[trigger] self@[b].id) by {
                        assert(views_of(old_rows)[a].id < views_of(old_rows)[b].id);
                        if a != j {
                            assert(self@[a] == views_of(old_rows)[a]);
                        }
                        if b != j {
                            assert(self@[b] == views_of(old_rows)[b]);
                        }
                    }
                }
                Ok(merged_row)
            },
        }
    }

    /// Remove the row carrying `id`; report whether any row went away. An id
    /// that no row carries leaves the store as it was, a plain no.
    pub fn delete(&mut self, id: i32) -> (deleted: bool)
        requires
            old(self).wf(),
        ensures
            final(self).wf(),
            final(self).spec_next_id() == old(self).spec_next_id(),
            deleted == contains_id(old(self)@, id as int),
            final(self)@ == remove_id(old(self)@, id as int),
    {
        let found = self.find_index(id);
        match found {
            None => false,
            Some(i) => {
                let ghost old_rows = self.rows@;
                self.rows.remove(i);
                proof {
                    let ghost j = i as int;
                    assert(self.rows@ == old_rows.remove(j));
                    assert(self@ =~= views_of(old_rows).remove(j));
                    lemma_remove_keeps_well_formed(
                        views_of(old_rows),
                        self.spec_next_id(),
                        j,
                    );
                }
                true
            },
        }
    }

    /// Select every row in ascending id order and apply the requested window.
    pub fn list(&self, pagination: &Pagination) -> (selected: Vec<Todo>)
        ensures
            views_of(selected@) == window(self@, spec_offset(*pagination), spec_limit(*pagination)),
    {
        window_rows(&self.rows, pagination)
    }
}

/// The in-memory windowing of a list request: skip `offset` rows, then take at
/// most `limit`, both defaulted where the request left them out.
pub fn window_rows(rows: &Vec<Todo>, pagination: &Pagination) -> (selected: Vec<Todo>)
    ensures
        views_of(selected@) == window(
            views_of(rows@),
            spec_offset(*pagination),
            spec_limit(*pagination),
        ),
{
    let offset = match pagination.offset {
        Some(o) => o,
        None => 0,
    };
    let limit = match pagination.limit {
        Some(l) => l,
        None => usize::MAX,
    };
    let len = rows.len();
    let lo = if offset < len {
        offset
    } else {
        len
    };
    let left = len - lo;
    let take = if limit < left {
        limit
    } else {
        left
    };
    let hi = lo + take;
    let mut selected: Vec<Todo> = Vec::new();
    let mut i = lo;
    while i < hi
        invariant
            lo <= i <= hi <= len,
            len == rows@.len(),
            views_of(selected@) == views_of(rows@).subrange(lo as int, i as int),
        decreases hi - i,
    {
        let row = &rows[i];
        let row_clone = row.clone();
        let ghost prev = selected@;
        selected.push(row_clone);
        proof {
            assert(selected@ == prev.push(row_clone));
            assert(views_of(rows@).len() == rows@.len());
            assert(views_of(prev).len() == prev.len());
            assert(prev.len() == i - lo);
            assert(views_of(selected@).len() == prev.len() + 1);
            assert forall|k: int| 0 <= k < selected@.len() implies (#[trigger] views_of(
                selected@,
            )[k]) == views_of(rows@).subrange(lo as int, i as int + 1)[k] by {
                if k < prev.len() {
                    assert(selected@[k] == prev[k]);
                    assert(views_of(prev)[k] == views_of(rows@).subrange(lo as int, i as int)[k]);
                } else {
                    assert(selected@[k] == row_clone);
                    assert(views_of(rows@)[i as int] == rows@[i as int]@);
                }
            }
            assert(views_of(selected@) =~= views_of(rows@).subrange(lo as int, i as int + 1));
        }
        i += 1;
    }
    proof {
        assert(views_of(selected@) =~= window(
            views_of(rows@),
            spec_offset(*pagination),
            spec_limit(*pagination),
        ));
    }
    selected
}

/// Removing one row keeps the remaining rows well formed: the survivors keep
/// their relative order, so ids stay ascending and below the next id.
pub proof fn lemma_remove_keeps_well_formed(s: Seq<TodoView>, next_id: int, j: int)
    requires
        rows_well_formed(s, next_id),
        0 <= j < s.len(),
    ensures
        rows_well_formed(s.remove(j), next_id),
{
    let r = s.remove(j);
    assert forall|a: int| 0 <= a < r.len() implies 1 <= (#[trigger] r[a].id) < next_id by {
        if a < j {
            assert(r[a] == s[a]);
        } else {
            assert(r[a] == s[a + 1]);
        }
    }
    assert forall|a: int, b: int| 0 <= a < b < r.len() implies (#[trigger] r[a].id) < (
    #[trigger] r[b].id) by {
        let sa = if a < j { a } else { a + 1 };
        let sb = if b < j { b } else { b + 1 };
        assert(r[a] == s[sa]);
        assert(r[b] == s[sb]);
        assert(s[sa].id < s[sb].id);
    }
}

/// Law: a freshly created row is seen by an unwindowed list — after a create
/// of `title` against well-formed contents, the full window of the new
/// contents contains a row with that title and `completed == false`.
pub proof fn lemma_create_then_list_contains(s: Seq<TodoView>, next_id: int, title: Seq<char>)
    requires
        rows_well_formed(s, next_id),
    ensures
        ({
            let created = TodoView { id: next_id, title, completed: false };
            let after = s.push(created);
            window(after, 0, after.len() as int).contains(created)
        }),
{
    let created = TodoView { id: next_id, title, completed: false };
    let after = s.push(created);
    assert(window(after, 0, after.len() as int) =~= after);
    assert(after[s.len() as int] == created);
}

/// Law: the window never invents or reorders rows — it is exactly the
/// `[offset, offset + limit)` slice of the full sequence, clipped to the rows
/// that exist, and empty as soon as the offset is at or past the row count.
pub proof fn lemma_window_is_clipped_slice(s: Seq<TodoView>, offset: int, limit: int)
    requires
        0 <= offset,
        0 <= limit,
    ensures
        window(s, offset, limit).len() <= limit,
        offset + limit <= s.len() ==> window(s, offset, limit) == s.subrange(
            offset,
            offset + limit,
        ),
        forall|k: int|
            0 <= k < window(s, offset, limit).len() ==> (#[trigger] window(s, offset, limit)[k])
                == s[offset + k],
        offset >= s.len() ==> window(s, offset, limit) == Seq::<TodoView>::empty(),
{
    if offset >= s.len() {
        assert(window(s, offset, limit) =~= Seq::<TodoView>::empty());
    }
}

/// Law: an update that supplies neither field writes the fetched row back
/// unchanged, so the contents it leaves behind are identical to what stood.
pub proof fn lemma_update_with_neither_field_is_identity(s: Seq<TodoView>, id: int)
    requires
        contains_id(s, id),
    ensures
        s.update(
            idx_of(s, id),
            merged(row_of(s, id), Option::<Seq<char>>::None, Option::<bool>::None),
        ) == s,
{
    assert(merged(row_of(s, id), Option::<Seq<char>>::None, Option::<bool>::None) =~= row_of(
        s,
        id,
    ));
    assert(s.update(idx_of(s, id), row_of(s, id)) =~= s);
}

/// Law: a windowed list keeps the store's order — in any window of
/// well-formed contents the ids still ascend.
pub proof fn lemma_window_keeps_id_order(
    s: Seq<TodoView>,
    next_id: int,
    offset: int,
    limit: int,
)
    requires
        rows_well_formed(s, next_id),
        0 <= offset,
        0 <= limit,
    ensures
        forall|a: int, b: int|
            0 <= a < b < window(s, offset, limit).len() ==> (#[trigger] window(s, offset, limit)[a].id)
                < (#[trigger] window(s, offset, limit)[b].id),
{
    let w = window(s, offset, limit);
    assert forall|a: int, b: int| 0 <= a < b < w.len() implies (#[trigger] w[a].id) < (
    #[trigger] w[b].id) by {
        assert(w[a] == s[offset + a]);
        assert(w[b] == s[offset + b]);
        assert(s[offset + a].id < s[offset + b].id);
    }
}

/// Law: delete reaches a terminal state — deleting an id that a row carries
/// succeeds, and the same delete repeated finds nothing and reports not-found.
pub proof fn lemma_delete_idempotent_terminal(s: Seq<TodoView>, next_id: int, id: int)
    requires
        rows_well_formed(s, next_id),
        contains_id(s, id),
    ensures
        spec_delete_status(s, id) == STATUS_OK,
        !contains_id(remove_id(s, id), id),
        spec_delete_status(remove_id(s, id), id) == STATUS_NOT_FOUND,
{
    let j = idx_of(s, id);
    assert(0 <= j < s.len() && s[j].id == id);
    let r = s.remove(j);
    assert forall|k: int| 0 <= k < r.len() implies (#[trigger] r[k].id) != id by {
        if k < j {
            assert(r[k] == s[k]);
            assert(s[k].id < s[j].id);
        } else {
            assert(r[k] == s[k + 1]);
            assert(s[j].id < s[k + 1].id);
        }
    }
}

/// Law: a delete of an id that was never created reports not-found, never an
/// internal error, and leaves the contents untouched.
pub proof fn lemma_delete_missing_is_not_found(s: Seq<TodoView>, id: int)
    requires
        !contains_id(s, id),
    ensures
        spec_delete_status(s, id) == STATUS_NOT_FOUND,
        spec_delete_status(s, id) != crate::status::STATUS_INTERNAL_ERROR,
        remove_id(s, id) == s,
{
}

} // verus!
