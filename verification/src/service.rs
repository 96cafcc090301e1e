//! The request handlers: each binds one route to a store operation, checks a
//! connection out of the pool for exactly the span of the request, and maps
//! the operation's outcome to an HTTP status and body.

use vstd::prelude::*;

use crate::pool::{DatabaseConnection, Pool};
use crate::status::{
    error_response, spec_message_of, ServiceError, STATUS_CREATED,
    STATUS_INTERNAL_ERROR,
};
use crate::store::{
    contains_id, idx_of, remove_id, row_of, spec_delete_status, views_of, window, TodoStore,
};
use crate::todo::{merged, spec_limit, spec_offset, CreateTodo, Pagination, Todo, TodoView,
    UpdateTodo};

verus! {

/// The answer of the probe query that the two probe routes run.
pub open spec fn spec_hello() -> Seq<char> {
    "hello world from pg"@
}

/// The scalar the probe query selects.
pub fn hello_probe() -> (answer: &'static str)
    ensures
        answer@ == spec_hello(),
{
    "hello world from pg"
}

/// The whole service: the shared pool and the store its connections reach.
#[derive(Debug)]
pub struct Service {
    pub pool: Pool,
    pub store: TodoStore,
}

impl Service {
    /// Both halves of the service in their invariant.
    pub open spec fn wf(&self) -> bool {
        &&& self.pool.wf()
        &&& self.store.wf()
    }

    /// What every handler leaves behind: the pool exactly as it found it —
    /// the extractor's guarantee that no exit path leaks a connection.
    pub open spec fn pool_restored(pre: Service, post: Service) -> bool {
        post.pool.same_state(&pre.pool)
    }

    /// A service over a fresh store, with a pool of the given size.
    pub fn new(max_connections: usize, acquire_timeout_ms: u64) -> (service: Service)
        ensures
            service.wf(),
            service.pool.spec_capacity() == max_connections,
            service.pool.spec_checked_out() == 0,
            service.pool.spec_timeout_ms() == acquire_timeout_ms,
            service.store@ == Seq::<TodoView>::empty(),
            service.store.spec_next_id() == 1,
    {
        Service { pool: Pool::new(max_connections, acquire_timeout_ms), store: TodoStore::new() }
    }

    /// The probe route that is handed the shared pool itself: borrow a pooled
    /// connection, run the probe, give the connection back.
    pub fn using_connection_pool_extractor(&mut self) -> (result: Result<String, (u16, String)>)
        requires
            old(self).wf(),
        ensures
            final(self).wf(),
            Service::pool_restored(*old(self), *final(self)),
            final(self).store@ == old(self).store@,
            final(self).store.spec_next_id() == old(self).store.spec_next_id(),
            result is Ok <==> old(self).pool.has_idle(),
            result matches Ok(answer) ==> answer@ == spec_hello(),
            result matches Err(e) ==> e.0 == STATUS_INTERNAL_ERROR && e.1@ == spec_message_of(
                ServiceError::PoolExhausted,
            ),
    {
        if self.pool.try_acquire() {
            let answer = String::from_str(hello_probe());
            self.pool.release();
            Ok(answer)
        } else {
            Err(error_response(&ServiceError::PoolExhausted))
        }
    }

    /// The probe route behind the extractor: one dedicated connection is
    /// checked out before the body runs and returned when it is done.
    pub fn using_connection_extractor(&mut self) -> (result: Result<String, (u16, String)>)
        requires
            old(self).wf(),
        ensures
            final(self).wf(),
            Service::pool_restored(*old(self), *final(self)),
            final(self).store@ == old(self).store@,
            final(self).store.spec_next_id() == old(self).store.spec_next_id(),
            result is Ok <==> old(self).pool.has_idle(),
            result matches Ok(answer) ==> answer@ == spec_hello(),
            result matches Err(e) ==> e.0 == STATUS_INTERNAL_ERROR && e.1@ == spec_message_of(
                ServiceError::PoolExhausted,
            ),
    {
        let conn = match DatabaseConnection::extract(&mut self.pool) {
            Ok(conn) => conn,
            Err(e) => {
                return Err(e);
            },
        };
        let answer = String::from_str(hello_probe());
        conn.release(&mut self.pool);
        Ok(answer)
    }

    /// GET `/todos`: every row in ascending id order, seen through the window
    /// the query parameters give.
    pub fn todos_index(&mut self, pagination: Pagination) -> (result: Result<
        Vec<Todo>,
        (u16, String),
    >)
        requires
            old(self).wf(),
        ensures
            final(self).wf(),
            Service::pool_restored(*old(self), *final(self)),
            final(self).store@ == old(self).store@,
            final(self).store.spec_next_id() == old(self).store.spec_next_id(),
            result is Ok <==> old(self).pool.has_idle(),
            result matches Ok(rows) ==> views_of(rows@) == window(
                old(self).store@,
                spec_offset(pagination),
                spec_limit(pagination),
            ),
            result matches Err(e) ==> e.0 == STATUS_INTERNAL_ERROR && e.1@ == spec_message_of(
                ServiceError::PoolExhausted,
            ),
    {
        let conn = match DatabaseConnection::extract(&mut self.pool) {
            Ok(conn) => conn,
            Err(e) => {
                return Err(e);
            },
        };
        let rows = self.store.list(&pagination);
        conn.release(&mut self.pool);
        Ok(rows)
    }

    /// POST `/todos`: insert a row with the given title; created with the new
    /// id on success, an internal error where the pool or the store failed.
    pub fn todos_create(&mut self, input: CreateTodo) -> (result: Result<
        (u16, i32),
        (u16, String),
    >)
        requires
            old(self).wf(),
        ensures
            final(self).wf(),
            Service::pool_restored(*old(self), *final(self)),
            result is Ok <==> old(self).pool.has_idle() && old(self).store.spec_next_id()
                < i32::MAX,
            result matches Ok(created) ==> {
                &&& created.0 == STATUS_CREATED
                &&& created.1 as int == old(self).store.spec_next_id()
                &&& final(self).store@ == old(self).store@.push(
                    TodoView { id: created.1 as int, title: input.title@, completed: false },
                )
                &&& final(self).store.spec_next_id() == old(self).store.spec_next_id() + 1
            },
            result matches Err(e) ==> {
                &&& e.0 == STATUS_INTERNAL_ERROR
                &&& final(self).store@ == old(self).store@
                &&& final(self).store.spec_next_id() == old(self).store.spec_next_id()
                &&& !old(self).pool.has_idle() ==> e.1@ == spec_message_of(
                    ServiceError::PoolExhausted,
                )
                &&& old(self).pool.has_idle() ==> e.1@ == spec_message_of(
                    ServiceError::StoreFailure,
                )
            },
    {
        let conn = match DatabaseConnection::extract(&mut self.pool) {
            Ok(conn) => conn,
            Err(e) => {
                return Err(e);
            },
        };
        let outcome = self.store.create(input.title);
        conn.release(&mut self.pool);
        match outcome {
            Ok(id) => Ok((STATUS_CREATED, id)),
            Err(e) => Err(error_response(&e)),
        }
    }

    /// PATCH `/todos/{id}`: merge the supplied fields into the row and hand
    /// the merged row back. A missing row surfaces as an internal error, not
    /// as not-found — the surface the delete route reserves for itself.
    pub fn todos_update(&mut self, id: i32, input: UpdateTodo) -> (result: Result<
        Todo,
        (u16, String),
    >)
        requires
            old(self).wf(),
        ensures
            final(self).wf(),
            Service::pool_restored(*old(self), *final(self)),
            final(self).store.spec_next_id() == old(self).store.spec_next_id(),
            result is Ok <==> old(self).pool.has_idle() && contains_id(
                old(self).store@,
                id as int,
            ),
            result matches Ok(t) ==> {
                &&& t@ == merged(
                    row_of(old(self).store@, id as int),
                    input@.title,
                    input@.completed,
                )
                &&& final(self).store@ == old(self).store@.update(
                    idx_of(old(self).store@, id as int),
                    t@,
                )
            },
            result matches Err(e) ==> {
                &&& e.0 == STATUS_INTERNAL_ERROR
                &&& final(self).store@ == old(self).store@
                &&& !old(self).pool.has_idle() ==> e.1@ == spec_message_of(
                    ServiceError::PoolExhausted,
                )
                &&& old(self).pool.has_idle() ==> e.1@ == spec_message_of(
                    ServiceError::StoreFailure,
                )
            },
    {
        let conn = match DatabaseConnection::extract(&mut self.pool) {
            Ok(conn) => conn,
            Err(e) => {
                return Err(e);
            },
        };
        let outcome = self.store.update(id, input);
        conn.release(&mut self.pool);
        match outcome {
            Ok(todo) => Ok(todo),
            Err(e) => Err(error_response(&e)),
        }
    }

    /// DELETE `/todos/{id}`: success where a row went away, not-found where
    /// none carried the id — and never anything else for an absent row.
    pub fn todos_delete(&mut self, id: i32) -> (result: Result<u16, (u16, String)>)
        requires
            old(self).wf(),
        ensures
            final(self).wf(),
            Service::pool_restored(*old(self), *final(self)),
            final(self).store.spec_next_id() == old(self).store.spec_next_id(),
            result is Ok <==> old(self).pool.has_idle(),
            result matches Ok(status) ==> {
                &&& status == spec_delete_status(old(self).store@, id as int)
                &&& final(self).store@ == remove_id(old(self).store@, id as int)
            },
            result matches Err(e) ==> {
                &&& e.0 == STATUS_INTERNAL_ERROR
                &&& e.1@ == spec_message_of(ServiceError::PoolExhausted)
                &&& final(self).store@ == old(self).store@
            },
    {
        let conn = match DatabaseConnection::extract(&mut self.pool) {
            Ok(conn) => conn,
            Err(e) => {
                return Err(e);
            },
        };
        let deleted = self.store.delete(id);
        conn.release(&mut self.pool);
        if deleted {
            Ok(crate::status::STATUS_OK)
        } else {
            Ok(crate::status::STATUS_NOT_FOUND)
        }
    }
}

} // verus!
