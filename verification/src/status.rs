//! The error taxonomy of the service and the one mapping from it to HTTP
//! status codes, together with the per-statement decisions that read an
//! affected-row count.

use vstd::prelude::*;

verus! {

/// Status of a successful request.
pub const STATUS_OK: u16 = 200;
/// Status of a request that created a row.
pub const STATUS_CREATED: u16 = 201;
/// Status of a request naming a row that does not exist.
pub const STATUS_NOT_FOUND: u16 = 404;
/// Status of a pool or store failure.
pub const STATUS_INTERNAL_ERROR: u16 = 500;

/// Everything that can go wrong while one request is served.
#[derive(Clone, Copy, Debug, PartialEq, Eq, Structural)]
pub enum ServiceError {
    /// The pool could not hand out a connection before its timeout elapsed.
    PoolExhausted,
    /// The store rejected a statement, or a row vanished between a fetch and
    /// the write that should have persisted it.
    StoreFailure,
    /// A delete named an id that no row carries.
    NotFound,
}

/// The status each error is reported with: an absent row on delete is the
/// caller's mistake, every other failure is the service's.
pub open spec fn spec_status_of(e: ServiceError) -> u16 {
    match e {
        ServiceError::NotFound => STATUS_NOT_FOUND,
        ServiceError::PoolExhausted => STATUS_INTERNAL_ERROR,
        ServiceError::StoreFailure => STATUS_INTERNAL_ERROR,
    }
}

/// The message carried in the body of an error response.
pub open spec fn spec_message_of(e: ServiceError) -> Seq<char> {
    match e {
        ServiceError::PoolExhausted => "timed out while waiting for a pool connection"@,
        ServiceError::StoreFailure => "the store rejected the statement"@,
        ServiceError::NotFound => "no todo with that id"@,
    }
}

/// The single mapping step from the error taxonomy to a status code.
pub fn status_of(e: &ServiceError) -> (status: u16)
    ensures
        status == spec_status_of(*e),
{
    match e {
        ServiceError::NotFound => STATUS_NOT_FOUND,
        ServiceError::PoolExhausted => STATUS_INTERNAL_ERROR,
        ServiceError::StoreFailure => STATUS_INTERNAL_ERROR,
    }
}

/// The human-readable body that goes with an error.
pub fn message_of(e: &ServiceError) -> (msg: &'static str)
    ensures
        msg@ == spec_message_of(*e),
{
    match e {
        ServiceError::PoolExhausted => "timed out while waiting for a pool connection",
        ServiceError::StoreFailure => "the store rejected the statement",
        ServiceError::NotFound => "no todo with that id",
    }
}

/// An error as a handler reports it: its status code and its message.
pub fn error_response(e: &ServiceError) -> (response: (u16, String))
    ensures
        response.0 == spec_status_of(*e),
        response.1@ == spec_message_of(*e),
{
    (status_of(e), String::from_str(message_of(e)))
}

/// The status a delete reports once the store says how many rows went away:
/// not-found where none did, success otherwise.
pub fn delete_status(rows_affected: u64) -> (status: u16)
    ensures
        rows_affected == 0 ==> status == STATUS_NOT_FOUND,
        rows_affected > 0 ==> status == STATUS_OK,
{
    if rows_affected == 0 {
        STATUS_NOT_FOUND
    } else {
        STATUS_OK
    }
}

/// The outcome of the write that persists a merged row: zero affected rows
/// means the row vanished between the fetch and the write, a store failure.
pub fn update_write_outcome(rows_affected: u64) -> (outcome: Result<(), ServiceError>)
    ensures
        outcome is Ok <==> rows_affected > 0,
        outcome matches Err(e) ==> e == ServiceError::StoreFailure,
{
    if rows_affected == 0 {
        Err(ServiceError::StoreFailure)
    } else {
        Ok(())
    }
}

} // verus!
