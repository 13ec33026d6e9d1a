//! The handlers of the administration API, as far as they compute: which
//! statement goes to the store, and which answer goes back to the client.

pub mod members;
pub mod projects;
pub mod rbac;

use vstd::prelude::*;

verus! {

/// The outcome that a handler reports when the store did its part.
#[derive(Debug, Clone, Copy, PartialEq, Eq, Structural)]
pub enum Status {
    /// The request was carried out.
    Success,
    /// The request was carried out and there is nothing to send back.
    NoContent,
    /// The record that the request names does not exist.
    NotFound,
}

impl Status {
    /// The HTTP status code of the outcome.
    pub open spec fn spec_code(self) -> u16 {
        match self {
            Status::Success => 200,
            Status::NoContent => 204,
            Status::NotFound => 404,
        }
    }

    /// The HTTP status code of the outcome.
    pub fn code(self) -> (code: u16)
        ensures
            code == self.spec_code(),
    {
        match self {
            Status::Success => 200,
            Status::NoContent => 204,
            Status::NotFound => 404,
        }
    }
}

/// What a delete by identifier reports, given what the store answered.
pub open spec fn spec_delete_outcome<E>(reply: Result<u64, E>) -> Result<Status, E> {
    match reply {
        Ok(rows) => Ok(
            if rows == 0 {
                Status::NotFound
            } else {
                Status::NoContent
            },
        ),
        Err(error) => Err(error),
    }
}

/// What a delete by identifier reports, given what the store answered: the
/// number of rows that it removed, or why it failed.
///
/// No row removed means that the record did not exist, which is an outcome of
/// its own and no error. A failure of the store is handed on as it is.
pub fn delete_outcome<E>(reply: Result<u64, E>) -> (outcome: Result<Status, E>)
    ensures
        outcome == spec_delete_outcome(reply),
{
    match reply {
        Ok(rows) => {
            let deleted = rows > 0;
            if !deleted {
                return Ok(Status::NotFound);
            }
            Ok(Status::NoContent)
        },
        Err(error) => Err(error),
    }
}

/// Deleting a record that does not exist is told apart from a failure: the
/// outcome is `NotFound` exactly when the store ran the statement and removed
/// no row, it is an error exactly when the store failed, and the code of
/// `NotFound` is that of no other outcome.
pub proof fn lemma_missing_record_is_not_an_error<E>(reply: Result<u64, E>)
    ensures
        spec_delete_outcome(reply) == Ok::<Status, E>(Status::NotFound) <==> reply == Ok::<u64, E>(
            0,
        ),
        spec_delete_outcome(reply) is Err <==> reply is Err,
        forall|status: Status|
            #[trigger] status.spec_code() == Status::NotFound.spec_code() ==> status
                == Status::NotFound,
{
}

} // verus!
