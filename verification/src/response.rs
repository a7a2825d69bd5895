//! What the answer to a slot search means for the run.

use vstd::prelude::*;
use crate::model::Availabilities;

verus! {

/// Why a slot search gave no count.
#[derive(Debug, Clone, Copy, PartialEq, Eq)]
pub enum QueryError {
    /// The server could not be reached, or its answer could not be read: the
    /// run ends.
    Fatal,
    /// The server answered with a status outside the 2xx range: the search
    /// counts as one that found nothing, and the run goes on.
    UpstreamDegraded,
}

/// A status in the range 200 to 299.
pub open spec fn is_success(status: u16) -> bool {
    200 <= status < 300
}

/// Tests whether an HTTP status reports success.
pub fn status_is_success(status: u16) -> (ok: bool)
    ensures
        ok == is_success(status),
{
    200 <= status && status < 300
}

/// What a response with the given status and body means. `body` is the
/// decoded body, or `None` where it does not have the expected shape.
pub open spec fn reading_of(status: u16, body: Option<Availabilities>) -> Result<
    Availabilities,
    QueryError,
> {
    if !is_success(status) {
        Err(QueryError::UpstreamDegraded)
    } else {
        match body {
            Some(found) => Ok(found),
            None => Err(QueryError::Fatal),
        }
    }
}

/// Reads the response to a slot search. A status outside the 2xx range is
/// an upstream rejection whatever the body holds; a 2xx response gives its
/// decoded body, and is a fatal error where the body could not be decoded.
pub fn read_availability(status: u16, body: Option<Availabilities>) -> (reading: Result<
    Availabilities,
    QueryError,
>)
    ensures
        reading == reading_of(status, body),
{
    if !status_is_success(status) {
        Err(QueryError::UpstreamDegraded)
    } else {
        match body {
            Some(found) => Ok(found),
            None => Err(QueryError::Fatal),
        }
    }
}

/// The count that a reading adds to the run: the total of an answer, zero
/// for an upstream rejection, and none for a fatal error.
pub open spec fn counted(reading: Result<Availabilities, QueryError>) -> Option<u32> {
    match reading {
        Ok(found) => Some(found.total),
        Err(QueryError::UpstreamDegraded) => Some(0u32),
        Err(QueryError::Fatal) => None,
    }
}

/// Turns a reading into the result that the run counts: an upstream
/// rejection becomes an answer with a total of zero, a fatal error stays an
/// error.
pub fn settle(reading: Result<Availabilities, QueryError>) -> (settled: Result<
    Availabilities,
    QueryError,
>)
    ensures
        match counted(reading) {
            Some(total) => settled == Ok::<Availabilities, QueryError>(
                (Availabilities { total: total }),
            ),
            None => settled == Err::<Availabilities, QueryError>(QueryError::Fatal),
        },
{
    match reading {
        Ok(found) => Ok(found),
        Err(QueryError::UpstreamDegraded) => Ok(Availabilities { total: 0 }),
        Err(QueryError::Fatal) => Err(QueryError::Fatal),
    }
}

/// A response with a status outside the 2xx range is never a fatal error
/// and counts exactly zero, whatever its body.
pub proof fn lemma_rejection_counts_zero(status: u16, body: Option<Availabilities>)
    requires
        !is_success(status),
    ensures
        counted(reading_of(status, body)) == Some(0u32),
{
}

} // verus!
