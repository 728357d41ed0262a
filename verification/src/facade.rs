//! The checkout-execute-release protocol.
//!
//! Every database operation takes one connection out of the pool, runs one
//! piece of work against it, and gives the connection up again whatever the
//! work returned. The work is what tells the operations apart: a caller's
//! closure, the same closure inside a transaction of the database client, or
//! one batch of statements. The protocol around it is the same for all.
//!
//! The caller performs the checkout, since only it knows the pool: what the
//! checkout returned and the work to run arrive here together, and the
//! connection leaves here beside the result, for the caller to return to the
//! pool it came from.

use vstd::prelude::*;

use crate::error::{AsyncError, AsyncResult};

verus! {

/// A checkout in the bridge's terms: the connection, or a
/// [`AsyncError::Checkout`] around the pool's own failure.
pub open spec fn checkout_outcome<C>(checkout: Result<C, r2d2::Error>) -> AsyncResult<C> {
    match checkout {
        Ok(conn) => Ok(conn),
        Err(e) => Err(AsyncError::Checkout(e)),
    }
}

/// A query result in the bridge's terms: the value, or an
/// [`AsyncError::Error`] around the query's own failure.
pub open spec fn query_outcome<R>(outcome: Result<R, diesel::result::Error>) -> AsyncResult<R> {
    match outcome {
        Ok(value) => Ok(value),
        Err(e) => Err(AsyncError::Error(e)),
    }
}

/// Puts what a pool checkout returned in the bridge's terms.
pub fn wrap_checkout<C>(checkout: Result<C, r2d2::Error>) -> (r: AsyncResult<C>)
    ensures
        r == checkout_outcome(checkout),
{
    match checkout {
        Ok(conn) => Ok(conn),
        Err(e) => Err(AsyncError::Checkout(e)),
    }
}

/// Puts what a blocking query returned in the bridge's terms.
pub fn wrap_query<R>(outcome: Result<R, diesel::result::Error>) -> (r: AsyncResult<R>)
    ensures
        r == query_outcome(outcome),
{
    match outcome {
        Ok(value) => Ok(value),
        Err(e) => Err(AsyncError::Error(e)),
    }
}

/// Whether `result` is what the bridge reports for a run of `work` against
/// `conn`: a value that the work returned, or an [`AsyncError::Error`] around
/// a failure that the work returned. A checkout failure is never the report
/// of work that ran.
pub open spec fn reports<C, R, Work>(work: Work, conn: C, result: AsyncResult<R>) -> bool
    where
        Work: FnOnce(&C) -> Result<R, diesel::result::Error>,
{
    match result {
        Ok(value) => call_ensures(work, (&conn,), Ok::<R, diesel::result::Error>(value)),
        Err(AsyncError::Error(e)) => call_ensures(work, (&conn,), Err::<R, diesel::result::Error>(e)),
        Err(AsyncError::Checkout(_)) => false,
    }
}

/// Runs `work` once against a connection that the caller already holds, and
/// hands the connection back beside the result. No checkout happens here, so
/// work that is itself part of a larger operation can share that operation's
/// connection. The connection comes back on every path: a failure of the work
/// is reported, never answered by keeping the connection.
pub fn execute<C, R, Work>(conn: C, work: Work) -> (done: (AsyncResult<R>, C))
    where
        Work: FnOnce(&C) -> Result<R, diesel::result::Error>,
    requires
        call_requires(work, (&conn,)),
    ensures
        reports(work, conn, done.0),
        done.1 == conn,
{
    let outcome = work(&conn);
    (wrap_query(outcome), conn)
}

/// One whole operation, from what the checkout returned to what the caller
/// is told.
///
/// Where the checkout failed, `work` is not run, the pool's failure is
/// reported as [`AsyncError::Checkout`], and there is no connection to give
/// up. Where the checkout supplied a connection, `work` runs once against it,
/// its own result is the result, with a failure reported as
/// [`AsyncError::Error`], and that same connection is given up beside the
/// result, whether the work succeeded or failed.
pub fn run<C, R, Work>(checkout: Result<C, r2d2::Error>, work: Work) -> (done: (AsyncResult<R>, Option<C>))
    where
        Work: FnOnce(&C) -> Result<R, diesel::result::Error>,
    requires
        checkout matches Ok(conn) ==> call_requires(work, (&conn,)),
    ensures
        match checkout {
            Err(e) => done.0 == Err::<R, AsyncError>(AsyncError::Checkout(e)) && done.1 is None,
            Ok(conn) => reports(work, conn, done.0) && done.1 == Some(conn),
        },
{
    match wrap_checkout(checkout) {
        Err(e) => (Err(e), None),
        Ok(conn) => {
            let (result, conn) = execute(conn, work);
            (result, Some(conn))
        },
    }
}

} // verus!
