//! Reading "no matching row" as an empty result.

use vstd::prelude::*;

use crate::error::{query_not_found, AsyncError, AsyncResult};

verus! {

/// What [`OptionalExtension::optional`] makes of an outcome. A value is kept,
/// as `Some`. A query failure that says no row matched becomes `None`. Every
/// other query failure, and every checkout failure, stays the failure it was.
pub open spec fn optional_of<T>(outcome: AsyncResult<T>) -> Result<Option<T>, AsyncError> {
    match outcome {
        Ok(value) => Ok(Some(value)),
        Err(AsyncError::Error(e)) => if query_not_found(e) {
            Ok(None)
        } else {
            Err(AsyncError::Error(e))
        },
        Err(AsyncError::Checkout(e)) => Err(AsyncError::Checkout(e)),
    }
}

/// Lets a caller treat "no matching row" as an absent value instead of a
/// failure.
pub trait OptionalExtension<T> {
    /// The outcome with "no matching row" read as `Ok(None)`.
    fn optional(self) -> Result<Option<T>, AsyncError>;
}

impl<T> OptionalExtension<T> for AsyncResult<T> {
    fn optional(self) -> (r: Result<Option<T>, AsyncError>)
        ensures
            r == optional_of(self),
    {
        match self {
            Ok(value) => Ok(Some(value)),
            Err(e) => if e.is_not_found() {
                Ok(None)
            } else {
                Err(e)
            },
        }
    }
}

} // verus!
