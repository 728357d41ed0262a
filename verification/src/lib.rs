//! The blocking core of a bridge between a pooled, synchronous database client
//! and task-based callers.
//!
//! - [`error`]: one error type for pool and query failures.
//! - [`optional`]: the transform that reads "no matching row" as an empty
//!   result.
//! - [`facade`]: the checkout-execute-release protocol that every database
//!   operation follows.
//!
//! Nothing here suspends, spawns or touches a pool. A caller checks a
//! connection out of its pool, hands over what the checkout returned together
//! with the work to run, and gets back the outcome as an [`AsyncResult`] and
//! the connection to return.

pub mod error;
pub mod facade;
pub mod optional;

pub use error::{AsyncError, AsyncResult};
pub use optional::OptionalExtension;
