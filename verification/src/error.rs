//! Failures of a bridged database operation.
//!
//! A failure is either the pool's or the query's, and keeps the error that
//! the pool or the database client reported. Both of those are values of
//! other crates, so what is known of them here is known through a handful of
//! questions put to them, each named below.

use vstd::prelude::*;

verus! {

/// `r2d2::Error`, the failure of a pool checkout.
#[verifier::external_type_specification]
#[verifier::external_body]
pub struct ExPoolError(r2d2::Error);

/// `diesel::result::Error`, the failure of a query.
#[verifier::external_type_specification]
#[verifier::external_body]
pub struct ExQueryError(diesel::result::Error);

/// Whether a query failure is `diesel::result::Error::NotFound`: a query that
/// had to return a row found none.
pub uninterp spec fn query_not_found(e: diesel::result::Error) -> bool;

/// Whether a query failure is the variant that diesel declares only to keep
/// its error type open to additions (`__Nonexhaustive`). Diesel never returns
/// it, and cannot render it as text.
pub uninterp spec fn query_error_unlisted(e: diesel::result::Error) -> bool;

/// What the `Display` impl of `r2d2::Error` writes for a checkout failure.
pub uninterp spec fn pool_error_text(e: r2d2::Error) -> Seq<char>;

/// What the `Display` impl of `diesel::result::Error` writes for a query
/// failure that it can render.
pub uninterp spec fn query_error_text(e: diesel::result::Error) -> Seq<char>;

/// Matches a `diesel::result::Error` against its `NotFound` variant, and says
/// whether it is that one. The variants of one enum exclude each other, so a
/// failure that is `NotFound` is not the unlisted one.
#[verifier::external_body]
fn query_error_is_not_found(e: &diesel::result::Error) -> (found_none: bool)
    ensures
        found_none == query_not_found(*e),
        found_none ==> !query_error_unlisted(*e),
{
    matches!(e, diesel::result::Error::NotFound)
}

/// Matches a `diesel::result::Error` against its `__Nonexhaustive` variant,
/// and says whether it is that one.
#[verifier::external_body]
fn query_error_is_unlisted(e: &diesel::result::Error) -> (unlisted: bool)
    ensures
        unlisted == query_error_unlisted(*e),
{
    matches!(e, diesel::result::Error::__Nonexhaustive)
}

/// Calls `to_string` on an `r2d2::Error`, which runs its `Display` impl. That
/// impl writes a fixed description and, where the pool recorded one, the
/// reason after it, and does so for every value. The text depends on the
/// error alone.
#[verifier::external_body]
fn render_pool_error(e: &r2d2::Error) -> (text: String)
    ensures
        text@ == pool_error_text(*e),
{
    e.to_string()
}

/// Calls `to_string` on a `diesel::result::Error`, which runs its `Display`
/// impl. That impl has no text for the unlisted variant and panics on it, so
/// that variant is kept out. For `NotFound` it writes the word `NotFound`; a
/// variant that holds another error writes that error's own text. The text
/// depends on the error alone.
#[verifier::external_body]
fn render_query_error(e: &diesel::result::Error) -> (text: String)
    requires
        !query_error_unlisted(*e),
    ensures
        text@ == query_error_text(*e),
        query_not_found(*e) ==> text@ == "NotFound"@,
{
    e.to_string()
}

/// The outcome of a bridged operation.
pub type AsyncResult<R> = Result<R, AsyncError>;

/// Why a bridged operation failed.
#[derive(Debug)]
pub enum AsyncError {
    /// The pool could not supply a connection.
    Checkout(r2d2::Error),
    /// The query failed.
    Error(diesel::result::Error),
}

impl AsyncError {
    /// A query failure that says no row matched.
    pub open spec fn not_found(self) -> bool {
        self matches AsyncError::Error(e) && query_not_found(e)
    }

    /// Every failure has a text but a query failure of the unlisted variant.
    pub open spec fn has_text(self) -> bool {
        !(self matches AsyncError::Error(e) && query_error_unlisted(e))
    }

    /// The text of a failure: that of the error it holds.
    pub open spec fn text(self) -> Seq<char> {
        match self {
            AsyncError::Checkout(e) => pool_error_text(e),
            AsyncError::Error(e) => query_error_text(e),
        }
    }

    /// Whether this is a query failure that says no row matched.
    pub fn is_not_found(&self) -> (b: bool)
        ensures
            b == self.not_found(),
            b ==> self.has_text(),
    {
        match self {
            AsyncError::Checkout(_) => false,
            AsyncError::Error(e) => query_error_is_not_found(e),
        }
    }

    /// The pool's own error, where the checkout failed.
    pub fn pool_error(&self) -> (cause: Option<&r2d2::Error>)
        ensures
            cause == match *self {
                AsyncError::Checkout(e) => Some(&e),
                AsyncError::Error(_) => None,
            },
    {
        match self {
            AsyncError::Checkout(e) => Some(e),
            AsyncError::Error(_) => None,
        }
    }

    /// The database client's own error, where the query failed.
    pub fn query_error(&self) -> (cause: Option<&diesel::result::Error>)
        ensures
            cause == match *self {
                AsyncError::Checkout(_) => None,
                AsyncError::Error(e) => Some(&e),
            },
    {
        match self {
            AsyncError::Checkout(_) => None,
            AsyncError::Error(e) => Some(e),
        }
    }

    /// The failure as text, as the error it holds renders itself.
    pub fn message(&self) -> (text: String)
        requires
            self.has_text(),
        ensures
            text@ == self.text(),
            self.not_found() ==> text@ == "NotFound"@,
    {
        match self {
            AsyncError::Checkout(e) => render_pool_error(e),
            AsyncError::Error(e) => render_query_error(e),
        }
    }

    /// The failure as text, or `None` for the one failure that has none.
    pub fn try_message(&self) -> (text: Option<String>)
        ensures
            match text {
                Some(t) => self.has_text() && t@ == self.text(),
                None => !self.has_text(),
            },
    {
        let renderable = match self {
            AsyncError::Checkout(_) => true,
            AsyncError::Error(e) => !query_error_is_unlisted(e),
        };
        if renderable {
            Some(self.message())
        } else {
            None
        }
    }
}

} // verus!
