//! Shared types of the service surface around the scanner: the error
//! and pagination envelope that scan results travel in, and small
//! value-normalization helpers.
//!
//! Transport concerns — HTTP extraction, serialization — live outside
//! this crate; here a status is its numeric code and a body is a value.

use vstd::prelude::*;

verus! {

/// A validation failure that callers answer with a bad-request status:
/// invalid input, constraint violations and the like.
#[derive(Debug, Clone)]
pub struct ValidationError(pub String);

impl ValidationError {
    pub fn new(message: String) -> (r: Self)
        ensures
            r.0 == message,
    {
        ValidationError(message)
    }
}

/// An API-level error: a numeric HTTP status code and a human-readable
/// message.
#[derive(Debug, Clone)]
pub struct ApiError {
    pub status: u16,
    pub message: String,
}

impl ApiError {
    pub fn new(status: u16, message: String) -> (r: Self)
        ensures
            r.status == status,
            r.message == message,
    {
        ApiError { status, message }
    }

    /// Bad request (400).
    pub fn bad_request(message: &str) -> (r: Self)
        ensures
            r.status == 400,
            r.message@ == message@,
    {
        ApiError { status: 400, message: message.to_owned() }
    }

    /// Internal server error (500).
    pub fn internal_error(message: &str) -> (r: Self)
        ensures
            r.status == 500,
            r.message@ == message@,
    {
        ApiError { status: 500, message: message.to_owned() }
    }

    /// Not found (404).
    pub fn not_found(message: String) -> (r: Self)
        ensures
            r.status == 404,
            r.message == message,
    {
        ApiError { status: 404, message }
    }

    /// Forbidden (403).
    pub fn forbidden(message: &str) -> (r: Self)
        ensures
            r.status == 403,
            r.message@ == message@,
    {
        ApiError { status: 403, message: message.to_owned() }
    }
}

impl From<ValidationError> for ApiError {
    /// A validation failure surfaces as a bad request carrying its
    /// message.
    fn from(err: ValidationError) -> (r: ApiError) {
        ApiError { status: 400, message: err.0 }
    }
}

impl vstd::std_specs::convert::FromSpecImpl<ValidationError> for ApiError {
    open spec fn obeys_from_spec() -> bool {
        true
    }

    open spec fn from_spec(err: ValidationError) -> ApiError {
        ApiError { status: 400, message: err.0 }
    }
}

/// Pagination metadata returned with paginated responses.
#[derive(Debug, Clone)]
pub struct PaginationMeta {
    /// Total number of items matching the filter, ignoring pagination.
    pub total_count: u64,
    /// Maximum items per page, as requested.
    pub limit: u32,
    /// Number of items skipped.
    pub offset: u32,
    /// Whether more items follow this page.
    pub has_more: bool,
}

impl PaginationMeta {
    /// Pagination metadata from query results: more items follow exactly
    /// when the window's end falls short of the total.
    pub fn new(total_count: u64, limit: u32, offset: u32) -> (r: Self)
        ensures
            r.total_count == total_count,
            r.limit == limit,
            r.offset == offset,
            r.has_more == (offset + limit < total_count),
    {
        let has_more = (offset as u64 + limit as u64) < total_count;
        PaginationMeta { total_count, limit, offset, has_more }
    }
}

/// A request body already extracted into a value; the transport wrapper
/// that fills it lives outside this crate.
#[derive(Debug, Clone)]
pub struct ApiJson<T>(pub T);

/// Values with an "empty" shape that callers prefer to see as absent.
pub trait EmptyToOption<T>: Sized {
    /// Whether the value counts as empty.
    spec fn spec_is_empty(&self) -> bool;

    /// The value carried when not empty.
    spec fn spec_value(self) -> T;

    /// Nothing for an empty value, the carried value otherwise.
    fn empty_to_option(self) -> (r: Option<T>)
        ensures
            self.spec_is_empty() ==> r is None,
            !self.spec_is_empty() ==> r == Some(self.spec_value()),
    ;
}

impl EmptyToOption<String> for String {
    open spec fn spec_is_empty(&self) -> bool {
        self@.len() == 0
    }

    open spec fn spec_value(self) -> String {
        self
    }

    fn empty_to_option(self) -> (r: Option<String>) {
        if self.as_str().is_empty() {
            None
        } else {
            Some(self)
        }
    }
}

impl EmptyToOption<String> for Option<String> {
    open spec fn spec_is_empty(&self) -> bool {
        self is None || self->Some_0@.len() == 0
    }

    open spec fn spec_value(self) -> String {
        self->Some_0
    }

    fn empty_to_option(self) -> (r: Option<String>) {
        match self {
            Some(s) => if s.as_str().is_empty() {
                None
            } else {
                Some(s)
            },
            None => None,
        }
    }
}

impl<T> EmptyToOption<Vec<T>> for Vec<T> {
    open spec fn spec_is_empty(&self) -> bool {
        self@.len() == 0
    }

    open spec fn spec_value(self) -> Vec<T> {
        self
    }

    fn empty_to_option(self) -> (r: Option<Vec<T>>) {
        if self.len() == 0 {
            None
        } else {
            Some(self)
        }
    }
}

/// Query flags of a share lookup.
#[derive(Debug, Clone)]
pub struct ShareQuery {
    pub embed: bool,
}

/// Body of a shared-topology request.
#[derive(Debug, Clone)]
pub struct ShareTopologyRequest {
    pub password: Option<String>,
}

} // verus!
