//! The errors that the GraphQL API answers with.
use vstd::prelude::*;

verus! {

/// An error of the GraphQL API.
#[derive(Debug, PartialEq, Eq)]
pub enum ApiError {
    /// The requested resource does not exist.
    NotFound,
    /// An identifier is not the decimal text of an integer.
    InvalidIdInt,
    /// A stored integer is out of the range of the type it stands for.
    InvalidInt,
    /// Something the API relies on does not hold; the text says what.
    InternalError(String),
}

/// The answer to a lookup of a single resource: the resource, or `NotFound`.
pub fn require_found<T>(found: Option<T>) -> (r: Result<T, ApiError>)
    ensures
        match found {
            Some(v) => r == Ok::<T, ApiError>(v),
            None => r == Err::<T, ApiError>(ApiError::NotFound),
        },
{
    match found {
        Some(v) => Ok(v),
        None => Err(ApiError::NotFound),
    }
}

} // verus!
