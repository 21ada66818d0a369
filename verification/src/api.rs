//! Items of the service's public surface that the dispatcher's payloads use.

use vstd::prelude::*;

verus! {

/// The body of an error response: a single human-readable message.
#[derive(Debug, PartialEq, Eq)]
pub struct ApiErrorBody {
    pub message: String,
}

/// Returns the error body reported when the storage layer fails.
pub fn database_error() -> (r: ApiErrorBody)
    ensures
        r.message@ == "Database error"@,
{
    ApiErrorBody { message: "Database error".to_owned() }
}

/// Marker for the service's top-level interface description. The description
/// itself is assembled by the application around this library.
#[derive(Clone, Copy, Debug, PartialEq, Eq, Structural)]
pub struct ApiDocs;

/// Marker for the interface description of the movie routes. The description
/// itself is assembled by the application around this library.
#[derive(Clone, Copy, Debug, PartialEq, Eq, Structural)]
pub struct MoviesApiDocs;

} // verus!
