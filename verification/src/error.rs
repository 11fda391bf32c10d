//! Errors of the ingest client.

use vstd::prelude::*;

verus! {

/// Why a request to the ingest endpoint did not succeed.
#[derive(Clone, Debug, PartialEq)]
pub enum UsermonError {
    /// The request could not be sent, or its reply could not be read.
    Http(String),
    /// The endpoint answered with a status outside 200..=299.
    Api { status: u16, body: String },
}

/// The result of a client operation.
pub type Result<T> = std::result::Result<T, UsermonError>;

} // verus!
