//! The uniform failure value returned by every endpoint operation.

use vstd::prelude::*;

verus! {

/// Denotes the way a request to the payment service can fail.
///
/// Exactly two kinds of failure are surfaced: a transport-level failure
/// (connection, DNS, TLS, timeout), whose diagnostics are passed through
/// unchanged, and a remote rejection (a response with a non-success status),
/// which carries the status code, the request URL and the raw response body.
#[derive(Debug, Clone)]
pub struct Error {
    /// An error message with information about why the request failed.
    /// For a remote rejection this is the raw response body text.
    pub message: String,
    /// If the cause of the error is a bad HTTP response, this is the status code.
    pub status: Option<u16>,
    /// If the cause of the error is a bad HTTP response, this is the remote URL.
    pub remote: Option<String>,
}

} // verus!
