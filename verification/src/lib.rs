//! Fetcher for a remote "releases" listing.
//!
//! The library holds the decisions of a single-shot fetch: validating the
//! credential, building the request URL, classifying the HTTP status, and
//! turning a successful response body into the exact text to persist. The
//! surrounding I/O (environment, network, file) lives outside the library and
//! only carries plain values to and from it.

pub mod fetch;
pub mod json;
pub mod request;
pub mod status;
