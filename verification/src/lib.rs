//! Fetching one issue from a remote source-hosting API: building the
//! resource address for an owner, repository and issue number, and judging
//! one HTTP response — status, cache-validation header, JSON body — into
//! either the issue with its header token or one of five distinct failures.
//!
//! The network call itself stays outside; the library receives the response
//! as plain values and owes a verified outcome for every one of them.

pub mod digits;
pub mod endpoint;
pub mod error;
pub mod etag;
pub mod fetch;
pub mod issue;
