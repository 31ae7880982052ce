//! A client-side layer for a paginated query API: it assembles the request
//! for one or more sub-queries, threads continuation tokens into the next
//! request, and decodes the response into typed records.

pub mod decode;
pub mod error;
pub mod json;
pub mod requests;
pub mod responses;
pub mod text;
