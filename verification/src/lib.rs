//! A verified client core for fetching pod logs from a centralized log store
//! through a monitoring dashboard's query proxy.
//!
//! The library covers the logic of the client: building the per-user
//! credential paths and the credentials blob, assembling the query payload,
//! reconstructing an ordered sequence of log lines from the loosely-typed
//! response, and rendering the output. Network and file I/O live outside the
//! library and hand it plain values.

pub mod errors;
pub mod identity;
pub mod order;
pub mod output;
pub mod parse;
pub mod query;
