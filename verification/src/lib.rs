//! Verified core of the Picocodex agent library: the library's error boundary,
//! the Responses failures it reports, the runtime check that precedes spawning
//! the private agent driver, and the selection of the web-search tool schema.

pub mod error;
pub mod responses;
pub mod runtime;
pub mod schema;
