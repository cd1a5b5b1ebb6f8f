//! Client-side core of a poller for a remote security-decision service.
//!
//! The library holds the decision data model with its open (forward
//! compatible) categorical fields, the tolerant decoder for the wire
//! responses, the query-options model with its flattening wire encoding,
//! the transport configuration checks, and the self-throttling state
//! machine of the decision stream.

pub mod client;
pub mod engine;
pub mod errors;
pub mod json;
pub mod options;
pub mod types;
