//! The network-fetch pipeline of a script runtime and its cooperative job queue.
//!
//! The library decides; the host performs. Every step of a fetch that does not
//! wait on the outside world (routing a request by scheme, normalising the
//! headers sent to the transport, following redirects, serving byte ranges,
//! filtering the response that the caller sees) is a verified function here.
//! The host hands it the results of the transport, of file reads and of blob
//! lookups as plain values.

pub mod text;
pub mod header;
pub mod url;
pub mod body;
pub mod request;
pub mod response;
pub mod ports;
pub mod range;
pub mod scheme;
pub mod fetch;
pub mod redirect;
pub mod pipeline;
pub mod microtasks;
pub mod array;
pub mod reader;
pub mod promise;
pub mod size;
