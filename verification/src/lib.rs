//! Serve an in-process asynchronous HTTP application over the FastCGI wire
//! protocol, on a Unix domain socket inherited from the parent web server.
//!
//! The verified core of the bridge: validation of the inherited listener
//! handle, translation of CGI-style environment variables into an HTTP
//! request head, the body conduit between ingestion and the application,
//! the CGI/1.1 response serialization, and the per-request and per-connection
//! decision logic. The asynchronous plumbing around these pieces lives in
//! the unverified serving shell that wraps the library.

pub mod body;
pub mod emit;
pub mod guard;
pub mod http_build;
pub mod outcome;
pub mod server;
pub mod translate;
