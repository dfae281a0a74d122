//! A small concurrent HTTP server core: request parsing, response
//! serialisation, a static route table and the per-connection protocol
//! driver, each with a machine-checked contract.

pub mod config;
pub mod request;
pub mod response;
pub mod routing;
pub mod server;
pub mod threadpool;
pub mod wsgi;
