//! The bridge to WSGI applications.

pub mod application;
