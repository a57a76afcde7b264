//! A WSGI application server's request framing and application lookup.
pub mod application;
pub mod pep3333;
pub mod worker;
pub mod http;
pub mod server;
