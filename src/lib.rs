//! A small static-content HTTP/1.1 server library: a forward-only request
//! parser, content sources that produce a response head and body, path
//! resolution with a fallback chain for missing content, and the writer that
//! frames a response.

pub mod config;
pub mod head;
pub mod mime;
pub mod proxy;
pub mod request;
pub mod resolve;
pub mod response;
pub mod status;
pub mod text;
