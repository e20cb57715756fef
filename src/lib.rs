//! The request/response logic of a small HTTP learning server: echoing a
//! request back, answering with a chosen status code, reporting a domain-name
//! lookup, and rendering the landing page.
//!
//! Everything here works on plain values. The HTTP server, the name resolver
//! and the JSON encoding live in the program around the library.

pub mod text;
pub mod models;
pub mod reply;
pub mod echo;
pub mod status;
pub mod dns;
pub mod page;
