//! Typed client library for the Lettr transactional-email REST API.
//!
//! The library builds authenticated requests for the API's endpoints,
//! renders their JSON bodies, and interprets raw HTTP responses: a
//! success body is decoded into the operation's typed response, and a
//! non-success body is classified into a typed error taxonomy.
//!
//! The network exchange itself is left to the caller: every operation
//! comes as a pair of functions, one that builds the outbound request
//! and one that interprets the `(status, body)` pair the server sent
//! back.

pub mod client;
pub mod config;
pub mod domains;
pub mod emails;
pub mod error;
pub mod json;
pub mod parse;
pub mod templates;
pub mod services;
pub mod text;
pub mod types;
pub mod webhooks;

pub use client::Lettr;
pub use emails::Attachment;
pub use emails::CreateEmailOptions;
pub use error::Error;
