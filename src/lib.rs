//! A client for the Readwise public API (books and highlights).
//!
//! The library does no I/O of its own. It signs requests (method, absolute
//! URL, `Authorization` header text and JSON payload), judges the status of
//! each answer, and drives the fan-out of follow-up fetches that creating
//! highlights needs. A transport sends the requests and decodes the answers.
pub mod auth;
pub mod client;
pub mod create;
pub mod error;
pub mod model;
pub mod request;
pub mod text;
pub mod url;

pub use auth::auth;
pub use client::Client;
pub use create::{modified_ids, Creation, Progress};
pub use error::Error;
pub use model::{Book, BooksResponse, Highlight, HighlightCreateResponse, HighlightsResponse};
pub use request::{check_status, signed_request, Body, Fields, Method, Payload, Request, Response};
pub use text::{to_decimal, to_signed_decimal};
pub use url::request_url;
