//! Client library for a remote API-documentation service.
//!
//! The library covers the logic of one command invocation: parsing the
//! `org/app:version` tag grammar, composing the HTTP request for each of the
//! three operations (`check`, `generate`, `push`), interpreting the response
//! body by HTTP status class, and normalizing every failure into a single
//! error shape.  Network and file I/O stay outside the library: callers hand
//! in plain values (document text, status code, response body) and take plain
//! values back (a request description, output lines, a result).

pub mod cli;
pub mod client;
pub mod json;
pub mod models;
pub mod text;
