//! Listing of todo records: rendering of rows into text lines, the mapping of
//! failures to HTTP responses, and the decisions of the request handler.

pub mod config;
pub mod handler;
pub mod render;
pub mod response;
pub mod todo;
