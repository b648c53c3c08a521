//! A small client library for a livestock (goat) management console.
//!
//! The crate holds the console's domain model — breed and gender codecs,
//! reference records, and the aggregate goat record — together with the
//! client-side store whose reducers reconcile the record collection with
//! the outcome of each backend request. Every state change and codec is
//! specified and verified; the HTTP transport and the rendering layer
//! live outside the library and hand it plain values.

pub mod domain;
pub mod errors;
pub mod forms;
pub mod store;
pub mod text;
