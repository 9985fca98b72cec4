//! Filtering of vehicle-registration records against a minimum electric range,
//! with a sequential, a whole-input parallel and a batched parallel strategy.
//! Decoding and encoding of rows happen outside the library: a row reaches it
//! as `Some(record)` when it decoded and as `None` when it was malformed.

pub mod models;
pub mod pipeline;
pub mod runs;
pub mod laws;
pub mod cli;
