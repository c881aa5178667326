//! Data-access core of a relational desktop client.
//!
//! Given a live connection held by the surrounding application, this crate
//! translates JSON-shaped filter and operation requests into SQL, splits and
//! classifies raw SQL batches, normalises strongly-typed result cells into a
//! uniform loosely-typed value model, and shapes per-statement results into a
//! response envelope.  All network traffic stays with the caller: the library
//! works on plain values handed across that boundary.

pub mod value;
pub mod render;
pub mod filter;
pub mod codec;
pub mod error;
pub mod batch;
pub mod ops;
pub mod request;
pub mod listing;
