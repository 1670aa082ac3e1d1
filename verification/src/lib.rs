//! A query façade onto a read-only geospatial feature store.
//!
//! The store itself lives behind a native engine. This crate holds everything
//! the façade decides on its own: which request goes to the engine, how the
//! engine's answers become results and features, and how failures are told
//! apart. Every function here is pure; the caller performs the engine calls
//! and hands their outcomes back.

pub mod bbox;
pub mod error;
pub mod feature;
pub mod query;
pub mod result;
pub mod store;

pub use bbox::BoundingBox;
pub use error::Error;
pub use feature::{Feature, FeatureData};
pub use query::QueryRequest;
pub use result::QueryResult;
pub use store::{GeoDesk, OpenRequest};
