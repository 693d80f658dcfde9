//! Denormalized, viewer-aware comment views over a threaded-discussion dataset.
pub mod model;
pub mod view;
pub mod query;
pub mod laws;
