//! Restoring snapshot files with the datastores' own tools and APIs.

pub mod postgres;
pub mod qdrant;
