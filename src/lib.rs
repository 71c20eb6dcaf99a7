//! Declarative descriptors for the edges between entity schema types.

pub mod annotation;
pub mod edge;
pub mod schema;
