//! An in-memory school registry: students, clubs, classes and courses,
//! kept in insertion order and looked up by identifier.

pub mod laws;
pub mod lookup;
pub mod records;
pub mod registry;
