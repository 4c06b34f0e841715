//! The data-access functions: one per entity-operation pair, each executing
//! one statement against the storage layer and mapping rows to domain
//! records or to an error of the taxonomy.

pub mod course;
pub mod teacher;
