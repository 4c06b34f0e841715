//! A verified model of a small teacher/course management backend.
//!
//! The library captures the request -> data-access -> error-mapping pipeline
//! of the service: domain records, partial-update merging, an in-memory model
//! of the relational storage layer, the data-access functions over it, the
//! request handlers, and the error taxonomy with its HTTP status mapping.
//! The surrounding process (HTTP listener, JSON codec, connection pool) lives
//! outside the library and hands it plain values.

pub mod dbaccess;
pub mod decimal;
pub mod errors;
pub mod handlers;
pub mod models;
pub mod response;
pub mod state;
pub mod storage;
pub mod web_errors;
