//! The process-wide application state: created once at startup, shared by
//! every request handler.

use vstd::prelude::*;

use crate::storage::Db;

verus! {

/// The shared application state: the health-check message, the visit
/// counter, and the storage layer. The process wraps the counter in an
/// exclusive-access lock; no handler in scope writes it, but the record of
/// its value is part of the state. The storage handle lives here for the
/// process lifetime.
pub struct AppState {
    pub health_check_response: String,
    pub visit_count: u32,
    pub db: Db,
}

impl AppState {
    /// Fresh state around a storage layer, with the given health message
    /// and no recorded visits.
    pub fn new(health_check_response: String, db: Db) -> (s: AppState)
        ensures
            s.health_check_response@ == health_check_response@,
            s.visit_count == 0,
            s.db@ == db@,
    {
        AppState { health_check_response, visit_count: 0, db }
    }
}

} // verus!
