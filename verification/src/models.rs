//! Domain records of the service: teachers, courses, and their
//! create/update shapes, together with the partial-update merge rules.

pub mod course;
pub mod teacher;
