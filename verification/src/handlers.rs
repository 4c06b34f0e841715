//! The request handlers: each deserialized request invokes exactly one
//! data-access function and renders its outcome as an HTTP response.

pub mod course;
pub mod teacher;
