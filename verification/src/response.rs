//! The HTTP response a handler produces: a status code and a JSON body,
//! which is either the successful result or the error body of the taxonomy.

use vstd::prelude::*;

use crate::errors::{spec_status_code, spec_user_message, MyError, MyErrorResponse};

verus! {

/// The JSON body of a response: the serialized result on success, the
/// error body otherwise.
pub enum ReplyBody<T> {
    Json(T),
    Error(MyErrorResponse),
}

/// A rendered HTTP response.
pub struct HttpReply<T> {
    pub status: u16,
    pub body: ReplyBody<T>,
}

/// Renders a handler outcome as an HTTP response: a success becomes status
/// 200 with the result as body; an error becomes its taxonomy status with
/// a body carrying only the client-visible message.
pub fn reply_of<T>(result: Result<T, MyError>) -> (r: HttpReply<T>)
    ensures
        result matches Ok(v) ==> r.status == 200 && (r.body matches ReplyBody::Json(b) && b == v),
        result matches Err(e) ==> r.status == spec_status_code(e@) && (r.body
            matches ReplyBody::Error(b) && b@.error_msg == spec_user_message(e@)),
{
    match result {
        Ok(v) => HttpReply { status: 200, body: ReplyBody::Json(v) },
        Err(e) => HttpReply {
            status: e.status_code(),
            body: ReplyBody::Error(MyErrorResponse::of_error(&e)),
        },
    }
}

} // verus!
