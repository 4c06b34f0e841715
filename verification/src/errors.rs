//! The error taxonomy of the teacher/course service.
//!
//! Every failure in the pipeline is one of a closed set of kinds. Each kind
//! carries a detail string meant for server-side logging only; the message
//! that reaches a client is computed by [`MyError::error_response`], which
//! never echoes database or framework detail verbatim.

use vstd::prelude::*;

verus! {

/// The closed set of failure kinds of the service.
#[derive(Debug)]
pub enum MyError {
    /// A failure reported by the storage layer; the detail stays server-side.
    DBError(String),
    /// A failure reported by the web framework; the detail stays server-side.
    ActixError(String),
    /// The requested record does not exist; the message is client-visible.
    NotFound(String),
    /// The request was malformed; the message is client-visible.
    InvalidInput(String),
}

/// The mathematical value of a [`MyError`]: the same four kinds over
/// sequences of characters.
#[verifier::ext_equal]
pub enum MyErrorView {
    DBError(Seq<char>),
    ActixError(Seq<char>),
    NotFound(Seq<char>),
    InvalidInput(Seq<char>),
}

impl View for MyError {
    type V = MyErrorView;

    open spec fn view(&self) -> MyErrorView {
        match self {
            MyError::DBError(m) => MyErrorView::DBError(m@),
            MyError::ActixError(m) => MyErrorView::ActixError(m@),
            MyError::NotFound(m) => MyErrorView::NotFound(m@),
            MyError::InvalidInput(m) => MyErrorView::InvalidInput(m@),
        }
    }
}

/// The HTTP status an error kind maps to: storage and framework failures are
/// internal errors, a missing record is 404, a malformed request is 400.
pub open spec fn spec_status_code(e: MyErrorView) -> u16 {
    match e {
        MyErrorView::DBError(_) => 500,
        MyErrorView::ActixError(_) => 500,
        MyErrorView::NotFound(_) => 404,
        MyErrorView::InvalidInput(_) => 400,
    }
}

/// The client-visible message of an error kind. Database and framework
/// detail is flattened to a generic message; only `NotFound` and
/// `InvalidInput` messages pass through.
pub open spec fn spec_user_message(e: MyErrorView) -> Seq<char> {
    match e {
        MyErrorView::DBError(_) => "Database error"@,
        MyErrorView::ActixError(_) => "Internal server error"@,
        MyErrorView::NotFound(m) => m,
        MyErrorView::InvalidInput(m) => m,
    }
}

impl MyError {
    /// The HTTP status code this error maps to.
    pub fn status_code(&self) -> (s: u16)
        ensures
            s == spec_status_code(self@),
    {
        match self {
            MyError::DBError(_) => 500,
            MyError::ActixError(_) => 500,
            MyError::NotFound(_) => 404,
            MyError::InvalidInput(_) => 400,
        }
    }

    /// The message returned to the client for this error.
    pub fn error_response(&self) -> (msg: String)
        ensures
            msg@ == spec_user_message(self@),
    {
        match self {
            MyError::DBError(_) => "Database error".to_owned(),
            MyError::ActixError(_) => "Internal server error".to_owned(),
            MyError::NotFound(m) => m.clone(),
            MyError::InvalidInput(m) => m.clone(),
        }
    }

    /// Wraps a storage-layer failure report, as the automatic conversion
    /// from the database driver's error does.
    pub fn from_database(detail: String) -> (e: MyError)
        ensures
            e@ == MyErrorView::DBError(detail@),
    {
        MyError::DBError(detail)
    }

    /// Wraps a web-framework failure report, as the automatic conversion
    /// from the framework's error does.
    pub fn from_framework(detail: String) -> (e: MyError)
        ensures
            e@ == MyErrorView::ActixError(detail@),
    {
        MyError::ActixError(detail)
    }

    /// The error a malformed JSON request body is converted into before it
    /// reaches any handler.
    pub fn invalid_json_input() -> (e: MyError)
        ensures
            e@ == MyErrorView::InvalidInput("Please provide valid Json input"@),
    {
        MyError::InvalidInput("Please provide valid Json input".to_owned())
    }
}

/// The JSON body of an error response: a single client-visible message.
#[derive(Debug)]
pub struct MyErrorResponse {
    error_msg: String,
}

/// The mathematical value of a [`MyErrorResponse`].
#[verifier::ext_equal]
pub struct MyErrorResponseView {
    pub error_msg: Seq<char>,
}

impl View for MyErrorResponse {
    type V = MyErrorResponseView;

    closed spec fn view(&self) -> MyErrorResponseView {
        MyErrorResponseView { error_msg: self.error_msg@ }
    }
}

impl MyErrorResponse {
    /// Builds the response body for an error: exactly its client-visible
    /// message, never the server-side detail.
    pub fn of_error(e: &MyError) -> (r: MyErrorResponse)
        ensures
            r@.error_msg == spec_user_message(e@),
    {
        MyErrorResponse { error_msg: e.error_response() }
    }

    /// The message carried by this response body.
    pub fn error_msg(&self) -> (m: &str)
        ensures
            m@ == self@.error_msg,
    {
        self.error_msg.as_str()
    }
}

} // verus!
