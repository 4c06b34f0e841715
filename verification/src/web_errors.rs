//! The error taxonomy of the template-rendering web app: a smaller closed
//! set of kinds with the same discipline — a detail string for server-side
//! logging, a computed client-visible message.

use vstd::prelude::*;

verus! {

/// The closed set of failure kinds of the web app.
#[derive(Debug)]
pub enum MyError {
    /// A failure reported by the web framework; the detail stays server-side.
    ActixError(String),
    /// The requested page does not exist; the message is client-visible.
    NotFound(String),
    /// A failure reported by the template engine.
    TeraError(String),
}

/// The mathematical value of a [`MyError`].
#[verifier::ext_equal]
pub enum MyErrorView {
    ActixError(Seq<char>),
    NotFound(Seq<char>),
    TeraError(Seq<char>),
}

impl View for MyError {
    type V = MyErrorView;

    open spec fn view(&self) -> MyErrorView {
        match self {
            MyError::ActixError(m) => MyErrorView::ActixError(m@),
            MyError::NotFound(m) => MyErrorView::NotFound(m@),
            MyError::TeraError(m) => MyErrorView::TeraError(m@),
        }
    }
}

/// The client-visible message of an error kind: framework detail is
/// flattened to a generic message; the other kinds' messages pass through.
pub open spec fn spec_web_user_message(e: MyErrorView) -> Seq<char> {
    match e {
        MyErrorView::ActixError(_) => "Internal server error"@,
        MyErrorView::NotFound(m) => m,
        MyErrorView::TeraError(m) => m,
    }
}

impl MyError {
    /// The message returned to the client for this error. This is also
    /// what the error renders as when displayed.
    pub fn error_response(&self) -> (msg: String)
        ensures
            msg@ == spec_web_user_message(self@),
    {
        match self {
            MyError::ActixError(_) => "Internal server error".to_owned(),
            MyError::NotFound(m) => m.clone(),
            MyError::TeraError(m) => m.clone(),
        }
    }

    /// Wraps a web-framework failure report, as the automatic conversion
    /// from the framework's error does.
    pub fn from_framework(detail: String) -> (e: MyError)
        ensures
            e@ == MyErrorView::ActixError(detail@),
    {
        MyError::ActixError(detail)
    }
}

/// The JSON body of an error response of the web app.
#[derive(Debug)]
pub struct MyErrorResponse {
    error_message: String,
}

/// The mathematical value of a [`MyErrorResponse`].
#[verifier::ext_equal]
pub struct MyErrorResponseView {
    pub error_message: Seq<char>,
}

impl View for MyErrorResponse {
    type V = MyErrorResponseView;

    closed spec fn view(&self) -> MyErrorResponseView {
        MyErrorResponseView { error_message: self.error_message@ }
    }
}

impl MyErrorResponse {
    /// Builds the response body for an error: exactly its client-visible
    /// message.
    pub fn of_error(e: &MyError) -> (r: MyErrorResponse)
        ensures
            r@.error_message == spec_web_user_message(e@),
    {
        MyErrorResponse { error_message: e.error_response() }
    }

    /// The message carried by this response body.
    pub fn error_message(&self) -> (m: &str)
        ensures
            m@ == self@.error_message,
    {
        self.error_message.as_str()
    }
}

} // verus!
