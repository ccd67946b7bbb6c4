//! Refusals.

use vstd::prelude::*;

verus! {

/// What kind of refusal it is.
#[derive(Clone, Copy, Debug, PartialEq, Eq, Structural)]
pub enum StatusCode {
    InvalidArgument,
    NotFound,
    AlreadyExists,
    FailedPrecondition,
    Aborted,
    Unavailable,
    Internal,
    PermissionDenied,
    ResourceExhausted,
    DeadlineExceeded,
}

/// A refusal, and when to try again where that is known.
#[derive(Clone, Debug, PartialEq, Eq)]
pub struct ApiStatus {
    pub code: StatusCode,
    pub message: String,
    pub retry_after_millis: Option<u128>,
}

/// The mathematical model of an [`ApiStatus`].
#[verifier::ext_equal]
pub struct StatusView {
    pub code: StatusCode,
    pub message: Seq<char>,
    pub retry_after_millis: Option<u128>,
}

impl View for ApiStatus {
    type V = StatusView;

    open spec fn view(&self) -> StatusView {
        StatusView {
            code: self.code,
            message: self.message@,
            retry_after_millis: self.retry_after_millis,
        }
    }
}

/// A refusal without a time to try again.
pub open spec fn refused(code: StatusCode, message: Seq<char>) -> StatusView {
    StatusView { code, message, retry_after_millis: None }
}

impl ApiStatus {
    /// A refusal without a time to try again.
    pub fn new(code: StatusCode, message: &str) -> (status: ApiStatus)
        ensures
            status@ == refused(code, message@),
    {
        ApiStatus { code, message: message.to_owned(), retry_after_millis: None }
    }
}

/// The model of an answer.
pub open spec fn answer<T: View>(result: Result<T, ApiStatus>) -> Result<T::V, StatusView> {
    match result {
        Ok(value) => Ok(value@),
        Err(status) => Err(status@),
    }
}

/// The model of an answer whose value has none of its own.
pub open spec fn plain_answer<T>(result: Result<T, ApiStatus>) -> Result<T, StatusView> {
    match result {
        Ok(value) => Ok(value),
        Err(status) => Err(status@),
    }
}

} // verus!
