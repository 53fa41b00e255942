//! Answers to requests that fail.
use vstd::prelude::*;

verus! {

/// The status of a failed request.
#[derive(Clone, Copy, Debug, PartialEq, Eq, Structural)]
pub enum Status {
    BadRequest,
    NotFound,
    InternalServerError,
}

impl Status {
    /// The status code.
    pub fn code(self) -> (code: u16)
        ensures
            code == match self {
                Status::BadRequest => 400u16,
                Status::NotFound => 404u16,
                Status::InternalServerError => 500u16,
            },
    {
        match self {
            Status::BadRequest => 400,
            Status::NotFound => 404,
            Status::InternalServerError => 500,
        }
    }
}

/// The answer to a request that fails.
#[derive(Debug)]
pub struct Failure {
    pub status: Status,
    pub message: String,
}

/// What the answer to a failed request says.
pub ghost struct FailureView {
    pub status: Status,
    pub message: Seq<char>,
}

impl View for Failure {
    type V = FailureView;

    open spec fn view(&self) -> FailureView {
        FailureView { status: self.status, message: self.message@ }
    }
}

/// The view of a failure holds its status and every character of its message.
pub proof fn law_failure_view(failure: Failure)
    ensures
        failure@.status == failure.status,
        failure@.message == failure.message@,
{
}

} // verus!
