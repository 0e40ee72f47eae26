use vstd::prelude::*;

use crate::store::StoreError;

verus! {

/// The response statuses that the resource operations produce.
#[derive(PartialEq, Eq, Structural, Clone, Copy, Debug)]
pub enum Status {
    Success,
    Created,
    BadRequest,
    Unauthorized,
    NotFound,
    InternalServerError,
}

impl Status {
    pub open spec fn spec_code(self) -> u16 {
        match self {
            Status::Success => 200,
            Status::Created => 201,
            Status::BadRequest => 400,
            Status::Unauthorized => 401,
            Status::NotFound => 404,
            Status::InternalServerError => 500,
        }
    }

    /// The numeric HTTP status code.
    pub fn code(&self) -> (r: u16)
        ensures
            r == self.spec_code(),
    {
        match self {
            Status::Success => 200,
            Status::Created => 201,
            Status::BadRequest => 400,
            Status::Unauthorized => 401,
            Status::NotFound => 404,
            Status::InternalServerError => 500,
        }
    }
}

/// A successful outcome: a status and the body to serialise.
pub struct SuccessResponse<T> {
    pub status: Status,
    pub body: T,
}

/// A failed outcome: a status and one human-readable message.
pub struct ErrorResponse {
    pub status: Status,
    pub message: String,
}

pub type Response<T> = Result<SuccessResponse<T>, ErrorResponse>;

/// The status a store failure is reported with: a missing row and a broken
/// author reference are the client's doing, an exhausted store is not.
pub open spec fn failure_status(e: StoreError) -> Status {
    match e {
        StoreError::NotFound => Status::NotFound,
        StoreError::ConstraintViolation => Status::BadRequest,
        StoreError::Exhausted => Status::InternalServerError,
    }
}

/// Maps a store failure to its response; `not_found` is the message for a
/// missing row.
pub fn store_failure(e: StoreError, not_found: &str) -> (r: ErrorResponse)
    ensures
        r.status == failure_status(e),
        e == StoreError::NotFound ==> r.message@ == not_found@,
{
    match e {
        StoreError::NotFound => ErrorResponse {
            status: Status::NotFound,
            message: not_found.to_string(),
        },
        StoreError::ConstraintViolation => ErrorResponse {
            status: Status::BadRequest,
            message: "The referenced author does not exist.".to_string(),
        },
        StoreError::Exhausted => ErrorResponse {
            status: Status::InternalServerError,
            message: "The store cannot take another write.".to_string(),
        },
    }
}

} // verus!
