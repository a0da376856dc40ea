//! How the server refuses.

use vstd::prelude::*;

verus! {

/// Why a request is refused.
#[derive(Debug, Clone, Copy, PartialEq, Eq, Structural)]
pub enum ApiStatus {
    BadRequest,
    NotFound,
    Conflict,
    Internal,
}

impl ApiStatus {
    /// The status code of the answer.
    pub open spec fn spec_code(self) -> u16 {
        match self {
            ApiStatus::BadRequest => 400,
            ApiStatus::NotFound => 404,
            ApiStatus::Conflict => 409,
            ApiStatus::Internal => 500,
        }
    }

    /// The status code of the answer.
    pub fn code(self) -> (r: u16)
        ensures
            r == self.spec_code(),
    {
        match self {
            ApiStatus::BadRequest => 400,
            ApiStatus::NotFound => 404,
            ApiStatus::Conflict => 409,
            ApiStatus::Internal => 500,
        }
    }
}

/// The refusal of a request.
#[derive(Debug)]
pub struct ApiError {
    pub status: ApiStatus,
    pub message: String,
}

/// What contracts say of an [`ApiError`].
pub struct ApiErrorModel {
    pub status: ApiStatus,
    pub message: Seq<char>,
}

impl View for ApiError {
    type V = ApiErrorModel;

    open spec fn view(&self) -> ApiErrorModel {
        ApiErrorModel { status: self.status, message: self.message@ }
    }
}

impl ApiErrorModel {
    /// The refusal of a request that is at fault itself.
    pub open spec fn bad_request(message: Seq<char>) -> ApiErrorModel {
        ApiErrorModel { status: ApiStatus::BadRequest, message }
    }

    /// The refusal of a request that comes at the wrong time.
    pub open spec fn conflict(message: Seq<char>) -> ApiErrorModel {
        ApiErrorModel { status: ApiStatus::Conflict, message }
    }

    /// The refusal of a request for what is not there.
    pub open spec fn not_found(message: Seq<char>) -> ApiErrorModel {
        ApiErrorModel { status: ApiStatus::NotFound, message }
    }

    /// The refusal of a request that the server is at fault for.
    pub open spec fn internal(message: Seq<char>) -> ApiErrorModel {
        ApiErrorModel { status: ApiStatus::Internal, message }
    }
}

impl ApiError {
    /// The refusal of a request that is at fault itself.
    pub fn bad_request(message: String) -> (r: ApiError)
        ensures
            r@ == ApiErrorModel::bad_request(message@),
    {
        ApiError { status: ApiStatus::BadRequest, message }
    }

    /// The refusal of a request that comes at the wrong time.
    pub fn conflict(message: String) -> (r: ApiError)
        ensures
            r@ == ApiErrorModel::conflict(message@),
    {
        ApiError { status: ApiStatus::Conflict, message }
    }

    /// The refusal of a request for what is not there.
    pub fn not_found(message: String) -> (r: ApiError)
        ensures
            r@ == ApiErrorModel::not_found(message@),
    {
        ApiError { status: ApiStatus::NotFound, message }
    }

    /// The refusal of a request that the server is at fault for.
    pub fn internal(message: String) -> (r: ApiError)
        ensures
            r@ == ApiErrorModel::internal(message@),
    {
        ApiError { status: ApiStatus::Internal, message }
    }
}

} // verus!
