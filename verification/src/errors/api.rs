//! Failures of a request as such.

use vstd::prelude::*;
use vstd::string::*;

verus! {

/// Why a request could not be served as it was made.
#[derive(Debug, Clone, PartialEq, Eq)]
pub enum ApiError {
    InvalidRequest { message: String },
    NotFound,
    RateLimitExceeded,
    UnsupportedMediaType,
    PayloadTooLarge,
}

impl ApiError {
    /// The error's machine-readable code.
    pub open spec fn code(self) -> Seq<char> {
        match self {
            ApiError::InvalidRequest { .. } => "API_INVALID_REQUEST"@,
            ApiError::NotFound => "API_NOT_FOUND"@,
            ApiError::RateLimitExceeded => "API_RATE_LIMIT_EXCEEDED"@,
            ApiError::UnsupportedMediaType => "API_UNSUPPORTED_MEDIA_TYPE"@,
            ApiError::PayloadTooLarge => "API_PAYLOAD_TOO_LARGE"@,
        }
    }

    /// The error in words.
    pub open spec fn text(self) -> Seq<char> {
        match self {
            ApiError::InvalidRequest { message } => "Invalid API request: "@ + message@,
            ApiError::NotFound => "Requested resource not found"@,
            ApiError::RateLimitExceeded => "API rate limit exceeded"@,
            ApiError::UnsupportedMediaType => "Unsupported media type"@,
            ApiError::PayloadTooLarge => "Request payload too large"@,
        }
    }

    /// The error in words.
    pub fn message(&self) -> (text: String)
        ensures
            text@ == self.text(),
    {
        match self {
            ApiError::InvalidRequest { message } => "Invalid API request: ".to_owned().concat(
                message.as_str(),
            ),
            ApiError::NotFound => "Requested resource not found".to_owned(),
            ApiError::RateLimitExceeded => "API rate limit exceeded".to_owned(),
            ApiError::UnsupportedMediaType => "Unsupported media type".to_owned(),
            ApiError::PayloadTooLarge => "Request payload too large".to_owned(),
        }
    }

    /// An invalid request, with what is wrong with it.
    pub fn invalid_request(message: String) -> (error: Self)
        ensures
            error == (ApiError::InvalidRequest { message }),
    {
        ApiError::InvalidRequest { message }
    }

    /// The error's machine-readable code.
    pub fn error_code(&self) -> (code: &'static str)
        ensures
            code@ == self.code(),
    {
        match self {
            ApiError::InvalidRequest { .. } => "API_INVALID_REQUEST",
            ApiError::NotFound => "API_NOT_FOUND",
            ApiError::RateLimitExceeded => "API_RATE_LIMIT_EXCEEDED",
            ApiError::UnsupportedMediaType => "API_UNSUPPORTED_MEDIA_TYPE",
            ApiError::PayloadTooLarge => "API_PAYLOAD_TOO_LARGE",
        }
    }
}

} // verus!
