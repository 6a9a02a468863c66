//! Failures of issuing and reading signed tokens.

use vstd::prelude::*;
use vstd::std_specs::convert::FromSpecImpl;

verus! {

/// What the token library reports when it cannot make or read a token.
#[derive(Debug, Clone, Copy, PartialEq, Eq, Structural)]
pub enum JwtFault {
    InvalidToken,
    InvalidSignature,
    InvalidKeyFormat,
    InvalidAlgorithm,
    InvalidAlgorithmName,
    MissingRequiredClaim,
    ExpiredSignature,
    InvalidIssuer,
    InvalidAudience,
    InvalidSubject,
    ImmatureSignature,
    Base64,
    Json,
    Utf8,
    Crypto,
    /// Any failure that is none of the above.
    Other,
}

/// Why a token was refused.
#[derive(Debug, Clone, Copy, PartialEq, Eq, Structural)]
pub enum JwtError {
    InvalidToken,
    TokenExpired,
    InvalidSignature,
    InvalidKey,
    InvalidAlgorithm,
    InvalidFormat,
    EncodingError,
    DecodingError,
    InvalidHeader,
    InvalidPayload,
}

impl JwtError {
    /// The error's machine-readable code.
    pub open spec fn code(self) -> Seq<char> {
        match self {
            JwtError::InvalidToken => "JWT_INVALID_TOKEN"@,
            JwtError::TokenExpired => "JWT_TOKEN_EXPIRED"@,
            JwtError::InvalidSignature => "JWT_INVALID_SIGNATURE"@,
            JwtError::InvalidKey => "JWT_INVALID_KEY"@,
            JwtError::InvalidAlgorithm => "JWT_INVALID_ALGORITHM"@,
            JwtError::InvalidFormat => "JWT_INVALID_FORMAT"@,
            JwtError::EncodingError => "JWT_ENCODING_ERROR"@,
            JwtError::DecodingError => "JWT_DECODING_ERROR"@,
            JwtError::InvalidHeader => "JWT_INVALID_HEADER"@,
            JwtError::InvalidPayload => "JWT_INVALID_PAYLOAD"@,
        }
    }

    /// The error in words.
    pub open spec fn text(self) -> Seq<char> {
        match self {
            JwtError::InvalidToken => "Invalid JWT token"@,
            JwtError::TokenExpired => "JWT token has expired"@,
            JwtError::InvalidSignature => "Invalid JWT signature"@,
            JwtError::InvalidKey => "Invalid JWT key"@,
            JwtError::InvalidAlgorithm => "Invalid JWT algorithm"@,
            JwtError::InvalidFormat => "Invalid JWT format"@,
            JwtError::EncodingError => "JWT encoding error"@,
            JwtError::DecodingError => "JWT decoding error"@,
            JwtError::InvalidHeader => "Invalid JWT header"@,
            JwtError::InvalidPayload => "Invalid JWT payload"@,
        }
    }

    /// The refusal that stands for a failure of the token library: an
    /// expired or not yet valid signature is an expired token; a bad
    /// signature or a failure of the cryptography is an invalid signature;
    /// a claim that is missing or names the wrong issuer, audience or subject
    /// is an invalid payload; text that is no base64, JSON or UTF-8 is an
    /// invalid format; anything unforeseen is a decoding error.
    pub open spec fn of_fault(fault: JwtFault) -> JwtError {
        match fault {
            JwtFault::InvalidToken => JwtError::InvalidToken,
            JwtFault::ExpiredSignature => JwtError::TokenExpired,
            JwtFault::InvalidSignature => JwtError::InvalidSignature,
            JwtFault::InvalidKeyFormat => JwtError::InvalidKey,
            JwtFault::InvalidAlgorithm => JwtError::InvalidAlgorithm,
            JwtFault::InvalidAlgorithmName => JwtError::InvalidAlgorithm,
            JwtFault::MissingRequiredClaim => JwtError::InvalidPayload,
            JwtFault::InvalidIssuer => JwtError::InvalidPayload,
            JwtFault::InvalidAudience => JwtError::InvalidPayload,
            JwtFault::InvalidSubject => JwtError::InvalidPayload,
            JwtFault::ImmatureSignature => JwtError::TokenExpired,
            JwtFault::Json => JwtError::InvalidFormat,
            JwtFault::Utf8 => JwtError::InvalidFormat,
            JwtFault::Crypto => JwtError::InvalidSignature,
            JwtFault::Base64 => JwtError::InvalidFormat,
            JwtFault::Other => JwtError::DecodingError,
        }
    }

    /// The error's machine-readable code.
    pub fn error_code(&self) -> (code: &'static str)
        ensures
            code@ == self.code(),
    {
        match self {
            JwtError::InvalidToken => "JWT_INVALID_TOKEN",
            JwtError::TokenExpired => "JWT_TOKEN_EXPIRED",
            JwtError::InvalidSignature => "JWT_INVALID_SIGNATURE",
            JwtError::InvalidKey => "JWT_INVALID_KEY",
            JwtError::InvalidAlgorithm => "JWT_INVALID_ALGORITHM",
            JwtError::InvalidFormat => "JWT_INVALID_FORMAT",
            JwtError::EncodingError => "JWT_ENCODING_ERROR",
            JwtError::DecodingError => "JWT_DECODING_ERROR",
            JwtError::InvalidHeader => "JWT_INVALID_HEADER",
            JwtError::InvalidPayload => "JWT_INVALID_PAYLOAD",
        }
    }

    /// The error in words.
    pub fn message(&self) -> (text: &'static str)
        ensures
            text@ == self.text(),
    {
        match self {
            JwtError::InvalidToken => "Invalid JWT token",
            JwtError::TokenExpired => "JWT token has expired",
            JwtError::InvalidSignature => "Invalid JWT signature",
            JwtError::InvalidKey => "Invalid JWT key",
            JwtError::InvalidAlgorithm => "Invalid JWT algorithm",
            JwtError::InvalidFormat => "Invalid JWT format",
            JwtError::EncodingError => "JWT encoding error",
            JwtError::DecodingError => "JWT decoding error",
            JwtError::InvalidHeader => "Invalid JWT header",
            JwtError::InvalidPayload => "Invalid JWT payload",
        }
    }
}

impl From<JwtFault> for JwtError {
    fn from(fault: JwtFault) -> (error: JwtError) {
        match fault {
            JwtFault::InvalidToken => JwtError::InvalidToken,
            JwtFault::ExpiredSignature => JwtError::TokenExpired,
            JwtFault::InvalidSignature => JwtError::InvalidSignature,
            JwtFault::InvalidKeyFormat => JwtError::InvalidKey,
            JwtFault::InvalidAlgorithm => JwtError::InvalidAlgorithm,
            JwtFault::InvalidAlgorithmName => JwtError::InvalidAlgorithm,
            JwtFault::MissingRequiredClaim => JwtError::InvalidPayload,
            JwtFault::InvalidIssuer => JwtError::InvalidPayload,
            JwtFault::InvalidAudience => JwtError::InvalidPayload,
            JwtFault::InvalidSubject => JwtError::InvalidPayload,
            JwtFault::ImmatureSignature => JwtError::TokenExpired,
            JwtFault::Json => JwtError::InvalidFormat,
            JwtFault::Utf8 => JwtError::InvalidFormat,
            JwtFault::Crypto => JwtError::InvalidSignature,
            JwtFault::Base64 => JwtError::InvalidFormat,
            JwtFault::Other => JwtError::DecodingError,
        }
    }
}

impl FromSpecImpl<JwtFault> for JwtError {
    open spec fn obeys_from_spec() -> bool {
        true
    }

    open spec fn from_spec(fault: JwtFault) -> JwtError {
        JwtError::of_fault(fault)
    }
}

} // verus!
