//! Error taxonomy shared by the challenge sealer and the credential
//! issuer/validator, together with the fixed mapping of each failure kind to
//! its client-facing name, status code and message.

use vstd::prelude::*;

verus! {

/// Every failure the service reports to a client. Each variant maps to
/// exactly one status code, name and message; the tables live in
/// [`CJAError::status_code`], [`CJAError::name`] and [`CJAError::message`].
#[derive(Clone, Copy, Debug, PartialEq, Eq, Structural)]
pub enum CJAError {
    NotFound,
    CaptchaExpired,
    CaptchaInvalid,
    JWTExpired,
    NoAuthHeader,
    InvalidAuthHeader,
    Forbidden,
    InvalidPayload,
    Unknown,
}

/// Why a sealed challenge token could not be opened: either its transport
/// encoding or integrity tag failed (`Tampered`), or the authentic plaintext
/// did not parse into an expiry and an answer (`Malformed`).
#[derive(Clone, Copy, Debug, PartialEq, Eq, Structural)]
pub enum SealFailure {
    Tampered,
    Malformed,
}

/// Client-facing rendering of a [`CJAError`]: the HTTP status code, the
/// variant's name and its human-readable message.
pub struct ErrorResponse {
    pub code: u16,
    pub error: String,
    pub message: String,
}

impl CJAError {
    /// The variant's name, exactly as reported to clients.
    pub fn name(&self) -> (r: String)
        ensures
            r@ == self.spec_name(),
    {
        proof {
            reveal_strlit("NotFound");
            reveal_strlit("CaptchaExpired");
            reveal_strlit("CaptchaInvalid");
            reveal_strlit("JWTExpired");
            reveal_strlit("NoAuthHeader");
            reveal_strlit("InvalidAuthHeader");
            reveal_strlit("Forbidden");
            reveal_strlit("InvalidPayload");
            reveal_strlit("Unknown");
        }
        match self {
            Self::NotFound => "NotFound".to_owned(),
            Self::CaptchaExpired => "CaptchaExpired".to_owned(),
            Self::CaptchaInvalid => "CaptchaInvalid".to_owned(),
            Self::JWTExpired => "JWTExpired".to_owned(),
            Self::NoAuthHeader => "NoAuthHeader".to_owned(),
            Self::InvalidAuthHeader => "InvalidAuthHeader".to_owned(),
            Self::Forbidden => "Forbidden".to_owned(),
            Self::InvalidPayload => "InvalidPayload".to_owned(),
            Self::Unknown => "Unknown".to_owned(),
        }
    }

    /// What [`CJAError::name`] returns, one string per variant.
    pub open spec fn spec_name(self) -> Seq<char> {
        match self {
            Self::NotFound => "NotFound"@,
            Self::CaptchaExpired => "CaptchaExpired"@,
            Self::CaptchaInvalid => "CaptchaInvalid"@,
            Self::JWTExpired => "JWTExpired"@,
            Self::NoAuthHeader => "NoAuthHeader"@,
            Self::InvalidAuthHeader => "InvalidAuthHeader"@,
            Self::Forbidden => "Forbidden"@,
            Self::InvalidPayload => "InvalidPayload"@,
            Self::Unknown => "Unknown"@,
        }
    }

    /// The HTTP status code each variant is reported with.
    pub fn status_code(&self) -> (r: u16)
        ensures
            r == self.spec_status_code(),
    {
        match self {
            Self::NotFound => 404,
            Self::CaptchaExpired => 403,
            Self::CaptchaInvalid => 403,
            Self::JWTExpired => 403,
            Self::NoAuthHeader => 403,
            Self::InvalidAuthHeader => 403,
            Self::Forbidden => 403,
            Self::InvalidPayload => 400,
            Self::Unknown => 500,
        }
    }

    /// What [`CJAError::status_code`] returns, one code per variant.
    pub open spec fn spec_status_code(self) -> u16 {
        match self {
            Self::NotFound => 404,
            Self::CaptchaExpired => 403,
            Self::CaptchaInvalid => 403,
            Self::JWTExpired => 403,
            Self::NoAuthHeader => 403,
            Self::InvalidAuthHeader => 403,
            Self::Forbidden => 403,
            Self::InvalidPayload => 400,
            Self::Unknown => 500,
        }
    }

    /// The human-readable message each variant is reported with.
    pub fn message(&self) -> (r: String)
        ensures
            r@ == self.spec_message(),
    {
        proof {
            reveal_strlit("Resource not Found");
            reveal_strlit("Captcha expired");
            reveal_strlit("Captcha invalid");
            reveal_strlit("Signature expired");
            reveal_strlit("no auth header");
            reveal_strlit("invalid auth header");
            reveal_strlit("Invalid token");
            reveal_strlit("Invalid payload");
            reveal_strlit("Internal server error");
        }
        match self {
            Self::NotFound => "Resource not Found".to_owned(),
            Self::CaptchaExpired => "Captcha expired".to_owned(),
            Self::CaptchaInvalid => "Captcha invalid".to_owned(),
            Self::JWTExpired => "Signature expired".to_owned(),
            Self::NoAuthHeader => "no auth header".to_owned(),
            Self::InvalidAuthHeader => "invalid auth header".to_owned(),
            Self::Forbidden => "Invalid token".to_owned(),
            Self::InvalidPayload => "Invalid payload".to_owned(),
            Self::Unknown => "Internal server error".to_owned(),
        }
    }

    /// What [`CJAError::message`] returns, one message per variant.
    pub open spec fn spec_message(self) -> Seq<char> {
        match self {
            Self::NotFound => "Resource not Found"@,
            Self::CaptchaExpired => "Captcha expired"@,
            Self::CaptchaInvalid => "Captcha invalid"@,
            Self::JWTExpired => "Signature expired"@,
            Self::NoAuthHeader => "no auth header"@,
            Self::InvalidAuthHeader => "invalid auth header"@,
            Self::Forbidden => "Invalid token"@,
            Self::InvalidPayload => "Invalid payload"@,
            Self::Unknown => "Internal server error"@,
        }
    }

    /// The response body rendered for this error: status code, variant name
    /// and message, all pinned to the per-variant tables.
    pub fn error_response(&self) -> (r: ErrorResponse)
        ensures
            r.code == self.spec_status_code(),
            r.error@ == self.spec_name(),
            r.message@ == self.spec_message(),
    {
        ErrorResponse { code: self.status_code(), error: self.name(), message: self.message() }
    }
}

} // verus!
