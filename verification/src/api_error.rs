//! The closed error taxonomy of the gateway, with its mapping to
//! external HTTP-style status codes and diagnostic messages.
//!
//! Secret credential material and raw payload bytes never appear in a
//! message: every constructor carries either a header name, a requested
//! object name, a remote status, or a short cause description.

use vstd::prelude::*;
use vstd::string::StringExecFns;

use crate::decimal::spec_decimal;
use crate::decimal::u64_to_decimal;

verus! {

/// Every failure the upload and delete pipelines can surface.
#[derive(Debug)]
pub enum ApiError {
    /// A local filesystem operation failed; carries a short cause description.
    IoError(String),
    /// A required request header is absent or empty; carries the header name.
    MissingHeader(&'static str),
    /// The configured secret could not be turned into a service-account key.
    ServiceAccountNotFound,
    /// The declared MIME type is not a well-formed media type.
    MimeTypeParsingError,
    /// The remote insert call failed in transport; carries a short cause description.
    UploadObjectError(String),
    /// The upload failed for an otherwise unclassified reason.
    UploadFailed,
    /// The remote service answered with a non-success status; carries the
    /// status and the response body for diagnosis.
    NotSuccessResponse(u16, String),
    /// No usable file name could be derived from the requested name;
    /// carries the requested name.
    MissingFilename(String),
    /// A background blocking task was cancelled or aborted.
    BlockingError,
    /// The multipart body was malformed.
    MultipartError,
    /// The remote delete call failed in transport.
    DeleteObjectFailed,
}

/// Status codes in `400..500` are client errors.
pub open spec fn spec_is_client_error(status: u16) -> bool {
    400 <= status < 500
}

/// Status codes in `500..600` are server errors.
pub open spec fn spec_is_server_error(status: u16) -> bool {
    500 <= status < 600
}

impl ApiError {
    /// The external classification of each error kind:
    /// validation failures are client errors (400), remote and local
    /// failures are server errors (500), a cancelled background task is
    /// service-unavailable (503), and malformed multipart framing is
    /// not-acceptable (406).
    pub open spec fn spec_status_code(&self) -> u16 {
        match self {
            ApiError::IoError(_) => 500,
            ApiError::MissingHeader(_) => 400,
            ApiError::ServiceAccountNotFound => 500,
            ApiError::MimeTypeParsingError => 400,
            ApiError::UploadObjectError(_) => 500,
            ApiError::UploadFailed => 500,
            ApiError::NotSuccessResponse(_, _) => 500,
            ApiError::MissingFilename(_) => 400,
            ApiError::BlockingError => 503,
            ApiError::MultipartError => 406,
            ApiError::DeleteObjectFailed => 500,
        }
    }

    /// The diagnostic message for each error kind.
    pub open spec fn spec_message(&self) -> Seq<char> {
        match self {
            ApiError::IoError(cause) => "IO error: "@ + cause@,
            ApiError::MissingHeader(name) => "Missing header key ["@ + name@
                + "] from request"@,
            ApiError::ServiceAccountNotFound => "Service account not found"@,
            ApiError::MimeTypeParsingError => "Failed to parse mime-type value"@,
            ApiError::UploadObjectError(cause) => "Failed to upload object cause: "@ + cause@,
            ApiError::UploadFailed => "Failed to upload file (unknown error)"@,
            ApiError::NotSuccessResponse(status, _) => "Remote response is not in 200..300, status "@
                + spec_decimal(*status as nat),
            ApiError::MissingFilename(name) => "Failed to find filename by ["@ + name@ + "]"@,
            ApiError::BlockingError => "Encounter blocking error"@,
            ApiError::MultipartError => "Encounter multipart error"@,
            ApiError::DeleteObjectFailed => "Can't delete object"@,
        }
    }

    /// The status code this error maps to externally.
    pub fn status_code(&self) -> (r: u16)
        ensures
            r == self.spec_status_code(),
    {
        match self {
            ApiError::IoError(_) => 500,
            ApiError::MissingHeader(_) => 400,
            ApiError::ServiceAccountNotFound => 500,
            ApiError::MimeTypeParsingError => 400,
            ApiError::UploadObjectError(_) => 500,
            ApiError::UploadFailed => 500,
            ApiError::NotSuccessResponse(_, _) => 500,
            ApiError::MissingFilename(_) => 400,
            ApiError::BlockingError => 503,
            ApiError::MultipartError => 406,
            ApiError::DeleteObjectFailed => 500,
        }
    }

    /// The diagnostic message this error maps to externally.
    pub fn message(&self) -> (r: String)
        ensures
            r@ == self.spec_message(),
    {
        match self {
            ApiError::IoError(cause) => String::from_str("IO error: ").concat(cause.as_str()),
            ApiError::MissingHeader(name) => String::from_str("Missing header key [").concat(
                name,
            ).concat("] from request"),
            ApiError::ServiceAccountNotFound => String::from_str("Service account not found"),
            ApiError::MimeTypeParsingError => String::from_str("Failed to parse mime-type value"),
            ApiError::UploadObjectError(cause) => String::from_str(
                "Failed to upload object cause: ",
            ).concat(cause.as_str()),
            ApiError::UploadFailed => String::from_str("Failed to upload file (unknown error)"),
            ApiError::NotSuccessResponse(status, _) => String::from_str(
                "Remote response is not in 200..300, status ",
            ).concat(u64_to_decimal(*status as u64).as_str()),
            ApiError::MissingFilename(name) => String::from_str("Failed to find filename by [")
                .concat(name.as_str()).concat("]"),
            ApiError::BlockingError => String::from_str("Encounter blocking error"),
            ApiError::MultipartError => String::from_str("Encounter multipart error"),
            ApiError::DeleteObjectFailed => String::from_str("Can't delete object"),
        }
    }
}

/// What the gateway answers when a pipeline fails: the status code and a
/// plain-text body.
pub struct ErrorResponse {
    pub status: u16,
    pub body: String,
}

impl ApiError {
    /// The full external response for this error: its status code and its
    /// diagnostic message as the body.
    pub fn error_response(&self) -> (r: ErrorResponse)
        ensures
            r.status == self.spec_status_code(),
            r.body@ == self.spec_message(),
    {
        ErrorResponse { status: self.status_code(), body: self.message() }
    }

    /// The errors raised by request validation, before any I/O happens.
    pub open spec fn spec_is_validation_error(&self) -> bool {
        match self {
            ApiError::MissingHeader(_) => true,
            ApiError::MimeTypeParsingError => true,
            ApiError::MissingFilename(_) => true,
            _ => false,
        }
    }

    /// The failures of local I/O, credentials, and the remote service.
    pub open spec fn spec_is_internal_failure(&self) -> bool {
        match self {
            ApiError::IoError(_) => true,
            ApiError::ServiceAccountNotFound => true,
            ApiError::UploadObjectError(_) => true,
            ApiError::UploadFailed => true,
            ApiError::NotSuccessResponse(_, _) => true,
            ApiError::DeleteObjectFailed => true,
            _ => false,
        }
    }

    /// The taxonomy maps every validation failure to a client error and
    /// every local or remote failure to a server error.
    pub proof fn lemma_taxonomy_classification(&self)
        ensures
            self.spec_is_validation_error() ==> spec_is_client_error(self.spec_status_code()),
            self.spec_is_internal_failure() ==> spec_is_server_error(self.spec_status_code()),
            self is BlockingError ==> self.spec_status_code() == 503,
            self is MultipartError ==> self.spec_status_code() == 406,
    {
    }
}

} // verus!
