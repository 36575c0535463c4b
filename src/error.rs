//! The failures that an extraction request can end in, and the status class
//! that each one is reported under.
use vstd::prelude::*;

verus! {

/// The kinds of failure. None of them carries a cause.
#[derive(Debug, Clone, Copy, PartialEq, Eq, Structural)]
pub enum Error {
    CouldNotDetermineImageSize,
    FailedToParseContentType,
    FailedToConsumeBytes,
    FailedToConsumeText,
    MetaSelectionFailed,
    MissingContentType,
    NotAllowedToProxy,
    ConversionFailed,
    ReqwestFailed,
    RequestFailed,
    LabelMe,
}

/// HTTP status of a request that the client got wrong or may not make.
pub const BAD_REQUEST: u16 = 400;

/// HTTP status of a failure on this side.
pub const INTERNAL_SERVER_ERROR: u16 = 500;

/// Whether an error belongs to the client/policy class: a disallowed proxy
/// target, a missing content type, or a failed upstream request.
pub open spec fn is_client_error(e: Error) -> bool {
    e == Error::MissingContentType || e == Error::NotAllowedToProxy || e == Error::RequestFailed
}

impl Error {
    /// The HTTP status under which this error is reported.
    pub fn status_code(&self) -> (r: u16)
        ensures
            r == (if is_client_error(*self) { BAD_REQUEST } else { INTERNAL_SERVER_ERROR }),
    {
        match *self {
            Error::MissingContentType => BAD_REQUEST,
            Error::NotAllowedToProxy => BAD_REQUEST,
            Error::RequestFailed => BAD_REQUEST,
            _ => INTERNAL_SERVER_ERROR,
        }
    }
}

} // verus!
