//! The failures that reach the caller of the pipeline.

use vstd::prelude::*;
use vstd::string::StringExecFns;

verus! {

/// Why a download attempt ended without a file.
#[derive(Debug, Clone, PartialEq, Eq)]
pub enum AppError {
    /// The input is neither a video identifier nor a link to a video.
    InvalidInput,
    /// The remote service failed; the text says how.
    Api(String),
    /// The destination file could not be created, written or synced.
    Io(String),
}

impl AppError {
    /// The text of the message.
    pub open spec fn message(self) -> Seq<char> {
        match self {
            AppError::InvalidInput => "Invalid YouTube URL or video ID"@,
            AppError::Api(detail) => "API error: "@ + detail@,
            AppError::Io(detail) => "I/O error: "@ + detail@,
        }
    }

    /// The message for a person to read.
    pub fn to_string(&self) -> (text: String)
        ensures
            text@ == self.message(),
    {
        match self {
            AppError::InvalidInput => String::from_str("Invalid YouTube URL or video ID"),
            AppError::Api(detail) => String::from_str("API error: ").concat(detail.as_str()),
            AppError::Io(detail) => String::from_str("I/O error: ").concat(detail.as_str()),
        }
    }
}

} // verus!
