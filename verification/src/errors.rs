//! The closed set of failures that validation and conversion can end in.

use vstd::prelude::*;
use vstd::string::*;

verus! {

/// Which of the failures an error is, without its text.
#[derive(Debug, Clone, Copy, PartialEq, Eq, Structural)]
pub enum ErrorKind {
    /// The input is missing, or the output has no usable parent directory.
    Path,
    /// A token that the big-TIFF catalog does not hold.
    BigTiff,
    /// A token that the compression catalog does not hold.
    Compression,
    /// A token that the overviews catalog does not hold.
    Overviews,
    /// A token that the resampling catalog does not hold.
    Resampling,
    /// The raster engine reported a failure.
    Engine,
    /// The filesystem reported a failure outside the raster engine.
    Io,
}

/// A failure of validation or of a conversion. Each variant carries one
/// string: the rejected token for the four option variants, a description
/// of what went wrong for the others.
#[derive(Debug)]
pub enum CoggeratorError {
    PathError(String),
    InvalidBigTiffOption(String),
    InvalidCompressionOption(String),
    InvalidOverviewsOption(String),
    InvalidResamplingOption(String),
    GdalError(String),
    IoError(String),
}

impl View for CoggeratorError {
    type V = (ErrorKind, Seq<char>);

    /// An error is its kind together with the string it carries.
    open spec fn view(&self) -> (ErrorKind, Seq<char>) {
        match *self {
            CoggeratorError::PathError(s) => (ErrorKind::Path, s@),
            CoggeratorError::InvalidBigTiffOption(s) => (ErrorKind::BigTiff, s@),
            CoggeratorError::InvalidCompressionOption(s) => (ErrorKind::Compression, s@),
            CoggeratorError::InvalidOverviewsOption(s) => (ErrorKind::Overviews, s@),
            CoggeratorError::InvalidResamplingOption(s) => (ErrorKind::Resampling, s@),
            CoggeratorError::GdalError(s) => (ErrorKind::Engine, s@),
            CoggeratorError::IoError(s) => (ErrorKind::Io, s@),
        }
    }
}

/// The one-line text that an error of the given kind and detail is shown as.
pub open spec fn message_of(kind: ErrorKind, detail: Seq<char>) -> Seq<char> {
    match kind {
        ErrorKind::Path => "Path error: "@ + detail,
        ErrorKind::BigTiff => detail + " is not a valid BIFTIFF option"@,
        ErrorKind::Compression => detail + " is not a valid COMPRESSION option"@,
        ErrorKind::Overviews => detail + " is not a valid OVERVIEWS option"@,
        ErrorKind::Resampling => detail + " is not a valid RESAMPLING option"@,
        ErrorKind::Engine => "GDAL error: "@ + detail,
        ErrorKind::Io => "IO error: "@ + detail,
    }
}

impl CoggeratorError {
    /// Which failure this is.
    pub fn kind(&self) -> (kind: ErrorKind)
        ensures
            kind == self@.0,
    {
        match self {
            CoggeratorError::PathError(_) => ErrorKind::Path,
            CoggeratorError::InvalidBigTiffOption(_) => ErrorKind::BigTiff,
            CoggeratorError::InvalidCompressionOption(_) => ErrorKind::Compression,
            CoggeratorError::InvalidOverviewsOption(_) => ErrorKind::Overviews,
            CoggeratorError::InvalidResamplingOption(_) => ErrorKind::Resampling,
            CoggeratorError::GdalError(_) => ErrorKind::Engine,
            CoggeratorError::IoError(_) => ErrorKind::Io,
        }
    }

    /// The string that the error carries, as it is handed to a caller that
    /// wants the bare payload rather than the full message.
    pub fn detail(&self) -> (detail: &str)
        ensures
            detail@ == self@.1,
    {
        match self {
            CoggeratorError::PathError(s) => s.as_str(),
            CoggeratorError::InvalidBigTiffOption(s) => s.as_str(),
            CoggeratorError::InvalidCompressionOption(s) => s.as_str(),
            CoggeratorError::InvalidOverviewsOption(s) => s.as_str(),
            CoggeratorError::InvalidResamplingOption(s) => s.as_str(),
            CoggeratorError::GdalError(s) => s.as_str(),
            CoggeratorError::IoError(s) => s.as_str(),
        }
    }

    /// The human-readable, one-line message of the error.
    pub fn to_string(&self) -> (text: String)
        ensures
            text@ == message_of(self@.0, self@.1),
    {
        match self {
            CoggeratorError::PathError(s) => String::from_str("Path error: ").concat(s.as_str()),
            CoggeratorError::InvalidBigTiffOption(s) => s.clone().concat(
                " is not a valid BIFTIFF option",
            ),
            CoggeratorError::InvalidCompressionOption(s) => s.clone().concat(
                " is not a valid COMPRESSION option",
            ),
            CoggeratorError::InvalidOverviewsOption(s) => s.clone().concat(
                " is not a valid OVERVIEWS option",
            ),
            CoggeratorError::InvalidResamplingOption(s) => s.clone().concat(
                " is not a valid RESAMPLING option",
            ),
            CoggeratorError::GdalError(s) => String::from_str("GDAL error: ").concat(s.as_str()),
            CoggeratorError::IoError(s) => String::from_str("IO error: ").concat(s.as_str()),
        }
    }
}

} // verus!
