use vstd::prelude::*;

verus! {

/// Classification of a failed JSON encode or decode, mirroring the
/// categories that a JSON parser reports.
#[derive(Debug, Clone, Copy, PartialEq, Eq, Structural)]
pub enum JsonCategory {
    /// The failure was caused by the underlying byte stream, not the data.
    Io,
    /// The input was not syntactically well-formed.
    Syntax,
    /// The input was well-formed but had the wrong shape for the target type.
    Data,
    /// The input ended before a complete document was read.
    Eof,
}

/// Errors that can occur when synchronizing a value with its backing file.
#[derive(Debug, Clone, Copy, PartialEq, Eq, Structural)]
pub enum Error {
    /// A storage operation (open, read, write, truncate, flush) failed.
    Io,
    /// A JSON encode or decode failed, with its classification.
    Json(JsonCategory),
    /// A TOML encode or decode failed.
    Toml,
}

impl Error {
    /// Whether this error means the bytes themselves were malformed,
    /// truncated, or of the wrong shape, as opposed to a storage failure.
    pub open spec fn is_invalid_data_spec(&self) -> bool {
        match *self {
            Error::Json(cat) => cat == JsonCategory::Data || cat == JsonCategory::Eof
                || cat == JsonCategory::Syntax,
            Error::Toml => true,
            Error::Io => false,
        }
    }

    /// Check if the error is caused by invalid data (bad syntax, unexpected
    /// end of input, a value of the wrong shape, or an empty file).
    pub fn is_invalid_data(&self) -> (r: bool)
        ensures
            r == self.is_invalid_data_spec(),
    {
        match *self {
            Error::Json(cat) => match cat {
                JsonCategory::Data => true,
                JsonCategory::Eof => true,
                JsonCategory::Syntax => true,
                JsonCategory::Io => false,
            },
            Error::Toml => true,
            Error::Io => false,
        }
    }
}

/// Result type for vow operations.
pub type VowResult<T> = Result<T, Error>;

} // verus!
