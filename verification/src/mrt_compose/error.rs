use vstd::prelude::*;
use crate::mrt_dump::error::DumpError;

verus! {

/// Why a composer refused an element or could not write its records.
#[derive(Debug, Clone, Copy, PartialEq, Eq, Structural)]
pub enum ComposeError {
    /// What the encoder found wrong.
    DumpError(DumpError),
}

impl ComposeError {
    /// A sentence that says what went wrong.
    pub fn message(&self) -> (r: String)
        ensures
            r@ == match *self {
                ComposeError::DumpError(DumpError::UnsupportedMessage) => "unsupported message"@,
                ComposeError::DumpError(
                    DumpError::ValueTooLarge,
                ) => "value too large for its length field"@,
                ComposeError::DumpError(DumpError::MalformedInput) => "malformed input"@,
            },
    {
        match self {
            ComposeError::DumpError(e) => e.message(),
        }
    }
}

} // verus!
