use vstd::prelude::*;

verus! {

/// Why a value could not be encoded.
#[derive(Debug, Clone, Copy, PartialEq, Eq, Structural)]
pub enum DumpError {
    /// The value is of a kind that this encoder does not write.
    UnsupportedMessage,
    /// A body is longer than the length field in front of it can say.
    ValueTooLarge,
    /// The value breaks a rule of the wire format.
    MalformedInput,
}

impl DumpError {
    /// A sentence that says what went wrong.
    pub fn message(&self) -> (r: String)
        ensures
            r@ == match *self {
                DumpError::UnsupportedMessage => "unsupported message"@,
                DumpError::ValueTooLarge => "value too large for its length field"@,
                DumpError::MalformedInput => "malformed input"@,
            },
    {
        match self {
            DumpError::UnsupportedMessage => "unsupported message".to_string(),
            DumpError::ValueTooLarge => "value too large for its length field".to_string(),
            DumpError::MalformedInput => "malformed input".to_string(),
        }
    }
}

} // verus!
