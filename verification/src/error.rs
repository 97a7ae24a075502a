//! The failures that a seal or open call can report, and the fixed text that
//! each one carries across the boundary.

use vstd::prelude::*;

verus! {

/// A failure reported by the sealing engine or by the buffer it works on.
#[derive(Clone, Copy, Debug, PartialEq, Eq, Structural)]
pub enum SealError {
    /// The bytes are not an envelope at all.
    NotIRMASEAL,
    /// The envelope's format version is not supported.
    IncorrectVersion,
    /// An identity or a parameter breaks a well-formedness rule.
    ConstraintViolation,
    /// The envelope is structurally malformed.
    FormatViolation,
    /// The buffer refused a write.
    UpstreamWritableError,
    /// A byte was asked for and none was left.
    EndOfStream,
    /// A chunked read failed before the data it was to deliver.
    PrematureEndError,
}

/// What a call hands to the host when it fails.
#[derive(Clone, Copy, Debug, PartialEq, Eq, Structural)]
pub enum Error {
    /// The engine or the buffer failed.
    Seal(SealError),
    /// The plaintext was produced, but its authenticity tag did not match.
    Validation,
}

/// The text for each engine failure.
pub open spec fn seal_message(e: SealError) -> Seq<char> {
    match e {
        SealError::NotIRMASEAL => "Not IRMASEAL"@,
        SealError::IncorrectVersion => "Incorrect version"@,
        SealError::ConstraintViolation => "Constraint violation"@,
        SealError::FormatViolation => "Format violation"@,
        SealError::UpstreamWritableError => "Upstream writable error"@,
        SealError::EndOfStream => "End of stream"@,
        SealError::PrematureEndError => "Premature end"@,
    }
}

/// The text for each failure that reaches the host.
pub open spec fn error_message(e: Error) -> Seq<char> {
    match e {
        Error::Seal(inner) => seal_message(inner),
        Error::Validation => "HMAC does not validate"@,
    }
}

impl SealError {
    /// The fixed text of this failure.
    pub fn message(&self) -> (text: &'static str)
        ensures
            text@ == seal_message(*self),
    {
        match self {
            SealError::NotIRMASEAL => "Not IRMASEAL",
            SealError::IncorrectVersion => "Incorrect version",
            SealError::ConstraintViolation => "Constraint violation",
            SealError::FormatViolation => "Format violation",
            SealError::UpstreamWritableError => "Upstream writable error",
            SealError::EndOfStream => "End of stream",
            SealError::PrematureEndError => "Premature end",
        }
    }
}

impl Error {
    /// The fixed text of this failure.
    pub fn message(&self) -> (text: &'static str)
        ensures
            text@ == error_message(*self),
    {
        match self {
            Error::Seal(inner) => inner.message(),
            Error::Validation => "HMAC does not validate",
        }
    }
}

/// Reveals the characters of every message.
proof fn reveal_messages()
    ensures
        "Not IRMASEAL"@.len() == 12 && "Not IRMASEAL"@[0] == 'N',
        "Incorrect version"@.len() == 17 && "Incorrect version"@[2] == 'c',
        "Constraint violation"@.len() == 20,
        "Format violation"@.len() == 16,
        "Upstream writable error"@.len() == 23,
        "End of stream"@.len() == 13,
        "Premature end"@.len() == 13 && "Premature end"@[0] == 'P' && "End of stream"@[0] == 'E',
        "HMAC does not validate"@.len() == 22,
{
    reveal_strlit("Not IRMASEAL");
    reveal_strlit("Incorrect version");
    reveal_strlit("Constraint violation");
    reveal_strlit("Format violation");
    reveal_strlit("Upstream writable error");
    reveal_strlit("End of stream");
    reveal_strlit("Premature end");
    reveal_strlit("HMAC does not validate");
}

/// No two failures share a text: from the message the host can tell which
/// failure occurred.
pub proof fn lemma_messages_distinct(a: Error, b: Error)
    requires
        error_message(a) == error_message(b),
    ensures
        a == b,
{
    reveal_messages();
}

/// No message is empty.
pub proof fn lemma_message_nonempty(e: Error)
    ensures
        error_message(e).len() > 0,
{
    reveal_messages();
}

} // verus!
