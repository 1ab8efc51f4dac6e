//! What can go wrong while decoding, and where.

use vstd::prelude::*;

verus! {

/// Why a decoding step failed.
#[derive(Clone, Copy, Debug, PartialEq, Eq, Structural)]
pub enum DecodeCause {
    /// Fewer bytes are left than the value needs.
    TruncatedInput,
    /// Bytes that should be text are not valid UTF-8.
    InvalidEncoding,
    /// The input is not valid base64.
    MalformedEnvelope,
}

/// The part of a record that was being decoded when a step failed.
#[derive(Clone, Copy, Debug, PartialEq, Eq, Structural)]
pub enum DecodeStage {
    /// Unwrapping the base64 envelope.
    Envelope,
    /// The entry count of an object array.
    Count,
    /// The length that precedes an entry of an object array.
    EntryLength,
    /// The bytes of an entry of an object array.
    EntryBody,
    /// The identifier of a file descriptor.
    FileId,
    /// The name of a file descriptor.
    FileName,
    /// The size of a file descriptor.
    FileSize,
    /// The bus identifier of a file descriptor.
    FileBusId,
    /// The user identifier of an anonymous sender.
    SenderUserId,
    /// The name of an anonymous sender.
    SenderName,
    /// A text argument of an event.
    Text,
}

/// A decoding failure: the stage that failed and the reason.
#[derive(Clone, Copy, Debug, PartialEq, Eq, Structural)]
pub struct DecodeFailure {
    pub stage: DecodeStage,
    pub cause: DecodeCause,
}

impl DecodeFailure {
    /// The error of `stage` failing for `cause`.
    pub open spec fn at(stage: DecodeStage, cause: DecodeCause) -> DecodeFailure {
        DecodeFailure { stage, cause }
    }

    /// Builds the error of `stage` failing for `cause`.
    pub fn new(stage: DecodeStage, cause: DecodeCause) -> (e: DecodeFailure)
        ensures
            e == DecodeFailure::at(stage, cause),
    {
        DecodeFailure { stage, cause }
    }
}

} // verus!
