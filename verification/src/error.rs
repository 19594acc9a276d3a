//! What can go wrong with a capture.

use crate::ioctl::Command;
use vstd::prelude::*;

verus! {

/// A failure of one step in the life of a capture.
#[derive(Clone, Copy, Debug, PartialEq, Eq, Structural)]
pub enum Error {
    /// The device could not be opened.
    DeviceUnavailable,
    /// The device did not answer the capability query.
    CapabilityQueryFailed,
    /// The device refused the proposed format.
    FormatRejected,
    /// The device refused to provide buffers.
    BufferRequestFailed,
    /// The device did not say where a buffer lies.
    BufferQueryFailed,
    /// A buffer could not be mapped into the process.
    MappingFailed,
    /// A buffer could not be submitted, or streaming could not be switched
    /// on.
    StreamStartFailed,
    /// A frame could not be retrieved; `code` is the error number of the
    /// call that failed.
    FrameRetrievalFailed { code: i32 },
    /// Streaming could not be switched off.
    StreamStopFailed,
    /// A buffer could not be unmapped.
    UnmapFailed,
    /// The device could not be closed.
    CloseFailed,
}

impl Error {
    /// Whether the failure ends the operation it occurred in. The failures
    /// of the release steps do not: they are recorded and the release goes
    /// on.
    pub open spec fn is_fatal_spec(&self) -> bool {
        !(*self is StreamStopFailed || *self is UnmapFailed || *self is CloseFailed)
    }

    /// The request on the control channel that the failure is named after,
    /// where there is one: opening, mapping, unmapping and closing are no
    /// requests. A start may also fail on the submission of a buffer, and
    /// a retrieval on its resubmission.
    pub open spec fn command_spec(&self) -> Option<Command> {
        match *self {
            Error::CapabilityQueryFailed => Some(Command::QueryCapabilities),
            Error::FormatRejected => Some(Command::SetFormat),
            Error::BufferRequestFailed => Some(Command::RequestBuffers),
            Error::BufferQueryFailed => Some(Command::QueryBuffer),
            Error::StreamStartFailed => Some(Command::StreamOn),
            Error::StreamStopFailed => Some(Command::StreamOff),
            Error::FrameRetrievalFailed { .. } => Some(Command::DequeueBuffer),
            _ => None,
        }
    }

    /// Whether the failure ends the operation it occurred in.
    #[verifier::when_used_as_spec(is_fatal_spec)]
    pub fn is_fatal(&self) -> (fatal: bool)
        ensures
            fatal == self.is_fatal_spec(),
    {
        match self {
            Error::StreamStopFailed => false,
            Error::UnmapFailed => false,
            Error::CloseFailed => false,
            _ => true,
        }
    }

    /// The request on the control channel that the failure is named after.
    #[verifier::when_used_as_spec(command_spec)]
    pub fn command(&self) -> (command: Option<Command>)
        ensures
            command == self.command_spec(),
    {
        match self {
            Error::CapabilityQueryFailed => Some(Command::QueryCapabilities),
            Error::FormatRejected => Some(Command::SetFormat),
            Error::BufferRequestFailed => Some(Command::RequestBuffers),
            Error::BufferQueryFailed => Some(Command::QueryBuffer),
            Error::StreamStartFailed => Some(Command::StreamOn),
            Error::StreamStopFailed => Some(Command::StreamOff),
            Error::FrameRetrievalFailed { .. } => Some(Command::DequeueBuffer),
            _ => None,
        }
    }
}

} // verus!
