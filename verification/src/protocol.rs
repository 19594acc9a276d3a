//! The exchange between the library and whoever drives the device.
//!
//! The library never touches the device. It names an [`Action`]; the driver
//! performs it and hands back the [`Event`] that answers it; the library
//! then names the next. A [`Step`] is what the library says at each turn:
//! an action to perform, or what the operation in progress came to.

use crate::device::RawResult;
use crate::error::Error;
use crate::ioctl::Command;
use crate::wire::{BufferType, Capabilities, MemoryKind, PixelFormat};
use vstd::prelude::*;

verus! {

/// A frame as it is handed to the caller: which buffer holds it, where the
/// buffer lies in the memory of the process, how long the buffer is and how
/// many of its bytes the device filled. The memory may be read until the
/// buffer is submitted again.
#[derive(Clone, Copy, Debug, PartialEq, Eq, Structural)]
pub struct Frame {
    pub index: u32,
    pub base_address: usize,
    pub length: u32,
    pub bytes_used: u32,
}

/// One thing to do to the device.
#[derive(Clone, Copy, Debug, PartialEq, Eq, Structural)]
pub enum Action {
    /// Open the device for reading and writing, without blocking.
    OpenDevice,
    /// Ask the device what it is.
    QueryCapabilities { descriptor: i32 },
    /// Propose `format` for a single-plane capture stream.
    SetFormat { descriptor: i32, format: PixelFormat },
    /// Ask for `count` capture buffers that the process can map.
    RequestBuffers { descriptor: i32, count: u32 },
    /// Ask where buffer `index` lies and how long it is.
    QueryBuffer { descriptor: i32, index: u32 },
    /// Map `length` bytes of the device at `offset`, shared, for reading
    /// and writing.
    MapBuffer { descriptor: i32, offset: u32, length: u32 },
    /// Hand buffer `index` to the device for filling.
    QueueBuffer { descriptor: i32, index: u32 },
    /// Take a filled buffer back from the device.
    DequeueBuffer { descriptor: i32 },
    /// Switch streaming on.
    StreamOn { descriptor: i32 },
    /// Switch streaming off.
    StreamOff { descriptor: i32 },
    /// Unmap the `length` bytes at `base_address`.
    UnmapBuffer { base_address: usize, length: u32 },
    /// Close the descriptor.
    CloseDevice { descriptor: i32 },
    /// Wait, without holding a thread, until the descriptor is readable.
    AwaitReadable { descriptor: i32 },
}

/// What a request on the control channel carries to the device, field by
/// field. Whatever its record holds beyond these fields is zero.
#[derive(Clone, Copy, Debug, PartialEq, Eq, Structural)]
pub enum Argument {
    /// A capability record, for the device to fill in.
    Capabilities,
    /// A format record for streams of the type `buffer_type`, with the
    /// pixel layout `pix`.
    Format { buffer_type: u32, pix: PixelFormat },
    /// A request for `count` buffers of the type `buffer_type`, their
    /// memory of the kind `memory`.
    Buffers { count: u32, buffer_type: u32, memory: u32 },
    /// A buffer record that names buffer `index` of the type `buffer_type`,
    /// its memory of the kind `memory`.
    Buffer { index: u32, buffer_type: u32, memory: u32 },
    /// The number of the type of the stream to switch.
    Stream { buffer_type: u32 },
}

impl Action {
    /// What the action hands to the device, if it makes a request on the
    /// control channel. Every request is for single-plane video capture and
    /// every buffer is one that the device provides and the process maps.
    /// A buffer that is asked back is not named: the device says which one
    /// it gives.
    pub open spec fn argument_spec(&self) -> Option<Argument> {
        let buffer_type = BufferType::VideoCapture.code();
        let memory = MemoryKind::Mmap.code();
        match *self {
            Action::QueryCapabilities { .. } => Some(Argument::Capabilities),
            Action::SetFormat { format, .. } => Some(Argument::Format { buffer_type, pix: format }),
            Action::RequestBuffers { count, .. } => Some(
                Argument::Buffers { count, buffer_type, memory },
            ),
            Action::QueryBuffer { index, .. } | Action::QueueBuffer { index, .. } => Some(
                Argument::Buffer { index, buffer_type, memory },
            ),
            Action::DequeueBuffer { .. } => Some(Argument::Buffer { index: 0, buffer_type, memory }),
            Action::StreamOn { .. } | Action::StreamOff { .. } => Some(
                Argument::Stream { buffer_type },
            ),
            _ => None,
        }
    }

    /// The request on the control channel that the action makes, if it
    /// makes one.
    pub open spec fn command_spec(&self) -> Option<Command> {
        match *self {
            Action::QueryCapabilities { .. } => Some(Command::QueryCapabilities),
            Action::SetFormat { .. } => Some(Command::SetFormat),
            Action::RequestBuffers { .. } => Some(Command::RequestBuffers),
            Action::QueryBuffer { .. } => Some(Command::QueryBuffer),
            Action::QueueBuffer { .. } => Some(Command::QueueBuffer),
            Action::DequeueBuffer { .. } => Some(Command::DequeueBuffer),
            Action::StreamOn { .. } => Some(Command::StreamOn),
            Action::StreamOff { .. } => Some(Command::StreamOff),
            _ => None,
        }
    }

    /// The request on the control channel that the action makes, if it
    /// makes one.
    #[verifier::when_used_as_spec(command_spec)]
    pub fn command(&self) -> (command: Option<Command>)
        ensures
            command == self.command_spec(),
    {
        match self {
            Action::QueryCapabilities { .. } => Some(Command::QueryCapabilities),
            Action::SetFormat { .. } => Some(Command::SetFormat),
            Action::RequestBuffers { .. } => Some(Command::RequestBuffers),
            Action::QueryBuffer { .. } => Some(Command::QueryBuffer),
            Action::QueueBuffer { .. } => Some(Command::QueueBuffer),
            Action::DequeueBuffer { .. } => Some(Command::DequeueBuffer),
            Action::StreamOn { .. } => Some(Command::StreamOn),
            Action::StreamOff { .. } => Some(Command::StreamOff),
            _ => None,
        }
    }

    /// What the action hands to the device, if it makes a request on the
    /// control channel.
    #[verifier::when_used_as_spec(argument_spec)]
    pub fn argument(&self) -> (argument: Option<Argument>)
        ensures
            argument == self.argument_spec(),
            argument.is_some() == self.command().is_some(),
    {
        let buffer_type = BufferType::VideoCapture.code();
        let memory = MemoryKind::Mmap.code();
        match self {
            Action::QueryCapabilities { .. } => Some(Argument::Capabilities),
            Action::SetFormat { format, .. } => Some(
                Argument::Format { buffer_type, pix: *format },
            ),
            Action::RequestBuffers { count, .. } => Some(
                Argument::Buffers { count: *count, buffer_type, memory },
            ),
            Action::QueryBuffer { index, .. } => Some(
                Argument::Buffer { index: *index, buffer_type, memory },
            ),
            Action::QueueBuffer { index, .. } => Some(
                Argument::Buffer { index: *index, buffer_type, memory },
            ),
            Action::DequeueBuffer { .. } => Some(Argument::Buffer { index: 0, buffer_type, memory }),
            Action::StreamOn { .. } => Some(Argument::Stream { buffer_type }),
            Action::StreamOff { .. } => Some(Argument::Stream { buffer_type }),
            _ => None,
        }
    }
}

/// What came of one action. Each kind of action has its kind of event. An
/// event that answers a request on the control channel carries the result
/// of the call and what the device wrote into the argument; where the call
/// failed, the rest has no meaning.
#[derive(Clone, Copy, Debug, PartialEq, Eq)]
pub enum Event {
    /// The device was opened with this descriptor, or, where it is
    /// negative, could not be opened.
    Opened { descriptor: i32 },
    /// The device was asked what it is.
    CapabilitiesQueried { result: RawResult, capabilities: Capabilities },
    /// A format was proposed; `format` is the one the device took.
    FormatSet { result: RawResult, format: PixelFormat },
    /// Buffers were asked for.
    BuffersRequested { result: RawResult },
    /// A buffer was asked after; it lies at `offset` and is `length` bytes
    /// long.
    BufferQueried { result: RawResult, offset: u32, length: u32 },
    /// A buffer was mapped at this address, or could not be mapped.
    BufferMapped { base_address: Option<usize> },
    /// A buffer was handed to the device.
    BufferQueued { result: RawResult },
    /// A buffer was asked back; the device gave buffer `index`, of which it
    /// filled `bytes_used` bytes.
    BufferDequeued { result: RawResult, index: u32, bytes_used: u32 },
    /// Streaming was switched on.
    StreamSwitchedOn { result: RawResult },
    /// Streaming was switched off.
    StreamSwitchedOff { result: RawResult },
    /// A buffer was unmapped.
    BufferUnmapped { result: RawResult },
    /// The descriptor was closed.
    DeviceClosed { result: RawResult },
    /// The descriptor became readable.
    Readable,
}

impl Event {
    /// Whether the event is of the kind that answers `action`.
    pub open spec fn answers_spec(&self, action: &Action) -> bool {
        match (*self, *action) {
            (Event::Opened { .. }, Action::OpenDevice) => true,
            (Event::CapabilitiesQueried { .. }, Action::QueryCapabilities { .. }) => true,
            (Event::FormatSet { .. }, Action::SetFormat { .. }) => true,
            (Event::BuffersRequested { .. }, Action::RequestBuffers { .. }) => true,
            (Event::BufferQueried { .. }, Action::QueryBuffer { .. }) => true,
            (Event::BufferMapped { .. }, Action::MapBuffer { .. }) => true,
            (Event::BufferQueued { .. }, Action::QueueBuffer { .. }) => true,
            (Event::BufferDequeued { .. }, Action::DequeueBuffer { .. }) => true,
            (Event::StreamSwitchedOn { .. }, Action::StreamOn { .. }) => true,
            (Event::StreamSwitchedOff { .. }, Action::StreamOff { .. }) => true,
            (Event::BufferUnmapped { .. }, Action::UnmapBuffer { .. }) => true,
            (Event::DeviceClosed { .. }, Action::CloseDevice { .. }) => true,
            (Event::Readable, Action::AwaitReadable { .. }) => true,
            _ => false,
        }
    }

    /// The result of the request on the control channel that the event
    /// answers, if it answers one.
    pub open spec fn control_result_spec(&self) -> Option<RawResult> {
        match *self {
            Event::CapabilitiesQueried { result, .. } => Some(result),
            Event::FormatSet { result, .. } => Some(result),
            Event::BuffersRequested { result } => Some(result),
            Event::BufferQueried { result, .. } => Some(result),
            Event::BufferQueued { result } => Some(result),
            Event::BufferDequeued { result, .. } => Some(result),
            Event::StreamSwitchedOn { result } => Some(result),
            Event::StreamSwitchedOff { result } => Some(result),
            _ => None,
        }
    }

    /// Whether the event tells of a request on the control channel that a
    /// signal interrupted. Such an event decides nothing: the request is
    /// made again.
    pub open spec fn interrupted_spec(&self) -> bool {
        self.control_result_spec() matches Some(result) && result.interrupted()
    }

    /// Whether the event is of the kind that answers `action`.
    #[verifier::when_used_as_spec(answers_spec)]
    pub fn answers(&self, action: &Action) -> (answers: bool)
        ensures
            answers == self.answers_spec(action),
    {
        match (self, action) {
            (Event::Opened { .. }, Action::OpenDevice) => true,
            (Event::CapabilitiesQueried { .. }, Action::QueryCapabilities { .. }) => true,
            (Event::FormatSet { .. }, Action::SetFormat { .. }) => true,
            (Event::BuffersRequested { .. }, Action::RequestBuffers { .. }) => true,
            (Event::BufferQueried { .. }, Action::QueryBuffer { .. }) => true,
            (Event::BufferMapped { .. }, Action::MapBuffer { .. }) => true,
            (Event::BufferQueued { .. }, Action::QueueBuffer { .. }) => true,
            (Event::BufferDequeued { .. }, Action::DequeueBuffer { .. }) => true,
            (Event::StreamSwitchedOn { .. }, Action::StreamOn { .. }) => true,
            (Event::StreamSwitchedOff { .. }, Action::StreamOff { .. }) => true,
            (Event::BufferUnmapped { .. }, Action::UnmapBuffer { .. }) => true,
            (Event::DeviceClosed { .. }, Action::CloseDevice { .. }) => true,
            (Event::Readable, Action::AwaitReadable { .. }) => true,
            _ => false,
        }
    }

    /// The result of the request on the control channel that the event
    /// answers, if it answers one.
    #[verifier::when_used_as_spec(control_result_spec)]
    pub fn control_result(&self) -> (result: Option<RawResult>)
        ensures
            result == self.control_result_spec(),
    {
        match self {
            Event::CapabilitiesQueried { result, .. } => Some(*result),
            Event::FormatSet { result, .. } => Some(*result),
            Event::BuffersRequested { result } => Some(*result),
            Event::BufferQueried { result, .. } => Some(*result),
            Event::BufferQueued { result } => Some(*result),
            Event::BufferDequeued { result, .. } => Some(*result),
            Event::StreamSwitchedOn { result } => Some(*result),
            Event::StreamSwitchedOff { result } => Some(*result),
            _ => None,
        }
    }

    /// Whether the event tells of a request on the control channel that a
    /// signal interrupted.
    #[verifier::when_used_as_spec(interrupted_spec)]
    pub fn interrupted(&self) -> (interrupted: bool)
        ensures
            interrupted == self.interrupted_spec(),
    {
        match self.control_result() {
            Some(result) => result.interrupted(),
            None => false,
        }
    }
}

/// What the library says at each turn of the exchange.
#[derive(Clone, Copy, Debug, PartialEq, Eq, Structural)]
pub enum Step {
    /// Nothing is in progress and nothing is asked.
    Idle,
    /// The driver is to perform this action and hand back its event.
    Perform(Action),
    /// The operation in progress has ended well.
    Complete,
    /// The retrieval in progress has ended with this frame.
    Yield(Frame),
    /// The operation in progress has ended with this error.
    Failed(Error),
}

impl Step {
    /// Whether `event` moves an exchange on that stands at this step: the
    /// step asks for an action, the event is of the kind that answers it,
    /// and it does not tell of an interruption.
    pub open spec fn settled_by(&self, event: &Event) -> bool {
        *self matches Step::Perform(action) && event.answers(&action) && !event.interrupted()
    }
}

} // verus!
