//! The format of a capture and how it is agreed with the device.
//!
//! The process proposes a width and a height, in motion JPEG and without
//! fields. What it asks for is advisory: the device answers with the
//! format it took, which may differ in every respect, and that answer is
//! the format of the capture. Nothing of it is held against the proposal.

use crate::device::{ControlOutcome, DeviceHandle};
use crate::error::Error;
use crate::protocol::Action;
use crate::wire::{Capabilities, FieldOrder, PixelEncoding, PixelFormat, V4L2_PIX_FMT_MJPEG};
use vstd::prelude::*;

verus! {

/// The format that a capture runs in.
#[derive(Clone, Copy, Debug, PartialEq, Eq, Structural)]
pub struct CaptureFormat {
    pub width: u32,
    pub height: u32,
    pub pixel_encoding: PixelEncoding,
    pub field_order: FieldOrder,
}

impl CaptureFormat {
    /// The format that a record of the device states.
    pub open spec fn from_wire_spec(reported: PixelFormat) -> CaptureFormat {
        CaptureFormat {
            width: reported.width,
            height: reported.height,
            pixel_encoding: PixelEncoding::from_code(reported.pixelformat),
            field_order: FieldOrder::from_code(reported.field),
        }
    }

    /// The format that a record of the device states. The numbers of the
    /// record can be had back from it unchanged.
    #[verifier::when_used_as_spec(from_wire_spec)]
    pub fn from_wire(reported: PixelFormat) -> (format: CaptureFormat)
        ensures
            format == CaptureFormat::from_wire_spec(reported),
            format.width == reported.width,
            format.height == reported.height,
            format.pixel_encoding.code() == reported.pixelformat,
            format.field_order.code() == reported.field,
    {
        CaptureFormat {
            width: reported.width,
            height: reported.height,
            pixel_encoding: PixelEncoding::from_code(reported.pixelformat),
            field_order: FieldOrder::from_code(reported.field),
        }
    }
}

/// The record that proposes a capture of `width` by `height`: motion JPEG,
/// whole pictures, and everything else left to the device.
pub open spec fn proposal_spec(width: u32, height: u32) -> PixelFormat {
    PixelFormat {
        width,
        height,
        pixelformat: V4L2_PIX_FMT_MJPEG,
        field: FieldOrder::Progressive.code(),
        bytesperline: 0,
        sizeimage: 0,
        colorspace: 0,
        private: 0,
    }
}

/// What a proposal comes to, given what the request came to and the
/// record that the device wrote: the format in the record if the device
/// took the request, and a rejection if not.
pub open spec fn negotiated_spec(outcome: ControlOutcome, reported: PixelFormat) -> Result<
    CaptureFormat,
    Error,
> {
    match outcome {
        ControlOutcome::Done => Ok(CaptureFormat::from_wire(reported)),
        _ => Err(Error::FormatRejected),
    }
}

/// What a capability query comes to, given what the request came to and
/// the record that the device wrote.
pub open spec fn capabilities_queried_spec(
    outcome: ControlOutcome,
    reported: Capabilities,
) -> Result<Capabilities, Error> {
    match outcome {
        ControlOutcome::Done => Ok(reported),
        _ => Err(Error::CapabilityQueryFailed),
    }
}

/// The record that proposes a capture of `width` by `height`.
#[verifier::when_used_as_spec(proposal_spec)]
pub fn proposal(width: u32, height: u32) -> (format: PixelFormat)
    ensures
        format == proposal_spec(width, height),
{
    PixelFormat {
        width,
        height,
        pixelformat: PixelEncoding::Mjpeg.code(),
        field: FieldOrder::Progressive.code(),
        bytesperline: 0,
        sizeimage: 0,
        colorspace: 0,
        private: 0,
    }
}

/// The action that asks the device what it is.
pub fn query_capabilities(handle: &DeviceHandle) -> (action: Action)
    ensures
        action == (Action::QueryCapabilities { descriptor: handle.descriptor }),
{
    Action::QueryCapabilities { descriptor: handle.descriptor }
}

/// What the capability query came to: what the device says of itself, as
/// it said it, or `CapabilityQueryFailed` where the request did not
/// succeed.
#[verifier::when_used_as_spec(capabilities_queried_spec)]
pub fn capabilities_queried(outcome: ControlOutcome, reported: Capabilities) -> (capabilities:
    Result<Capabilities, Error>)
    ensures
        capabilities == capabilities_queried_spec(outcome, reported),
{
    match outcome {
        ControlOutcome::Done => Ok(reported),
        _ => Err(Error::CapabilityQueryFailed),
    }
}

/// The action that proposes a capture of `width` by `height` to the
/// device.
pub fn negotiate(handle: &DeviceHandle, width: u32, height: u32) -> (action: Action)
    ensures
        action == (Action::SetFormat {
            descriptor: handle.descriptor,
            format: proposal(width, height),
        }),
{
    Action::SetFormat { descriptor: handle.descriptor, format: proposal(width, height) }
}

/// What the proposal came to: exactly the format that the device reports,
/// whether or not it is the one proposed, or `FormatRejected` where the
/// request did not succeed.
#[verifier::when_used_as_spec(negotiated_spec)]
pub fn negotiated(outcome: ControlOutcome, reported: PixelFormat) -> (format: Result<
    CaptureFormat,
    Error,
>)
    ensures
        format == negotiated_spec(outcome, reported),
        outcome is Done <==> format.is_ok(),
        format matches Ok(f) ==> {
            &&& f.width == reported.width
            &&& f.height == reported.height
            &&& f.pixel_encoding.code() == reported.pixelformat
            &&& f.field_order.code() == reported.field
        },
{
    match outcome {
        ControlOutcome::Done => Ok(CaptureFormat::from_wire(reported)),
        _ => Err(Error::FormatRejected),
    }
}

/// A device that takes the proposal as it stands gives the capture the
/// width and the height that were asked for, in motion JPEG and whole
/// pictures.
pub proof fn law_echo_gives_what_was_asked(width: u32, height: u32)
    ensures
        negotiated(ControlOutcome::Done, proposal(width, height)) == Ok::<CaptureFormat, Error>(
            CaptureFormat {
                width,
                height,
                pixel_encoding: PixelEncoding::Mjpeg,
                field_order: FieldOrder::Progressive,
            },
        ),
{
}

/// Whatever the device reports is what the caller gets: two reports give
/// the same format only if they agree in width, height, encoding and field
/// order.
pub proof fn law_report_is_not_hidden(first: PixelFormat, second: PixelFormat)
    requires
        negotiated(ControlOutcome::Done, first) == negotiated(ControlOutcome::Done, second),
    ensures
        first.width == second.width,
        first.height == second.height,
        first.pixelformat == second.pixelformat,
        first.field == second.field,
{
}

} // verus!
