//! Single-plane video capture from a kernel media device, kept free of I/O.
//!
//! The crate decides; its caller acts. Every machine in it names the next
//! [`protocol::Action`] to perform on the device and takes the
//! [`protocol::Event`] that answers it, so that the whole life of a capture
//! (open, negotiate, map, stream, retrieve, stop, unmap, close) is plain
//! data that can be reasoned about and proved. A driver is a loop: perform
//! what [`Camera::pending`] says, hand the event to [`Camera::resume`],
//! perform what that says, until a step says that the operation has ended.
//!
//! - [`ioctl`] packs the request codes of the control channel.
//! - [`wire`] holds the numbers and records that cross the channel.
//! - [`device`] holds the device handle and reads what a call came back
//!   with: done, interrupted, to be retried later, or refused.
//! - [`protocol`] holds actions, events and steps.
//! - [`format`] agrees on the format of the capture.
//! - [`allocation`] maps the buffers into a [`pool`], and the pool unmaps
//!   them.
//! - [`session`] is the capture itself: start, frames, stop, teardown.
//! - [`camera`] runs the setup from the opening of the device to the
//!   running session.
//!
//! Each machine comes with a view, the state as the contracts see it, and
//! with the laws that hold of it: public proof functions whose names begin
//! with `law_`.

use vstd::prelude::*;

pub use crate::camera::Camera;

pub mod allocation;
pub mod camera;
pub mod device;
pub mod error;
pub mod format;
pub mod ioctl;
pub mod pool;
pub mod protocol;
pub mod session;
pub mod wire;

verus! {

/// All cameras that are connected to the operating system.
#[derive(Clone, Copy, Debug, PartialEq, Eq)]
pub struct Rig {}

impl Rig {
    /// A rig that has not looked for cameras yet.
    pub fn new() -> (rig: Rig)
        ensures
            rig == (Rig {}),
    {
        Rig {}
    }
}

} // verus!
