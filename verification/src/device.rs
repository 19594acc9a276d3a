//! The handle of a capture device and the reading of what the operating
//! system answers to a call.

use crate::error::Error;
use vstd::prelude::*;

verus! {

/// The path of the first capture device of the system, which is the one
/// that is opened.
pub const DEVICE_PATH: &'static str = "/dev/video0";

/// The error number of a call that a signal interrupted.
pub const EINTR: i32 = 4;

/// The error number of a call that would have had to wait.
pub const EAGAIN: i32 = 11;

/// The error number for an argument that makes no sense.
pub const EINVAL: i32 = 22;

/// What a call into the operating system came back with: the value it
/// returned and the error number that stood when it returned.
#[derive(Clone, Copy, Debug, PartialEq, Eq, Structural)]
pub struct RawResult {
    pub ret: i32,
    pub errno: i32,
}

/// What a request on the control channel came to.
#[derive(Clone, Copy, Debug, PartialEq, Eq, Structural)]
pub enum ControlOutcome {
    /// The device did what was asked.
    Done,
    /// The device had nothing to give yet; asking again later may succeed.
    Retry,
    /// The device refused, with this error number.
    Refused { code: i32 },
}

/// One try at a request on the control channel.
#[derive(Clone, Copy, Debug, PartialEq, Eq, Structural)]
pub enum Attempt {
    /// A signal cut the call short. Nothing was decided: the same request
    /// is to be made again.
    Interrupted,
    /// The call ran to its end.
    Settled(ControlOutcome),
}

impl RawResult {
    /// Whether the call failed: it returned a negative value.
    pub open spec fn failed_spec(&self) -> bool {
        self.ret < 0
    }

    /// The reading of the result of a request on the control channel. A
    /// value that is not negative is success, whatever the error number
    /// says. A negative one is an interruption, a wish to be asked again
    /// later or a refusal, by the error number. Only the interruption
    /// calls for the same request to be made again at once, and again after
    /// that, for as long as it takes; every other result settles the
    /// request.
    pub open spec fn attempt_spec(&self) -> Attempt {
        if self.ret >= 0 {
            Attempt::Settled(ControlOutcome::Done)
        } else if self.errno == EINTR {
            Attempt::Interrupted
        } else if self.errno == EAGAIN {
            Attempt::Settled(ControlOutcome::Retry)
        } else {
            Attempt::Settled(ControlOutcome::Refused { code: self.errno })
        }
    }

    /// Whether a request with this result is to be repeated at once.
    pub open spec fn interrupted_spec(&self) -> bool {
        self.ret < 0 && self.errno == EINTR
    }

    /// Whether the call did what was asked.
    pub open spec fn succeeded_spec(&self) -> bool {
        self.ret >= 0
    }

    /// The result of a call that succeeded.
    pub fn success() -> (result: RawResult)
        ensures
            result == (RawResult { ret: 0, errno: 0 }),
    {
        RawResult { ret: 0, errno: 0 }
    }

    /// The result of a call that failed with the error number `errno`.
    pub fn failure(errno: i32) -> (result: RawResult)
        ensures
            result == (RawResult { ret: -1i32, errno }),
    {
        RawResult { ret: -1, errno }
    }

    /// Whether the call failed.
    #[verifier::when_used_as_spec(failed_spec)]
    pub fn failed(&self) -> (failed: bool)
        ensures
            failed == self.failed_spec(),
    {
        self.ret < 0
    }

    /// Whether the call did what was asked.
    #[verifier::when_used_as_spec(succeeded_spec)]
    pub fn succeeded(&self) -> (succeeded: bool)
        ensures
            succeeded == self.succeeded_spec(),
    {
        self.ret >= 0
    }

    /// Whether a request with this result is to be repeated at once.
    #[verifier::when_used_as_spec(interrupted_spec)]
    pub fn interrupted(&self) -> (interrupted: bool)
        ensures
            interrupted == self.interrupted_spec(),
            interrupted == (self.attempt() is Interrupted),
    {
        self.ret < 0 && self.errno == EINTR
    }

    /// The reading of the result of a request on the control channel.
    #[verifier::when_used_as_spec(attempt_spec)]
    pub fn attempt(&self) -> (attempt: Attempt)
        ensures
            attempt == self.attempt_spec(),
    {
        if self.ret >= 0 {
            Attempt::Settled(ControlOutcome::Done)
        } else if self.errno == EINTR {
            Attempt::Interrupted
        } else if self.errno == EAGAIN {
            Attempt::Settled(ControlOutcome::Retry)
        } else {
            Attempt::Settled(ControlOutcome::Refused { code: self.errno })
        }
    }
}

/// The connection to an open capture device. It is not `Clone`: whoever
/// holds the value holds the device.
#[derive(Debug, PartialEq, Eq)]
pub struct DeviceHandle {
    /// The descriptor that the operating system gave.
    pub descriptor: i32,
    /// Whether the descriptor still stands for the device.
    pub is_open: bool,
}

impl DeviceHandle {
    /// The handle for what an attempt to open the device returned: a
    /// descriptor, or a negative value where the device is missing, may not
    /// be used or is taken.
    pub fn opened(descriptor: i32) -> (handle: Result<DeviceHandle, Error>)
        ensures
            descriptor >= 0 ==> handle == Ok::<DeviceHandle, Error>(
                DeviceHandle { descriptor, is_open: true },
            ),
            descriptor < 0 ==> handle == Err::<DeviceHandle, Error>(Error::DeviceUnavailable),
    {
        if descriptor >= 0 {
            Ok(DeviceHandle { descriptor, is_open: true })
        } else {
            Err(Error::DeviceUnavailable)
        }
    }

    /// The descriptor that the operating system gave.
    pub fn descriptor(&self) -> (descriptor: i32)
        ensures
            descriptor == self.descriptor,
    {
        self.descriptor
    }

    /// Whether the descriptor still stands for the device.
    pub fn is_open(&self) -> (open: bool)
        ensures
            open == self.is_open,
    {
        self.is_open
    }

    /// Gives the descriptor up. The caller closes the descriptor that is
    /// returned, once: a handle is closed one single time.
    pub fn close(&mut self) -> (descriptor: i32)
        requires
            old(self).is_open,
        ensures
            descriptor == old(self).descriptor,
            *final(self) == (DeviceHandle { descriptor: old(self).descriptor, is_open: false }),
    {
        self.is_open = false;
        self.descriptor
    }
}

} // verus!
