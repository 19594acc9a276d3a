//! A camera, from the opening of its device to the last release.
//!
//! [`Camera::new`] stands before the first step of the setup: open the
//! device, ask what it is, agree on a format, map one buffer, submit it and
//! switch streaming on. A step that fails ends the setup at once, with its
//! error; what the setup had got hold of by then is given back by
//! [`Camera::teardown`], which may be asked for at any time.

use crate::allocation::{Allocation, AllocationStage, AllocationView, Placement};
use crate::device::{Attempt, DeviceHandle, RawResult};
use crate::error::Error;
use crate::format::{capabilities_queried, negotiated, proposal, CaptureFormat};
use crate::pool::{BufferState, MappedBuffer, PoolView};
use crate::protocol::{Action, Event, Step};
use crate::session::{Activity, CaptureSession, SessionState, SessionView};
use crate::wire::{Capabilities, PixelFormat};
use vstd::prelude::*;

verus! {

/// How many buffers a camera maps.
pub const BUFFER_COUNT: u32 = 1;

/// How far a camera has come, as the contracts see it.
#[verifier::ext_equal]
pub enum StageView {
    /// The device is being opened.
    Opening,
    /// The device is being asked what it is.
    Probing { device: DeviceHandle },
    /// The format is being proposed.
    Negotiating { device: DeviceHandle },
    /// The buffers are being mapped.
    Allocating { device: DeviceHandle, format: CaptureFormat, allocation: AllocationView },
    /// The session exists: it starts, streams, stops and releases.
    Capturing { session: SessionView },
    /// The setup failed with `error`. The device, if it was opened, is
    /// still to be closed.
    Broken { held: Option<DeviceHandle>, error: Error },
    /// The device is being closed.
    Closing { device: DeviceHandle },
    /// Nothing is held any more.
    Closed,
}

/// A camera as the contracts see it.
#[verifier::ext_equal]
pub struct CameraView {
    /// The width that is asked for.
    pub width: u32,
    /// The height that is asked for.
    pub height: u32,
    /// What the device said of itself, once it has.
    pub capabilities: Option<Capabilities>,
    /// The error that ended the setup, if one did.
    pub failure: Option<Error>,
    /// Whether the device could not be closed outside a session.
    pub close_failed: bool,
    pub stage: StageView,
}

impl CameraView {
    /// What holds of every camera.
    pub open spec fn wf(self) -> bool {
        match self.stage {
            StageView::Opening | StageView::Closed => true,
            StageView::Probing { device } | StageView::Negotiating { device } | StageView::Closing {
                device,
            } => device.is_open,
            StageView::Allocating { device, allocation, .. } => {
                &&& device.is_open
                &&& allocation.wf()
                &&& allocation.count == BUFFER_COUNT
                &&& allocation.pool.descriptor == device.descriptor
                &&& !(allocation.stage is Finished || allocation.stage is Failed
                    || allocation.stage is Unwinding)
            },
            StageView::Capturing { session } => session.wf(),
            StageView::Broken { held, .. } => held matches Some(d) ==> d.is_open,
        }
    }

    /// The camera that asks for `width` by `height`, before its first
    /// step.
    pub open spec fn begin(width: u32, height: u32) -> CameraView {
        CameraView {
            width,
            height,
            capabilities: None,
            failure: None,
            close_failed: false,
            stage: StageView::Opening,
        }
    }

    /// The session, once the camera has one.
    pub open spec fn session(self) -> Option<SessionView> {
        match self.stage {
            StageView::Capturing { session } => Some(session),
            _ => None,
        }
    }

    /// The format of the capture, once it is agreed.
    pub open spec fn format(self) -> Option<CaptureFormat> {
        match self.stage {
            StageView::Allocating { format, .. } => Some(format),
            StageView::Capturing { session } => Some(session.format),
            _ => None,
        }
    }

    /// Whether a frame, or a stop, may be asked for.
    pub open spec fn can_retrieve(self) -> bool {
        self.stage matches StageView::Capturing { session } && session.can_retrieve()
    }

    /// Whether the camera holds nothing any more.
    pub open spec fn is_closed(self) -> bool {
        match self.stage {
            StageView::Closed => true,
            StageView::Capturing { session } => session.state is Closed,
            _ => false,
        }
    }

    /// The failures of the release steps so far, in the order of the
    /// steps.
    pub open spec fn faults(self) -> Seq<Error> {
        match self.stage {
            StageView::Capturing { session } => session.faults(),
            _ => if self.close_failed {
                seq![Error::CloseFailed]
            } else {
                Seq::empty()
            },
        }
    }

    /// What the camera says as it stands: the action it waits for, the
    /// error that ended its setup, or nothing.
    pub open spec fn pending(self) -> Step {
        match self.stage {
            StageView::Opening => Step::Perform(Action::OpenDevice),
            StageView::Probing { device } => Step::Perform(
                Action::QueryCapabilities { descriptor: device.descriptor },
            ),
            StageView::Negotiating { device } => Step::Perform(
                Action::SetFormat {
                    descriptor: device.descriptor,
                    format: proposal(self.width, self.height),
                },
            ),
            StageView::Allocating { allocation, .. } => allocation.pending(),
            StageView::Capturing { session } => session.pending(),
            StageView::Broken { error, .. } => Step::Failed(error),
            StageView::Closing { device } => Step::Perform(
                Action::CloseDevice { descriptor: device.descriptor },
            ),
            StageView::Closed => Step::Idle,
        }
    }

    /// The camera after its setup failed with `error`, holding `device` if
    /// it was opened.
    pub open spec fn broken(self, device: Option<DeviceHandle>, error: Error) -> CameraView {
        CameraView { failure: Some(error), stage: StageView::Broken { held: device, error }, ..self }
    }

    /// The camera after its allocation moved on to `allocation`: with the
    /// buffers mapped, the session is made and begins to start; after a
    /// failure, the setup has ended.
    pub open spec fn allocated(
        self,
        device: DeviceHandle,
        format: CaptureFormat,
        allocation: AllocationView,
    ) -> CameraView {
        match allocation.stage {
            AllocationStage::Finished => CameraView {
                stage: StageView::Capturing {
                    session: SessionView::begin(device, format, allocation.pool).start(),
                },
                ..self
            },
            AllocationStage::Failed { error } => self.broken(Some(device), error),
            _ => CameraView { stage: StageView::Allocating { device, format, allocation }, ..self },
        }
    }

    /// The camera after `event`, and what it says then. An event that does
    /// not answer the action that the camera waits for, or that tells of
    /// an interruption, changes nothing.
    pub open spec fn resume(self, event: Event) -> (CameraView, Step) {
        if !self.pending().settled_by(&event) {
            (self, self.pending())
        } else {
            match (self.stage, event) {
                (StageView::Opening, Event::Opened { descriptor }) => {
                    let next = if descriptor >= 0 {
                        CameraView {
                            stage: StageView::Probing {
                                device: DeviceHandle { descriptor, is_open: true },
                            },
                            ..self
                        }
                    } else {
                        self.broken(None, Error::DeviceUnavailable)
                    };
                    (next, next.pending())
                },
                (StageView::Probing { device }, Event::CapabilitiesQueried { result, capabilities }) => {
                    let next = if result.succeeded() {
                        CameraView {
                            capabilities: Some(capabilities),
                            stage: StageView::Negotiating { device },
                            ..self
                        }
                    } else {
                        self.broken(Some(device), Error::CapabilityQueryFailed)
                    };
                    (next, next.pending())
                },
                (StageView::Negotiating { device }, Event::FormatSet { result, format }) => {
                    let next = if result.succeeded() {
                        CameraView {
                            stage: StageView::Allocating {
                                device,
                                format: CaptureFormat::from_wire(format),
                                allocation: AllocationView::begin(device.descriptor, BUFFER_COUNT),
                            },
                            ..self
                        }
                    } else {
                        self.broken(Some(device), Error::FormatRejected)
                    };
                    (next, next.pending())
                },
                (StageView::Allocating { device, format, allocation }, _) => {
                    let next = self.allocated(device, format, allocation.next(event));
                    (next, next.pending())
                },
                (StageView::Capturing { session }, _) => (
                    CameraView {
                        stage: StageView::Capturing { session: session.resume(event).0 },
                        ..self
                    },
                    session.resume(event).1,
                ),
                (StageView::Closing { .. }, Event::DeviceClosed { result }) => (
                    CameraView { close_failed: result.failed(), stage: StageView::Closed, ..self },
                    Step::Complete,
                ),
                _ => (self, self.pending()),
            }
        }
    }

    /// The camera once a frame is asked for.
    pub open spec fn next_frame(self) -> CameraView {
        match self.stage {
            StageView::Capturing { session } => CameraView {
                stage: StageView::Capturing { session: session.next_frame() },
                ..self
            },
            _ => self,
        }
    }

    /// The camera once a stop is asked for.
    pub open spec fn stop(self) -> CameraView {
        match self.stage {
            StageView::Capturing { session } => CameraView {
                stage: StageView::Capturing { session: session.stop() },
                ..self
            },
            _ => self,
        }
    }

    /// The camera once a teardown is asked for, and what it says then.
    /// With a session, the session is torn down. Before that, the setup is
    /// given up where it stands and the device, if it is open, is closed:
    /// no buffer is mapped before the session is made.
    pub open spec fn teardown(self) -> (CameraView, Step) {
        match self.stage {
            StageView::Opening => (CameraView { stage: StageView::Closed, ..self }, Step::Complete),
            StageView::Probing { device } | StageView::Negotiating { device }
            | StageView::Allocating { device, .. } => {
                let next = CameraView { stage: StageView::Closing { device }, ..self };
                (next, next.pending())
            },
            StageView::Capturing { session } => (
                CameraView {
                    stage: StageView::Capturing { session: session.teardown().0 },
                    ..self
                },
                session.teardown().1,
            ),
            StageView::Broken { held: Some(device), .. } => {
                let next = CameraView { stage: StageView::Closing { device }, ..self };
                (next, next.pending())
            },
            StageView::Broken { held: None, .. } => (
                CameraView { stage: StageView::Closed, ..self },
                Step::Complete,
            ),
            StageView::Closing { .. } => (self, self.pending()),
            StageView::Closed => (self, Step::Complete),
        }
    }
}

impl CameraView {
    /// The camera after the events of `events` in turn, and what it says
    /// at the end.
    pub open spec fn run(self, events: Seq<Event>) -> (CameraView, Step)
        decreases events.len(),
    {
        if events.len() == 0 {
            (self, self.pending())
        } else {
            self.run(events.drop_last()).0.resume(events.last())
        }
    }
}

/// What a setup asks of the device behind `descriptor`, in turn, where
/// every step succeeds and the one buffer lies at `placement`.
pub open spec fn setup_plan(width: u32, height: u32, descriptor: i32, placement: Placement) -> Seq<
    Action,
> {
    seq![
        Action::OpenDevice,
        Action::QueryCapabilities { descriptor },
        Action::SetFormat { descriptor, format: proposal(width, height) },
        Action::RequestBuffers { descriptor, count: BUFFER_COUNT },
        Action::QueryBuffer { descriptor, index: 0 },
        Action::MapBuffer { descriptor, offset: placement.offset, length: placement.length },
        Action::QueueBuffer { descriptor, index: 0 },
        Action::StreamOn { descriptor },
    ]
}

/// What a device answers to a setup that it takes step by step: it opens
/// as `descriptor`, says `capabilities` of itself, reports the format
/// `reported` and puts the one buffer at `placement`.
pub open spec fn setup_answers(
    descriptor: i32,
    capabilities: Capabilities,
    reported: PixelFormat,
    placement: Placement,
) -> Seq<Event> {
    let done = RawResult { ret: 0, errno: 0 };
    seq![
        Event::Opened { descriptor },
        Event::CapabilitiesQueried { result: done, capabilities },
        Event::FormatSet { result: done, format: reported },
        Event::BuffersRequested { result: done },
        Event::BufferQueried { result: done, offset: placement.offset, length: placement.length },
        Event::BufferMapped { base_address: Some(placement.base_address) },
        Event::BufferQueued { result: done },
        Event::StreamSwitchedOn { result: done },
    ]
}

/// The session of a camera whose setup the device took step by step: it
/// streams, in the format that the device reported, and its one buffer is
/// with the device.
pub open spec fn session_after_setup(
    descriptor: i32,
    reported: PixelFormat,
    placement: Placement,
) -> SessionView {
    SessionView {
        device: DeviceHandle { descriptor, is_open: true },
        format: CaptureFormat::from_wire(reported),
        pool: PoolView {
            descriptor,
            buffers: seq![
                MappedBuffer {
                    index: 0,
                    base_address: placement.base_address,
                    length: placement.length,
                    state: BufferState::QueuedToDevice,
                },
            ],
            releasing: false,
            unmap_failures: 0,
        },
        state: SessionState::Streaming,
        activity: Activity::Resting,
        stop_failed: false,
        close_failed: false,
    }
}

/// Whatever is asked of a camera and whatever a device answers, the camera
/// stays as [`CameraView::wf`] says.
pub proof fn law_camera_stays_well_formed(camera: CameraView, event: Event)
    requires
        camera.wf(),
    ensures
        camera.resume(event).0.wf(),
        camera.teardown().0.wf(),
        camera.can_retrieve() ==> camera.next_frame().wf() && camera.stop().wf(),
{
}

/// A request that a signal interrupts is made again, and that is all: any
/// number of interruptions leaves the camera as it was, still asking for
/// the same action, and the answer that comes in the end counts as if it
/// had come at once.
pub proof fn law_interruptions_change_nothing(
    camera: CameraView,
    interruptions: Seq<Event>,
    answer: Event,
)
    requires
        forall|i: int| 0 <= i < interruptions.len() ==> (#[trigger] interruptions[i]).interrupted(),
    ensures
        camera.run(interruptions) == (camera, camera.pending()),
        camera.run(interruptions.push(answer)) == camera.resume(answer),
    decreases interruptions.len(),
{
    if interruptions.len() > 0 {
        law_interruptions_change_nothing(camera, interruptions.drop_last(), interruptions.last());
    }
    assert(interruptions.push(answer).drop_last() =~= interruptions);
}

/// The format of a camera is the one that the device reported, whether or
/// not it is the one that was asked for.
pub proof fn law_camera_takes_the_reported_format(
    camera: CameraView,
    result: RawResult,
    reported: PixelFormat,
)
    requires
        camera.wf(),
        camera.stage is Negotiating,
        result.succeeded(),
    ensures
        camera.resume(Event::FormatSet { result, format: reported }).0.format() == Some(
            CaptureFormat::from_wire(reported),
        ),
        camera.resume(Event::FormatSet { result, format: reported }).0.format().unwrap().width
            == reported.width,
        camera.resume(Event::FormatSet { result, format: reported }).0.format().unwrap().height
            == reported.height,
{
}

/// A setup takes its steps in one order: open, ask what the device is,
/// propose the format, ask for one buffer, ask where it lies, map it,
/// submit it, switch streaming on. Where the device takes every step, the
/// setup is complete after the last, and the camera holds a session that
/// streams.
pub proof fn law_setup_takes_its_steps_in_order(
    width: u32,
    height: u32,
    descriptor: i32,
    capabilities: Capabilities,
    reported: PixelFormat,
    placement: Placement,
)
    requires
        descriptor >= 0,
    ensures
        forall|k: int|
            0 <= k < 8 ==> (#[trigger] CameraView::begin(width, height).run(
                setup_answers(descriptor, capabilities, reported, placement).take(k),
            )).1 == Step::Perform(setup_plan(width, height, descriptor, placement)[k]),
        CameraView::begin(width, height).run(
            setup_answers(descriptor, capabilities, reported, placement),
        ) == ((
            CameraView {
                capabilities: Some(capabilities),
                stage: StageView::Capturing {
                    session: session_after_setup(descriptor, reported, placement),
                },
                ..CameraView::begin(width, height)
            },
            Step::Complete,
        )),
{
    let begin = CameraView::begin(width, height);
    let answers = setup_answers(descriptor, capabilities, reported, placement);
    let plan = setup_plan(width, height, descriptor, placement);
    lemma_setup_progress(width, height, descriptor, capabilities, reported, placement, 8);
    assert(answers.take(8) =~= answers);
    assert forall|k: int| 0 <= k < 8 implies (#[trigger] begin.run(answers.take(k))).1
        == Step::Perform(plan[k]) by {
        lemma_setup_progress(width, height, descriptor, capabilities, reported, placement, k);
    }
}

/// Where a setup that the device takes step by step stands after `k`
/// answers.
proof fn lemma_setup_progress(
    width: u32,
    height: u32,
    descriptor: i32,
    capabilities: Capabilities,
    reported: PixelFormat,
    placement: Placement,
    k: int,
)
    requires
        descriptor >= 0,
        0 <= k <= 8,
    ensures
        ({
            let at = CameraView::begin(width, height).run(
                setup_answers(descriptor, capabilities, reported, placement).take(k),
            );
            &&& at.0.wf()
            &&& at.0.width == width
            &&& at.0.height == height
            &&& at.0.failure.is_none()
            &&& !at.0.close_failed
            &&& k < 8 ==> at.1 == Step::Perform(
                setup_plan(width, height, descriptor, placement)[k],
            )
            &&& k >= 2 ==> at.0.capabilities == Some(capabilities)
            &&& k < 2 ==> at.0.capabilities.is_none()
            &&& k == 0 ==> at.0.stage is Opening
            &&& k == 1 ==> at.0.stage == (StageView::Probing {
                device: DeviceHandle { descriptor, is_open: true },
            })
            &&& k == 2 ==> at.0.stage == (StageView::Negotiating {
                device: DeviceHandle { descriptor, is_open: true },
            })
            &&& 3 <= k <= 5 ==> (at.0.stage matches StageView::Allocating {
                device,
                format,
                allocation,
            } && device == (DeviceHandle { descriptor, is_open: true }) && format
                == CaptureFormat::from_wire(reported) && allocation.pool.buffers.len() == 0
                && allocation.stage == (if k == 3 {
                AllocationStage::Requesting
            } else if k == 4 {
                AllocationStage::Querying
            } else {
                AllocationStage::Mapping { offset: placement.offset, length: placement.length }
            }))
            &&& k == 6 ==> at.0.stage == (StageView::Capturing {
                session: SessionView {
                    state: SessionState::Idle,
                    activity: Activity::Submitting { index: 0 },
                    pool: PoolView {
                        buffers: seq![
                            MappedBuffer {
                                index: 0,
                                base_address: placement.base_address,
                                length: placement.length,
                                state: BufferState::Free,
                            },
                        ],
                        ..session_after_setup(descriptor, reported, placement).pool
                    },
                    ..session_after_setup(descriptor, reported, placement)
                },
            })
            &&& k == 7 ==> at.0.stage == (StageView::Capturing {
                session: SessionView {
                    state: SessionState::Idle,
                    activity: Activity::StartingStream,
                    ..session_after_setup(descriptor, reported, placement)
                },
            })
            &&& k == 8 ==> at.0.stage == (StageView::Capturing {
                session: session_after_setup(descriptor, reported, placement),
            }) && at.1 == Step::Complete
        }),
    decreases k,
{
    if k > 0 {
        let answers = setup_answers(descriptor, capabilities, reported, placement);
        lemma_setup_progress(width, height, descriptor, capabilities, reported, placement, k - 1);
        assert(answers.take(k).drop_last() =~= answers.take(k - 1));
    }
}

impl CameraView {
    /// The device that the camera itself holds open, outside a session.
    pub open spec fn held(self) -> Option<DeviceHandle> {
        match self.stage {
            StageView::Probing { device } | StageView::Negotiating { device }
            | StageView::Allocating { device, .. } | StageView::Closing { device } => Some(device),
            StageView::Broken { held, .. } => held,
            _ => None,
        }
    }
}

/// A setup that failed ends with the error of the step that failed, and
/// what it had got hold of by then is still there for the teardown: a
/// failure is reported at once, and nothing is released behind the back of
/// the caller.
pub proof fn law_setup_reports_the_failing_step(camera: CameraView, event: Event)
    requires
        camera.wf(),
        camera.pending().settled_by(&event),
        camera.resume(event).0.stage is Broken,
    ensures
        camera.resume(event).1 == Step::Failed(camera.resume(event).0.stage->Broken_error),
        camera.resume(event).0.failure == Some(camera.resume(event).0.stage->Broken_error),
        camera.resume(event).0.held() == camera.held(),
        camera.stage is Opening ==> camera.resume(event).1 == Step::Failed(Error::DeviceUnavailable),
        camera.stage is Probing ==> camera.resume(event).1 == Step::Failed(
            Error::CapabilityQueryFailed,
        ),
        camera.stage is Negotiating ==> camera.resume(event).1 == Step::Failed(
            Error::FormatRejected,
        ),
        camera.stage matches StageView::Allocating { allocation, .. } ==> camera.resume(event).1
            == Step::Failed(
            match allocation.stage {
                AllocationStage::Requesting => Error::BufferRequestFailed,
                AllocationStage::Querying => Error::BufferQueryFailed,
                _ => Error::MappingFailed,
            },
        ),
{
}

/// Before a camera has a session it holds at most the open device, and a
/// teardown gives that back: with a device held, the teardown asks for the
/// close and is complete once the close is answered, whatever it came to;
/// with none, the teardown is complete at once. A close that failed is
/// the one fault of the camera.
pub proof fn law_teardown_before_the_session_closes_the_device(camera: CameraView, close: RawResult)
    requires
        camera.wf(),
        !(camera.stage is Capturing),
    ensures
        camera.held() matches Some(device) ==> {
            &&& camera.teardown().1 == Step::Perform(
                Action::CloseDevice { descriptor: device.descriptor },
            )
            &&& camera.teardown().0.resume(Event::DeviceClosed { result: close }) == ((
                CameraView { close_failed: close.failed(), stage: StageView::Closed, ..camera },
                Step::Complete,
            ))
            &&& camera.teardown().0.resume(Event::DeviceClosed { result: close }).0.faults() == (
            if close.failed() {
                seq![Error::CloseFailed]
            } else {
                Seq::<Error>::empty()
            })
        },
        camera.held().is_none() ==> camera.teardown() == ((
            CameraView { stage: StageView::Closed, ..camera },
            Step::Complete,
        )),
        camera.held().is_none() ==> camera.teardown().0.is_closed(),
        camera.stage matches StageView::Allocating { allocation, .. }
            ==> allocation.pool.buffers.len() == 0,
{
}

#[derive(Debug)]
enum Stage {
    Opening,
    Probing { device: DeviceHandle },
    Negotiating { device: DeviceHandle },
    Allocating { device: DeviceHandle, format: CaptureFormat, allocation: Allocation },
    Capturing { session: CaptureSession },
    Broken { held: Option<DeviceHandle>, error: Error },
    Closing { device: DeviceHandle },
    Closed,
}

impl View for Stage {
    type V = StageView;

    closed spec fn view(&self) -> StageView {
        match *self {
            Stage::Opening => StageView::Opening,
            Stage::Probing { device } => StageView::Probing { device },
            Stage::Negotiating { device } => StageView::Negotiating { device },
            Stage::Allocating { device, format, allocation } => StageView::Allocating {
                device,
                format,
                allocation: allocation@,
            },
            Stage::Capturing { session } => StageView::Capturing { session: session@ },
            Stage::Broken { held, error } => StageView::Broken { held, error },
            Stage::Closing { device } => StageView::Closing { device },
            Stage::Closed => StageView::Closed,
        }
    }
}

/// A camera.
#[derive(Debug)]
pub struct Camera {
    width: u32,
    height: u32,
    capabilities: Option<Capabilities>,
    failure: Option<Error>,
    close_failed: bool,
    stage: Stage,
}

impl View for Camera {
    type V = CameraView;

    closed spec fn view(&self) -> CameraView {
        CameraView {
            width: self.width,
            height: self.height,
            capabilities: self.capabilities,
            failure: self.failure,
            close_failed: self.close_failed,
            stage: self.stage@,
        }
    }
}

impl Camera {
    /// The camera that will ask its device for pictures of `w` by `h`.
    /// Nothing has been done yet: what to do first is
    /// [`Camera::pending`].
    pub fn new(w: u32, h: u32) -> (camera: Camera)
        ensures
            camera@ == CameraView::begin(w, h),
            camera@.wf(),
    {
        Camera {
            width: w,
            height: h,
            capabilities: None,
            failure: None,
            close_failed: false,
            stage: Stage::Opening,
        }
    }

    /// The width that is asked for.
    pub fn width(&self) -> (width: u32)
        ensures
            width == self@.width,
    {
        self.width
    }

    /// The height that is asked for.
    pub fn height(&self) -> (height: u32)
        ensures
            height == self@.height,
    {
        self.height
    }

    /// What the device said of itself, once it has.
    pub fn capabilities(&self) -> (capabilities: Option<Capabilities>)
        ensures
            capabilities == self@.capabilities,
    {
        self.capabilities
    }

    /// The error that ended the setup, if one did.
    pub fn failure(&self) -> (failure: Option<Error>)
        ensures
            failure == self@.failure,
    {
        self.failure
    }

    /// The format of the capture, once it is agreed: what the device
    /// reported, not what was asked for.
    pub fn format(&self) -> (format: Option<CaptureFormat>)
        ensures
            format == self@.format(),
    {
        match &self.stage {
            Stage::Allocating { format, .. } => Some(*format),
            Stage::Capturing { session } => Some(session.format()),
            _ => None,
        }
    }

    /// The session, once the camera has one.
    pub fn session(&self) -> (session: Option<&CaptureSession>)
        ensures
            self@.session() matches Some(s) ==> session.is_some() && session.unwrap()@ == s,
            self@.session().is_none() ==> session.is_none(),
    {
        match &self.stage {
            Stage::Capturing { session } => Some(session),
            _ => None,
        }
    }

    /// Whether a frame, or a stop, may be asked for.
    pub fn can_retrieve(&self) -> (can: bool)
        ensures
            can == self@.can_retrieve(),
    {
        match &self.stage {
            Stage::Capturing { session } => session.can_retrieve(),
            _ => false,
        }
    }

    /// Whether the camera holds nothing any more.
    pub fn is_closed(&self) -> (closed: bool)
        ensures
            closed == self@.is_closed(),
    {
        match &self.stage {
            Stage::Closed => true,
            Stage::Capturing { session } => match session.state() {
                crate::session::SessionState::Closed => true,
                _ => false,
            },
            _ => false,
        }
    }

    /// The failures of the release steps so far, in the order of the
    /// steps. None of them held the release up.
    pub fn faults(&self) -> (faults: Vec<Error>)
        requires
            self@.wf(),
        ensures
            faults@ == self@.faults(),
    {
        match &self.stage {
            Stage::Capturing { session } => session.faults(),
            _ => {
                let mut faults: Vec<Error> = Vec::new();
                if self.close_failed {
                    faults.push(Error::CloseFailed);
                }
                faults
            },
        }
    }

    /// What the camera says as it stands: the action it waits for, the
    /// error that ended its setup, or `Idle`.
    pub fn pending(&self) -> (step: Step)
        requires
            self@.wf(),
        ensures
            step == self@.pending(),
    {
        match &self.stage {
            Stage::Opening => Step::Perform(Action::OpenDevice),
            Stage::Probing { device } => Step::Perform(crate::format::query_capabilities(device)),
            Stage::Negotiating { device } => Step::Perform(
                crate::format::negotiate(device, self.width, self.height),
            ),
            Stage::Allocating { allocation, .. } => allocation.pending(),
            Stage::Capturing { session } => session.pending(),
            Stage::Broken { error, .. } => Step::Failed(*error),
            Stage::Closing { device } => Step::Perform(
                Action::CloseDevice { descriptor: device.descriptor },
            ),
            Stage::Closed => Step::Idle,
        }
    }

    fn take_stage(&mut self) -> (stage: Stage)
        ensures
            stage == old(self).stage,
            final(self).width == old(self).width,
            final(self).height == old(self).height,
            final(self).capabilities == old(self).capabilities,
            final(self).failure == old(self).failure,
            final(self).close_failed == old(self).close_failed,
    {
        let mut stage = Stage::Closed;
        core::mem::swap(&mut self.stage, &mut stage);
        stage
    }

    fn allocated(&mut self, device: DeviceHandle, format: CaptureFormat, allocation: Allocation)
        requires
            device.is_open,
            allocation@.wf(),
            allocation@.count == BUFFER_COUNT,
            allocation@.pool.descriptor == device.descriptor,
            !(allocation@.stage is Unwinding),
        ensures
            final(self)@ == old(self)@.allocated(device, format, allocation@),
            final(self)@.wf(),
    {
        match allocation.stage() {
            AllocationStage::Finished => {
                let pool = allocation.into_pool().unwrap();
                let mut session = CaptureSession::new(device, format, pool);
                session.start();
                self.stage = Stage::Capturing { session };
            },
            AllocationStage::Failed { error } => {
                self.failure = Some(error);
                self.stage = Stage::Broken { held: Some(device), error };
            },
            _ => {
                self.stage = Stage::Allocating { device, format, allocation };
            },
        }
    }

    /// Takes the answer to the action that the camera asked for and names
    /// the next step. An event that does not answer that action, or that
    /// tells of an interruption, changes nothing: the same action is asked
    /// again. The setup ends with `Complete` once the device streams, or
    /// with the error of the step that failed.
    pub fn resume(&mut self, event: Event) -> (step: Step)
        requires
            old(self)@.wf(),
        ensures
            final(self)@ == old(self)@.resume(event).0,
            step == old(self)@.resume(event).1,
            final(self)@.wf(),
    {
        let stage = self.take_stage();
        match (stage, event) {
            (Stage::Opening, Event::Opened { descriptor }) => {
                match DeviceHandle::opened(descriptor) {
                    Ok(device) => {
                        self.stage = Stage::Probing { device };
                    },
                    Err(error) => {
                        self.failure = Some(error);
                        self.stage = Stage::Broken { held: None, error };
                    },
                }
                self.pending()
            },
            (Stage::Probing { device }, Event::CapabilitiesQueried { result, capabilities }) => {
                match result.attempt() {
                    Attempt::Interrupted => {
                        self.stage = Stage::Probing { device };
                    },
                    Attempt::Settled(outcome) => match capabilities_queried(outcome, capabilities) {
                        Ok(capabilities) => {
                            self.capabilities = Some(capabilities);
                            self.stage = Stage::Negotiating { device };
                        },
                        Err(error) => {
                            self.failure = Some(error);
                            self.stage = Stage::Broken { held: Some(device), error };
                        },
                    },
                }
                self.pending()
            },
            (Stage::Negotiating { device }, Event::FormatSet { result, format }) => {
                match result.attempt() {
                    Attempt::Interrupted => {
                        self.stage = Stage::Negotiating { device };
                    },
                    Attempt::Settled(outcome) => match negotiated(outcome, format) {
                        Ok(format) => {
                            let allocation = Allocation::new(&device, BUFFER_COUNT);
                            self.stage = Stage::Allocating { device, format, allocation };
                        },
                        Err(error) => {
                            self.failure = Some(error);
                            self.stage = Stage::Broken { held: Some(device), error };
                        },
                    },
                }
                self.pending()
            },
            (Stage::Allocating { device, format, allocation }, _) => {
                let mut allocation = allocation;
                allocation.resume(event);
                self.allocated(device, format, allocation);
                self.pending()
            },
            (Stage::Capturing { session }, _) => {
                let mut session = session;
                let step = session.resume(event);
                self.stage = Stage::Capturing { session };
                step
            },
            (Stage::Closing { device }, Event::DeviceClosed { result }) => {
                let mut device = device;
                device.close();
                self.close_failed = result.failed();
                self.stage = Stage::Closed;
                Step::Complete
            },
            (stage, _) => {
                self.stage = stage;
                self.pending()
            },
        }
    }

    /// Begins to retrieve a frame; see [`CaptureSession::next_frame`].
    pub fn next_frame(&mut self) -> (step: Step)
        requires
            old(self)@.wf(),
            old(self)@.can_retrieve(),
        ensures
            final(self)@ == old(self)@.next_frame(),
            step == final(self)@.pending(),
            final(self)@.wf(),
    {
        let stage = self.take_stage();
        match stage {
            Stage::Capturing { session } => {
                let mut session = session;
                let step = session.next_frame();
                self.stage = Stage::Capturing { session };
                step
            },
            stage => {
                self.stage = stage;
                self.pending()
            },
        }
    }

    /// Begins to stop the capture; see [`CaptureSession::stop`].
    pub fn stop(&mut self) -> (step: Step)
        requires
            old(self)@.wf(),
            old(self)@.can_retrieve(),
        ensures
            final(self)@ == old(self)@.stop(),
            step == final(self)@.pending(),
            final(self)@.wf(),
    {
        let stage = self.take_stage();
        match stage {
            Stage::Capturing { session } => {
                let mut session = session;
                let step = session.stop();
                self.stage = Stage::Capturing { session };
                step
            },
            stage => {
                self.stage = stage;
                self.pending()
            },
        }
    }

    /// Begins to give back whatever the camera holds, at whatever point of
    /// its life. The operation ends with `Complete` and the camera closed.
    /// No step is left out because an earlier one failed; what failed is
    /// found among the faults.
    pub fn teardown(&mut self) -> (step: Step)
        requires
            old(self)@.wf(),
        ensures
            final(self)@ == old(self)@.teardown().0,
            step == old(self)@.teardown().1,
            final(self)@.wf(),
    {
        let stage = self.take_stage();
        match stage {
            Stage::Opening => {
                self.stage = Stage::Closed;
                Step::Complete
            },
            Stage::Probing { device } => {
                self.stage = Stage::Closing { device };
                self.pending()
            },
            Stage::Negotiating { device } => {
                self.stage = Stage::Closing { device };
                self.pending()
            },
            Stage::Allocating { device, .. } => {
                self.stage = Stage::Closing { device };
                self.pending()
            },
            Stage::Capturing { session } => {
                let mut session = session;
                let step = session.teardown();
                self.stage = Stage::Capturing { session };
                step
            },
            Stage::Broken { held: Some(device), .. } => {
                self.stage = Stage::Closing { device };
                self.pending()
            },
            Stage::Broken { held: None, .. } => {
                self.stage = Stage::Closed;
                Step::Complete
            },
            Stage::Closed => {
                self.stage = Stage::Closed;
                Step::Complete
            },
            stage => {
                self.stage = stage;
                self.pending()
            },
        }
    }
}

} // verus!
