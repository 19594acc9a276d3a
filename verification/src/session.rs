//! The capture session: the state machine between the device and the
//! frames.
//!
//! A session owns the device handle and the buffer pool. It is made idle,
//! with the format agreed and the buffers mapped. [`CaptureSession::start`]
//! submits every buffer and switches streaming on.
//! [`CaptureSession::next_frame`] retrieves one frame: it asks the device
//! for a filled buffer, waits for readiness where the device has none, and
//! submits the buffer again before it yields the frame.
//! [`CaptureSession::stop`] switches streaming off, and
//! [`CaptureSession::teardown`] gives everything back: it stops the stream
//! if it runs, unmaps every buffer and closes the device, and takes each
//! of these steps whatever the ones before it came to.

use crate::device::{Attempt, ControlOutcome, DeviceHandle, RawResult, EAGAIN, EINTR, EINVAL};
use crate::error::Error;
use crate::format::CaptureFormat;
use crate::pool::{
    failures, lemma_release_progress, unmappings, BufferPool, BufferState, MappedBuffer, PoolView,
};
use crate::protocol::{Action, Event, Frame, Step};
use vstd::prelude::*;

verus! {

/// Where a session stands in its life.
#[derive(Clone, Copy, Debug, PartialEq, Eq, Structural)]
pub enum SessionState {
    /// The device is open, the format is set and the buffers are mapped;
    /// the device does not stream.
    Idle,
    /// The device streams.
    Streaming,
    /// The device has been told to stop. What the session holds can still
    /// be released.
    Stopped,
    /// Everything is released.
    Closed,
}

/// What follows once streaming has been switched off.
#[derive(Clone, Copy, Debug, PartialEq, Eq, Structural)]
pub enum AfterStop {
    /// Nothing: the stop was asked for.
    Rest,
    /// The report of the retrieval that failed with this error number.
    Fail { code: i32 },
    /// The release of the buffers and of the device.
    Release,
}

/// What a session is in the middle of.
#[derive(Clone, Copy, Debug, PartialEq, Eq, Structural)]
pub enum Activity {
    /// Nothing.
    Resting,
    /// Starting: buffer `index` is being submitted, those before it are.
    Submitting { index: u32 },
    /// Starting: every buffer is submitted and streaming is being switched
    /// on.
    StartingStream,
    /// Retrieving: the device is being asked for a filled buffer.
    Retrieving,
    /// Retrieving: the device had no buffer to give and the session waits
    /// to hear that it has.
    Suspended,
    /// Retrieving: the buffer of `frame` is being submitted again.
    Resubmitting { frame: Frame },
    /// Streaming is being switched off.
    StoppingStream { next: AfterStop },
    /// The buffers are being unmapped.
    Releasing,
    /// The device is being closed.
    Closing,
}

/// A session as the contracts see it.
#[verifier::ext_equal]
pub struct SessionView {
    pub device: DeviceHandle,
    pub format: CaptureFormat,
    pub pool: PoolView,
    pub state: SessionState,
    pub activity: Activity,
    /// Whether streaming could not be switched off.
    pub stop_failed: bool,
    /// Whether the device could not be closed.
    pub close_failed: bool,
}

impl SessionView {
    /// What holds of every session.
    pub open spec fn wf(self) -> bool {
        &&& self.pool.wf()
        &&& self.pool.descriptor == self.device.descriptor
        &&& self.device.is_open <==> !(self.state is Closed)
        &&& self.stop_failed ==> self.state is Stopped || self.state is Closed
        &&& self.close_failed ==> self.state is Closed
        &&& self.state is Stopped ==> self.pool.all_in(BufferState::Free)
        &&& self.state is Closed ==> self.activity is Resting && self.pool.buffers.len() == 0
        &&& match self.activity {
            Activity::Resting => {
                &&& !self.pool.releasing
                &&& self.state is Closed || self.pool.buffers.len() > 0
                &&& self.state is Streaming ==> self.pool.all_in(BufferState::QueuedToDevice)
            },
            Activity::Submitting { index } => {
                &&& self.state is Idle
                &&& !self.pool.releasing
                &&& index < self.pool.buffers.len()
                &&& forall|i: int|
                    0 <= i < index ==> (#[trigger] self.pool.buffers[i]).state
                        == BufferState::QueuedToDevice
            },
            Activity::StartingStream => {
                &&& self.state is Idle
                &&& !self.pool.releasing
                &&& self.pool.buffers.len() > 0
                &&& self.pool.all_in(BufferState::QueuedToDevice)
            },
            Activity::Retrieving | Activity::Suspended => {
                &&& self.state is Streaming
                &&& !self.pool.releasing
                &&& self.pool.buffers.len() > 0
                &&& self.pool.all_in(BufferState::QueuedToDevice)
            },
            Activity::Resubmitting { frame } => {
                &&& self.state is Streaming
                &&& !self.pool.releasing
                &&& frame.index < self.pool.buffers.len()
                &&& self.pool.buffers[frame.index as int] == MappedBuffer {
                    index: frame.index,
                    base_address: frame.base_address,
                    length: frame.length,
                    state: BufferState::FilledByDevice,
                }
                &&& self.pool.others_in(frame.index as int, BufferState::QueuedToDevice)
            },
            Activity::StoppingStream { .. } => {
                &&& self.state is Streaming
                &&& !self.pool.releasing
                &&& self.pool.buffers.len() > 0
            },
            Activity::Releasing => {
                &&& self.state is Idle || self.state is Stopped
                &&& self.pool.releasing
            },
            Activity::Closing => {
                &&& self.state is Idle || self.state is Stopped
                &&& !self.pool.releasing
                &&& self.pool.buffers.len() == 0
            },
        }
    }

    /// The failures of the release steps so far, in the order of the
    /// steps: the stop, the unmappings, the close.
    pub open spec fn faults(self) -> Seq<Error> {
        (if self.stop_failed {
            seq![Error::StreamStopFailed]
        } else {
            Seq::empty()
        }) + Seq::new(self.pool.unmap_failures, |i: int| Error::UnmapFailed) + (if self.close_failed {
            seq![Error::CloseFailed]
        } else {
            Seq::empty()
        })
    }

    /// The session made of an open device, the format agreed with it and
    /// its buffers.
    pub open spec fn begin(device: DeviceHandle, format: CaptureFormat, pool: PoolView) -> SessionView {
        SessionView {
            device,
            format,
            pool,
            state: SessionState::Idle,
            activity: Activity::Resting,
            stop_failed: false,
            close_failed: false,
        }
    }

    /// The action that submits buffer `index`.
    pub open spec fn queue(self, index: u32) -> Action {
        Action::QueueBuffer { descriptor: self.device.descriptor, index }
    }

    /// The action that switches streaming off.
    pub open spec fn stream_off(self) -> Action {
        Action::StreamOff { descriptor: self.device.descriptor }
    }

    /// What the session asks for as it stands: the action that the
    /// operation in progress waits for, or nothing.
    pub open spec fn pending(self) -> Step {
        match self.activity {
            Activity::Resting => Step::Idle,
            Activity::Submitting { index } => Step::Perform(self.queue(index)),
            Activity::StartingStream => Step::Perform(
                Action::StreamOn { descriptor: self.device.descriptor },
            ),
            Activity::Retrieving => Step::Perform(
                Action::DequeueBuffer { descriptor: self.device.descriptor },
            ),
            Activity::Suspended => Step::Perform(
                Action::AwaitReadable { descriptor: self.device.descriptor },
            ),
            Activity::Resubmitting { frame } => Step::Perform(self.queue(frame.index)),
            Activity::StoppingStream { .. } => Step::Perform(self.stream_off()),
            Activity::Releasing => self.pool.pending(),
            Activity::Closing => Step::Perform(
                Action::CloseDevice { descriptor: self.device.descriptor },
            ),
        }
    }

    /// Whether a start may be asked for: the session is idle and at rest.
    pub open spec fn can_start(self) -> bool {
        self.state is Idle && self.activity is Resting
    }

    /// Whether a frame, or a stop, may be asked for: the device streams
    /// and no call to it is under way. A retrieval that waits for
    /// readiness may be taken up again or given up for a stop.
    pub open spec fn can_retrieve(self) -> bool {
        self.state is Streaming && (self.activity is Resting || self.activity is Suspended)
    }

    /// The session once a start is asked for: it submits its first buffer.
    pub open spec fn start(self) -> SessionView {
        SessionView { activity: Activity::Submitting { index: 0 }, ..self }
    }

    /// The session once a frame is asked for: it asks the device for a
    /// filled buffer.
    pub open spec fn next_frame(self) -> SessionView {
        SessionView { activity: Activity::Retrieving, ..self }
    }

    /// The session once a stop is asked for: it switches streaming off.
    pub open spec fn stop(self) -> SessionView {
        SessionView { activity: Activity::StoppingStream { next: AfterStop::Rest }, ..self }
    }

    /// The session once a retrieval failed with error number `code`: it
    /// switches streaming off and reports the failure after that.
    pub open spec fn abort(self, code: i32) -> SessionView {
        SessionView { activity: Activity::StoppingStream { next: AfterStop::Fail { code } }, ..self }
    }

    /// The session once its buffers are to be unmapped: it unmaps the last,
    /// or, where none is mapped, closes the device.
    pub open spec fn release(self) -> SessionView {
        let pool = self.pool.release().0;
        SessionView {
            pool,
            activity: if pool.releasing {
                Activity::Releasing
            } else {
                Activity::Closing
            },
            ..self
        }
    }

    /// The session once a teardown is asked for, and what it says then. A
    /// closed session has nothing to release. A session that streams
    /// switches streaming off first. Any other unmaps its buffers and
    /// closes the device. Whatever was in progress is given up.
    pub open spec fn teardown(self) -> (SessionView, Step) {
        if self.state is Closed {
            (self, Step::Complete)
        } else if self.state is Streaming {
            let next = SessionView {
                activity: Activity::StoppingStream { next: AfterStop::Release },
                ..self
            };
            (next, next.pending())
        } else {
            (self.release(), self.release().pending())
        }
    }

    /// The session after buffer `index` was submitted during a start: the
    /// next buffer is submitted, or, after the last, streaming is switched
    /// on.
    pub open spec fn submitted(self, index: u32) -> SessionView {
        SessionView {
            pool: self.pool.with_state(index as int, BufferState::QueuedToDevice),
            activity: if index + 1 < self.pool.buffers.len() {
                Activity::Submitting { index: (index + 1) as u32 }
            } else {
                Activity::StartingStream
            },
            ..self
        }
    }

    /// The frame in buffer `index`, of which the device filled
    /// `bytes_used` bytes.
    pub open spec fn frame(self, index: u32, bytes_used: u32) -> Frame {
        Frame {
            index,
            base_address: self.pool.buffers[index as int].base_address,
            length: self.pool.buffers[index as int].length,
            bytes_used,
        }
    }

    /// The session after the device gave back buffer `index`: the buffer
    /// is filled and is being submitted again.
    pub open spec fn filled(self, index: u32, bytes_used: u32) -> SessionView {
        SessionView {
            pool: self.pool.with_state(index as int, BufferState::FilledByDevice),
            activity: Activity::Resubmitting { frame: self.frame(index, bytes_used) },
            ..self
        }
    }

    /// The session after streaming was switched off, or could not be: it
    /// has stopped either way, and every buffer is back with the process.
    pub open spec fn stopped(self, failed: bool) -> SessionView {
        SessionView {
            pool: self.pool.with_all(BufferState::Free),
            state: SessionState::Stopped,
            activity: Activity::Resting,
            stop_failed: failed,
            ..self
        }
    }

    /// The session after the device was closed, or could not be: it is
    /// closed either way.
    pub open spec fn closed(self, failed: bool) -> SessionView {
        SessionView {
            device: DeviceHandle { descriptor: self.device.descriptor, is_open: false },
            state: SessionState::Closed,
            activity: Activity::Resting,
            close_failed: failed,
            ..self
        }
    }

    /// The session after `event`, and what it says then. An event that
    /// does not answer the action that the session waits for, or that
    /// tells of an interruption, changes nothing: the session says again
    /// what it waits for.
    pub open spec fn resume(self, event: Event) -> (SessionView, Step) {
        if !self.pending().settled_by(&event) {
            (self, self.pending())
        } else {
            match (self.activity, event) {
                (Activity::Submitting { index }, Event::BufferQueued { result }) => {
                    if result.succeeded() {
                        (self.submitted(index), self.submitted(index).pending())
                    } else {
                        (
                            SessionView { activity: Activity::Resting, ..self },
                            Step::Failed(Error::StreamStartFailed),
                        )
                    }
                },
                (Activity::StartingStream, Event::StreamSwitchedOn { result }) => {
                    if result.succeeded() {
                        (
                            SessionView {
                                state: SessionState::Streaming,
                                activity: Activity::Resting,
                                ..self
                            },
                            Step::Complete,
                        )
                    } else {
                        (
                            SessionView { activity: Activity::Resting, ..self },
                            Step::Failed(Error::StreamStartFailed),
                        )
                    }
                },
                (Activity::Retrieving, Event::BufferDequeued { result, index, bytes_used }) => {
                    let next = match result.attempt() {
                        Attempt::Settled(ControlOutcome::Done) => {
                            if index < self.pool.buffers.len() {
                                self.filled(index, bytes_used)
                            } else {
                                self.abort(EINVAL)
                            }
                        },
                        Attempt::Settled(ControlOutcome::Retry) => SessionView {
                            activity: Activity::Suspended,
                            ..self
                        },
                        _ => self.abort(result.errno),
                    };
                    (next, next.pending())
                },
                (Activity::Suspended, Event::Readable) => (
                    self.next_frame(),
                    self.next_frame().pending(),
                ),
                (Activity::Resubmitting { frame }, Event::BufferQueued { result }) => {
                    if result.succeeded() {
                        (
                            SessionView {
                                pool: self.pool.with_state(
                                    frame.index as int,
                                    BufferState::QueuedToDevice,
                                ),
                                activity: Activity::Resting,
                                ..self
                            },
                            Step::Yield(frame),
                        )
                    } else {
                        (self.abort(result.errno), self.abort(result.errno).pending())
                    }
                },
                (Activity::StoppingStream { next }, Event::StreamSwitchedOff { result }) => {
                    let stopped = self.stopped(result.failed());
                    match next {
                        AfterStop::Rest => (stopped, Step::Complete),
                        AfterStop::Fail { code } => (
                            stopped,
                            Step::Failed(Error::FrameRetrievalFailed { code }),
                        ),
                        AfterStop::Release => (stopped.release(), stopped.release().pending()),
                    }
                },
                (Activity::Releasing, _) => {
                    let next = SessionView { pool: self.pool.resume(event).0, ..self };
                    if next.pool.releasing {
                        (next, next.pending())
                    } else {
                        (next.release(), next.release().pending())
                    }
                },
                (Activity::Closing, Event::DeviceClosed { result }) => (
                    self.closed(result.failed()),
                    Step::Complete,
                ),
                _ => (self, self.pending()),
            }
        }
    }
}

impl SessionView {
    /// The session after the events of `events` in turn, and what it says
    /// at the end.
    pub open spec fn run(self, events: Seq<Event>) -> (SessionView, Step)
        decreases events.len(),
    {
        if events.len() == 0 {
            (self, self.pending())
        } else {
            self.run(events.drop_last()).0.resume(events.last())
        }
    }
}

/// Whatever is asked of a session and whatever a device answers, the
/// session stays as [`SessionView::wf`] says, and its format is the one it
/// was made with.
pub proof fn law_session_stays_well_formed(session: SessionView, event: Event)
    requires
        session.wf(),
    ensures
        session.resume(event).0.wf(),
        session.teardown().0.wf(),
        session.can_start() ==> session.start().wf(),
        session.can_retrieve() ==> session.next_frame().wf() && session.stop().wf(),
        session.resume(event).0.format == session.format,
        session.teardown().0.format == session.format,
        session.resume(event).0.device.descriptor == session.device.descriptor,
{
}


/// A request that a signal interrupts is made again, and that is all: any
/// number of interruptions leaves the session as it was, still asking for
/// the same action, and the answer that comes in the end counts as if it
/// had come at once.
pub proof fn law_interruptions_change_nothing(
    session: SessionView,
    interruptions: Seq<Event>,
    answer: Event,
)
    requires
        forall|i: int| 0 <= i < interruptions.len() ==> (#[trigger] interruptions[i]).interrupted(),
    ensures
        session.run(interruptions) == (session, session.pending()),
        session.run(interruptions.push(answer)) == session.resume(answer),
    decreases interruptions.len(),
{
    if interruptions.len() > 0 {
        law_interruptions_change_nothing(session, interruptions.drop_last(), interruptions.last());
        assert(interruptions.drop_last().push(interruptions.last()) =~= interruptions);
    }
    assert(interruptions.push(answer).drop_last() =~= interruptions);
}

/// The events of `count` submissions that the device took.
pub open spec fn acknowledgements(count: nat) -> Seq<Event> {
    Seq::new(count, |i: int| Event::BufferQueued { result: RawResult { ret: 0, errno: 0 } })
}

/// Where a start stands after the device took the first `k` buffers.
proof fn lemma_start_progress(session: SessionView, k: int)
    requires
        session.wf(),
        session.can_start(),
        0 <= k <= session.pool.buffers.len(),
    ensures
        session.start().run(acknowledgements(k as nat)) == ({
            let next = SessionView {
                pool: PoolView {
                    buffers: Seq::new(
                        session.pool.buffers.len(),
                        |i: int|
                            if i < k {
                                session.pool.buffers[i].in_state(BufferState::QueuedToDevice)
                            } else {
                                session.pool.buffers[i]
                            },
                    ),
                    ..session.pool
                },
                activity: if k < session.pool.buffers.len() {
                    Activity::Submitting { index: k as u32 }
                } else {
                    Activity::StartingStream
                },
                ..session
            };
            (next, next.pending())
        }),
    decreases k,
{
    if k > 0 {
        lemma_start_progress(session, k - 1);
        assert(acknowledgements(k as nat).drop_last() =~= acknowledgements((k - 1) as nat));
    }
}

/// A start submits the buffers in the order of their indices and then
/// switches streaming on. Where the device takes all of it, the start is
/// complete, the session streams and every buffer is with the device.
pub proof fn law_start_submits_every_buffer(session: SessionView)
    requires
        session.wf(),
        session.can_start(),
    ensures
        forall|k: int|
            0 <= k < session.pool.buffers.len() ==> (#[trigger] session.start().run(
                acknowledgements(k as nat),
            )).1 == Step::Perform(session.queue(k as u32)),
        session.start().run(acknowledgements(session.pool.buffers.len())).1 == Step::Perform(
            Action::StreamOn { descriptor: session.device.descriptor },
        ),
        session.start().run(
            acknowledgements(session.pool.buffers.len()).push(
                Event::StreamSwitchedOn { result: RawResult { ret: 0, errno: 0 } },
            ),
        ) == ((
            SessionView {
                pool: session.pool.with_all(BufferState::QueuedToDevice),
                state: SessionState::Streaming,
                ..session
            },
            Step::Complete,
        )),
{
    let n = session.pool.buffers.len();
    assert forall|k: int| 0 <= k < n implies (#[trigger] session.start().run(
        acknowledgements(k as nat),
    )).1 == Step::Perform(session.queue(k as u32)) by {
        lemma_start_progress(session, k);
    }
    lemma_start_progress(session, n as int);
    let events = acknowledgements(n).push(
        Event::StreamSwitchedOn { result: RawResult { ret: 0, errno: 0 } },
    );
    assert(events.drop_last() =~= acknowledgements(n));
}

/// A start that the device refuses, at a submission or at the switch,
/// fails with `StreamStartFailed` and leaves the session idle, with the
/// buffers that were submitted still with the device.
pub proof fn law_refused_start_leaves_session_idle(session: SessionView, event: Event)
    requires
        session.wf(),
        session.activity is Submitting || session.activity is StartingStream,
        session.pending().settled_by(&event),
        event.control_result() matches Some(result) && result.failed(),
    ensures
        session.resume(event) == ((
            SessionView { activity: Activity::Resting, ..session },
            Step::Failed(Error::StreamStartFailed),
        )),
        session.resume(event).0.state is Idle,
{
}

/// The cycle of one frame. The session asks the device for a filled
/// buffer. When the device gives buffer `index`, that buffer is filled and
/// every other stays with the device, and the session submits the buffer
/// again. When the device has taken it back, the session is as it was
/// before the frame was asked for, every buffer with the device, and
/// yields the frame: the index, where and how long the buffer is, and how
/// many bytes the device says it used.
pub proof fn law_frame_cycle(session: SessionView, index: u32, bytes_used: u32)
    requires
        session.wf(),
        session.can_retrieve(),
        index < session.pool.buffers.len(),
    ensures
        session.next_frame().pending() == Step::Perform(
            Action::DequeueBuffer { descriptor: session.device.descriptor },
        ),
        ({
            let given = session.next_frame().resume(
                Event::BufferDequeued {
                    result: RawResult { ret: 0, errno: 0 },
                    index,
                    bytes_used,
                },
            );
            let taken = given.0.resume(
                Event::BufferQueued { result: RawResult { ret: 0, errno: 0 } },
            );
            &&& given.1 == Step::Perform(session.queue(index))
            &&& given.0.pool.buffers[index as int].state == BufferState::FilledByDevice
            &&& given.0.pool.others_in(index as int, BufferState::QueuedToDevice)
            &&& taken.0 == (SessionView { activity: Activity::Resting, ..session })
            &&& taken.0.pool.all_in(BufferState::QueuedToDevice)
            &&& taken.1 == Step::Yield(
                Frame {
                    index,
                    base_address: session.pool.buffers[index as int].base_address,
                    length: session.pool.buffers[index as int].length,
                    bytes_used,
                },
            )
        }),
{
}

/// A device that has no frame yet makes the retrieval wait: the session
/// asks to be woken when the device is readable, and once it is, asks the
/// device for a filled buffer again. Nothing else has changed.
pub proof fn law_not_ready_suspends_and_retries(session: SessionView, index: u32, bytes_used: u32)
    requires
        session.wf(),
        session.can_retrieve(),
    ensures
        session.next_frame().resume(
            Event::BufferDequeued {
                result: RawResult { ret: -1i32, errno: EAGAIN },
                index,
                bytes_used,
            },
        ) == ((
            SessionView { activity: Activity::Suspended, ..session },
            Step::Perform(Action::AwaitReadable { descriptor: session.device.descriptor }),
        )),
        (SessionView { activity: Activity::Suspended, ..session }).resume(Event::Readable) == ((
            session.next_frame(),
            Step::Perform(Action::DequeueBuffer { descriptor: session.device.descriptor }),
        )),
{
}

/// A retrieval that the device refuses ends the capture: the session
/// switches streaming off, is stopped whatever the switch comes to, and
/// reports `FrameRetrievalFailed` with the error number of the refusal. No
/// frame can be asked of it again.
pub proof fn law_refused_retrieval_stops_session(
    session: SessionView,
    refusal: RawResult,
    index: u32,
    bytes_used: u32,
    stop: RawResult,
)
    requires
        session.wf(),
        session.can_retrieve(),
        refusal.failed(),
        refusal.errno != EINTR,
        refusal.errno != EAGAIN,
        !stop.interrupted(),
    ensures
        ({
            let refused = session.next_frame().resume(
                Event::BufferDequeued { result: refusal, index, bytes_used },
            );
            let stopped = refused.0.resume(Event::StreamSwitchedOff { result: stop });
            &&& refused.1 == Step::Perform(session.stream_off())
            &&& stopped.1 == Step::Failed(Error::FrameRetrievalFailed { code: refusal.errno })
            &&& stopped.0 == session.stopped(stop.failed())
            &&& stopped.0.state is Stopped
            &&& !stopped.0.can_retrieve()
        }),
{
}

/// A stop ends with the session stopped whether the device took the
/// switch or not, and a retrieval that waits for readiness does not stand
/// in its way: a session that is suspended may be stopped, and torn down,
/// without the device ever becoming readable.
pub proof fn law_stop_does_not_wait(session: SessionView, stop: RawResult)
    requires
        session.wf(),
        session.state is Streaming,
        session.activity is Suspended || session.activity is Resting,
        !stop.interrupted(),
    ensures
        session.can_retrieve(),
        session.stop().pending() == Step::Perform(session.stream_off()),
        session.stop().resume(Event::StreamSwitchedOff { result: stop }) == ((
            session.stopped(stop.failed()),
            Step::Complete,
        )),
        session.stop().resume(Event::StreamSwitchedOff { result: stop }).0.state is Stopped,
        session.stop().resume(Event::StreamSwitchedOff { result: stop }).0.faults() == (
        if stop.failed() {
            seq![Error::StreamStopFailed]
        } else {
            Seq::<Error>::empty()
        }),
        session.teardown().1 == Step::Perform(session.stream_off()),
{
}

impl SessionView {
    /// What the device is asked to do by a teardown of this session, in
    /// turn: to switch streaming off, if the session streams; to unmap each
    /// buffer, the last first; to close.
    pub open spec fn teardown_plan(self) -> Seq<Action> {
        (if self.state is Streaming {
            seq![self.stream_off()]
        } else {
            Seq::empty()
        }) + Seq::new(
            self.pool.buffers.len(),
            |k: int| self.pool.buffers[self.pool.buffers.len() - 1 - k].unmap(),
        ) + seq![Action::CloseDevice { descriptor: self.device.descriptor }]
    }

    /// The events that answer the actions of a teardown of this session,
    /// given what each of them came to.
    pub open spec fn teardown_answers(
        self,
        stop: RawResult,
        unmaps: Seq<RawResult>,
        close: RawResult,
    ) -> Seq<Event> {
        (if self.state is Streaming {
            seq![Event::StreamSwitchedOff { result: stop }]
        } else {
            Seq::empty()
        }) + unmappings(unmaps) + seq![Event::DeviceClosed { result: close }]
    }

    /// The failures that a teardown of this session records, given what
    /// each of its steps came to.
    pub open spec fn teardown_faults(
        self,
        stop: RawResult,
        unmaps: Seq<RawResult>,
        close: RawResult,
    ) -> Seq<Error> {
        (if (if self.state is Streaming {
            stop.failed()
        } else {
            self.stop_failed
        }) {
            seq![Error::StreamStopFailed]
        } else {
            Seq::empty()
        }) + Seq::new(
            self.pool.unmap_failures + failures(unmaps),
            |i: int| Error::UnmapFailed,
        ) + (if close.failed() {
            seq![Error::CloseFailed]
        } else {
            Seq::empty()
        })
    }
}

/// What a run over an event and more events comes to: the first event is
/// taken, then the others.
proof fn lemma_run_after_first(session: SessionView, first: Event, rest: Seq<Event>)
    ensures
        session.run(seq![first] + rest) == (if rest.len() == 0 {
            session.resume(first)
        } else {
            session.resume(first).0.run(rest)
        }),
    decreases rest.len(),
{
    let events = seq![first] + rest;
    if rest.len() == 0 {
        assert(session.run(events.drop_last()).0 == session);
    } else {
        lemma_run_after_first(session, first, rest.drop_last());
        assert(events.drop_last() =~= seq![first] + rest.drop_last());
        if rest.len() == 1 {
            assert(session.resume(first).0.run(rest.drop_last()).0 == session.resume(first).0);
        }
    }
}

/// Where the release of a session that does not stream stands after the
/// first `k` unmappings have been answered.
proof fn lemma_release_phase(session: SessionView, results: Seq<RawResult>, k: int)
    requires
        session.wf(),
        session.state is Idle || session.state is Stopped,
        results.len() == session.pool.buffers.len(),
        0 <= k <= results.len(),
    ensures
        session.release().run(unmappings(results.take(k))).0 == (SessionView {
            pool: PoolView {
                buffers: session.pool.buffers.take(session.pool.buffers.len() - k),
                releasing: k < session.pool.buffers.len(),
                unmap_failures: session.pool.unmap_failures + failures(results.take(k)),
                ..session.pool
            },
            activity: if k < session.pool.buffers.len() {
                Activity::Releasing
            } else {
                Activity::Closing
            },
            ..session
        }),
        session.release().run(unmappings(results.take(k))).1 == (if k
            < session.pool.buffers.len() {
            Step::Perform(session.pool.buffers[session.pool.buffers.len() - 1 - k].unmap())
        } else {
            Step::Perform(Action::CloseDevice { descriptor: session.device.descriptor })
        }),
        session.release().run(unmappings(results.take(k))).0.wf(),
    decreases k,
{
    if k > 0 {
        lemma_release_phase(session, results, k - 1);
        lemma_release_progress(session.pool, results, k - 1);
        lemma_release_progress(session.pool, results, k);
        assert(unmappings(results.take(k)).drop_last() =~= unmappings(results.take(k - 1)));
    }
}

/// A teardown takes every one of its steps, in their order, whatever the
/// steps before came to: streaming is switched off if the session
/// streams, each buffer is unmapped, the last first, and the device is
/// closed after the last unmapping. At the end the teardown is complete,
/// the session is closed and holds nothing, and its faults are the
/// failures among the steps, each one on its own, in the order of the
/// steps.
pub proof fn law_teardown_takes_every_step(
    session: SessionView,
    stop: RawResult,
    unmaps: Seq<RawResult>,
    close: RawResult,
)
    requires
        session.wf(),
        !(session.state is Closed),
        unmaps.len() == session.pool.buffers.len(),
        !stop.interrupted(),
    ensures
        session.teardown_answers(stop, unmaps, close).len() == session.teardown_plan().len(),
        forall|k: int|
            0 <= k < session.teardown_plan().len() ==> (#[trigger] session.teardown().0.run(
                session.teardown_answers(stop, unmaps, close).take(k),
            )).1 == Step::Perform(session.teardown_plan()[k]),
        session.teardown().0.run(session.teardown_answers(stop, unmaps, close)).1
            == Step::Complete,
        session.teardown().0.run(session.teardown_answers(stop, unmaps, close)).0.state is Closed,
        !session.teardown().0.run(
            session.teardown_answers(stop, unmaps, close),
        ).0.device.is_open,
        session.teardown().0.run(
            session.teardown_answers(stop, unmaps, close),
        ).0.pool.buffers.len() == 0,
        session.teardown().0.run(session.teardown_answers(stop, unmaps, close)).0.faults()
            == session.teardown_faults(stop, unmaps, close),
        session.teardown().0.run(session.teardown_answers(stop, unmaps, close)).0.wf(),
{
    let n = session.pool.buffers.len() as int;
    let answers = session.teardown_answers(stop, unmaps, close);
    let plan = session.teardown_plan();
    let torn = session.teardown().0;
    assert(unmaps.take(n) =~= unmaps);
    if session.state is Streaming {
        // The stop comes first; the release of the stopped session follows it.
        let off = Event::StreamSwitchedOff { result: stop };
        let stopped = session.stopped(stop.failed());
        assert forall|k: int| 0 <= k < plan.len() implies (#[trigger] torn.run(answers.take(k))).1
            == Step::Perform(plan[k]) by {
            if k > 0 {
                let rest = unmappings(unmaps.take(k - 1));
                assert(answers.take(k) =~= seq![off] + rest);
                lemma_run_after_first(torn, off, rest);
                lemma_release_phase(stopped, unmaps, k - 1);
            }
        }
        let rest = unmappings(unmaps) + seq![Event::DeviceClosed { result: close }];
        assert(answers =~= seq![off] + rest);
        lemma_run_after_first(torn, off, rest);
        assert(rest.drop_last() =~= unmappings(unmaps));
        lemma_release_phase(stopped, unmaps, n);
    } else {
        assert forall|k: int| 0 <= k < plan.len() implies (#[trigger] torn.run(answers.take(k))).1
            == Step::Perform(plan[k]) by {
            assert(answers.take(k) =~= unmappings(unmaps.take(k)));
            lemma_release_phase(session, unmaps, k);
        }
        assert(answers.drop_last() =~= unmappings(unmaps));
        lemma_release_phase(session, unmaps, n);
    }
}

/// A retrieval that waits for a device that never becomes readable does
/// not hold a teardown up. The session may be torn down as it is, the
/// teardown asks for nothing but the stop, the unmappings and the close,
/// and once these are answered the session is closed: no answer that the
/// teardown takes is a word of the device being readable.
pub proof fn law_suspended_session_is_torn_down(
    session: SessionView,
    stop: RawResult,
    unmaps: Seq<RawResult>,
    close: RawResult,
)
    requires
        session.wf(),
        session.activity is Suspended,
        unmaps.len() == session.pool.buffers.len(),
        !stop.interrupted(),
    ensures
        session.state is Streaming,
        session.teardown().1 == Step::Perform(session.stream_off()),
        forall|k: int|
            0 <= k < session.teardown_answers(stop, unmaps, close).len() ==> !(
            #[trigger] session.teardown_answers(stop, unmaps, close)[k] is Readable),
        session.teardown().0.run(session.teardown_answers(stop, unmaps, close)).1
            == Step::Complete,
        session.teardown().0.run(session.teardown_answers(stop, unmaps, close)).0.state is Closed,
{
    law_teardown_takes_every_step(session, stop, unmaps, close);
}

/// Where the stop, the unmapping of the one buffer and the close of a
/// session that streams all fail, the teardown has still taken all three
/// steps, the session is closed, and each failure is a fault of its own.
pub proof fn law_three_failures_are_three_faults(
    session: SessionView,
    stop: RawResult,
    unmap: RawResult,
    close: RawResult,
)
    requires
        session.wf(),
        session.state is Streaming,
        session.pool.buffers.len() == 1,
        stop.failed() && !stop.interrupted(),
        unmap.failed(),
        close.failed(),
    ensures
        session.teardown_plan() == seq![
            session.stream_off(),
            session.pool.buffers[0].unmap(),
            Action::CloseDevice { descriptor: session.device.descriptor },
        ],
        session.teardown().0.run(session.teardown_answers(stop, seq![unmap], close)).0.state
            is Closed,
        session.teardown().0.run(session.teardown_answers(stop, seq![unmap], close)).0.faults()
            == seq![Error::StreamStopFailed, Error::UnmapFailed, Error::CloseFailed],
{
    law_teardown_takes_every_step(session, stop, seq![unmap], close);
    assert(failures(seq![unmap].drop_last()) == 0);
}

/// A closed session has nothing left to release: to tear it down again is
/// complete at once, changes nothing and asks nothing of the device, so
/// that no descriptor is closed twice.
pub proof fn law_closed_session_is_not_closed_again(session: SessionView, event: Event)
    requires
        session.wf(),
        session.state is Closed,
    ensures
        session.teardown() == (session, Step::Complete),
        session.resume(event) == (session, Step::Idle),
{
}

/// The order of a release is fixed by the state of the session: while the
/// device streams nothing is unmapped and nothing is closed, and the device
/// is closed only once no buffer is mapped.
pub proof fn law_release_keeps_its_order(session: SessionView)
    requires
        session.wf(),
    ensures
        session.pending() matches Step::Perform(Action::UnmapBuffer { .. }) ==> !(session.state
            is Streaming),
        session.pending() matches Step::Perform(Action::CloseDevice { .. }) ==> !(session.state
            is Streaming) && session.pool.buffers.len() == 0,
        session.state is Streaming && (session.activity is Resting || session.activity
            is Retrieving || session.activity is Suspended) ==> session.pool.buffers.len() > 0
            && session.pool.all_in(BufferState::QueuedToDevice),
{
}

/// A capture session.
#[derive(Debug)]
pub struct CaptureSession {
    device: DeviceHandle,
    format: CaptureFormat,
    pool: BufferPool,
    state: SessionState,
    activity: Activity,
    stop_failed: bool,
    close_failed: bool,
}

impl View for CaptureSession {
    type V = SessionView;

    closed spec fn view(&self) -> SessionView {
        SessionView {
            device: self.device,
            format: self.format,
            pool: self.pool@,
            state: self.state,
            activity: self.activity,
            stop_failed: self.stop_failed,
            close_failed: self.close_failed,
        }
    }
}

impl CaptureSession {
    /// The idle session over an open device, the format agreed with it and
    /// the buffers mapped from it, as [`BufferPool::is_fresh`] finds them.
    pub fn new(device: DeviceHandle, format: CaptureFormat, pool: BufferPool) -> (session:
        CaptureSession)
        requires
            device.is_open,
            pool@.wf(),
            pool@.fresh(),
            pool@.descriptor == device.descriptor,
        ensures
            session@ == SessionView::begin(device, format, pool@),
            session@.wf(),
    {
        CaptureSession {
            device,
            format,
            pool,
            state: SessionState::Idle,
            activity: Activity::Resting,
            stop_failed: false,
            close_failed: false,
        }
    }

    /// Where the session stands in its life.
    pub fn state(&self) -> (state: SessionState)
        ensures
            state == self@.state,
    {
        self.state
    }

    /// What the session is in the middle of.
    pub fn activity(&self) -> (activity: Activity)
        ensures
            activity == self@.activity,
    {
        self.activity
    }

    /// Whether the device streams.
    pub fn is_streaming(&self) -> (streaming: bool)
        ensures
            streaming == (self@.state is Streaming),
    {
        match self.state {
            SessionState::Streaming => true,
            _ => false,
        }
    }

    /// The format of the capture.
    pub fn format(&self) -> (format: CaptureFormat)
        ensures
            format == self@.format,
    {
        self.format
    }

    /// The device that the session captures from.
    pub fn device(&self) -> (device: &DeviceHandle)
        ensures
            *device == self@.device,
    {
        &self.device
    }

    /// The buffers of the session.
    pub fn pool(&self) -> (pool: &BufferPool)
        ensures
            pool@ == self@.pool,
    {
        &self.pool
    }

    /// Whether a start may be asked for.
    pub fn can_start(&self) -> (can: bool)
        ensures
            can == self@.can_start(),
    {
        match (self.state, self.activity) {
            (SessionState::Idle, Activity::Resting) => true,
            _ => false,
        }
    }

    /// Whether a frame, or a stop, may be asked for.
    pub fn can_retrieve(&self) -> (can: bool)
        ensures
            can == self@.can_retrieve(),
    {
        match (self.state, self.activity) {
            (SessionState::Streaming, Activity::Resting) => true,
            (SessionState::Streaming, Activity::Suspended) => true,
            _ => false,
        }
    }

    /// The failures of the release steps so far, in the order of the
    /// steps. None of them held the release up.
    pub fn faults(&self) -> (faults: Vec<Error>)
        requires
            self@.wf(),
        ensures
            faults@ == self@.faults(),
    {
        let mut faults: Vec<Error> = Vec::new();
        if self.stop_failed {
            faults.push(Error::StreamStopFailed);
        }
        let ghost head = faults@;
        let failures = self.pool.unmap_failures();
        let mut i: u32 = 0;
        while i < failures
            invariant
                i <= failures,
                faults@ == head + Seq::new(i as nat, |k: int| Error::UnmapFailed),
            decreases failures - i,
        {
            faults.push(Error::UnmapFailed);
            i = i + 1;
        }
        if self.close_failed {
            faults.push(Error::CloseFailed);
        }
        faults
    }

    /// What the session asks for as it stands: the action that the
    /// operation in progress waits for, or `Idle`.
    pub fn pending(&self) -> (step: Step)
        requires
            self@.wf(),
        ensures
            step == self@.pending(),
    {
        let descriptor = self.device.descriptor;
        match self.activity {
            Activity::Resting => Step::Idle,
            Activity::Submitting { index } => Step::Perform(
                Action::QueueBuffer { descriptor, index },
            ),
            Activity::StartingStream => Step::Perform(Action::StreamOn { descriptor }),
            Activity::Retrieving => Step::Perform(Action::DequeueBuffer { descriptor }),
            Activity::Suspended => Step::Perform(Action::AwaitReadable { descriptor }),
            Activity::Resubmitting { frame } => Step::Perform(
                Action::QueueBuffer { descriptor, index: frame.index },
            ),
            Activity::StoppingStream { .. } => Step::Perform(Action::StreamOff { descriptor }),
            Activity::Releasing => self.pool.pending(),
            Activity::Closing => Step::Perform(Action::CloseDevice { descriptor }),
        }
    }

    /// Begins to start the capture: every buffer of the pool is submitted
    /// to the device, then streaming is switched on. The operation ends
    /// with `Complete` and the session streaming, or, where a submission
    /// or the switch is refused, with `StreamStartFailed` and the session
    /// idle as before, the buffers that were submitted still with the
    /// device.
    pub fn start(&mut self) -> (step: Step)
        requires
            old(self)@.wf(),
            old(self)@.can_start(),
        ensures
            final(self)@ == old(self)@.start(),
            step == final(self)@.pending(),
            final(self)@.wf(),
    {
        self.activity = Activity::Submitting { index: 0 };
        self.pending()
    }

    /// Begins to retrieve a frame. Where the device has none yet, the
    /// session asks to be woken when the device is readable and then asks
    /// the device again, as often as it takes. The operation ends with the
    /// frame, its buffer submitted to the device again, or with
    /// `FrameRetrievalFailed` and the session stopped.
    pub fn next_frame(&mut self) -> (step: Step)
        requires
            old(self)@.wf(),
            old(self)@.can_retrieve(),
        ensures
            final(self)@ == old(self)@.next_frame(),
            step == final(self)@.pending(),
            final(self)@.wf(),
    {
        self.activity = Activity::Retrieving;
        self.pending()
    }

    /// Begins to stop the capture. The operation ends with `Complete` and
    /// the session stopped, whether the device took the switch or not; a
    /// switch that failed is found among the faults.
    pub fn stop(&mut self) -> (step: Step)
        requires
            old(self)@.wf(),
            old(self)@.can_retrieve(),
        ensures
            final(self)@ == old(self)@.stop(),
            step == final(self)@.pending(),
            final(self)@.wf(),
    {
        self.activity = Activity::StoppingStream { next: AfterStop::Rest };
        self.pending()
    }

    fn begin_release(&mut self) -> (step: Step)
        requires
            old(self)@.wf(),
            old(self)@.state is Idle || old(self)@.state is Stopped,
        ensures
            final(self)@ == old(self)@.release(),
            step == final(self)@.pending(),
            final(self)@.wf(),
    {
        self.pool.release();
        self.activity = if self.pool.is_releasing() {
            Activity::Releasing
        } else {
            Activity::Closing
        };
        self.pending()
    }

    /// Begins to release everything, from whatever state the session is
    /// in. The operation ends with `Complete` and the session closed. No
    /// step is left out because an earlier one failed; what failed is
    /// found among the faults.
    pub fn teardown(&mut self) -> (step: Step)
        requires
            old(self)@.wf(),
        ensures
            final(self)@ == old(self)@.teardown().0,
            step == old(self)@.teardown().1,
            final(self)@.wf(),
    {
        match self.state {
            SessionState::Closed => Step::Complete,
            SessionState::Streaming => {
                self.activity = Activity::StoppingStream { next: AfterStop::Release };
                self.pending()
            },
            _ => self.begin_release(),
        }
    }

    fn abort(&mut self, code: i32) -> (step: Step)
        requires
            old(self)@.wf(),
            old(self)@.state is Streaming,
            !old(self)@.pool.releasing,
            old(self)@.pool.buffers.len() > 0,
        ensures
            final(self)@ == old(self)@.abort(code),
            step == final(self)@.pending(),
            final(self)@.wf(),
    {
        self.activity = Activity::StoppingStream { next: AfterStop::Fail { code } };
        self.pending()
    }

    fn stopped(&mut self, failed: bool)
        requires
            old(self)@.wf(),
            old(self)@.activity is StoppingStream,
        ensures
            final(self)@ == old(self)@.stopped(failed),
            final(self)@.wf(),
    {
        self.pool.set_all(BufferState::Free);
        self.state = SessionState::Stopped;
        self.activity = Activity::Resting;
        self.stop_failed = failed;
    }

    /// Takes the answer to the action that the session asked for and names
    /// the next step. An event that does not answer that action, or that
    /// tells of an interruption, changes nothing: the same action is asked
    /// again. A device that gives back a buffer which the pool does not
    /// hold has failed the retrieval, with the error number `EINVAL`.
    pub fn resume(&mut self, event: Event) -> (step: Step)
        requires
            old(self)@.wf(),
        ensures
            final(self)@ == old(self)@.resume(event).0,
            step == old(self)@.resume(event).1,
            final(self)@.wf(),
    {
        match (self.activity, event) {
            (Activity::Submitting { index }, Event::BufferQueued { result }) => {
                match result.attempt() {
                    Attempt::Interrupted => self.pending(),
                    Attempt::Settled(ControlOutcome::Done) => {
                        self.pool.set_state(index, BufferState::QueuedToDevice);
                        self.activity = if (index as usize) + 1 < self.pool.len() {
                            Activity::Submitting { index: index + 1 }
                        } else {
                            Activity::StartingStream
                        };
                        self.pending()
                    },
                    Attempt::Settled(_) => {
                        self.activity = Activity::Resting;
                        Step::Failed(Error::StreamStartFailed)
                    },
                }
            },
            (Activity::StartingStream, Event::StreamSwitchedOn { result }) => {
                match result.attempt() {
                    Attempt::Interrupted => self.pending(),
                    Attempt::Settled(ControlOutcome::Done) => {
                        self.state = SessionState::Streaming;
                        self.activity = Activity::Resting;
                        Step::Complete
                    },
                    Attempt::Settled(_) => {
                        self.activity = Activity::Resting;
                        Step::Failed(Error::StreamStartFailed)
                    },
                }
            },
            (Activity::Retrieving, Event::BufferDequeued { result, index, bytes_used }) => {
                match result.attempt() {
                    Attempt::Interrupted => self.pending(),
                    Attempt::Settled(ControlOutcome::Done) => {
                        match self.pool.buffer(index as usize) {
                            Some(buffer) => {
                                self.pool.set_state(index, BufferState::FilledByDevice);
                                self.activity = Activity::Resubmitting {
                                    frame: Frame {
                                        index,
                                        base_address: buffer.base_address,
                                        length: buffer.length,
                                        bytes_used,
                                    },
                                };
                                self.pending()
                            },
                            None => self.abort(EINVAL),
                        }
                    },
                    Attempt::Settled(ControlOutcome::Retry) => {
                        self.activity = Activity::Suspended;
                        self.pending()
                    },
                    Attempt::Settled(ControlOutcome::Refused { code }) => self.abort(code),
                }
            },
            (Activity::Suspended, Event::Readable) => {
                self.activity = Activity::Retrieving;
                self.pending()
            },
            (Activity::Resubmitting { frame }, Event::BufferQueued { result }) => {
                match result.attempt() {
                    Attempt::Interrupted => self.pending(),
                    Attempt::Settled(ControlOutcome::Done) => {
                        self.pool.set_state(frame.index, BufferState::QueuedToDevice);
                        self.activity = Activity::Resting;
                        Step::Yield(frame)
                    },
                    Attempt::Settled(_) => self.abort(result.errno),
                }
            },
            (Activity::StoppingStream { next }, Event::StreamSwitchedOff { result }) => {
                match result.attempt() {
                    Attempt::Interrupted => self.pending(),
                    Attempt::Settled(_) => {
                        self.stopped(result.failed());
                        match next {
                            AfterStop::Rest => Step::Complete,
                            AfterStop::Fail { code } => Step::Failed(
                                Error::FrameRetrievalFailed { code },
                            ),
                            AfterStop::Release => self.begin_release(),
                        }
                    },
                }
            },
            (Activity::Releasing, _) => {
                let step = self.pool.resume(event);
                if self.pool.is_releasing() {
                    step
                } else {
                    self.activity = Activity::Closing;
                    self.pending()
                }
            },
            (Activity::Closing, Event::DeviceClosed { result }) => {
                self.device.close();
                self.state = SessionState::Closed;
                self.activity = Activity::Resting;
                self.close_failed = result.failed();
                Step::Complete
            },
            _ => self.pending(),
        }
    }
}

} // verus!
