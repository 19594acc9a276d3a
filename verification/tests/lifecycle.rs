use camera::allocation::{Allocation, AllocationStage};
use camera::device::{DeviceHandle, RawResult, EAGAIN, EINTR, EINVAL};
use camera::error::Error;
use camera::format::{proposal, CaptureFormat};
use camera::pool::{BufferPool, BufferState, MappedBuffer};
use camera::protocol::{Action, Event, Frame, Step};
use camera::session::{Activity, AfterStop, CaptureSession, SessionState};
use camera::wire::{Capabilities, FieldOrder, PixelEncoding, PixelFormat};
use camera::Camera;

const DESCRIPTOR: i32 = 5;
const BASE: usize = 0x1000_0000;
const LENGTH: u32 = 4096;
const EIO: i32 = 5;

/// What the fake device can be told to refuse.
#[derive(Clone, Copy, Debug, PartialEq, Eq)]
enum Fault {
    Open,
    Capabilities,
    Format,
    Request,
    Query(u32),
    Mapping(u32),
    Queue(u32),
    Requeue,
    Dequeue(i32),
    StreamOn,
    StreamOff,
    Unmap,
    Close,
}

/// A device that lives in memory: it does what it is asked, keeps a record
/// of it, and fails where it was told to.
struct FakeDevice {
    log: Vec<Action>,
    faults: Vec<Fault>,
    interruptions: u32,
    substitute: Option<PixelFormat>,
    frames: Vec<(u32, u32)>,
    mapped: Vec<usize>,
    queued: Vec<u32>,
    submissions: u32,
    streaming: bool,
    open: bool,
    closes: u32,
}

impl FakeDevice {
    fn new() -> FakeDevice {
        FakeDevice {
            log: Vec::new(),
            faults: Vec::new(),
            interruptions: 0,
            substitute: None,
            frames: Vec::new(),
            mapped: Vec::new(),
            queued: Vec::new(),
            submissions: 0,
            streaming: false,
            open: false,
            closes: 0,
        }
    }

    fn failing(faults: &[Fault]) -> FakeDevice {
        let mut device = FakeDevice::new();
        device.faults = faults.to_vec();
        device
    }

    fn fails(&self, fault: Fault) -> bool {
        self.faults.contains(&fault)
    }

    fn result(&self, fault: Fault) -> RawResult {
        if self.fails(fault) {
            RawResult::failure(EIO)
        } else {
            RawResult::success()
        }
    }

    fn capabilities() -> Capabilities {
        Capabilities {
            driver: [b'f'; 16],
            card: [b'a'; 32],
            bus_info: [b'k'; 32],
            version: 0x0006_0100,
            capabilities: 0x0400_0001,
        }
    }

    fn perform(&mut self, action: Action) -> Event {
        self.log.push(action);
        if action.command().is_some() && self.interruptions > 0 {
            self.interruptions -= 1;
            let result = RawResult::failure(EINTR);
            return match action {
                Action::QueryCapabilities { .. } => {
                    Event::CapabilitiesQueried { result, capabilities: FakeDevice::capabilities() }
                }
                Action::SetFormat { format, .. } => Event::FormatSet { result, format },
                Action::RequestBuffers { .. } => Event::BuffersRequested { result },
                Action::QueryBuffer { .. } => Event::BufferQueried { result, offset: 0, length: 0 },
                Action::QueueBuffer { .. } => Event::BufferQueued { result },
                Action::DequeueBuffer { .. } => {
                    Event::BufferDequeued { result, index: 0, bytes_used: 0 }
                }
                Action::StreamOn { .. } => Event::StreamSwitchedOn { result },
                _ => Event::StreamSwitchedOff { result },
            };
        }
        match action {
            Action::OpenDevice => {
                if self.fails(Fault::Open) {
                    Event::Opened { descriptor: -1 }
                } else {
                    self.open = true;
                    Event::Opened { descriptor: DESCRIPTOR }
                }
            }
            Action::QueryCapabilities { .. } => Event::CapabilitiesQueried {
                result: self.result(Fault::Capabilities),
                capabilities: FakeDevice::capabilities(),
            },
            Action::SetFormat { format, .. } => Event::FormatSet {
                result: self.result(Fault::Format),
                format: self.substitute.unwrap_or(format),
            },
            Action::RequestBuffers { .. } => {
                Event::BuffersRequested { result: self.result(Fault::Request) }
            }
            Action::QueryBuffer { index, .. } => Event::BufferQueried {
                result: self.result(Fault::Query(index)),
                offset: index * LENGTH,
                length: LENGTH,
            },
            Action::MapBuffer { offset, .. } => {
                let number = self.mapped.len() as u32;
                if self.fails(Fault::Mapping(number)) {
                    Event::BufferMapped { base_address: None }
                } else {
                    let base_address = BASE + offset as usize;
                    self.mapped.push(base_address);
                    Event::BufferMapped { base_address: Some(base_address) }
                }
            }
            Action::QueueBuffer { index, .. } => {
                let number = self.submissions;
                self.submissions += 1;
                let refused = self.fails(Fault::Queue(number))
                    || (self.streaming && self.fails(Fault::Requeue));
                if refused {
                    Event::BufferQueued { result: RawResult::failure(EIO) }
                } else {
                    self.queued.push(index);
                    Event::BufferQueued { result: RawResult::success() }
                }
            }
            Action::DequeueBuffer { .. } => {
                let refusal = self.faults.iter().find_map(|fault| match fault {
                    Fault::Dequeue(errno) => Some(*errno),
                    _ => None,
                });
                if let Some(errno) = refusal {
                    Event::BufferDequeued {
                        result: RawResult::failure(errno),
                        index: 0,
                        bytes_used: 0,
                    }
                } else if self.frames.is_empty() {
                    Event::BufferDequeued {
                        result: RawResult::failure(EAGAIN),
                        index: 0,
                        bytes_used: 0,
                    }
                } else {
                    let (index, bytes_used) = self.frames.remove(0);
                    self.queued.retain(|queued| *queued != index);
                    Event::BufferDequeued { result: RawResult::success(), index, bytes_used }
                }
            }
            Action::StreamOn { .. } => {
                let result = self.result(Fault::StreamOn);
                self.streaming = !result.failed();
                Event::StreamSwitchedOn { result }
            }
            Action::StreamOff { .. } => {
                let result = self.result(Fault::StreamOff);
                if !result.failed() {
                    self.streaming = false;
                    self.queued.clear();
                }
                Event::StreamSwitchedOff { result }
            }
            Action::UnmapBuffer { base_address, .. } => {
                let result = self.result(Fault::Unmap);
                if !result.failed() {
                    self.mapped.retain(|mapped| *mapped != base_address);
                }
                Event::BufferUnmapped { result }
            }
            Action::CloseDevice { .. } => {
                self.closes += 1;
                let result = self.result(Fault::Close);
                if !result.failed() {
                    self.open = false;
                }
                Event::DeviceClosed { result }
            }
            Action::AwaitReadable { .. } => Event::Readable,
        }
    }
}

/// Performs what is asked until the operation ends, or until it would wait
/// for a device that has nothing to give.
fn drive(device: &mut FakeDevice, first: Step, resume: &mut dyn FnMut(Event) -> Step) -> Step {
    let mut step = first;
    loop {
        match step {
            Step::Perform(Action::AwaitReadable { .. }) if device.frames.is_empty() => return step,
            Step::Perform(action) => step = resume(device.perform(action)),
            _ => return step,
        }
    }
}

fn handle() -> DeviceHandle {
    DeviceHandle::opened(DESCRIPTOR).unwrap()
}

fn format() -> CaptureFormat {
    CaptureFormat {
        width: 640,
        height: 480,
        pixel_encoding: PixelEncoding::Mjpeg,
        field_order: FieldOrder::Progressive,
    }
}

fn allocate(device: &mut FakeDevice, count: u32) -> (Step, Allocation) {
    let mut allocation = Allocation::new(&handle(), count);
    let first = allocation.pending();
    let step = drive(device, first, &mut |event| allocation.resume(event));
    (step, allocation)
}

fn pool(device: &mut FakeDevice, count: u32) -> BufferPool {
    let (step, allocation) = allocate(device, count);
    assert_eq!(step, Step::Complete);
    allocation.into_pool().unwrap()
}

fn release(device: &mut FakeDevice, pool: &mut BufferPool) -> Step {
    let first = pool.release();
    drive(device, first, &mut |event| pool.resume(event))
}

fn idle_session(device: &mut FakeDevice, count: u32) -> CaptureSession {
    let pool = pool(device, count);
    device.open = true;
    CaptureSession::new(handle(), format(), pool)
}

fn start(device: &mut FakeDevice, session: &mut CaptureSession) -> Step {
    let first = session.start();
    drive(device, first, &mut |event| session.resume(event))
}

fn streaming_session(device: &mut FakeDevice, count: u32) -> CaptureSession {
    let mut session = idle_session(device, count);
    assert_eq!(start(device, &mut session), Step::Complete);
    device.log.clear();
    session
}

fn next_frame(device: &mut FakeDevice, session: &mut CaptureSession) -> Step {
    let first = session.next_frame();
    drive(device, first, &mut |event| session.resume(event))
}

fn stop(device: &mut FakeDevice, session: &mut CaptureSession) -> Step {
    let first = session.stop();
    drive(device, first, &mut |event| session.resume(event))
}

fn teardown(device: &mut FakeDevice, session: &mut CaptureSession) -> Step {
    let first = session.teardown();
    drive(device, first, &mut |event| session.resume(event))
}

fn buffer(index: u32, state: BufferState) -> MappedBuffer {
    MappedBuffer { index, base_address: BASE + (index * LENGTH) as usize, length: LENGTH, state }
}

fn states(pool: &BufferPool) -> Vec<BufferState> {
    let mut states = Vec::new();
    let mut index = 0;
    while let Some(buffer) = pool.buffer(index) {
        states.push(buffer.state);
        index += 1;
    }
    states
}

fn unmap(index: u32) -> Action {
    Action::UnmapBuffer { base_address: BASE + (index * LENGTH) as usize, length: LENGTH }
}

fn queue(index: u32) -> Action {
    Action::QueueBuffer { descriptor: DESCRIPTOR, index }
}

const DEQUEUE: Action = Action::DequeueBuffer { descriptor: DESCRIPTOR };
const STREAM_ON: Action = Action::StreamOn { descriptor: DESCRIPTOR };
const STREAM_OFF: Action = Action::StreamOff { descriptor: DESCRIPTOR };
const CLOSE: Action = Action::CloseDevice { descriptor: DESCRIPTOR };
const AWAIT: Action = Action::AwaitReadable { descriptor: DESCRIPTOR };

// ---------------------------------------------------------------- allocation

#[test]
fn allocation_of_one_buffer_asks_queries_and_maps() {
    let mut device = FakeDevice::new();
    let (step, allocation) = allocate(&mut device, 1);
    assert_eq!(step, Step::Complete);
    assert_eq!(allocation.stage(), AllocationStage::Finished);
    assert_eq!(allocation.count(), 1);
    assert_eq!(allocation.mapped(), 1);
    assert_eq!(
        device.log,
        vec![
            Action::RequestBuffers { descriptor: DESCRIPTOR, count: 1 },
            Action::QueryBuffer { descriptor: DESCRIPTOR, index: 0 },
            Action::MapBuffer { descriptor: DESCRIPTOR, offset: 0, length: LENGTH },
        ]
    );
    let pool = allocation.into_pool().unwrap();
    assert_eq!(pool.len(), 1);
    assert!(!pool.is_empty());
    assert_eq!(pool.descriptor(), DESCRIPTOR);
    assert_eq!(pool.buffer(0), Some(buffer(0, BufferState::Free)));
    assert_eq!(pool.buffer(1), None);
    assert!(!pool.is_releasing());
    assert_eq!(pool.pending(), Step::Idle);
}

#[test]
fn allocation_of_three_buffers_goes_by_index() {
    let mut device = FakeDevice::new();
    let (step, allocation) = allocate(&mut device, 3);
    assert_eq!(step, Step::Complete);
    assert_eq!(
        device.log,
        vec![
            Action::RequestBuffers { descriptor: DESCRIPTOR, count: 3 },
            Action::QueryBuffer { descriptor: DESCRIPTOR, index: 0 },
            Action::MapBuffer { descriptor: DESCRIPTOR, offset: 0, length: LENGTH },
            Action::QueryBuffer { descriptor: DESCRIPTOR, index: 1 },
            Action::MapBuffer { descriptor: DESCRIPTOR, offset: LENGTH, length: LENGTH },
            Action::QueryBuffer { descriptor: DESCRIPTOR, index: 2 },
            Action::MapBuffer { descriptor: DESCRIPTOR, offset: 2 * LENGTH, length: LENGTH },
        ]
    );
    let pool = allocation.into_pool().unwrap();
    assert_eq!(pool.len(), 3);
    assert_eq!(pool.buffer(0), Some(buffer(0, BufferState::Free)));
    assert_eq!(pool.buffer(1), Some(buffer(1, BufferState::Free)));
    assert_eq!(pool.buffer(2), Some(buffer(2, BufferState::Free)));
    assert_eq!(pool.buffer(3), None);
}

#[test]
fn allocation_steps_one_by_one() {
    let mut allocation = Allocation::new(&handle(), 1);
    assert_eq!(allocation.stage(), AllocationStage::Requesting);
    assert_eq!(
        allocation.pending(),
        Step::Perform(Action::RequestBuffers { descriptor: DESCRIPTOR, count: 1 })
    );
    assert_eq!(
        allocation.resume(Event::BuffersRequested { result: RawResult::success() }),
        Step::Perform(Action::QueryBuffer { descriptor: DESCRIPTOR, index: 0 })
    );
    assert_eq!(allocation.stage(), AllocationStage::Querying);
    assert_eq!(
        allocation.resume(Event::BufferQueried {
            result: RawResult::success(),
            offset: 64,
            length: 512
        }),
        Step::Perform(Action::MapBuffer { descriptor: DESCRIPTOR, offset: 64, length: 512 })
    );
    assert_eq!(allocation.stage(), AllocationStage::Mapping { offset: 64, length: 512 });
    assert_eq!(allocation.resume(Event::BufferMapped { base_address: Some(77) }), Step::Complete);
    assert_eq!(allocation.pending(), Step::Complete);
    let pool = allocation.into_pool().unwrap();
    assert_eq!(
        pool.buffer(0),
        Some(MappedBuffer { index: 0, base_address: 77, length: 512, state: BufferState::Free })
    );
}

#[test]
fn allocation_of_no_buffer_fails_without_asking_the_device() {
    let mut device = FakeDevice::new();
    let (step, allocation) = allocate(&mut device, 0);
    assert_eq!(step, Step::Failed(Error::BufferRequestFailed));
    assert_eq!(allocation.stage(), AllocationStage::Failed { error: Error::BufferRequestFailed });
    assert!(device.log.is_empty());
    assert!(allocation.into_pool().is_none());
}

#[test]
fn refused_request_fails_the_allocation() {
    let mut device = FakeDevice::failing(&[Fault::Request]);
    let (step, allocation) = allocate(&mut device, 2);
    assert_eq!(step, Step::Failed(Error::BufferRequestFailed));
    assert_eq!(device.log, vec![Action::RequestBuffers { descriptor: DESCRIPTOR, count: 2 }]);
    assert_eq!(allocation.mapped(), 0);
    assert_eq!(allocation.pending(), Step::Failed(Error::BufferRequestFailed));
    assert!(allocation.into_pool().is_none());
}

#[test]
fn request_that_would_wait_fails_the_allocation() {
    let mut allocation = Allocation::new(&handle(), 1);
    assert_eq!(
        allocation.resume(Event::BuffersRequested { result: RawResult::failure(EAGAIN) }),
        Step::Failed(Error::BufferRequestFailed)
    );
}

#[test]
fn refused_query_of_the_first_buffer_leaves_nothing_to_unmap() {
    let mut device = FakeDevice::failing(&[Fault::Query(0)]);
    let (step, allocation) = allocate(&mut device, 2);
    assert_eq!(step, Step::Failed(Error::BufferQueryFailed));
    assert_eq!(device.log.len(), 2);
    assert_eq!(allocation.mapped(), 0);
    assert!(device.mapped.is_empty());
}

#[test]
fn refused_query_after_two_buffers_unmaps_both_last_first() {
    let mut device = FakeDevice::failing(&[Fault::Query(2)]);
    let (step, allocation) = allocate(&mut device, 3);
    assert_eq!(step, Step::Failed(Error::BufferQueryFailed));
    assert_eq!(device.log[5], Action::QueryBuffer { descriptor: DESCRIPTOR, index: 2 });
    assert_eq!(&device.log[6..], &[unmap(1), unmap(0)]);
    assert!(device.mapped.is_empty());
    assert_eq!(allocation.mapped(), 0);
    assert_eq!(allocation.unmap_failures(), 0);
    assert_eq!(allocation.stage(), AllocationStage::Failed { error: Error::BufferQueryFailed });
}

#[test]
fn failed_mapping_after_one_buffer_unmaps_it_before_the_error() {
    let mut device = FakeDevice::failing(&[Fault::Mapping(1)]);
    let mut allocation = Allocation::new(&handle(), 2);
    let mut step = allocation.pending();
    let mut steps = Vec::new();
    while let Step::Perform(action) = step {
        step = allocation.resume(device.perform(action));
        steps.push(step);
    }
    assert_eq!(
        steps,
        vec![
            Step::Perform(Action::QueryBuffer { descriptor: DESCRIPTOR, index: 0 }),
            Step::Perform(Action::MapBuffer { descriptor: DESCRIPTOR, offset: 0, length: LENGTH }),
            Step::Perform(Action::QueryBuffer { descriptor: DESCRIPTOR, index: 1 }),
            Step::Perform(Action::MapBuffer {
                descriptor: DESCRIPTOR,
                offset: LENGTH,
                length: LENGTH
            }),
            Step::Perform(unmap(0)),
            Step::Failed(Error::MappingFailed),
        ]
    );
    assert!(device.mapped.is_empty());
    assert!(allocation.into_pool().is_none());
}

#[test]
fn unwinding_goes_on_when_an_unmapping_fails() {
    let mut device = FakeDevice::failing(&[Fault::Mapping(2), Fault::Unmap]);
    let (step, allocation) = allocate(&mut device, 3);
    assert_eq!(step, Step::Failed(Error::MappingFailed));
    assert_eq!(&device.log[7..], &[unmap(1), unmap(0)]);
    assert_eq!(allocation.unmap_failures(), 2);
    assert_eq!(allocation.mapped(), 0);
}

#[test]
fn interrupted_requests_of_an_allocation_are_made_again() {
    let mut device = FakeDevice::new();
    device.interruptions = 3;
    let (step, allocation) = allocate(&mut device, 1);
    assert_eq!(step, Step::Complete);
    let request = Action::RequestBuffers { descriptor: DESCRIPTOR, count: 1 };
    assert_eq!(&device.log[..4], &[request, request, request, request]);
    assert_eq!(device.log.len(), 6);
    assert_eq!(allocation.stage(), AllocationStage::Finished);
}

#[test]
fn allocation_ignores_events_that_answer_nothing() {
    let mut allocation = Allocation::new(&handle(), 1);
    let request = Step::Perform(Action::RequestBuffers { descriptor: DESCRIPTOR, count: 1 });
    assert_eq!(allocation.resume(Event::Readable), request);
    assert_eq!(allocation.resume(Event::BufferMapped { base_address: Some(1) }), request);
    assert_eq!(
        allocation.resume(Event::BufferUnmapped { result: RawResult::success() }),
        request
    );
    assert_eq!(allocation.stage(), AllocationStage::Requesting);
    assert_eq!(allocation.mapped(), 0);
}

#[test]
fn abandoned_allocation_hands_over_what_is_mapped() {
    let mut device = FakeDevice::new();
    let mut allocation = Allocation::new(&handle(), 3);
    let mut step = allocation.pending();
    while allocation.mapped() < 2 {
        match step {
            Step::Perform(action) => step = allocation.resume(device.perform(action)),
            _ => panic!("the allocation ended early"),
        }
    }
    let mut pool = allocation.abandon();
    assert_eq!(pool.len(), 2);
    assert_eq!(release(&mut device, &mut pool), Step::Complete);
    assert!(device.mapped.is_empty());
    assert!(pool.is_empty());
}

// ---------------------------------------------------------------------- pool

#[test]
fn allocate_then_release_twice_leaves_nothing_mapped() {
    let mut device = FakeDevice::new();
    for _ in 0..2 {
        let mut pool = pool(&mut device, 1);
        assert_eq!(device.mapped, vec![BASE]);
        assert_eq!(release(&mut device, &mut pool), Step::Complete);
        assert!(device.mapped.is_empty());
        assert!(pool.is_empty());
        assert_eq!(pool.unmap_failures(), 0);
        assert!(!pool.is_releasing());
    }
    assert_eq!(device.log.iter().filter(|action| **action == unmap(0)).count(), 2);
}

#[test]
fn pool_is_fresh_until_its_release_begins() {
    let mut device = FakeDevice::new();
    let mut pool = pool(&mut device, 2);
    assert!(pool.is_fresh());
    assert_eq!(pool.release(), Step::Perform(unmap(1)));
    assert!(!pool.is_fresh());
    assert_eq!(release(&mut device, &mut pool), Step::Complete);
    assert!(!pool.is_fresh());
    let session = streaming_session(&mut device, 1);
    assert!(!session.pool().is_fresh());
}

#[test]
fn release_unmaps_the_last_buffer_first() {
    let mut device = FakeDevice::new();
    let mut pool = pool(&mut device, 3);
    device.log.clear();
    assert_eq!(pool.release(), Step::Perform(unmap(2)));
    assert!(pool.is_releasing());
    assert_eq!(pool.pending(), Step::Perform(unmap(2)));
    assert_eq!(
        pool.resume(Event::BufferUnmapped { result: RawResult::success() }),
        Step::Perform(unmap(1))
    );
    assert_eq!(pool.len(), 2);
    assert_eq!(
        pool.resume(Event::BufferUnmapped { result: RawResult::success() }),
        Step::Perform(unmap(0))
    );
    assert_eq!(pool.resume(Event::BufferUnmapped { result: RawResult::success() }), Step::Complete);
    assert!(pool.is_empty());
    assert!(!pool.is_releasing());
    assert_eq!(pool.pending(), Step::Idle);
}

#[test]
fn release_counts_failures_and_goes_on() {
    let mut device = FakeDevice::new();
    let mut pool = pool(&mut device, 3);
    assert_eq!(pool.release(), Step::Perform(unmap(2)));
    assert_eq!(
        pool.resume(Event::BufferUnmapped { result: RawResult::failure(EINVAL) }),
        Step::Perform(unmap(1))
    );
    assert_eq!(
        pool.resume(Event::BufferUnmapped { result: RawResult::success() }),
        Step::Perform(unmap(0))
    );
    // an unmapping is no request on the control channel: an interruption is a failure
    assert_eq!(pool.resume(Event::BufferUnmapped { result: RawResult::failure(EINTR) }), Step::Complete);
    assert_eq!(pool.unmap_failures(), 2);
    assert!(pool.is_empty());
}

#[test]
fn release_of_an_empty_pool_is_complete_at_once() {
    let mut device = FakeDevice::new();
    let mut pool = pool(&mut device, 1);
    assert_eq!(release(&mut device, &mut pool), Step::Complete);
    device.log.clear();
    assert_eq!(pool.release(), Step::Complete);
    assert_eq!(release(&mut device, &mut pool), Step::Complete);
    assert!(device.log.is_empty());
}

#[test]
fn pool_ignores_events_before_its_release() {
    let mut device = FakeDevice::new();
    let mut pool = pool(&mut device, 2);
    assert_eq!(pool.resume(Event::BufferUnmapped { result: RawResult::success() }), Step::Idle);
    assert_eq!(pool.resume(Event::Readable), Step::Idle);
    assert_eq!(pool.len(), 2);
    assert_eq!(pool.release(), Step::Perform(unmap(1)));
    assert_eq!(pool.resume(Event::Readable), Step::Perform(unmap(1)));
    assert_eq!(pool.resume(Event::DeviceClosed { result: RawResult::success() }), Step::Perform(unmap(1)));
    assert_eq!(pool.len(), 2);
}

// ------------------------------------------------------------------- session

#[test]
fn new_session_is_idle_with_free_buffers() {
    let mut device = FakeDevice::new();
    let session = idle_session(&mut device, 2);
    assert_eq!(session.state(), SessionState::Idle);
    assert_eq!(session.activity(), Activity::Resting);
    assert!(!session.is_streaming());
    assert!(session.can_start());
    assert!(!session.can_retrieve());
    assert_eq!(session.format(), format());
    assert_eq!(session.device(), &DeviceHandle { descriptor: DESCRIPTOR, is_open: true });
    assert_eq!(states(session.pool()), vec![BufferState::Free, BufferState::Free]);
    assert_eq!(session.pending(), Step::Idle);
    assert!(session.faults().is_empty());
}

#[test]
fn start_queues_the_single_buffer_then_streams() {
    let mut device = FakeDevice::new();
    let mut session = idle_session(&mut device, 1);
    device.log.clear();
    assert_eq!(session.start(), Step::Perform(queue(0)));
    assert_eq!(session.activity(), Activity::Submitting { index: 0 });
    assert_eq!(states(session.pool()), vec![BufferState::Free]);
    assert_eq!(
        session.resume(Event::BufferQueued { result: RawResult::success() }),
        Step::Perform(STREAM_ON)
    );
    assert_eq!(session.activity(), Activity::StartingStream);
    assert_eq!(states(session.pool()), vec![BufferState::QueuedToDevice]);
    assert_eq!(session.state(), SessionState::Idle);
    assert_eq!(
        session.resume(Event::StreamSwitchedOn { result: RawResult::success() }),
        Step::Complete
    );
    assert_eq!(session.state(), SessionState::Streaming);
    assert!(session.is_streaming());
    assert_eq!(session.activity(), Activity::Resting);
    assert_eq!(session.pool().buffer(0), Some(buffer(0, BufferState::QueuedToDevice)));
    assert!(session.can_retrieve());
    assert!(!session.can_start());
}

#[test]
fn start_queues_every_buffer_in_index_order() {
    let mut device = FakeDevice::new();
    let mut session = idle_session(&mut device, 3);
    device.log.clear();
    assert_eq!(start(&mut device, &mut session), Step::Complete);
    assert_eq!(device.log, vec![queue(0), queue(1), queue(2), STREAM_ON]);
    assert_eq!(states(session.pool()), vec![BufferState::QueuedToDevice; 3]);
    assert_eq!(device.queued, vec![0, 1, 2]);
    assert!(device.streaming);
}

#[test]
fn frame_is_filled_for_a_moment_and_queued_again_on_return() {
    let mut device = FakeDevice::new();
    let mut session = streaming_session(&mut device, 1);
    assert_eq!(session.next_frame(), Step::Perform(DEQUEUE));
    assert_eq!(session.activity(), Activity::Retrieving);
    assert_eq!(states(session.pool()), vec![BufferState::QueuedToDevice]);
    let given = Event::BufferDequeued { result: RawResult::success(), index: 0, bytes_used: 1234 };
    assert_eq!(session.resume(given), Step::Perform(queue(0)));
    assert_eq!(states(session.pool()), vec![BufferState::FilledByDevice]);
    let frame = Frame { index: 0, base_address: BASE, length: LENGTH, bytes_used: 1234 };
    assert_eq!(session.activity(), Activity::Resubmitting { frame });
    assert_eq!(
        session.resume(Event::BufferQueued { result: RawResult::success() }),
        Step::Yield(frame)
    );
    assert_eq!(states(session.pool()), vec![BufferState::QueuedToDevice]);
    assert_eq!(session.state(), SessionState::Streaming);
    assert_eq!(session.activity(), Activity::Resting);
}

#[test]
fn frames_come_in_the_order_the_device_completes_them() {
    let mut device = FakeDevice::new();
    let mut session = streaming_session(&mut device, 3);
    device.frames = vec![(2, 30), (0, 10), (1, 20), (2, 31)];
    let mut yielded = Vec::new();
    for _ in 0..4 {
        match next_frame(&mut device, &mut session) {
            Step::Yield(frame) => yielded.push((frame.index, frame.base_address, frame.bytes_used)),
            other => panic!("no frame: {:?}", other),
        }
        assert_eq!(states(session.pool()), vec![BufferState::QueuedToDevice; 3]);
    }
    assert_eq!(
        yielded,
        vec![
            (2, BASE + 2 * LENGTH as usize, 30),
            (0, BASE, 10),
            (1, BASE + LENGTH as usize, 20),
            (2, BASE + 2 * LENGTH as usize, 31),
        ]
    );
    assert_eq!(
        device.log,
        vec![DEQUEUE, queue(2), DEQUEUE, queue(0), DEQUEUE, queue(1), DEQUEUE, queue(2)]
    );
}

#[test]
fn bytes_used_is_handed_on_as_reported() {
    let mut device = FakeDevice::new();
    let mut session = streaming_session(&mut device, 1);
    device.frames = vec![(0, u32::MAX)];
    assert_eq!(
        next_frame(&mut device, &mut session),
        Step::Yield(Frame { index: 0, base_address: BASE, length: LENGTH, bytes_used: u32::MAX })
    );
}

#[test]
fn device_that_is_not_ready_suspends_the_retrieval() {
    let mut device = FakeDevice::new();
    let mut session = streaming_session(&mut device, 1);
    assert_eq!(next_frame(&mut device, &mut session), Step::Perform(AWAIT));
    assert_eq!(session.activity(), Activity::Suspended);
    assert_eq!(session.pending(), Step::Perform(AWAIT));
    assert_eq!(states(session.pool()), vec![BufferState::QueuedToDevice]);
    assert_eq!(device.log, vec![DEQUEUE]);
}

#[test]
fn readiness_retries_the_retrieval_once_and_suspends_again() {
    let mut device = FakeDevice::new();
    let mut session = streaming_session(&mut device, 1);
    assert_eq!(next_frame(&mut device, &mut session), Step::Perform(AWAIT));
    // woken, but the device still has nothing
    assert_eq!(session.resume(Event::Readable), Step::Perform(DEQUEUE));
    assert_eq!(session.activity(), Activity::Retrieving);
    let nothing = Event::BufferDequeued { result: RawResult::failure(EAGAIN), index: 0, bytes_used: 0 };
    assert_eq!(session.resume(nothing), Step::Perform(AWAIT));
    assert_eq!(session.activity(), Activity::Suspended);
    // woken again, and now there is a frame
    assert_eq!(session.resume(Event::Readable), Step::Perform(DEQUEUE));
    let given = Event::BufferDequeued { result: RawResult::success(), index: 0, bytes_used: 9 };
    assert_eq!(session.resume(given), Step::Perform(queue(0)));
    assert_eq!(
        session.resume(Event::BufferQueued { result: RawResult::success() }),
        Step::Yield(Frame { index: 0, base_address: BASE, length: LENGTH, bytes_used: 9 })
    );
}

#[test]
fn suspended_retrieval_can_be_taken_up_again() {
    let mut device = FakeDevice::new();
    let mut session = streaming_session(&mut device, 1);
    assert_eq!(next_frame(&mut device, &mut session), Step::Perform(AWAIT));
    assert!(session.can_retrieve());
    device.frames = vec![(0, 5)];
    assert_eq!(
        next_frame(&mut device, &mut session),
        Step::Yield(Frame { index: 0, base_address: BASE, length: LENGTH, bytes_used: 5 })
    );
}

#[test]
fn stop_while_suspended_completes_without_the_device_being_ready() {
    let mut device = FakeDevice::new();
    let mut session = streaming_session(&mut device, 1);
    // the device never signals readiness
    assert_eq!(next_frame(&mut device, &mut session), Step::Perform(AWAIT));
    device.log.clear();
    assert_eq!(stop(&mut device, &mut session), Step::Complete);
    assert_eq!(session.state(), SessionState::Stopped);
    assert_eq!(session.activity(), Activity::Resting);
    assert_eq!(device.log, vec![STREAM_OFF]);
    assert_eq!(teardown(&mut device, &mut session), Step::Complete);
    assert_eq!(session.state(), SessionState::Closed);
    assert_eq!(device.log, vec![STREAM_OFF, unmap(0), CLOSE]);
    assert!(device.mapped.is_empty());
    assert!(!device.open);
    assert!(session.faults().is_empty());
}

#[test]
fn teardown_while_suspended_completes_without_the_device_being_ready() {
    let mut device = FakeDevice::new();
    let mut session = streaming_session(&mut device, 2);
    assert_eq!(next_frame(&mut device, &mut session), Step::Perform(AWAIT));
    device.log.clear();
    assert_eq!(teardown(&mut device, &mut session), Step::Complete);
    assert_eq!(session.state(), SessionState::Closed);
    assert_eq!(device.log, vec![STREAM_OFF, unmap(1), unmap(0), CLOSE]);
    assert!(device.mapped.is_empty());
    assert!(!device.streaming);
    assert!(!device.open);
}

#[test]
fn teardown_attempts_every_step_when_every_step_fails() {
    let mut device = FakeDevice::new();
    let mut session = streaming_session(&mut device, 1);
    device.faults = vec![Fault::StreamOff, Fault::Unmap, Fault::Close];
    assert_eq!(teardown(&mut device, &mut session), Step::Complete);
    assert_eq!(device.log, vec![STREAM_OFF, unmap(0), CLOSE]);
    assert_eq!(session.state(), SessionState::Closed);
    assert_eq!(
        session.faults(),
        vec![Error::StreamStopFailed, Error::UnmapFailed, Error::CloseFailed]
    );
    assert!(session.pool().is_empty());
    assert!(!session.device().is_open());
    assert_eq!(device.closes, 1);
}

#[test]
fn teardown_steps_one_by_one() {
    let mut device = FakeDevice::new();
    let mut session = streaming_session(&mut device, 2);
    assert_eq!(session.teardown(), Step::Perform(STREAM_OFF));
    assert_eq!(session.activity(), Activity::StoppingStream { next: AfterStop::Release });
    assert_eq!(session.state(), SessionState::Streaming);
    assert_eq!(
        session.resume(Event::StreamSwitchedOff { result: RawResult::success() }),
        Step::Perform(unmap(1))
    );
    assert_eq!(session.state(), SessionState::Stopped);
    assert_eq!(session.activity(), Activity::Releasing);
    assert_eq!(states(session.pool()), vec![BufferState::Free, BufferState::Free]);
    assert_eq!(
        session.resume(Event::BufferUnmapped { result: RawResult::failure(EINVAL) }),
        Step::Perform(unmap(0))
    );
    assert_eq!(session.faults(), vec![Error::UnmapFailed]);
    assert_eq!(
        session.resume(Event::BufferUnmapped { result: RawResult::success() }),
        Step::Perform(CLOSE)
    );
    assert_eq!(session.activity(), Activity::Closing);
    assert_eq!(session.state(), SessionState::Stopped);
    assert!(session.device().is_open());
    assert_eq!(session.resume(Event::DeviceClosed { result: RawResult::success() }), Step::Complete);
    assert_eq!(session.state(), SessionState::Closed);
    assert_eq!(session.activity(), Activity::Resting);
    assert_eq!(session.device(), &DeviceHandle { descriptor: DESCRIPTOR, is_open: false });
    assert_eq!(session.faults(), vec![Error::UnmapFailed]);
}

#[test]
fn teardown_reports_only_the_steps_that_failed() {
    let mut device = FakeDevice::new();
    let mut session = streaming_session(&mut device, 3);
    device.faults = vec![Fault::Close];
    assert_eq!(teardown(&mut device, &mut session), Step::Complete);
    assert_eq!(session.faults(), vec![Error::CloseFailed]);
    assert_eq!(session.state(), SessionState::Closed);

    let mut device = FakeDevice::new();
    let mut session = streaming_session(&mut device, 3);
    device.faults = vec![Fault::Unmap];
    assert_eq!(teardown(&mut device, &mut session), Step::Complete);
    assert_eq!(session.faults(), vec![Error::UnmapFailed; 3]);
    assert_eq!(device.log, vec![STREAM_OFF, unmap(2), unmap(1), unmap(0), CLOSE]);
}

#[test]
fn teardown_of_an_idle_session_does_not_switch_streaming_off() {
    let mut device = FakeDevice::new();
    let mut session = idle_session(&mut device, 1);
    device.log.clear();
    assert_eq!(teardown(&mut device, &mut session), Step::Complete);
    assert_eq!(device.log, vec![unmap(0), CLOSE]);
    assert_eq!(session.state(), SessionState::Closed);
    assert!(session.faults().is_empty());
}

#[test]
fn teardown_of_a_closed_session_asks_nothing_more() {
    let mut device = FakeDevice::new();
    let mut session = streaming_session(&mut device, 1);
    assert_eq!(teardown(&mut device, &mut session), Step::Complete);
    device.log.clear();
    assert_eq!(session.teardown(), Step::Complete);
    assert_eq!(teardown(&mut device, &mut session), Step::Complete);
    assert!(device.log.is_empty());
    assert_eq!(device.closes, 1);
    assert_eq!(session.state(), SessionState::Closed);
    assert_eq!(session.resume(Event::DeviceClosed { result: RawResult::failure(EIO) }), Step::Idle);
    assert!(session.faults().is_empty());
}

#[test]
fn teardown_asked_twice_goes_on_where_it_stands() {
    let mut device = FakeDevice::new();
    let mut session = streaming_session(&mut device, 2);
    assert_eq!(session.teardown(), Step::Perform(STREAM_OFF));
    assert_eq!(session.teardown(), Step::Perform(STREAM_OFF));
    assert_eq!(
        session.resume(Event::StreamSwitchedOff { result: RawResult::success() }),
        Step::Perform(unmap(1))
    );
    assert_eq!(session.teardown(), Step::Perform(unmap(1)));
    assert_eq!(
        session.resume(Event::BufferUnmapped { result: RawResult::success() }),
        Step::Perform(unmap(0))
    );
    assert_eq!(
        session.resume(Event::BufferUnmapped { result: RawResult::success() }),
        Step::Perform(CLOSE)
    );
    assert_eq!(session.teardown(), Step::Perform(CLOSE));
    assert_eq!(session.resume(Event::DeviceClosed { result: RawResult::success() }), Step::Complete);
    assert_eq!(session.state(), SessionState::Closed);
}

#[test]
fn interrupted_calls_resolve_to_success_without_an_error() {
    for interruptions in [0u32, 1, 2, 7] {
        let mut device = FakeDevice::new();
        let mut session = idle_session(&mut device, 1);
        device.log.clear();
        device.interruptions = interruptions;
        assert_eq!(start(&mut device, &mut session), Step::Complete);
        assert_eq!(session.state(), SessionState::Streaming);
        assert_eq!(device.log.len() as u32, 2 + interruptions);
        assert!(device.log[..=interruptions as usize].iter().all(|action| *action == queue(0)));
        assert_eq!(device.log.last(), Some(&STREAM_ON));
        assert!(session.faults().is_empty());
    }
}

#[test]
fn interrupted_retrieval_and_stop_are_made_again() {
    let mut device = FakeDevice::new();
    let mut session = streaming_session(&mut device, 1);
    device.frames = vec![(0, 77)];
    device.interruptions = 2;
    assert_eq!(
        next_frame(&mut device, &mut session),
        Step::Yield(Frame { index: 0, base_address: BASE, length: LENGTH, bytes_used: 77 })
    );
    assert_eq!(device.log, vec![DEQUEUE, DEQUEUE, DEQUEUE, queue(0)]);
    device.log.clear();
    device.interruptions = 1;
    assert_eq!(stop(&mut device, &mut session), Step::Complete);
    assert_eq!(device.log, vec![STREAM_OFF, STREAM_OFF]);
    assert!(session.faults().is_empty());
}

#[test]
fn interruption_leaves_the_session_as_it_was() {
    let mut device = FakeDevice::new();
    let mut session = streaming_session(&mut device, 1);
    assert_eq!(session.next_frame(), Step::Perform(DEQUEUE));
    let cut = Event::BufferDequeued { result: RawResult::failure(EINTR), index: 0, bytes_used: 0 };
    for _ in 0..10 {
        assert_eq!(session.resume(cut), Step::Perform(DEQUEUE));
        assert_eq!(session.activity(), Activity::Retrieving);
        assert_eq!(session.state(), SessionState::Streaming);
        assert_eq!(states(session.pool()), vec![BufferState::QueuedToDevice]);
    }
}

#[test]
fn refused_stream_on_leaves_the_session_idle_with_buffers_queued() {
    let mut device = FakeDevice::new();
    let mut session = idle_session(&mut device, 2);
    device.faults = vec![Fault::StreamOn];
    device.log.clear();
    assert_eq!(start(&mut device, &mut session), Step::Failed(Error::StreamStartFailed));
    assert_eq!(session.state(), SessionState::Idle);
    assert_eq!(session.activity(), Activity::Resting);
    assert_eq!(states(session.pool()), vec![BufferState::QueuedToDevice; 2]);
    assert_eq!(device.log, vec![queue(0), queue(1), STREAM_ON]);
    assert!(session.faults().is_empty());
    // the caller proceeds to teardown
    device.log.clear();
    assert_eq!(teardown(&mut device, &mut session), Step::Complete);
    assert_eq!(device.log, vec![unmap(1), unmap(0), CLOSE]);
    assert_eq!(session.state(), SessionState::Closed);
}

#[test]
fn refused_submission_fails_the_start() {
    let mut device = FakeDevice::new();
    let mut session = idle_session(&mut device, 3);
    device.faults = vec![Fault::Queue(1)];
    device.log.clear();
    assert_eq!(start(&mut device, &mut session), Step::Failed(Error::StreamStartFailed));
    assert_eq!(device.log, vec![queue(0), queue(1)]);
    assert_eq!(session.state(), SessionState::Idle);
    assert_eq!(
        states(session.pool()),
        vec![BufferState::QueuedToDevice, BufferState::Free, BufferState::Free]
    );
    assert!(session.can_start());
}

#[test]
fn stream_on_that_would_wait_fails_the_start() {
    let mut device = FakeDevice::new();
    let mut session = idle_session(&mut device, 1);
    assert_eq!(session.start(), Step::Perform(queue(0)));
    assert_eq!(
        session.resume(Event::BufferQueued { result: RawResult::success() }),
        Step::Perform(STREAM_ON)
    );
    assert_eq!(
        session.resume(Event::StreamSwitchedOn { result: RawResult::failure(EAGAIN) }),
        Step::Failed(Error::StreamStartFailed)
    );
    assert_eq!(session.state(), SessionState::Idle);
}

#[test]
fn refused_retrieval_stops_the_session_and_reports_the_code() {
    let mut device = FakeDevice::new();
    let mut session = streaming_session(&mut device, 1);
    device.faults = vec![Fault::Dequeue(19)];
    assert_eq!(
        next_frame(&mut device, &mut session),
        Step::Failed(Error::FrameRetrievalFailed { code: 19 })
    );
    assert_eq!(device.log, vec![DEQUEUE, STREAM_OFF]);
    assert_eq!(session.state(), SessionState::Stopped);
    assert_eq!(session.activity(), Activity::Resting);
    assert!(!session.can_retrieve());
    assert!(!session.can_start());
    assert_eq!(states(session.pool()), vec![BufferState::Free]);
    assert!(session.faults().is_empty());
    device.log.clear();
    assert_eq!(teardown(&mut device, &mut session), Step::Complete);
    assert_eq!(device.log, vec![unmap(0), CLOSE]);
}

#[test]
fn refused_retrieval_steps_one_by_one() {
    let mut device = FakeDevice::new();
    let mut session = streaming_session(&mut device, 1);
    assert_eq!(session.next_frame(), Step::Perform(DEQUEUE));
    let refused = Event::BufferDequeued { result: RawResult::failure(EIO), index: 0, bytes_used: 0 };
    assert_eq!(session.resume(refused), Step::Perform(STREAM_OFF));
    assert_eq!(
        session.activity(),
        Activity::StoppingStream { next: AfterStop::Fail { code: EIO } }
    );
    assert_eq!(session.state(), SessionState::Streaming);
    // the switch fails too: the session is stopped all the same
    assert_eq!(
        session.resume(Event::StreamSwitchedOff { result: RawResult::failure(EINVAL) }),
        Step::Failed(Error::FrameRetrievalFailed { code: EIO })
    );
    assert_eq!(session.state(), SessionState::Stopped);
    assert_eq!(session.faults(), vec![Error::StreamStopFailed]);
}

#[test]
fn refused_resubmission_fails_the_retrieval() {
    let mut device = FakeDevice::new();
    let mut session = streaming_session(&mut device, 1);
    device.frames = vec![(0, 100)];
    device.faults = vec![Fault::Requeue];
    assert_eq!(
        next_frame(&mut device, &mut session),
        Step::Failed(Error::FrameRetrievalFailed { code: EIO })
    );
    assert_eq!(device.log, vec![DEQUEUE, queue(0), STREAM_OFF]);
    assert_eq!(session.state(), SessionState::Stopped);
}

#[test]
fn resubmission_that_would_wait_fails_with_that_code() {
    let mut device = FakeDevice::new();
    let mut session = streaming_session(&mut device, 1);
    assert_eq!(session.next_frame(), Step::Perform(DEQUEUE));
    let given = Event::BufferDequeued { result: RawResult::success(), index: 0, bytes_used: 1 };
    assert_eq!(session.resume(given), Step::Perform(queue(0)));
    assert_eq!(
        session.resume(Event::BufferQueued { result: RawResult::failure(EAGAIN) }),
        Step::Perform(STREAM_OFF)
    );
    assert_eq!(
        session.resume(Event::StreamSwitchedOff { result: RawResult::success() }),
        Step::Failed(Error::FrameRetrievalFailed { code: EAGAIN })
    );
}

#[test]
fn buffer_that_the_pool_does_not_hold_fails_the_retrieval() {
    let mut device = FakeDevice::new();
    let mut session = streaming_session(&mut device, 2);
    device.frames = vec![(2, 100)];
    assert_eq!(
        next_frame(&mut device, &mut session),
        Step::Failed(Error::FrameRetrievalFailed { code: EINVAL })
    );
    assert_eq!(device.log, vec![DEQUEUE, STREAM_OFF]);
    assert_eq!(session.state(), SessionState::Stopped);

    let mut device = FakeDevice::new();
    let mut session = streaming_session(&mut device, 1);
    device.frames = vec![(u32::MAX, 100)];
    assert_eq!(
        next_frame(&mut device, &mut session),
        Step::Failed(Error::FrameRetrievalFailed { code: 22 })
    );
}

#[test]
fn failed_stop_is_recorded_and_the_session_is_stopped() {
    let mut device = FakeDevice::new();
    let mut session = streaming_session(&mut device, 1);
    device.faults = vec![Fault::StreamOff];
    assert_eq!(stop(&mut device, &mut session), Step::Complete);
    assert_eq!(session.state(), SessionState::Stopped);
    assert_eq!(session.faults(), vec![Error::StreamStopFailed]);
    // teardown is not held up and does not switch off again
    device.faults.clear();
    device.log.clear();
    assert_eq!(teardown(&mut device, &mut session), Step::Complete);
    assert_eq!(device.log, vec![unmap(0), CLOSE]);
    assert_eq!(session.faults(), vec![Error::StreamStopFailed]);
    assert_eq!(session.state(), SessionState::Closed);
}

#[test]
fn stop_gives_every_buffer_back_to_the_process() {
    let mut device = FakeDevice::new();
    let mut session = streaming_session(&mut device, 3);
    assert_eq!(session.stop(), Step::Perform(STREAM_OFF));
    assert_eq!(session.activity(), Activity::StoppingStream { next: AfterStop::Rest });
    assert_eq!(
        session.resume(Event::StreamSwitchedOff { result: RawResult::success() }),
        Step::Complete
    );
    assert_eq!(session.state(), SessionState::Stopped);
    assert_eq!(states(session.pool()), vec![BufferState::Free; 3]);
    assert!(!session.can_retrieve());
    assert!(!session.can_start());
    assert_eq!(session.pending(), Step::Idle);
}

#[test]
fn session_ignores_events_that_answer_nothing() {
    let mut device = FakeDevice::new();
    let mut session = streaming_session(&mut device, 1);
    let done = RawResult::success();
    // at rest nothing is asked and nothing is taken
    assert_eq!(session.resume(Event::Readable), Step::Idle);
    assert_eq!(session.resume(Event::BufferQueued { result: done }), Step::Idle);
    assert_eq!(session.resume(Event::DeviceClosed { result: done }), Step::Idle);
    assert_eq!(session.state(), SessionState::Streaming);
    // in the middle of a retrieval only its answer counts
    assert_eq!(session.next_frame(), Step::Perform(DEQUEUE));
    assert_eq!(session.resume(Event::Readable), Step::Perform(DEQUEUE));
    assert_eq!(session.resume(Event::StreamSwitchedOff { result: done }), Step::Perform(DEQUEUE));
    assert_eq!(session.resume(Event::BufferUnmapped { result: done }), Step::Perform(DEQUEUE));
    assert_eq!(session.activity(), Activity::Retrieving);
    assert_eq!(states(session.pool()), vec![BufferState::QueuedToDevice]);
    assert!(device.mapped.len() == 1);
}

// -------------------------------------------------------------------- camera

fn setup(device: &mut FakeDevice, camera: &mut Camera) -> Step {
    let first = camera.pending();
    drive(device, first, &mut |event| camera.resume(event))
}

fn camera_teardown(device: &mut FakeDevice, camera: &mut Camera) -> Step {
    let first = camera.teardown();
    drive(device, first, &mut |event| camera.resume(event))
}

fn camera_frame(device: &mut FakeDevice, camera: &mut Camera) -> Step {
    let first = camera.next_frame();
    drive(device, first, &mut |event| camera.resume(event))
}

fn setup_log() -> Vec<Action> {
    vec![
        Action::OpenDevice,
        Action::QueryCapabilities { descriptor: DESCRIPTOR },
        Action::SetFormat { descriptor: DESCRIPTOR, format: proposal(640, 480) },
        Action::RequestBuffers { descriptor: DESCRIPTOR, count: 1 },
        Action::QueryBuffer { descriptor: DESCRIPTOR, index: 0 },
        Action::MapBuffer { descriptor: DESCRIPTOR, offset: 0, length: LENGTH },
        queue(0),
        STREAM_ON,
    ]
}

#[test]
fn new_camera_has_done_nothing_yet() {
    let camera = Camera::new(640, 480);
    assert_eq!(camera.width(), 640);
    assert_eq!(camera.height(), 480);
    assert_eq!(camera.pending(), Step::Perform(Action::OpenDevice));
    assert_eq!(camera.format(), None);
    assert_eq!(camera.capabilities(), None);
    assert_eq!(camera.failure(), None);
    assert!(camera.session().is_none());
    assert!(!camera.can_retrieve());
    assert!(!camera.is_closed());
    assert!(camera.faults().is_empty());
}

#[test]
fn setup_opens_probes_negotiates_maps_queues_and_streams() {
    let mut device = FakeDevice::new();
    let mut camera = Camera::new(640, 480);
    assert_eq!(setup(&mut device, &mut camera), Step::Complete);
    assert_eq!(device.log, setup_log());
    assert_eq!(camera.format(), Some(format()));
    assert_eq!(camera.capabilities(), Some(FakeDevice::capabilities()));
    assert_eq!(camera.failure(), None);
    assert!(camera.can_retrieve());
    let session = camera.session().unwrap();
    assert_eq!(session.state(), SessionState::Streaming);
    assert_eq!(session.pool().len(), 1);
    assert_eq!(session.pool().buffer(0), Some(buffer(0, BufferState::QueuedToDevice)));
    assert_eq!(camera.pending(), Step::Idle);
    assert!(device.streaming);
}

#[test]
fn camera_runs_in_the_format_that_the_device_took() {
    let mut device = FakeDevice::new();
    device.substitute = Some(PixelFormat {
        width: 1920,
        height: 1080,
        pixelformat: 0x5659_5559,
        field: 4,
        bytesperline: 3840,
        sizeimage: 4147200,
        colorspace: 8,
        private: 0,
    });
    let mut camera = Camera::new(640, 480);
    assert_eq!(setup(&mut device, &mut camera), Step::Complete);
    assert_eq!(
        camera.format(),
        Some(CaptureFormat {
            width: 1920,
            height: 1080,
            pixel_encoding: PixelEncoding::Other(0x5659_5559),
            field_order: FieldOrder::Interlaced,
        })
    );
    assert_eq!(camera.width(), 640);
    assert_eq!(camera.height(), 480);
}

#[test]
fn camera_yields_twenty_frames() {
    let mut device = FakeDevice::new();
    let mut camera = Camera::new(640, 480);
    assert_eq!(setup(&mut device, &mut camera), Step::Complete);
    for number in 0..20u32 {
        device.frames.push((0, 1000 + number));
        assert_eq!(
            camera_frame(&mut device, &mut camera),
            Step::Yield(Frame {
                index: 0,
                base_address: BASE,
                length: LENGTH,
                bytes_used: 1000 + number
            })
        );
    }
    assert_eq!(camera_teardown(&mut device, &mut camera), Step::Complete);
    assert!(camera.is_closed());
    assert!(device.mapped.is_empty());
    assert!(!device.open);
    assert!(!device.streaming);
    assert!(camera.faults().is_empty());
}

#[test]
fn camera_that_cannot_open_holds_nothing() {
    let mut device = FakeDevice::failing(&[Fault::Open]);
    let mut camera = Camera::new(640, 480);
    assert_eq!(setup(&mut device, &mut camera), Step::Failed(Error::DeviceUnavailable));
    assert_eq!(camera.failure(), Some(Error::DeviceUnavailable));
    assert_eq!(camera.pending(), Step::Failed(Error::DeviceUnavailable));
    assert_eq!(device.log, vec![Action::OpenDevice]);
    assert_eq!(camera.teardown(), Step::Complete);
    assert!(camera.is_closed());
    assert_eq!(device.closes, 0);
}

#[test]
fn setup_ends_at_the_first_step_that_fails() {
    let cases = [
        (Fault::Capabilities, Error::CapabilityQueryFailed, 2usize),
        (Fault::Format, Error::FormatRejected, 3),
        (Fault::Request, Error::BufferRequestFailed, 4),
        (Fault::Query(0), Error::BufferQueryFailed, 5),
        (Fault::Mapping(0), Error::MappingFailed, 6),
    ];
    for (fault, error, steps) in cases {
        let mut device = FakeDevice::failing(&[fault]);
        let mut camera = Camera::new(640, 480);
        assert_eq!(setup(&mut device, &mut camera), Step::Failed(error));
        assert_eq!(device.log, setup_log()[..steps].to_vec());
        assert_eq!(camera.failure(), Some(error));
        assert!(camera.session().is_none());
        assert!(!camera.can_retrieve());
        assert!(!camera.is_closed());
        // what the setup had got hold of is given back by the teardown
        device.log.clear();
        assert_eq!(camera_teardown(&mut device, &mut camera), Step::Complete);
        assert_eq!(device.log, vec![CLOSE]);
        assert!(camera.is_closed());
        assert!(!device.open);
        assert!(device.mapped.is_empty());
        assert_eq!(camera.failure(), Some(error));
        assert!(camera.faults().is_empty());
    }
}

#[test]
fn failed_start_of_a_camera_leaves_the_release_to_teardown() {
    for (fault, steps) in [(Fault::Queue(0), 7usize), (Fault::StreamOn, 8)] {
        let mut device = FakeDevice::failing(&[fault]);
        let mut camera = Camera::new(640, 480);
        assert_eq!(setup(&mut device, &mut camera), Step::Failed(Error::StreamStartFailed));
        assert_eq!(device.log, setup_log()[..steps].to_vec());
        assert_eq!(camera.session().unwrap().state(), SessionState::Idle);
        assert!(!camera.can_retrieve());
        device.log.clear();
        assert_eq!(camera_teardown(&mut device, &mut camera), Step::Complete);
        assert_eq!(device.log, vec![unmap(0), CLOSE]);
        assert!(camera.is_closed());
        assert!(device.mapped.is_empty());
    }
}

#[test]
fn camera_teardown_stops_unmaps_and_closes() {
    let mut device = FakeDevice::new();
    let mut camera = Camera::new(320, 240);
    assert_eq!(setup(&mut device, &mut camera), Step::Complete);
    device.log.clear();
    device.faults = vec![Fault::StreamOff, Fault::Unmap, Fault::Close];
    assert_eq!(camera_teardown(&mut device, &mut camera), Step::Complete);
    assert_eq!(device.log, vec![STREAM_OFF, unmap(0), CLOSE]);
    assert!(camera.is_closed());
    assert_eq!(
        camera.faults(),
        vec![Error::StreamStopFailed, Error::UnmapFailed, Error::CloseFailed]
    );
    assert_eq!(camera.teardown(), Step::Complete);
    assert_eq!(device.closes, 1);
}

#[test]
fn camera_teardown_in_the_middle_of_the_setup_closes_the_device() {
    let mut camera = Camera::new(640, 480);
    assert_eq!(camera.teardown(), Step::Complete);
    assert!(camera.is_closed());
    assert_eq!(camera.pending(), Step::Idle);

    let mut camera = Camera::new(640, 480);
    assert_eq!(
        camera.resume(Event::Opened { descriptor: DESCRIPTOR }),
        Step::Perform(Action::QueryCapabilities { descriptor: DESCRIPTOR })
    );
    assert_eq!(camera.teardown(), Step::Perform(CLOSE));
    assert_eq!(camera.teardown(), Step::Perform(CLOSE));
    assert_eq!(camera.pending(), Step::Perform(CLOSE));
    assert!(!camera.is_closed());
    assert_eq!(camera.resume(Event::DeviceClosed { result: RawResult::failure(EIO) }), Step::Complete);
    assert!(camera.is_closed());
    assert_eq!(camera.faults(), vec![Error::CloseFailed]);
    assert_eq!(camera.teardown(), Step::Complete);
}

#[test]
fn camera_teardown_during_the_allocation_closes_the_device() {
    let mut device = FakeDevice::new();
    let mut camera = Camera::new(640, 480);
    let mut step = camera.pending();
    for _ in 0..4 {
        match step {
            Step::Perform(action) => step = camera.resume(device.perform(action)),
            _ => panic!("the setup ended early"),
        }
    }
    assert_eq!(step, Step::Perform(Action::QueryBuffer { descriptor: DESCRIPTOR, index: 0 }));
    assert_eq!(camera.format(), Some(format()));
    assert!(device.mapped.is_empty());
    device.log.clear();
    assert_eq!(camera_teardown(&mut device, &mut camera), Step::Complete);
    assert_eq!(device.log, vec![CLOSE]);
    assert!(camera.is_closed());
}

#[test]
fn interrupted_setup_is_the_setup() {
    let mut device = FakeDevice::new();
    device.interruptions = 4;
    let mut camera = Camera::new(640, 480);
    assert_eq!(setup(&mut device, &mut camera), Step::Complete);
    let probe = Action::QueryCapabilities { descriptor: DESCRIPTOR };
    assert_eq!(&device.log[..6], &[Action::OpenDevice, probe, probe, probe, probe, probe]);
    assert_eq!(&device.log[6..], &setup_log()[2..]);
    assert_eq!(camera.failure(), None);
    assert!(camera.can_retrieve());
}

#[test]
fn camera_ignores_events_that_answer_nothing() {
    let mut camera = Camera::new(640, 480);
    let open = Step::Perform(Action::OpenDevice);
    assert_eq!(camera.resume(Event::Readable), open);
    assert_eq!(camera.resume(Event::DeviceClosed { result: RawResult::success() }), open);
    assert_eq!(camera.resume(Event::BufferMapped { base_address: Some(BASE) }), open);
    assert_eq!(camera.pending(), open);
    assert!(!camera.is_closed());
}

#[test]
fn camera_stop_then_teardown() {
    let mut device = FakeDevice::new();
    let mut camera = Camera::new(640, 480);
    assert_eq!(setup(&mut device, &mut camera), Step::Complete);
    device.log.clear();
    let first = camera.stop();
    assert_eq!(first, Step::Perform(STREAM_OFF));
    assert_eq!(drive(&mut device, first, &mut |event| camera.resume(event)), Step::Complete);
    assert_eq!(camera.session().unwrap().state(), SessionState::Stopped);
    assert!(!camera.can_retrieve());
    assert_eq!(camera_teardown(&mut device, &mut camera), Step::Complete);
    assert_eq!(device.log, vec![STREAM_OFF, unmap(0), CLOSE]);
}

#[test]
fn camera_whose_retrieval_fails_is_stopped() {
    let mut device = FakeDevice::new();
    let mut camera = Camera::new(640, 480);
    assert_eq!(setup(&mut device, &mut camera), Step::Complete);
    device.faults = vec![Fault::Dequeue(EIO)];
    assert_eq!(
        camera_frame(&mut device, &mut camera),
        Step::Failed(Error::FrameRetrievalFailed { code: EIO })
    );
    assert!(!camera.can_retrieve());
    assert_eq!(camera.session().unwrap().state(), SessionState::Stopped);
    assert_eq!(camera.failure(), None);
}
