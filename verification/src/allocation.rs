//! The making of a buffer pool.
//!
//! The device is asked for a number of buffers. Then, index by index, it
//! is asked where the buffer lies, and the buffer is mapped. If any of
//! this fails after buffers were mapped, they are unmapped again, last
//! first, before the failure is reported: a failed allocation leaves
//! nothing mapped. The answer to the request is a yes or a no: a device
//! that grants fewer buffers than were asked for is found out when a
//! buffer that it does not have is asked after.

use crate::device::{Attempt, ControlOutcome, DeviceHandle, RawResult};
use crate::error::Error;
use crate::pool::{
    failures, lemma_release_progress, unmappings, BufferPool, BufferState, MappedBuffer, PoolView,
};
use crate::protocol::{Action, Event, Step};
use vstd::prelude::*;

verus! {

/// How far an allocation has come.
#[derive(Clone, Copy, Debug, PartialEq, Eq, Structural)]
pub enum AllocationStage {
    /// The device is being asked for the buffers.
    Requesting,
    /// The device is being asked where the next buffer lies.
    Querying,
    /// The next buffer, which lies at `offset` and is `length` bytes long,
    /// is being mapped.
    Mapping { offset: u32, length: u32 },
    /// A step failed with `error` and what was mapped is being unmapped.
    Unwinding { error: Error },
    /// Every buffer is mapped.
    Finished,
    /// The allocation failed with `error` and nothing is mapped.
    Failed { error: Error },
}

/// An allocation as the contracts see it.
#[verifier::ext_equal]
pub struct AllocationView {
    /// How many buffers were asked for.
    pub count: u32,
    /// What is mapped so far.
    pub pool: PoolView,
    /// How far the allocation has come.
    pub stage: AllocationStage,
}

impl AllocationView {
    /// What holds of every allocation.
    pub open spec fn wf(self) -> bool {
        &&& self.pool.wf()
        &&& self.pool.all_in(BufferState::Free)
        &&& self.pool.buffers.len() <= self.count
        &&& match self.stage {
            AllocationStage::Requesting => self.pool.buffers.len() == 0 && self.count > 0,
            AllocationStage::Querying | AllocationStage::Mapping { .. } => self.pool.buffers.len()
                < self.count,
            AllocationStage::Unwinding { .. } => self.pool.releasing,
            AllocationStage::Finished => self.pool.buffers.len() == self.count && self.count > 0,
            AllocationStage::Failed { .. } => self.pool.buffers.len() == 0,
        }
        &&& !(self.stage is Unwinding) ==> !self.pool.releasing
        &&& !(self.stage is Unwinding || self.stage is Failed) ==> self.pool.unmap_failures == 0
    }

    /// The allocation of `count` buffers on the device behind `descriptor`,
    /// before its first step. A pool has at least one buffer: nothing is
    /// asked of the device for a pool of none, and the allocation has
    /// failed.
    pub open spec fn begin(descriptor: i32, count: u32) -> AllocationView {
        AllocationView {
            count,
            pool: PoolView {
                descriptor,
                buffers: Seq::empty(),
                releasing: false,
                unmap_failures: 0,
            },
            stage: if count == 0 {
                AllocationStage::Failed { error: Error::BufferRequestFailed }
            } else {
                AllocationStage::Requesting
            },
        }
    }

    /// What the allocation says as it stands: the action it waits for, or
    /// what it came to.
    pub open spec fn pending(self) -> Step {
        match self.stage {
            AllocationStage::Requesting => Step::Perform(
                Action::RequestBuffers { descriptor: self.pool.descriptor, count: self.count },
            ),
            AllocationStage::Querying => Step::Perform(
                Action::QueryBuffer {
                    descriptor: self.pool.descriptor,
                    index: self.pool.buffers.len() as u32,
                },
            ),
            AllocationStage::Mapping { offset, length } => Step::Perform(
                Action::MapBuffer { descriptor: self.pool.descriptor, offset, length },
            ),
            AllocationStage::Unwinding { .. } => self.pool.pending(),
            AllocationStage::Finished => Step::Complete,
            AllocationStage::Failed { error } => Step::Failed(error),
        }
    }

    /// The allocation after a step failed with `error`: it begins to unmap
    /// what is mapped, or, where nothing is, has failed.
    pub open spec fn fail(self, error: Error) -> AllocationView {
        if self.pool.buffers.len() == 0 {
            AllocationView { stage: AllocationStage::Failed { error }, ..self }
        } else {
            AllocationView {
                pool: self.pool.release().0,
                stage: AllocationStage::Unwinding { error },
                ..self
            }
        }
    }

    /// The allocation after the buffer that was being mapped came to lie at
    /// `base_address`.
    pub open spec fn mapped(self, base_address: usize, length: u32) -> AllocationView {
        let pool = self.pool.with_buffer(base_address, length);
        AllocationView {
            pool,
            stage: if pool.buffers.len() == self.count {
                AllocationStage::Finished
            } else {
                AllocationStage::Querying
            },
            ..self
        }
    }

    /// The allocation after `event`. An event that does not answer the
    /// action that the allocation waits for, or that tells of an
    /// interruption, changes nothing.
    pub open spec fn next(self, event: Event) -> AllocationView {
        if !self.pending().settled_by(&event) {
            self
        } else {
            match (self.stage, event) {
                (AllocationStage::Requesting, Event::BuffersRequested { result }) => {
                    if result.succeeded() {
                        AllocationView { stage: AllocationStage::Querying, ..self }
                    } else {
                        self.fail(Error::BufferRequestFailed)
                    }
                },
                (AllocationStage::Querying, Event::BufferQueried { result, offset, length }) => {
                    if result.succeeded() {
                        AllocationView { stage: AllocationStage::Mapping { offset, length }, ..self }
                    } else {
                        self.fail(Error::BufferQueryFailed)
                    }
                },
                (AllocationStage::Mapping { length, .. }, Event::BufferMapped { base_address }) => {
                    match base_address {
                        Some(base_address) => self.mapped(base_address, length),
                        None => self.fail(Error::MappingFailed),
                    }
                },
                (AllocationStage::Unwinding { error }, _) => {
                    let pool = self.pool.resume(event).0;
                    AllocationView {
                        pool,
                        stage: if pool.releasing {
                            self.stage
                        } else {
                            AllocationStage::Failed { error }
                        },
                        ..self
                    }
                },
                _ => self,
            }
        }
    }

    /// The allocation after `event`, and what it says then.
    pub open spec fn resume(self, event: Event) -> (AllocationView, Step) {
        (self.next(event), self.next(event).pending())
    }
}

impl AllocationView {
    /// The allocation after the events of `events` in turn, and what it
    /// says at the end.
    pub open spec fn run(self, events: Seq<Event>) -> (AllocationView, Step)
        decreases events.len(),
    {
        if events.len() == 0 {
            (self, self.pending())
        } else {
            self.run(events.drop_last()).0.resume(events.last())
        }
    }
}

/// Where the device puts a buffer and where the process maps it.
pub struct Placement {
    pub offset: u32,
    pub length: u32,
    pub base_address: usize,
}

/// What a device answers that grants the buffers asked for and then, for
/// each buffer in turn, says where it lies and lets it be mapped.
pub open spec fn willing(placements: Seq<Placement>) -> Seq<Event> {
    Seq::new(
        1 + 2 * placements.len(),
        |j: int|
            if j == 0 {
                Event::BuffersRequested { result: RawResult { ret: 0, errno: 0 } }
            } else if j % 2 == 1 {
                Event::BufferQueried {
                    result: RawResult { ret: 0, errno: 0 },
                    offset: placements[(j - 1) / 2].offset,
                    length: placements[(j - 1) / 2].length,
                }
            } else {
                Event::BufferMapped { base_address: Some(placements[(j - 1) / 2].base_address) }
            },
    )
}

/// The buffers of a pool that was mapped at `placements`.
pub open spec fn placed(placements: Seq<Placement>) -> Seq<MappedBuffer> {
    Seq::new(
        placements.len(),
        |i: int|
            MappedBuffer {
                index: i as u32,
                base_address: placements[i].base_address,
                length: placements[i].length,
                state: BufferState::Free,
            },
    )
}

/// Where an allocation on a willing device stands once its first `k`
/// buffers are mapped.
proof fn lemma_allocation_progress(descriptor: i32, placements: Seq<Placement>, k: int)
    requires
        0 < placements.len() <= u32::MAX,
        0 <= k <= placements.len(),
    ensures
        AllocationView::begin(descriptor, placements.len() as u32).run(
            willing(placements).take(1 + 2 * k),
        ).0 == (AllocationView {
            count: placements.len() as u32,
            pool: PoolView {
                descriptor,
                buffers: placed(placements).take(k),
                releasing: false,
                unmap_failures: 0,
            },
            stage: if k == placements.len() {
                AllocationStage::Finished
            } else {
                AllocationStage::Querying
            },
        }),
    decreases k,
{
    let begin = AllocationView::begin(descriptor, placements.len() as u32);
    let events = willing(placements);
    if k == 0 {
        assert(begin.run(events.take(1).drop_last()).0 == begin);
    } else {
        lemma_allocation_progress(descriptor, placements, k - 1);
        let queried = events.take(2 * k);
        let mapped = events.take(1 + 2 * k);
        assert(mapped.drop_last() =~= queried);
        assert(queried.drop_last() =~= events.take(1 + 2 * (k - 1)));
        let before = begin.run(events.take(1 + 2 * (k - 1))).0;
        assert(begin.run(queried).0 == before.resume(queried.last()).0);
    }
}

/// On a willing device an allocation comes to its end after one request
/// and, for each buffer, one query and one mapping: it is finished, and
/// the pool holds the buffers asked for, in the order of their indices,
/// each where it was mapped, as long as the device said, and free.
pub proof fn law_willing_device_gives_every_buffer(descriptor: i32, placements: Seq<Placement>)
    requires
        0 < placements.len() <= u32::MAX,
    ensures
        AllocationView::begin(descriptor, placements.len() as u32).run(willing(placements)) == ((
            AllocationView {
                count: placements.len() as u32,
                pool: PoolView {
                    descriptor,
                    buffers: placed(placements),
                    releasing: false,
                    unmap_failures: 0,
                },
                stage: AllocationStage::Finished,
            },
            Step::Complete,
        )),
        AllocationView::begin(descriptor, placements.len() as u32).run(willing(placements)).0.wf(),
        AllocationView::begin(descriptor, placements.len() as u32).run(
            willing(placements),
        ).0.pool.fresh(),
{
    let n = placements.len() as int;
    lemma_allocation_progress(descriptor, placements, n);
    assert(willing(placements).take(1 + 2 * n) =~= willing(placements));
}

/// Whatever a device answers, an allocation stays as
/// [`AllocationView::wf`] says: what it holds mapped is free, is never
/// more than was asked for, and is nothing once it has failed.
pub proof fn law_allocation_stays_well_formed(allocation: AllocationView, event: Event)
    requires
        allocation.wf(),
    ensures
        allocation.resume(event).0.wf(),
        allocation.resume(event).0.count == allocation.count,
{
}

/// A request that a signal interrupts is made again, and that is all: any
/// number of interruptions leaves the allocation as it was, and the answer
/// that comes in the end counts as if it had come at once.
pub proof fn law_interruptions_change_nothing(
    allocation: AllocationView,
    interruptions: Seq<Event>,
    answer: Event,
)
    requires
        forall|i: int| 0 <= i < interruptions.len() ==> (#[trigger] interruptions[i]).interrupted(),
    ensures
        allocation.run(interruptions) == (allocation, allocation.pending()),
        allocation.run(interruptions.push(answer)) == allocation.resume(answer),
    decreases interruptions.len(),
{
    if interruptions.len() > 0 {
        law_interruptions_change_nothing(
            allocation,
            interruptions.drop_last(),
            interruptions.last(),
        );
    }
    assert(interruptions.push(answer).drop_last() =~= interruptions);
}

/// The results of `count` calls that succeeded.
pub open spec fn successes(count: nat) -> Seq<RawResult> {
    Seq::new(count, |i: int| RawResult { ret: 0, errno: 0 })
}

/// A pool that is allocated and released at once, on a device that takes
/// every step, is released without a failure and leaves nothing mapped,
/// so that the same can be done again.
pub proof fn law_allocate_then_release_holds_nothing(descriptor: i32, placements: Seq<Placement>)
    requires
        0 < placements.len() <= u32::MAX,
    ensures
        ({
            let allocated = AllocationView::begin(descriptor, placements.len() as u32).run(
                willing(placements),
            );
            let released = allocated.0.pool.release().0.run(
                unmappings(successes(placements.len())),
            );
            &&& allocated.1 == Step::Complete
            &&& released.1 == Step::Complete
            &&& released.0.buffers.len() == 0
            &&& released.0.unmap_failures == 0
            &&& released.0 == AllocationView::begin(descriptor, placements.len() as u32).pool
        }),
{
    law_willing_device_gives_every_buffer(descriptor, placements);
    let n = placements.len();
    let pool = AllocationView::begin(descriptor, n as u32).run(willing(placements)).0.pool;
    lemma_no_failure_among_successes(n);
    lemma_release_progress(pool, successes(n), n as int);
    assert(successes(n).take(n as int) =~= successes(n));
}

proof fn lemma_no_failure_among_successes(count: nat)
    ensures
        failures(successes(count)) == 0,
    decreases count,
{
    if count > 0 {
        lemma_no_failure_among_successes((count - 1) as nat);
        assert(successes(count).drop_last() =~= successes((count - 1) as nat));
    }
}

/// An allocation that has failed holds no mapping.
pub proof fn law_failed_allocation_holds_nothing(allocation: AllocationView)
    requires
        allocation.wf(),
        allocation.pending() is Failed,
    ensures
        allocation.stage is Failed,
        allocation.pool.buffers.len() == 0,
{
}

/// A step that fails after buffers were mapped is reported only once every
/// one of them has been unmapped again, the last first, whatever the
/// unmappings come to.
pub proof fn law_failure_unmaps_what_was_mapped(
    allocation: AllocationView,
    error: Error,
    results: Seq<RawResult>,
)
    requires
        allocation.wf(),
        allocation.stage is Querying || allocation.stage is Mapping,
        allocation.pool.buffers.len() > 0,
        results.len() == allocation.pool.buffers.len(),
    ensures
        forall|k: int|
            0 <= k < results.len() ==> (#[trigger] allocation.fail(error).run(
                unmappings(results.take(k)),
            )).1 == Step::Perform(allocation.pool.buffers[results.len() - 1 - k].unmap()),
        allocation.fail(error).run(unmappings(results)).1 == Step::Failed(error),
        allocation.fail(error).run(unmappings(results)).0.pool.buffers.len() == 0,
        allocation.fail(error).run(unmappings(results)).0.pool.unmap_failures == failures(results),
{
    assert forall|k: int| 0 <= k <= results.len() implies {
        let at = #[trigger] allocation.fail(error).run(unmappings(results.take(k)));
        let pool = allocation.pool.release().0.run(unmappings(results.take(k)));
        &&& at.0.pool == pool.0
        &&& at.0.count == allocation.count
        &&& at.0.stage == (if k < results.len() {
            AllocationStage::Unwinding { error }
        } else {
            AllocationStage::Failed { error }
        })
        &&& at.1 == at.0.pending()
    } by {
        lemma_unwinding_follows_release(allocation, error, results, k);
    }
    assert(results.take(results.len() as int) =~= results);
    lemma_release_progress(allocation.pool, results, results.len() as int);
    assert forall|k: int| 0 <= k < results.len() implies (#[trigger] allocation.fail(error).run(
        unmappings(results.take(k)),
    )).1 == Step::Perform(allocation.pool.buffers[results.len() - 1 - k].unmap()) by {
        lemma_release_progress(allocation.pool, results, k);
    }
}

/// An allocation that unwinds moves as the release of its pool moves.
proof fn lemma_unwinding_follows_release(
    allocation: AllocationView,
    error: Error,
    results: Seq<RawResult>,
    k: int,
)
    requires
        allocation.wf(),
        allocation.stage is Querying || allocation.stage is Mapping,
        allocation.pool.buffers.len() > 0,
        results.len() == allocation.pool.buffers.len(),
        0 <= k <= results.len(),
    ensures
        allocation.fail(error).run(unmappings(results.take(k))).0.pool
            == allocation.pool.release().0.run(unmappings(results.take(k))).0,
        allocation.fail(error).run(unmappings(results.take(k))).0.count == allocation.count,
        allocation.fail(error).run(unmappings(results.take(k))).0.stage == (if k < results.len() {
            AllocationStage::Unwinding { error }
        } else {
            AllocationStage::Failed { error }
        }),
        allocation.fail(error).run(unmappings(results.take(k))).1 == allocation.fail(error).run(
            unmappings(results.take(k)),
        ).0.pending(),
    decreases k,
{
    lemma_release_progress(allocation.pool, results, k);
    if k > 0 {
        lemma_unwinding_follows_release(allocation, error, results, k - 1);
        assert(unmappings(results.take(k)).drop_last() =~= unmappings(results.take(k - 1)));
    }
}

/// The allocation of a buffer pool, step by step.
#[derive(Debug)]
pub struct Allocation {
    count: u32,
    pool: BufferPool,
    stage: AllocationStage,
}

impl View for Allocation {
    type V = AllocationView;

    closed spec fn view(&self) -> AllocationView {
        AllocationView { count: self.count, pool: self.pool@, stage: self.stage }
    }
}

impl Allocation {
    /// Begins to allocate `count` buffers on the device behind `handle`.
    /// What to do first is [`Allocation::pending`].
    pub fn new(handle: &DeviceHandle, count: u32) -> (allocation: Allocation)
        ensures
            allocation@ == AllocationView::begin(handle.descriptor, count),
            allocation@.wf(),
    {
        let stage = if count == 0 {
            AllocationStage::Failed { error: Error::BufferRequestFailed }
        } else {
            AllocationStage::Requesting
        };
        Allocation { count, pool: BufferPool::new(handle.descriptor), stage }
    }

    /// How many buffers were asked for.
    pub fn count(&self) -> (count: u32)
        ensures
            count == self@.count,
    {
        self.count
    }

    /// How far the allocation has come.
    pub fn stage(&self) -> (stage: AllocationStage)
        ensures
            stage == self@.stage,
    {
        self.stage
    }

    /// How many buffers are mapped at present.
    pub fn mapped(&self) -> (mapped: usize)
        ensures
            mapped == self@.pool.buffers.len(),
    {
        self.pool.len()
    }

    /// How many buffers could not be unmapped again after a failure.
    pub fn unmap_failures(&self) -> (failures: u32)
        ensures
            failures == self@.pool.unmap_failures,
    {
        self.pool.unmap_failures()
    }

    /// What the allocation says as it stands: the action it waits for,
    /// `Complete` once every buffer is mapped, or the error it failed with.
    pub fn pending(&self) -> (step: Step)
        requires
            self@.wf(),
        ensures
            step == self@.pending(),
    {
        match self.stage {
            AllocationStage::Requesting => Step::Perform(
                Action::RequestBuffers { descriptor: self.pool.descriptor(), count: self.count },
            ),
            AllocationStage::Querying => Step::Perform(
                Action::QueryBuffer {
                    descriptor: self.pool.descriptor(),
                    index: self.pool.len() as u32,
                },
            ),
            AllocationStage::Mapping { offset, length } => Step::Perform(
                Action::MapBuffer { descriptor: self.pool.descriptor(), offset, length },
            ),
            AllocationStage::Unwinding { .. } => self.pool.pending(),
            AllocationStage::Finished => Step::Complete,
            AllocationStage::Failed { error } => Step::Failed(error),
        }
    }

    fn fail(&mut self, error: Error)
        requires
            old(self)@.wf(),
            !(old(self)@.stage is Unwinding),
        ensures
            final(self)@ == old(self)@.fail(error),
            final(self)@.wf(),
    {
        if self.pool.is_empty() {
            self.stage = AllocationStage::Failed { error };
        } else {
            self.pool.release();
            self.stage = AllocationStage::Unwinding { error };
        }
    }

    /// Takes the answer to the action that the allocation asked for and
    /// names the next step. An event that does not answer that action, or
    /// that tells of an interruption, changes nothing: the same action is
    /// asked again.
    pub fn resume(&mut self, event: Event) -> (step: Step)
        requires
            old(self)@.wf(),
        ensures
            final(self)@ == old(self)@.resume(event).0,
            step == old(self)@.resume(event).1,
            final(self)@.wf(),
    {
        match (self.stage, event) {
            (AllocationStage::Requesting, Event::BuffersRequested { result }) => {
                match result.attempt() {
                    Attempt::Interrupted => {},
                    Attempt::Settled(ControlOutcome::Done) => {
                        self.stage = AllocationStage::Querying;
                    },
                    Attempt::Settled(_) => {
                        self.fail(Error::BufferRequestFailed);
                    },
                }
            },
            (AllocationStage::Querying, Event::BufferQueried { result, offset, length }) => {
                match result.attempt() {
                    Attempt::Interrupted => {},
                    Attempt::Settled(ControlOutcome::Done) => {
                        self.stage = AllocationStage::Mapping { offset, length };
                    },
                    Attempt::Settled(_) => {
                        self.fail(Error::BufferQueryFailed);
                    },
                }
            },
            (AllocationStage::Mapping { length, .. }, Event::BufferMapped { base_address }) => {
                match base_address {
                    Some(base_address) => {
                        self.pool.push(base_address, length);
                        self.stage = if self.pool.len() == self.count as usize {
                            AllocationStage::Finished
                        } else {
                            AllocationStage::Querying
                        };
                    },
                    None => {
                        self.fail(Error::MappingFailed);
                    },
                }
            },
            (AllocationStage::Unwinding { error }, _) => {
                self.pool.resume(event);
                if !self.pool.is_releasing() {
                    self.stage = AllocationStage::Failed { error };
                }
            },
            _ => {},
        }
        self.pending()
    }

    /// Gives the allocation up where it stands. The pool holds what is
    /// mapped at this point and is the caller's to release.
    pub fn abandon(self) -> (pool: BufferPool)
        ensures
            pool@ == self@.pool,
    {
        self.pool
    }

    /// The pool, once every buffer is mapped; nothing before that, and
    /// nothing after a failure.
    pub fn into_pool(self) -> (pool: Option<BufferPool>)
        ensures
            self@.stage is Finished ==> pool.is_some() && pool.unwrap()@ == self@.pool,
            !(self@.stage is Finished) ==> pool.is_none(),
    {
        match self.stage {
            AllocationStage::Finished => Some(self.pool),
            _ => None,
        }
    }
}

} // verus!
