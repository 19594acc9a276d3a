//! The buffers that the device fills, mapped into the process.
//!
//! A pool holds its buffers in the order of their indices. It is made by an
//! [`crate::allocation::Allocation`] and unmade by [`BufferPool::release`],
//! which unmaps the buffers one by one, last first, and goes on to the end
//! whatever the single steps come to.

use crate::device::RawResult;
use crate::protocol::{Action, Event, Step};
use vstd::prelude::*;

verus! {

/// Who holds a buffer.
#[derive(Clone, Copy, Debug, PartialEq, Eq, Structural)]
pub enum BufferState {
    /// The process holds it and it carries no frame.
    Free,
    /// The device holds it and may write to it at any time.
    QueuedToDevice,
    /// The device has filled it and given it back; the process may read it.
    FilledByDevice,
}

/// One buffer of the pool: its index with the device, where it is mapped,
/// how long it is and who holds it.
#[derive(Clone, Copy, Debug, PartialEq, Eq, Structural)]
pub struct MappedBuffer {
    pub index: u32,
    pub base_address: usize,
    pub length: u32,
    pub state: BufferState,
}

impl MappedBuffer {
    /// The same buffer in another state.
    pub open spec fn in_state(self, state: BufferState) -> MappedBuffer {
        MappedBuffer { state, ..self }
    }

    /// The action that unmaps the buffer.
    pub open spec fn unmap(self) -> Action {
        Action::UnmapBuffer { base_address: self.base_address, length: self.length }
    }
}

/// A pool as the contracts see it.
#[verifier::ext_equal]
pub struct PoolView {
    /// The descriptor of the device that the buffers belong to.
    pub descriptor: i32,
    /// The buffers that are mapped, by index.
    pub buffers: Seq<MappedBuffer>,
    /// Whether the release has begun and has buffers left to unmap.
    pub releasing: bool,
    /// How many buffers the release could not unmap.
    pub unmap_failures: nat,
}

impl PoolView {
    /// What holds of every pool: each buffer stands at its index, the pool
    /// has never held more buffers than an index can count, a release in
    /// progress has a buffer left, and nothing has failed to unmap in a
    /// pool whose release has not begun.
    pub open spec fn wf(self) -> bool {
        &&& self.buffers.len() + self.unmap_failures <= u32::MAX
        &&& forall|i: int| 0 <= i < self.buffers.len() ==> (#[trigger] self.buffers[i]).index == i
        &&& self.releasing ==> self.buffers.len() > 0
        &&& !self.releasing && self.buffers.len() > 0 ==> self.unmap_failures == 0
    }

    /// Whether every buffer is in `state`.
    pub open spec fn all_in(self, state: BufferState) -> bool {
        forall|i: int| 0 <= i < self.buffers.len() ==> (#[trigger] self.buffers[i]).state == state
    }

    /// Whether every buffer but the one at `index` is in `state`.
    pub open spec fn others_in(self, index: int, state: BufferState) -> bool {
        forall|i: int|
            0 <= i < self.buffers.len() && i != index ==> (#[trigger] self.buffers[i]).state
                == state
    }

    /// Whether the pool is as an allocation leaves it: it has a buffer,
    /// every buffer is free and no release has begun.
    pub open spec fn fresh(self) -> bool {
        &&& self.buffers.len() > 0
        &&& !self.releasing
        &&& self.all_in(BufferState::Free)
    }

    /// The pool with the buffer at `index` in `state`.
    pub open spec fn with_state(self, index: int, state: BufferState) -> PoolView {
        PoolView { buffers: self.buffers.update(index, self.buffers[index].in_state(state)), ..self }
    }

    /// The pool with every buffer in `state`.
    pub open spec fn with_all(self, state: BufferState) -> PoolView {
        PoolView {
            buffers: Seq::new(self.buffers.len(), |i: int| self.buffers[i].in_state(state)),
            ..self
        }
    }

    /// The pool with one more buffer, free, at the next index.
    pub open spec fn with_buffer(self, base_address: usize, length: u32) -> PoolView {
        PoolView {
            buffers: self.buffers.push(
                MappedBuffer {
                    index: self.buffers.len() as u32,
                    base_address,
                    length,
                    state: BufferState::Free,
                },
            ),
            ..self
        }
    }

    /// What the pool asks for: while it is being released, to unmap its
    /// last buffer.
    pub open spec fn pending(self) -> Step {
        if self.releasing {
            Step::Perform(self.buffers.last().unmap())
        } else {
            Step::Idle
        }
    }

    /// The pool once the release is asked for, and what it says then. An
    /// empty pool is released already.
    pub open spec fn release(self) -> (PoolView, Step) {
        if self.buffers.len() == 0 {
            (self, Step::Complete)
        } else {
            let pool = PoolView { releasing: true, ..self };
            (pool, pool.pending())
        }
    }

    /// The pool after `event`, and what it says then. The answer to an
    /// unmapping takes the last buffer off the pool, whether the unmapping
    /// succeeded or not, and counts a failure. Any other event changes
    /// nothing.
    pub open spec fn resume(self, event: Event) -> (PoolView, Step) {
        match event {
            Event::BufferUnmapped { result } if self.releasing => {
                let pool = PoolView {
                    buffers: self.buffers.drop_last(),
                    releasing: self.buffers.len() > 1,
                    unmap_failures: if result.failed() {
                        self.unmap_failures + 1
                    } else {
                        self.unmap_failures
                    },
                    ..self
                };
                if pool.releasing {
                    (pool, pool.pending())
                } else {
                    (pool, Step::Complete)
                }
            },
            _ => (self, self.pending()),
        }
    }
}

impl PoolView {
    /// The pool after the events of `events` in turn, and what it says at
    /// the end.
    pub open spec fn run(self, events: Seq<Event>) -> (PoolView, Step)
        decreases events.len(),
    {
        if events.len() == 0 {
            (self, self.pending())
        } else {
            self.run(events.drop_last()).0.resume(events.last())
        }
    }
}

/// The events that tell of unmappings with the results of `results`, in
/// turn.
pub open spec fn unmappings(results: Seq<RawResult>) -> Seq<Event> {
    Seq::new(results.len(), |i: int| Event::BufferUnmapped { result: results[i] })
}

/// How many of `results` are failures.
pub open spec fn failures(results: Seq<RawResult>) -> nat
    decreases results.len(),
{
    if results.len() == 0 {
        0
    } else {
        failures(results.drop_last()) + if results.last().failed() {
            1nat
        } else {
            0nat
        }
    }
}

/// Where a release stands after the first `k` unmappings have been
/// answered with the first `k` of `results`: the last `k` buffers are off
/// the pool and the failures among the answers are counted.
pub(crate) proof fn lemma_release_progress(pool: PoolView, results: Seq<RawResult>, k: int)
    requires
        pool.wf(),
        pool.buffers.len() > 0,
        0 <= k <= results.len() <= pool.buffers.len(),
    ensures
        pool.release().0.run(unmappings(results.take(k))).0 == (PoolView {
            buffers: pool.buffers.take(pool.buffers.len() - k),
            releasing: k < pool.buffers.len(),
            unmap_failures: pool.unmap_failures + failures(results.take(k)),
            ..pool
        }),
        pool.release().0.run(unmappings(results.take(k))).0.wf(),
        failures(results.take(k)) <= k,
        pool.release().0.run(unmappings(results.take(k))).1 == (if k < pool.buffers.len() {
            Step::Perform(pool.buffers[pool.buffers.len() - 1 - k].unmap())
        } else {
            Step::Complete
        }),
    decreases k,
{
    if k > 0 {
        lemma_release_progress(pool, results, k - 1);
        assert(results.take(k).drop_last() =~= results.take(k - 1));
        assert(unmappings(results.take(k)).drop_last() =~= unmappings(results.take(k - 1)));
    }
}

/// A release unmaps every buffer once, the last first, and goes on to the
/// end whatever the unmappings come to: after as many answers as there are
/// buffers, nothing is mapped, the release is complete, and the failures
/// counted are those among the answers. Where every unmapping succeeds,
/// none is counted.
pub proof fn law_release_unmaps_every_buffer(pool: PoolView, results: Seq<RawResult>)
    requires
        pool.wf(),
        pool.buffers.len() > 0,
        results.len() == pool.buffers.len(),
    ensures
        forall|k: int|
            0 <= k < results.len() ==> (#[trigger] pool.release().0.run(
                unmappings(results.take(k)),
            )).1 == Step::Perform(pool.buffers[results.len() - 1 - k].unmap()),
        pool.release().0.run(unmappings(results)).1 == Step::Complete,
        pool.release().0.run(unmappings(results)).0.buffers.len() == 0,
        !pool.release().0.run(unmappings(results)).0.releasing,
        pool.release().0.run(unmappings(results)).0.unmap_failures == pool.unmap_failures
            + failures(results),
        pool.release().0.run(unmappings(results)).0.wf(),
{
    assert forall|k: int| 0 <= k < results.len() implies (#[trigger] pool.release().0.run(
        unmappings(results.take(k)),
    )).1 == Step::Perform(pool.buffers[results.len() - 1 - k].unmap()) by {
        lemma_release_progress(pool, results, k);
    }
    lemma_release_progress(pool, results, results.len() as int);
    assert(results.take(results.len() as int) =~= results);
}

/// The buffers of one device, mapped into the process.
#[derive(Debug)]
pub struct BufferPool {
    descriptor: i32,
    buffers: Vec<MappedBuffer>,
    releasing: bool,
    unmap_failures: u32,
}

impl View for BufferPool {
    type V = PoolView;

    closed spec fn view(&self) -> PoolView {
        PoolView {
            descriptor: self.descriptor,
            buffers: self.buffers@,
            releasing: self.releasing,
            unmap_failures: self.unmap_failures as nat,
        }
    }
}

impl BufferPool {
    /// A pool for the device behind `descriptor` that holds no buffer yet.
    pub(crate) fn new(descriptor: i32) -> (pool: BufferPool)
        ensures
            pool@ == (PoolView {
                descriptor,
                buffers: Seq::empty(),
                releasing: false,
                unmap_failures: 0,
            }),
            pool@.wf(),
    {
        BufferPool { descriptor, buffers: Vec::new(), releasing: false, unmap_failures: 0 }
    }

    /// Adds a buffer, free, at the next index.
    pub(crate) fn push(&mut self, base_address: usize, length: u32)
        requires
            old(self)@.wf(),
            !old(self)@.releasing,
            old(self)@.unmap_failures == 0,
            old(self)@.buffers.len() < u32::MAX,
        ensures
            final(self)@ == old(self)@.with_buffer(base_address, length),
            final(self)@.wf(),
    {
        let index = self.buffers.len() as u32;
        self.buffers.push(MappedBuffer { index, base_address, length, state: BufferState::Free });
    }

    /// Puts the buffer at `index` in `state`.
    pub(crate) fn set_state(&mut self, index: u32, state: BufferState)
        requires
            old(self)@.wf(),
            index < old(self)@.buffers.len(),
        ensures
            final(self)@ == old(self)@.with_state(index as int, state),
            final(self)@.wf(),
    {
        let buffer = self.buffers[index as usize];
        self.buffers.set(
            index as usize,
            MappedBuffer {
                index: buffer.index,
                base_address: buffer.base_address,
                length: buffer.length,
                state,
            },
        );
    }

    /// Puts every buffer in `state`.
    pub(crate) fn set_all(&mut self, state: BufferState)
        requires
            old(self)@.wf(),
        ensures
            final(self)@ == old(self)@.with_all(state),
            final(self)@.wf(),
    {
        let ghost before = self@;
        let mut i: usize = 0;
        while i < self.buffers.len()
            invariant
                i <= self.buffers.len(),
                self.buffers.len() == before.buffers.len(),
                self.descriptor == before.descriptor,
                self.releasing == before.releasing,
                self.unmap_failures == before.unmap_failures,
                forall|j: int|
                    0 <= j < i ==> self.buffers@[j] == (#[trigger] before.buffers[j]).in_state(
                        state,
                    ),
                forall|j: int|
                    i <= j < self.buffers.len() ==> self.buffers@[j] == #[trigger] before.buffers[j],
            decreases self.buffers.len() - i,
        {
            let buffer = self.buffers[i];
            self.buffers.set(
                i,
                MappedBuffer {
                    index: buffer.index,
                    base_address: buffer.base_address,
                    length: buffer.length,
                    state,
                },
            );
            i = i + 1;
        }
    }

    /// The descriptor of the device that the buffers belong to.
    pub fn descriptor(&self) -> (descriptor: i32)
        ensures
            descriptor == self@.descriptor,
    {
        self.descriptor
    }

    /// How many buffers are mapped.
    pub fn len(&self) -> (len: usize)
        ensures
            len == self@.buffers.len(),
    {
        self.buffers.len()
    }

    /// Whether no buffer is mapped.
    pub fn is_empty(&self) -> (empty: bool)
        ensures
            empty == (self@.buffers.len() == 0),
    {
        self.buffers.len() == 0
    }

    /// The buffer at `index`, if the pool holds one there.
    pub fn buffer(&self, index: usize) -> (buffer: Option<MappedBuffer>)
        ensures
            index < self@.buffers.len() ==> buffer == Some(self@.buffers[index as int]),
            index >= self@.buffers.len() ==> buffer.is_none(),
    {
        if index < self.buffers.len() {
            Some(self.buffers[index])
        } else {
            None
        }
    }

    /// Whether the pool is as an allocation leaves it: it has a buffer,
    /// every buffer is free and no release has begun. A session is made
    /// of such a pool.
    pub fn is_fresh(&self) -> (fresh: bool)
        ensures
            fresh == self@.fresh(),
    {
        if self.releasing || self.buffers.len() == 0 {
            return false;
        }
        let mut i: usize = 0;
        while i < self.buffers.len()
            invariant
                i <= self.buffers.len(),
                forall|j: int|
                    0 <= j < i ==> (#[trigger] self.buffers@[j]).state == BufferState::Free,
            decreases self.buffers.len() - i,
        {
            match self.buffers[i].state {
                BufferState::Free => {},
                _ => {
                    return false;
                },
            }
            i = i + 1;
        }
        true
    }

    /// Whether the release has begun and has buffers left to unmap.
    pub fn is_releasing(&self) -> (releasing: bool)
        ensures
            releasing == self@.releasing,
    {
        self.releasing
    }

    /// How many buffers the release could not unmap.
    pub fn unmap_failures(&self) -> (failures: u32)
        ensures
            failures == self@.unmap_failures,
    {
        self.unmap_failures
    }

    /// What the pool asks for: while it is being released, to unmap its
    /// last buffer.
    pub fn pending(&self) -> (step: Step)
        requires
            self@.wf(),
        ensures
            step == self@.pending(),
    {
        if self.releasing {
            let last = self.buffers[self.buffers.len() - 1];
            Step::Perform(
                Action::UnmapBuffer { base_address: last.base_address, length: last.length },
            )
        } else {
            Step::Idle
        }
    }

    /// Begins to unmap every buffer. The step is the first unmapping, or
    /// `Complete` where nothing is mapped.
    pub fn release(&mut self) -> (step: Step)
        requires
            old(self)@.wf(),
        ensures
            final(self)@ == old(self)@.release().0,
            step == old(self)@.release().1,
            final(self)@.wf(),
    {
        if self.buffers.len() == 0 {
            Step::Complete
        } else {
            self.releasing = true;
            self.pending()
        }
    }

    /// Takes the answer to the unmapping that the pool asked for and names
    /// the next, or `Complete` once nothing is mapped any more. A failed
    /// unmapping is counted and the release goes on.
    pub fn resume(&mut self, event: Event) -> (step: Step)
        requires
            old(self)@.wf(),
        ensures
            final(self)@ == old(self)@.resume(event).0,
            step == old(self)@.resume(event).1,
            final(self)@.wf(),
    {
        match event {
            Event::BufferUnmapped { result } => {
                if self.releasing {
                    self.buffers.pop();
                    if result.failed() {
                        self.unmap_failures = self.unmap_failures + 1;
                    }
                    self.releasing = self.buffers.len() > 0;
                    if self.releasing {
                        self.pending()
                    } else {
                        Step::Complete
                    }
                } else {
                    self.pending()
                }
            },
            _ => self.pending(),
        }
    }
}

} // verus!
