//! Reusable driver objects of one submission.
//!
//! Pool operations belong exclusively to the engine's mutable owner. Fences handed to consumers
//! never own reusable handles directly: a completion keeps every query away from extraction, and
//! extraction freezes the logical outcome before a handle can be reset.

use crate::names::Counter;
use crate::timing::{count, timing_counted, Timing};
use vstd::prelude::*;

verus! {

/// An input of a submission that can be waited natively.
#[derive(Clone, Copy, Debug, PartialEq, Eq, Structural)]
pub enum Input {
    /// Rendering into the source.
    Acquire,
    /// The previous reader of the destination.
    Release,
}

/// Semaphore that an input fence is imported into.
#[derive(Debug, PartialEq, Eq, Structural)]
pub struct WaitSlot {
    /// Semaphore handle, zero while not created.
    pub semaphore: u64,
    /// A temporary import not consumed by a submission: to be replaced on checkout.
    pub dirty: bool,
}

/// Driver objects of one submission, by handle. Zero is the null handle, whose destruction is
/// permitted.
#[derive(Debug, PartialEq, Eq, Structural)]
pub struct Resources {
    pub pool: u64,
    pub command: u64,
    pub fence: u64,
    pub acquire: WaitSlot,
    pub release: WaitSlot,
    /// Signaled by the submission, for native export.
    pub signal: u64,
    /// A submitted signal is clean only after successful native export.
    pub dirty_signal: bool,
}

/// Object to create next for a new set.
#[derive(Clone, Copy, Debug, PartialEq, Eq, Structural)]
pub enum CreateStep {
    CommandPool,
    CommandBuffer,
    Fence,
    Semaphore(Input),
    Signal,
    Done,
}

/// Object to reset or replace next in a reused set.
#[derive(Clone, Copy, Debug, PartialEq, Eq, Structural)]
pub enum ResetStep {
    CommandPool,
    Fence,
    Semaphore(Input),
    Signal,
    Done,
}

/// An object to destroy.
#[derive(Clone, Copy, Debug, PartialEq, Eq, Structural)]
pub enum Handle {
    Semaphore(u64),
    Fence(u64),
    CommandPool(u64),
}

/// The set with nothing created yet.
pub open spec fn null_resources() -> Resources {
    Resources {
        pool: 0,
        command: 0,
        fence: 0,
        acquire: WaitSlot { semaphore: 0, dirty: false },
        release: WaitSlot { semaphore: 0, dirty: false },
        signal: 0,
        dirty_signal: false,
    }
}

/// A set in which nothing has to be replaced before it is used.
pub open spec fn is_clean(r: Resources) -> bool {
    !r.acquire.dirty && !r.release.dirty && !r.dirty_signal
}

/// The set with the object of a creation step.
pub open spec fn with_object(r: Resources, step: CreateStep, handle: u64) -> Resources {
    match step {
        CreateStep::CommandPool => Resources { pool: handle, ..r },
        CreateStep::CommandBuffer => Resources { command: handle, ..r },
        CreateStep::Fence => Resources { fence: handle, ..r },
        CreateStep::Semaphore(Input::Acquire) => Resources {
            acquire: WaitSlot { semaphore: handle, ..r.acquire },
            ..r
        },
        CreateStep::Semaphore(Input::Release) => Resources {
            release: WaitSlot { semaphore: handle, ..r.release },
            ..r
        },
        CreateStep::Signal => Resources { signal: handle, ..r },
        CreateStep::Done => r,
    }
}

/// The step after an object was created. Only an engine that exports fences has a signal.
pub open spec fn after_create(step: CreateStep, export: bool) -> CreateStep {
    match step {
        CreateStep::CommandPool => CreateStep::CommandBuffer,
        CreateStep::CommandBuffer => CreateStep::Fence,
        CreateStep::Fence => CreateStep::Semaphore(Input::Acquire),
        CreateStep::Semaphore(Input::Acquire) => CreateStep::Semaphore(Input::Release),
        CreateStep::Semaphore(Input::Release) => if export {
            CreateStep::Signal
        } else {
            CreateStep::Done
        },
        CreateStep::Signal => CreateStep::Done,
        CreateStep::Done => CreateStep::Done,
    }
}

/// First object that still has to be replaced.
pub open spec fn first_dirty(r: Resources) -> ResetStep {
    if r.acquire.dirty {
        ResetStep::Semaphore(Input::Acquire)
    } else if r.release.dirty {
        ResetStep::Semaphore(Input::Release)
    } else if r.dirty_signal {
        ResetStep::Signal
    } else {
        ResetStep::Done
    }
}

/// The set after a reset step, with the replacement for the objects that are replaced.
pub open spec fn with_reset(r: Resources, step: ResetStep, replacement: u64) -> Resources {
    match step {
        ResetStep::Semaphore(Input::Acquire) => Resources {
            acquire: WaitSlot { semaphore: replacement, dirty: false },
            ..r
        },
        ResetStep::Semaphore(Input::Release) => Resources {
            release: WaitSlot { semaphore: replacement, dirty: false },
            ..r
        },
        ResetStep::Signal => Resources { signal: replacement, dirty_signal: false, ..r },
        _ => r,
    }
}

/// The step after a reset step that left the set `r`.
pub open spec fn after_reset(r: Resources, step: ResetStep) -> ResetStep {
    match step {
        ResetStep::CommandPool => ResetStep::Fence,
        _ => first_dirty(r),
    }
}

impl Resources {
    /// A set with nothing created yet. Partial construction is safe to destroy.
    pub fn null() -> (r: Resources)
        ensures
            r == null_resources(),
    {
        Resources {
            pool: 0,
            command: 0,
            fence: 0,
            acquire: WaitSlot { semaphore: 0, dirty: false },
            release: WaitSlot { semaphore: 0, dirty: false },
            signal: 0,
            dirty_signal: false,
        }
    }

    /// Keeps an object that was created for `step` and says what to create next. `export` says
    /// whether the engine exports native fences.
    pub fn created(&mut self, step: CreateStep, handle: u64, export: bool) -> (next: CreateStep)
        ensures
            *final(self) == with_object(*old(self), step, handle),
            next == after_create(step, export),
    {
        match step {
            CreateStep::CommandPool => {
                self.pool = handle;
                CreateStep::CommandBuffer
            },
            CreateStep::CommandBuffer => {
                self.command = handle;
                CreateStep::Fence
            },
            CreateStep::Fence => {
                self.fence = handle;
                CreateStep::Semaphore(Input::Acquire)
            },
            CreateStep::Semaphore(Input::Acquire) => {
                self.acquire.semaphore = handle;
                CreateStep::Semaphore(Input::Release)
            },
            CreateStep::Semaphore(Input::Release) => {
                self.release.semaphore = handle;
                if export {
                    CreateStep::Signal
                } else {
                    CreateStep::Done
                }
            },
            CreateStep::Signal => {
                self.signal = handle;
                CreateStep::Done
            },
            CreateStep::Done => CreateStep::Done,
        }
    }

    /// Notes that a reset step succeeded and says what to reset next. `replacement` is the new
    /// object where one was replaced. Only extracted, GPU-retired or never-submitted sets are
    /// reset: no consumer can still query the fence. Retirement alone does not unsignal a binary
    /// semaphore, so a signal that was not exported is replaced.
    pub fn reset(&mut self, step: ResetStep, replacement: u64, timing: &mut Timing) -> (next:
        ResetStep)
        requires
            old(timing).wf(),
        ensures
            final(timing).wf(),
            *final(self) == with_reset(*old(self), step, replacement),
            next == after_reset(*final(self), step),
            final(timing)@ == if step == ResetStep::Signal {
                timing_counted(old(timing)@, Counter::SignalSemaphoresReplaced, 1)
            } else {
                old(timing)@
            },
    {
        match step {
            ResetStep::CommandPool => {
                return ResetStep::Fence;
            },
            ResetStep::Semaphore(Input::Acquire) => {
                self.acquire.semaphore = replacement;
                self.acquire.dirty = false;
            },
            ResetStep::Semaphore(Input::Release) => {
                self.release.semaphore = replacement;
                self.release.dirty = false;
            },
            ResetStep::Signal => {
                self.signal = replacement;
                self.dirty_signal = false;
                count(timing, Counter::SignalSemaphoresReplaced, 1);
            },
            _ => {},
        }
        if self.acquire.dirty {
            ResetStep::Semaphore(Input::Acquire)
        } else if self.release.dirty {
            ResetStep::Semaphore(Input::Release)
        } else if self.dirty_signal {
            ResetStep::Signal
        } else {
            ResetStep::Done
        }
    }

    /// Gives the set up: the objects to destroy, in order.
    pub fn destroy(self, timing: &mut Timing) -> (handles: Vec<Handle>)
        requires
            old(timing).wf(),
        ensures
            final(timing).wf(),
            final(timing)@ == timing_counted(old(timing)@, Counter::ResourceSetsDestroyed, 1),
            handles@ == seq![
                Handle::Semaphore(self.acquire.semaphore),
                Handle::Semaphore(self.release.semaphore),
                Handle::Semaphore(self.signal),
                Handle::Fence(self.fence),
                Handle::CommandPool(self.pool),
            ],
    {
        count(timing, Counter::ResourceSetsDestroyed, 1);
        let handles = vec![
            Handle::Semaphore(self.acquire.semaphore),
            Handle::Semaphore(self.release.semaphore),
            Handle::Semaphore(self.signal),
            Handle::Fence(self.fence),
            Handle::CommandPool(self.pool),
        ];
        assert(handles@ =~= seq![
            Handle::Semaphore(self.acquire.semaphore),
            Handle::Semaphore(self.release.semaphore),
            Handle::Semaphore(self.signal),
            Handle::Fence(self.fence),
            Handle::CommandPool(self.pool),
        ]);
        handles
    }
}

/// A set on its way from the pool to a submission. Returning a pre-submit error never loses a
/// slot: unconsumed temporary payloads and partially recorded command buffers are repaired at the
/// next checkout, without GPU waits.
#[derive(Debug)]
pub struct Checkout<T> {
    pub resources: Option<T>,
}

impl<T> Checkout<T> {
    /// Takes the most recently returned set, if any is idle.
    pub fn take(idle: &mut Vec<T>) -> (checkout: Checkout<T>)
        ensures
            old(idle)@.len() == 0 ==> checkout.resources is None && final(idle)@ == old(idle)@,
            old(idle)@.len() > 0 ==> checkout.resources == Some(old(idle)@.last()) && final(idle)@
                == old(idle)@.drop_last(),
    {
        Checkout { resources: idle.pop() }
    }

    /// Hands the set to a submission: it no longer returns to the pool.
    pub fn submit(&mut self) -> (resources: Option<T>)
        ensures
            resources == old(self).resources,
            final(self).resources is None,
    {
        self.resources.take()
    }

    /// Returns the set to the pool, unless it was submitted.
    pub fn finish(self, idle: &mut Vec<T>)
        ensures
            final(idle)@ == match self.resources {
                Some(resources) => old(idle)@.push(resources),
                None => old(idle)@,
            },
    {
        if let Some(resources) = self.resources {
            idle.push(resources);
        }
    }
}

/// A failed preparation changes nothing: taking a set and finishing without a submission leaves
/// the pool as it was.
pub proof fn unsubmitted_checkout_restores_the_pool<T>(idle: Seq<T>)
    requires
        idle.len() > 0,
    ensures
        idle.drop_last().push(idle.last()) == idle,
{
    assert(idle.drop_last().push(idle.last()) =~= idle);
}

/// The set after creating objects with `handles`, one after another.
pub open spec fn created_with(handles: Seq<u64>, export: bool) -> (Resources, CreateStep)
    decreases handles.len(),
{
    if handles.len() == 0 {
        (null_resources(), CreateStep::CommandPool)
    } else {
        let (r, step) = created_with(handles.drop_last(), export);
        (with_object(r, step, handles.last()), after_create(step, export))
    }
}

/// Creation makes each object once, in a fixed order, and leaves a clean set: five objects, and a
/// signal if the engine exports native fences.
pub proof fn creation_is_complete(handles: Seq<u64>, export: bool)
    requires
        handles.len() == if export { 6nat } else { 5 },
    ensures
        created_with(handles, export) == (
            Resources {
                pool: handles[0],
                command: handles[1],
                fence: handles[2],
                acquire: WaitSlot { semaphore: handles[3], dirty: false },
                release: WaitSlot { semaphore: handles[4], dirty: false },
                signal: if export { handles[5] } else { 0 },
                dirty_signal: false,
            },
            CreateStep::Done,
        ),
{
    reveal_with_fuel(created_with, 7);
}

/// The set after a reset that used `replacements`, one for each object that had to be replaced.
pub open spec fn reset_with(r: Resources, replacements: Seq<u64>) -> (Resources, ResetStep)
    decreases replacements.len(),
{
    if replacements.len() == 0 {
        (r, first_dirty(r))
    } else {
        let (before, step) = reset_with(r, replacements.drop_last());
        let after = with_reset(before, step, replacements.last());
        (after, after_reset(after, step))
    }
}

/// Number of objects that a reset has to replace.
pub open spec fn dirty_count(r: Resources) -> nat {
    (if r.acquire.dirty { 1nat } else { 0 }) + (if r.release.dirty { 1nat } else { 0 }) + (
    if r.dirty_signal { 1nat } else { 0 })
}

/// A reset that replaced every dirty object is done, and the set is clean; pool, command buffer
/// and fence are kept, and so is every object that was clean.
pub proof fn reset_cleans_exactly_the_dirty_objects(r: Resources, replacements: Seq<u64>)
    requires
        replacements.len() == dirty_count(r),
    ensures
        ({
            let (after, step) = reset_with(r, replacements);
            &&& step == ResetStep::Done
            &&& is_clean(after)
            &&& after.pool == r.pool
            &&& after.command == r.command
            &&& after.fence == r.fence
            &&& !r.acquire.dirty ==> after.acquire == r.acquire
            &&& !r.release.dirty ==> after.release == r.release
            &&& !r.dirty_signal ==> after.signal == r.signal
            &&& r.acquire.dirty ==> after.acquire.semaphore == replacements[0]
            &&& r.release.dirty ==> after.release.semaphore == replacements[if r.acquire.dirty {
                1int
            } else {
                0
            }]
            &&& r.dirty_signal ==> after.signal == replacements.last()
        }),
{
    reveal_with_fuel(reset_with, 4);
}

/// A set is clean exactly if none of its semaphores holds a payload; a new one is clean and has no
/// object.
pub proof fn clean_sets_hold_no_payload(r: Resources)
    ensures
        !is_clean(r) <==> r.acquire.dirty || r.release.dirty || r.dirty_signal,
        is_clean(null_resources()),
        null_resources().pool == 0,
        null_resources().command == 0,
        null_resources().fence == 0,
        null_resources().acquire.semaphore == 0,
        null_resources().release.semaphore == 0,
        null_resources().signal == 0,
{
}

/// A reset begins with the command pool and the fence, and then replaces the payloads that are
/// left: acquire, release, signal.
pub proof fn resets_go_on_with_the_first_payload(r: Resources, step: ResetStep)
    ensures
        after_reset(r, ResetStep::CommandPool) == ResetStep::Fence,
        step != ResetStep::CommandPool ==> {
            &&& r.acquire.dirty ==> after_reset(r, step) == ResetStep::Semaphore(Input::Acquire)
            &&& !r.acquire.dirty && r.release.dirty ==> after_reset(r, step)
                == ResetStep::Semaphore(Input::Release)
            &&& !r.acquire.dirty && !r.release.dirty && r.dirty_signal ==> after_reset(r, step)
                == ResetStep::Signal
            &&& is_clean(r) ==> after_reset(r, step) == ResetStep::Done
        },
{
}

} // verus!
