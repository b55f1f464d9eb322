//! Every copy comes to an end.

use crate::bridge::{Imported, MAX_PENDING};
use crate::copy::{
    stepped, CopyEvent, CopySession, ImageRequirements, ImportStep, Machine, Phase, Progress,
};
use crate::copy_invariant::{every_run_is_consistent, ran};
use crate::error::{Interrupted, VkResult};
use crate::modifiers::{ImportReply, ModifierProperties};
use crate::names::Counter;
use crate::resources::{with_object, with_reset, CreateStep, Input, ResetStep, Resources};
use crate::validate::Allocation;
use std::sync::Arc;
use vstd::prelude::*;

verus! {

/// Whether an event answers the action of a phase.
pub open spec fn answers_phase<H, P>(phase: Phase, event: CopyEvent<H, P>) -> bool {
    match phase {
        Phase::IdentifySource | Phase::IdentifyDestination(_) => event is Identified,
        Phase::Reap(_) => event is Polled,
        Phase::Import { step, .. } => match step {
            ImportStep::ListModifiers => event is ModifiersListed,
            ImportStep::QueryLimits => event is LimitsQueried,
            ImportStep::CreateImage => event is ImageCreated,
            ImportStep::DuplicateFd { .. } => event is FdDuplicated,
            ImportStep::QueryFdMemory { .. } => event is FdMemoryQueried,
            ImportStep::Allocate { .. } => event is Allocated,
            ImportStep::Bind => event is Bound,
        },
        Phase::Create(_) => event is ObjectCreated,
        Phase::Reset(_) => event is ObjectReset,
        Phase::ExportInput(_) => event is InputExported,
        Phase::ImportInput(_) => event is InputImported,
        Phase::WaitInput(_) => event is InputWaited,
        Phase::Record => event is Recorded,
        Phase::Submit => event is Submitted,
        Phase::ExportSignal => event is SignalExported,
        Phase::Publish => event is Published,
        Phase::Finished | Phase::Failed => false,
    }
}

/// An event that does not answer the current action changes nothing.
pub proof fn other_answers_change_nothing<H, P>(m: Machine<H, P>, event: CopyEvent<H, P>)
    requires
        !answers_phase(m.session.phase, event),
    ensures
        stepped(m, event) == m.fine(),
{
}

/// A bound on the answers that a copy still takes.
pub open spec fn answers_left<H, P>(m: Machine<H, P>) -> int {
    match m.session.phase {
        Phase::IdentifySource => 100,
        Phase::IdentifyDestination(_) => 99,
        Phase::Reap(i) => 80 + m.bridge.pending.len() - i,
        Phase::Import { source, step } => (if source {
            60int
        } else {
            50
        }) + match step {
            ImportStep::ListModifiers => 7int,
            ImportStep::QueryLimits => 6,
            ImportStep::CreateImage => 5,
            ImportStep::DuplicateFd { .. } => 4,
            ImportStep::QueryFdMemory { .. } => 3,
            ImportStep::Allocate { .. } => 2,
            ImportStep::Bind => 1,
        },
        Phase::Create(step) => 30 + match step {
            CreateStep::CommandPool => 6int,
            CreateStep::CommandBuffer => 5,
            CreateStep::Fence => 4,
            CreateStep::Semaphore(Input::Acquire) => 3,
            CreateStep::Semaphore(Input::Release) => 2,
            CreateStep::Signal => 1,
            CreateStep::Done => 0,
        },
        Phase::Reset(step) => 30 + match step {
            ResetStep::CommandPool => 5int,
            ResetStep::Fence => 4,
            ResetStep::Semaphore(Input::Acquire) => 3,
            ResetStep::Semaphore(Input::Release) => 2,
            ResetStep::Signal => 1,
            ResetStep::Done => 0,
        },
        Phase::ExportInput(Input::Acquire) => 23,
        Phase::ImportInput(Input::Acquire) => 22,
        Phase::WaitInput(Input::Acquire) => 21,
        Phase::ExportInput(Input::Release) => 13,
        Phase::ImportInput(Input::Release) => 12,
        Phase::WaitInput(Input::Release) => 11,
        Phase::Record => 5,
        Phase::Submit => 4,
        Phase::ExportSignal => 3,
        Phase::Publish => 2,
        Phase::Finished | Phase::Failed => 0,
    }
}

proof fn lemma_left_inputs<H, P>(m: Machine<H, P>)
    ensures
        0 <= answers_left(m.begin_inputs()) <= 23,
        0 <= answers_left(m.begin_release()) <= 13,
{
}

proof fn lemma_left_imports<H, P>(m: Machine<H, P>)
    ensures
        0 <= answers_left(m.begin_checkout()) <= 36,
        0 <= answers_left(m.begin_destination()) <= 57,
        0 <= answers_left(m.begin_source()) <= 67,
{
}

proof fn lemma_left_reap<H, P>(m: Machine<H, P>, i: int)
    requires
        0 <= i <= m.bridge.pending.len() <= MAX_PENDING,
    ensures
        0 <= answers_left(m.reap(i).0),
        answers_left(m.reap(i).0) <= 80 + m.bridge.pending.len() - i,
{
    lemma_left_imports(m);
}

/// Whether a state has fewer answers left than the one before.
spec fn closer<H, P>(before: Machine<H, P>, after: Machine<H, P>) -> bool {
    0 <= answers_left(after) < answers_left(before) <= 100
}

proof fn lemma_left_identified<H, P>(m: Machine<H, P>, reply: Result<Allocation, std::io::Error>)
    requires
        m.inv(),
        m.session.phase is IdentifySource || m.session.phase is IdentifyDestination,
    ensures
        closer(m, m.identified(reply).0),
{
    if let Ok(second) = reply {
        if let Some(format) = m.session.known_format {
            lemma_left_reap(Machine { session: CopySession { format, ..m.session }, ..m }, 0);
        }
    }
}

proof fn lemma_left_polled<H, P>(m: Machine<H, P>, reply: Result<Option<Resources>, VkResult>)
    requires
        m.inv(),
        m.session.phase is Reap,
    ensures
        closer(m, m.polled(reply).0),
{
    match (m.session.phase, reply) {
        (Phase::Reap(i), Ok(None)) => {
            lemma_left_reap(m, i + 1);
        },
        (Phase::Reap(i), Ok(Some(resources))) => {
            lemma_left_reap(m.recycled(i as int, resources), i as int);
        },
        _ => {},
    }
}

proof fn lemma_left_modifiers_listed<H, P>(
    m: Machine<H, P>,
    reply: Result<Seq<ModifierProperties>, Seq<char>>,
)
    requires
        m.inv(),
        m.session.phase matches Phase::Import { step, .. } && step is ListModifiers,
    ensures
        closer(m, m.modifiers_listed(reply).0),
{
}

proof fn lemma_left_limits_queried<H, P>(m: Machine<H, P>, reply: Result<ImportReply, VkResult>)
    requires
        m.inv(),
        m.session.phase matches Phase::Import { step, .. } && step is QueryLimits,
    ensures
        closer(m, m.limits_queried(reply).0),
{
}

proof fn lemma_left_image_created<H, P>(
    m: Machine<H, P>,
    reply: Result<ImageRequirements, VkResult>,
)
    requires
        m.inv(),
        m.session.phase matches Phase::Import { step, .. } && step is CreateImage,
    ensures
        closer(m, m.image_created(reply).0),
{
}

proof fn lemma_left_fd_duplicated<H, P>(m: Machine<H, P>, reply: Result<(), std::io::Error>)
    requires
        m.inv(),
        m.session.phase matches Phase::Import { step, .. } && step is DuplicateFd,
    ensures
        closer(m, m.fd_duplicated(reply).0),
{
}

proof fn lemma_left_fd_memory_queried<H, P>(m: Machine<H, P>, reply: Result<u32, VkResult>)
    requires
        m.inv(),
        m.session.phase matches Phase::Import { step, .. } && step is QueryFdMemory,
    ensures
        closer(m, m.fd_memory_queried(reply).0),
{
}

proof fn lemma_left_allocated<H, P>(m: Machine<H, P>, reply: Result<(), VkResult>)
    requires
        m.inv(),
        m.session.phase matches Phase::Import { step, .. } && step is Allocate,
    ensures
        closer(m, m.allocated(reply).0),
{
}

proof fn lemma_left_bound<H, P>(m: Machine<H, P>, reply: Result<H, VkResult>)
    requires
        m.inv(),
        m.session.phase matches Phase::Import { step, .. } && step is Bind,
    ensures
        closer(m, m.bound(reply).0),
{
    if let (Phase::Import { source, step: ImportStep::Bind }, Ok(handle)) = (
        m.session.phase,
        reply,
    ) {
        let image = Arc::new(Imported { buffer: m.buffer(source).id, source, handle });
        lemma_left_imports(m.with_image(source, image));
    }
}

proof fn lemma_left_object_created<H, P>(m: Machine<H, P>, reply: Result<u64, VkResult>)
    requires
        m.inv(),
        m.session.phase is Create,
    ensures
        closer(m, m.object_created(reply).0),
{
    if let (Phase::Create(step), Some(r), Ok(handle)) = (
        m.session.phase,
        m.session.building,
        reply,
    ) {
        lemma_left_inputs(m.constructed(with_object(r, step, handle)));
    }
}

proof fn lemma_left_object_reset<H, P>(m: Machine<H, P>, reply: Result<u64, VkResult>)
    requires
        m.inv(),
        m.session.phase is Reset,
    ensures
        closer(m, m.object_reset(reply).0),
{
    if let (Phase::Reset(step), Some(r), Ok(replacement)) = (
        m.session.phase,
        m.session.checkout.resources,
        reply,
    ) {
        let clean = with_reset(r, step, replacement);
        lemma_left_inputs(m.replaced(step, clean).counting(Counter::ResourceSetsReused));
    }
}

proof fn lemma_left_input_exported<H, P>(m: Machine<H, P>, available: bool)
    requires
        m.inv(),
        m.session.phase is ExportInput,
    ensures
        closer(m, m.input_exported(available).0),
{
}

proof fn lemma_left_input_imported<H, P>(m: Machine<H, P>, reply: Result<(), VkResult>)
    requires
        m.inv(),
        m.session.phase is ImportInput,
    ensures
        closer(m, m.input_imported(reply).0),
{
    if let (Phase::ImportInput(Input::Acquire), Ok(_)) = (m.session.phase, reply) {
        lemma_left_inputs(
            Machine {
                session: CopySession { acquire: Progress::Native, ..m.session },
                ..m.counting(Counter::NativeInputImports)
            },
        );
    }
}

proof fn lemma_left_input_waited<H, P>(m: Machine<H, P>, reply: Result<(), Interrupted>)
    requires
        m.inv(),
        m.session.phase is WaitInput,
    ensures
        closer(m, m.input_waited(reply).0),
{
    if let (Phase::WaitInput(Input::Acquire), Ok(_)) = (m.session.phase, reply) {
        lemma_left_inputs(
            Machine { session: CopySession { acquire: Progress::Waited, ..m.session }, ..m },
        );
    }
}

proof fn lemma_left_recorded<H, P>(m: Machine<H, P>, reply: Result<(), VkResult>)
    requires
        m.inv(),
        m.session.phase is Record,
    ensures
        closer(m, m.recorded(reply).0),
{
}

proof fn lemma_left_submission_answered<H, P>(m: Machine<H, P>, reply: Result<(), VkResult>)
    requires
        m.inv(),
        m.session.phase is Submit,
    ensures
        closer(m, m.submission_answered(reply).0),
{
}

proof fn lemma_left_signal_exported<H, P>(m: Machine<H, P>, reply: Result<i32, VkResult>)
    requires
        m.inv(),
        m.session.phase is ExportSignal,
    ensures
        closer(m, m.signal_exported(reply).0),
{
}

proof fn lemma_left_published<H, P>(m: Machine<H, P>, completion: P)
    requires
        m.inv(),
        m.session.phase is Publish,
    ensures
        closer(m, m.published(completion).0),
{
}

/// Every answer brings the copy closer to its end. In particular a pending submission is looked at
/// once, not waited for.
pub proof fn every_answer_makes_progress<H, P>(m: Machine<H, P>, event: CopyEvent<H, P>)
    requires
        m.inv(),
        answers_phase(m.session.phase, event),
    ensures
        0 <= answers_left(stepped(m, event).0) < answers_left(m) <= 100,
{
    match event {
        CopyEvent::Identified(reply) => {
            lemma_left_identified(m, reply);
        },
        CopyEvent::Polled(reply) => {
            lemma_left_polled(m, reply);
        },
        CopyEvent::ModifiersListed(Ok(list)) => {
            lemma_left_modifiers_listed(m, Ok(list@));
        },
        CopyEvent::ModifiersListed(Err(text)) => {
            lemma_left_modifiers_listed(m, Err(text@));
        },
        CopyEvent::LimitsQueried(reply) => {
            lemma_left_limits_queried(m, reply);
        },
        CopyEvent::ImageCreated(reply) => {
            lemma_left_image_created(m, reply);
        },
        CopyEvent::FdDuplicated(reply) => {
            lemma_left_fd_duplicated(m, reply);
        },
        CopyEvent::FdMemoryQueried(reply) => {
            lemma_left_fd_memory_queried(m, reply);
        },
        CopyEvent::Allocated(reply) => {
            lemma_left_allocated(m, reply);
        },
        CopyEvent::Bound(reply) => {
            lemma_left_bound(m, reply);
        },
        CopyEvent::ObjectCreated(reply) => {
            lemma_left_object_created(m, reply);
        },
        CopyEvent::ObjectReset(reply) => {
            lemma_left_object_reset(m, reply);
        },
        CopyEvent::InputExported(available) => {
            lemma_left_input_exported(m, available);
        },
        CopyEvent::InputImported(reply) => {
            lemma_left_input_imported(m, reply);
        },
        CopyEvent::InputWaited(reply) => {
            lemma_left_input_waited(m, reply);
        },
        CopyEvent::Recorded(reply) => {
            lemma_left_recorded(m, reply);
        },
        CopyEvent::Submitted(reply) => {
            lemma_left_submission_answered(m, reply);
        },
        CopyEvent::SignalExported(reply) => {
            lemma_left_signal_exported(m, reply);
        },
        CopyEvent::Published(completion) => {
            lemma_left_published(m, completion);
        },
    }
}

/// Whether each of a series of events answers the action that was current when it came.
pub open spec fn all_answer<H, P>(m: Machine<H, P>, events: Seq<CopyEvent<H, P>>) -> bool
    decreases events.len(),
{
    events.len() > 0 ==> {
        &&& all_answer(m, events.drop_last())
        &&& answers_phase(ran(m, events.drop_last()).session.phase, events.last())
    }
}

/// A copy ends after at most a hundred answers.
pub proof fn a_copy_ends<H, P>(m: Machine<H, P>, events: Seq<CopyEvent<H, P>>)
    requires
        m.inv(),
        all_answer(m, events),
    ensures
        events.len() <= 100,
        events.len() + answers_left(ran(m, events)) <= 100,
    decreases events.len(),
{
    every_run_is_consistent(m, events);
    if events.len() > 0 {
        a_copy_ends(m, events.drop_last());
        every_run_is_consistent(m, events.drop_last());
        every_answer_makes_progress(ran(m, events.drop_last()), events.last());
    }
}

} // verus!
