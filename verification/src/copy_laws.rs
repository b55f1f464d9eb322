//! What holds of every copy, whatever the driver answers.

use crate::bridge::{
    admitted, import_position, lemma_import_position, touched, Imported, MAX_IMPORTS,
};
use crate::copy::{
    holds_slot, image_of, is_submitted, stage_place, stepped, wait_list, CopyEvent, CopySession,
    ImageRequirements, ImportStep, Machine, Phase, Progress, Stepped,
};
use crate::copy_invariant::{every_run_is_consistent, ran};
use crate::error::{lost, ErrorView, Interrupted, VkResult};
use crate::modifiers::{ImportReply, ModifierProperties};
use crate::names::Counter;
use crate::resources::{with_object, with_reset, CreateStep, Input, Resources};
use crate::validate::{buffers_rejected, damage_ok, Allocation};
use std::sync::Arc;
use vstd::prelude::*;

verus! {

/// What beginning the next part of a copy does to the engine, from a state without a set: it keeps
/// the number of sets, or begins a new one.
proof fn lemma_begin_keeps<H, P>(m: Machine<H, P>)
    ensures
        m.begin_source().bridge.device_lost == m.bridge.device_lost,
        m.begin_destination().bridge.device_lost == m.bridge.device_lost,
        m.begin_checkout().bridge.device_lost == m.bridge.device_lost,
        m.begin_source().slots() == m.bridge.slots() + begun(m.begin_source().session.phase),
        m.begin_destination().slots() == m.bridge.slots() + begun(
            m.begin_destination().session.phase,
        ),
        m.begin_checkout().slots() == m.bridge.slots() + begun(m.begin_checkout().session.phase),
        same_request(m.session, m.begin_source().session),
        same_request(m.session, m.begin_destination().session),
        same_request(m.session, m.begin_checkout().session),
        same_progress(m.session, m.begin_source().session),
        same_progress(m.session, m.begin_destination().session),
        same_progress(m.session, m.begin_checkout().session),
        m.begin_source().session.exported == m.session.exported,
        m.begin_destination().session.exported == m.session.exported,
        m.begin_checkout().session.exported == m.session.exported,
        2 <= stage_place(m.begin_source().session.reached),
        3 <= stage_place(m.begin_destination().session.reached),
        4 <= stage_place(m.begin_checkout().session.reached),
{
}

proof fn lemma_begin_inputs_keeps<H, P>(m: Machine<H, P>)
    ensures
        m.begin_inputs().bridge == m.bridge,
        m.begin_release().bridge == m.bridge,
        holds_slot(m.begin_inputs().session.phase),
        holds_slot(m.begin_release().session.phase),
        !(m.begin_inputs().session.phase is Create),
        !(m.begin_release().session.phase is Create),
        same_request(m.session, m.begin_inputs().session),
        same_request(m.session, m.begin_release().session),
        same_progress(m.session, m.begin_inputs().session),
        same_progress(m.session, m.begin_release().session),
        m.begin_inputs().session.exported == m.session.exported,
        m.begin_release().session.exported == m.session.exported,
        5 <= stage_place(m.begin_inputs().session.reached),
        5 <= stage_place(m.begin_release().session.reached),
{
}

/// One for a phase that begins a new set.
spec fn begun(phase: Phase) -> nat {
    if phase == Phase::Create(CreateStep::CommandPool) {
        1
    } else {
        0
    }
}

proof fn lemma_reap_keeps<H, P>(m: Machine<H, P>, i: int)
    requires
        m.session.checkout.resources is None,
    ensures
        m.bridge.device_lost ==> m.reap(i).0.bridge.device_lost,
        m.reap(i).1 == Err::<(), ErrorView>(ErrorView::Vk(lost())) ==> m.reap(
            i,
        ).0.bridge.device_lost,
        m.reap(i).0.slots() == m.bridge.slots() + begun(m.reap(i).0.session.phase),
        same_request(m.session, m.reap(i).0.session),
        same_progress(m.session, m.reap(i).0.session),
        m.reap(i).0.session.exported == m.session.exported,
        1 <= stage_place(m.reap(i).0.session.reached),
{
    lemma_begin_keeps(m);
}

/// Whether a step kept the number of sets or began a new one; a set whose construction failed, or
/// whose submission met a lost device, is gone.
pub open spec fn keeps_sets<H, P>(m: Machine<H, P>, step: Stepped<H, P>) -> bool {
    let (after, result) = step;
    if result is Err && (m.session.phase is Create || (m.session.phase == Phase::Submit && result
        == Err::<(), ErrorView>(ErrorView::Vk(lost())))) {
        after.slots() == m.slots() - 1
    } else if after.session.phase == Phase::Create(CreateStep::CommandPool) && m.session.phase
        != Phase::Create(CreateStep::CommandPool) {
        after.slots() == m.slots() + 1
    } else {
        after.slots() == m.slots()
    }
}

/// Whether a step kept the knowledge of a lost device, and noted one that it reports.
pub open spec fn remembers_loss<H, P>(m: Machine<H, P>, step: Stepped<H, P>) -> bool {
    &&& m.bridge.device_lost ==> step.0.bridge.device_lost
    &&& step.1 == Err::<(), ErrorView>(ErrorView::Vk(lost())) ==> step.0.bridge.device_lost
}

/// Whether two states are of the same request.
pub open spec fn same_request<H>(a: CopySession<H>, b: CopySession<H>) -> bool {
    &&& a.src == b.src
    &&& a.dst == b.dst
    &&& a.regions == b.regions
    &&& a.known_format == b.known_format
    &&& a.sync_fd == b.sync_fd
    &&& a.acquire_fence == b.acquire_fence
    &&& a.release_fence == b.release_fence
}

/// Whether as much has been done about the input fences in two states.
pub open spec fn same_progress<H>(a: CopySession<H>, b: CopySession<H>) -> bool {
    a.acquire == b.acquire && a.release == b.release
}

/// The copy failed and its set is the last of the idle ones, with pending work as it was.
pub open spec fn returned<H, P>(before: Machine<H, P>, after: Machine<H, P>) -> bool {
    &&& after.session.phase == Phase::Failed
    &&& after.bridge.pending == before.bridge.pending
    &&& before.session.checkout.resources matches Some(r)
    &&& after.bridge.idle == before.bridge.idle.push(r)
}

/// What every step does.
spec fn orderly<H, P>(m: Machine<H, P>, step: Stepped<H, P>) -> bool {
    &&& keeps_sets(m, step)
    &&& remembers_loss(m, step)
    &&& same_request(m.session, step.0.session)
    &&& !(m.session.phase is ImportInput) && !(m.session.phase is WaitInput) ==> same_progress(
        m.session,
        step.0.session,
    )
    &&& stage_place(m.session.reached) <= stage_place(step.0.session.reached)
    &&& m.session.phase != Phase::ExportSignal ==> step.0.session.exported == m.session.exported
    &&& holds_slot(m.session.phase) && !(m.session.phase is Create) && step.1 is Err && step.1
        != Err::<(), ErrorView>(ErrorView::Vk(lost())) ==> returned(m, step.0)
}

proof fn lemma_identified<H, P>(m: Machine<H, P>, reply: Result<Allocation, std::io::Error>)
    requires
        m.inv(),
    ensures
        orderly(m, m.identified(reply)),
{
    if let (Phase::IdentifyDestination(first), Ok(second)) = (m.session.phase, reply) {
        if let Some(format) = m.session.known_format {
            lemma_reap_keeps(Machine { session: CopySession { format, ..m.session }, ..m }, 0);
        }
    }
}

proof fn lemma_polled<H, P>(m: Machine<H, P>, reply: Result<Option<Resources>, VkResult>)
    requires
        m.inv(),
    ensures
        orderly(m, m.polled(reply)),
{
    match (m.session.phase, reply) {
        (Phase::Reap(i), Ok(None)) => {
            lemma_reap_keeps(m, i + 1);
        },
        (Phase::Reap(i), Ok(Some(resources))) => {
            lemma_reap_keeps(m.recycled(i as int, resources), i as int);
        },
        _ => {},
    }
}

proof fn lemma_modifiers_listed<H, P>(
    m: Machine<H, P>,
    reply: Result<Seq<ModifierProperties>, Seq<char>>,
)
    requires
        m.inv(),
    ensures
        orderly(m, m.modifiers_listed(reply)),
{
}

proof fn lemma_limits_queried<H, P>(m: Machine<H, P>, reply: Result<ImportReply, VkResult>)
    requires
        m.inv(),
    ensures
        orderly(m, m.limits_queried(reply)),
{
}

proof fn lemma_image_created<H, P>(m: Machine<H, P>, reply: Result<ImageRequirements, VkResult>)
    requires
        m.inv(),
    ensures
        orderly(m, m.image_created(reply)),
{
}

proof fn lemma_fd_duplicated<H, P>(m: Machine<H, P>, reply: Result<(), std::io::Error>)
    requires
        m.inv(),
    ensures
        orderly(m, m.fd_duplicated(reply)),
{
}

proof fn lemma_fd_memory_queried<H, P>(m: Machine<H, P>, reply: Result<u32, VkResult>)
    requires
        m.inv(),
    ensures
        orderly(m, m.fd_memory_queried(reply)),
{
}

proof fn lemma_allocated<H, P>(m: Machine<H, P>, reply: Result<(), VkResult>)
    requires
        m.inv(),
    ensures
        orderly(m, m.allocated(reply)),
{
}

proof fn lemma_bound<H, P>(m: Machine<H, P>, reply: Result<H, VkResult>)
    requires
        m.inv(),
    ensures
        orderly(m, m.bound(reply)),
{
    if let (Phase::Import { source, step: ImportStep::Bind }, Ok(handle)) = (
        m.session.phase,
        reply,
    ) {
        let image = Arc::new(Imported { buffer: m.buffer(source).id, source, handle });
        lemma_begin_keeps(m.with_image(source, image));
    }
}

proof fn lemma_object_created<H, P>(m: Machine<H, P>, reply: Result<u64, VkResult>)
    requires
        m.inv(),
    ensures
        orderly(m, m.object_created(reply)),
{
    match (reply, m.session.phase, m.session.building) {
        (Ok(handle), Phase::Create(step), Some(r)) => {
            lemma_begin_inputs_keeps(m.constructed(with_object(r, step, handle)));
        },
        _ => {},
    }
}

proof fn lemma_object_reset<H, P>(m: Machine<H, P>, reply: Result<u64, VkResult>)
    requires
        m.inv(),
    ensures
        orderly(m, m.object_reset(reply)),
{
    match (reply, m.session.phase, m.session.checkout.resources) {
        (Ok(replacement), Phase::Reset(step), Some(r)) => {
            let clean = with_reset(r, step, replacement);
            lemma_begin_inputs_keeps(m.replaced(step, clean).counting(Counter::ResourceSetsReused));
        },
        _ => {},
    }
}

proof fn lemma_input_exported<H, P>(m: Machine<H, P>, available: bool)
    requires
        m.inv(),
    ensures
        orderly(m, m.input_exported(available)),
{
}

proof fn lemma_input_imported<H, P>(m: Machine<H, P>, reply: Result<(), VkResult>)
    requires
        m.inv(),
    ensures
        orderly(m, m.input_imported(reply)),
{
    if let (Phase::ImportInput(Input::Acquire), Ok(_)) = (m.session.phase, reply) {
        lemma_begin_inputs_keeps(
            Machine {
                session: CopySession { acquire: Progress::Native, ..m.session },
                ..m.counting(Counter::NativeInputImports)
            },
        );
    }
}

proof fn lemma_input_waited<H, P>(m: Machine<H, P>, reply: Result<(), Interrupted>)
    requires
        m.inv(),
    ensures
        orderly(m, m.input_waited(reply)),
{
    if let (Phase::WaitInput(Input::Acquire), Ok(_)) = (m.session.phase, reply) {
        lemma_begin_inputs_keeps(
            Machine { session: CopySession { acquire: Progress::Waited, ..m.session }, ..m },
        );
    }
}

proof fn lemma_recorded<H, P>(m: Machine<H, P>, reply: Result<(), VkResult>)
    requires
        m.inv(),
    ensures
        orderly(m, m.recorded(reply)),
{
}

proof fn lemma_submission_answered<H, P>(m: Machine<H, P>, reply: Result<(), VkResult>)
    requires
        m.inv(),
    ensures
        orderly(m, m.submission_answered(reply)),
{
}

proof fn lemma_signal_exported<H, P>(m: Machine<H, P>, reply: Result<i32, VkResult>)
    requires
        m.inv(),
    ensures
        orderly(m, m.signal_exported(reply)),
{
}

proof fn lemma_published<H, P>(m: Machine<H, P>, completion: P)
    requires
        m.inv(),
    ensures
        orderly(m, m.published(completion)),
{
}

proof fn lemma_orderly<H, P>(m: Machine<H, P>, event: CopyEvent<H, P>)
    requires
        m.inv(),
    ensures
        orderly(m, stepped(m, event)),
{
    match event {
        CopyEvent::Identified(reply) => {
            lemma_identified(m, reply);
        },
        CopyEvent::Polled(reply) => {
            lemma_polled(m, reply);
        },
        CopyEvent::ModifiersListed(Ok(list)) => {
            lemma_modifiers_listed(m, Ok(list@));
        },
        CopyEvent::ModifiersListed(Err(text)) => {
            lemma_modifiers_listed(m, Err(text@));
        },
        CopyEvent::LimitsQueried(reply) => {
            lemma_limits_queried(m, reply);
        },
        CopyEvent::ImageCreated(reply) => {
            lemma_image_created(m, reply);
        },
        CopyEvent::FdDuplicated(reply) => {
            lemma_fd_duplicated(m, reply);
        },
        CopyEvent::FdMemoryQueried(reply) => {
            lemma_fd_memory_queried(m, reply);
        },
        CopyEvent::Allocated(reply) => {
            lemma_allocated(m, reply);
        },
        CopyEvent::Bound(reply) => {
            lemma_bound(m, reply);
        },
        CopyEvent::ObjectCreated(reply) => {
            lemma_object_created(m, reply);
        },
        CopyEvent::ObjectReset(reply) => {
            lemma_object_reset(m, reply);
        },
        CopyEvent::InputExported(available) => {
            lemma_input_exported(m, available);
        },
        CopyEvent::InputImported(reply) => {
            lemma_input_imported(m, reply);
        },
        CopyEvent::InputWaited(reply) => {
            lemma_input_waited(m, reply);
        },
        CopyEvent::Recorded(reply) => {
            lemma_recorded(m, reply);
        },
        CopyEvent::Submitted(reply) => {
            lemma_submission_answered(m, reply);
        },
        CopyEvent::SignalExported(reply) => {
            lemma_signal_exported(m, reply);
        },
        CopyEvent::Published(completion) => {
            lemma_published(m, completion);
        },
    }
}

/// No set of driver objects is lost: a step keeps their number, or a new one is begun. Only a set
/// whose construction failed, and one whose submission met a lost device, leave the pool.
pub proof fn no_set_is_lost<H, P>(m: Machine<H, P>, event: CopyEvent<H, P>)
    requires
        m.inv(),
    ensures
        keeps_sets(m, stepped(m, event)),
{
    lemma_orderly(m, event);
}

/// Before a submission, an error returns the checked-out set: it is the next to be reused, and no
/// pending work is affected.
pub proof fn failed_copy_returns_its_set<H, P>(m: Machine<H, P>, event: CopyEvent<H, P>)
    requires
        m.inv(),
        holds_slot(m.session.phase),
        !(m.session.phase is Create),
        stepped(m, event).1 is Err,
        stepped(m, event).1 != Err::<(), ErrorView>(ErrorView::Vk(lost())),
    ensures
        returned(m, stepped(m, event).0),
{
    lemma_orderly(m, event);
}

/// No successful submission is hidden by an error: from then on every answer, a failed export and
/// a lost device included, leads to a published fence.
pub proof fn successful_submission_is_never_hidden<H, P>(m: Machine<H, P>, event: CopyEvent<H, P>)
    requires
        is_submitted(m.session.phase),
    ensures
        stepped(m, event).1 is Ok,
        is_submitted(stepped(m, event).0.session.phase),
{
}

/// The same of every series of answers.
pub proof fn submitted_copies_stay_submitted<H, P>(m: Machine<H, P>, events: Seq<CopyEvent<H, P>>)
    requires
        is_submitted(m.session.phase),
    ensures
        is_submitted(ran(m, events).session.phase),
    decreases events.len(),
{
    if events.len() > 0 {
        submitted_copies_stay_submitted(m, events.drop_last());
        successful_submission_is_never_hidden(ran(m, events.drop_last()), events.last());
    }
}

/// A published copy adds its completion, and nothing else, to the pending submissions.
pub proof fn published_copies_are_pending<H, P>(m: Machine<H, P>, completion: P)
    requires
        m.session.phase == Phase::Publish,
    ensures
        ({
            let after = stepped(m, CopyEvent::Published(completion)).0;
            &&& after.session.phase == Phase::Finished
            &&& after.bridge.pending == m.bridge.pending.push(completion)
            &&& after.bridge.idle == m.bridge.idle
        }),
{
}

/// A lost device is remembered: no step forgets it, and a step that reports it notes it. Later
/// copies are refused.
pub proof fn device_loss_is_remembered<H, P>(m: Machine<H, P>, event: CopyEvent<H, P>)
    requires
        m.inv(),
    ensures
        remembers_loss(m, stepped(m, event)),
{
    lemma_orderly(m, event);
}

/// Work that may have been submitted to a lost device is neither idle nor pending: its set is left
/// with the copy, to be waited for and destroyed.
pub proof fn lost_work_is_never_recycled<H, P>(m: Machine<H, P>)
    requires
        m.inv(),
        m.session.phase == Phase::Submit,
    ensures
        ({
            let (after, result) = stepped(
                m,
                CopyEvent::Submitted(Err::<(), VkResult>(lost())),
            );
            &&& result == Err::<(), ErrorView>(ErrorView::Vk(lost()))
            &&& after.bridge.device_lost
            &&& after.bridge.idle == m.bridge.idle
            &&& after.bridge.pending == m.bridge.pending
            &&& after.session.submitted == m.session.checkout.resources
        }),
{
}

/// No step changes what was requested.
pub proof fn requests_do_not_change<H, P>(m: Machine<H, P>, event: CopyEvent<H, P>)
    requires
        m.inv(),
    ensures
        same_request(m.session, stepped(m, event).0.session),
{
    lemma_orderly(m, event);
}

/// Unless a fence is being imported or waited for, no step does anything about the input fences.
pub proof fn other_steps_leave_the_inputs<H, P>(m: Machine<H, P>, event: CopyEvent<H, P>)
    requires
        m.inv(),
        !(m.session.phase is ImportInput),
        !(m.session.phase is WaitInput),
    ensures
        same_progress(m.session, stepped(m, event).0.session),
{
    lemma_orderly(m, event);
}

/// What is submitted in the end, after whatever answers, is what was requested at the beginning: a
/// copy that passes validation, between the images of exactly the requested buffers in their
/// roles, after every input fence was imported or waited.
pub proof fn submitted_copies_are_the_requested_ones<H, P>(
    m: Machine<H, P>,
    events: Seq<CopyEvent<H, P>>,
)
    requires
        m.inv(),
        is_submitted(ran(m, events).session.phase),
    ensures
        ({
            let end = ran(m, events).session;
            &&& same_request(m.session, end)
            &&& m.session.known_format == Some(end.format)
            &&& buffers_rejected(m.session.src, m.session.dst) is None
            &&& damage_ok(m.session.src.size, m.session.regions@)
            &&& image_of(end.source, m.session.src.id, true)
            &&& image_of(end.destination, m.session.dst.id, false)
            &&& m.session.acquire_fence ==> end.acquire != Progress::Open
            &&& m.session.release_fence ==> end.release != Progress::Open
        }),
{
    lemma_same_request(m, events);
    every_run_is_consistent(m, events);
}

pub(crate) proof fn lemma_same_request<H, P>(m: Machine<H, P>, events: Seq<CopyEvent<H, P>>)
    requires
        m.inv(),
    ensures
        same_request(m.session, ran(m, events).session),
    decreases events.len(),
{
    if events.len() > 0 {
        lemma_same_request(m, events.drop_last());
        every_run_is_consistent(m, events.drop_last());
        requests_do_not_change(ran(m, events.drop_last()), events.last());
    }
}

/// A submission waits for exactly the semaphores into which this copy imported a fence, and
/// signals one that is not signaled: nothing that an earlier copy left in a reused set is waited
/// for or signaled again.
pub proof fn submissions_use_fresh_payloads<H, P>(m: Machine<H, P>, r: Resources)
    requires
        m.inv(),
        m.session.phase == Phase::Submit,
        m.session.checkout.resources == Some(r),
    ensures
        m.session.acquire == Progress::Native ==> r.acquire.dirty && wait_list(
            r,
            true,
            m.session.release == Progress::Native,
        )[0] == r.acquire.semaphore,
        m.session.release == Progress::Native ==> r.release.dirty,
        !r.dirty_signal,
        wait_list(
            r,
            m.session.acquire == Progress::Native,
            m.session.release == Progress::Native,
        ).len() == (if m.session.acquire == Progress::Native {
            1nat
        } else {
            0
        }) + (if m.session.release == Progress::Native {
            1nat
        } else {
            0
        }),
{
}

/// An image that was just imported is found in the cache next time.
pub proof fn imported_images_are_cached<H>(
    imports: Seq<Arc<Imported<H>>>,
    image: Arc<Imported<H>>,
)
    requires
        imports.len() <= MAX_IMPORTS,
        import_position(imports, image.buffer, image.source, 0) == imports.len(),
    ensures
        ({
            let after = admitted(imports, MAX_IMPORTS as nat, image);
            let i = import_position(after, image.buffer, image.source, 0);
            i < after.len() && after[i] == image
        }),
{
    lemma_import_position(imports, image.buffer, image.source, 0);
    let after = admitted(imports, MAX_IMPORTS as nat, image);
    lemma_import_position(after, image.buffer, image.source, 0);
    assert(after[after.len() - 1] == image);
}

/// An image that was just taken from the cache is found in it next time.
pub proof fn used_images_stay_cached<H>(imports: Seq<Arc<Imported<H>>>, i: int)
    requires
        0 <= i < imports.len(),
    ensures
        ({
            let after = touched(imports, i);
            let k = import_position(after, imports[i].buffer, imports[i].source, 0);
            &&& k < after.len()
            &&& after[k].buffer == imports[i].buffer
            &&& after[k].source == imports[i].source
        }),
{
    let after = touched(imports, i);
    lemma_import_position(after, imports[i].buffer, imports[i].source, 0);
    assert(after[after.len() - 1] == imports[i]);
}

/// No step leads back to an earlier stage.
pub proof fn stages_never_go_back<H, P>(m: Machine<H, P>, event: CopyEvent<H, P>)
    requires
        m.inv(),
    ensures
        stage_place(m.session.reached) <= stage_place(stepped(m, event).0.session.reached),
{
    lemma_orderly(m, event);
}

/// A copy hands out a native descriptor only if the driver exported this submission's semaphore as
/// one: nothing else sets it, and an engine without native export never has one.
pub proof fn native_fences_are_of_this_submission<H, P>(m: Machine<H, P>, event: CopyEvent<H, P>)
    requires
        m.inv(),
    ensures
        stepped(m, event).0.session.exported == match (m.session.phase, event) {
            (Phase::ExportSignal, CopyEvent::SignalExported(Ok(fd))) => if fd >= 0 {
                Some(fd)
            } else {
                None
            },
            _ => m.session.exported,
        },
        m.session.exported is Some ==> m.session.sync_fd.export && (m.session.phase
            == Phase::Publish || m.session.phase == Phase::Finished),
{
    if m.session.phase != Phase::ExportSignal {
        lemma_orderly(m, event);
    }
}

} // verus!
