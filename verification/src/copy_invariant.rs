//! What every step of a copy keeps.

use crate::bridge::{
    admitted, import_position, lemma_import_position, touched, BridgeView, Imported, MAX_IMPORTS,
    MAX_PENDING,
};
use crate::copy::{
    holds_slot, image_of, stepped, CopyEvent, CopySession, ImageRequirements, ImportStep, Machine,
    Phase, Progress,
};
use crate::error::{ErrorView, Interrupted, VkResult};
use crate::modifiers::{ImportReply, ModifierProperties};
use crate::names::Counter;
use crate::resources::{
    after_create, after_reset, is_clean, with_object, with_reset, CreateStep, Input, ResetStep,
    Resources,
};
use crate::validate::{damage_ok, Allocation};
use std::sync::Arc;
use vstd::prelude::*;

verus! {

proof fn lemma_touched<H>(imports: Seq<Arc<Imported<H>>>, i: int)
    requires
        0 <= i < imports.len() <= MAX_IMPORTS,
        unique(imports),
    ensures
        unique(touched(imports, i)),
        touched(imports, i).len() == imports.len(),
{
}

proof fn lemma_admitted<H>(imports: Seq<Arc<Imported<H>>>, image: Arc<Imported<H>>)
    requires
        imports.len() <= MAX_IMPORTS,
        unique(imports),
        import_position(imports, image.buffer, image.source, 0) == imports.len(),
    ensures
        unique(admitted(imports, MAX_IMPORTS as nat, image)),
        admitted(imports, MAX_IMPORTS as nat, image).len() <= MAX_IMPORTS,
{
    lemma_import_position(imports, image.buffer, image.source, 0);
}

/// No image is cached twice in one role.
spec fn unique<H>(imports: Seq<Arc<Imported<H>>>) -> bool {
    forall|i: int, j: int|
        0 <= i < j < imports.len() ==> !((#[trigger] imports[i]).buffer == (
        #[trigger] imports[j]).buffer && imports[i].source == imports[j].source)
}

/// What holds of a validated copy that has not taken a set yet.
spec fn ready<H, P>(m: Machine<H, P>) -> bool {
    &&& m.bridge.caches_ok()
    &&& m.bridge.slots() <= MAX_PENDING
    &&& m.bridge.pending.len() < MAX_PENDING
    &&& m.session.is_valid()
    &&& m.session.building is None
    &&& m.session.checkout.resources is None
    &&& m.session.submitted is None
    &&& m.session.inputs_open()
    &&& m.session.exported is None
}

proof fn lemma_begin_checkout<H, P>(m: Machine<H, P>)
    requires
        ready(m),
        image_of(m.session.source, m.session.src.id, true),
        image_of(m.session.destination, m.session.dst.id, false),
    ensures
        m.begin_checkout().inv(),
{
}

proof fn lemma_begin_destination<H, P>(m: Machine<H, P>)
    requires
        ready(m),
        image_of(m.session.source, m.session.src.id, true),
    ensures
        m.begin_destination().inv(),
{
    let imports = m.bridge.imports;
    let i = import_position(imports, m.session.dst.id, false, 0);
    lemma_import_position(imports, m.session.dst.id, false, 0);
    if i < imports.len() {
        lemma_touched(imports, i);
        let hit = Machine {
            bridge: BridgeView { imports: touched(imports, i), ..m.bridge },
            session: CopySession { destination: Some(imports[i]), ..m.session },
            ..m
        };
        lemma_begin_checkout(hit);
    }
}

proof fn lemma_begin_source<H, P>(m: Machine<H, P>)
    requires
        ready(m),
    ensures
        m.begin_source().inv(),
{
    let imports = m.bridge.imports;
    let i = import_position(imports, m.session.src.id, true, 0);
    lemma_import_position(imports, m.session.src.id, true, 0);
    if i < imports.len() {
        lemma_touched(imports, i);
        let hit = Machine {
            bridge: BridgeView { imports: touched(imports, i), ..m.bridge },
            session: CopySession { source: Some(imports[i]), ..m.session },
            ..m
        };
        lemma_begin_destination(hit);
    }
}

proof fn lemma_imported<H, P>(m: Machine<H, P>, source: bool, image: Arc<Imported<H>>)
    requires
        m.inv(),
        m.session.phase == (Phase::Import { source, step: ImportStep::Bind }),
        image.buffer == m.buffer(source).id,
        image.source == source,
    ensures
        m.imported(source, image).inv(),
{
    let imports = m.bridge.imports;
    lemma_admitted(imports, image);
    if source {
        lemma_begin_destination(m.with_image(source, image));
    } else {
        lemma_begin_checkout(m.with_image(source, image));
    }
}

proof fn lemma_reap<H, P>(m: Machine<H, P>, i: int)
    requires
        m.bridge.caches_ok(),
        m.bridge.slots() <= MAX_PENDING,
        m.session.is_valid(),
        m.session.building is None,
        m.session.checkout.resources is None,
        m.session.submitted is None,
        m.session.inputs_open(),
        m.session.exported is None,
        i >= 0,
    ensures
        m.reap(i).0.inv(),
{
    if i < m.bridge.pending.len() {
    } else if m.bridge.device_lost || m.bridge.pending.len() >= MAX_PENDING {
    } else {
        lemma_begin_source(m);
    }
}

proof fn lemma_failed<H, P>(m: Machine<H, P>, err: ErrorView)
    requires
        m.inv(),
    ensures
        m.session.exported is None ==> m.failed(err).0.inv(),
{
}

proof fn lemma_begin_release<H, P>(m: Machine<H, P>, r: Resources)
    requires
        m.inv(),
        m.session.checkout.resources == Some(r),
        holds_slot(m.session.phase),
        m.session.acquire_done(r),
        !r.release.dirty,
    ensures
        m.begin_release().inv(),
{
}

proof fn lemma_begin_inputs<H, P>(m: Machine<H, P>, r: Resources)
    requires
        m.inv(),
        m.session.phase == Phase::Reset(ResetStep::CommandPool),
        m.session.checkout.resources == Some(r),
        is_clean(r),
    ensures
        m.begin_inputs().inv(),
{
    if !m.session.acquire_fence {
        lemma_begin_release(m, r);
    }
}

proof fn lemma_object_created<H, P>(m: Machine<H, P>, reply: Result<u64, VkResult>)
    requires
        m.inv(),
    ensures
        m.object_created(reply).0.inv(),
{
    match (m.session.phase, m.session.building, reply) {
        (Phase::Create(step), Some(r), Err(err)) => {
            lemma_failed(m, ErrorView::Vk(err));
        },
        (Phase::Create(step), Some(r), Ok(handle)) => {
            let made = with_object(r, step, handle);
            if after_create(step, m.session.sync_fd.export) == CreateStep::Done {
                lemma_begin_inputs(
                    m.constructed(made).at(Phase::Reset(ResetStep::CommandPool)),
                    made,
                );
            }
        },
        _ => {},
    }
}

proof fn lemma_object_reset<H, P>(m: Machine<H, P>, reply: Result<u64, VkResult>)
    requires
        m.inv(),
    ensures
        m.object_reset(reply).0.inv(),
{
    match (m.session.phase, m.session.checkout.resources, reply) {
        (Phase::Reset(step), Some(r), Err(err)) => {
            lemma_failed(m, ErrorView::Vk(err));
        },
        (Phase::Reset(step), Some(r), Ok(replacement)) => {
            let clean = with_reset(r, step, replacement);
            if after_reset(clean, step) == ResetStep::Done {
                lemma_begin_inputs(
                    m.replaced(step, clean).counting(Counter::ResourceSetsReused).at(
                        Phase::Reset(ResetStep::CommandPool),
                    ),
                    clean,
                );
            }
        },
        _ => {},
    }
}

/// Dealing with the acquire fence leaves a state from which the release fence can follow.
proof fn lemma_acquire_done<H, P>(m: Machine<H, P>, progress: Progress)
    requires
        m.inv(),
        m.session.phase == Phase::ImportInput(Input::Acquire) || (m.session.phase
            == Phase::WaitInput(Input::Acquire) && progress == Progress::Waited),
        progress != Progress::Open,
    ensures
        m.input_done(Input::Acquire, progress).inv(),
{
}

proof fn lemma_release_done<H, P>(m: Machine<H, P>, progress: Progress)
    requires
        m.inv(),
        m.session.phase == Phase::ImportInput(Input::Release) || (m.session.phase
            == Phase::WaitInput(Input::Release) && progress == Progress::Waited),
        progress != Progress::Open,
    ensures
        m.input_done(Input::Release, progress).inv(),
{
}

proof fn lemma_input_exported<H, P>(m: Machine<H, P>, available: bool)
    requires
        m.inv(),
    ensures
        m.input_exported(available).0.inv(),
{
}

proof fn lemma_input_imported<H, P>(m: Machine<H, P>, reply: Result<(), VkResult>)
    requires
        m.inv(),
    ensures
        m.input_imported(reply).0.inv(),
{
    match (m.session.phase, reply) {
        (Phase::ImportInput(Input::Acquire), Ok(_)) => {
            lemma_acquire_done(m.counting(Counter::NativeInputImports), Progress::Native);
        },
        (Phase::ImportInput(Input::Release), Ok(_)) => {
            lemma_release_done(m.counting(Counter::NativeInputImports), Progress::Native);
        },
        (_, Err(err)) => {
            lemma_failed(m, ErrorView::Vk(err));
        },
        _ => {},
    }
}

proof fn lemma_input_waited<H, P>(m: Machine<H, P>, reply: Result<(), Interrupted>)
    requires
        m.inv(),
    ensures
        m.input_waited(reply).0.inv(),
{
    match (m.session.phase, reply) {
        (Phase::WaitInput(Input::Acquire), Ok(_)) => {
            lemma_acquire_done(m, Progress::Waited);
        },
        (Phase::WaitInput(Input::Release), Ok(_)) => {
            lemma_release_done(m, Progress::Waited);
        },
        (_, Err(_)) => {
            lemma_failed(m, ErrorView::Wait);
        },
        _ => {},
    }
}

proof fn lemma_recorded<H, P>(m: Machine<H, P>, reply: Result<(), VkResult>)
    requires
        m.inv(),
    ensures
        m.recorded(reply).0.inv(),
{
    if let Err(err) = reply {
        lemma_failed(m, ErrorView::Vk(err));
    }
}

proof fn lemma_submission_answered<H, P>(m: Machine<H, P>, reply: Result<(), VkResult>)
    requires
        m.inv(),
    ensures
        m.submission_answered(reply).0.inv(),
{
}

proof fn lemma_signal_exported<H, P>(m: Machine<H, P>, reply: Result<i32, VkResult>)
    requires
        m.inv(),
    ensures
        m.signal_exported(reply).0.inv(),
{
}

proof fn lemma_published<H, P>(m: Machine<H, P>, completion: P)
    requires
        m.inv(),
    ensures
        m.published(completion).0.inv(),
{
}

proof fn lemma_modifiers_listed<H, P>(
    m: Machine<H, P>,
    reply: Result<Seq<ModifierProperties>, Seq<char>>,
)
    requires
        m.inv(),
    ensures
        m.modifiers_listed(reply).0.inv(),
{
    lemma_failed(
        m,
        ErrorView::Unsupported(
            "modifier is unsupported, has auxiliary planes or lacks transfer support"@,
        ),
    );
    if let Err(text) = reply {
        lemma_failed(m, ErrorView::Setup(text));
    }
}

proof fn lemma_limits_queried<H, P>(m: Machine<H, P>, reply: Result<ImportReply, VkResult>)
    requires
        m.inv(),
    ensures
        m.limits_queried(reply).0.inv(),
{
    lemma_failed(m, ErrorView::Unsupported("image is not importable"@));
    lemma_failed(m, ErrorView::Unsupported("image is not importable at this size"@));
    if let Err(err) = reply {
        lemma_failed(m, ErrorView::Vk(err));
    }
}

proof fn lemma_image_created<H, P>(m: Machine<H, P>, reply: Result<ImageRequirements, VkResult>)
    requires
        m.inv(),
    ensures
        m.image_created(reply).0.inv(),
{
    if let Err(err) = reply {
        lemma_failed(m, ErrorView::Vk(err));
    }
}

proof fn lemma_fd_duplicated<H, P>(m: Machine<H, P>, reply: Result<(), std::io::Error>)
    requires
        m.inv(),
    ensures
        m.fd_duplicated(reply).0.inv(),
{
    if let Err(err) = reply {
        lemma_failed(m, ErrorView::Io(err));
    }
}

proof fn lemma_fd_memory_queried<H, P>(m: Machine<H, P>, reply: Result<u32, VkResult>)
    requires
        m.inv(),
    ensures
        m.fd_memory_queried(reply).0.inv(),
{
    lemma_failed(m, ErrorView::Unsupported("no common memory type for dma-buf and image"@));
    if let Err(err) = reply {
        lemma_failed(m, ErrorView::Vk(err));
    }
}

proof fn lemma_allocated<H, P>(m: Machine<H, P>, reply: Result<(), VkResult>)
    requires
        m.inv(),
    ensures
        m.allocated(reply).0.inv(),
{
    if let Err(err) = reply {
        lemma_failed(m, ErrorView::Vk(err));
    }
}

proof fn lemma_bound<H, P>(m: Machine<H, P>, reply: Result<H, VkResult>)
    requires
        m.inv(),
    ensures
        m.bound(reply).0.inv(),
{
    match (m.session.phase, reply) {
        (Phase::Import { source, step: ImportStep::Bind }, Ok(handle)) => {
            lemma_imported(
                m,
                source,
                Arc::new(Imported { buffer: m.buffer(source).id, source, handle }),
            );
        },
        (_, Err(err)) => {
            lemma_failed(m, ErrorView::Vk(err));
        },
        _ => {},
    }
}

proof fn lemma_identified<H, P>(m: Machine<H, P>, reply: Result<Allocation, std::io::Error>)
    requires
        m.inv(),
    ensures
        m.identified(reply).0.inv(),
{
    if let Phase::IdentifyDestination(first) = m.session.phase {
        if let Ok(second) = reply {
            if let Some(format) = m.session.known_format {
                if first != second && damage_ok(m.session.src.size, m.session.regions@) {
                    lemma_reap(Machine { session: CopySession { format, ..m.session }, ..m }, 0);
                }
            }
        }
    }
}

proof fn lemma_polled<H, P>(m: Machine<H, P>, reply: Result<Option<Resources>, VkResult>)
    requires
        m.inv(),
    ensures
        m.polled(reply).0.inv(),
{
    if let Phase::Reap(i) = m.session.phase {
        match reply {
            Err(err) => {
                lemma_failed(m, ErrorView::Vk(err));
            },
            Ok(None) => {
                lemma_reap(m, i + 1);
            },
            Ok(Some(resources)) => {
                lemma_reap(m.recycled(i as int, resources), i as int);
            },
        }
    }
}

/// Every step keeps the invariant: caches stay bounded and hold every key once, there are never
/// more than `MAX_PENDING` sets of driver objects, and work is submitted only after every input
/// fence was dealt with.
pub proof fn step_keeps_the_invariant<H, P>(m: Machine<H, P>, event: CopyEvent<H, P>)
    requires
        m.inv(),
    ensures
        stepped(m, event).0.inv(),
{
    match event {
        CopyEvent::Identified(reply) => {
            lemma_identified(m, reply);
        },
        CopyEvent::Polled(reply) => {
            lemma_polled(m, reply);
        },
        CopyEvent::ModifiersListed(Ok(list)) => {
            lemma_modifiers_listed(m, Ok(list@));
        },
        CopyEvent::ModifiersListed(Err(text)) => {
            lemma_modifiers_listed(m, Err(text@));
        },
        CopyEvent::LimitsQueried(reply) => {
            lemma_limits_queried(m, reply);
        },
        CopyEvent::ImageCreated(reply) => {
            lemma_image_created(m, reply);
        },
        CopyEvent::FdDuplicated(reply) => {
            lemma_fd_duplicated(m, reply);
        },
        CopyEvent::FdMemoryQueried(reply) => {
            lemma_fd_memory_queried(m, reply);
        },
        CopyEvent::Allocated(reply) => {
            lemma_allocated(m, reply);
        },
        CopyEvent::Bound(reply) => {
            lemma_bound(m, reply);
        },
        CopyEvent::ObjectCreated(reply) => {
            lemma_object_created(m, reply);
        },
        CopyEvent::ObjectReset(reply) => {
            lemma_object_reset(m, reply);
        },
        CopyEvent::InputExported(reply) => {
            lemma_input_exported(m, reply);
        },
        CopyEvent::InputImported(reply) => {
            lemma_input_imported(m, reply);
        },
        CopyEvent::InputWaited(reply) => {
            lemma_input_waited(m, reply);
        },
        CopyEvent::Recorded(reply) => {
            lemma_recorded(m, reply);
        },
        CopyEvent::Submitted(reply) => {
            lemma_submission_answered(m, reply);
        },
        CopyEvent::SignalExported(reply) => {
            lemma_signal_exported(m, reply);
        },
        CopyEvent::Published(reply) => {
            lemma_published(m, reply);
        },
    }
}

/// The state after a series of events.
pub open spec fn ran<H, P>(m: Machine<H, P>, events: Seq<CopyEvent<H, P>>) -> Machine<H, P>
    decreases events.len(),
{
    if events.len() == 0 {
        m
    } else {
        stepped(ran(m, events.drop_last()), events.last()).0
    }
}

/// Whatever is answered, in whatever order: there are never more than `MAX_PENDING` sets of driver
/// objects and `MAX_IMPORTS` cached images, and no image is cached twice.
pub proof fn every_run_is_consistent<H, P>(m: Machine<H, P>, events: Seq<CopyEvent<H, P>>)
    requires
        m.inv(),
    ensures
        ran(m, events).inv(),
        ran(m, events).slots() <= MAX_PENDING,
        ran(m, events).bridge.caches_ok(),
    decreases events.len(),
{
    if events.len() > 0 {
        every_run_is_consistent(m, events.drop_last());
        step_keeps_the_invariant(ran(m, events.drop_last()), events.last());
    }
}

} // verus!
