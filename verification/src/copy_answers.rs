//! What each answer of the driver does to a copy, field by field.

use crate::bridge::{import_position, lemma_import_position, touched, BridgeView, Imported};
use crate::copy::{
    describes, image_request_of, stepped, wait_list, CopyEvent, CopySession, ImageRequest,
    ImageRequirements, ImportStep, Machine, Phase, Progress, Stepped,
};
use crate::copy_laws::same_request;
use crate::error::{lost, ErrorView, Interrupted, VkResult};
use crate::geometry::Rectangle;
use crate::modifiers::{has_type, ImportReply, ModifierProperties};
use crate::names::{Counter, Stage};
use crate::resources::{CreateStep, Input, ResetStep, Resources};
use crate::timing::{timing_counted, TimingView};
use crate::validate::{damage_ok, Allocation, Dmabuf};
use std::sync::Arc;
use vstd::prelude::*;

verus! {

/// The engine is as it was.
pub open spec fn same_engine<H, P>(m: Machine<H, P>, after: Machine<H, P>) -> bool {
    &&& same_images(m, after)
    &&& after.bridge.idle == m.bridge.idle
    &&& after.bridge.pending == m.bridge.pending
    &&& after.bridge.device_lost == m.bridge.device_lost
}

/// The engine has the images and enumerations that it had, on the same device.
pub open spec fn same_images<H, P>(m: Machine<H, P>, after: Machine<H, P>) -> bool {
    &&& after.bridge.imports == m.bridge.imports
    &&& same_device(m, after)
}

/// The engine is on the same device, with the enumerations that it had.
pub open spec fn same_device<H, P>(m: Machine<H, P>, after: Machine<H, P>) -> bool {
    &&& after.bridge.queries == m.bridge.queries
    &&& after.bridge.sync_fd == m.bridge.sync_fd
}

/// The copy has the images that it had, of the same request.
pub open spec fn same_copy<H, P>(m: Machine<H, P>, after: Machine<H, P>) -> bool {
    &&& same_request(m.session, after.session)
    &&& after.session.format == m.session.format
    &&& after.session.source == m.session.source
    &&& after.session.destination == m.session.destination
}

/// Nothing was done about the input fences.
pub open spec fn same_inputs<H, P>(m: Machine<H, P>, after: Machine<H, P>) -> bool {
    &&& after.session.acquire == m.session.acquire
    &&& after.session.release == m.session.release
}

/// The copy has the sets that it had, and has handed out what it had.
pub open spec fn same_set<H, P>(m: Machine<H, P>, after: Machine<H, P>) -> bool {
    &&& after.session.building == m.session.building
    &&& after.session.checkout == m.session.checkout
    &&& after.session.submitted == m.session.submitted
    &&& after.session.exported == m.session.exported
}

/// The copy goes on with `phase`, and nothing else changed.
pub open spec fn moves<H, P>(m: Machine<H, P>, step: Stepped<H, P>, phase: Phase) -> bool {
    &&& step.1 is Ok
    &&& step.0.session.phase == phase
    &&& same_engine(m, step.0)
    &&& same_copy(m, step.0)
    &&& same_inputs(m, step.0)
    &&& same_set(m, step.0)
    &&& step.0.timing == m.timing
}

/// The copy ends with `err`. Its set, if it has one, is idle again; a lost device is noted; nothing
/// else changed.
pub open spec fn fails<H, P>(m: Machine<H, P>, step: Stepped<H, P>, err: ErrorView) -> bool {
    let after = step.0;
    &&& step.1 == Err::<(), ErrorView>(err)
    &&& after.session.phase == Phase::Failed
    &&& !(m.session.phase is Reap) && !(m.session.phase is IdentifyDestination)
        ==> after.session.reached == m.session.reached
    &&& after.session.checkout.resources is None
    &&& m.session.checkout.resources is None ==> after.bridge.idle == m.bridge.idle
    &&& m.session.checkout.resources is Some ==> after.bridge.idle == m.bridge.idle.push(
        m.session.checkout.resources->0,
    )
    &&& after.bridge.device_lost == (m.bridge.device_lost || err == ErrorView::Vk(lost()))
    &&& after.bridge.pending == m.bridge.pending
    &&& same_images(m, after)
    &&& same_copy(m, after)
    &&& same_inputs(m, after)
    &&& after.session.building == m.session.building
    &&& after.session.submitted == m.session.submitted
    &&& after.session.exported == m.session.exported
    &&& after.timing == m.timing
}

/// The recorder counted one event of that counter.
pub open spec fn counts<H, P>(m: Machine<H, P>, after: Machine<H, P>, counter: Counter) -> bool {
    after.timing == timing_counted(m.timing, counter, 1)
}

/// An image is cached for a buffer in a role.
pub open spec fn is_cached<H>(imports: Seq<Arc<Imported<H>>>, buffer: u64, source: bool) -> bool {
    exists|i: int|
        0 <= i < imports.len() && (#[trigger] imports[i]).buffer == buffer && imports[i].source
            == source
}

/// The same images are cached, with `image` as the most recently used.
pub open spec fn reordered<H>(
    before: Seq<Arc<Imported<H>>>,
    after: Seq<Arc<Imported<H>>>,
    image: Arc<Imported<H>>,
) -> bool {
    &&& after.len() == before.len()
    &&& before.contains(image)
    &&& after.last() == image
    &&& forall|i: int| 0 <= i < before.len() ==> after.contains(#[trigger] before[i])
    &&& forall|i: int| 0 <= i < after.len() ==> before.contains(#[trigger] after[i])
}

/// The set that a copy begins with: the last idle one, or else a new one of which nothing exists.
pub open spec fn takes_a_set<H, P>(m: Machine<H, P>, after: Machine<H, P>) -> bool {
    &&& after.bridge.pending == m.bridge.pending
    &&& after.bridge.device_lost == m.bridge.device_lost
    &&& same_device(m, after)
    &&& same_request(m.session, after.session)
    &&& after.session.format == m.session.format
    &&& same_inputs(m, after)
    &&& after.session.submitted == m.session.submitted
    &&& after.session.exported == m.session.exported
    &&& m.bridge.idle.len() > 0 ==> {
        &&& after.session.phase == Phase::Reset(ResetStep::CommandPool)
        &&& after.session.checkout.resources == Some(m.bridge.idle.last())
        &&& after.bridge.idle == m.bridge.idle.drop_last()
        &&& after.session.building == m.session.building
        &&& after.timing == m.timing
    }
    &&& m.bridge.idle.len() == 0 ==> {
        &&& after.session.phase == Phase::Create(CreateStep::CommandPool)
        &&& after.session.checkout == m.session.checkout
        &&& after.bridge.idle == m.bridge.idle
        &&& after.session.building matches Some(r)
        &&& r.pool == 0 && r.command == 0 && r.fence == 0 && r.signal == 0
        &&& r.acquire.semaphore == 0 && r.release.semaphore == 0
        &&& !r.acquire.dirty && !r.release.dirty && !r.dirty_signal
        &&& counts(m, after, Counter::ResourceSetsCreated)
    }
}

/// The copy takes the destination's image from the cache and then a set, or imports it.
pub open spec fn gets_destination<H, P>(m: Machine<H, P>, after: Machine<H, P>) -> bool {
    &&& after.session.source == m.session.source
    &&& is_cached(m.bridge.imports, m.session.dst.id, false) ==> {
        &&& after.session.destination matches Some(image)
        &&& image.buffer == m.session.dst.id
        &&& !image.source
        &&& reordered(m.bridge.imports, after.bridge.imports, image)
        &&& takes_a_set(m, after)
    }
    &&& !is_cached(m.bridge.imports, m.session.dst.id, false) ==> imports_next(m, after, false)
}

/// The copy imports a buffer: the driver is asked for the modifiers of its format.
pub open spec fn imports_next<H, P>(m: Machine<H, P>, after: Machine<H, P>, source: bool) -> bool {
    &&& after.session.phase == Phase::Import { source, step: ImportStep::ListModifiers }
    &&& same_engine(m, after)
    &&& same_copy(m, after)
    &&& same_inputs(m, after)
    &&& same_set(m, after)
    &&& counts(
        m,
        after,
        if source {
            Counter::SourceImportMisses
        } else {
            Counter::TargetImportMisses
        },
    )
}

/// The copy takes the source's image from the cache and goes on with the destination, or imports
/// it.
pub open spec fn gets_source<H, P>(m: Machine<H, P>, after: Machine<H, P>) -> bool {
    &&& is_cached(m.bridge.imports, m.session.src.id, true) ==> exists|mid: Machine<H, P>|
        holds_source(m, mid) && #[trigger] gets_destination(mid, after)
    &&& !is_cached(m.bridge.imports, m.session.src.id, true) ==> imports_next(m, after, true)
}

/// The state with the source's image taken from the cache, and nothing else changed.
pub open spec fn holds_source<H, P>(m: Machine<H, P>, mid: Machine<H, P>) -> bool {
    &&& mid.session.source matches Some(image)
    &&& image.buffer == m.session.src.id
    &&& image.source
    &&& reordered(m.bridge.imports, mid.bridge.imports, image)
    &&& mid.bridge.idle == m.bridge.idle
    &&& mid.bridge.pending == m.bridge.pending
    &&& mid.bridge.device_lost == m.bridge.device_lost
    &&& same_device(m, mid)
    &&& same_request(m.session, mid.session)
    &&& mid.session.format == m.session.format
    &&& mid.session.destination == m.session.destination
    &&& same_inputs(m, mid)
    &&& same_set(m, mid)
    &&& mid.timing == m.timing
}

/// The pending submissions from `i` on are looked at, one after another. After the last one a lost
/// device, and eight submissions that are still pending, end the copy; otherwise it goes on with
/// its source.
pub open spec fn looks_at<H, P>(m: Machine<H, P>, i: int, step: Stepped<H, P>) -> bool {
    &&& i < m.bridge.pending.len() ==> moves(m, step, Phase::Reap(i as usize))
    &&& step.1 is Err ==> step.0.session.reached == Stage::VulkanRetire
    &&& i >= m.bridge.pending.len() && m.bridge.device_lost ==> fails(
        m,
        step,
        ErrorView::Vk(lost()),
    )
    &&& i >= m.bridge.pending.len() && !m.bridge.device_lost && m.bridge.pending.len() >= 8
        ==> exists|mid: Machine<H, P>|
        busy(m, mid) && #[trigger] fails(mid, step, ErrorView::Busy)
    &&& i >= m.bridge.pending.len() && !m.bridge.device_lost && m.bridge.pending.len() < 8 ==> {
        &&& step.1 is Ok
        &&& gets_source(m, step.0)
    }
}

/// The state with one more refused copy, and nothing else changed.
pub open spec fn busy<H, P>(m: Machine<H, P>, mid: Machine<H, P>) -> bool {
    &&& same_engine(m, mid)
    &&& same_copy(m, mid)
    &&& same_inputs(m, mid)
    &&& same_set(m, mid)
    &&& counts(m, mid, Counter::ResourcePoolBusy)
}

/// Input fences are dealt with one after another, the acquire fence first: natively if the engine
/// imports native fences, and otherwise by an explicit wait, which is counted. Without fences the
/// copy is recorded.
pub open spec fn settles<H, P>(
    m: Machine<H, P>,
    after: Machine<H, P>,
    timing: TimingView,
    acquire: bool,
    release: bool,
) -> bool {
    let import = m.session.sync_fd.import;
    &&& acquire && import ==> after.session.phase == Phase::ExportInput(Input::Acquire)
    &&& acquire && !import ==> after.session.phase == Phase::WaitInput(Input::Acquire)
    &&& !acquire && release && import ==> after.session.phase == Phase::ExportInput(Input::Release)
    &&& !acquire && release && !import ==> after.session.phase == Phase::WaitInput(Input::Release)
    &&& !acquire && !release ==> after.session.phase == Phase::Record
    &&& (acquire || release) && !import ==> after.timing == timing_counted(
        timing,
        Counter::CpuInputWaits,
        1,
    )
    &&& import || (!acquire && !release) ==> after.timing == timing
    &&& same_engine(m, after)
    &&& same_copy(m, after)
    &&& after.session.submitted == m.session.submitted
    &&& after.session.exported == m.session.exported
}

proof fn lemma_touched<H>(imports: Seq<Arc<Imported<H>>>, i: int)
    requires
        0 <= i < imports.len(),
    ensures
        reordered(imports, touched(imports, i), imports[i]),
{
    let after = touched(imports, i);
    assert forall|k: int| 0 <= k < imports.len() implies after.contains(#[trigger] imports[k]) by {
        if k < i {
            assert(after[k] == imports[k]);
        } else if k > i {
            assert(after[k - 1] == imports[k]);
        } else {
            assert(after[after.len() - 1] == imports[i]);
        }
    }
    assert forall|k: int| 0 <= k < after.len() implies imports.contains(#[trigger] after[k]) by {
        if k < i {
            assert(imports[k] == after[k]);
        } else if k < after.len() - 1 {
            assert(imports[k + 1] == after[k]);
        }
    }
}

proof fn lemma_takes_a_set<H, P>(m: Machine<H, P>)
    ensures
        takes_a_set(m, m.begin_checkout()),
        m.begin_checkout().bridge.imports == m.bridge.imports,
        m.begin_checkout().session.source == m.session.source,
        m.begin_checkout().session.destination == m.session.destination,
{
}

proof fn lemma_gets_destination<H, P>(m: Machine<H, P>)
    ensures
        gets_destination(m, m.begin_destination()),
{
    lemma_import_position(m.bridge.imports, m.session.dst.id, false, 0);
    let i = import_position(m.bridge.imports, m.session.dst.id, false, 0);
    if i < m.bridge.imports.len() {
        lemma_touched(m.bridge.imports, i);
        let found = Machine {
            bridge: BridgeView { imports: touched(m.bridge.imports, i), ..m.bridge },
            session: CopySession { destination: Some(m.bridge.imports[i]), ..m.session },
            ..m
        };
        lemma_takes_a_set(found);
        assert(m.begin_destination() == found.begin_checkout());
    }
}

proof fn lemma_gets_source<H, P>(m: Machine<H, P>)
    ensures
        gets_source(m, m.begin_source()),
{
    lemma_import_position(m.bridge.imports, m.session.src.id, true, 0);
    let i = import_position(m.bridge.imports, m.session.src.id, true, 0);
    if i < m.bridge.imports.len() {
        lemma_touched(m.bridge.imports, i);
        let mid = Machine {
            bridge: BridgeView { imports: touched(m.bridge.imports, i), ..m.bridge },
            session: CopySession { source: Some(m.bridge.imports[i]), ..m.session },
            ..m
        };
        lemma_gets_destination(mid);
        assert(m.begin_source() == mid.begin_destination());
        assert(holds_source(m, mid));
    }
}

proof fn lemma_looks_at<H, P>(m: Machine<H, P>, i: int)
    requires
        m.session.checkout.resources is None,
        m.session.phase is Reap || m.session.phase is IdentifyDestination,
    ensures
        looks_at(m, i, m.reap(i)),
{
    if i >= m.bridge.pending.len() {
        lemma_gets_source(m);
        let mid = m.entering(Stage::VulkanRetire).counting(Counter::ResourcePoolBusy);
        if !m.bridge.device_lost && m.bridge.pending.len() >= 8 {
            assert(fails(mid, m.reap(i), ErrorView::Busy));
            assert(busy(m, mid));
        }
    }
}

/// The first plane of the source and then that of the destination are identified. What cannot be
/// identified ends the copy.
pub proof fn sources_are_identified_first<H, P>(
    m: Machine<H, P>,
    reply: Result<Allocation, std::io::Error>,
)
    requires
        m.session.phase == Phase::IdentifySource,
    ensures
        reply matches Ok(first) ==> moves(
            m,
            stepped(m, CopyEvent::Identified(reply)),
            Phase::IdentifyDestination(first),
        ),
        reply matches Err(err) ==> fails(
            m,
            stepped(m, CopyEvent::Identified(reply)),
            ErrorView::Io(err),
        ),
{
}

/// Whether there is damage and all of it is inside.
pub open spec fn all_inside(regions: Seq<Rectangle>, width: int, height: int) -> bool {
    &&& regions.len() > 0
    &&& forall|i: int|
        0 <= i < regions.len() ==> {
            let r = #[trigger] regions[i];
            &&& r.size.w > 0 && r.size.h > 0
            &&& r.loc.x >= 0 && r.loc.y >= 0
            &&& r.loc.x + r.size.w <= width && r.loc.y + r.size.h <= height
        }
}

/// A copy whose buffers share an allocation, whose damage is empty or not inside, or whose format
/// is unknown ends before anything is imported. Any other copy has its format from then on, and
/// looks at the pending submissions, the first one first.
pub proof fn requests_are_validated_first<H, P>(
    m: Machine<H, P>,
    first: Allocation,
    reply: Result<Allocation, std::io::Error>,
)
    requires
        m.session.phase == Phase::IdentifyDestination(first),
        m.session.checkout.resources is None,
    ensures
        ({
            let step = stepped(m, CopyEvent::Identified(reply));
            let size = m.session.src.size;
            let inside = all_inside(m.session.regions@, size.w as int, size.h as int);
            match reply {
                Err(err) => fails(m, step, ErrorView::Io(err)) && step.0.session.reached
                    == m.session.reached,
                Ok(second) => if first.device == second.device && first.inode == second.inode {
                    fails(
                        m,
                        step,
                        ErrorView::Unsupported("source and destination share an allocation"@),
                    )
                } else if !inside {
                    fails(m, step, ErrorView::Unsupported("empty or out-of-bounds damage"@))
                } else if m.session.known_format is None {
                    fails(m, step, ErrorView::Unsupported("unknown FourCC"@))
                } else {
                    exists|mid: Machine<H, P>|
                        formatted(m, mid) && #[trigger] looks_at(mid, 0, step)
                },
            }
        }),
{
    let size = m.session.src.size;
    assert(all_inside(m.session.regions@, size.w as int, size.h as int) <==> damage_ok(
        size,
        m.session.regions@,
    ));
    if let (Ok(second), Some(format)) = (reply, m.session.known_format) {
        let mid = Machine { session: CopySession { format, ..m.session }, ..m };
        lemma_looks_at(mid, 0);
        assert(formatted(m, mid));
    }
}

/// The state with the copy's format, and nothing else changed.
pub open spec fn formatted<H, P>(m: Machine<H, P>, mid: Machine<H, P>) -> bool {
    &&& m.session.known_format == Some(mid.session.format)
    &&& mid.session.phase == m.session.phase
    &&& same_engine(m, mid)
    &&& same_request(m.session, mid.session)
    &&& mid.session.source == m.session.source
    &&& mid.session.destination == m.session.destination
    &&& same_inputs(m, mid)
    &&& same_set(m, mid)
    &&& mid.timing == m.timing
}

/// A pending submission that gave up its set is no longer pending, and the set is idle; the last
/// submission takes its place and is looked at next. One that keeps its set stays, and the next one
/// is looked at. An error ends the copy.
pub proof fn retired_sets_are_recycled<H, P>(
    m: Machine<H, P>,
    i: usize,
    reply: Result<Option<Resources>, VkResult>,
)
    requires
        m.session.phase == Phase::Reap(i),
        m.session.checkout.resources is None,
        i < m.bridge.pending.len(),
    ensures
        ({
            let step = stepped(m, CopyEvent::Polled(reply));
            match reply {
                Err(err) => fails(m, step, ErrorView::Vk(err)),
                Ok(None) => looks_at(m, i + 1, step),
                Ok(Some(resources)) => exists|mid: Machine<H, P>|
                    retired(m, i as int, resources, mid) && #[trigger] looks_at(
                        mid,
                        i as int,
                        step,
                    ),
            }
        }),
{
    match reply {
        Ok(None) => {
            lemma_looks_at(m, i + 1);
        },
        Ok(Some(resources)) => {
            let mid = m.recycled(i as int, resources);
            lemma_looks_at(mid, i as int);
            assert(retired(m, i as int, resources, mid));
        },
        Err(_) => {},
    }
}

/// The state with submission `i` retired and its set idle, and nothing else changed.
pub open spec fn retired<H, P>(
    m: Machine<H, P>,
    i: int,
    resources: Resources,
    mid: Machine<H, P>,
) -> bool {
    let n = m.bridge.pending.len() as int;
    &&& mid.session.phase == m.session.phase
    &&& mid.bridge.pending.len() == n - 1
    &&& forall|k: int|
        0 <= k < n - 1 ==> #[trigger] mid.bridge.pending[k] == if k == i {
            m.bridge.pending[n - 1]
        } else {
            m.bridge.pending[k]
        }
    &&& mid.bridge.idle == m.bridge.idle.push(resources)
    &&& mid.bridge.device_lost == m.bridge.device_lost
    &&& same_images(m, mid)
    &&& same_copy(m, mid)
    &&& same_inputs(m, mid)
    &&& same_set(m, mid)
    &&& mid.timing == timing_counted(
        timing_counted(m.timing, Counter::BatchesRetired, 1),
        Counter::ResourceSetsRecycled,
        1,
    )
}

/// The buffer of a role.
pub open spec fn buffer_of<H>(session: CopySession<H>, source: bool) -> Dmabuf {
    if source {
        session.src
    } else {
        session.dst
    }
}

/// A buffer is imported only if the driver lists its modifier, other than the invalid one, with a
/// single plane and with transfer support in the buffer's role.
pub proof fn listed_modifiers_are_required<H, P>(
    m: Machine<H, P>,
    source: bool,
    reply: Result<Vec<ModifierProperties>, String>,
)
    requires
        m.session.phase == (Phase::Import { source, step: ImportStep::ListModifiers }),
    ensures
        ({
            let step = stepped(m, CopyEvent::ModifiersListed(reply));
            let modifier = buffer_of(m.session, source).modifier;
            match reply {
                Err(text) => fails(m, step, ErrorView::Setup(text@)),
                Ok(list) => {
                    let listed = exists|i: int|
                        0 <= i < list@.len() && (#[trigger] list@[i]).modifier == modifier
                            && list@[i].modifier != 0x00ff_ffff_ffff_ffff && list@[i].plane_count
                            == 1 && if source {
                            list@[i].tiling_features & 0x4000 == 0x4000
                        } else {
                            list@[i].tiling_features & 0x8000 == 0x8000
                        };
                    &&& listed ==> moves(
                        m,
                        step,
                        Phase::Import { source, step: ImportStep::QueryLimits },
                    )
                    &&& !listed ==> fails(
                        m,
                        step,
                        ErrorView::Unsupported(
                            "modifier is unsupported, has auxiliary planes or lacks transfer support"@,
                        ),
                    )
                },
            }
        }),
{
}

/// A buffer is imported only if the driver imports dma-bufs for such images and the image's extent
/// is within the driver's limits. An unsupported format is no driver error.
pub proof fn limits_are_required<H, P>(
    m: Machine<H, P>,
    source: bool,
    reply: Result<ImportReply, VkResult>,
)
    requires
        m.session.phase == (Phase::Import { source, step: ImportStep::QueryLimits }),
        buffer_of(m.session, source).size.w > 0,
        buffer_of(m.session, source).size.h > 0,
    ensures
        ({
            let step = stepped(m, CopyEvent::LimitsQueried(reply));
            let size = buffer_of(m.session, source).size;
            match reply {
                Err(err) => if err.raw == -11 {
                    fails(m, step, ErrorView::Unsupported("image is not importable"@))
                } else {
                    fails(m, step, ErrorView::Vk(err))
                },
                Ok(found) => if found.memory_features & 4 != 4 || found.handle_types & 0x200
                    != 0x200 {
                    fails(m, step, ErrorView::Unsupported("image is not importable"@))
                } else if size.w <= found.limits.max_width && size.h <= found.limits.max_height
                    && found.limits.max_depth >= 1 && found.limits.max_mip_levels >= 1
                    && found.limits.max_array_layers >= 1 && found.limits.sample_counts & 1 == 1 {
                    moves(m, step, Phase::Import { source, step: ImportStep::CreateImage })
                } else {
                    fails(m, step, ErrorView::Unsupported("image is not importable at this size"@))
                },
            }
        }),
{
}

/// A new image is created, then its descriptor is duplicated, keeping what the image needs; then
/// the descriptor's memory types are asked for. An error ends the copy.
pub proof fn images_are_created_before_their_memory<H, P>(
    m: Machine<H, P>,
    source: bool,
    created: Result<ImageRequirements, VkResult>,
    memory_types: u32,
    size: u64,
    duplicated: Result<(), std::io::Error>,
)
    ensures
        m.session.phase == (Phase::Import { source, step: ImportStep::CreateImage }) ==> {
            let step = stepped(m, CopyEvent::ImageCreated(created));
            match created {
                Err(err) => fails(m, step, ErrorView::Vk(err)),
                Ok(needs) => moves(
                    m,
                    step,
                    Phase::Import {
                        source,
                        step: ImportStep::DuplicateFd {
                            memory_types: needs.memory_types,
                            size: needs.size,
                        },
                    },
                ),
            }
        },
        m.session.phase == (Phase::Import {
            source,
            step: ImportStep::DuplicateFd { memory_types, size },
        }) ==> {
            let step = stepped(m, CopyEvent::FdDuplicated(duplicated));
            match duplicated {
                Err(err) => fails(m, step, ErrorView::Io(err)),
                Ok(_) => moves(
                    m,
                    step,
                    Phase::Import {
                        source,
                        step: ImportStep::QueryFdMemory { memory_types, size },
                    },
                ),
            }
        },
{
}

/// The memory is of the first type that both the image and the descriptor allow, and of the size
/// that the image needs. Without such a type, and with an error, the copy ends.
pub proof fn memory_is_of_a_common_type<H, P>(
    m: Machine<H, P>,
    source: bool,
    memory_types: u32,
    size: u64,
    reply: Result<u32, VkResult>,
)
    requires
        m.session.phase == (Phase::Import {
            source,
            step: ImportStep::QueryFdMemory { memory_types, size },
        }),
    ensures
        ({
            let step = stepped(m, CopyEvent::FdMemoryQueried(reply));
            match reply {
                Err(err) => fails(m, step, ErrorView::Vk(err)),
                Ok(bits) => if memory_types & bits == 0 {
                    fails(
                        m,
                        step,
                        ErrorView::Unsupported("no common memory type for dma-buf and image"@),
                    )
                } else {
                    exists|i: u32|
                        #[trigger] has_type(memory_types & bits, i) && i < 32 && (forall|j: u32|
                            j < i ==> !#[trigger] has_type(memory_types & bits, j)) && moves(
                            m,
                            step,
                            Phase::Import {
                                source,
                                step: ImportStep::Allocate { memory_type: i, size },
                            },
                        )
                },
            }
        }),
{
    if let Ok(bits) = reply {
        let common = memory_types & bits;
        if common != 0 {
            vstd::std_specs::bits::axiom_u32_trailing_zeros(common);
            let i = vstd::std_specs::bits::u32_trailing_zeros(common);
            assert(has_type(common, i));
        }
    }
}

/// Memory is bound after it was imported. A bound image is of that buffer, in that role, with the
/// driver's own objects. It is the copy's image and the most recently used of the cache; a full
/// cache drops its oldest image. After the source comes the destination, and after that the set.
pub proof fn bound_images_are_cached<H, P>(
    m: Machine<H, P>,
    source: bool,
    memory_type: u32,
    size: u64,
    allocated: Result<(), VkResult>,
    reply: Result<H, VkResult>,
)
    requires
        m.bridge.imports.len() <= 8,
    ensures
        m.session.phase == (Phase::Import {
            source,
            step: ImportStep::Allocate { memory_type, size },
        }) ==> {
            let step = stepped(m, CopyEvent::Allocated(allocated));
            match allocated {
                Err(err) => fails(m, step, ErrorView::Vk(err)),
                Ok(_) => moves(m, step, Phase::Import { source, step: ImportStep::Bind }),
            }
        },
        m.session.phase == (Phase::Import { source, step: ImportStep::Bind }) ==> {
            let step = stepped(m, CopyEvent::Bound(reply));
            match reply {
                Err(err) => fails(m, step, ErrorView::Vk(err)),
                Ok(handle) => step.1 is Ok && exists|mid: Machine<H, P>|
                    #[trigger] gains_image(m, mid, source, handle) && if source {
                        gets_destination(mid, step.0)
                    } else {
                        &&& takes_a_set(mid, step.0)
                        &&& step.0.bridge.imports == mid.bridge.imports
                        &&& step.0.session.source == mid.session.source
                        &&& step.0.session.destination == mid.session.destination
                    },
            }
        },
{
    if let Ok(handle) = reply {
        let image = Arc::new(Imported { buffer: m.buffer(source).id, source, handle });
        let mid = m.with_image(source, image);
        lemma_gets_destination(mid);
        lemma_takes_a_set(mid);
        assert(gains_image(m, mid, source, handle));
    }
}

/// The state with a new image of the copy in a role, and nothing else changed.
pub open spec fn gains_image<H, P>(
    m: Machine<H, P>,
    mid: Machine<H, P>,
    source: bool,
    handle: H,
) -> bool {
    let n = m.bridge.imports.len() as int;
    let image = if source {
        mid.session.source
    } else {
        mid.session.destination
    };
    &&& image is Some
    &&& image->0.buffer == buffer_of(m.session, source).id
    &&& image->0.source == source
    &&& image->0.handle == handle
    &&& source ==> mid.session.destination == m.session.destination
    &&& !source ==> mid.session.source == m.session.source
    &&& n < 8 ==> mid.bridge.imports == m.bridge.imports.push(image->0)
    &&& n == 8 ==> mid.bridge.imports == m.bridge.imports.subrange(1, 8).push(image->0)
    &&& mid.bridge.idle == m.bridge.idle
    &&& mid.bridge.pending == m.bridge.pending
    &&& mid.bridge.device_lost == m.bridge.device_lost
    &&& same_device(m, mid)
    &&& same_request(m.session, mid.session)
    &&& mid.session.format == m.session.format
    &&& same_inputs(m, mid)
    &&& same_set(m, mid)
    &&& mid.timing == m.timing
}

/// The set with one more object, and nothing else changed.
pub open spec fn gains_object(
    r: Resources,
    step: CreateStep,
    handle: u64,
    made: Resources,
) -> bool {
    &&& made.pool == if step == CreateStep::CommandPool {
        handle
    } else {
        r.pool
    }
    &&& made.command == if step == CreateStep::CommandBuffer {
        handle
    } else {
        r.command
    }
    &&& made.fence == if step == CreateStep::Fence {
        handle
    } else {
        r.fence
    }
    &&& made.acquire.semaphore == if step == CreateStep::Semaphore(Input::Acquire) {
        handle
    } else {
        r.acquire.semaphore
    }
    &&& made.release.semaphore == if step == CreateStep::Semaphore(Input::Release) {
        handle
    } else {
        r.release.semaphore
    }
    &&& made.signal == if step == CreateStep::Signal {
        handle
    } else {
        r.signal
    }
    &&& made.acquire.dirty == r.acquire.dirty
    &&& made.release.dirty == r.release.dirty
    &&& made.dirty_signal == r.dirty_signal
}

/// The objects of a new set are created in a fixed order: command pool, command buffer, fence, the
/// two semaphores and, on an engine that exports fences, a signal. Each takes its place in the set.
/// With the last one the set is checked out, and the input fences are next. An error ends the copy
/// with the unfinished set still in its hands.
pub proof fn sets_are_created_in_order<H, P>(
    m: Machine<H, P>,
    step: CreateStep,
    r: Resources,
    reply: Result<u64, VkResult>,
)
    requires
        m.session.phase == Phase::Create(step),
        m.session.building == Some(r),
        m.session.checkout.resources is None,
        step != CreateStep::Done,
    ensures
        ({
            let (after, result) = stepped(m, CopyEvent::ObjectCreated(reply));
            let last = step == CreateStep::Signal || (step == CreateStep::Semaphore(Input::Release)
                && !m.session.sync_fd.export);
            match reply {
                Err(err) => fails(m, (after, result), ErrorView::Vk(err)),
                Ok(handle) => {
                    &&& result is Ok
                    &&& !last ==> {
                        &&& after.session.building matches Some(made)
                        &&& gains_object(r, step, handle, made)
                        &&& after.session.phase == Phase::Create(
                            match step {
                                CreateStep::CommandPool => CreateStep::CommandBuffer,
                                CreateStep::CommandBuffer => CreateStep::Fence,
                                CreateStep::Fence => CreateStep::Semaphore(Input::Acquire),
                                CreateStep::Semaphore(Input::Acquire) => CreateStep::Semaphore(
                                    Input::Release,
                                ),
                                _ => CreateStep::Signal,
                            },
                        )
                        &&& after.session.checkout == m.session.checkout
                        &&& after.session.submitted == m.session.submitted
                        &&& after.session.exported == m.session.exported
                        &&& same_engine(m, after)
                        &&& same_copy(m, after)
                        &&& same_inputs(m, after)
                        &&& after.timing == m.timing
                    }
                    &&& last ==> {
                        &&& after.session.building is None
                        &&& after.session.checkout.resources matches Some(made)
                        &&& gains_object(r, step, handle, made)
                        &&& same_inputs(m, after)
                        &&& settles(
                            m,
                            after,
                            m.timing,
                            m.session.acquire_fence,
                            m.session.release_fence,
                        )
                    }
                },
            }
        }),
{
}

/// The set after an object was reset or replaced, and nothing else changed.
pub open spec fn loses_payload(
    r: Resources,
    step: ResetStep,
    replacement: u64,
    clean: Resources,
) -> bool {
    let acquire = step == ResetStep::Semaphore(Input::Acquire);
    let release = step == ResetStep::Semaphore(Input::Release);
    let signal = step == ResetStep::Signal;
    &&& clean.pool == r.pool
    &&& clean.command == r.command
    &&& clean.fence == r.fence
    &&& clean.acquire.dirty == (r.acquire.dirty && !acquire)
    &&& clean.release.dirty == (r.release.dirty && !release)
    &&& clean.dirty_signal == (r.dirty_signal && !signal)
    &&& clean.acquire.semaphore == if acquire {
        replacement
    } else {
        r.acquire.semaphore
    }
    &&& clean.release.semaphore == if release {
        replacement
    } else {
        r.release.semaphore
    }
    &&& clean.signal == if signal {
        replacement
    } else {
        r.signal
    }
}

/// A reused set has its command pool reset, then its fence, and then every semaphore replaced that
/// still holds a payload; a replaced signal is counted. Then the set is reused, which is counted,
/// and the input fences are next. An error ends the copy and returns the set.
pub proof fn sets_are_reset_in_order<H, P>(
    m: Machine<H, P>,
    step: ResetStep,
    r: Resources,
    reply: Result<u64, VkResult>,
)
    requires
        m.session.phase == Phase::Reset(step),
        m.session.checkout.resources == Some(r),
    ensures
        ({
            let (after, result) = stepped(m, CopyEvent::ObjectReset(reply));
            let timing = if step == ResetStep::Signal {
                timing_counted(m.timing, Counter::SignalSemaphoresReplaced, 1)
            } else {
                m.timing
            };
            match reply {
                Err(err) => fails(m, (after, result), ErrorView::Vk(err)),
                Ok(replacement) => {
                    &&& result is Ok
                    &&& after.session.checkout.resources is Some
                    &&& after.session.building == m.session.building
                    &&& same_inputs(m, after)
                    &&& {
                        let clean = after.session.checkout.resources->0;
                        let left = clean.acquire.dirty || clean.release.dirty || clean.dirty_signal;
                        &&& loses_payload(r, step, replacement, clean)
                        &&& step == ResetStep::CommandPool ==> after.session.phase == Phase::Reset(
                            ResetStep::Fence,
                        )
                        &&& step != ResetStep::CommandPool && left ==> after.session.phase
                            == Phase::Reset(
                            if clean.acquire.dirty {
                                ResetStep::Semaphore(Input::Acquire)
                            } else if clean.release.dirty {
                                ResetStep::Semaphore(Input::Release)
                            } else {
                                ResetStep::Signal
                            },
                        )
                        &&& step == ResetStep::CommandPool || left ==> {
                            &&& same_engine(m, after)
                            &&& same_copy(m, after)
                            &&& after.session.submitted == m.session.submitted
                            &&& after.session.exported == m.session.exported
                            &&& after.timing == timing
                        }
                        &&& step != ResetStep::CommandPool && !left ==> settles(
                            m,
                            after,
                            timing_counted(timing, Counter::ResourceSetsReused, 1),
                            m.session.acquire_fence,
                            m.session.release_fence,
                        )
                    }
                },
            }
        }),
{
}

/// The payload flag of an input's semaphore is set, and nothing else changed.
pub open spec fn gains_payload(r: Resources, input: Input, dirty: Resources) -> bool {
    &&& dirty.pool == r.pool
    &&& dirty.command == r.command
    &&& dirty.fence == r.fence
    &&& dirty.signal == r.signal
    &&& dirty.dirty_signal == r.dirty_signal
    &&& dirty.acquire.semaphore == r.acquire.semaphore
    &&& dirty.release.semaphore == r.release.semaphore
    &&& dirty.acquire.dirty == (r.acquire.dirty || input == Input::Acquire)
    &&& dirty.release.dirty == (r.release.dirty || input == Input::Release)
}

/// The fence of an input is waited explicitly from now on, which is counted; nothing else changed.
pub open spec fn waits_explicitly<H, P>(
    m: Machine<H, P>,
    step: Stepped<H, P>,
    input: Input,
) -> bool {
    &&& step.1 is Ok
    &&& step.0.session.phase == Phase::WaitInput(input)
    &&& counts(m, step.0, Counter::CpuInputWaits)
    &&& same_engine(m, step.0)
    &&& same_copy(m, step.0)
    &&& same_inputs(m, step.0)
    &&& same_set(m, step.0)
}

/// An input fence that could be exported is imported next, into its semaphore, which from then on
/// counts as holding a payload. One that could not be exported is waited explicitly.
pub proof fn exported_inputs_are_imported_and_others_waited<H, P>(
    m: Machine<H, P>,
    input: Input,
    r: Resources,
    available: bool,
)
    requires
        m.session.phase == Phase::ExportInput(input),
        m.session.checkout.resources == Some(r),
    ensures
        ({
            let step = stepped(m, CopyEvent::InputExported(available));
            &&& !available ==> waits_explicitly(m, step, input)
            &&& available ==> {
                &&& step.1 is Ok
                &&& step.0.session.phase == Phase::ImportInput(input)
                &&& step.0.session.checkout.resources matches Some(dirty)
                &&& gains_payload(r, input, dirty)
                &&& same_engine(m, step.0)
                &&& same_copy(m, step.0)
                &&& same_inputs(m, step.0)
                &&& step.0.session.building == m.session.building
                &&& step.0.session.submitted == m.session.submitted
                &&& step.0.session.exported == m.session.exported
                &&& step.0.timing == m.timing
            }
        }),
{
}

/// The fence of an input is dealt with, as `progress` says. After the acquire fence comes the
/// release fence, if there is one.
pub open spec fn settled<H, P>(
    m: Machine<H, P>,
    step: Stepped<H, P>,
    input: Input,
    progress: Progress,
    timing: TimingView,
) -> bool {
    &&& step.1 is Ok
    &&& step.0.session.acquire == if input == Input::Acquire {
        progress
    } else {
        m.session.acquire
    }
    &&& step.0.session.release == if input == Input::Release {
        progress
    } else {
        m.session.release
    }
    &&& settles(
        m,
        step.0,
        timing,
        false,
        input == Input::Acquire && m.session.release_fence,
    )
    &&& same_set(m, step.0)
}

/// An imported input fence is waited by the submission, which is counted. If the import failed the
/// fence is waited explicitly; only a lost device ends the copy.
pub proof fn failed_imports_are_waited<H, P>(
    m: Machine<H, P>,
    input: Input,
    reply: Result<(), VkResult>,
)
    requires
        m.session.phase == Phase::ImportInput(input),
    ensures
        ({
            let step = stepped(m, CopyEvent::InputImported(reply));
            match reply {
                Ok(_) => settled(
                    m,
                    step,
                    input,
                    Progress::Native,
                    timing_counted(m.timing, Counter::NativeInputImports, 1),
                ),
                Err(err) => if err.raw == -4 {
                    fails(m, step, ErrorView::Vk(err))
                } else {
                    waits_explicitly(m, step, input)
                },
            }
        }),
{
}

/// A waited input fence is not waited again. An interrupted wait ends the copy.
pub proof fn waited_inputs_are_settled<H, P>(
    m: Machine<H, P>,
    input: Input,
    reply: Result<(), Interrupted>,
)
    requires
        m.session.phase == Phase::WaitInput(input),
    ensures
        ({
            let step = stepped(m, CopyEvent::InputWaited(reply));
            match reply {
                Ok(_) => settled(m, step, input, Progress::Waited, m.timing),
                Err(_) => fails(m, step, ErrorView::Wait),
            }
        }),
{
}

/// Recorded commands are submitted; an error ends the copy.
pub proof fn recorded_copies_are_submitted<H, P>(m: Machine<H, P>, reply: Result<(), VkResult>)
    requires
        m.session.phase == Phase::Record,
    ensures
        ({
            let step = stepped(m, CopyEvent::Recorded(reply));
            match reply {
                Ok(_) => moves(m, step, Phase::Submit),
                Err(err) => fails(m, step, ErrorView::Vk(err)),
            }
        }),
{
}

/// The set after its submission: the semaphores that the submission waits for have lost their
/// payloads, and on an engine that exports fences the signal has one. Nothing else changed.
pub open spec fn is_consumed(
    r: Resources,
    acquire: bool,
    release: bool,
    export: bool,
    used: Resources,
) -> bool {
    let same = r.acquire.semaphore == r.release.semaphore;
    &&& used.pool == r.pool
    &&& used.command == r.command
    &&& used.fence == r.fence
    &&& used.signal == r.signal
    &&& used.acquire.semaphore == r.acquire.semaphore
    &&& used.release.semaphore == r.release.semaphore
    &&& used.dirty_signal == export
    &&& acquire ==> !used.acquire.dirty
    &&& release ==> !used.release.dirty
    &&& !acquire && !(release && same) ==> used.acquire.dirty == r.acquire.dirty
    &&& !release && !(acquire && same) ==> used.release.dirty == r.release.dirty
    &&& same && (acquire || release) ==> !used.acquire.dirty && !used.release.dirty
}

/// An accepted submission is counted, keeps its set, and is exported on an engine that exports
/// fences and published otherwise. A refused one returns the set, as any error does. After a lost
/// device the work may have been submitted: the set stays with the copy.
pub proof fn submissions_keep_their_set<H, P>(
    m: Machine<H, P>,
    r: Resources,
    reply: Result<(), VkResult>,
)
    requires
        m.session.phase == Phase::Submit,
        m.session.checkout.resources == Some(r),
    ensures
        ({
            let (after, result) = stepped(m, CopyEvent::Submitted(reply));
            &&& reply is Err && (reply->Err_0).raw != -4 ==> fails(
                m,
                (after, result),
                ErrorView::Vk(reply->Err_0),
            )
            &&& reply is Err && (reply->Err_0).raw == -4 ==> {
                &&& result == Err::<(), ErrorView>(ErrorView::Vk(reply->Err_0))
                &&& after.session.phase == Phase::Failed
                &&& after.session.submitted == Some(r)
                &&& after.session.checkout.resources is None
                &&& after.session.building == m.session.building
                &&& after.session.exported == m.session.exported
                &&& after.bridge.device_lost
                &&& after.bridge.idle == m.bridge.idle
                &&& after.bridge.pending == m.bridge.pending
                &&& same_images(m, after)
                &&& same_copy(m, after)
                &&& same_inputs(m, after)
                &&& after.timing == m.timing
            }
            &&& reply is Ok ==> {
                &&& result is Ok
                &&& after.session.phase == if m.session.sync_fd.export {
                    Phase::ExportSignal
                } else {
                    Phase::Publish
                }
                &&& after.session.submitted matches Some(used)
                &&& is_consumed(
                    r,
                    m.session.acquire == Progress::Native,
                    m.session.release == Progress::Native,
                    m.session.sync_fd.export,
                    used,
                )
                &&& after.session.checkout.resources is None
                &&& after.session.building == m.session.building
                &&& after.session.exported == m.session.exported
                &&& same_engine(m, after)
                &&& same_copy(m, after)
                &&& same_inputs(m, after)
                &&& counts(m, after, Counter::BatchesCreated)
            }
        }),
{
}

/// After a submission the copy is published whatever the export gave: a descriptor that is not
/// negative is handed out and leaves the signal without a payload, a signaled one leaves none. A
/// failed export leaves the payload, and a lost device is noted.
pub proof fn exports_never_fail_a_copy<H, P>(
    m: Machine<H, P>,
    r: Resources,
    reply: Result<i32, VkResult>,
)
    requires
        m.session.phase == Phase::ExportSignal,
        m.session.submitted == Some(r),
    ensures
        ({
            let (after, result) = stepped(m, CopyEvent::SignalExported(reply));
            &&& result is Ok
            &&& after.session.phase == Phase::Publish
            &&& after.session.submitted is Some
            &&& {
                let used = after.session.submitted->0;
                &&& used.pool == r.pool && used.command == r.command && used.fence == r.fence
                &&& used.acquire == r.acquire && used.release == r.release
                &&& used.signal == r.signal
                &&& reply is Ok ==> !used.dirty_signal
                &&& reply is Err ==> used.dirty_signal == r.dirty_signal
            }
            &&& match reply {
                Ok(fd) => after.session.exported == if fd >= 0 {
                    Some(fd)
                } else {
                    None
                },
                Err(_) => after.session.exported == m.session.exported,
            }
            &&& after.bridge.device_lost == (m.bridge.device_lost || (reply is Err && (
            reply->Err_0).raw == -4))
            &&& after.bridge.idle == m.bridge.idle
            &&& after.bridge.pending == m.bridge.pending
            &&& same_images(m, after)
            &&& same_copy(m, after)
            &&& same_inputs(m, after)
            &&& after.session.building == m.session.building
            &&& after.session.checkout == m.session.checkout
            &&& after.timing == m.timing
        }),
{
}

/// A published copy is finished and pending behind the others; nothing else changed.
pub proof fn published_copies_are_last<H, P>(m: Machine<H, P>, completion: P)
    requires
        m.session.phase == Phase::Publish,
    ensures
        ({
            let (after, result) = stepped(m, CopyEvent::Published(completion));
            &&& result is Ok
            &&& after.session.phase == Phase::Finished
            &&& after.bridge.pending.len() == m.bridge.pending.len() + 1
            &&& after.bridge.pending.last() == completion
            &&& after.bridge.pending.drop_last() == m.bridge.pending
            &&& after.bridge.idle == m.bridge.idle
            &&& after.bridge.device_lost == m.bridge.device_lost
            &&& same_images(m, after)
            &&& same_copy(m, after)
            &&& same_inputs(m, after)
            &&& same_set(m, after)
            &&& after.timing == m.timing
        }),
{
    assert(m.bridge.pending.push(completion).drop_last() =~= m.bridge.pending);
}

/// An image is requested with the copy's format, the buffer's modifier and extent, the offset and
/// stride of its first plane, and in the buffer's role.
pub proof fn image_requests_describe_the_buffer(format: i32, buffer: Dmabuf, source: bool)
    requires
        buffer.size.w > 0,
        buffer.size.h > 0,
    ensures
        ({
            let request = image_request_of(format, buffer, source);
            &&& request.format == format
            &&& request.modifier == buffer.modifier
            &&& request.width == buffer.size.w
            &&& request.height == buffer.size.h
            &&& request.offset == buffer.offset
            &&& request.row_pitch == buffer.stride
            &&& request.source == source
            &&& describes(request, buffer)
        }),
{
}

/// An image describes a buffer exactly if it has its modifier, extent, offset and stride.
pub proof fn descriptions_are_exact(request: ImageRequest, buffer: Dmabuf)
    requires
        buffer.size.w > 0,
        buffer.size.h > 0,
    ensures
        describes(request, buffer) <==> request.modifier == buffer.modifier && request.width
            == buffer.size.w && request.height == buffer.size.h && request.offset == buffer.offset
            && request.row_pitch == buffer.stride,
{
}

/// A submission waits for the semaphores of the imported fences, the acquire fence first, and for
/// no other.
pub proof fn waits_are_of_imported_fences(r: Resources, acquire: bool, release: bool)
    ensures
        ({
            let waits = wait_list(r, acquire, release);
            &&& !acquire && !release ==> waits.len() == 0
            &&& acquire != release ==> waits.len() == 1
            &&& acquire && release ==> waits.len() == 2 && waits[1] == r.release.semaphore
            &&& acquire ==> waits[0] == r.acquire.semaphore
            &&& !acquire && release ==> waits[0] == r.release.semaphore
        }),
{
}

} // verus!
