//! One copy, from its request to its published submission.
//!
//! Driver calls, file descriptors and fences belong to the caller. A session says which call is
//! next, takes its answer as an event and decides how to go on. Input fences are imported natively
//! when possible and otherwise waited explicitly; completion of the copy itself is never waited.

use crate::bridge::{
    admitted, import_position, touched, BridgeView, Imported, VkBridge, MAX_IMPORTS, MAX_PENDING,
};
use crate::device::SyncFdSupport;
use crate::error::{lost, ErrorView, Interrupted, VkResult};
use crate::geometry::Rectangle;
use crate::modifiers::{
    fits, importable, memory_type, transferable, ImportReply, ModifierProperties,
};
use crate::names::{Counter, Stage};
use crate::record::commands;
use crate::resources::{
    after_create, after_reset, first_dirty, is_clean, null_resources, with_object, with_reset,
    Checkout, CreateStep, Input, ResetStep, Resources, WaitSlot,
};
use crate::timing::{timing_counted, Timing, TimingView};
use crate::validate::{buffers_rejected, copy_format, damage_ok, Allocation, Dmabuf};
use std::sync::Arc;
use vstd::prelude::*;

verus! {

/// Where the import of a buffer stands.
#[derive(Clone, Copy, Debug, PartialEq, Eq, Structural)]
pub enum ImportStep {
    ListModifiers,
    QueryLimits,
    CreateImage,
    DuplicateFd { memory_types: u32, size: u64 },
    QueryFdMemory { memory_types: u32, size: u64 },
    Allocate { memory_type: u32, size: u64 },
    Bind,
}

/// Where a copy stands.
#[derive(Clone, Copy, Debug, PartialEq, Eq, Structural)]
pub enum Phase {
    IdentifySource,
    IdentifyDestination(Allocation),
    Reap(usize),
    Import { source: bool, step: ImportStep },
    Create(CreateStep),
    Reset(ResetStep),
    ExportInput(Input),
    ImportInput(Input),
    WaitInput(Input),
    Record,
    Submit,
    ExportSignal,
    Publish,
    Finished,
    Failed,
}

/// What has been done about an input fence.
#[derive(Clone, Copy, Debug, PartialEq, Eq, Structural)]
pub enum Progress {
    /// Nothing yet.
    Open,
    /// Imported: the submission waits for it.
    Native,
    /// Waited explicitly.
    Waited,
}

/// What the driver needs of a new image, beside its memory.
#[derive(Clone, Copy, Debug, PartialEq, Eq, Structural)]
pub struct ImageRequirements {
    /// Memory type bits.
    pub memory_types: u32,
    /// Size of the allocation.
    pub size: u64,
}

/// The call to make next.
#[derive(Clone, Copy, Debug, PartialEq, Eq, Structural)]
pub enum CopyAction {
    /// Ask the kernel for the identity of the source's or destination's first plane.
    Identify { source: bool },
    /// Look at a pending submission without blocking; a contended one is left alone.
    Poll(usize),
    /// List the modifiers of the format.
    ListModifiers,
    /// Query import limits of the described image.
    QueryLimits { source: bool },
    /// Create the described image.
    CreateImage { source: bool },
    /// Duplicate the descriptor of the first plane.
    DuplicateFd { source: bool },
    /// Ask for the memory types of the duplicated descriptor.
    QueryFdMemory { source: bool },
    /// Import the duplicated descriptor as memory dedicated to the image.
    Allocate { source: bool, memory_type: u32, size: u64 },
    /// Bind the memory to the image.
    Bind { source: bool },
    /// Create an object of a new set.
    CreateObject(CreateStep),
    /// Reset or replace an object of a reused set.
    ResetObject(ResetStep),
    /// Export an input fence as a native descriptor.
    ExportInput(Input),
    /// Import the descriptor, temporarily, into the input's semaphore.
    ImportInput(Input),
    /// Wait for an input fence.
    WaitInput(Input),
    /// Record the copy commands.
    Record,
    /// Submit the command buffer.
    Submit,
    /// Export the signaled semaphore as a native descriptor.
    ExportSignal,
    /// Share the submission with consumers.
    Publish,
    /// Nothing is left to do.
    Nothing,
}

/// The answer to an action.
#[derive(Debug)]
pub enum CopyEvent<H, P> {
    Identified(Result<Allocation, std::io::Error>),
    /// What was extracted from the pending submission; nothing from a contended one.
    Polled(Result<Option<Resources>, VkResult>),
    ModifiersListed(Result<Vec<ModifierProperties>, String>),
    LimitsQueried(Result<ImportReply, VkResult>),
    ImageCreated(Result<ImageRequirements, VkResult>),
    FdDuplicated(Result<(), std::io::Error>),
    FdMemoryQueried(Result<u32, VkResult>),
    Allocated(Result<(), VkResult>),
    /// What the driver keeps of the complete image.
    Bound(Result<H, VkResult>),
    ObjectCreated(Result<u64, VkResult>),
    /// The replacement, where an object was replaced.
    ObjectReset(Result<u64, VkResult>),
    /// Whether the fence could be exported.
    InputExported(bool),
    InputImported(Result<(), VkResult>),
    InputWaited(Result<(), Interrupted>),
    Recorded(Result<(), VkResult>),
    Submitted(Result<(), VkResult>),
    SignalExported(Result<i32, VkResult>),
    Published(P),
}

/// What an image is created and queried with.
#[derive(Clone, Copy, Debug, PartialEq, Eq, Structural)]
pub struct ImageRequest {
    pub format: i32,
    pub modifier: u64,
    pub width: u32,
    pub height: u32,
    pub offset: u64,
    pub row_pitch: u64,
    /// To be copied from, rather than to.
    pub source: bool,
}

/// What a submission is made with.
#[derive(Debug)]
pub struct SubmitRequest {
    pub command: u64,
    pub fence: u64,
    /// Semaphores to wait for, in the order of the inputs.
    pub waits: Vec<u64>,
    /// Semaphore to signal.
    pub signal: Option<u64>,
}

/// Submitted work and everything that it uses.
#[derive(Debug)]
pub struct Submission<H> {
    pub resources: Resources,
    pub source: Arc<Imported<H>>,
    pub destination: Arc<Imported<H>>,
}

/// A copy in progress.
pub struct CopySession<H> {
    pub phase: Phase,
    /// The last stage that the copy entered.
    pub reached: Stage,
    pub src: Dmabuf,
    pub dst: Dmabuf,
    pub regions: Vec<Rectangle>,
    /// Vulkan format of the FourCC, if there is one.
    pub known_format: Option<i32>,
    /// Vulkan format, once validated.
    pub format: i32,
    pub sync_fd: SyncFdSupport,
    /// Whether there is a fence to wait for before reading the source.
    pub acquire_fence: bool,
    /// Whether there is a fence to wait for before writing the destination.
    pub release_fence: bool,
    pub acquire: Progress,
    pub release: Progress,
    pub source: Option<Arc<Imported<H>>>,
    pub destination: Option<Arc<Imported<H>>>,
    /// A set under construction.
    pub building: Option<Resources>,
    /// A set that returns to the pool unless it is submitted.
    pub checkout: Checkout<Resources>,
    /// The set of submitted work.
    pub submitted: Option<Resources>,
    /// The native descriptor of the signaled semaphore, where there is one.
    pub exported: Option<i32>,
}

/// The copy as requested, with nothing done yet.
pub open spec fn requested<H>(
    src: Dmabuf,
    dst: Dmabuf,
    acquire_fence: bool,
    release_fence: bool,
    regions: Vec<Rectangle>,
    format: Option<i32>,
    sync_fd: SyncFdSupport,
) -> CopySession<H> {
    CopySession {
        phase: Phase::IdentifySource,
        reached: Stage::VulkanValidation,
        src,
        dst,
        regions,
        known_format: format,
        format: 0,
        sync_fd,
        acquire_fence,
        release_fence,
        acquire: Progress::Open,
        release: Progress::Open,
        source: None,
        destination: None,
        building: None,
        checkout: Checkout { resources: None },
        submitted: None,
        exported: None,
    }
}

/// Whether a modifier is listed as a single-plane layout with transfer support.
pub open spec fn lists(list: Seq<ModifierProperties>, modifier: u64, source: bool) -> bool {
    exists|i: int|
        0 <= i < list.len() && (#[trigger] list[i]).modifier == modifier && transferable(
            list[i],
            source,
        )
}

/// The whole state that a copy acts on.
#[verifier::ext_equal]
pub struct Machine<H, P> {
    pub bridge: BridgeView<H, P>,
    pub session: CopySession<H>,
    pub timing: TimingView,
}

/// The state of an engine, a copy and a recorder.
pub open spec fn machine<H, P>(
    bridge: VkBridge<H, P>,
    session: CopySession<H>,
    timing: Timing,
) -> Machine<H, P> {
    Machine { bridge: bridge@, session, timing: timing@ }
}

/// A state and what the step to it returned.
pub type Stepped<H, P> = (Machine<H, P>, Result<(), ErrorView>);

impl<H, P> Machine<H, P> {
    /// The copy is at another phase, and in the stage of that phase.
    pub open spec fn at(self, phase: Phase) -> Self {
        Machine {
            session: CopySession {
                phase,
                reached: reached_at(phase, self.session.reached),
                ..self.session
            },
            ..self
        }
    }

    /// The copy is in another stage.
    pub open spec fn entering(self, stage: Stage) -> Self {
        Machine { session: CopySession { reached: stage, ..self.session }, ..self }
    }

    /// One more of what a counter counts.
    pub open spec fn counting(self, counter: Counter) -> Self {
        Machine { timing: timing_counted(self.timing, counter, 1), ..self }
    }

    /// The buffer in a role.
    pub open spec fn buffer(self, source: bool) -> Dmabuf {
        if source {
            self.session.src
        } else {
            self.session.dst
        }
    }

    /// The copy failed: a checked-out set is idle again, and the engine remembers a lost device.
    pub open spec fn failed(self, err: ErrorView) -> Stepped<H, P> {
        (
            Machine {
                bridge: BridgeView {
                    idle: match self.session.checkout.resources {
                        Some(resources) => self.bridge.idle.push(resources),
                        None => self.bridge.idle,
                    },
                    device_lost: self.bridge.device_lost || err == ErrorView::Vk(lost()),
                    ..self.bridge
                },
                session: CopySession {
                    phase: Phase::Failed,
                    checkout: Checkout { resources: None },
                    ..self.session
                },
                ..self
            },
            Err(err),
        )
    }

    /// The copy goes on.
    pub open spec fn fine(self) -> Stepped<H, P> {
        (self, Ok(()))
    }

    /// Failed with a driver error, if there is one.
    pub open spec fn checked<T>(self, reply: Result<T, VkResult>, next: Self) -> Stepped<H, P> {
        match reply {
            Err(err) => self.failed(ErrorView::Vk(err)),
            Ok(_) => next.fine(),
        }
    }

    /// All inputs before recording are dealt with.
    pub open spec fn inputs_done(self) -> Self {
        self.at(Phase::Record)
    }

    /// An input fence is waited explicitly.
    pub open spec fn cpu_wait(self, input: Input) -> Self {
        self.counting(Counter::CpuInputWaits).at(Phase::WaitInput(input))
    }

    /// An input fence is dealt with: natively if the engine imports native fences.
    pub open spec fn want(self, input: Input) -> Self {
        if self.session.sync_fd.import {
            self.at(Phase::ExportInput(input))
        } else {
            self.cpu_wait(input)
        }
    }

    /// The input that follows the acquire fence, if any.
    pub open spec fn begin_release(self) -> Self {
        if self.session.release_fence {
            self.want(Input::Release)
        } else {
            self.inputs_done()
        }
    }

    /// The first input, if any.
    pub open spec fn begin_inputs(self) -> Self {
        if self.session.acquire_fence {
            self.want(Input::Acquire)
        } else {
            self.begin_release()
        }
    }

    /// An input is dealt with.
    pub open spec fn input_done(self, input: Input, progress: Progress) -> Self {
        match input {
            Input::Acquire => Machine {
                session: CopySession { acquire: progress, ..self.session },
                ..self
            }.begin_release(),
            Input::Release => Machine {
                session: CopySession { release: progress, ..self.session },
                ..self
            }.inputs_done(),
        }
    }

    /// An idle set is checked out and reset, or else a new one is created.
    pub open spec fn begin_checkout(self) -> Self {
        if self.bridge.idle.len() > 0 {
            Machine {
                bridge: BridgeView { idle: self.bridge.idle.drop_last(), ..self.bridge },
                session: CopySession {
                    checkout: Checkout { resources: Some(self.bridge.idle.last()) },
                    ..self.session
                },
                ..self
            }.at(Phase::Reset(ResetStep::CommandPool))
        } else {
            Machine {
                session: CopySession { building: Some(null_resources()), ..self.session },
                ..self
            }.counting(Counter::ResourceSetsCreated).at(Phase::Create(CreateStep::CommandPool))
        }
    }

    /// The image of the destination is there.
    pub open spec fn destination_imported(self, image: Arc<Imported<H>>) -> Self {
        Machine {
            session: CopySession { destination: Some(image), ..self.session },
            ..self
        }.begin_checkout()
    }

    /// The destination's image: from the cache, where it becomes the most recently used, or new.
    pub open spec fn begin_destination(self) -> Self {
        let i = import_position(self.bridge.imports, self.session.dst.id, false, 0);
        if i < self.bridge.imports.len() {
            Machine {
                bridge: BridgeView {
                    imports: touched(self.bridge.imports, i),
                    ..self.bridge
                },
                ..self
            }.destination_imported(self.bridge.imports[i])
        } else {
            self.counting(Counter::TargetImportMisses).at(
                Phase::Import { source: false, step: ImportStep::ListModifiers },
            )
        }
    }

    /// The image of the source is there.
    pub open spec fn source_imported(self, image: Arc<Imported<H>>) -> Self {
        Machine {
            session: CopySession { source: Some(image), ..self.session },
            ..self
        }.begin_destination()
    }

    /// The source's image: from the cache, where it becomes the most recently used, or new.
    pub open spec fn begin_source(self) -> Self {
        let i = import_position(self.bridge.imports, self.session.src.id, true, 0);
        if i < self.bridge.imports.len() {
            Machine {
                bridge: BridgeView {
                    imports: touched(self.bridge.imports, i),
                    ..self.bridge
                },
                ..self
            }.source_imported(self.bridge.imports[i])
        } else {
            self.counting(Counter::SourceImportMisses).at(
                Phase::Import { source: true, step: ImportStep::ListModifiers },
            )
        }
    }

    /// The same copy with a new image: it is cached, and a full cache drops its least recently used
    /// one.
    pub open spec fn with_image(self, source: bool, image: Arc<Imported<H>>) -> Self {
        let bridge = BridgeView {
            imports: admitted(self.bridge.imports, MAX_IMPORTS as nat, image),
            ..self.bridge
        };
        if source {
            Machine {
                bridge,
                session: CopySession { source: Some(image), ..self.session },
                ..self
            }
        } else {
            Machine {
                bridge,
                session: CopySession { destination: Some(image), ..self.session },
                ..self
            }
        }
    }

    /// A new image is there.
    pub open spec fn imported(self, source: bool, image: Arc<Imported<H>>) -> Self {
        if source {
            self.with_image(source, image).begin_destination()
        } else {
            self.with_image(source, image).begin_checkout()
        }
    }

    /// The next pending submission is looked at; after the last one the copy goes on, unless the
    /// device is lost or too many submissions are outstanding.
    pub open spec fn reap(self, i: int) -> Stepped<H, P> {
        if i < self.bridge.pending.len() {
            self.at(Phase::Reap(i as usize)).fine()
        } else if self.bridge.device_lost {
            self.entering(Stage::VulkanRetire).failed(ErrorView::Vk(lost()))
        } else if self.bridge.pending.len() >= MAX_PENDING {
            self.entering(Stage::VulkanRetire).counting(Counter::ResourcePoolBusy).failed(
                ErrorView::Busy,
            )
        } else {
            self.begin_source().fine()
        }
    }

    /// The identity of a buffer's first plane is known.
    pub open spec fn identified(self, reply: Result<Allocation, std::io::Error>) -> Stepped<H, P> {
        match (self.session.phase, reply) {
            (Phase::IdentifySource, Err(err)) => self.failed(ErrorView::Io(err)),
            (Phase::IdentifySource, Ok(first)) => self.at(
                Phase::IdentifyDestination(first),
            ).fine(),
            (Phase::IdentifyDestination(_), Err(err)) => self.failed(ErrorView::Io(err)),
            (Phase::IdentifyDestination(first), Ok(second)) => match copy_format(
                Ok(first),
                Ok(second),
                damage_ok(self.session.src.size, self.session.regions@),
                self.session.known_format,
            ) {
                Err(err) => self.failed(err),
                Ok(format) => Machine {
                    session: CopySession { format, ..self.session },
                    ..self
                }.reap(0),
            },
            _ => self.fine(),
        }
    }

    /// The set of a retired submission is idle; the last pending submission takes its place.
    pub open spec fn recycled(self, i: int, resources: Resources) -> Self {
        Machine {
            bridge: BridgeView {
                pending: self.bridge.pending.update(i, self.bridge.pending.last()).drop_last(),
                idle: self.bridge.idle.push(resources),
                ..self.bridge
            },
            ..self
        }.counting(Counter::BatchesRetired).counting(Counter::ResourceSetsRecycled)
    }

    /// A pending submission was looked at.
    pub open spec fn polled(self, reply: Result<Option<Resources>, VkResult>) -> Stepped<H, P> {
        match (self.session.phase, reply) {
            (Phase::Reap(i), Err(err)) => self.failed(ErrorView::Vk(err)),
            (Phase::Reap(i), Ok(None)) => self.reap(i + 1),
            (Phase::Reap(i), Ok(Some(resources))) => self.recycled(i as int, resources).reap(
                i as int,
            ),
            _ => self.fine(),
        }
    }

    /// The driver listed the modifiers of the format.
    pub open spec fn modifiers_listed(
        self,
        reply: Result<Seq<ModifierProperties>, Seq<char>>,
    ) -> Stepped<H, P> {
        match (self.session.phase, reply) {
            (Phase::Import { source, step: ImportStep::ListModifiers }, Err(text)) => self.failed(
                ErrorView::Setup(text),
            ),
            (Phase::Import { source, step: ImportStep::ListModifiers }, Ok(list)) => if lists(
                list,
                self.buffer(source).modifier,
                source,
            ) {
                self.at(Phase::Import { source, step: ImportStep::QueryLimits }).fine()
            } else {
                self.failed(
                    ErrorView::Unsupported(
                        "modifier is unsupported, has auxiliary planes or lacks transfer support"@,
                    ),
                )
            },
            _ => self.fine(),
        }
    }

    /// The driver answered the import query.
    pub open spec fn limits_queried(self, reply: Result<ImportReply, VkResult>) -> Stepped<H, P> {
        match self.session.phase {
            Phase::Import { source, step: ImportStep::QueryLimits } => match importable(reply) {
                Err(err) => self.failed(ErrorView::Vk(err)),
                Ok(None) => self.failed(ErrorView::Unsupported("image is not importable"@)),
                Ok(Some(limits)) => if fits(
                    limits,
                    self.buffer(source).size.w as u32,
                    self.buffer(source).size.h as u32,
                ) {
                    self.at(Phase::Import { source, step: ImportStep::CreateImage }).fine()
                } else {
                    self.failed(ErrorView::Unsupported("image is not importable at this size"@))
                },
            },
            _ => self.fine(),
        }
    }

    /// The image was created.
    pub open spec fn image_created(
        self,
        reply: Result<ImageRequirements, VkResult>,
    ) -> Stepped<H, P> {
        match (self.session.phase, reply) {
            (Phase::Import { source, step: ImportStep::CreateImage }, Err(err)) => self.failed(
                ErrorView::Vk(err),
            ),
            (Phase::Import { source, step: ImportStep::CreateImage }, Ok(needs)) => self.at(
                Phase::Import {
                    source,
                    step: ImportStep::DuplicateFd {
                        memory_types: needs.memory_types,
                        size: needs.size,
                    },
                },
            ).fine(),
            _ => self.fine(),
        }
    }

    /// The descriptor of the first plane was duplicated.
    pub open spec fn fd_duplicated(self, reply: Result<(), std::io::Error>) -> Stepped<H, P> {
        match (self.session.phase, reply) {
            (
                Phase::Import { source, step: ImportStep::DuplicateFd { memory_types, size } },
                Err(err),
            ) => self.failed(ErrorView::Io(err)),
            (
                Phase::Import { source, step: ImportStep::DuplicateFd { memory_types, size } },
                Ok(_),
            ) => self.at(
                Phase::Import { source, step: ImportStep::QueryFdMemory { memory_types, size } },
            ).fine(),
            _ => self.fine(),
        }
    }

    /// The memory types of the duplicated descriptor are known.
    pub open spec fn fd_memory_queried(self, reply: Result<u32, VkResult>) -> Stepped<H, P> {
        match (self.session.phase, reply) {
            (
                Phase::Import { source, step: ImportStep::QueryFdMemory { memory_types, size } },
                Err(err),
            ) => self.failed(ErrorView::Vk(err)),
            (
                Phase::Import { source, step: ImportStep::QueryFdMemory { memory_types, size } },
                Ok(bits),
            ) => match memory_type(memory_types & bits) {
                None => self.failed(
                    ErrorView::Unsupported("no common memory type for dma-buf and image"@),
                ),
                Some(memory_type) => self.at(
                    Phase::Import { source, step: ImportStep::Allocate { memory_type, size } },
                ).fine(),
            },
            _ => self.fine(),
        }
    }

    /// The memory was imported.
    pub open spec fn allocated(self, reply: Result<(), VkResult>) -> Stepped<H, P> {
        match self.session.phase {
            Phase::Import { source, step: ImportStep::Allocate { .. } } => self.checked(
                reply,
                self.at(Phase::Import { source, step: ImportStep::Bind }),
            ),
            _ => self.fine(),
        }
    }

    /// The image is complete, with what the driver keeps of it.
    pub open spec fn bound(self, reply: Result<H, VkResult>) -> Stepped<H, P> {
        match (self.session.phase, reply) {
            (Phase::Import { source, step: ImportStep::Bind }, Err(err)) => self.failed(
                ErrorView::Vk(err),
            ),
            (Phase::Import { source, step: ImportStep::Bind }, Ok(handle)) => self.imported(
                source,
                Arc::new(Imported { buffer: self.buffer(source).id, source, handle }),
            ).fine(),
            _ => self.fine(),
        }
    }

    /// The same copy with its new set complete.
    pub open spec fn constructed(self, made: Resources) -> Self {
        Machine {
            session: CopySession {
                building: None,
                checkout: Checkout { resources: Some(made) },
                ..self.session
            },
            ..self
        }
    }

    /// An object of a new set was created.
    pub open spec fn object_created(self, reply: Result<u64, VkResult>) -> Stepped<H, P> {
        match (self.session.phase, self.session.building, reply) {
            (Phase::Create(step), Some(r), Err(err)) => self.failed(ErrorView::Vk(err)),
            (Phase::Create(step), Some(r), Ok(handle)) => {
                let made = with_object(r, step, handle);
                let next = after_create(step, self.session.sync_fd.export);
                if next == CreateStep::Done {
                    self.constructed(made).begin_inputs().fine()
                } else {
                    Machine {
                        session: CopySession { building: Some(made), ..self.session },
                        ..self
                    }.at(Phase::Create(next)).fine()
                }
            },
            _ => self.fine(),
        }
    }

    /// The same copy with another checked-out set.
    pub open spec fn holding(self, resources: Resources) -> Self {
        Machine {
            session: CopySession {
                checkout: Checkout { resources: Some(resources) },
                ..self.session
            },
            ..self
        }
    }

    /// The same copy after a reset step that left the set `clean`.
    pub open spec fn replaced(self, step: ResetStep, clean: Resources) -> Self {
        if step == ResetStep::Signal {
            self.holding(clean).counting(Counter::SignalSemaphoresReplaced)
        } else {
            self.holding(clean)
        }
    }

    /// An object of a reused set was reset or replaced.
    pub open spec fn object_reset(self, reply: Result<u64, VkResult>) -> Stepped<H, P> {
        match (self.session.phase, self.session.checkout.resources, reply) {
            (Phase::Reset(step), Some(r), Err(err)) => self.failed(ErrorView::Vk(err)),
            (Phase::Reset(step), Some(r), Ok(replacement)) => {
                let clean = with_reset(r, step, replacement);
                let next = after_reset(clean, step);
                if next == ResetStep::Done {
                    self.replaced(step, clean).counting(
                        Counter::ResourceSetsReused,
                    ).begin_inputs().fine()
                } else {
                    self.replaced(step, clean).at(Phase::Reset(next)).fine()
                }
            },
            _ => self.fine(),
        }
    }

    /// An input fence was exported, or could not be.
    pub open spec fn input_exported(self, available: bool) -> Stepped<H, P> {
        match (self.session.phase, self.session.checkout.resources) {
            (Phase::ExportInput(input), Some(r)) => if available {
                self.holding(with_dirty(r, input)).at(Phase::ImportInput(input)).fine()
            } else {
                self.cpu_wait(input).fine()
            },
            _ => self.fine(),
        }
    }

    /// An input fence was imported, or could not be. Only device loss ends the copy.
    pub open spec fn input_imported(self, reply: Result<(), VkResult>) -> Stepped<H, P> {
        match (self.session.phase, reply) {
            (Phase::ImportInput(input), Ok(_)) => self.counting(
                Counter::NativeInputImports,
            ).input_done(input, Progress::Native).fine(),
            (Phase::ImportInput(input), Err(err)) => if err == lost() {
                self.failed(ErrorView::Vk(err))
            } else {
                self.cpu_wait(input).fine()
            },
            _ => self.fine(),
        }
    }

    /// An input fence was waited.
    pub open spec fn input_waited(self, reply: Result<(), Interrupted>) -> Stepped<H, P> {
        match (self.session.phase, reply) {
            (Phase::WaitInput(input), Ok(_)) => self.input_done(input, Progress::Waited).fine(),
            (Phase::WaitInput(input), Err(_)) => self.failed(ErrorView::Wait),
            _ => self.fine(),
        }
    }

    /// The commands were recorded.
    pub open spec fn recorded(self, reply: Result<(), VkResult>) -> Stepped<H, P> {
        match self.session.phase {
            Phase::Record => self.checked(reply, self.at(Phase::Submit)),
            _ => self.fine(),
        }
    }

    /// The same copy with its set submitted.
    pub open spec fn handed_over(self, resources: Resources) -> Self {
        Machine {
            session: CopySession {
                checkout: Checkout { resources: None },
                submitted: Some(resources),
                ..self.session
            },
            ..self
        }
    }

    /// The queue accepted the submission, or not. Loss can leave work submitted: the set then
    /// never becomes idle. Any other error leaves the submission state unchanged.
    pub open spec fn submission_answered(self, reply: Result<(), VkResult>) -> Stepped<H, P> {
        match (self.session.phase, self.session.checkout.resources, reply) {
            (Phase::Submit, Some(r), Err(err)) => if err == lost() {
                self.handed_over(r).failed(ErrorView::Vk(err))
            } else {
                self.failed(ErrorView::Vk(err))
            },
            (Phase::Submit, Some(r), Ok(_)) => self.handed_over(
                consumed(
                    r,
                    self.session.acquire == Progress::Native,
                    self.session.release == Progress::Native,
                    self.session.sync_fd.export,
                ),
            ).counting(Counter::BatchesCreated).at(
                if self.session.sync_fd.export {
                    Phase::ExportSignal
                } else {
                    Phase::Publish
                },
            ).fine(),
            _ => self.fine(),
        }
    }

    /// The signaled semaphore was exported, or could not be. Neither ends the copy: the caller
    /// receives its fence in any case.
    pub open spec fn signal_exported(self, reply: Result<i32, VkResult>) -> Stepped<H, P> {
        match (self.session.phase, self.session.submitted, reply) {
            (Phase::ExportSignal, Some(r), Ok(fd)) => Machine {
                session: CopySession {
                    submitted: Some(Resources { dirty_signal: false, ..r }),
                    exported: if fd >= 0 {
                        Some(fd)
                    } else {
                        None
                    },
                    ..self.session
                },
                ..self
            }.at(Phase::Publish).fine(),
            (Phase::ExportSignal, Some(r), Err(err)) => Machine {
                bridge: BridgeView {
                    device_lost: self.bridge.device_lost || err == lost(),
                    ..self.bridge
                },
                ..self
            }.at(Phase::Publish).fine(),
            _ => self.fine(),
        }
    }

    /// The submission is shared with consumers.
    pub open spec fn published(self, completion: P) -> Stepped<H, P> {
        match self.session.phase {
            Phase::Publish => Machine {
                bridge: BridgeView {
                    pending: self.bridge.pending.push(completion),
                    ..self.bridge
                },
                ..self
            }.at(Phase::Finished).fine(),
            _ => self.fine(),
        }
    }
}

/// Whether a set of driver objects is on its way from the pool to a submission.
pub open spec fn holds_slot(phase: Phase) -> bool {
    match phase {
        Phase::Create(_) => true,
        Phase::Reset(_) => true,
        Phase::ExportInput(_) => true,
        Phase::ImportInput(_) => true,
        Phase::WaitInput(_) => true,
        Phase::Record => true,
        Phase::Submit => true,
        Phase::ExportSignal => true,
        Phase::Publish => true,
        _ => false,
    }
}

/// Whether the work has been submitted.
pub open spec fn is_submitted(phase: Phase) -> bool {
    phase == Phase::ExportSignal || phase == Phase::Publish || phase == Phase::Finished
}

/// Whether the source may be read: its fence, if any, is waited natively or was waited explicitly.
pub open spec fn acquire_settled<H>(s: CopySession<H>) -> bool {
    s.acquire_fence ==> s.acquire != Progress::Open
}

/// Whether the destination may be written: its fence, if any, is waited natively or was waited
/// explicitly.
pub open spec fn release_settled<H>(s: CopySession<H>) -> bool {
    s.release_fence ==> s.release != Progress::Open
}

/// The image of a buffer in a role.
pub open spec fn image_of<H>(image: Option<Arc<Imported<H>>>, buffer: u64, source: bool) -> bool {
    image matches Some(found) && found.buffer == buffer && found.source == source
}

impl<H> CopySession<H> {
    /// The request passes all checks.
    pub open spec fn is_valid(self) -> bool {
        &&& buffers_rejected(self.src, self.dst) is None
        &&& damage_ok(self.src.size, self.regions@)
        &&& self.known_format == Some(self.format)
    }

    /// Which set of driver objects the copy has: one under construction, then a checked-out one,
    /// then a submitted one.
    pub open spec fn sets_ok(self) -> bool {
        match self.phase {
            Phase::IdentifySource
            | Phase::IdentifyDestination(_)
            | Phase::Reap(_)
            | Phase::Import { .. } => {
                &&& self.building is None
                &&& self.checkout.resources is None
                &&& self.submitted is None
            },
            Phase::Create(step) => {
                &&& step != CreateStep::Done
                &&& self.building is Some
                &&& self.checkout.resources is None
                &&& self.submitted is None
            },
            Phase::Reset(step) => {
                &&& self.building is None
                &&& self.submitted is None
                &&& self.checkout.resources matches Some(r)
                &&& step == ResetStep::CommandPool || step == ResetStep::Fence || step
                    == first_dirty(r)
            },
            Phase::ExportInput(_)
            | Phase::ImportInput(_)
            | Phase::WaitInput(_)
            | Phase::Record
            | Phase::Submit => {
                &&& self.building is None
                &&& self.checkout.resources is Some
                &&& self.submitted is None
            },
            Phase::ExportSignal => {
                &&& self.sync_fd.export
                &&& self.building is None
                &&& self.checkout.resources is None
                &&& self.submitted is Some
            },
            Phase::Publish => self.building is None && self.checkout.resources is None,
            Phase::Finished | Phase::Failed => self.checkout.resources is None,
        }
    }

    /// A copy is validated before anything is imported, and its images are those of its buffers.
    pub open spec fn images_ok(self) -> bool {
        match self.phase {
            Phase::IdentifySource | Phase::IdentifyDestination(_) | Phase::Failed => true,
            Phase::Reap(_) | Phase::Import { source: true, .. } => self.is_valid(),
            Phase::Import { source: false, .. } => {
                &&& self.is_valid()
                &&& image_of(self.source, self.src.id, true)
            },
            _ => {
                &&& self.is_valid()
                &&& image_of(self.source, self.src.id, true)
                &&& image_of(self.destination, self.dst.id, false)
            },
        }
    }

    /// Nothing has been done about the input fences.
    pub open spec fn inputs_open(self) -> bool {
        self.acquire == Progress::Open && self.release == Progress::Open
    }

    /// Fences are dealt with in order, in a set whose earlier payloads were cleared: a semaphore
    /// holds a payload exactly if this copy put one there.
    pub open spec fn inputs_ok(self) -> bool {
        match (self.phase, self.checkout.resources) {
            (Phase::IdentifySource, _)
            | (Phase::IdentifyDestination(_), _)
            | (Phase::Reap(_), _)
            | (Phase::Import { .. }, _)
            | (Phase::Reset(_), _) => self.inputs_open(),
            (Phase::Create(_), _) => {
                &&& self.inputs_open()
                &&& self.building matches Some(r) ==> is_clean(r)
            },
            (Phase::ExportInput(Input::Acquire), Some(r)) => {
                &&& self.inputs_open()
                &&& self.acquire_fence
                &&& self.sync_fd.import
                &&& is_clean(r)
            },
            (Phase::ImportInput(Input::Acquire), Some(r)) => {
                &&& self.inputs_open()
                &&& self.acquire_fence
                &&& self.sync_fd.import
                &&& r.acquire.dirty
                &&& !r.release.dirty
                &&& !r.dirty_signal
            },
            (Phase::WaitInput(Input::Acquire), Some(r)) => {
                &&& self.inputs_open()
                &&& self.acquire_fence
                &&& !r.release.dirty
                &&& !r.dirty_signal
            },
            (Phase::ExportInput(Input::Release), Some(r)) => {
                &&& self.acquire_done(r)
                &&& self.release_fence
                &&& self.sync_fd.import
                &&& !r.release.dirty
            },
            (Phase::ImportInput(Input::Release), Some(r)) => {
                &&& self.acquire_done(r)
                &&& self.release_fence
                &&& self.sync_fd.import
                &&& r.release.dirty
            },
            (Phase::WaitInput(Input::Release), Some(r)) => {
                &&& self.acquire_done(r)
                &&& self.release_fence
            },
            (Phase::Record, Some(r)) | (Phase::Submit, Some(r)) => {
                &&& acquire_settled(self)
                &&& release_settled(self)
                &&& carries(self.acquire, r.acquire)
                &&& carries(self.release, r.release)
                &&& !r.dirty_signal
            },
            (Phase::ExportSignal, _) | (Phase::Publish, _) | (Phase::Finished, _) => {
                acquire_settled(self) && release_settled(self)
            },
            _ => true,
        }
    }

    /// The acquire fence is dealt with and the release fence is next.
    pub open spec fn acquire_done(self, r: Resources) -> bool {
        &&& acquire_settled(self)
        &&& carries(self.acquire, r.acquire)
        &&& self.release == Progress::Open
        &&& !r.dirty_signal
    }

    /// The last stage entered is that of the phase.
    pub open spec fn stage_ok(self) -> bool {
        match stage_of(self.phase) {
            Some(stage) => self.reached == stage,
            None => if self.phase == Phase::Failed {
                stage_place(self.reached) < copy_stages().len()
            } else {
                self.reached == Stage::VulkanExport
            },
        }
    }

    /// There is a native descriptor only of submitted work, on an engine that exports fences, after
    /// the export reset the signal of exactly this submission.
    pub open spec fn export_ok(self) -> bool {
        self.exported matches Some(fd) ==> {
            &&& fd >= 0
            &&& self.sync_fd.export
            &&& self.phase == Phase::Publish || self.phase == Phase::Finished
            &&& self.submitted matches Some(r) ==> !r.dirty_signal
        }
    }

    /// What holds of a copy at every phase.
    pub open spec fn wf(self) -> bool {
        &&& buffers_rejected(self.src, self.dst) is None
        &&& self.sets_ok()
        &&& self.images_ok()
        &&& self.inputs_ok()
        &&& self.stage_ok()
        &&& self.export_ok()
    }
}

/// A natively imported fence is in its semaphore.
pub open spec fn carries(progress: Progress, slot: WaitSlot) -> bool {
    progress == Progress::Native ==> slot.dirty
}

impl<H, P> Machine<H, P> {
    /// Sets of driver objects: idle, pending or on their way to a submission.
    pub open spec fn slots(self) -> nat {
        self.bridge.slots() + if holds_slot(self.session.phase) {
            1nat
        } else {
            0
        }
    }

    /// What holds of the whole state throughout a copy.
    pub open spec fn inv(self) -> bool {
        consistent(self.bridge, self.session)
    }
}

/// What holds of an engine and a copy on it. Together they never have more than `MAX_PENDING` sets
/// of driver objects, and an image is imported only if it is not cached.
pub open spec fn consistent<H, P>(bridge: BridgeView<H, P>, session: CopySession<H>) -> bool {
    &&& bridge.caches_ok()
    &&& session.wf()
    &&& bridge.slots() + (if holds_slot(session.phase) {
        1nat
    } else {
        0
    }) <= MAX_PENDING
    &&& session.phase matches Phase::Reap(i) ==> i < bridge.pending.len()
    &&& session.phase matches Phase::Import { source, .. } ==> {
        &&& bridge.pending.len() < MAX_PENDING
        &&& import_position(
            bridge.imports,
            if source {
                session.src.id
            } else {
                session.dst.id
            },
            source,
            0,
        ) == bridge.imports.len()
    }
}

/// The call that a phase asks for.
pub open spec fn action_of(phase: Phase) -> CopyAction {
    match phase {
        Phase::IdentifySource => CopyAction::Identify { source: true },
        Phase::IdentifyDestination(_) => CopyAction::Identify { source: false },
        Phase::Reap(i) => CopyAction::Poll(i),
        Phase::Import { source, step } => match step {
            ImportStep::ListModifiers => CopyAction::ListModifiers,
            ImportStep::QueryLimits => CopyAction::QueryLimits { source },
            ImportStep::CreateImage => CopyAction::CreateImage { source },
            ImportStep::DuplicateFd { .. } => CopyAction::DuplicateFd { source },
            ImportStep::QueryFdMemory { .. } => CopyAction::QueryFdMemory { source },
            ImportStep::Allocate { memory_type, size } => CopyAction::Allocate {
                source,
                memory_type,
                size,
            },
            ImportStep::Bind => CopyAction::Bind { source },
        },
        Phase::Create(step) => CopyAction::CreateObject(step),
        Phase::Reset(step) => CopyAction::ResetObject(step),
        Phase::ExportInput(input) => CopyAction::ExportInput(input),
        Phase::ImportInput(input) => CopyAction::ImportInput(input),
        Phase::WaitInput(input) => CopyAction::WaitInput(input),
        Phase::Record => CopyAction::Record,
        Phase::Submit => CopyAction::Submit,
        Phase::ExportSignal => CopyAction::ExportSignal,
        Phase::Publish => CopyAction::Publish,
        Phase::Finished | Phase::Failed => CopyAction::Nothing,
    }
}

/// The stage that the time of a phase is recorded to.
pub open spec fn stage_of(phase: Phase) -> Option<Stage> {
    match phase {
        Phase::IdentifySource | Phase::IdentifyDestination(_) => Some(Stage::VulkanValidation),
        Phase::Reap(_) => Some(Stage::VulkanRetire),
        Phase::Import { source: true, .. } => Some(Stage::SourceImport),
        Phase::Import { source: false, .. } => Some(Stage::TargetImport),
        Phase::Create(_) | Phase::Reset(_) => Some(Stage::VulkanResources),
        Phase::ExportInput(_) | Phase::ImportInput(_) | Phase::WaitInput(_) => Some(
            Stage::VulkanInputSetup,
        ),
        Phase::Record => Some(Stage::VulkanRecord),
        Phase::Submit => Some(Stage::VulkanSubmit),
        Phase::ExportSignal => Some(Stage::VulkanExport),
        Phase::Publish | Phase::Finished | Phase::Failed => None,
    }
}

/// The stage inside the stage of a phase that its time is recorded to as well.
pub open spec fn inner_stage_of(phase: Phase) -> Option<Stage> {
    match phase {
        Phase::Reset(_) => Some(Stage::VulkanPoolReset),
        Phase::WaitInput(_) => Some(Stage::CpuInputFenceWait),
        _ => None,
    }
}

/// The stages of a copy, in order. A copy has one sample of each stage that it enters, however
/// little there is to do in it.
pub open spec fn copy_stages() -> Seq<Stage> {
    seq![
        Stage::VulkanValidation,
        Stage::VulkanRetire,
        Stage::SourceImport,
        Stage::TargetImport,
        Stage::VulkanResources,
        Stage::VulkanInputSetup,
        Stage::VulkanSignalSetup,
        Stage::VulkanRecord,
        Stage::VulkanSubmit,
        Stage::VulkanExport,
    ]
}

/// Place of a stage among the stages of a copy; their number for any other stage.
pub open spec fn stage_place(stage: Stage) -> int {
    match stage {
        Stage::VulkanValidation => 0,
        Stage::VulkanRetire => 1,
        Stage::SourceImport => 2,
        Stage::TargetImport => 3,
        Stage::VulkanResources => 4,
        Stage::VulkanInputSetup => 5,
        Stage::VulkanSignalSetup => 6,
        Stage::VulkanRecord => 7,
        Stage::VulkanSubmit => 8,
        Stage::VulkanExport => 9,
        _ => 10,
    }
}

/// The last stage that a copy has entered when it comes to a phase. Submitted work has been through
/// the export of its fence, whether or not there was one.
pub open spec fn reached_at(phase: Phase, before: Stage) -> Stage {
    match stage_of(phase) {
        Some(stage) => stage,
        None => if phase == Phase::Publish {
            Stage::VulkanExport
        } else {
            before
        },
    }
}

/// The stages that a copy entered after `before`, up to and with `reached`.
pub open spec fn entered(before: Stage, reached: Stage) -> Seq<Stage> {
    if stage_place(before) < stage_place(reached) < copy_stages().len() {
        copy_stages().subrange(stage_place(before) + 1, stage_place(reached) + 1)
    } else {
        seq![]
    }
}

/// The image that a buffer is imported as.
pub open spec fn image_request_of(format: i32, buffer: Dmabuf, source: bool) -> ImageRequest {
    ImageRequest {
        format,
        modifier: buffer.modifier,
        width: buffer.size.w as u32,
        height: buffer.size.h as u32,
        offset: buffer.offset as u64,
        row_pitch: buffer.stride as u64,
        source,
    }
}

/// Whether an image has the layout of a buffer: its modifier, its extent, and the offset and stride
/// of its first plane.
pub open spec fn describes(request: ImageRequest, buffer: Dmabuf) -> bool {
    &&& request.modifier == buffer.modifier
    &&& buffer.size.w >= 0 ==> request.width == buffer.size.w
    &&& buffer.size.h >= 0 ==> request.height == buffer.size.h
    &&& request.offset == buffer.offset
    &&& request.row_pitch == buffer.stride
}

/// The set with an unconsumed import in the semaphore of an input.
pub open spec fn with_dirty(r: Resources, input: Input) -> Resources {
    match input {
        Input::Acquire => Resources { acquire: WaitSlot { dirty: true, ..r.acquire }, ..r },
        Input::Release => Resources { release: WaitSlot { dirty: true, ..r.release }, ..r },
    }
}

/// Whether a submission waits for a semaphore.
pub open spec fn waits_for(r: Resources, acquire: bool, release: bool, semaphore: u64) -> bool {
    (acquire && r.acquire.semaphore == semaphore) || (release && r.release.semaphore == semaphore)
}

/// The set after its submission: waited payloads are consumed, and the signal is to be exported.
pub open spec fn consumed(r: Resources, acquire: bool, release: bool, export: bool) -> Resources {
    Resources {
        acquire: WaitSlot {
            dirty: r.acquire.dirty && !waits_for(r, acquire, release, r.acquire.semaphore),
            ..r.acquire
        },
        release: WaitSlot {
            dirty: r.release.dirty && !waits_for(r, acquire, release, r.release.semaphore),
            ..r.release
        },
        dirty_signal: export,
        ..r
    }
}

/// Semaphores that a submission waits for, in the order of the inputs.
pub open spec fn wait_list(r: Resources, acquire: bool, release: bool) -> Seq<u64> {
    (if acquire {
        seq![r.acquire.semaphore]
    } else {
        seq![]
    }) + (if release {
        seq![r.release.semaphore]
    } else {
        seq![]
    })
}

/// The state after an event, and what the step returns. An event that does not answer the current
/// action changes nothing.
pub open spec fn stepped<H, P>(m: Machine<H, P>, event: CopyEvent<H, P>) -> Stepped<H, P> {
    match event {
        CopyEvent::Identified(reply) => m.identified(reply),
        CopyEvent::Polled(reply) => m.polled(reply),
        CopyEvent::ModifiersListed(Ok(list)) => m.modifiers_listed(Ok(list@)),
        CopyEvent::ModifiersListed(Err(text)) => m.modifiers_listed(Err(text@)),
        CopyEvent::LimitsQueried(reply) => m.limits_queried(reply),
        CopyEvent::ImageCreated(reply) => m.image_created(reply),
        CopyEvent::FdDuplicated(reply) => m.fd_duplicated(reply),
        CopyEvent::FdMemoryQueried(reply) => m.fd_memory_queried(reply),
        CopyEvent::Allocated(reply) => m.allocated(reply),
        CopyEvent::Bound(reply) => m.bound(reply),
        CopyEvent::ObjectCreated(reply) => m.object_created(reply),
        CopyEvent::ObjectReset(reply) => m.object_reset(reply),
        CopyEvent::InputExported(available) => m.input_exported(available),
        CopyEvent::InputImported(reply) => m.input_imported(reply),
        CopyEvent::InputWaited(reply) => m.input_waited(reply),
        CopyEvent::Recorded(reply) => m.recorded(reply),
        CopyEvent::Submitted(reply) => m.submission_answered(reply),
        CopyEvent::SignalExported(reply) => m.signal_exported(reply),
        CopyEvent::Published(completion) => m.published(completion),
    }
}

} // verus!
