//! Running a copy, one answer at a time.

use crate::bridge::{pool_busy, Imported, VkBridge};
use crate::copy::{
    action_of, consistent, copy_stages, describes, entered, image_request_of, inner_stage_of, lists,
    machine, reached_at, requested, stage_of, stage_place, stepped, wait_list, CopyAction,
    CopyEvent, CopySession, ImageRequest, ImageRequirements, ImportStep, Phase, Progress,
    Submission, SubmitRequest,
};
use crate::copy_invariant::step_keeps_the_invariant;
use crate::error::{lost, result_view, ErrorView, Interrupted, VkBridgeError, VkResult};
use crate::geometry::Rectangle;
use crate::modifiers::{
    fits_image, import_properties, select_memory_type, single_plane_transfer, transferable,
    ImportReply, ModifierProperties,
};
use crate::names::{Counter, Stage};
use crate::outside::share;
use crate::record::{commands, record, records, Command};
use crate::resources::{Checkout, CreateStep, Input, ResetStep, Resources};
use crate::timing::{count, timing_counted, Timing};
use crate::validate::{
    buffers_rejected, valid_damage, validate_buffers, validate_request, Allocation, Dmabuf,
};
use std::sync::Arc;
use vstd::prelude::*;

verus! {

impl<H, P> VkBridge<H, P> {
    /// The stage that a copy enters before there is a session for it: validation, which a rejected
    /// copy has a sample of as well. A lost device refuses copies before any stage.
    pub fn opening_stage(&self) -> (stage: Option<Stage>)
        ensures
            stage == if self@.device_lost {
                None
            } else {
                Some(copy_stages()[0])
            },
    {
        if self.device_lost() {
            None
        } else {
            Some(Stage::VulkanValidation)
        }
    }

    /// Begins the copy of this frame's regions.
    ///
    /// `src` and `dst` must be distinct, non-aliasing allocations with matching dimensions, FourCC
    /// and orientation. Only explicit single-plane modifiers are supported. `acquire_fence` and
    /// `release_fence` say whether there are fences to wait for before the source is read and the
    /// destination is written. `format` is the Vulkan format of the FourCC, if there is one.
    pub fn copy(
        &self,
        src: &Dmabuf,
        dst: &Dmabuf,
        acquire_fence: bool,
        release_fence: bool,
        regions: Vec<Rectangle>,
        format: Option<i32>,
    ) -> (session: Result<CopySession<H>, VkBridgeError>)
        requires
            self@.wf(),
        ensures
            result_view(session) == if self@.device_lost {
                Err::<CopySession<H>, ErrorView>(ErrorView::Vk(lost()))
            } else {
                match buffers_rejected(*src, *dst) {
                    Some(reason) => Err(ErrorView::Unsupported(reason)),
                    None => Ok(
                        requested(
                            *src,
                            *dst,
                            acquire_fence,
                            release_fence,
                            regions,
                            format,
                            self@.sync_fd,
                        ),
                    ),
                }
            },
            session matches Ok(s) ==> consistent(self@, s),
    {
        if self.device_lost() {
            return Err(VkBridgeError::Vk(VkResult::device_lost()));
        }
        match validate_buffers(src, dst) {
            Err(err) => {
                return Err(err);
            },
            Ok(()) => {},
        }
        Ok(
            CopySession {
                phase: Phase::IdentifySource,
                reached: Stage::VulkanValidation,
                src: *src,
                dst: *dst,
                regions,
                known_format: format,
                format: 0,
                sync_fd: self.sync_fd(),
                acquire_fence,
                release_fence,
                acquire: Progress::Open,
                release: Progress::Open,
                source: None,
                destination: None,
                building: None,
                checkout: Checkout { resources: None },
                submitted: None,
                exported: None,
            },
        )
    }
}

fn place(stage: Stage) -> (place: usize)
    ensures
        place == stage_place(stage),
{
    match stage {
        Stage::VulkanValidation => 0,
        Stage::VulkanRetire => 1,
        Stage::SourceImport => 2,
        Stage::TargetImport => 3,
        Stage::VulkanResources => 4,
        Stage::VulkanInputSetup => 5,
        Stage::VulkanSignalSetup => 6,
        Stage::VulkanRecord => 7,
        Stage::VulkanSubmit => 8,
        Stage::VulkanExport => 9,
        _ => 10,
    }
}

/// Whether a modifier is listed as a single-plane layout with transfer support.
fn lists_transferable(list: &Vec<ModifierProperties>, modifier: u64, source: bool) -> (listed: bool)
    ensures
        listed == lists(list@, modifier, source),
{
    let mut i: usize = 0;
    while i < list.len()
        invariant
            i <= list@.len(),
            forall|j: int|
                0 <= j < i ==> !((#[trigger] list@[j]).modifier == modifier && transferable(
                    list@[j],
                    source,
                )),
        decreases list@.len() - i,
    {
        let found = &list[i];
        if found.modifier == modifier && single_plane_transfer(found, source) {
            return true;
        }
        i += 1;
    }
    false
}

impl<H> CopySession<H> {
    fn enter(&mut self, phase: Phase)
        ensures
            *final(self) == (CopySession {
                phase,
                reached: reached_at(phase, old(self).reached),
                ..*old(self)
            }),
    {
        self.phase = phase;
        match self.stage() {
            Some(stage) => {
                self.reached = stage;
            },
            None => {
                if phase == Phase::Publish {
                    self.reached = Stage::VulkanExport;
                }
            },
        }
    }

    fn fail<P>(
        &mut self,
        bridge: &mut VkBridge<H, P>,
        timing: &Timing,
        err: VkBridgeError,
    ) -> (result: Result<(), VkBridgeError>)
        ensures
            (machine(*final(bridge), *final(self), *timing), result_view(result)) == machine(
                *old(bridge),
                *old(self),
                *timing,
            ).failed(err@),
    {
        let mut checkout: Checkout<Resources> = Checkout { resources: None };
        std::mem::swap(&mut self.checkout, &mut checkout);
        bridge.end_checkout(checkout);
        if err.is_device_lost() {
            bridge.mark_device_lost();
        }
        self.phase = Phase::Failed;
        Err(err)
    }

    /// Goes on from a driver call that can fail.
    fn check<P>(
        &mut self,
        bridge: &mut VkBridge<H, P>,
        timing: &Timing,
        reply: Result<(), VkResult>,
        next: Phase,
    ) -> (result: Result<(), VkBridgeError>)
        ensures
            (machine(*final(bridge), *final(self), *timing), result_view(result)) == machine(
                *old(bridge),
                *old(self),
                *timing,
            ).checked(reply, machine(*old(bridge), *old(self), *timing).at(next)),
    {
        match reply {
            Err(err) => self.fail(bridge, timing, VkBridgeError::Vk(err)),
            Ok(()) => {
                self.enter(next);
                Ok(())
            },
        }
    }

    fn cpu_wait(&mut self, timing: &mut Timing, input: Input)
        requires
            old(timing).wf(),
        ensures
            final(timing).wf(),
            *final(self) == (CopySession {
                phase: Phase::WaitInput(input),
                reached: Stage::VulkanInputSetup,
                ..*old(self)
            }),
            final(timing)@ == timing_counted(old(timing)@, Counter::CpuInputWaits, 1),
    {
        count(timing, Counter::CpuInputWaits, 1);
        self.enter(Phase::WaitInput(input));
    }

    fn want<P>(&mut self, bridge: &VkBridge<H, P>, timing: &mut Timing, input: Input)
        requires
            old(timing).wf(),
        ensures
            final(timing).wf(),
            machine(*bridge, *final(self), *final(timing)) == machine(
                *bridge,
                *old(self),
                *old(timing),
            ).want(input),
    {
        if self.sync_fd.import {
            self.enter(Phase::ExportInput(input));
        } else {
            self.cpu_wait(timing, input);
        }
    }

    fn begin_release<P>(&mut self, bridge: &VkBridge<H, P>, timing: &mut Timing)
        requires
            old(timing).wf(),
        ensures
            final(timing).wf(),
            machine(*bridge, *final(self), *final(timing)) == machine(
                *bridge,
                *old(self),
                *old(timing),
            ).begin_release(),
    {
        if self.release_fence {
            self.want(bridge, timing, Input::Release);
        } else {
            self.enter(Phase::Record);
        }
    }

    fn begin_inputs<P>(&mut self, bridge: &VkBridge<H, P>, timing: &mut Timing)
        requires
            old(timing).wf(),
        ensures
            final(timing).wf(),
            machine(*bridge, *final(self), *final(timing)) == machine(
                *bridge,
                *old(self),
                *old(timing),
            ).begin_inputs(),
    {
        if self.acquire_fence {
            self.want(bridge, timing, Input::Acquire);
        } else {
            self.begin_release(bridge, timing);
        }
    }

    fn input_done<P>(
        &mut self,
        bridge: &VkBridge<H, P>,
        timing: &mut Timing,
        input: Input,
        progress: Progress,
    )
        requires
            old(timing).wf(),
        ensures
            final(timing).wf(),
            machine(*bridge, *final(self), *final(timing)) == machine(
                *bridge,
                *old(self),
                *old(timing),
            ).input_done(input, progress),
    {
        match input {
            Input::Acquire => {
                self.acquire = progress;
                self.begin_release(bridge, timing);
            },
            Input::Release => {
                self.release = progress;
                self.enter(Phase::Record);
            },
        }
    }

    fn begin_checkout<P>(&mut self, bridge: &mut VkBridge<H, P>, timing: &mut Timing)
        requires
            old(timing).wf(),
            old(self).checkout.resources is None,
        ensures
            final(timing).wf(),
            machine(*final(bridge), *final(self), *final(timing)) == machine(
                *old(bridge),
                *old(self),
                *old(timing),
            ).begin_checkout(),
    {
        self.checkout = bridge.pop_idle();
        if self.checkout.resources.is_some() {
            self.enter(Phase::Reset(ResetStep::CommandPool));
        } else {
            count(timing, Counter::ResourceSetsCreated, 1);
            self.building = Some(Resources::null());
            self.enter(Phase::Create(CreateStep::CommandPool));
        }
    }

    fn begin_destination<P>(&mut self, bridge: &mut VkBridge<H, P>, timing: &mut Timing)
        requires
            old(timing).wf(),
            old(bridge)@.caches_ok(),
            old(self).checkout.resources is None,
        ensures
            final(timing).wf(),
            final(bridge)@.caches_ok(),
            machine(*final(bridge), *final(self), *final(timing)) == machine(
                *old(bridge),
                *old(self),
                *old(timing),
            ).begin_destination(),
    {
        match bridge.cached_import(self.dst.id, false) {
            Some(image) => {
                self.destination = Some(image);
                self.begin_checkout(bridge, timing);
            },
            None => {
                count(timing, Counter::TargetImportMisses, 1);
                self.enter(Phase::Import { source: false, step: ImportStep::ListModifiers });
            },
        }
    }

    fn begin_source<P>(&mut self, bridge: &mut VkBridge<H, P>, timing: &mut Timing)
        requires
            old(timing).wf(),
            old(bridge)@.caches_ok(),
            old(self).checkout.resources is None,
        ensures
            final(timing).wf(),
            final(bridge)@.caches_ok(),
            machine(*final(bridge), *final(self), *final(timing)) == machine(
                *old(bridge),
                *old(self),
                *old(timing),
            ).begin_source(),
    {
        match bridge.cached_import(self.src.id, true) {
            Some(image) => {
                self.source = Some(image);
                self.begin_destination(bridge, timing);
            },
            None => {
                count(timing, Counter::SourceImportMisses, 1);
                self.enter(Phase::Import { source: true, step: ImportStep::ListModifiers });
            },
        }
    }

    /// Looks at the pending submissions from `i` on, or goes on after the last one. There is one
    /// look at each submission in a copy.
    fn reap<P>(&mut self, bridge: &mut VkBridge<H, P>, timing: &mut Timing, i: usize) -> (result:
        Result<(), VkBridgeError>)
        requires
            old(timing).wf(),
            old(bridge)@.caches_ok(),
            old(self).checkout.resources is None,
        ensures
            final(timing).wf(),
            (
                machine(*final(bridge), *final(self), *final(timing)),
                result_view(result),
            ) == machine(*old(bridge), *old(self), *old(timing)).reap(i as int),
    {
        if i < bridge.pending_len() {
            self.enter(Phase::Reap(i));
            return Ok(());
        }
        if bridge.device_lost() {
            self.reached = Stage::VulkanRetire;
            return self.fail(bridge, timing, VkBridgeError::Vk(VkResult::device_lost()));
        }
        if pool_busy(bridge.pending_len()) {
            self.reached = Stage::VulkanRetire;
            count(timing, Counter::ResourcePoolBusy, 1);
            return self.fail(bridge, timing, VkBridgeError::Busy);
        }
        self.begin_source(bridge, timing);
        Ok(())
    }

    fn identified<P>(
        &mut self,
        bridge: &mut VkBridge<H, P>,
        timing: &mut Timing,
        reply: Result<Allocation, std::io::Error>,
    ) -> (result: Result<(), VkBridgeError>)
        requires
            old(timing).wf(),
            consistent(old(bridge)@, *old(self)),
        ensures
            final(timing).wf(),
            (
                machine(*final(bridge), *final(self), *final(timing)),
                result_view(result),
            ) == machine(*old(bridge), *old(self), *old(timing)).identified(reply),
    {
        match self.phase {
            Phase::IdentifySource => match reply {
                Err(err) => self.fail(bridge, timing, VkBridgeError::Io(err)),
                Ok(first) => {
                    self.enter(Phase::IdentifyDestination(first));
                    Ok(())
                },
            },
            Phase::IdentifyDestination(first) => match reply {
                Err(err) => self.fail(bridge, timing, VkBridgeError::Io(err)),
                Ok(second) => {
                    let damage = valid_damage(self.src.size, &self.regions);
                    match validate_request(first, second, damage, self.known_format) {
                        Err(err) => self.fail(bridge, timing, err),
                        Ok(format) => {
                            self.format = format;
                            self.reap(bridge, timing, 0)
                        },
                    }
                },
            },
            _ => Ok(()),
        }
    }

    fn polled<P>(
        &mut self,
        bridge: &mut VkBridge<H, P>,
        timing: &mut Timing,
        reply: Result<Option<Resources>, VkResult>,
    ) -> (result: Result<(), VkBridgeError>)
        requires
            old(timing).wf(),
            consistent(old(bridge)@, *old(self)),
        ensures
            final(timing).wf(),
            (
                machine(*final(bridge), *final(self), *final(timing)),
                result_view(result),
            ) == machine(*old(bridge), *old(self), *old(timing)).polled(reply),
    {
        match self.phase {
            Phase::Reap(i) => match reply {
                Err(err) => self.fail(bridge, timing, VkBridgeError::Vk(err)),
                Ok(None) => self.reap(bridge, timing, i + 1),
                Ok(Some(resources)) => {
                    bridge.recycle(i, resources);
                    count(timing, Counter::BatchesRetired, 1);
                    count(timing, Counter::ResourceSetsRecycled, 1);
                    self.reap(bridge, timing, i)
                },
            },
            _ => Ok(()),
        }
    }

    fn modifiers_listed<P>(
        &mut self,
        bridge: &mut VkBridge<H, P>,
        timing: &mut Timing,
        reply: Result<Vec<ModifierProperties>, String>,
    ) -> (result: Result<(), VkBridgeError>)
        requires
            old(timing).wf(),
            consistent(old(bridge)@, *old(self)),
        ensures
            final(timing).wf(),
            (
                machine(*final(bridge), *final(self), *final(timing)),
                result_view(result),
            ) == machine(*old(bridge), *old(self), *old(timing)).modifiers_listed(
                match reply {
                    Ok(list) => Ok(list@),
                    Err(text) => Err(text@),
                },
            ),
    {
        let source: bool = match self.phase {
            Phase::Import { source, step: ImportStep::ListModifiers } => source,
            _ => {
                return Ok(());
            },
        };
        let list = match reply {
            Ok(list) => list,
            Err(text) => {
                return self.fail(bridge, timing, VkBridgeError::Setup(text));
            },
        };
        let modifier: u64 = if source { self.src.modifier } else { self.dst.modifier };
        if lists_transferable(&list, modifier, source) {
            self.enter(Phase::Import { source, step: ImportStep::QueryLimits });
            return Ok(());
        }
        self.fail(
            bridge,
            timing,
            VkBridgeError::Unsupported(
                "modifier is unsupported, has auxiliary planes or lacks transfer support",
            ),
        )
    }

    fn limits_queried<P>(
        &mut self,
        bridge: &mut VkBridge<H, P>,
        timing: &mut Timing,
        reply: Result<ImportReply, VkResult>,
    ) -> (result: Result<(), VkBridgeError>)
        requires
            old(timing).wf(),
            consistent(old(bridge)@, *old(self)),
        ensures
            final(timing).wf(),
            (
                machine(*final(bridge), *final(self), *final(timing)),
                result_view(result),
            ) == machine(*old(bridge), *old(self), *old(timing)).limits_queried(reply),
    {
        match self.phase {
            Phase::Import { source, step: ImportStep::QueryLimits } => {
                let size = if source { self.src.size } else { self.dst.size };
                match import_properties(reply) {
                    Err(err) => self.fail(bridge, timing, err),
                    Ok(None) => self.fail(
                        bridge,
                        timing,
                        VkBridgeError::Unsupported("image is not importable"),
                    ),
                    Ok(Some(limits)) => if fits_image(&limits, size.w as u32, size.h as u32) {
                        self.enter(Phase::Import { source, step: ImportStep::CreateImage });
                        Ok(())
                    } else {
                        self.fail(
                            bridge,
                            timing,
                            VkBridgeError::Unsupported("image is not importable at this size"),
                        )
                    },
                }
            },
            _ => Ok(()),
        }
    }

    fn image_created<P>(
        &mut self,
        bridge: &mut VkBridge<H, P>,
        timing: &mut Timing,
        reply: Result<ImageRequirements, VkResult>,
    ) -> (result: Result<(), VkBridgeError>)
        requires
            old(timing).wf(),
            consistent(old(bridge)@, *old(self)),
        ensures
            final(timing).wf(),
            (
                machine(*final(bridge), *final(self), *final(timing)),
                result_view(result),
            ) == machine(*old(bridge), *old(self), *old(timing)).image_created(reply),
    {
        match self.phase {
            Phase::Import { source, step: ImportStep::CreateImage } => match reply {
                Err(err) => self.fail(bridge, timing, VkBridgeError::Vk(err)),
                Ok(needs) => {
                    self.enter(Phase::Import {
                        source,
                        step: ImportStep::DuplicateFd {
                            memory_types: needs.memory_types,
                            size: needs.size,
                        },
                    });
                    Ok(())
                },
            },
            _ => Ok(()),
        }
    }

    fn fd_duplicated<P>(
        &mut self,
        bridge: &mut VkBridge<H, P>,
        timing: &mut Timing,
        reply: Result<(), std::io::Error>,
    ) -> (result: Result<(), VkBridgeError>)
        requires
            old(timing).wf(),
            consistent(old(bridge)@, *old(self)),
        ensures
            final(timing).wf(),
            (
                machine(*final(bridge), *final(self), *final(timing)),
                result_view(result),
            ) == machine(*old(bridge), *old(self), *old(timing)).fd_duplicated(reply),
    {
        match self.phase {
            Phase::Import { source, step: ImportStep::DuplicateFd { memory_types, size } } => {
                match reply {
                    Err(err) => self.fail(bridge, timing, VkBridgeError::Io(err)),
                    Ok(()) => {
                        self.enter(Phase::Import {
                            source,
                            step: ImportStep::QueryFdMemory { memory_types, size },
                        });
                        Ok(())
                    },
                }
            },
            _ => Ok(()),
        }
    }

    fn fd_memory_queried<P>(
        &mut self,
        bridge: &mut VkBridge<H, P>,
        timing: &mut Timing,
        reply: Result<u32, VkResult>,
    ) -> (result: Result<(), VkBridgeError>)
        requires
            old(timing).wf(),
            consistent(old(bridge)@, *old(self)),
        ensures
            final(timing).wf(),
            (
                machine(*final(bridge), *final(self), *final(timing)),
                result_view(result),
            ) == machine(*old(bridge), *old(self), *old(timing)).fd_memory_queried(reply),
    {
        match self.phase {
            Phase::Import { source, step: ImportStep::QueryFdMemory { memory_types, size } } => {
                match reply {
                    Err(err) => self.fail(bridge, timing, VkBridgeError::Vk(err)),
                    Ok(bits) => match select_memory_type(memory_types & bits) {
                        None => self.fail(
                            bridge,
                            timing,
                            VkBridgeError::Unsupported(
                                "no common memory type for dma-buf and image",
                            ),
                        ),
                        Some(memory_type) => {
                            self.enter(Phase::Import {
                                source,
                                step: ImportStep::Allocate { memory_type, size },
                            });
                            Ok(())
                        },
                    },
                }
            },
            _ => Ok(()),
        }
    }

    fn allocated<P>(
        &mut self,
        bridge: &mut VkBridge<H, P>,
        timing: &mut Timing,
        reply: Result<(), VkResult>,
    ) -> (result: Result<(), VkBridgeError>)
        requires
            old(timing).wf(),
            consistent(old(bridge)@, *old(self)),
        ensures
            final(timing).wf(),
            (
                machine(*final(bridge), *final(self), *final(timing)),
                result_view(result),
            ) == machine(*old(bridge), *old(self), *old(timing)).allocated(reply),
    {
        match self.phase {
            Phase::Import { source, step: ImportStep::Allocate { .. } } => self.check(
                bridge,
                timing,
                reply,
                Phase::Import { source, step: ImportStep::Bind },
            ),
            _ => Ok(()),
        }
    }

    fn bound<P>(
        &mut self,
        bridge: &mut VkBridge<H, P>,
        timing: &mut Timing,
        reply: Result<H, VkResult>,
    ) -> (result: Result<(), VkBridgeError>)
        requires
            old(timing).wf(),
            consistent(old(bridge)@, *old(self)),
        ensures
            final(timing).wf(),
            (
                machine(*final(bridge), *final(self), *final(timing)),
                result_view(result),
            ) == machine(*old(bridge), *old(self), *old(timing)).bound(reply),
    {
        match self.phase {
            Phase::Import { source, step: ImportStep::Bind } => match reply {
                Err(err) => self.fail(bridge, timing, VkBridgeError::Vk(err)),
                Ok(handle) => {
                    let buffer: u64 = if source { self.src.id } else { self.dst.id };
                    let image = Arc::new(Imported { buffer, source, handle });
                    bridge.cache_import(share(&image));
                    if source {
                        self.source = Some(image);
                        self.begin_destination(bridge, timing);
                    } else {
                        self.destination = Some(image);
                        self.begin_checkout(bridge, timing);
                    }
                    Ok(())
                },
            },
            _ => Ok(()),
        }
    }

    fn object_created<P>(
        &mut self,
        bridge: &mut VkBridge<H, P>,
        timing: &mut Timing,
        reply: Result<u64, VkResult>,
    ) -> (result: Result<(), VkBridgeError>)
        requires
            old(timing).wf(),
            consistent(old(bridge)@, *old(self)),
        ensures
            final(timing).wf(),
            (
                machine(*final(bridge), *final(self), *final(timing)),
                result_view(result),
            ) == machine(*old(bridge), *old(self), *old(timing)).object_created(reply),
    {
        let step = match self.phase {
            Phase::Create(step) => step,
            _ => {
                return Ok(());
            },
        };
        match self.building.take() {
            None => Ok(()),
            Some(mut resources) => match reply {
                Err(err) => {
                    self.building = Some(resources);
                    self.fail(bridge, timing, VkBridgeError::Vk(err))
                },
                Ok(handle) => {
                    let next = resources.created(step, handle, self.sync_fd.export);
                    if next == CreateStep::Done {
                        self.checkout = Checkout { resources: Some(resources) };
                        self.begin_inputs(bridge, timing);
                    } else {
                        self.building = Some(resources);
                        self.enter(Phase::Create(next));
                    }
                    Ok(())
                },
            },
        }
    }

    fn object_reset<P>(
        &mut self,
        bridge: &mut VkBridge<H, P>,
        timing: &mut Timing,
        reply: Result<u64, VkResult>,
    ) -> (result: Result<(), VkBridgeError>)
        requires
            old(timing).wf(),
            consistent(old(bridge)@, *old(self)),
        ensures
            final(timing).wf(),
            (
                machine(*final(bridge), *final(self), *final(timing)),
                result_view(result),
            ) == machine(*old(bridge), *old(self), *old(timing)).object_reset(reply),
    {
        let step = match self.phase {
            Phase::Reset(step) => step,
            _ => {
                return Ok(());
            },
        };
        match self.checkout.submit() {
            None => Ok(()),
            Some(mut resources) => match reply {
                Err(err) => {
                    self.checkout = Checkout { resources: Some(resources) };
                    self.fail(bridge, timing, VkBridgeError::Vk(err))
                },
                Ok(replacement) => {
                    let next = resources.reset(step, replacement, timing);
                    self.checkout = Checkout { resources: Some(resources) };
                    if next == ResetStep::Done {
                        count(timing, Counter::ResourceSetsReused, 1);
                        self.begin_inputs(bridge, timing);
                    } else {
                        self.enter(Phase::Reset(next));
                    }
                    Ok(())
                },
            },
        }
    }

    fn input_exported<P>(
        &mut self,
        bridge: &mut VkBridge<H, P>,
        timing: &mut Timing,
        available: bool,
    ) -> (result: Result<(), VkBridgeError>)
        requires
            old(timing).wf(),
            consistent(old(bridge)@, *old(self)),
        ensures
            final(timing).wf(),
            (
                machine(*final(bridge), *final(self), *final(timing)),
                result_view(result),
            ) == machine(*old(bridge), *old(self), *old(timing)).input_exported(available),
    {
        let input = match self.phase {
            Phase::ExportInput(input) => input,
            _ => {
                return Ok(());
            },
        };
        match self.checkout.submit() {
            None => Ok(()),
            Some(mut resources) => {
                if available {
                    match input {
                        Input::Acquire => {
                            resources.acquire.dirty = true;
                        },
                        Input::Release => {
                            resources.release.dirty = true;
                        },
                    }
                    self.enter(Phase::ImportInput(input));
                } else {
                    self.cpu_wait(timing, input);
                }
                self.checkout = Checkout { resources: Some(resources) };
                Ok(())
            },
        }
    }

    fn input_imported<P>(
        &mut self,
        bridge: &mut VkBridge<H, P>,
        timing: &mut Timing,
        reply: Result<(), VkResult>,
    ) -> (result: Result<(), VkBridgeError>)
        requires
            old(timing).wf(),
            consistent(old(bridge)@, *old(self)),
        ensures
            final(timing).wf(),
            (
                machine(*final(bridge), *final(self), *final(timing)),
                result_view(result),
            ) == machine(*old(bridge), *old(self), *old(timing)).input_imported(reply),
    {
        match self.phase {
            Phase::ImportInput(input) => match reply {
                Ok(()) => {
                    count(timing, Counter::NativeInputImports, 1);
                    self.input_done(bridge, timing, input, Progress::Native);
                    Ok(())
                },
                Err(err) => if err.is_device_lost() {
                    self.fail(bridge, timing, VkBridgeError::Vk(err))
                } else {
                    self.cpu_wait(timing, input);
                    Ok(())
                },
            },
            _ => Ok(()),
        }
    }

    fn input_waited<P>(
        &mut self,
        bridge: &mut VkBridge<H, P>,
        timing: &mut Timing,
        reply: Result<(), Interrupted>,
    ) -> (result: Result<(), VkBridgeError>)
        requires
            old(timing).wf(),
            consistent(old(bridge)@, *old(self)),
        ensures
            final(timing).wf(),
            (
                machine(*final(bridge), *final(self), *final(timing)),
                result_view(result),
            ) == machine(*old(bridge), *old(self), *old(timing)).input_waited(reply),
    {
        match self.phase {
            Phase::WaitInput(input) => match reply {
                Ok(()) => {
                    self.input_done(bridge, timing, input, Progress::Waited);
                    Ok(())
                },
                Err(interrupted) => self.fail(bridge, timing, VkBridgeError::Wait(interrupted)),
            },
            _ => Ok(()),
        }
    }

    fn recorded<P>(
        &mut self,
        bridge: &mut VkBridge<H, P>,
        timing: &mut Timing,
        reply: Result<(), VkResult>,
    ) -> (result: Result<(), VkBridgeError>)
        requires
            old(timing).wf(),
            consistent(old(bridge)@, *old(self)),
        ensures
            final(timing).wf(),
            (
                machine(*final(bridge), *final(self), *final(timing)),
                result_view(result),
            ) == machine(*old(bridge), *old(self), *old(timing)).recorded(reply),
    {
        match self.phase {
            Phase::Record => self.check(bridge, timing, reply, Phase::Submit),
            _ => Ok(()),
        }
    }

    fn submission_answered<P>(
        &mut self,
        bridge: &mut VkBridge<H, P>,
        timing: &mut Timing,
        reply: Result<(), VkResult>,
    ) -> (result: Result<(), VkBridgeError>)
        requires
            old(timing).wf(),
            consistent(old(bridge)@, *old(self)),
        ensures
            final(timing).wf(),
            (
                machine(*final(bridge), *final(self), *final(timing)),
                result_view(result),
            ) == machine(*old(bridge), *old(self), *old(timing)).submission_answered(reply),
    {
        match self.phase {
            Phase::Submit => {},
            _ => {
                return Ok(());
            },
        }
        match self.checkout.submit() {
            None => Ok(()),
            Some(mut resources) => match reply {
                Err(err) => {
                    if err.is_device_lost() {
                        self.submitted = Some(resources);
                    } else {
                        self.checkout = Checkout { resources: Some(resources) };
                    }
                    self.fail(bridge, timing, VkBridgeError::Vk(err))
                },
                Ok(()) => {
                    let acquire: u64 = resources.acquire.semaphore;
                    let release: u64 = resources.release.semaphore;
                    let same: bool = acquire == release;
                    let native_acquire: bool = self.acquire == Progress::Native;
                    let native_release: bool = self.release == Progress::Native;
                    if native_acquire || (native_release && same) {
                        resources.acquire.dirty = false;
                    }
                    if native_release || (native_acquire && same) {
                        resources.release.dirty = false;
                    }
                    resources.dirty_signal = self.sync_fd.export;
                    self.submitted = Some(resources);
                    count(timing, Counter::BatchesCreated, 1);
                    self.enter(if self.sync_fd.export {
                        Phase::ExportSignal
                    } else {
                        Phase::Publish
                    });
                    Ok(())
                },
            },
        }
    }

    fn signal_exported<P>(
        &mut self,
        bridge: &mut VkBridge<H, P>,
        timing: &mut Timing,
        reply: Result<i32, VkResult>,
    ) -> (result: Result<(), VkBridgeError>)
        requires
            old(timing).wf(),
            consistent(old(bridge)@, *old(self)),
        ensures
            final(timing).wf(),
            (
                machine(*final(bridge), *final(self), *final(timing)),
                result_view(result),
            ) == machine(*old(bridge), *old(self), *old(timing)).signal_exported(reply),
    {
        match self.phase {
            Phase::ExportSignal => {},
            _ => {
                return Ok(());
            },
        }
        match self.submitted.take() {
            None => Ok(()),
            Some(mut resources) => {
                match reply {
                    Ok(fd) => {
                        resources.dirty_signal = false;
                        self.exported = if fd >= 0 { Some(fd) } else { None };
                    },
                    Err(err) => {
                        if err.is_device_lost() {
                            bridge.mark_device_lost();
                        }
                    },
                }
                self.submitted = Some(resources);
                self.enter(Phase::Publish);
                Ok(())
            },
        }
    }

    fn published<P>(
        &mut self,
        bridge: &mut VkBridge<H, P>,
        timing: &mut Timing,
        completion: P,
    ) -> (result: Result<(), VkBridgeError>)
        requires
            old(timing).wf(),
            consistent(old(bridge)@, *old(self)),
        ensures
            final(timing).wf(),
            (
                machine(*final(bridge), *final(self), *final(timing)),
                result_view(result),
            ) == machine(*old(bridge), *old(self), *old(timing)).published(completion),
    {
        match self.phase {
            Phase::Publish => {
                bridge.push_pending(completion);
                self.enter(Phase::Finished);
                Ok(())
            },
            _ => Ok(()),
        }
    }

    /// Takes the answer to the current action and decides how the copy goes on. An error ends the
    /// copy; an answer to another action changes nothing.
    pub fn step<P>(
        &mut self,
        bridge: &mut VkBridge<H, P>,
        timing: &mut Timing,
        event: CopyEvent<H, P>,
    ) -> (result: Result<(), VkBridgeError>)
        requires
            old(timing).wf(),
            consistent(old(bridge)@, *old(self)),
        ensures
            final(timing).wf(),
            consistent(final(bridge)@, *final(self)),
            (
                machine(*final(bridge), *final(self), *final(timing)),
                result_view(result),
            ) == stepped(machine(*old(bridge), *old(self), *old(timing)), event),
    {
        proof {
            step_keeps_the_invariant(machine(*bridge, *self, *timing), event);
        }
        match event {
            CopyEvent::Identified(reply) => self.identified(bridge, timing, reply),
            CopyEvent::Polled(reply) => self.polled(bridge, timing, reply),
            CopyEvent::ModifiersListed(reply) => self.modifiers_listed(bridge, timing, reply),
            CopyEvent::LimitsQueried(reply) => self.limits_queried(bridge, timing, reply),
            CopyEvent::ImageCreated(reply) => self.image_created(bridge, timing, reply),
            CopyEvent::FdDuplicated(reply) => self.fd_duplicated(bridge, timing, reply),
            CopyEvent::FdMemoryQueried(reply) => self.fd_memory_queried(bridge, timing, reply),
            CopyEvent::Allocated(reply) => self.allocated(bridge, timing, reply),
            CopyEvent::Bound(reply) => self.bound(bridge, timing, reply),
            CopyEvent::ObjectCreated(reply) => self.object_created(bridge, timing, reply),
            CopyEvent::ObjectReset(reply) => self.object_reset(bridge, timing, reply),
            CopyEvent::InputExported(available) => self.input_exported(bridge, timing, available),
            CopyEvent::InputImported(reply) => self.input_imported(bridge, timing, reply),
            CopyEvent::InputWaited(reply) => self.input_waited(bridge, timing, reply),
            CopyEvent::Recorded(reply) => self.recorded(bridge, timing, reply),
            CopyEvent::Submitted(reply) => self.submission_answered(bridge, timing, reply),
            CopyEvent::SignalExported(reply) => self.signal_exported(bridge, timing, reply),
            CopyEvent::Published(completion) => self.published(bridge, timing, completion),
        }
    }

    /// The call to make next.
    pub fn action(&self) -> (action: CopyAction)
        ensures
            action == action_of(self.phase),
    {
        match self.phase {
            Phase::IdentifySource => CopyAction::Identify { source: true },
            Phase::IdentifyDestination(_) => CopyAction::Identify { source: false },
            Phase::Reap(i) => CopyAction::Poll(i),
            Phase::Import { source, step } => match step {
                ImportStep::ListModifiers => CopyAction::ListModifiers,
                ImportStep::QueryLimits => CopyAction::QueryLimits { source },
                ImportStep::CreateImage => CopyAction::CreateImage { source },
                ImportStep::DuplicateFd { .. } => CopyAction::DuplicateFd { source },
                ImportStep::QueryFdMemory { .. } => CopyAction::QueryFdMemory { source },
                ImportStep::Allocate { memory_type, size } => CopyAction::Allocate {
                    source,
                    memory_type,
                    size,
                },
                ImportStep::Bind => CopyAction::Bind { source },
            },
            Phase::Create(step) => CopyAction::CreateObject(step),
            Phase::Reset(step) => CopyAction::ResetObject(step),
            Phase::ExportInput(input) => CopyAction::ExportInput(input),
            Phase::ImportInput(input) => CopyAction::ImportInput(input),
            Phase::WaitInput(input) => CopyAction::WaitInput(input),
            Phase::Record => CopyAction::Record,
            Phase::Submit => CopyAction::Submit,
            Phase::ExportSignal => CopyAction::ExportSignal,
            Phase::Publish => CopyAction::Publish,
            Phase::Finished => CopyAction::Nothing,
            Phase::Failed => CopyAction::Nothing,
        }
    }

    /// The stage that the time of the current phase is recorded to.
    pub fn stage(&self) -> (stage: Option<Stage>)
        ensures
            stage == stage_of(self.phase),
    {
        match self.phase {
            Phase::IdentifySource => Some(Stage::VulkanValidation),
            Phase::IdentifyDestination(_) => Some(Stage::VulkanValidation),
            Phase::Reap(_) => Some(Stage::VulkanRetire),
            Phase::Import { source, .. } => if source {
                Some(Stage::SourceImport)
            } else {
                Some(Stage::TargetImport)
            },
            Phase::Create(_) => Some(Stage::VulkanResources),
            Phase::Reset(_) => Some(Stage::VulkanResources),
            Phase::ExportInput(_) => Some(Stage::VulkanInputSetup),
            Phase::ImportInput(_) => Some(Stage::VulkanInputSetup),
            Phase::WaitInput(_) => Some(Stage::VulkanInputSetup),
            Phase::Record => Some(Stage::VulkanRecord),
            Phase::Submit => Some(Stage::VulkanSubmit),
            Phase::ExportSignal => Some(Stage::VulkanExport),
            Phase::Publish => None,
            Phase::Finished => None,
            Phase::Failed => None,
        }
    }

    /// The stage inside the current one that the time of the current phase is recorded to as well.
    /// A reset of a reused set is one sample; so is each explicit wait.
    pub fn inner_stage(&self) -> (stage: Option<Stage>)
        ensures
            stage == inner_stage_of(self.phase),
    {
        match self.phase {
            Phase::Reset(_) => Some(Stage::VulkanPoolReset),
            Phase::WaitInput(_) => Some(Stage::CpuInputFenceWait),
            _ => None,
        }
    }

    /// The stages that the copy entered since `before` was the last one, in order. All of them have
    /// a sample, and all but the last are over; the last is over too unless it is the current one.
    pub fn stages_since(&self, before: Stage) -> (list: Vec<Stage>)
        ensures
            list@ == entered(before, self.reached),
    {
        let stages: Vec<Stage> = vec![
            Stage::VulkanValidation,
            Stage::VulkanRetire,
            Stage::SourceImport,
            Stage::TargetImport,
            Stage::VulkanResources,
            Stage::VulkanInputSetup,
            Stage::VulkanSignalSetup,
            Stage::VulkanRecord,
            Stage::VulkanSubmit,
            Stage::VulkanExport,
        ];
        assert(stages@ =~= copy_stages());
        let from: usize = place(before);
        let to: usize = place(self.reached);
        let mut list: Vec<Stage> = Vec::new();
        if from < to && to < stages.len() {
            let mut i: usize = from + 1;
            assert(list@ =~= copy_stages().subrange(from + 1, i as int));
            while i <= to
                invariant
                    from < i <= to + 1,
                    to < copy_stages().len(),
                    stages@ == copy_stages(),
                    list@ == copy_stages().subrange(from + 1, i as int),
                decreases to + 1 - i,
            {
                list.push(stages[i]);
                i += 1;
                assert(list@ =~= copy_stages().subrange(from + 1, i as int));
            }
        }
        list
    }

    /// The image that a buffer is imported as: two-dimensional, with one level, layer and sample.
    pub fn image_request(&self, source: bool) -> (request: ImageRequest)
        ensures
            request == image_request_of(
                self.format,
                if source {
                    self.src
                } else {
                    self.dst
                },
                source,
            ),
            describes(request, if source {
                self.src
            } else {
                self.dst
            }),
            request.format == self.format,
            request.source == source,
    {
        let buffer = if source { self.src } else { self.dst };
        ImageRequest {
            format: self.format,
            modifier: buffer.modifier,
            width: buffer.size.w as u32,
            height: buffer.size.h as u32,
            offset: buffer.offset as u64,
            row_pitch: buffer.stride as u64,
            source,
        }
    }

    /// The semaphore of an input; `None` while no set is checked out.
    pub fn input_semaphore(&self, input: Input) -> (semaphore: Option<u64>)
        ensures
            semaphore == match self.checkout.resources {
                Some(r) => Some(
                    match input {
                        Input::Acquire => r.acquire.semaphore,
                        Input::Release => r.release.semaphore,
                    },
                ),
                None => None,
            },
    {
        match &self.checkout.resources {
            Some(r) => match input {
                Input::Acquire => Some(r.acquire.semaphore),
                Input::Release => Some(r.release.semaphore),
            },
            None => None,
        }
    }

    /// The commands to record.
    pub fn commands(&self) -> (list: Vec<Command>)
        ensures
            list@ == commands(self.regions@),
            records(list@, self.regions@),
    {
        record(&self.regions)
    }

    /// What to submit; `None` while no set is checked out.
    pub fn submit_request(&self) -> (request: Option<SubmitRequest>)
        ensures
            self.checkout.resources matches Some(r) ==> {
                &&& request matches Some(found)
                &&& found.command == r.command
                &&& found.fence == r.fence
                &&& found.waits@ == wait_list(
                    r,
                    self.acquire == Progress::Native,
                    self.release == Progress::Native,
                )
                &&& found.signal == if self.sync_fd.export {
                    Some(r.signal)
                } else {
                    None
                }
            },
            self.checkout.resources is None ==> request is None,
    {
        match &self.checkout.resources {
            None => None,
            Some(r) => {
                let mut waits: Vec<u64> = Vec::new();
                if self.acquire == Progress::Native {
                    waits.push(r.acquire.semaphore);
                }
                if self.release == Progress::Native {
                    waits.push(r.release.semaphore);
                }
                assert(waits@ =~= wait_list(
                    *r,
                    self.acquire == Progress::Native,
                    self.release == Progress::Native,
                ));
                Some(
                    SubmitRequest {
                        command: r.command,
                        fence: r.fence,
                        waits,
                        signal: if self.sync_fd.export {
                            Some(r.signal)
                        } else {
                            None
                        },
                    },
                )
            },
        }
    }

    /// The semaphore whose native descriptor is exported; `None` unless work was submitted.
    pub fn submitted_signal(&self) -> (signal: Option<u64>)
        ensures
            signal == match self.submitted {
                Some(r) => Some(r.signal),
                None => None,
            },
    {
        match &self.submitted {
            Some(r) => Some(r.signal),
            None => None,
        }
    }

    /// Takes what was submitted, or may have been: to be published, or to be waited for and
    /// destroyed after a failure. `None` unless the copy is at its end and work may be submitted.
    pub fn take_submission(&mut self) -> (submission: Option<Submission<H>>)
        ensures
            ({
                let ended = old(self).phase == Phase::Publish || old(self).phase == Phase::Failed;
                match (old(self).submitted, old(self).source, old(self).destination) {
                    (Some(resources), Some(source), Some(destination)) if ended => {
                        &&& submission == Some(Submission { resources, source, destination })
                        &&& *final(self) == (CopySession { submitted: None, ..*old(self) })
                    },
                    _ => submission is None && *final(self) == *old(self),
                }
            }),
    {
        match self.phase {
            Phase::Publish => {},
            Phase::Failed => {},
            _ => {
                return None;
            },
        }
        let source = match &self.source {
            Some(image) => share(image),
            None => {
                return None;
            },
        };
        let destination = match &self.destination {
            Some(image) => share(image),
            None => {
                return None;
            },
        };
        match self.submitted.take() {
            Some(resources) => Some(Submission { resources, source, destination }),
            None => None,
        }
    }

    /// Takes a set whose construction failed, to be destroyed.
    pub fn take_partial(&mut self) -> (partial: Option<Resources>)
        ensures
            old(self).phase == Phase::Failed ==> {
                &&& partial == old(self).building
                &&& *final(self) == (CopySession { building: None, ..*old(self) })
            },
            old(self).phase != Phase::Failed ==> partial is None && *final(self) == *old(self),
    {
        match self.phase {
            Phase::Failed => self.building.take(),
            _ => None,
        }
    }
}

} // verus!
