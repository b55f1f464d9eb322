//! Completions, pools, descriptors and driver capabilities.

use ash::vk;
use multigpu::bridge::{pool_busy, MAX_PENDING};
use multigpu::completion::{
    fence_wait, is_signaled, retirement_wait, Attempt, CompletionState, Disposal, Outcome,
};
use multigpu::device::{QUEUE_GRAPHICS, SEMAPHORE_EXPORTABLE, SEMAPHORE_IMPORTABLE};
use multigpu::error::{
    InstanceError, Interrupted, VkBridgeError, VkResult, ERROR_DEVICE_LOST,
    ERROR_FORMAT_NOT_SUPPORTED,
};
use multigpu::geometry::{Point, Rectangle, Size};
use multigpu::modifiers::{
    fits_image, import_properties, select_memory_type, single_plane_transfer, ImageLimits,
    ImportReply, ModifierProperties, FEATURE_TRANSFER_DST, FEATURE_TRANSFER_SRC,
    HANDLE_TYPE_DMA_BUF, MEMORY_IMPORTABLE, MODIFIER_INVALID, MODIFIER_LINEAR, SAMPLE_COUNT_1,
};
use multigpu::names::Counter;
use multigpu::record::{record, Access, Command, ImageBarrier, Layout, Owner, Pipeline};
use multigpu::resources::{
    Checkout, CreateStep, Handle, Input, ResetStep, Resources, WaitSlot,
};
use multigpu::timing::{drain, enter, register_stream, Timing};
use multigpu::validate::{
    valid_damage, valid_descriptor, valid_region, validate, validate_buffers, validate_request,
    Allocation, Dmabuf,
};
use std::sync::{Arc, Mutex, TryLockError};

fn code(result: vk::Result) -> VkResult {
    VkResult { raw: result.as_raw() }
}

fn counter(timing: &mut Timing, wanted: Counter) -> u64 {
    drain(timing)
        .iter()
        .flat_map(|stream| stream.counters.iter())
        .filter(|(counter, _)| *counter == wanted)
        .map(|(_, value)| *value)
        .sum()
}

fn recording() -> Timing {
    let mut timing = Timing::new(true);
    register_stream(&mut timing, (1, 0), "copies");
    let _scope = enter(&mut timing, (1, 0));
    assert_eq!(counter(&mut timing, Counter::StreamRegistrations), 1);
    timing
}

// A completion as the engine shares it: its state behind a lock, and the retired flag.
struct Completion {
    state: Mutex<CompletionState<usize>>,
    retired: Mutex<bool>,
}

impl Completion {
    fn look(&self) -> bool {
        let retired = *self.retired.lock().unwrap();
        let attempt = match self.state.try_lock() {
            Ok(mut state) => {
                let mut published = *self.retired.lock().unwrap();
                let reply = state.poll(Ok(false), &mut published, &mut false);
                *self.retired.lock().unwrap() = published;
                Attempt::Polled(reply)
            }
            Err(TryLockError::WouldBlock) => Attempt::Contended {
                retired: *self.retired.lock().unwrap(),
            },
            Err(TryLockError::Poisoned(_)) => panic!("poisoned"),
        };
        is_signaled(retired, attempt)
    }
}

#[test]
fn pending_status_does_not_block_behind_a_waiting_consumer() {
    let completion = Arc::new(Completion {
        state: Mutex::new(CompletionState { outcome: Outcome::Pending, owned: None }),
        retired: Mutex::new(false),
    });
    let mut waiter = completion.state.lock().unwrap();
    assert!(!completion.look());
    waiter.outcome = Outcome::Complete;
    let mut retired = false;
    assert_eq!(waiter.poll(Ok(false), &mut retired, &mut false), Ok(true));
    *completion.retired.lock().unwrap() = retired;
    drop(waiter);
    assert!(completion.look());
}

#[test]
fn cached_terminal_status_stays_true_even_while_state_is_locked() {
    for outcome in [Outcome::Complete, Outcome::DeviceLost] {
        let completion = Completion {
            state: Mutex::new(CompletionState { outcome, owned: None }),
            retired: Mutex::new(false),
        };
        let mut owner = completion.state.lock().unwrap();
        let mut retired = false;
        let result = owner.poll(Ok(false), &mut retired, &mut false);
        assert!(matches!(result, Ok(true) | Err(VkResult { raw: ERROR_DEVICE_LOST })));
        *completion.retired.lock().unwrap() = retired;
        assert!(owner.take_retired().is_none());
        assert!(completion.look());
        assert!(fence_wait(*completion.retired.lock().unwrap(), Ok(false)).is_ok());
        drop(owner);
        assert!(completion.look());
    }
}

#[test]
fn old_completion_stays_true_after_resource_reuse_and_engine_retirement() {
    let old = Arc::new(Mutex::new(CompletionState::pending(7usize)));
    let retained = old.clone();
    let resource = {
        let mut state = old.lock().unwrap();
        assert_eq!(state.observe(Ok(true)), Ok(true));
        state.take_retired().unwrap()
    };
    let mut next = CompletionState::pending(resource);
    assert_eq!(next.observe(Ok(false)), Ok(false));
    drop(old);
    let mut old = retained.lock().unwrap();
    assert_eq!(old.observe(Ok(false)), Ok(true));
    assert_eq!(old.observe(Err(code(vk::Result::ERROR_DEVICE_LOST))), Ok(true));
    assert!(old.owned.is_none());
    assert!(old.take_retired().is_none());
    assert_eq!(next.observe(Ok(true)), Ok(true));
    assert_eq!(next.take_retired(), Some(7));
}

#[test]
fn pending_and_unexpected_errors_cannot_release_ownership() {
    let owner = Arc::new(());
    let mut state = CompletionState::pending(owner.clone());
    assert_eq!(state.observe(Ok(false)), Ok(false));
    assert!(state.take_retired().is_none());
    assert_eq!(
        state.observe(Err(code(vk::Result::ERROR_OUT_OF_HOST_MEMORY))),
        Err(code(vk::Result::ERROR_OUT_OF_HOST_MEMORY))
    );
    assert_eq!(state.outcome, Outcome::Pending);
    assert!(state.take_retired().is_none());
    assert_eq!(Arc::strong_count(&owner), 2);
    assert_eq!(state.observe(Ok(true)), Ok(true));
    drop(state.take_retired());
    assert_eq!(Arc::strong_count(&owner), 1);
}

#[test]
fn loss_freezes_retired_access_without_becoming_success() {
    let lost = code(vk::Result::ERROR_DEVICE_LOST);
    let mut state = CompletionState::pending(5usize);
    assert_eq!(state.observe(Err(lost)), Err(lost));
    assert_eq!(state.outcome, Outcome::DeviceLost);
    assert_eq!(state.observe(Ok(true)), Err(lost));
    assert_eq!(state.take_retired(), Some(5));
    assert_eq!(state.observe(Ok(false)), Err(lost));
    assert!(state.take_retired().is_none());
}

#[test]
fn waiting_consumer_prevents_nonblocking_reaper_extraction() {
    let state = Arc::new(Mutex::new(CompletionState::pending(9usize)));
    let consumer = state.lock().unwrap();
    let engine = state.clone();
    assert!(matches!(engine.try_lock(), Err(TryLockError::WouldBlock)));
    drop(consumer);
    let mut engine = state.try_lock().unwrap();
    assert!(engine.take_retired().is_none());
    assert_eq!(engine.observe(Ok(true)), Ok(true));
    assert_eq!(engine.take_retired(), Some(9));
}

#[test]
fn pre_submit_guard_returns_slot_on_error_but_not_after_submission() {
    let mut idle = vec![3usize];
    let checkout = Checkout::take(&mut idle);
    assert!(idle.is_empty());
    let result: Result<(), ()> = Err(());
    checkout.finish(&mut idle);
    assert!(result.is_err());
    assert_eq!(idle, [3]);
    let mut checkout = Checkout::take(&mut idle);
    let submitted = checkout.submit().unwrap();
    checkout.finish(&mut idle);
    assert!(idle.is_empty());
    assert_eq!(submitted, 3);
}

#[test]
fn bounded_slots_recycle_with_arbitrarily_retained_old_completions() {
    let mut idle = Vec::new();
    let mut pending = Vec::new();
    let mut old = Vec::new();
    let mut created = 0;
    for _ in 0..32 {
        while !pool_busy(pending.len()) {
            let resource = idle.pop().unwrap_or_else(|| {
                created += 1;
                created
            });
            pending.push(CompletionState::pending(resource));
            assert!(idle.len() + pending.len() <= MAX_PENDING);
        }
        assert_eq!(pending.len(), MAX_PENDING);
        for mut state in pending.drain(..) {
            assert!(state.take_retired().is_none());
            assert_eq!(state.observe(Ok(true)), Ok(true));
            idle.push(state.take_retired().unwrap());
            old.push(state);
        }
    }
    assert_eq!(created, MAX_PENDING);
    assert_eq!(idle.len(), MAX_PENDING);
    assert_eq!(old.len(), 32 * MAX_PENDING);
    assert!(old
        .iter_mut()
        .all(|state| state.owned.is_none() && state.observe(Ok(false)) == Ok(true)));
}

#[test]
fn modifier_negotiation_requires_explicit_single_plane_and_exact_usage() {
    let mut modifier = ModifierProperties {
        modifier: MODIFIER_LINEAR,
        plane_count: 1,
        tiling_features: vk::FormatFeatureFlags::TRANSFER_SRC.as_raw(),
    };
    assert!(single_plane_transfer(&modifier, true));
    assert!(!single_plane_transfer(&modifier, false));
    modifier.tiling_features = vk::FormatFeatureFlags::TRANSFER_DST.as_raw();
    assert!(!single_plane_transfer(&modifier, true));
    assert!(single_plane_transfer(&modifier, false));
    modifier.plane_count = 2;
    assert!(!single_plane_transfer(&modifier, false));
    modifier.plane_count = 1;
    modifier.modifier = MODIFIER_INVALID;
    assert!(!single_plane_transfer(&modifier, false));
}

#[test]
fn modifier_negotiation_checks_exact_extent_and_image_shape() {
    let mut limits = ImageLimits {
        max_width: 256,
        max_height: 160,
        max_depth: 1,
        max_mip_levels: 1,
        max_array_layers: 1,
        sample_counts: vk::SampleCountFlags::TYPE_1.as_raw(),
    };
    assert!(fits_image(&limits, 256, 160));
    assert!(fits_image(&limits, 1, 1));
    assert!(!fits_image(&limits, 257, 160));
    assert!(!fits_image(&limits, 256, 161));
    assert!(!fits_image(&limits, 0, 160));
    assert!(!fits_image(&limits, 256, 0));
    limits.sample_counts = vk::SampleCountFlags::TYPE_4.as_raw();
    assert!(!fits_image(&limits, 256, 160));
    limits.sample_counts = vk::SampleCountFlags::TYPE_1.as_raw();
    limits.max_array_layers = 0;
    assert!(!fits_image(&limits, 256, 160));
}

#[test]
fn wrapper_instance_errors_preserve_vulkan_classification() {
    let lost = VkBridgeError::from(InstanceError::Vk(code(vk::Result::ERROR_DEVICE_LOST)));
    assert!(lost.is_device_lost());
    assert!(matches!(
        VkBridgeError::from(InstanceError::Other("unsupported version".to_string())),
        VkBridgeError::Setup(_)
    ));
}

#[test]
fn device_loss_retires_fences_but_remains_a_transfer_error() {
    assert!(retirement_wait(Ok(())).is_ok());
    assert!(retirement_wait(Err(code(vk::Result::ERROR_DEVICE_LOST))).is_ok());
    assert!(retirement_wait(Err(code(vk::Result::ERROR_OUT_OF_HOST_MEMORY))).is_err());
    assert!(VkBridgeError::Vk(code(vk::Result::ERROR_DEVICE_LOST)).is_device_lost());
    assert!(!VkBridgeError::Busy.is_device_lost());
}

#[test]
fn region_edges_and_overflow() {
    let rect = |x, y, w, h| Rectangle::new(Point { x, y }, Size { w, h });
    assert!(valid_region(100, 50, &rect(0, 0, 100, 50)));
    assert!(valid_region(100, 50, &rect(99, 49, 1, 1)));
    for bad in [
        rect(-1, 0, 1, 1),
        rect(0, -1, 1, 1),
        rect(0, 0, 0, 1),
        rect(0, 0, 1, -1),
        rect(99, 0, 2, 1),
        rect(0, 49, 1, 2),
        rect(i32::MAX, 0, 1, 1),
    ] {
        assert!(!valid_region(100, 50, &bad));
    }
}

#[test]
fn descriptors_reject_implicit_multiplane_and_short_rows() {
    assert!(valid_descriptor(64, 32, 1, MODIFIER_LINEAR, 256));
    assert!(!valid_descriptor(64, 32, 1, MODIFIER_LINEAR, 255));
    assert!(!valid_descriptor(64, 32, 2, MODIFIER_LINEAR, 256));
    assert!(!valid_descriptor(64, 32, 1, MODIFIER_INVALID, 256));
    assert!(!valid_descriptor(0, 32, 1, MODIFIER_LINEAR, 256));
    assert!(!valid_descriptor(64, -1, 1, MODIFIER_LINEAR, 256));
    assert!(!valid_descriptor(i32::MAX, 32, 1, MODIFIER_LINEAR, u32::MAX));
}

#[test]
fn memory_type_intersection() {
    assert_eq!(select_memory_type(0b1010 & 0b1100), Some(3));
    assert_eq!(select_memory_type(1 & 2), None);
    assert_eq!(select_memory_type(1 << 31), Some(31));
}

#[test]
fn constants_are_those_of_the_driver_interface() {
    assert_eq!(ERROR_DEVICE_LOST, vk::Result::ERROR_DEVICE_LOST.as_raw());
    assert_eq!(
        ERROR_FORMAT_NOT_SUPPORTED,
        vk::Result::ERROR_FORMAT_NOT_SUPPORTED.as_raw()
    );
    assert_eq!(FEATURE_TRANSFER_SRC, vk::FormatFeatureFlags::TRANSFER_SRC.as_raw());
    assert_eq!(FEATURE_TRANSFER_DST, vk::FormatFeatureFlags::TRANSFER_DST.as_raw());
    assert_eq!(SAMPLE_COUNT_1, vk::SampleCountFlags::TYPE_1.as_raw());
    assert_eq!(
        MEMORY_IMPORTABLE,
        vk::ExternalMemoryFeatureFlags::IMPORTABLE.as_raw()
    );
    assert_eq!(
        HANDLE_TYPE_DMA_BUF,
        vk::ExternalMemoryHandleTypeFlags::DMA_BUF_EXT.as_raw()
    );
    assert_eq!(QUEUE_GRAPHICS, vk::QueueFlags::GRAPHICS.as_raw());
    assert_eq!(
        SEMAPHORE_EXPORTABLE,
        vk::ExternalSemaphoreFeatureFlags::EXPORTABLE.as_raw()
    );
    assert_eq!(
        SEMAPHORE_IMPORTABLE,
        vk::ExternalSemaphoreFeatureFlags::IMPORTABLE.as_raw()
    );
}

fn reply(memory_features: u32, handle_types: u32) -> ImportReply {
    ImportReply {
        limits: ImageLimits {
            max_width: 64,
            max_height: 64,
            max_depth: 1,
            max_mip_levels: 1,
            max_array_layers: 1,
            sample_counts: SAMPLE_COUNT_1,
        },
        memory_features,
        handle_types,
    }
}

#[test]
fn import_queries_need_importable_dma_bufs() {
    let good = reply(MEMORY_IMPORTABLE, HANDLE_TYPE_DMA_BUF | 1);
    assert_eq!(import_properties(Ok(good)).unwrap(), Some(good.limits));
    assert_eq!(import_properties(Ok(reply(1, HANDLE_TYPE_DMA_BUF))).unwrap(), None);
    assert_eq!(import_properties(Ok(reply(MEMORY_IMPORTABLE, 1))).unwrap(), None);
    let unsupported = code(vk::Result::ERROR_FORMAT_NOT_SUPPORTED);
    assert_eq!(import_properties(Err(unsupported)).unwrap(), None);
    let memory = code(vk::Result::ERROR_OUT_OF_DEVICE_MEMORY);
    assert!(matches!(
        import_properties(Err(memory)),
        Err(VkBridgeError::Vk(err)) if err == memory
    ));
}

#[test]
fn polling_publishes_retirement_and_loss() {
    let lost = code(vk::Result::ERROR_DEVICE_LOST);
    let mut state = CompletionState::pending(1usize);
    let (mut retired, mut device_lost) = (false, false);
    assert!(state.needs_query());
    assert_eq!(state.reap(Ok(false), &mut retired, &mut device_lost), Ok(None));
    assert_eq!((retired, device_lost), (false, false));
    let memory = code(vk::Result::ERROR_OUT_OF_HOST_MEMORY);
    assert_eq!(state.reap(Err(memory), &mut retired, &mut device_lost), Err(memory));
    assert_eq!((retired, device_lost), (false, false));
    assert_eq!(state.reap(Ok(true), &mut retired, &mut device_lost), Ok(Some(1)));
    assert_eq!((retired, device_lost), (true, false));
    assert!(!state.needs_query());

    let mut state = CompletionState::pending(2usize);
    retired = false;
    assert_eq!(state.reap(Err(lost), &mut retired, &mut device_lost), Err(lost));
    assert_eq!((retired, device_lost), (true, true));
    assert_eq!(state.owned, Some(2));
}

#[test]
fn retirement_releases_or_retains() {
    let lost = code(vk::Result::ERROR_DEVICE_LOST);
    let memory = code(vk::Result::ERROR_OUT_OF_HOST_MEMORY);
    let mut timing = recording();
    for reply in [Ok(true), Err(lost)] {
        let mut state = CompletionState::pending(4usize);
        let disposal = state.retire(reply, &mut false, &mut false, &mut timing);
        assert!(matches!(disposal, Disposal::Release(Some(4))));
        assert_eq!(counter(&mut timing, Counter::BatchesRetired), 1);
        let again = state.retire(Ok(false), &mut false, &mut false, &mut timing);
        assert!(matches!(again, Disposal::Release(None)));
        assert_eq!(counter(&mut timing, Counter::BatchesRetired), 0);
    }
    for reply in [Ok(false), Err(memory)] {
        let mut state = CompletionState::pending(4usize);
        let disposal = state.retire(reply, &mut false, &mut false, &mut timing);
        assert!(matches!(disposal, Disposal::Retain));
        assert_eq!(state.owned, Some(4));
        assert_eq!(counter(&mut timing, Counter::BatchesRetired), 0);
    }
}

#[test]
fn waits_distinguish_loss_from_interruption() {
    assert!(fence_wait(true, Err(code(vk::Result::ERROR_OUT_OF_HOST_MEMORY))).is_ok());
    assert!(fence_wait(false, Ok(true)).is_ok());
    assert!(fence_wait(false, Err(code(vk::Result::ERROR_DEVICE_LOST))).is_ok());
    assert_eq!(
        fence_wait(false, Err(code(vk::Result::ERROR_OUT_OF_HOST_MEMORY))),
        Err(Interrupted)
    );
    assert!(!is_signaled(false, Attempt::Polled(Ok(false))));
    assert!(is_signaled(false, Attempt::Polled(Ok(true))));
    assert!(is_signaled(
        false,
        Attempt::Polled(Err(code(vk::Result::ERROR_DEVICE_LOST)))
    ));
    assert!(!is_signaled(
        false,
        Attempt::Polled(Err(code(vk::Result::ERROR_OUT_OF_HOST_MEMORY)))
    ));
    assert!(is_signaled(false, Attempt::Contended { retired: true }));
    assert!(is_signaled(true, Attempt::Contended { retired: false }));
}

#[test]
fn sets_are_created_reset_and_destroyed_in_order() {
    let mut timing = recording();
    let mut set = Resources::null();
    let mut step = CreateStep::CommandPool;
    let mut steps = Vec::new();
    let mut handle = 10;
    while step != CreateStep::Done {
        steps.push(step);
        step = set.created(step, handle, true);
        handle += 1;
    }
    assert_eq!(
        steps,
        [
            CreateStep::CommandPool,
            CreateStep::CommandBuffer,
            CreateStep::Fence,
            CreateStep::Semaphore(Input::Acquire),
            CreateStep::Semaphore(Input::Release),
            CreateStep::Signal,
        ]
    );
    let made = Resources {
        pool: 10,
        command: 11,
        fence: 12,
        acquire: WaitSlot { semaphore: 13, dirty: false },
        release: WaitSlot { semaphore: 14, dirty: false },
        signal: 15,
        dirty_signal: false,
    };
    assert_eq!(set, made);

    assert_eq!(set.reset(ResetStep::CommandPool, 0, &mut timing), ResetStep::Fence);
    assert_eq!(set.reset(ResetStep::Fence, 0, &mut timing), ResetStep::Done);
    assert_eq!(set, made);

    set.release.dirty = true;
    set.dirty_signal = true;
    assert_eq!(
        set.reset(ResetStep::Fence, 0, &mut timing),
        ResetStep::Semaphore(Input::Release)
    );
    assert_eq!(
        set.reset(ResetStep::Semaphore(Input::Release), 24, &mut timing),
        ResetStep::Signal
    );
    assert_eq!(set.reset(ResetStep::Signal, 25, &mut timing), ResetStep::Done);
    assert_eq!(counter(&mut timing, Counter::SignalSemaphoresReplaced), 1);
    assert_eq!(set.release, WaitSlot { semaphore: 24, dirty: false });
    assert_eq!(set.acquire, made.acquire);
    assert_eq!((set.signal, set.dirty_signal), (25, false));

    assert_eq!(
        set.destroy(&mut timing),
        [
            Handle::Semaphore(13),
            Handle::Semaphore(24),
            Handle::Semaphore(25),
            Handle::Fence(12),
            Handle::CommandPool(10),
        ]
    );
    assert_eq!(counter(&mut timing, Counter::ResourceSetsDestroyed), 1);
}

#[test]
fn a_set_without_export_has_no_signal() {
    let mut set = Resources::null();
    assert_eq!(
        set.created(CreateStep::Semaphore(Input::Release), 5, false),
        CreateStep::Done
    );
    assert_eq!(set.signal, 0);
}

fn buffer(id: u64) -> Dmabuf {
    Dmabuf {
        id,
        size: Size { w: 64, h: 32 },
        fourcc: 0x3432_4241,
        modifier: MODIFIER_LINEAR,
        planes: 1,
        stride: 256,
        offset: 0,
        y_inverted: false,
        interlaced: false,
        bottom_first: false,
    }
}

fn reason(result: Result<i32, VkBridgeError>) -> &'static str {
    match result {
        Err(VkBridgeError::Unsupported(reason)) => reason,
        other => panic!("unexpected {:?}", other),
    }
}

#[test]
fn every_invalid_request_is_named() {
    let place = |inode| Allocation { device: 1, inode };
    let regions = vec![Rectangle::from_size(Size { w: 64, h: 32 })];
    let check = |src: &Dmabuf, dst: &Dmabuf| {
        validate(src, dst, Ok(place(1)), Ok(place(2)), &regions, Some(37))
    };
    assert_eq!(check(&buffer(1), &buffer(2)).unwrap(), 37);
    assert_eq!(reason(check(&buffer(1), &buffer(1))), "source aliases destination");
    let mismatch = "size, FourCC or orientation mismatch";
    assert_eq!(
        reason(check(&buffer(1), &Dmabuf { size: Size { w: 64, h: 31 }, ..buffer(2) })),
        mismatch
    );
    assert_eq!(reason(check(&buffer(1), &Dmabuf { fourcc: 1, ..buffer(2) })), mismatch);
    assert_eq!(
        reason(check(&buffer(1), &Dmabuf { y_inverted: true, ..buffer(2) })),
        mismatch
    );
    let invalid = "invalid single-plane descriptor";
    for bad in [
        Dmabuf { modifier: MODIFIER_INVALID, ..buffer(2) },
        Dmabuf { planes: 2, ..buffer(2) },
        Dmabuf { stride: 255, ..buffer(2) },
        Dmabuf { interlaced: true, ..buffer(2) },
        Dmabuf { bottom_first: true, ..buffer(2) },
    ] {
        assert_eq!(reason(check(&buffer(1), &bad)), invalid);
        assert_eq!(reason(check(&bad, &buffer(1))), invalid);
        assert!(validate_buffers(&buffer(1), &bad).is_err());
    }
    assert!(check(&buffer(1), &Dmabuf { modifier: 9, stride: 1, ..buffer(2) }).is_ok());

    let (src, dst) = (buffer(1), buffer(2));
    assert_eq!(
        reason(validate(&src, &dst, Ok(place(1)), Ok(place(1)), &regions, Some(37))),
        "source and destination share an allocation"
    );
    let damage = "empty or out-of-bounds damage";
    assert_eq!(
        reason(validate(&src, &dst, Ok(place(1)), Ok(place(2)), &vec![], Some(37))),
        damage
    );
    let outside = vec![Rectangle::new(Point { x: 1, y: 0 }, Size { w: 64, h: 1 })];
    assert_eq!(
        reason(validate(&src, &dst, Ok(place(1)), Ok(place(2)), &outside, Some(37))),
        damage
    );
    assert!(!valid_damage(src.size, &outside));
    assert!(valid_damage(src.size, &regions));
    assert_eq!(
        reason(validate_request(place(1), place(2), true, None)),
        "unknown FourCC"
    );
    let failed = validate(
        &src,
        &dst,
        Ok(place(1)),
        Err(std::io::Error::from_raw_os_error(9)),
        &regions,
        Some(37),
    );
    assert!(matches!(failed, Err(VkBridgeError::Io(err)) if err.raw_os_error() == Some(9)));
}

#[test]
fn recorded_copies_are_acquired_serialized_and_released() {
    let regions = vec![
        Rectangle::new(Point { x: 1, y: 2 }, Size { w: 3, h: 4 }),
        Rectangle::new(Point { x: 0, y: 0 }, Size { w: 2, h: 2 }),
    ];
    let list = record(&regions);
    let acquire = |dst_access, new_layout| ImageBarrier {
        src_access: Access::Empty,
        dst_access,
        old_layout: Layout::General,
        new_layout,
        src_owner: Owner::Foreign,
        dst_owner: Owner::Engine,
    };
    assert_eq!(list[0], Command::Begin);
    assert_eq!(
        list[1],
        Command::Images {
            src_stage: Pipeline::TopOfPipe,
            dst_stage: Pipeline::Transfer,
            source: acquire(Access::TransferRead, Layout::TransferSrcOptimal),
            destination: acquire(Access::TransferWrite, Layout::TransferDstOptimal),
        }
    );
    assert_eq!(list[2], Command::Copy { x: 1, y: 2, width: 3, height: 4 });
    assert_eq!(list[3], Command::SerializeWrites);
    assert_eq!(list[4], Command::Copy { x: 0, y: 0, width: 2, height: 2 });
    let release = |src_access, old_layout| ImageBarrier {
        src_access,
        dst_access: Access::Empty,
        old_layout,
        new_layout: Layout::General,
        src_owner: Owner::Engine,
        dst_owner: Owner::Foreign,
    };
    assert_eq!(
        list[5],
        Command::Images {
            src_stage: Pipeline::Transfer,
            dst_stage: Pipeline::BottomOfPipe,
            source: release(Access::TransferRead, Layout::TransferSrcOptimal),
            destination: release(Access::TransferWrite, Layout::TransferDstOptimal),
        }
    );
    assert_eq!(list[6..], [Command::End]);
}
