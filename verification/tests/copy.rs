//! Whole copies, with a scripted driver.

use ash::vk;
use multigpu::bridge::{ModifierQuery, VkBridge, MAX_IMPORTS, MAX_MODIFIER_QUERIES, MAX_PENDING};
use multigpu::copy::{
    CopyAction, CopyEvent, CopySession, ImageRequest, ImageRequirements, Submission,
};
use multigpu::error::{Interrupted, VkBridgeError, VkResult};
use multigpu::geometry::{Rectangle, Size};
use multigpu::modifiers::{
    ImageLimits, ImportReply, ModifierProperties, FEATURE_TRANSFER_DST, FEATURE_TRANSFER_SRC,
    HANDLE_TYPE_DMA_BUF, MEMORY_IMPORTABLE, SAMPLE_COUNT_1,
};
use multigpu::names::{Counter, Stage};
use multigpu::negotiation::{Negotiation, Question};
use multigpu::resources::{CreateStep, Input, ResetStep, Resources};
use multigpu::timing::{drain, enter, register_stream, Timing};
use multigpu::validate::{Allocation, Dmabuf};

type Pending = Option<Submission<u64>>;
type Bridge = VkBridge<u64, Pending>;
type Session = CopySession<u64>;
type Event = CopyEvent<u64, Pending>;

const EXPORTABLE: u32 = vk::ExternalSemaphoreFeatureFlags::EXPORTABLE.as_raw();
const IMPORTABLE: u32 = vk::ExternalSemaphoreFeatureFlags::IMPORTABLE.as_raw();

fn code(result: vk::Result) -> VkResult {
    VkResult { raw: result.as_raw() }
}

fn buffer(id: u64) -> Dmabuf {
    Dmabuf {
        id,
        size: Size { w: 64, h: 32 },
        fourcc: 0x3432_4241,
        modifier: 0,
        planes: 1,
        stride: 256,
        offset: 16,
        y_inverted: false,
        interlaced: false,
        bottom_first: false,
    }
}

fn good_reply() -> ImportReply {
    ImportReply {
        limits: ImageLimits {
            max_width: 64,
            max_height: 32,
            max_depth: 1,
            max_mip_levels: 1,
            max_array_layers: 1,
            sample_counts: SAMPLE_COUNT_1,
        },
        memory_features: MEMORY_IMPORTABLE,
        handle_types: HANDLE_TYPE_DMA_BUF,
    }
}

// A driver that succeeds in everything and hands out increasing handles, with every action noted.
struct Driver {
    timing: Timing,
    next: u64,
    fd: bool,
    polls: Vec<Result<Option<Resources>, VkResult>>,
    actions: Vec<CopyAction>,
    stages: Vec<Stage>,
}

impl Driver {
    fn new() -> Driver {
        let mut timing = Timing::new(true);
        register_stream(&mut timing, (1, 0), "copies");
        let _scope = enter(&mut timing, (1, 0));
        let _ = drain(&mut timing);
        Driver { timing, next: 1, fd: true, polls: Vec::new(), actions: Vec::new(), stages: Vec::new() }
    }

    fn handle(&mut self) -> u64 {
        self.next += 1;
        self.next
    }

    fn counters(&mut self) -> Vec<(Counter, u64)> {
        drain(&mut self.timing)
            .iter()
            .flat_map(|stream| stream.counters.clone())
            .collect()
    }

    fn answer(&mut self, session: &mut Session) -> Event {
        match session.action() {
            CopyAction::Identify { source } => CopyEvent::Identified(Ok(Allocation {
                device: 1,
                inode: if source { session.src.id } else { session.dst.id },
            })),
            CopyAction::Poll(_) => CopyEvent::Polled(self.polls.remove(0)),
            CopyAction::ListModifiers => CopyEvent::ModifiersListed(Ok(vec![ModifierProperties {
                modifier: 0,
                plane_count: 1,
                tiling_features: FEATURE_TRANSFER_SRC | FEATURE_TRANSFER_DST,
            }])),
            CopyAction::QueryLimits { .. } => CopyEvent::LimitsQueried(Ok(good_reply())),
            CopyAction::CreateImage { .. } => {
                CopyEvent::ImageCreated(Ok(ImageRequirements { memory_types: 0b1010, size: 4096 }))
            }
            CopyAction::DuplicateFd { .. } => CopyEvent::FdDuplicated(Ok(())),
            CopyAction::QueryFdMemory { .. } => CopyEvent::FdMemoryQueried(Ok(0b1100)),
            CopyAction::Allocate { memory_type, size, .. } => {
                assert_eq!((memory_type, size), (3, 4096));
                CopyEvent::Allocated(Ok(()))
            }
            CopyAction::Bind { .. } => CopyEvent::Bound(Ok(self.handle())),
            CopyAction::CreateObject(_) => CopyEvent::ObjectCreated(Ok(self.handle())),
            CopyAction::ResetObject(_) => CopyEvent::ObjectReset(Ok(self.handle())),
            CopyAction::ExportInput(_) => CopyEvent::InputExported(self.fd),
            CopyAction::ImportInput(_) => CopyEvent::InputImported(Ok(())),
            CopyAction::WaitInput(_) => CopyEvent::InputWaited(Ok(())),
            CopyAction::Record => CopyEvent::Recorded(Ok(())),
            CopyAction::Submit => CopyEvent::Submitted(Ok(())),
            CopyAction::ExportSignal => CopyEvent::SignalExported(Ok(7)),
            CopyAction::Publish => CopyEvent::Published(session.take_submission()),
            CopyAction::Nothing => panic!("nothing to answer"),
        }
    }

    // Answers up to the given action, or to the end.
    fn run(
        &mut self,
        bridge: &mut Bridge,
        session: &mut Session,
        until: Option<CopyAction>,
    ) -> Result<(), VkBridgeError> {
        loop {
            let action = session.action();
            if action == CopyAction::Nothing || Some(action) == until {
                return Ok(());
            }
            self.actions.push(action);
            let event = self.answer(session);
            let before = session.reached;
            let result = session.step(bridge, &mut self.timing, event);
            self.stages.extend(session.stages_since(before));
            result?;
        }
    }
}

fn begin(bridge: &Bridge, src: u64, dst: u64, acquire: bool, release: bool) -> Session {
    let regions = vec![Rectangle::from_size(Size { w: 64, h: 32 })];
    bridge
        .copy(&buffer(src), &buffer(dst), acquire, release, regions, Some(37))
        .unwrap()
}

fn unsupported(result: Result<(), VkBridgeError>) -> &'static str {
    match result {
        Err(VkBridgeError::Unsupported(reason)) => reason,
        other => panic!("unexpected {:?}", other),
    }
}

#[test]
fn a_first_copy_imports_creates_and_publishes() {
    let mut bridge = Bridge::new(Some(EXPORTABLE | IMPORTABLE));
    let mut driver = Driver::new();
    let mut session = begin(&bridge, 1, 2, true, true);
    driver.run(&mut bridge, &mut session, None).unwrap();
    let import = |source| {
        vec![
            CopyAction::ListModifiers,
            CopyAction::QueryLimits { source },
            CopyAction::CreateImage { source },
            CopyAction::DuplicateFd { source },
            CopyAction::QueryFdMemory { source },
            CopyAction::Allocate { source, memory_type: 3, size: 4096 },
            CopyAction::Bind { source },
        ]
    };
    let mut expected = vec![
        CopyAction::Identify { source: true },
        CopyAction::Identify { source: false },
    ];
    expected.extend(import(true));
    expected.extend(import(false));
    for step in [
        CreateStep::CommandPool,
        CreateStep::CommandBuffer,
        CreateStep::Fence,
        CreateStep::Semaphore(Input::Acquire),
        CreateStep::Semaphore(Input::Release),
        CreateStep::Signal,
    ] {
        expected.push(CopyAction::CreateObject(step));
    }
    expected.extend([
        CopyAction::ExportInput(Input::Acquire),
        CopyAction::ImportInput(Input::Acquire),
        CopyAction::ExportInput(Input::Release),
        CopyAction::ImportInput(Input::Release),
        CopyAction::Record,
        CopyAction::Submit,
        CopyAction::ExportSignal,
        CopyAction::Publish,
    ]);
    assert_eq!(driver.actions, expected);
    assert_eq!(session.exported, Some(7));
    assert_eq!(bridge.pending_len(), 1);
    let submission = bridge.pending(0).as_ref().unwrap();
    assert_eq!((submission.source.buffer, submission.source.source), (1, true));
    assert_eq!((submission.destination.buffer, submission.destination.source), (2, false));
    assert!(!submission.resources.acquire.dirty);
    assert!(!submission.resources.release.dirty);
    assert!(!submission.resources.dirty_signal);
    assert_eq!(
        driver.counters(),
        [
            (Counter::SourceImportMisses, 1),
            (Counter::TargetImportMisses, 1),
            (Counter::NativeInputImports, 2),
            (Counter::BatchesCreated, 1),
            (Counter::ResourceSetsCreated, 1),
        ]
    );
}

#[test]
fn requests_describe_images_and_submissions() {
    let mut bridge = Bridge::new(Some(EXPORTABLE | IMPORTABLE));
    let mut driver = Driver::new();
    let mut session = begin(&bridge, 1, 2, true, true);
    assert_eq!(session.stage(), Some(Stage::VulkanValidation));
    assert!(session.submit_request().is_none());
    assert!(session.input_semaphore(Input::Acquire).is_none());
    driver
        .run(&mut bridge, &mut session, Some(CopyAction::CreateImage { source: true }))
        .unwrap();
    assert_eq!(session.stage(), Some(Stage::SourceImport));
    assert_eq!(
        session.image_request(true),
        ImageRequest {
            format: 37,
            modifier: 0,
            width: 64,
            height: 32,
            offset: 16,
            row_pitch: 256,
            source: true,
        }
    );
    driver.run(&mut bridge, &mut session, Some(CopyAction::Submit)).unwrap();
    assert_eq!(session.stage(), Some(Stage::VulkanSubmit));
    let set = session.checkout.resources.as_ref().unwrap();
    let request = session.submit_request().unwrap();
    assert_eq!((request.command, request.fence), (set.command, set.fence));
    assert_eq!(request.waits, [set.acquire.semaphore, set.release.semaphore]);
    assert_eq!(request.signal, Some(set.signal));
    assert_eq!(session.input_semaphore(Input::Release), Some(set.release.semaphore));
    assert_eq!(session.commands().len(), 5);
    assert!(session.submitted_signal().is_none());
    assert!(session.take_submission().is_none());
    let signal = session.submit_request().unwrap().signal;
    session
        .step(&mut bridge, &mut driver.timing, CopyEvent::Submitted(Ok(())))
        .unwrap();
    assert_eq!(session.submitted_signal(), signal);
}

const STAGES_OF_A_COPY: [Stage; 10] = [
    Stage::VulkanValidation,
    Stage::VulkanRetire,
    Stage::SourceImport,
    Stage::TargetImport,
    Stage::VulkanResources,
    Stage::VulkanInputSetup,
    Stage::VulkanSignalSetup,
    Stage::VulkanRecord,
    Stage::VulkanSubmit,
    Stage::VulkanExport,
];

#[test]
fn every_copy_enters_every_stage_once() {
    // The first copy imports and creates; the second finds everything and has nothing to wait for.
    let mut bridge = Bridge::new(None);
    for polls in [vec![], vec![Ok(Some(Resources::null()))]] {
        let mut driver = Driver::new();
        driver.polls = polls;
        let mut session = begin(&bridge, 1, 2, false, false);
        driver.stages.extend(bridge.opening_stage());
        driver.run(&mut bridge, &mut session, None).unwrap();
        assert_eq!(driver.stages, STAGES_OF_A_COPY);
        assert_eq!(session.stage(), None);
    }
    // Everything native, and a set that is reused.
    let mut bridge = Bridge::new(Some(EXPORTABLE | IMPORTABLE));
    let mut driver = Driver::new();
    let mut session = begin(&bridge, 1, 2, true, true);
    driver.stages.extend(bridge.opening_stage());
    driver.run(&mut bridge, &mut session, None).unwrap();
    assert_eq!(driver.stages, STAGES_OF_A_COPY);
}

#[test]
fn cached_images_and_nothing_pending_pass_their_stages_in_one_step() {
    let mut bridge = Bridge::new(None);
    let mut driver = Driver::new();
    let mut session = begin(&bridge, 1, 2, false, false);
    driver.run(&mut bridge, &mut session, None).unwrap();
    let _ = bridge.take_pending();
    let mut session = begin(&bridge, 1, 2, false, false);
    let identify = CopyAction::Identify { source: false };
    driver.run(&mut bridge, &mut session, Some(identify)).unwrap();
    let before = session.reached;
    assert_eq!(before, Stage::VulkanValidation);
    let event = driver.answer(&mut session);
    session.step(&mut bridge, &mut driver.timing, event).unwrap();
    assert_eq!(session.stages_since(before), STAGES_OF_A_COPY[1..5]);
    assert_eq!(session.stage(), Some(Stage::VulkanResources));
    assert!(session.stages_since(session.reached).is_empty());
    assert!(session.stages_since(Stage::DeviceDestroy).is_empty());
}

#[test]
fn failed_copies_end_in_the_stage_that_failed() {
    // Without a session: validation, unless the device is lost.
    let mut bridge = Bridge::new(None);
    assert_eq!(bridge.opening_stage(), Some(Stage::VulkanValidation));
    bridge.mark_device_lost();
    assert_eq!(bridge.opening_stage(), None);

    let mut bridge = Bridge::new(None);
    let mut driver = Driver::new();
    let mut session = bridge
        .copy(&buffer(1), &buffer(2), false, false, vec![], Some(37))
        .unwrap();
    assert!(driver.run(&mut bridge, &mut session, None).is_err());
    assert!(driver.stages.is_empty());
    assert_eq!(session.reached, Stage::VulkanValidation);

    let mut session = begin(&bridge, 1, 2, false, false);
    bridge.mark_device_lost();
    assert!(driver.run(&mut bridge, &mut session, None).is_err());
    assert_eq!(driver.stages, [Stage::VulkanRetire]);
    assert_eq!(session.stage(), None);
}

#[test]
fn inner_stages_are_resets_and_explicit_waits() {
    let mut bridge = Bridge::new(None);
    let mut driver = Driver::new();
    let mut session = begin(&bridge, 1, 2, true, false);
    assert_eq!(session.inner_stage(), None);
    let wait = CopyAction::WaitInput(Input::Acquire);
    driver.run(&mut bridge, &mut session, Some(wait)).unwrap();
    assert_eq!(session.inner_stage(), Some(Stage::CpuInputFenceWait));
    driver.run(&mut bridge, &mut session, None).unwrap();
    driver.polls.push(Ok(Some(Resources::null())));
    let mut session = begin(&bridge, 1, 2, false, false);
    let reset = CopyAction::ResetObject(ResetStep::Fence);
    driver.run(&mut bridge, &mut session, Some(reset)).unwrap();
    assert_eq!(session.inner_stage(), Some(Stage::VulkanPoolReset));
}

#[test]
fn a_second_copy_reuses_images_and_the_retired_set() {
    let mut bridge = Bridge::new(None);
    let mut driver = Driver::new();
    let mut session = begin(&bridge, 1, 2, false, false);
    driver.run(&mut bridge, &mut session, None).unwrap();
    assert_eq!(session.exported, None);
    let _ = driver.counters();
    driver.actions.clear();

    let mut set = Resources::null();
    set.pool = 77;
    driver.polls.push(Ok(Some(set)));
    let mut session = begin(&bridge, 1, 2, false, false);
    driver.run(&mut bridge, &mut session, None).unwrap();
    assert_eq!(
        driver.actions,
        [
            CopyAction::Identify { source: true },
            CopyAction::Identify { source: false },
            CopyAction::Poll(0),
            CopyAction::ResetObject(ResetStep::CommandPool),
            CopyAction::ResetObject(ResetStep::Fence),
            CopyAction::Record,
            CopyAction::Submit,
            CopyAction::Publish,
        ]
    );
    assert_eq!(bridge.pending_len(), 1);
    assert_eq!(bridge.pending(0).as_ref().unwrap().resources.pool, 77);
    assert_eq!(
        driver.counters(),
        [
            (Counter::BatchesCreated, 1),
            (Counter::BatchesRetired, 1),
            (Counter::ResourceSetsReused, 1),
            (Counter::ResourceSetsRecycled, 1),
        ]
    );
}

#[test]
fn unavailable_native_fences_are_waited() {
    // Without native import.
    let mut bridge = Bridge::new(Some(EXPORTABLE));
    let mut driver = Driver::new();
    let mut session = begin(&bridge, 1, 2, true, true);
    driver.run(&mut bridge, &mut session, Some(CopyAction::Submit)).unwrap();
    assert!(session.submit_request().unwrap().waits.is_empty());
    let tail = &driver.actions[driver.actions.len() - 3..];
    assert_eq!(
        tail,
        [
            CopyAction::WaitInput(Input::Acquire),
            CopyAction::WaitInput(Input::Release),
            CopyAction::Record,
        ]
    );
    assert!(driver.counters().contains(&(Counter::CpuInputWaits, 2)));

    // A fence that cannot be exported, and one whose import is refused.
    let mut bridge = Bridge::new(Some(IMPORTABLE));
    let mut driver = Driver::new();
    let mut session = begin(&bridge, 1, 2, true, true);
    let export = CopyAction::ExportInput(Input::Acquire);
    driver.run(&mut bridge, &mut session, Some(export)).unwrap();
    session
        .step(&mut bridge, &mut driver.timing, CopyEvent::InputExported(false))
        .unwrap();
    assert_eq!(session.action(), CopyAction::WaitInput(Input::Acquire));
    let import = CopyAction::ImportInput(Input::Release);
    driver.run(&mut bridge, &mut session, Some(import)).unwrap();
    let refused = Err(code(vk::Result::ERROR_INVALID_EXTERNAL_HANDLE));
    session
        .step(&mut bridge, &mut driver.timing, CopyEvent::InputImported(refused))
        .unwrap();
    assert_eq!(session.action(), CopyAction::WaitInput(Input::Release));
    driver.run(&mut bridge, &mut session, None).unwrap();
    // The refused import may have left a payload: its semaphore is replaced at the next checkout.
    assert!(bridge.pending(0).as_ref().unwrap().resources.release.dirty);
    assert!(!bridge.pending(0).as_ref().unwrap().resources.acquire.dirty);
}

#[test]
fn interrupted_input_waits_end_the_copy_and_keep_the_set() {
    let mut bridge = Bridge::new(None);
    let mut driver = Driver::new();
    let mut session = begin(&bridge, 1, 2, true, false);
    let wait = CopyAction::WaitInput(Input::Acquire);
    driver.run(&mut bridge, &mut session, Some(wait)).unwrap();
    let result = session.step(
        &mut bridge,
        &mut driver.timing,
        CopyEvent::InputWaited(Err(Interrupted)),
    );
    assert!(matches!(result, Err(VkBridgeError::Wait(Interrupted))));
    assert_eq!(session.action(), CopyAction::Nothing);
    assert_eq!(session.stage(), None);
    assert!(session.take_submission().is_none());
    assert_eq!(bridge.take_idle().len(), 1);
    assert!(!bridge.device_lost());
}

#[test]
fn refused_submissions_return_the_set_unless_the_device_is_lost() {
    let lost = code(vk::Result::ERROR_DEVICE_LOST);
    let memory = code(vk::Result::ERROR_OUT_OF_DEVICE_MEMORY);
    for (err, idle) in [(memory, 1), (lost, 0)] {
        let mut bridge = Bridge::new(None);
        let mut driver = Driver::new();
        let mut session = begin(&bridge, 1, 2, false, false);
        driver.run(&mut bridge, &mut session, Some(CopyAction::Submit)).unwrap();
        let result =
            session.step(&mut bridge, &mut driver.timing, CopyEvent::Submitted(Err(err)));
        assert!(matches!(result, Err(VkBridgeError::Vk(raw)) if raw == err));
        assert_eq!(bridge.device_lost(), err == lost);
        assert_eq!(session.take_submission().is_some(), err == lost);
        assert_eq!(bridge.pending_len(), 0);
        let again = bridge.copy(&buffer(1), &buffer(2), false, false, vec![], Some(37));
        if err == lost {
            assert!(matches!(again, Err(failure) if failure.is_device_lost()));
        } else {
            assert!(again.is_ok());
        }
        assert_eq!(bridge.take_idle().len(), idle);
    }
}

#[test]
fn failed_exports_do_not_hide_a_submission() {
    let lost = code(vk::Result::ERROR_DEVICE_LOST);
    let memory = code(vk::Result::ERROR_OUT_OF_HOST_MEMORY);
    for (reply, dirty, is_lost) in [
        (Ok(-1), false, false),
        (Err(memory), true, false),
        (Err(lost), true, true),
    ] {
        let mut bridge = Bridge::new(Some(EXPORTABLE));
        let mut driver = Driver::new();
        let mut session = begin(&bridge, 1, 2, false, false);
        driver
            .run(&mut bridge, &mut session, Some(CopyAction::ExportSignal))
            .unwrap();
        assert!(session.submitted.as_ref().unwrap().dirty_signal);
        assert_eq!(session.exported, None);
        session
            .step(&mut bridge, &mut driver.timing, CopyEvent::SignalExported(reply))
            .unwrap();
        driver.run(&mut bridge, &mut session, None).unwrap();
        assert_eq!(session.exported, None);
        assert_eq!(bridge.pending_len(), 1);
        assert_eq!(
            bridge.pending(0).as_ref().unwrap().resources.dirty_signal,
            dirty
        );
        assert_eq!(bridge.device_lost(), is_lost);
    }
}

#[test]
fn failed_construction_leaves_a_partial_set_to_destroy() {
    let mut bridge = Bridge::new(None);
    let mut driver = Driver::new();
    let mut session = begin(&bridge, 1, 2, false, false);
    let fence = CopyAction::CreateObject(CreateStep::Fence);
    driver.run(&mut bridge, &mut session, Some(fence)).unwrap();
    assert!(session.take_partial().is_none());
    let memory = code(vk::Result::ERROR_OUT_OF_HOST_MEMORY);
    let result = session.step(
        &mut bridge,
        &mut driver.timing,
        CopyEvent::ObjectCreated(Err(memory)),
    );
    assert!(matches!(result, Err(VkBridgeError::Vk(raw)) if raw == memory));
    let partial = session.take_partial().unwrap();
    assert!(partial.pool != 0 && partial.command != 0 && partial.fence == 0);
    assert!(session.take_partial().is_none());
    assert!(bridge.take_idle().is_empty());
}

#[test]
fn failed_resets_return_the_set() {
    let mut bridge = Bridge::new(None);
    let mut driver = Driver::new();
    let mut session = begin(&bridge, 1, 2, false, false);
    driver.run(&mut bridge, &mut session, None).unwrap();
    driver.polls.push(Ok(Some(Resources::null())));
    let mut session = begin(&bridge, 1, 2, false, false);
    let reset = CopyAction::ResetObject(ResetStep::Fence);
    driver.run(&mut bridge, &mut session, Some(reset)).unwrap();
    let memory = code(vk::Result::ERROR_OUT_OF_HOST_MEMORY);
    let result = session.step(
        &mut bridge,
        &mut driver.timing,
        CopyEvent::ObjectReset(Err(memory)),
    );
    assert!(result.is_err());
    assert_eq!(bridge.take_idle().len(), 1);
}

#[test]
fn leftover_payloads_are_replaced_before_reuse() {
    let mut bridge = Bridge::new(Some(EXPORTABLE | IMPORTABLE));
    let mut driver = Driver::new();
    let mut session = begin(&bridge, 1, 2, false, false);
    driver.run(&mut bridge, &mut session, None).unwrap();
    let mut set = Resources::null();
    set.acquire.semaphore = 500;
    set.acquire.dirty = true;
    set.release.semaphore = 501;
    set.signal = 502;
    set.dirty_signal = true;
    driver.polls.push(Ok(Some(set)));
    driver.actions.clear();
    let _ = driver.counters();
    let mut session = begin(&bridge, 1, 2, true, false);
    driver.run(&mut bridge, &mut session, Some(CopyAction::Submit)).unwrap();
    assert_eq!(
        driver.actions[3..7],
        [
            CopyAction::ResetObject(ResetStep::CommandPool),
            CopyAction::ResetObject(ResetStep::Fence),
            CopyAction::ResetObject(ResetStep::Semaphore(Input::Acquire)),
            CopyAction::ResetObject(ResetStep::Signal),
        ]
    );
    let request = session.submit_request().unwrap();
    assert_eq!(request.waits.len(), 1);
    assert_ne!(request.waits[0], 500);
    assert_ne!(request.signal, Some(502));
    assert_eq!(session.input_semaphore(Input::Release), Some(501));
    assert!(driver.counters().contains(&(Counter::SignalSemaphoresReplaced, 1)));
}

#[test]
fn outstanding_submissions_are_bounded() {
    let mut bridge = Bridge::new(None);
    let mut driver = Driver::new();
    for pending in 0..MAX_PENDING {
        driver.polls = (0..pending).map(|_| Ok(None)).collect();
        let mut session = begin(&bridge, 1, 2, false, false);
        driver.run(&mut bridge, &mut session, None).unwrap();
    }
    assert_eq!(bridge.pending_len(), MAX_PENDING);
    let _ = driver.counters();
    driver.actions.clear();
    driver.polls = (0..MAX_PENDING).map(|_| Ok(None)).collect();
    let mut session = begin(&bridge, 1, 2, false, false);
    let result = driver.run(&mut bridge, &mut session, None);
    assert!(matches!(result, Err(VkBridgeError::Busy)));
    // Each pending submission was looked at once.
    assert_eq!(driver.actions.len(), 2 + MAX_PENDING);
    assert_eq!(driver.counters(), [(Counter::ResourcePoolBusy, 1)]);
    assert!(!bridge.device_lost());
    assert_eq!(bridge.take_pending().len(), MAX_PENDING);
    assert_eq!(bridge.pending_len(), 0);
}

#[test]
fn loss_found_by_a_poll_or_a_consumer_ends_the_copy() {
    let lost = code(vk::Result::ERROR_DEVICE_LOST);
    let mut bridge = Bridge::new(None);
    let mut driver = Driver::new();
    let mut session = begin(&bridge, 1, 2, false, false);
    driver.run(&mut bridge, &mut session, None).unwrap();
    driver.polls.push(Err(lost));
    let mut session = begin(&bridge, 1, 2, false, false);
    let result = driver.run(&mut bridge, &mut session, None);
    assert!(matches!(result, Err(err) if err.is_device_lost()));
    assert!(bridge.device_lost());
    assert_eq!(bridge.pending_len(), 1);

    let mut bridge = Bridge::new(None);
    let mut driver = Driver::new();
    let mut session = begin(&bridge, 1, 2, false, false);
    let identify = CopyAction::Identify { source: false };
    driver.run(&mut bridge, &mut session, Some(identify)).unwrap();
    bridge.mark_device_lost();
    let result = driver.run(&mut bridge, &mut session, None);
    assert!(matches!(result, Err(err) if err.is_device_lost()));
}

#[test]
fn unimportable_images_are_named() {
    let at = |action: CopyAction| {
        let mut bridge = Bridge::new(None);
        let mut driver = Driver::new();
        let mut session = begin(&bridge, 1, 2, false, false);
        driver.run(&mut bridge, &mut session, Some(action)).unwrap();
        (bridge, driver, session)
    };
    let fail = |action: CopyAction, event: Event| {
        let (mut bridge, mut driver, mut session) = at(action);
        session.step(&mut bridge, &mut driver.timing, event)
    };
    let listed = CopyAction::ListModifiers;
    for list in [
        vec![],
        vec![ModifierProperties { modifier: 0, plane_count: 2, tiling_features: 0xffff }],
        vec![ModifierProperties { modifier: 9, plane_count: 1, tiling_features: 0xffff }],
        vec![ModifierProperties {
            modifier: 0,
            plane_count: 1,
            tiling_features: FEATURE_TRANSFER_DST,
        }],
    ] {
        assert_eq!(
            unsupported(fail(listed, CopyEvent::ModifiersListed(Ok(list)))),
            "modifier is unsupported, has auxiliary planes or lacks transfer support"
        );
    }
    assert!(matches!(
        fail(listed, CopyEvent::ModifiersListed(Err("no format".to_string()))),
        Err(VkBridgeError::Setup(text)) if text == "no format"
    ));
    let limits = CopyAction::QueryLimits { source: true };
    let no_format = Err(code(vk::Result::ERROR_FORMAT_NOT_SUPPORTED));
    assert_eq!(
        unsupported(fail(limits, CopyEvent::LimitsQueried(no_format))),
        "image is not importable"
    );
    let mut small = good_reply();
    small.limits.max_width = 63;
    assert_eq!(
        unsupported(fail(limits, CopyEvent::LimitsQueried(Ok(small)))),
        "image is not importable at this size"
    );
    let memory = code(vk::Result::ERROR_OUT_OF_DEVICE_MEMORY);
    assert!(matches!(
        fail(limits, CopyEvent::LimitsQueried(Err(memory))),
        Err(VkBridgeError::Vk(raw)) if raw == memory
    ));
    let fd = CopyAction::DuplicateFd { source: true };
    let os = std::io::Error::from_raw_os_error(24);
    assert!(matches!(
        fail(fd, CopyEvent::FdDuplicated(Err(os))),
        Err(VkBridgeError::Io(err)) if err.raw_os_error() == Some(24)
    ));
    let types = CopyAction::QueryFdMemory { source: true };
    assert_eq!(
        unsupported(fail(types, CopyEvent::FdMemoryQueried(Ok(0b0101)))),
        "no common memory type for dma-buf and image"
    );
    for (action, event) in [
        (CopyAction::CreateImage { source: true }, CopyEvent::ImageCreated(Err(memory))),
        (types, CopyEvent::FdMemoryQueried(Err(memory))),
        (
            CopyAction::Allocate { source: true, memory_type: 3, size: 4096 },
            CopyEvent::Allocated(Err(memory)),
        ),
        (CopyAction::Bind { source: true }, CopyEvent::Bound(Err(memory))),
        (CopyAction::Record, CopyEvent::Recorded(Err(memory))),
    ] {
        assert!(matches!(fail(action, event), Err(VkBridgeError::Vk(raw)) if raw == memory));
    }
    let place = Allocation { device: 1, inode: 1 };
    let identify = CopyAction::Identify { source: false };
    assert_eq!(
        unsupported(fail(identify, CopyEvent::Identified(Ok(place)))),
        "source and destination share an allocation"
    );
    let os = std::io::Error::from_raw_os_error(9);
    assert!(matches!(
        fail(identify, CopyEvent::Identified(Err(os))),
        Err(VkBridgeError::Io(_))
    ));
    let lost = code(vk::Result::ERROR_DEVICE_LOST);
    let mut bridge = Bridge::new(Some(IMPORTABLE));
    let mut driver = Driver::new();
    let mut session = begin(&bridge, 1, 2, true, false);
    let import = CopyAction::ImportInput(Input::Acquire);
    driver.run(&mut bridge, &mut session, Some(import)).unwrap();
    let result =
        session.step(&mut bridge, &mut driver.timing, CopyEvent::InputImported(Err(lost)));
    assert!(matches!(result, Err(err) if err.is_device_lost()));
    assert!(bridge.device_lost());
}

#[test]
fn invalid_requests_are_refused_before_any_call() {
    let bridge = Bridge::new(None);
    let regions = vec![Rectangle::from_size(Size { w: 64, h: 32 })];
    let same = bridge.copy(&buffer(1), &buffer(1), false, false, regions, Some(37));
    assert!(matches!(
        same,
        Err(VkBridgeError::Unsupported("source aliases destination"))
    ));
    for (regions, format, reason) in [
        (vec![], Some(37), "empty or out-of-bounds damage"),
        (
            vec![Rectangle::from_size(Size { w: 1, h: 1 })],
            None,
            "unknown FourCC",
        ),
    ] {
        let mut bridge = Bridge::new(None);
        let mut driver = Driver::new();
        let mut session = bridge
            .copy(&buffer(1), &buffer(2), false, false, regions, format)
            .unwrap();
        let result = driver.run(&mut bridge, &mut session, None);
        assert_eq!(unsupported(result), reason);
        assert_eq!(driver.actions.len(), 2);
    }
}

#[test]
fn answers_to_other_actions_change_nothing() {
    let mut bridge = Bridge::new(None);
    let mut driver = Driver::new();
    let mut session = begin(&bridge, 1, 2, false, false);
    let memory = code(vk::Result::ERROR_OUT_OF_DEVICE_MEMORY);
    session
        .step(&mut bridge, &mut driver.timing, CopyEvent::Submitted(Err(memory)))
        .unwrap();
    session
        .step(&mut bridge, &mut driver.timing, CopyEvent::Published(None))
        .unwrap();
    assert_eq!(session.action(), CopyAction::Identify { source: true });
    assert_eq!(bridge.pending_len(), 0);
    driver.run(&mut bridge, &mut session, None).unwrap();
    session
        .step(&mut bridge, &mut driver.timing, CopyEvent::Published(None))
        .unwrap();
    assert_eq!(bridge.pending_len(), 1);
}

#[test]
fn imported_images_are_cached_by_recent_use() {
    let mut bridge = Bridge::new(None);
    assert!(bridge.oldest_import().is_none());
    let mut driver = Driver::new();
    let copy = |bridge: &mut Bridge, driver: &mut Driver, src, dst| {
        if bridge.pending_len() > 0 {
            driver.polls = vec![Ok(Some(Resources::null()))];
        }
        driver.actions.clear();
        let mut session = begin(bridge, src, dst, false, false);
        driver.run(bridge, &mut session, None).unwrap();
        driver
            .actions
            .iter()
            .filter(|action| matches!(action, CopyAction::CreateImage { .. }))
            .count()
    };
    // One destination and as many sources as fit beside it.
    let sources = MAX_IMPORTS as u64 - 1;
    for src in 1..=sources {
        let made = copy(&mut bridge, &mut driver, src, 100);
        assert_eq!(made, if src == 1 { 2 } else { 1 });
    }
    assert_eq!(copy(&mut bridge, &mut driver, 1, 100), 0);
    // The least recently used source goes first.
    assert_eq!(copy(&mut bridge, &mut driver, 50, 100), 1);
    assert_eq!(copy(&mut bridge, &mut driver, 1, 100), 0);
    assert_eq!(copy(&mut bridge, &mut driver, 2, 100), 1);
    let oldest = bridge.oldest_import().unwrap();
    assert_eq!((oldest.buffer, oldest.source), (4, true));
    // A buffer in the other role is another image.
    assert_eq!(copy(&mut bridge, &mut driver, 2, 1), 1);
}

fn negotiate(bridge: &mut Bridge, width: u32, modifiers: Vec<u64>) -> (Vec<u64>, bool) {
    match bridge.source_modifiers(1, width, 8, Some(37)).unwrap() {
        ModifierQuery::Known(list) => (list, true),
        ModifierQuery::Negotiate(mut n) => {
            assert_eq!(n.question(), Question::List { format: 37 });
            let list = modifiers
                .iter()
                .map(|&modifier| ModifierProperties {
                    modifier,
                    plane_count: 1,
                    tiling_features: FEATURE_TRANSFER_SRC,
                })
                .collect();
            n.listed(Ok(list)).unwrap();
            while let Question::Import { .. } = n.question() {
                n.answered(Ok(good_reply())).unwrap();
            }
            (bridge.negotiated(n).unwrap(), false)
        }
    }
}

#[test]
fn source_modifiers_are_sorted_filtered_and_cached() {
    let mut bridge = Bridge::new(None);
    assert_eq!(negotiate(&mut bridge, 8, vec![9, 3, 9, 5]), (vec![3, 5, 9], false));
    assert_eq!(negotiate(&mut bridge, 8, vec![]), (vec![3, 5, 9], true));
    // Too wide for the limits: an empty result is cached as well.
    assert_eq!(negotiate(&mut bridge, 65, vec![3]), (vec![], false));
    assert_eq!(negotiate(&mut bridge, 65, vec![3]), (vec![], true));
    for width in 10..8 + MAX_MODIFIER_QUERIES as u32 {
        assert_eq!(negotiate(&mut bridge, width, vec![1]), (vec![1], false));
    }
    // Full: using the first keeps it, and the second is evicted next.
    assert_eq!(negotiate(&mut bridge, 8, vec![]), (vec![3, 5, 9], true));
    assert_eq!(negotiate(&mut bridge, 40, vec![1]), (vec![1], false));
    assert_eq!(negotiate(&mut bridge, 8, vec![]), (vec![3, 5, 9], true));
    assert_eq!(negotiate(&mut bridge, 65, vec![7]), (vec![], false));
}

#[test]
fn invalid_queries_and_driver_errors_are_not_cached() {
    let mut bridge = Bridge::new(None);
    for (width, height) in [(0, 8), (8, 0), (1 << 31, 8), (8, 1 << 31)] {
        assert!(matches!(
            bridge.source_modifiers(1, width, height, Some(37)),
            Err(VkBridgeError::Unsupported("invalid source modifier query dimensions"))
        ));
    }
    assert!(matches!(
        bridge.source_modifiers(1, 8, 8, None),
        Err(VkBridgeError::Unsupported("unknown FourCC"))
    ));
    let mut n = Negotiation::new(1, 8, 8, 37);
    assert!(matches!(
        n.listed(Err("gone".to_string())),
        Err(VkBridgeError::Setup(text)) if text == "gone"
    ));
    let mut n = Negotiation::new(1, 8, 8, 37);
    n.listed(Ok(vec![
        ModifierProperties { modifier: 1, plane_count: 2, tiling_features: FEATURE_TRANSFER_SRC },
        ModifierProperties { modifier: 2, plane_count: 1, tiling_features: FEATURE_TRANSFER_SRC },
    ]))
    .unwrap();
    assert!(matches!(n.question(), Question::Import { modifier: 2, .. }));
    let memory = code(vk::Result::ERROR_OUT_OF_HOST_MEMORY);
    assert!(matches!(
        n.answered(Err(memory)),
        Err(VkBridgeError::Vk(raw)) if raw == memory
    ));
    assert!(bridge.negotiated(n).is_none());
    assert!(matches!(
        bridge.source_modifiers(1, 8, 8, Some(37)),
        Ok(ModifierQuery::Negotiate(_))
    ));
}

#[test]
fn native_exchange_follows_the_feature_bits() {
    for (features, import, export) in [
        (None, false, false),
        (Some(0), false, false),
        (Some(EXPORTABLE), false, true),
        (Some(IMPORTABLE), true, false),
    ] {
        let support = Bridge::new(features).sync_fd();
        assert_eq!((support.import, support.export), (import, export));
    }
}
