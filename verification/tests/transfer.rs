//! Transfer storage, direct damage and rejections.

use multigpu::damage::direct_damage;
use multigpu::error::{Interrupted, VkBridgeError, VkResult};
use multigpu::geometry::{Point, Rectangle, Size};
use multigpu::transfer::{
    cache_direct_rejection, wait, EngineAction, Negotiated, Received, Role, Staging,
    TransferState,
};
use std::sync::Arc;

// Most separate copies that the CPU route makes before it copies a whole frame.
const MAX_CPU_COPIES: usize = 3;

type State = TransferState<&'static str, Fence, (), &'static str>;

#[derive(Debug)]
struct Fence {
    name: &'static str,
    interrupt: bool,
}

impl Fence {
    fn wait(&mut self, calls: &mut Vec<&'static str>) -> Result<(), Interrupted> {
        calls.push(self.name);
        if std::mem::replace(&mut self.interrupt, false) {
            Err(Interrupted)
        } else {
            Ok(())
        }
    }
}

fn wait_for(state: &mut State, role: Role, calls: &mut Vec<&'static str>) {
    let fence = match role {
        Role::Source => state.source_release.as_mut(),
        Role::Destination => state.destination_release.as_mut(),
    };
    let outcome = fence.unwrap().wait(calls);
    state.waited(role, outcome);
}

fn retire(state: &mut State, calls: &mut Vec<&'static str>) {
    while let Some(role) = state.retire_buffers() {
        wait_for(state, role, calls);
    }
}

#[test]
fn retirement_waits_both_roles_and_retries_interruption() {
    let mut calls = Vec::new();
    let mut state = State::default();
    state.source_release = Some(Fence { name: "source", interrupt: true });
    state.destination_release = Some(Fence { name: "target", interrupt: false });
    retire(&mut state, &mut calls);
    assert_eq!(calls, ["source", "source", "target"]);
    assert!(state.source_release.is_none());
    assert!(state.destination_release.is_none());
    retire(&mut state, &mut calls);
    assert_eq!(calls.len(), 3);
}

fn rect(x: i32, y: i32, w: i32, h: i32) -> Rectangle {
    Rectangle::new(Point { x, y }, Size { w, h })
}

fn assert_exact_damage(damage: &[Rectangle], size: Size) -> Vec<Rectangle> {
    let regions = direct_damage(&damage.to_vec(), size);
    let contains = |rect: &Rectangle, x: i32, y: i32| {
        rect.size.w > 0
            && rect.size.h > 0
            && x >= rect.loc.x
            && x < rect.loc.x + rect.size.w
            && y >= rect.loc.y
            && y < rect.loc.y + rect.size.h
    };
    let mut expected_pixels = 0;
    for y in 0..size.h {
        for x in 0..size.w {
            let expected = damage.iter().any(|rect| contains(rect, x, y));
            let copies = regions.iter().filter(|rect| contains(rect, x, y)).count();
            assert_eq!(
                copies,
                usize::from(expected),
                "incorrect direct damage at ({x}, {y})"
            );
            expected_pixels += usize::from(expected);
        }
    }
    let mut copied_pixels = 0;
    for rect in &regions {
        assert!(rect.size.w > 0 && rect.size.h > 0);
        assert!(rect.loc.x >= 0 && rect.loc.y >= 0);
        assert!(rect.loc.x + rect.size.w <= size.w);
        assert!(rect.loc.y + rect.size.h <= size.h);
        copied_pixels += (rect.size.w * rect.size.h) as usize;
    }
    assert_eq!(copied_pixels, expected_pixels);
    regions
}

#[test]
fn direct_damage_preserves_l_shaped_union_without_bounding_box() {
    let damage = [rect(1, 1, 6, 2), rect(1, 1, 2, 6)];
    let regions = assert_exact_damage(&damage, Size { w: 9, h: 9 });
    assert!(regions.len() > 1);
}

#[test]
fn direct_damage_clips_disjoint_regions_and_discards_empty_regions() {
    let mut malformed = rect(4, 3, 0, 0);
    malformed.size.w = -1;
    malformed.size.h = 2;
    let damage = [
        rect(-2, -1, 4, 3),
        rect(5, 5, 7, 6),
        rect(12, 3, 2, 2),
        rect(3, 3, 0, 4),
        malformed,
    ];
    let regions = assert_exact_damage(&damage, Size { w: 8, h: 8 });
    assert_eq!(regions.len(), 2);
    assert!(direct_damage(&vec![], Size { w: 8, h: 8 }).is_empty());
}

#[test]
fn direct_damage_never_uses_cpu_full_frame_shortcut() {
    let count = MAX_CPU_COPIES + 2;
    let damage = (0..count)
        .map(|i| rect(i as i32 * 2 + 1, 2, 1, 1))
        .collect::<Vec<_>>();
    let regions = assert_exact_damage(&damage, Size { w: count as i32 * 2 + 2, h: 6 });
    assert_eq!(regions.len(), count);
}

#[test]
fn direct_damage_deduplicates_overlapping_writes() {
    let rect = rect(1, 1, 3, 3);
    let regions = assert_exact_damage(&[rect, rect], Size { w: 6, h: 6 });
    assert_eq!(regions, [rect]);
}

#[test]
fn tidy_damage_is_copied_as_it_is() {
    let damage = vec![rect(4, 4, 2, 2), rect(0, 0, 4, 4), rect(4, 0, 3, 4)];
    assert_eq!(direct_damage(&damage, Size { w: 8, h: 8 }), damage);
}

#[test]
fn direct_damage_is_exact_for_overlaps_beyond_the_target() {
    let damage = [
        rect(-3, 2, 20, 3),
        rect(2, -5, 3, 30),
        rect(0, 0, 4, 4),
        rect(i32::MAX - 1, 0, 5, 5),
    ];
    assert_exact_damage(&damage[..3], Size { w: 10, h: 11 });
    assert_eq!(
        direct_damage(&damage.to_vec(), Size { w: 10, h: 11 }),
        direct_damage(&damage[..3].to_vec(), Size { w: 10, h: 11 })
    );
}

#[test]
fn direct_rejection_cache_only_remembers_descriptor_capabilities() {
    assert!(cache_direct_rejection(&VkBridgeError::Unsupported(
        "unknown FourCC"
    )));
    assert!(cache_direct_rejection(&VkBridgeError::Unsupported(
        "image is not importable"
    )));
    assert!(!cache_direct_rejection(&VkBridgeError::Unsupported(
        "empty or out-of-bounds damage"
    )));
    assert!(!cache_direct_rejection(&VkBridgeError::Busy));
    assert!(!cache_direct_rejection(&VkBridgeError::Wait(Interrupted)));
    assert!(!cache_direct_rejection(&VkBridgeError::Io(
        std::io::Error::other("temporary fd failure")
    )));
    assert!(!cache_direct_rejection(&VkBridgeError::Setup(
        "setup failure".into()
    )));
    for error in [
        ash::vk::Result::ERROR_OUT_OF_HOST_MEMORY,
        ash::vk::Result::ERROR_OUT_OF_DEVICE_MEMORY,
        ash::vk::Result::ERROR_TOO_MANY_OBJECTS,
        ash::vk::Result::ERROR_FORMAT_NOT_SUPPORTED,
        ash::vk::Result::ERROR_DEVICE_LOST,
    ] {
        assert!(!cache_direct_rejection(&VkBridgeError::Vk(VkResult {
            raw: error.as_raw()
        })));
    }
}

fn identity(generation: &Arc<()>) -> u64 {
    Arc::as_ptr(generation) as usize as u64
}

#[test]
fn invalidation_preserves_direct_policy_and_source_generation() {
    let generation = Arc::new(());
    let mut state = State::default();
    assert!(!state.direct_target_enabled);
    state.direct_target_enabled = true;
    state.source_generation = Some(identity(&generation));
    assert_eq!(state.invalidate(), None);
    assert!(state.direct_target_enabled);
    assert!(state.matches_generation(identity(&generation)));
}

#[test]
fn source_generation_uses_identity_not_node_or_value() {
    let generation = Arc::new(());
    let mut state = State::default();
    assert!(!state.matches_generation(identity(&generation)));
    state.source_generation = Some(identity(&generation));
    assert!(state.matches_generation(identity(&generation.clone())));
    assert!(!state.matches_generation(identity(&Arc::new(()))));
}

#[test]
fn invalidation_waits_and_forgets_everything_else() {
    let mut calls = Vec::new();
    let mut state = State::default();
    state.spawned(Some(()));
    state.received(Received::Engine("engine"));
    state.device_lost = true;
    state.reject_direct_target(4);
    state.destination = Some("destination");
    state.destination_release = Some(Fence { name: "target", interrupt: true });
    while let Some(role) = state.invalidate() {
        assert_eq!(role, Role::Destination);
        assert_eq!(state.destination, Some("destination"));
        wait_for(&mut state, role, &mut calls);
    }
    assert_eq!(calls, ["target", "target"]);
    assert_eq!(state.engine_action(), EngineAction::Spawn);
    assert!(!state.device_lost);
    assert!(state.rejected_direct_targets.is_empty());
    assert!(state.destination.is_none());
}

#[test]
fn rejections_are_kept_by_identity_until_gone_or_replaced() {
    let mut state = State::default();
    assert!(!state.direct_target_rejected(4, &vec![]));
    state.reject_direct_target(4);
    state.reject_direct_target(5);
    state.reject_direct_target(4);
    assert_eq!(state.rejected_direct_targets, [4, 5]);
    assert!(state.direct_target_rejected(4, &vec![]));
    assert!(!state.direct_target_rejected(6, &vec![]));
    assert!(!state.direct_target_rejected(4, &vec![4]));
    assert_eq!(state.rejected_direct_targets, [5]);
    assert!(state.direct_target_rejected(5, &vec![4]));
    assert!(state.set_source(Staging { id: 1, buffer: "staging" }).is_ok());
    assert!(!state.direct_target_rejected(5, &vec![]));
}

#[test]
fn new_staging_retires_the_old_storage_once() {
    let mut calls = Vec::new();
    let mut state = State::default();
    assert!(state.source.is_none());
    assert!(state.set_source(Staging { id: 1, buffer: "first" }).is_ok());
    state.destination = Some("destination");
    state.source_release = Some(Fence { name: "source", interrupt: false });
    // The same allocation again: nothing to retire.
    assert!(!state.replaces_source(1));
    assert!(state.set_source(Staging { id: 1, buffer: "first" }).is_ok());
    assert_eq!(state.destination, Some("destination"));
    assert!(state.replaces_source(2));
    let mut staging = Staging { id: 2, buffer: "second" };
    while let Err((role, refused)) = state.set_source(staging) {
        assert_eq!(state.source.as_ref().unwrap().id, 1);
        wait_for(&mut state, role, &mut calls);
        staging = refused;
    }
    assert_eq!(calls, ["source"]);
    assert_eq!(state.source.as_ref().unwrap().buffer, "second");
    assert!(state.destination.is_none());
}

#[test]
fn the_engine_is_initialized_lazily_and_once() {
    let mut state = State::default();
    assert_eq!(state.engine_action(), EngineAction::Spawn);
    assert!(state.engine().is_none());
    state.received(Received::Engine("early"));
    assert_eq!(state.engine_action(), EngineAction::Spawn);
    state.spawned(Some(()));
    assert_eq!(state.engine_action(), EngineAction::Receive);
    assert!(state.receiver().is_some());
    state.received(Received::Empty);
    assert_eq!(state.engine_action(), EngineAction::Receive);
    assert!(state.engine().is_none());
    state.received(Received::Engine("engine"));
    assert_eq!(state.engine_action(), EngineAction::Use);
    *state.engine().unwrap() = "used";
    assert_eq!(*state.engine().unwrap(), "used");

    for failure in [Received::Error, Received::Disconnected] {
        let mut state = State::default();
        state.spawned(Some(()));
        state.received(failure);
        assert_eq!(state.engine_action(), EngineAction::Unavailable);
        state.spawned(Some(()));
        state.received(Received::Engine("late"));
        assert_eq!(state.engine_action(), EngineAction::Unavailable);
        assert!(state.engine().is_none());
    }
    let mut state = State::default();
    state.spawned(None);
    assert_eq!(state.engine_action(), EngineAction::Unavailable);
}

#[test]
fn unusable_negotiations_disable_the_route() {
    let mut state = State::default();
    assert!(matches!(
        state.source_modifiers(Ok(vec![3, 5])),
        Negotiated::Use(list) if list == [3, 5]
    ));
    assert!(matches!(state.source_modifiers(Ok(vec![])), Negotiated::Disable));
    assert!(!state.device_lost);
    assert!(matches!(
        state.source_modifiers(Err(VkBridgeError::Busy)),
        Negotiated::Disable
    ));
    assert!(!state.device_lost);
    let lost = VkBridgeError::Vk(VkResult::device_lost());
    assert!(matches!(state.source_modifiers(Err(lost)), Negotiated::Disable));
    assert!(state.device_lost);
    state.destination_release = Some(Fence { name: "target", interrupt: false });
    assert_eq!(state.disable(), Some(Role::Destination));
    assert_eq!(state.engine_action(), EngineAction::Spawn);
    state.waited(Role::Destination, Err(Interrupted));
    assert_eq!(state.disable(), Some(Role::Destination));
    state.waited(Role::Destination, Ok(()));
    assert_eq!(state.disable(), None);
    assert_eq!(state.engine_action(), EngineAction::Unavailable);
    assert!(state.device_lost);
}

#[test]
fn interruption_means_retry() {
    assert!(wait(Err(Interrupted)));
    assert!(!wait(Ok(())));
}
