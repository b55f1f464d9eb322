//! Initialization on a render node.

use ash::vk;
use multigpu::bridge::VkBridge;
use multigpu::device::{DeviceExtension, PhysicalDevice, QueueFamily, Version};
use multigpu::error::{InstanceError, VkBridgeError, VkResult};
use multigpu::setup::{Setup, SetupEvent, SetupPhase};

const REQUIRED: [DeviceExtension; 5] = [
    DeviceExtension::PhysicalDeviceDrm,
    DeviceExtension::ImageDrmFormatModifier,
    DeviceExtension::ExternalMemoryDmaBuf,
    DeviceExtension::QueueFamilyForeign,
    DeviceExtension::ExternalMemoryFd,
];

fn version(major: u32, minor: u32) -> Version {
    Version { variant: 0, major, minor, patch: 0 }
}

fn device(node: u64, semaphores: bool) -> PhysicalDevice {
    let mut extensions = REQUIRED.to_vec();
    extensions.reverse();
    if semaphores {
        extensions.push(DeviceExtension::ExternalSemaphoreFd);
    }
    PhysicalDevice { version: version(1, 3), extensions, render_node: Some(node) }
}

fn setup_message(result: Result<(), VkBridgeError>) -> String {
    match result {
        Err(VkBridgeError::Setup(text)) => text,
        other => panic!("unexpected {:?}", other),
    }
}

fn enumerating() -> Setup {
    let mut setup = Setup::new(129);
    assert_eq!(setup.phase, SetupPhase::CreateInstance);
    setup.step(SetupEvent::InstanceCreated(Ok(version(1, 2)))).unwrap();
    assert_eq!(setup.phase, SetupPhase::EnumerateDevices);
    setup
}

#[test]
fn the_matching_render_node_is_initialized() {
    let mut setup = enumerating();
    let mut old = device(129, true);
    old.version = version(1, 1);
    let mut partial = device(129, true);
    partial.extensions.remove(0);
    let mut hidden = device(129, true);
    hidden.render_node = None;
    let devices = vec![device(128, true), old, partial, hidden, device(129, true)];
    setup.step(SetupEvent::DevicesEnumerated(Ok(devices))).unwrap();
    assert_eq!(setup.phase, SetupPhase::ListFamilies { device: 4 });
    assert_eq!(setup.extensions[..5], REQUIRED);
    assert_eq!(setup.extensions[5..], [DeviceExtension::ExternalSemaphoreFd]);
    let families = vec![
        QueueFamily { queue_count: 1, flags: vk::QueueFlags::TRANSFER.as_raw() },
        QueueFamily { queue_count: 0, flags: vk::QueueFlags::GRAPHICS.as_raw() },
        QueueFamily {
            queue_count: 1,
            flags: (vk::QueueFlags::GRAPHICS | vk::QueueFlags::COMPUTE).as_raw(),
        },
    ];
    setup.step(SetupEvent::FamiliesListed(families)).unwrap();
    assert_eq!(setup.phase, SetupPhase::QuerySemaphore { device: 4, family: 2 });
    assert!(setup.bridge::<(), ()>().is_none());
    let bits = vk::ExternalSemaphoreFeatureFlags::IMPORTABLE.as_raw();
    setup.step(SetupEvent::SemaphoreQueried(bits)).unwrap();
    setup.step(SetupEvent::DeviceCreated(Ok(()))).unwrap();
    assert_eq!(
        setup.phase,
        SetupPhase::Ready { device: 4, family: 2, features: Some(bits) }
    );
    let bridge: VkBridge<(), ()> = setup.bridge().unwrap();
    assert!(bridge.sync_fd().import);
    assert!(!bridge.sync_fd().export);
    assert_eq!(bridge.pending_len(), 0);
    assert!(!bridge.device_lost());
}

#[test]
fn devices_without_native_semaphores_skip_their_query() {
    let mut setup = enumerating();
    setup
        .step(SetupEvent::DevicesEnumerated(Ok(vec![device(129, false)])))
        .unwrap();
    assert_eq!(setup.extensions, REQUIRED);
    let graphics = QueueFamily { queue_count: 1, flags: vk::QueueFlags::GRAPHICS.as_raw() };
    setup.step(SetupEvent::FamiliesListed(vec![graphics])).unwrap();
    assert_eq!(
        setup.phase,
        SetupPhase::CreateDevice { device: 0, family: 0, features: None }
    );
    let lost = VkResult { raw: vk::Result::ERROR_DEVICE_LOST.as_raw() };
    let result = setup.step(SetupEvent::DeviceCreated(Err(lost)));
    assert!(matches!(result, Err(err) if err.is_device_lost()));
    assert_eq!(setup.phase, SetupPhase::Failed);
    setup.step(SetupEvent::DeviceCreated(Ok(()))).unwrap();
    assert_eq!(setup.phase, SetupPhase::Failed);
}

#[test]
fn unusable_systems_are_named() {
    let mut setup = Setup::new(129);
    let old = setup.step(SetupEvent::InstanceCreated(Ok(version(1, 1))));
    assert_eq!(
        setup_message(old),
        "Vulkan transfer requires instance version 1.2"
    );

    let mut setup = Setup::new(129);
    let missing = InstanceError::Other("no loader".to_string());
    let missing = setup.step(SetupEvent::InstanceCreated(Err(missing)));
    assert_eq!(setup_message(missing), "no loader");

    let none = "no matching Vulkan 1.2 render node with explicit dma-buf/foreign ownership support";
    let mut setup = enumerating();
    let other = setup.step(SetupEvent::DevicesEnumerated(Ok(vec![device(128, true)])));
    assert_eq!(setup_message(other), none);

    let mut setup = enumerating();
    let memory = VkResult { raw: vk::Result::ERROR_OUT_OF_HOST_MEMORY.as_raw() };
    let failed = setup.step(SetupEvent::DevicesEnumerated(Err(InstanceError::Vk(memory))));
    assert!(matches!(failed, Err(VkBridgeError::Vk(raw)) if raw == memory));

    let mut setup = enumerating();
    setup
        .step(SetupEvent::DevicesEnumerated(Ok(vec![device(129, true)])))
        .unwrap();
    let queues = setup.step(SetupEvent::FamiliesListed(vec![]));
    assert_eq!(setup_message(queues), "no graphics transfer queue");
}
