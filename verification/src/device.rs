//! Selection of the physical device and queue that run transfers.

use crate::error::{ErrorView, VkBridgeError};
use crate::modifiers::contains_bits;
use crate::outside::{queue_flags_contain, semaphore_features_contain};
use vstd::prelude::*;

verus! {

/// `VK_QUEUE_GRAPHICS_BIT`.
pub const QUEUE_GRAPHICS: u32 = 0x1;

/// `VK_EXTERNAL_SEMAPHORE_FEATURE_EXPORTABLE_BIT`.
pub const SEMAPHORE_EXPORTABLE: u32 = 0x1;

/// `VK_EXTERNAL_SEMAPHORE_FEATURE_IMPORTABLE_BIT`.
pub const SEMAPHORE_IMPORTABLE: u32 = 0x2;

/// A Vulkan API version.
#[derive(Clone, Copy, Debug, PartialEq, Eq, Structural)]
pub struct Version {
    pub variant: u32,
    pub major: u32,
    pub minor: u32,
    pub patch: u32,
}

/// Device extensions that transfers need or can use.
#[derive(Clone, Copy, Debug, PartialEq, Eq, Structural)]
pub enum DeviceExtension {
    /// `VK_EXT_physical_device_drm`
    PhysicalDeviceDrm,
    /// `VK_EXT_image_drm_format_modifier`
    ImageDrmFormatModifier,
    /// `VK_EXT_external_memory_dma_buf`
    ExternalMemoryDmaBuf,
    /// `VK_EXT_queue_family_foreign`
    QueueFamilyForeign,
    /// `VK_KHR_external_memory_fd`
    ExternalMemoryFd,
    /// `VK_KHR_external_semaphore_fd`
    ExternalSemaphoreFd,
}

/// What selection reads of a physical device.
#[derive(Debug)]
pub struct PhysicalDevice {
    pub version: Version,
    /// Supported extensions.
    pub extensions: Vec<DeviceExtension>,
    /// Device number of the DRM render node, if the driver reports one.
    pub render_node: Option<u64>,
}

/// What selection reads of a queue family.
#[derive(Clone, Copy, Debug, PartialEq, Eq, Structural)]
pub struct QueueFamily {
    pub queue_count: u32,
    /// Queue capability bits.
    pub flags: u32,
}

/// Native fence exchange that the device supports.
#[derive(Clone, Copy, Debug, PartialEq, Eq, Structural)]
pub struct SyncFdSupport {
    pub import: bool,
    pub export: bool,
}

/// Version 1.2 or later: extension dependencies rely on features promoted to core 1.2.
pub open spec fn at_least_1_2(version: Version) -> bool {
    ||| version.variant > 0
    ||| version.major > 1
    ||| version.major == 1 && version.minor >= 2
}

/// Extensions that every transfer needs.
pub open spec fn required_extensions() -> Seq<DeviceExtension> {
    seq![
        DeviceExtension::PhysicalDeviceDrm,
        DeviceExtension::ImageDrmFormatModifier,
        DeviceExtension::ExternalMemoryDmaBuf,
        DeviceExtension::QueueFamilyForeign,
        DeviceExtension::ExternalMemoryFd,
    ]
}

/// Extensions to enable on a device.
pub open spec fn extensions_for(semaphore_fd: bool) -> Seq<DeviceExtension> {
    if semaphore_fd {
        required_extensions().push(DeviceExtension::ExternalSemaphoreFd)
    } else {
        required_extensions()
    }
}

impl PhysicalDevice {
    /// A recent enough device on exactly this render node, with every required extension. There is
    /// no primary-node or vendor fallback: the bridge must use the render GPU.
    pub open spec fn suits(self, node: u64) -> bool {
        &&& at_least_1_2(self.version)
        &&& forall|i: int|
            0 <= i < required_extensions().len() ==> self.extensions@.contains(
                #[trigger] required_extensions()[i],
            )
        &&& self.render_node == Some(node)
    }

    /// Whether the device supports an extension.
    pub fn has_device_extension(&self, extension: DeviceExtension) -> (supported: bool)
        ensures
            supported == self.extensions@.contains(extension),
    {
        let mut i: usize = 0;
        while i < self.extensions.len()
            invariant
                i <= self.extensions@.len(),
                forall|j: int| 0 <= j < i ==> self.extensions@[j] != extension,
            decreases self.extensions@.len() - i,
        {
            if self.extensions[i] == extension {
                return true;
            }
            i += 1;
        }
        false
    }
}

fn is_at_least_1_2(version: Version) -> (recent: bool)
    ensures
        recent == at_least_1_2(version),
{
    version.variant > 0 || version.major > 1 || (version.major == 1 && version.minor >= 2)
}

fn all_required() -> (list: Vec<DeviceExtension>)
    ensures
        list@ == required_extensions(),
{
    let list = vec![
        DeviceExtension::PhysicalDeviceDrm,
        DeviceExtension::ImageDrmFormatModifier,
        DeviceExtension::ExternalMemoryDmaBuf,
        DeviceExtension::QueueFamilyForeign,
        DeviceExtension::ExternalMemoryFd,
    ];
    assert(list@ =~= required_extensions());
    list
}

fn device_suits(device: &PhysicalDevice, node: u64) -> (suitable: bool)
    ensures
        suitable == device.suits(node),
{
    if !is_at_least_1_2(device.version) {
        return false;
    }
    let required = all_required();
    let mut i: usize = 0;
    while i < required.len()
        invariant
            i <= required@.len(),
            required@ == required_extensions(),
            forall|j: int|
                0 <= j < i ==> device.extensions@.contains(#[trigger] required_extensions()[j]),
        decreases required@.len() - i,
    {
        if !device.has_device_extension(required[i]) {
            assert(!device.extensions@.contains(required_extensions()[i as int]));
            return false;
        }
        i += 1;
    }
    match device.render_node {
        Some(found) => found == node,
        None => false,
    }
}

/// Checks the negotiated instance version, which may be lower than what was asked for.
pub fn check_instance_version(version: Version) -> (checked: Result<(), VkBridgeError>)
    ensures
        at_least_1_2(version) ==> checked is Ok,
        !at_least_1_2(version) ==> (checked matches Err(err) && err@ == ErrorView::Setup(
            "Vulkan transfer requires instance version 1.2"@,
        )),
{
    if is_at_least_1_2(version) {
        Ok(())
    } else {
        Err(
            VkBridgeError::Setup("Vulkan transfer requires instance version 1.2".to_string()),
        )
    }
}

/// Index of the first device that suits the render node.
pub fn select_device(devices: &Vec<PhysicalDevice>, node: u64) -> (selected: Result<
    usize,
    VkBridgeError,
>)
    ensures
        match selected {
            Ok(i) => {
                &&& i < devices@.len()
                &&& devices@[i as int].suits(node)
                &&& forall|j: int| 0 <= j < i ==> !(#[trigger] devices@[j]).suits(node)
            },
            Err(err) => {
                &&& err@ == ErrorView::Setup(
                    "no matching Vulkan 1.2 render node with explicit dma-buf/foreign ownership support"@,
                )
                &&& forall|j: int| 0 <= j < devices@.len() ==> !(#[trigger] devices@[j]).suits(node)
            },
        },
{
    let mut i: usize = 0;
    while i < devices.len()
        invariant
            i <= devices@.len(),
            forall|j: int| 0 <= j < i ==> !(#[trigger] devices@[j]).suits(node),
        decreases devices@.len() - i,
    {
        if device_suits(&devices[i], node) {
            return Ok(i);
        }
        i += 1;
    }
    Err(
        VkBridgeError::Setup(
            "no matching Vulkan 1.2 render node with explicit dma-buf/foreign ownership support".to_string(),
        ),
    )
}

/// A family with queues that can run graphics. Graphics queues have unrestricted image-transfer
/// granularity; dedicated transfer queues may require whole mip levels or aligned regions.
pub open spec fn runs_transfers(family: QueueFamily) -> bool {
    family.queue_count > 0 && contains_bits(family.flags, QUEUE_GRAPHICS)
}

/// Index of the first queue family that can run transfers.
pub fn select_queue_family(families: &Vec<QueueFamily>) -> (selected: Result<u32, VkBridgeError>)
    requires
        families@.len() <= u32::MAX,
    ensures
        match selected {
            Ok(i) => {
                &&& i < families@.len()
                &&& runs_transfers(families@[i as int])
                &&& forall|j: int| 0 <= j < i ==> !runs_transfers(#[trigger] families@[j])
            },
            Err(err) => {
                &&& err@ == ErrorView::Setup("no graphics transfer queue"@)
                &&& forall|j: int|
                    0 <= j < families@.len() ==> !runs_transfers(#[trigger] families@[j])
            },
        },
{
    let mut i: usize = 0;
    while i < families.len()
        invariant
            i <= families@.len(),
            families@.len() <= u32::MAX,
            forall|j: int| 0 <= j < i ==> !runs_transfers(#[trigger] families@[j]),
        decreases families@.len() - i,
    {
        if families[i].queue_count > 0 && queue_flags_contain(families[i].flags, QUEUE_GRAPHICS) {
            return Ok(i as u32);
        }
        i += 1;
    }
    Err(VkBridgeError::Setup("no graphics transfer queue".to_string()))
}

/// Extensions to enable on the selected device: the required ones, and native semaphores if the
/// device has them.
pub fn enabled_extensions(device: &PhysicalDevice) -> (list: Vec<DeviceExtension>)
    ensures
        list@ == extensions_for(device.extensions@.contains(DeviceExtension::ExternalSemaphoreFd)),
{
    let mut list = all_required();
    if device.has_device_extension(DeviceExtension::ExternalSemaphoreFd) {
        list.push(DeviceExtension::ExternalSemaphoreFd);
    }
    list
}

/// Native fence exchange, from the SYNC_FD semaphore feature bits of the device; `None` if it lacks
/// the extension.
pub fn sync_fd_support(features: Option<u32>) -> (support: SyncFdSupport)
    ensures
        support.import == (features matches Some(bits) && contains_bits(
            bits,
            SEMAPHORE_IMPORTABLE,
        )),
        support.export == (features matches Some(bits) && contains_bits(
            bits,
            SEMAPHORE_EXPORTABLE,
        )),
{
    match features {
        Some(bits) => SyncFdSupport {
            import: semaphore_features_contain(bits, SEMAPHORE_IMPORTABLE),
            export: semaphore_features_contain(bits, SEMAPHORE_EXPORTABLE),
        },
        None => SyncFdSupport { import: false, export: false },
    }
}

/// Versions from 1.2 on are accepted, and no earlier one; the patch number makes no difference.
pub proof fn versions_before_1_2_are_rejected(version: Version, patch: u32)
    ensures
        !at_least_1_2(version) <==> version.variant == 0 && (version.major == 0 || (version.major
            == 1 && (version.minor == 0 || version.minor == 1))),
        at_least_1_2(Version { patch, ..version }) == at_least_1_2(version),
{
}

/// A suitable device has version 1.2, reports exactly the requested render node, and has all five
/// extensions: there is no fallback.
pub proof fn suitable_devices_have_everything(device: PhysicalDevice, node: u64)
    ensures
        device.suits(node) <==> {
            &&& at_least_1_2(device.version)
            &&& device.extensions@.contains(DeviceExtension::PhysicalDeviceDrm)
            &&& device.extensions@.contains(DeviceExtension::ImageDrmFormatModifier)
            &&& device.extensions@.contains(DeviceExtension::ExternalMemoryDmaBuf)
            &&& device.extensions@.contains(DeviceExtension::QueueFamilyForeign)
            &&& device.extensions@.contains(DeviceExtension::ExternalMemoryFd)
            &&& device.render_node == Some(node)
        },
{
    let required = required_extensions();
    if device.suits(node) {
        assert(device.extensions@.contains(required[0]));
        assert(device.extensions@.contains(required[1]));
        assert(device.extensions@.contains(required[2]));
        assert(device.extensions@.contains(required[3]));
        assert(device.extensions@.contains(required[4]));
    }
}

/// All five required extensions are enabled, and native semaphores behind them exactly if the
/// device has them; nothing else is.
pub proof fn supported_extensions_are_enabled(semaphore_fd: bool, extension: DeviceExtension)
    ensures
        extensions_for(semaphore_fd).contains(extension) <==> extension
            != DeviceExtension::ExternalSemaphoreFd || semaphore_fd,
        extensions_for(semaphore_fd).len() == if semaphore_fd {
            6int
        } else {
            5
        },
        semaphore_fd ==> extensions_for(semaphore_fd).last()
            == DeviceExtension::ExternalSemaphoreFd,
{
    let list = extensions_for(semaphore_fd);
    match extension {
        DeviceExtension::PhysicalDeviceDrm => {
            assert(list[0] == extension);
        },
        DeviceExtension::ImageDrmFormatModifier => {
            assert(list[1] == extension);
        },
        DeviceExtension::ExternalMemoryDmaBuf => {
            assert(list[2] == extension);
        },
        DeviceExtension::QueueFamilyForeign => {
            assert(list[3] == extension);
        },
        DeviceExtension::ExternalMemoryFd => {
            assert(list[4] == extension);
        },
        DeviceExtension::ExternalSemaphoreFd => {
            if semaphore_fd {
                assert(list[5] == extension);
            }
        },
    }
}

/// Transfers run on a family that has a queue and the graphics bit. Fences are imported and
/// exported exactly if the device has the respective bit.
pub proof fn capability_bits_are_required(family: QueueFamily, features: u32)
    ensures
        runs_transfers(family) <==> family.queue_count >= 1 && family.flags & 1 == 1,
        contains_bits(features, SEMAPHORE_EXPORTABLE) <==> features & 1 == 1,
        contains_bits(features, SEMAPHORE_IMPORTABLE) <==> features & 2 == 2,
{
}

} // verus!
