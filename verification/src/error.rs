//! Driver result codes and the errors of the transfer engine.

use vstd::prelude::*;

verus! {

/// `VK_ERROR_DEVICE_LOST`.
pub const ERROR_DEVICE_LOST: i32 = -4;

/// `VK_ERROR_FORMAT_NOT_SUPPORTED`.
pub const ERROR_FORMAT_NOT_SUPPORTED: i32 = -11;

/// A result code of the Vulkan driver.
#[derive(Clone, Copy, Debug, PartialEq, Eq, Structural)]
pub struct VkResult {
    pub raw: i32,
}

/// The code of a lost device.
pub open spec fn lost() -> VkResult {
    VkResult { raw: ERROR_DEVICE_LOST }
}

impl VkResult {
    /// The code of a lost device.
    pub fn device_lost() -> (result: VkResult)
        ensures
            result == lost(),
    {
        VkResult { raw: ERROR_DEVICE_LOST }
    }

    /// Whether the code reports a lost device.
    pub fn is_device_lost(self) -> (is_lost: bool)
        ensures
            is_lost == (self == lost()),
    {
        self.raw == ERROR_DEVICE_LOST
    }
}

/// A wait ended without the fence having been reached; it has to be repeated.
#[derive(Clone, Copy, Debug, PartialEq, Eq, Structural)]
pub struct Interrupted;

/// Failure to initialize or submit a transfer. No successful submission is hidden by an error.
/// Device loss can leave work submitted and invalidates allocation contents: it is never
/// evidence that buffers may be reused. Potentially submitted ownership is retired or retained.
#[derive(Debug)]
pub enum VkBridgeError {
    /// Loader, capability or device selection failure.
    Setup(String),
    /// Vulkan rejected an operation.
    Vk(VkResult),
    /// Unsupported or inconsistent buffer descriptors or damage.
    Unsupported(&'static str),
    /// An input fence could not be waited.
    Wait(Interrupted),
    /// Duplicating a dma-buf failed.
    Io(std::io::Error),
    /// Bound outstanding work instead of accumulating unbounded retained allocations.
    Busy,
}

/// What an error says.
pub enum ErrorView {
    Setup(Seq<char>),
    Vk(VkResult),
    Unsupported(Seq<char>),
    Wait,
    Io(std::io::Error),
    Busy,
}

impl View for VkBridgeError {
    type V = ErrorView;

    open spec fn view(&self) -> ErrorView {
        match *self {
            VkBridgeError::Setup(text) => ErrorView::Setup(text@),
            VkBridgeError::Vk(result) => ErrorView::Vk(result),
            VkBridgeError::Unsupported(reason) => ErrorView::Unsupported(reason@),
            VkBridgeError::Wait(_) => ErrorView::Wait,
            VkBridgeError::Io(err) => ErrorView::Io(err),
            VkBridgeError::Busy => ErrorView::Busy,
        }
    }
}

/// A result with what its error says.
pub open spec fn result_view<T>(result: Result<T, VkBridgeError>) -> Result<T, ErrorView> {
    match result {
        Ok(value) => Ok(value),
        Err(err) => Err(err@),
    }
}

impl VkBridgeError {
    /// Device loss invalidates imported memory contents, not just the transfer route.
    pub fn is_device_lost(&self) -> (is_lost: bool)
        ensures
            is_lost == (self@ == ErrorView::Vk(lost())),
    {
        match self {
            VkBridgeError::Vk(result) => result.is_device_lost(),
            _ => false,
        }
    }
}

/// Failure to create or query a Vulkan instance.
#[derive(Debug)]
pub enum InstanceError {
    /// Vulkan rejected an operation.
    Vk(VkResult),
    /// Any other failure, as its message reads.
    Other(String),
}

impl From<InstanceError> for VkBridgeError {
    fn from(err: InstanceError) -> (converted: Self) {
        match err {
            // Preserve raw Vulkan errors, including the device-loss classification.
            InstanceError::Vk(result) => VkBridgeError::Vk(result),
            InstanceError::Other(message) => VkBridgeError::Setup(message),
        }
    }
}

impl vstd::std_specs::convert::FromSpecImpl<InstanceError> for VkBridgeError {
    open spec fn obeys_from_spec() -> bool {
        true
    }

    open spec fn from_spec(err: InstanceError) -> Self {
        match err {
            InstanceError::Vk(result) => VkBridgeError::Vk(result),
            InstanceError::Other(message) => VkBridgeError::Setup(message),
        }
    }
}

impl From<VkResult> for VkBridgeError {
    fn from(result: VkResult) -> (converted: Self) {
        VkBridgeError::Vk(result)
    }
}

impl vstd::std_specs::convert::FromSpecImpl<VkResult> for VkBridgeError {
    open spec fn obeys_from_spec() -> bool {
        true
    }

    open spec fn from_spec(result: VkResult) -> Self {
        VkBridgeError::Vk(result)
    }
}

impl From<Interrupted> for VkBridgeError {
    fn from(interrupted: Interrupted) -> (converted: Self) {
        VkBridgeError::Wait(interrupted)
    }
}

impl vstd::std_specs::convert::FromSpecImpl<Interrupted> for VkBridgeError {
    open spec fn obeys_from_spec() -> bool {
        true
    }

    open spec fn from_spec(interrupted: Interrupted) -> Self {
        VkBridgeError::Wait(interrupted)
    }
}

impl From<std::io::Error> for VkBridgeError {
    fn from(err: std::io::Error) -> (converted: Self) {
        VkBridgeError::Io(err)
    }
}

impl vstd::std_specs::convert::FromSpecImpl<std::io::Error> for VkBridgeError {
    open spec fn obeys_from_spec() -> bool {
        true
    }

    open spec fn from_spec(err: std::io::Error) -> Self {
        VkBridgeError::Io(err)
    }
}

/// A lost device has the code -4, in whatever error it comes; errors keep what they were made of.
pub proof fn errors_keep_their_cause(
    result: VkResult,
    message: String,
    interrupted: Interrupted,
    err: std::io::Error,
)
    ensures
        result == lost() <==> result.raw == -4,
        <VkBridgeError as vstd::std_specs::convert::FromSpec<VkResult>>::from_spec(result)@
            == ErrorView::Vk(result),
        <VkBridgeError as vstd::std_specs::convert::FromSpec<InstanceError>>::from_spec(
            InstanceError::Vk(result),
        )@ == ErrorView::Vk(result),
        <VkBridgeError as vstd::std_specs::convert::FromSpec<InstanceError>>::from_spec(
            InstanceError::Other(message),
        )@ == ErrorView::Setup(message@),
        <VkBridgeError as vstd::std_specs::convert::FromSpec<Interrupted>>::from_spec(
            interrupted,
        )@ == ErrorView::Wait,
        <VkBridgeError as vstd::std_specs::convert::FromSpec<std::io::Error>>::from_spec(err)@
            == ErrorView::Io(err),
{
}

} // verus!
