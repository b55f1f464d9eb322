//! Initialization of the engine on exactly one render node.
//!
//! Loader and driver calls belong to the caller, off its event-loop thread. A setup says which call
//! is next, takes its answer as an event and decides how to go on.

use crate::bridge::{BridgeView, VkBridge};
use crate::device::{
    at_least_1_2, check_instance_version, enabled_extensions, extensions_for, runs_transfers,
    select_device, select_queue_family, DeviceExtension, PhysicalDevice, QueueFamily, SyncFdSupport,
    Version, SEMAPHORE_EXPORTABLE, SEMAPHORE_IMPORTABLE,
};
use crate::error::{result_view, ErrorView, InstanceError, VkBridgeError, VkResult};
use crate::modifiers::contains_bits;
use vstd::prelude::*;

verus! {

/// Where initialization stands, which is also the call to make next.
#[derive(Clone, Copy, Debug, PartialEq, Eq, Structural)]
pub enum SetupPhase {
    /// Create an instance of at most version 1.2.
    CreateInstance,
    /// Enumerate the physical devices.
    EnumerateDevices,
    /// List the queue families of the selected device.
    ListFamilies { device: usize },
    /// Query SYNC_FD semaphore features of the selected device.
    QuerySemaphore { device: usize, family: u32 },
    /// Create the logical device, with one queue of the family.
    CreateDevice { device: usize, family: u32, features: Option<u32> },
    /// Everything is there.
    Ready { device: usize, family: u32, features: Option<u32> },
    /// Initialization failed.
    Failed,
}

/// The answer to a call.
#[derive(Debug)]
pub enum SetupEvent {
    /// The version that was negotiated.
    InstanceCreated(Result<Version, InstanceError>),
    DevicesEnumerated(Result<Vec<PhysicalDevice>, InstanceError>),
    FamiliesListed(Vec<QueueFamily>),
    /// Semaphore feature bits.
    SemaphoreQueried(u32),
    DeviceCreated(Result<(), VkResult>),
}

/// An initialization in progress.
#[derive(Debug)]
pub struct Setup {
    /// Device number of the render node.
    pub node: u64,
    pub phase: SetupPhase,
    /// Whether the selected device has native semaphores.
    pub semaphore_fd: bool,
    /// Extensions to enable on the selected device.
    pub extensions: Vec<DeviceExtension>,
}

/// What an initialization has found.
#[verifier::ext_equal]
pub struct SetupView {
    pub node: u64,
    pub phase: SetupPhase,
    pub semaphore_fd: bool,
    pub extensions: Seq<DeviceExtension>,
}

impl View for Setup {
    type V = SetupView;

    open spec fn view(&self) -> SetupView {
        SetupView {
            node: self.node,
            phase: self.phase,
            semaphore_fd: self.semaphore_fd,
            extensions: self.extensions@,
        }
    }
}

/// Index, from `from` on, of the first device that suits a node; the number of devices if none.
pub open spec fn suiting_device(devices: Seq<PhysicalDevice>, node: u64, from: int) -> int
    decreases devices.len() - from,
{
    if from >= devices.len() {
        devices.len() as int
    } else if devices[from].suits(node) {
        from
    } else {
        suiting_device(devices, node, from + 1)
    }
}

/// Index, from `from` on, of the first family that runs transfers; the number of families if none.
pub open spec fn transfer_family(families: Seq<QueueFamily>, from: int) -> int
    decreases families.len() - from,
{
    if from >= families.len() {
        families.len() as int
    } else if runs_transfers(families[from]) {
        from
    } else {
        transfer_family(families, from + 1)
    }
}

proof fn lemma_suiting_device(devices: Seq<PhysicalDevice>, node: u64, from: int, i: int)
    requires
        0 <= from <= i <= devices.len(),
        i < devices.len() ==> devices[i].suits(node),
        forall|j: int| from <= j < i ==> !(#[trigger] devices[j]).suits(node),
    ensures
        suiting_device(devices, node, from) == i,
    decreases i - from,
{
    if from < i {
        lemma_suiting_device(devices, node, from + 1, i);
    }
}

proof fn lemma_transfer_family(families: Seq<QueueFamily>, from: int, i: int)
    requires
        0 <= from <= i <= families.len(),
        i < families.len() ==> runs_transfers(families[i]),
        forall|j: int| from <= j < i ==> !runs_transfers(#[trigger] families[j]),
    ensures
        transfer_family(families, from) == i,
    decreases i - from,
{
    if from < i {
        lemma_transfer_family(families, from + 1, i);
    }
}

impl SetupView {
    /// Another phase.
    pub open spec fn at(self, phase: SetupPhase) -> (SetupView, Result<(), ErrorView>) {
        (SetupView { phase, ..self }, Ok(()))
    }

    /// Initialization failed.
    pub open spec fn failed(self, err: ErrorView) -> (SetupView, Result<(), ErrorView>) {
        (SetupView { phase: SetupPhase::Failed, ..self }, Err(err))
    }

    /// The state after an event, and what the step returns. An event that does not answer the
    /// current call changes nothing.
    pub open spec fn stepped(self, event: SetupEvent) -> (SetupView, Result<(), ErrorView>) {
        match (self.phase, event) {
            (SetupPhase::CreateInstance, SetupEvent::InstanceCreated(Err(err))) => self.failed(
                instance_error(err),
            ),
            (SetupPhase::CreateInstance, SetupEvent::InstanceCreated(Ok(version))) => if
            at_least_1_2(version) {
                self.at(SetupPhase::EnumerateDevices)
            } else {
                self.failed(ErrorView::Setup("Vulkan transfer requires instance version 1.2"@))
            },
            (SetupPhase::EnumerateDevices, SetupEvent::DevicesEnumerated(Err(err))) => self.failed(
                instance_error(err),
            ),
            (SetupPhase::EnumerateDevices, SetupEvent::DevicesEnumerated(Ok(devices))) => {
                let i = suiting_device(devices@, self.node, 0);
                if i < devices@.len() {
                    let semaphore_fd = devices@[i].extensions@.contains(
                        DeviceExtension::ExternalSemaphoreFd,
                    );
                    SetupView {
                        semaphore_fd,
                        extensions: extensions_for(semaphore_fd),
                        ..self
                    }.at(SetupPhase::ListFamilies { device: i as usize })
                } else {
                    self.failed(
                        ErrorView::Setup(
                            "no matching Vulkan 1.2 render node with explicit dma-buf/foreign ownership support"@,
                        ),
                    )
                }
            },
            (SetupPhase::ListFamilies { device }, SetupEvent::FamiliesListed(families)) => {
                let i = transfer_family(families@, 0);
                if i >= families@.len() {
                    self.failed(ErrorView::Setup("no graphics transfer queue"@))
                } else if self.semaphore_fd {
                    self.at(SetupPhase::QuerySemaphore { device, family: i as u32 })
                } else {
                    self.at(
                        SetupPhase::CreateDevice { device, family: i as u32, features: None },
                    )
                }
            },
            (
                SetupPhase::QuerySemaphore { device, family },
                SetupEvent::SemaphoreQueried(bits),
            ) => self.at(SetupPhase::CreateDevice { device, family, features: Some(bits) }),
            (
                SetupPhase::CreateDevice { device, family, features },
                SetupEvent::DeviceCreated(Err(err)),
            ) => self.failed(ErrorView::Vk(err)),
            (
                SetupPhase::CreateDevice { device, family, features },
                SetupEvent::DeviceCreated(Ok(_)),
            ) => self.at(SetupPhase::Ready { device, family, features }),
            _ => (self, Ok(())),
        }
    }
}

/// What an instance error is reported as: raw driver errors keep their classification.
pub open spec fn instance_error(err: InstanceError) -> ErrorView {
    match err {
        InstanceError::Vk(result) => ErrorView::Vk(result),
        InstanceError::Other(message) => ErrorView::Setup(message@),
    }
}

impl Setup {
    /// Begins initialization on a render node.
    pub fn new(node: u64) -> (setup: Setup)
        ensures
            setup@ == (SetupView {
                node,
                phase: SetupPhase::CreateInstance,
                semaphore_fd: false,
                extensions: seq![],
            }),
    {
        let setup = Setup {
            node,
            phase: SetupPhase::CreateInstance,
            semaphore_fd: false,
            extensions: Vec::new(),
        };
        assert(setup@.extensions =~= seq![]);
        setup
    }

    fn fail(&mut self, err: VkBridgeError) -> (result: Result<(), VkBridgeError>)
        ensures
            (final(self)@, result_view(result)) == old(self)@.failed(err@),
    {
        self.phase = SetupPhase::Failed;
        Err(err)
    }

    fn enumerated(&mut self, devices: &Vec<PhysicalDevice>) -> (result: Result<(), VkBridgeError>)
        requires
            old(self).phase == SetupPhase::EnumerateDevices,
        ensures
            (final(self)@, result_view(result)) == old(self)@.stepped(
                SetupEvent::DevicesEnumerated(Ok(*devices)),
            ),
    {
        match select_device(devices, self.node) {
            Err(err) => {
                proof {
                    lemma_suiting_device(devices@, self.node, 0, devices@.len() as int);
                }
                self.fail(err)
            },
            Ok(i) => {
                proof {
                    lemma_suiting_device(devices@, self.node, 0, i as int);
                }
                let device = &devices[i];
                self.semaphore_fd = device.has_device_extension(
                    DeviceExtension::ExternalSemaphoreFd,
                );
                self.extensions = enabled_extensions(device);
                self.phase = SetupPhase::ListFamilies { device: i };
                Ok(())
            },
        }
    }

    fn listed(&mut self, device: usize, families: &Vec<QueueFamily>) -> (result: Result<
        (),
        VkBridgeError,
    >)
        requires
            old(self).phase == (SetupPhase::ListFamilies { device }),
            families@.len() <= u32::MAX,
        ensures
            (final(self)@, result_view(result)) == old(self)@.stepped(
                SetupEvent::FamiliesListed(*families),
            ),
    {
        match select_queue_family(families) {
            Err(err) => {
                proof {
                    lemma_transfer_family(families@, 0, families@.len() as int);
                }
                self.fail(err)
            },
            Ok(family) => {
                proof {
                    lemma_transfer_family(families@, 0, family as int);
                }
                self.phase = if self.semaphore_fd {
                    SetupPhase::QuerySemaphore { device, family }
                } else {
                    SetupPhase::CreateDevice { device, family, features: None }
                };
                Ok(())
            },
        }
    }

    /// Takes the answer to the current call and decides how initialization goes on. A driver has
    /// at most `u32::MAX` queue families.
    pub fn step(&mut self, event: SetupEvent) -> (result: Result<(), VkBridgeError>)
        requires
            event matches SetupEvent::FamiliesListed(families) ==> families@.len() <= u32::MAX,
        ensures
            (final(self)@, result_view(result)) == old(self)@.stepped(event),
    {
        match self.phase {
            SetupPhase::CreateInstance => match event {
                SetupEvent::InstanceCreated(Err(err)) => self.fail(VkBridgeError::from(err)),
                SetupEvent::InstanceCreated(Ok(version)) => match check_instance_version(version) {
                    Err(err) => self.fail(err),
                    Ok(()) => {
                        self.phase = SetupPhase::EnumerateDevices;
                        Ok(())
                    },
                },
                _ => Ok(()),
            },
            SetupPhase::EnumerateDevices => match event {
                SetupEvent::DevicesEnumerated(Err(err)) => self.fail(VkBridgeError::from(err)),
                SetupEvent::DevicesEnumerated(Ok(devices)) => self.enumerated(&devices),
                _ => Ok(()),
            },
            SetupPhase::ListFamilies { device } => match event {
                SetupEvent::FamiliesListed(families) => self.listed(device, &families),
                _ => Ok(()),
            },
            SetupPhase::QuerySemaphore { device, family } => match event {
                SetupEvent::SemaphoreQueried(bits) => {
                    self.phase = SetupPhase::CreateDevice { device, family, features: Some(bits) };
                    Ok(())
                },
                _ => Ok(()),
            },
            SetupPhase::CreateDevice { device, family, features } => match event {
                SetupEvent::DeviceCreated(Err(err)) => self.fail(VkBridgeError::Vk(err)),
                SetupEvent::DeviceCreated(Ok(())) => {
                    self.phase = SetupPhase::Ready { device, family, features };
                    Ok(())
                },
                _ => Ok(()),
            },
            _ => Ok(()),
        }
    }

    /// The engine on an initialized device; `None` before.
    pub fn bridge<H, P>(&self) -> (bridge: Option<VkBridge<H, P>>)
        ensures
            match self.phase {
                SetupPhase::Ready { features, .. } => {
                    &&& bridge matches Some(engine)
                    &&& engine@.wf()
                    &&& engine@ == (BridgeView::<H, P> {
                        sync_fd: SyncFdSupport {
                            import: features matches Some(bits) && contains_bits(
                                bits,
                                SEMAPHORE_IMPORTABLE,
                            ),
                            export: features matches Some(bits) && contains_bits(
                                bits,
                                SEMAPHORE_EXPORTABLE,
                            ),
                        },
                        device_lost: false,
                        imports: seq![],
                        pending: seq![],
                        idle: seq![],
                        queries: seq![],
                    })
                },
                _ => bridge is None,
            },
    {
        match self.phase {
            SetupPhase::Ready { features, .. } => Some(VkBridge::new(features)),
            _ => None,
        }
    }
}

/// A selected device is the first that suits the requested render node, whatever comes before and
/// after it: there is no fallback to another node.
pub proof fn only_the_requested_node_is_used(devices: Seq<PhysicalDevice>, node: u64)
    ensures
        ({
            let i = suiting_device(devices, node, 0);
            &&& 0 <= i <= devices.len()
            &&& i < devices.len() ==> devices[i].suits(node) && devices[i].render_node == Some(
                node,
            )
            &&& i == devices.len() ==> forall|j: int|
                0 <= j < devices.len() ==> !(#[trigger] devices[j]).suits(node)
            &&& forall|j: int| 0 <= j < i ==> !(#[trigger] devices[j]).suits(node)
        }),
{
    lemma_scan(devices, node, 0);
}

proof fn lemma_scan(devices: Seq<PhysicalDevice>, node: u64, from: int)
    requires
        0 <= from <= devices.len(),
    ensures
        ({
            let i = suiting_device(devices, node, from);
            &&& from <= i <= devices.len()
            &&& i < devices.len() ==> devices[i].suits(node)
            &&& forall|j: int| from <= j < i ==> !(#[trigger] devices[j]).suits(node)
        }),
    decreases devices.len() - from,
{
    if from < devices.len() && !devices[from].suits(node) {
        lemma_scan(devices, node, from + 1);
    }
}

proof fn lemma_scan_families(families: Seq<QueueFamily>, from: int)
    requires
        0 <= from <= families.len(),
    ensures
        ({
            let i = transfer_family(families, from);
            &&& from <= i <= families.len()
            &&& i < families.len() ==> runs_transfers(families[i])
            &&& forall|j: int| from <= j < i ==> !runs_transfers(#[trigger] families[j])
        }),
    decreases families.len() - from,
{
    if from < families.len() && !runs_transfers(families[from]) {
        lemma_scan_families(families, from + 1);
    }
}

/// Whether a step ended initialization with `err` and changed nothing else.
pub open spec fn ends_with(
    before: SetupView,
    step: (SetupView, Result<(), ErrorView>),
    err: ErrorView,
) -> bool {
    &&& step.1 == Err::<(), ErrorView>(err)
    &&& step.0.phase == SetupPhase::Failed
    &&& step.0.node == before.node
    &&& step.0.semaphore_fd == before.semaphore_fd
    &&& step.0.extensions == before.extensions
}

/// Whether a step went on with `phase` and changed nothing else.
pub open spec fn goes_on(
    before: SetupView,
    step: (SetupView, Result<(), ErrorView>),
    phase: SetupPhase,
) -> bool {
    &&& step.1 is Ok
    &&& step.0.phase == phase
    &&& step.0.node == before.node
    &&& step.0.semaphore_fd == before.semaphore_fd
    &&& step.0.extensions == before.extensions
}

/// An instance of version 1.2 is needed, and then devices are enumerated. Errors are passed on,
/// driver errors with their code.
pub proof fn instances_are_of_version_1_2(s: SetupView, reply: Result<Version, InstanceError>)
    requires
        s.phase == SetupPhase::CreateInstance,
    ensures
        ({
            let step = s.stepped(SetupEvent::InstanceCreated(reply));
            match reply {
                Err(InstanceError::Vk(result)) => ends_with(s, step, ErrorView::Vk(result)),
                Err(InstanceError::Other(text)) => ends_with(s, step, ErrorView::Setup(text@)),
                Ok(v) => if v.variant == 0 && (v.major == 0 || (v.major == 1 && v.minor < 2)) {
                    ends_with(
                        s,
                        step,
                        ErrorView::Setup("Vulkan transfer requires instance version 1.2"@),
                    )
                } else {
                    goes_on(s, step, SetupPhase::EnumerateDevices)
                },
            }
        }),
{
}

/// The first device that suits the node is selected, with the extensions to enable; without one
/// initialization fails.
pub proof fn first_suitable_devices_are_selected(
    s: SetupView,
    reply: Result<Vec<PhysicalDevice>, InstanceError>,
    i: int,
)
    requires
        s.phase == SetupPhase::EnumerateDevices,
    ensures
        ({
            let step = s.stepped(SetupEvent::DevicesEnumerated(reply));
            match reply {
                Err(InstanceError::Vk(result)) => ends_with(s, step, ErrorView::Vk(result)),
                Err(InstanceError::Other(text)) => ends_with(s, step, ErrorView::Setup(text@)),
                Ok(devices) => {
                    &&& (forall|j: int|
                        0 <= j < devices@.len() ==> !(#[trigger] devices@[j]).suits(s.node))
                        ==> ends_with(
                        s,
                        step,
                        ErrorView::Setup(
                            "no matching Vulkan 1.2 render node with explicit dma-buf/foreign ownership support"@,
                        ),
                    )
                    &&& 0 <= i < devices@.len() && devices@[i].suits(s.node) && (forall|j: int|
                        0 <= j < i ==> !(#[trigger] devices@[j]).suits(s.node)) ==> {
                        let native = devices@[i].extensions@.contains(
                            DeviceExtension::ExternalSemaphoreFd,
                        );
                        &&& step.1 is Ok
                        &&& step.0.phase == SetupPhase::ListFamilies { device: i as usize }
                        &&& step.0.node == s.node
                        &&& step.0.semaphore_fd == native
                        &&& step.0.extensions == extensions_for(native)
                    }
                },
            }
        }),
{
    if let Ok(devices) = reply {
        lemma_scan(devices@, s.node, 0);
        if 0 <= i < devices@.len() && devices@[i].suits(s.node) && (forall|j: int|
            0 <= j < i ==> !(#[trigger] devices@[j]).suits(s.node)) {
            lemma_suiting_device(devices@, s.node, 0, i);
        }
    }
}

/// The first family that runs transfers is used; without one initialization fails. Semaphore
/// features are queried only on a device with native semaphores.
pub proof fn first_transfer_families_are_used(
    s: SetupView,
    device: usize,
    families: Vec<QueueFamily>,
    i: int,
)
    requires
        s.phase == (SetupPhase::ListFamilies { device }),
        families@.len() <= u32::MAX,
    ensures
        ({
            let step = s.stepped(SetupEvent::FamiliesListed(families));
            &&& (forall|j: int|
                0 <= j < families@.len() ==> !runs_transfers(#[trigger] families@[j]))
                ==> ends_with(s, step, ErrorView::Setup("no graphics transfer queue"@))
            &&& 0 <= i < families@.len() && runs_transfers(families@[i]) && (forall|j: int|
                0 <= j < i ==> !runs_transfers(#[trigger] families@[j])) ==> {
                let family = i as u32;
                &&& s.semaphore_fd ==> goes_on(
                    s,
                    step,
                    SetupPhase::QuerySemaphore { device, family },
                )
                &&& !s.semaphore_fd ==> goes_on(
                    s,
                    step,
                    SetupPhase::CreateDevice { device, family, features: None },
                )
            }
        }),
{
    lemma_scan_families(families@, 0);
    if 0 <= i < families@.len() && runs_transfers(families@[i]) && (forall|j: int|
        0 <= j < i ==> !runs_transfers(#[trigger] families@[j])) {
        lemma_transfer_family(families@, 0, i);
    }
}

/// The selected device, its family and the features that were queried are kept to the end. A
/// device that cannot be created ends initialization with the driver's error.
pub proof fn selections_are_kept(
    s: SetupView,
    device: usize,
    family: u32,
    features: Option<u32>,
    bits: u32,
    reply: Result<(), VkResult>,
)
    ensures
        s.phase == (SetupPhase::QuerySemaphore { device, family }) ==> goes_on(
            s,
            s.stepped(SetupEvent::SemaphoreQueried(bits)),
            SetupPhase::CreateDevice { device, family, features: Some(bits) },
        ),
        s.phase == (SetupPhase::CreateDevice { device, family, features }) ==> match reply {
            Ok(_) => goes_on(
                s,
                s.stepped(SetupEvent::DeviceCreated(reply)),
                SetupPhase::Ready { device, family, features },
            ),
            Err(err) => ends_with(
                s,
                s.stepped(SetupEvent::DeviceCreated(reply)),
                ErrorView::Vk(err),
            ),
        },
{
}

/// An answer to another call than the current one changes nothing, and neither does any answer at
/// the end.
pub proof fn other_answers_are_ignored(s: SetupView, event: SetupEvent)
    requires
        match s.phase {
            SetupPhase::CreateInstance => !(event is InstanceCreated),
            SetupPhase::EnumerateDevices => !(event is DevicesEnumerated),
            SetupPhase::ListFamilies { .. } => !(event is FamiliesListed),
            SetupPhase::QuerySemaphore { .. } => !(event is SemaphoreQueried),
            SetupPhase::CreateDevice { .. } => !(event is DeviceCreated),
            _ => true,
        },
    ensures
        goes_on(s, s.stepped(event), s.phase),
{
}

} // verus!
