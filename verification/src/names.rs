//! Names of the timing stages and event counters a stream records.

use vstd::prelude::*;

verus! {

/// Number of timing stages.
pub const STAGES: usize = 50;

/// Number of event counters.
pub const COUNTERS: usize = 34;

/// Host timing boundaries (nested entries overlap).
#[derive(Debug, Clone, Copy, PartialEq, Eq, Structural)]
pub enum Stage {
    NiriFrame,
    NiriPrepare,
    NiriElements,
    NiriRender,
    NiriSyncWait,
    NiriQueue,
    FrameInterval,
    RenderLead,
    QueueLead,
    QueueLate,
    PresentLateness,
    PresentEarliness,
    PresentationInterval,
    PresentCallbackDelay,
    QueueToPresentation,
    SourceReuseWait,
    TargetAcquire,
    TargetPublish,
    VulkanCopy,
    VulkanRetire,
    SourceImport,
    TargetImport,
    VulkanInputSetup,
    CpuInputFenceWait,
    VulkanRecord,
    VulkanSubmit,
    VulkanExport,
    ResourcesDestroy,
    VulkanFenceWait,
    GlesWait,
    CpuGlesWait,
    VulkanValidation,
    VulkanResources,
    ImportedDestroy,
    DeviceDestroy,
    BatchDestroy,
    TransferRetire,
    TransferWait,
    GlesFinish,
    TargetTextureImport,
    NiriRedraw,
    NiriCallbacks,
    NiriScreenCast,
    VulkanSignalSetup,
    QueueReturnLead,
    QueueReturnLate,
    NiriSceneUpdate,
    NiriVblank,
    NiriPresentRetire,
    VulkanPoolReset,
}

impl Stage {
    /// Place in the stable declaration order.
    pub open spec fn position(self) -> nat {
        match self {
            Stage::NiriFrame => 0,
            Stage::NiriPrepare => 1,
            Stage::NiriElements => 2,
            Stage::NiriRender => 3,
            Stage::NiriSyncWait => 4,
            Stage::NiriQueue => 5,
            Stage::FrameInterval => 6,
            Stage::RenderLead => 7,
            Stage::QueueLead => 8,
            Stage::QueueLate => 9,
            Stage::PresentLateness => 10,
            Stage::PresentEarliness => 11,
            Stage::PresentationInterval => 12,
            Stage::PresentCallbackDelay => 13,
            Stage::QueueToPresentation => 14,
            Stage::SourceReuseWait => 15,
            Stage::TargetAcquire => 16,
            Stage::TargetPublish => 17,
            Stage::VulkanCopy => 18,
            Stage::VulkanRetire => 19,
            Stage::SourceImport => 20,
            Stage::TargetImport => 21,
            Stage::VulkanInputSetup => 22,
            Stage::CpuInputFenceWait => 23,
            Stage::VulkanRecord => 24,
            Stage::VulkanSubmit => 25,
            Stage::VulkanExport => 26,
            Stage::ResourcesDestroy => 27,
            Stage::VulkanFenceWait => 28,
            Stage::GlesWait => 29,
            Stage::CpuGlesWait => 30,
            Stage::VulkanValidation => 31,
            Stage::VulkanResources => 32,
            Stage::ImportedDestroy => 33,
            Stage::DeviceDestroy => 34,
            Stage::BatchDestroy => 35,
            Stage::TransferRetire => 36,
            Stage::TransferWait => 37,
            Stage::GlesFinish => 38,
            Stage::TargetTextureImport => 39,
            Stage::NiriRedraw => 40,
            Stage::NiriCallbacks => 41,
            Stage::NiriScreenCast => 42,
            Stage::VulkanSignalSetup => 43,
            Stage::QueueReturnLead => 44,
            Stage::QueueReturnLate => 45,
            Stage::NiriSceneUpdate => 46,
            Stage::NiriVblank => 47,
            Stage::NiriPresentRetire => 48,
            Stage::VulkanPoolReset => 49,
        }
    }

    /// Stable serialization name.
    pub open spec fn name(self) -> Seq<char> {
        match self {
            Stage::NiriFrame => "NiriFrame"@,
            Stage::NiriPrepare => "NiriPrepare"@,
            Stage::NiriElements => "NiriElements"@,
            Stage::NiriRender => "NiriRender"@,
            Stage::NiriSyncWait => "NiriSyncWait"@,
            Stage::NiriQueue => "NiriQueue"@,
            Stage::FrameInterval => "FrameInterval"@,
            Stage::RenderLead => "RenderLead"@,
            Stage::QueueLead => "QueueLead"@,
            Stage::QueueLate => "QueueLate"@,
            Stage::PresentLateness => "PresentLateness"@,
            Stage::PresentEarliness => "PresentEarliness"@,
            Stage::PresentationInterval => "PresentationInterval"@,
            Stage::PresentCallbackDelay => "PresentCallbackDelay"@,
            Stage::QueueToPresentation => "QueueToPresentation"@,
            Stage::SourceReuseWait => "SourceReuseWait"@,
            Stage::TargetAcquire => "TargetAcquire"@,
            Stage::TargetPublish => "TargetPublish"@,
            Stage::VulkanCopy => "VulkanCopy"@,
            Stage::VulkanRetire => "VulkanRetire"@,
            Stage::SourceImport => "SourceImport"@,
            Stage::TargetImport => "TargetImport"@,
            Stage::VulkanInputSetup => "VulkanInputSetup"@,
            Stage::CpuInputFenceWait => "CpuInputFenceWait"@,
            Stage::VulkanRecord => "VulkanRecord"@,
            Stage::VulkanSubmit => "VulkanSubmit"@,
            Stage::VulkanExport => "VulkanExport"@,
            Stage::ResourcesDestroy => "ResourcesDestroy"@,
            Stage::VulkanFenceWait => "VulkanFenceWait"@,
            Stage::GlesWait => "GlesWait"@,
            Stage::CpuGlesWait => "CpuGlesWait"@,
            Stage::VulkanValidation => "VulkanValidation"@,
            Stage::VulkanResources => "VulkanResources"@,
            Stage::ImportedDestroy => "ImportedDestroy"@,
            Stage::DeviceDestroy => "DeviceDestroy"@,
            Stage::BatchDestroy => "BatchDestroy"@,
            Stage::TransferRetire => "TransferRetire"@,
            Stage::TransferWait => "TransferWait"@,
            Stage::GlesFinish => "GlesFinish"@,
            Stage::TargetTextureImport => "TargetTextureImport"@,
            Stage::NiriRedraw => "NiriRedraw"@,
            Stage::NiriCallbacks => "NiriCallbacks"@,
            Stage::NiriScreenCast => "NiriScreenCast"@,
            Stage::VulkanSignalSetup => "VulkanSignalSetup"@,
            Stage::QueueReturnLead => "QueueReturnLead"@,
            Stage::QueueReturnLate => "QueueReturnLate"@,
            Stage::NiriSceneUpdate => "NiriSceneUpdate"@,
            Stage::NiriVblank => "NiriVblank"@,
            Stage::NiriPresentRetire => "NiriPresentRetire"@,
            Stage::VulkanPoolReset => "VulkanPoolReset"@,
        }
    }

    /// Entry at a place of the declaration order; past the end, the last entry.
    pub open spec fn nth(place: int) -> Self {
        if place == 0 {
            Stage::NiriFrame
        } else if place == 1 {
            Stage::NiriPrepare
        } else if place == 2 {
            Stage::NiriElements
        } else if place == 3 {
            Stage::NiriRender
        } else if place == 4 {
            Stage::NiriSyncWait
        } else if place == 5 {
            Stage::NiriQueue
        } else if place == 6 {
            Stage::FrameInterval
        } else if place == 7 {
            Stage::RenderLead
        } else if place == 8 {
            Stage::QueueLead
        } else if place == 9 {
            Stage::QueueLate
        } else if place == 10 {
            Stage::PresentLateness
        } else if place == 11 {
            Stage::PresentEarliness
        } else if place == 12 {
            Stage::PresentationInterval
        } else if place == 13 {
            Stage::PresentCallbackDelay
        } else if place == 14 {
            Stage::QueueToPresentation
        } else if place == 15 {
            Stage::SourceReuseWait
        } else if place == 16 {
            Stage::TargetAcquire
        } else if place == 17 {
            Stage::TargetPublish
        } else if place == 18 {
            Stage::VulkanCopy
        } else if place == 19 {
            Stage::VulkanRetire
        } else if place == 20 {
            Stage::SourceImport
        } else if place == 21 {
            Stage::TargetImport
        } else if place == 22 {
            Stage::VulkanInputSetup
        } else if place == 23 {
            Stage::CpuInputFenceWait
        } else if place == 24 {
            Stage::VulkanRecord
        } else if place == 25 {
            Stage::VulkanSubmit
        } else if place == 26 {
            Stage::VulkanExport
        } else if place == 27 {
            Stage::ResourcesDestroy
        } else if place == 28 {
            Stage::VulkanFenceWait
        } else if place == 29 {
            Stage::GlesWait
        } else if place == 30 {
            Stage::CpuGlesWait
        } else if place == 31 {
            Stage::VulkanValidation
        } else if place == 32 {
            Stage::VulkanResources
        } else if place == 33 {
            Stage::ImportedDestroy
        } else if place == 34 {
            Stage::DeviceDestroy
        } else if place == 35 {
            Stage::BatchDestroy
        } else if place == 36 {
            Stage::TransferRetire
        } else if place == 37 {
            Stage::TransferWait
        } else if place == 38 {
            Stage::GlesFinish
        } else if place == 39 {
            Stage::TargetTextureImport
        } else if place == 40 {
            Stage::NiriRedraw
        } else if place == 41 {
            Stage::NiriCallbacks
        } else if place == 42 {
            Stage::NiriScreenCast
        } else if place == 43 {
            Stage::VulkanSignalSetup
        } else if place == 44 {
            Stage::QueueReturnLead
        } else if place == 45 {
            Stage::QueueReturnLate
        } else if place == 46 {
            Stage::NiriSceneUpdate
        } else if place == 47 {
            Stage::NiriVblank
        } else if place == 48 {
            Stage::NiriPresentRetire
        } else {
            Stage::VulkanPoolReset
        }
    }

    /// Array index of this entry.
    pub fn index(self) -> (index: usize)
        ensures
            index == self.position(),
            self == Stage::nth(index as int),
            index < STAGES,
    {
        match self {
            Stage::NiriFrame => 0,
            Stage::NiriPrepare => 1,
            Stage::NiriElements => 2,
            Stage::NiriRender => 3,
            Stage::NiriSyncWait => 4,
            Stage::NiriQueue => 5,
            Stage::FrameInterval => 6,
            Stage::RenderLead => 7,
            Stage::QueueLead => 8,
            Stage::QueueLate => 9,
            Stage::PresentLateness => 10,
            Stage::PresentEarliness => 11,
            Stage::PresentationInterval => 12,
            Stage::PresentCallbackDelay => 13,
            Stage::QueueToPresentation => 14,
            Stage::SourceReuseWait => 15,
            Stage::TargetAcquire => 16,
            Stage::TargetPublish => 17,
            Stage::VulkanCopy => 18,
            Stage::VulkanRetire => 19,
            Stage::SourceImport => 20,
            Stage::TargetImport => 21,
            Stage::VulkanInputSetup => 22,
            Stage::CpuInputFenceWait => 23,
            Stage::VulkanRecord => 24,
            Stage::VulkanSubmit => 25,
            Stage::VulkanExport => 26,
            Stage::ResourcesDestroy => 27,
            Stage::VulkanFenceWait => 28,
            Stage::GlesWait => 29,
            Stage::CpuGlesWait => 30,
            Stage::VulkanValidation => 31,
            Stage::VulkanResources => 32,
            Stage::ImportedDestroy => 33,
            Stage::DeviceDestroy => 34,
            Stage::BatchDestroy => 35,
            Stage::TransferRetire => 36,
            Stage::TransferWait => 37,
            Stage::GlesFinish => 38,
            Stage::TargetTextureImport => 39,
            Stage::NiriRedraw => 40,
            Stage::NiriCallbacks => 41,
            Stage::NiriScreenCast => 42,
            Stage::VulkanSignalSetup => 43,
            Stage::QueueReturnLead => 44,
            Stage::QueueReturnLate => 45,
            Stage::NiriSceneUpdate => 46,
            Stage::NiriVblank => 47,
            Stage::NiriPresentRetire => 48,
            Stage::VulkanPoolReset => 49,
        }
    }

    /// Entry at an array index.
    pub fn at(index: usize) -> (entry: Stage)
        requires
            index < STAGES,
        ensures
            entry == Stage::nth(index as int),
            entry.position() == index,
    {
        match index {
            0 => Stage::NiriFrame,
            1 => Stage::NiriPrepare,
            2 => Stage::NiriElements,
            3 => Stage::NiriRender,
            4 => Stage::NiriSyncWait,
            5 => Stage::NiriQueue,
            6 => Stage::FrameInterval,
            7 => Stage::RenderLead,
            8 => Stage::QueueLead,
            9 => Stage::QueueLate,
            10 => Stage::PresentLateness,
            11 => Stage::PresentEarliness,
            12 => Stage::PresentationInterval,
            13 => Stage::PresentCallbackDelay,
            14 => Stage::QueueToPresentation,
            15 => Stage::SourceReuseWait,
            16 => Stage::TargetAcquire,
            17 => Stage::TargetPublish,
            18 => Stage::VulkanCopy,
            19 => Stage::VulkanRetire,
            20 => Stage::SourceImport,
            21 => Stage::TargetImport,
            22 => Stage::VulkanInputSetup,
            23 => Stage::CpuInputFenceWait,
            24 => Stage::VulkanRecord,
            25 => Stage::VulkanSubmit,
            26 => Stage::VulkanExport,
            27 => Stage::ResourcesDestroy,
            28 => Stage::VulkanFenceWait,
            29 => Stage::GlesWait,
            30 => Stage::CpuGlesWait,
            31 => Stage::VulkanValidation,
            32 => Stage::VulkanResources,
            33 => Stage::ImportedDestroy,
            34 => Stage::DeviceDestroy,
            35 => Stage::BatchDestroy,
            36 => Stage::TransferRetire,
            37 => Stage::TransferWait,
            38 => Stage::GlesFinish,
            39 => Stage::TargetTextureImport,
            40 => Stage::NiriRedraw,
            41 => Stage::NiriCallbacks,
            42 => Stage::NiriScreenCast,
            43 => Stage::VulkanSignalSetup,
            44 => Stage::QueueReturnLead,
            45 => Stage::QueueReturnLate,
            46 => Stage::NiriSceneUpdate,
            47 => Stage::NiriVblank,
            48 => Stage::NiriPresentRetire,
            _ => Stage::VulkanPoolReset,
        }
    }

    /// All entries in stable declaration order.
    pub fn all() -> (entries: Vec<Stage>)
        ensures
            entries@.len() == STAGES,
            forall|i: int| 0 <= i < STAGES ==> (#[trigger] entries@[i]).position() == i,
    {
        let mut entries: Vec<Stage> = Vec::new();
        let mut i: usize = 0;
        while i < STAGES
            invariant
                i <= STAGES,
                entries@.len() == i,
                forall|j: int| 0 <= j < i ==> (#[trigger] entries@[j]).position() == j,
            decreases STAGES - i,
        {
            entries.push(Stage::at(i));
            i += 1;
        }
        entries
    }

    /// Stable serialization name.
    pub fn as_str(self) -> (name: &'static str)
        ensures
            name@ == self.name(),
    {
        match self {
            Stage::NiriFrame => "NiriFrame",
            Stage::NiriPrepare => "NiriPrepare",
            Stage::NiriElements => "NiriElements",
            Stage::NiriRender => "NiriRender",
            Stage::NiriSyncWait => "NiriSyncWait",
            Stage::NiriQueue => "NiriQueue",
            Stage::FrameInterval => "FrameInterval",
            Stage::RenderLead => "RenderLead",
            Stage::QueueLead => "QueueLead",
            Stage::QueueLate => "QueueLate",
            Stage::PresentLateness => "PresentLateness",
            Stage::PresentEarliness => "PresentEarliness",
            Stage::PresentationInterval => "PresentationInterval",
            Stage::PresentCallbackDelay => "PresentCallbackDelay",
            Stage::QueueToPresentation => "QueueToPresentation",
            Stage::SourceReuseWait => "SourceReuseWait",
            Stage::TargetAcquire => "TargetAcquire",
            Stage::TargetPublish => "TargetPublish",
            Stage::VulkanCopy => "VulkanCopy",
            Stage::VulkanRetire => "VulkanRetire",
            Stage::SourceImport => "SourceImport",
            Stage::TargetImport => "TargetImport",
            Stage::VulkanInputSetup => "VulkanInputSetup",
            Stage::CpuInputFenceWait => "CpuInputFenceWait",
            Stage::VulkanRecord => "VulkanRecord",
            Stage::VulkanSubmit => "VulkanSubmit",
            Stage::VulkanExport => "VulkanExport",
            Stage::ResourcesDestroy => "ResourcesDestroy",
            Stage::VulkanFenceWait => "VulkanFenceWait",
            Stage::GlesWait => "GlesWait",
            Stage::CpuGlesWait => "CpuGlesWait",
            Stage::VulkanValidation => "VulkanValidation",
            Stage::VulkanResources => "VulkanResources",
            Stage::ImportedDestroy => "ImportedDestroy",
            Stage::DeviceDestroy => "DeviceDestroy",
            Stage::BatchDestroy => "BatchDestroy",
            Stage::TransferRetire => "TransferRetire",
            Stage::TransferWait => "TransferWait",
            Stage::GlesFinish => "GlesFinish",
            Stage::TargetTextureImport => "TargetTextureImport",
            Stage::NiriRedraw => "NiriRedraw",
            Stage::NiriCallbacks => "NiriCallbacks",
            Stage::NiriScreenCast => "NiriScreenCast",
            Stage::VulkanSignalSetup => "VulkanSignalSetup",
            Stage::QueueReturnLead => "QueueReturnLead",
            Stage::QueueReturnLate => "QueueReturnLate",
            Stage::NiriSceneUpdate => "NiriSceneUpdate",
            Stage::NiriVblank => "NiriVblank",
            Stage::NiriPresentRetire => "NiriPresentRetire",
            Stage::VulkanPoolReset => "VulkanPoolReset",
        }
    }
}

/// Aggregated events, not necessarily successful frames.
#[derive(Debug, Clone, Copy, PartialEq, Eq, Structural)]
pub enum Counter {
    FrameAttempts,
    FramesSubmitted,
    FramesNoDamage,
    RenderErrors,
    QueueErrors,
    ClientScanoutFrames,
    SwapchainFrames,
    PresentEvents,
    SequenceGaps,
    PresentLate,
    QueuePastDeadline,
    UnknownClock,
    DirectCopies,
    IntermediateCopies,
    CpuCopies,
    SourceImportMisses,
    TargetImportMisses,
    NativeInputImports,
    CpuInputWaits,
    CpuGlesWaits,
    GlesFinishFallbacks,
    BatchesCreated,
    BatchesRetired,
    TextureCopies,
    StreamRegistrations,
    QueueReturnedPastDeadline,
    FuturePresentationTimestamp,
    TransitionPresentationsIgnored,
    ResourceSetsCreated,
    ResourceSetsReused,
    ResourceSetsRecycled,
    ResourceSetsDestroyed,
    ResourcePoolBusy,
    SignalSemaphoresReplaced,
}

impl Counter {
    /// Place in the stable declaration order.
    pub open spec fn position(self) -> nat {
        match self {
            Counter::FrameAttempts => 0,
            Counter::FramesSubmitted => 1,
            Counter::FramesNoDamage => 2,
            Counter::RenderErrors => 3,
            Counter::QueueErrors => 4,
            Counter::ClientScanoutFrames => 5,
            Counter::SwapchainFrames => 6,
            Counter::PresentEvents => 7,
            Counter::SequenceGaps => 8,
            Counter::PresentLate => 9,
            Counter::QueuePastDeadline => 10,
            Counter::UnknownClock => 11,
            Counter::DirectCopies => 12,
            Counter::IntermediateCopies => 13,
            Counter::CpuCopies => 14,
            Counter::SourceImportMisses => 15,
            Counter::TargetImportMisses => 16,
            Counter::NativeInputImports => 17,
            Counter::CpuInputWaits => 18,
            Counter::CpuGlesWaits => 19,
            Counter::GlesFinishFallbacks => 20,
            Counter::BatchesCreated => 21,
            Counter::BatchesRetired => 22,
            Counter::TextureCopies => 23,
            Counter::StreamRegistrations => 24,
            Counter::QueueReturnedPastDeadline => 25,
            Counter::FuturePresentationTimestamp => 26,
            Counter::TransitionPresentationsIgnored => 27,
            Counter::ResourceSetsCreated => 28,
            Counter::ResourceSetsReused => 29,
            Counter::ResourceSetsRecycled => 30,
            Counter::ResourceSetsDestroyed => 31,
            Counter::ResourcePoolBusy => 32,
            Counter::SignalSemaphoresReplaced => 33,
        }
    }

    /// Stable serialization name.
    pub open spec fn name(self) -> Seq<char> {
        match self {
            Counter::FrameAttempts => "FrameAttempts"@,
            Counter::FramesSubmitted => "FramesSubmitted"@,
            Counter::FramesNoDamage => "FramesNoDamage"@,
            Counter::RenderErrors => "RenderErrors"@,
            Counter::QueueErrors => "QueueErrors"@,
            Counter::ClientScanoutFrames => "ClientScanoutFrames"@,
            Counter::SwapchainFrames => "SwapchainFrames"@,
            Counter::PresentEvents => "PresentEvents"@,
            Counter::SequenceGaps => "SequenceGaps"@,
            Counter::PresentLate => "PresentLate"@,
            Counter::QueuePastDeadline => "QueuePastDeadline"@,
            Counter::UnknownClock => "UnknownClock"@,
            Counter::DirectCopies => "DirectCopies"@,
            Counter::IntermediateCopies => "IntermediateCopies"@,
            Counter::CpuCopies => "CpuCopies"@,
            Counter::SourceImportMisses => "SourceImportMisses"@,
            Counter::TargetImportMisses => "TargetImportMisses"@,
            Counter::NativeInputImports => "NativeInputImports"@,
            Counter::CpuInputWaits => "CpuInputWaits"@,
            Counter::CpuGlesWaits => "CpuGlesWaits"@,
            Counter::GlesFinishFallbacks => "GlesFinishFallbacks"@,
            Counter::BatchesCreated => "BatchesCreated"@,
            Counter::BatchesRetired => "BatchesRetired"@,
            Counter::TextureCopies => "TextureCopies"@,
            Counter::StreamRegistrations => "StreamRegistrations"@,
            Counter::QueueReturnedPastDeadline => "QueueReturnedPastDeadline"@,
            Counter::FuturePresentationTimestamp => "FuturePresentationTimestamp"@,
            Counter::TransitionPresentationsIgnored => "TransitionPresentationsIgnored"@,
            Counter::ResourceSetsCreated => "ResourceSetsCreated"@,
            Counter::ResourceSetsReused => "ResourceSetsReused"@,
            Counter::ResourceSetsRecycled => "ResourceSetsRecycled"@,
            Counter::ResourceSetsDestroyed => "ResourceSetsDestroyed"@,
            Counter::ResourcePoolBusy => "ResourcePoolBusy"@,
            Counter::SignalSemaphoresReplaced => "SignalSemaphoresReplaced"@,
        }
    }

    /// Entry at a place of the declaration order; past the end, the last entry.
    pub open spec fn nth(place: int) -> Self {
        if place == 0 {
            Counter::FrameAttempts
        } else if place == 1 {
            Counter::FramesSubmitted
        } else if place == 2 {
            Counter::FramesNoDamage
        } else if place == 3 {
            Counter::RenderErrors
        } else if place == 4 {
            Counter::QueueErrors
        } else if place == 5 {
            Counter::ClientScanoutFrames
        } else if place == 6 {
            Counter::SwapchainFrames
        } else if place == 7 {
            Counter::PresentEvents
        } else if place == 8 {
            Counter::SequenceGaps
        } else if place == 9 {
            Counter::PresentLate
        } else if place == 10 {
            Counter::QueuePastDeadline
        } else if place == 11 {
            Counter::UnknownClock
        } else if place == 12 {
            Counter::DirectCopies
        } else if place == 13 {
            Counter::IntermediateCopies
        } else if place == 14 {
            Counter::CpuCopies
        } else if place == 15 {
            Counter::SourceImportMisses
        } else if place == 16 {
            Counter::TargetImportMisses
        } else if place == 17 {
            Counter::NativeInputImports
        } else if place == 18 {
            Counter::CpuInputWaits
        } else if place == 19 {
            Counter::CpuGlesWaits
        } else if place == 20 {
            Counter::GlesFinishFallbacks
        } else if place == 21 {
            Counter::BatchesCreated
        } else if place == 22 {
            Counter::BatchesRetired
        } else if place == 23 {
            Counter::TextureCopies
        } else if place == 24 {
            Counter::StreamRegistrations
        } else if place == 25 {
            Counter::QueueReturnedPastDeadline
        } else if place == 26 {
            Counter::FuturePresentationTimestamp
        } else if place == 27 {
            Counter::TransitionPresentationsIgnored
        } else if place == 28 {
            Counter::ResourceSetsCreated
        } else if place == 29 {
            Counter::ResourceSetsReused
        } else if place == 30 {
            Counter::ResourceSetsRecycled
        } else if place == 31 {
            Counter::ResourceSetsDestroyed
        } else if place == 32 {
            Counter::ResourcePoolBusy
        } else {
            Counter::SignalSemaphoresReplaced
        }
    }

    /// Array index of this entry.
    pub fn index(self) -> (index: usize)
        ensures
            index == self.position(),
            self == Counter::nth(index as int),
            index < COUNTERS,
    {
        match self {
            Counter::FrameAttempts => 0,
            Counter::FramesSubmitted => 1,
            Counter::FramesNoDamage => 2,
            Counter::RenderErrors => 3,
            Counter::QueueErrors => 4,
            Counter::ClientScanoutFrames => 5,
            Counter::SwapchainFrames => 6,
            Counter::PresentEvents => 7,
            Counter::SequenceGaps => 8,
            Counter::PresentLate => 9,
            Counter::QueuePastDeadline => 10,
            Counter::UnknownClock => 11,
            Counter::DirectCopies => 12,
            Counter::IntermediateCopies => 13,
            Counter::CpuCopies => 14,
            Counter::SourceImportMisses => 15,
            Counter::TargetImportMisses => 16,
            Counter::NativeInputImports => 17,
            Counter::CpuInputWaits => 18,
            Counter::CpuGlesWaits => 19,
            Counter::GlesFinishFallbacks => 20,
            Counter::BatchesCreated => 21,
            Counter::BatchesRetired => 22,
            Counter::TextureCopies => 23,
            Counter::StreamRegistrations => 24,
            Counter::QueueReturnedPastDeadline => 25,
            Counter::FuturePresentationTimestamp => 26,
            Counter::TransitionPresentationsIgnored => 27,
            Counter::ResourceSetsCreated => 28,
            Counter::ResourceSetsReused => 29,
            Counter::ResourceSetsRecycled => 30,
            Counter::ResourceSetsDestroyed => 31,
            Counter::ResourcePoolBusy => 32,
            Counter::SignalSemaphoresReplaced => 33,
        }
    }

    /// Entry at an array index.
    pub fn at(index: usize) -> (entry: Counter)
        requires
            index < COUNTERS,
        ensures
            entry == Counter::nth(index as int),
            entry.position() == index,
    {
        match index {
            0 => Counter::FrameAttempts,
            1 => Counter::FramesSubmitted,
            2 => Counter::FramesNoDamage,
            3 => Counter::RenderErrors,
            4 => Counter::QueueErrors,
            5 => Counter::ClientScanoutFrames,
            6 => Counter::SwapchainFrames,
            7 => Counter::PresentEvents,
            8 => Counter::SequenceGaps,
            9 => Counter::PresentLate,
            10 => Counter::QueuePastDeadline,
            11 => Counter::UnknownClock,
            12 => Counter::DirectCopies,
            13 => Counter::IntermediateCopies,
            14 => Counter::CpuCopies,
            15 => Counter::SourceImportMisses,
            16 => Counter::TargetImportMisses,
            17 => Counter::NativeInputImports,
            18 => Counter::CpuInputWaits,
            19 => Counter::CpuGlesWaits,
            20 => Counter::GlesFinishFallbacks,
            21 => Counter::BatchesCreated,
            22 => Counter::BatchesRetired,
            23 => Counter::TextureCopies,
            24 => Counter::StreamRegistrations,
            25 => Counter::QueueReturnedPastDeadline,
            26 => Counter::FuturePresentationTimestamp,
            27 => Counter::TransitionPresentationsIgnored,
            28 => Counter::ResourceSetsCreated,
            29 => Counter::ResourceSetsReused,
            30 => Counter::ResourceSetsRecycled,
            31 => Counter::ResourceSetsDestroyed,
            32 => Counter::ResourcePoolBusy,
            _ => Counter::SignalSemaphoresReplaced,
        }
    }

    /// All entries in stable declaration order.
    pub fn all() -> (entries: Vec<Counter>)
        ensures
            entries@.len() == COUNTERS,
            forall|i: int| 0 <= i < COUNTERS ==> (#[trigger] entries@[i]).position() == i,
    {
        let mut entries: Vec<Counter> = Vec::new();
        let mut i: usize = 0;
        while i < COUNTERS
            invariant
                i <= COUNTERS,
                entries@.len() == i,
                forall|j: int| 0 <= j < i ==> (#[trigger] entries@[j]).position() == j,
            decreases COUNTERS - i,
        {
            entries.push(Counter::at(i));
            i += 1;
        }
        entries
    }

    /// Stable serialization name.
    pub fn as_str(self) -> (name: &'static str)
        ensures
            name@ == self.name(),
    {
        match self {
            Counter::FrameAttempts => "FrameAttempts",
            Counter::FramesSubmitted => "FramesSubmitted",
            Counter::FramesNoDamage => "FramesNoDamage",
            Counter::RenderErrors => "RenderErrors",
            Counter::QueueErrors => "QueueErrors",
            Counter::ClientScanoutFrames => "ClientScanoutFrames",
            Counter::SwapchainFrames => "SwapchainFrames",
            Counter::PresentEvents => "PresentEvents",
            Counter::SequenceGaps => "SequenceGaps",
            Counter::PresentLate => "PresentLate",
            Counter::QueuePastDeadline => "QueuePastDeadline",
            Counter::UnknownClock => "UnknownClock",
            Counter::DirectCopies => "DirectCopies",
            Counter::IntermediateCopies => "IntermediateCopies",
            Counter::CpuCopies => "CpuCopies",
            Counter::SourceImportMisses => "SourceImportMisses",
            Counter::TargetImportMisses => "TargetImportMisses",
            Counter::NativeInputImports => "NativeInputImports",
            Counter::CpuInputWaits => "CpuInputWaits",
            Counter::CpuGlesWaits => "CpuGlesWaits",
            Counter::GlesFinishFallbacks => "GlesFinishFallbacks",
            Counter::BatchesCreated => "BatchesCreated",
            Counter::BatchesRetired => "BatchesRetired",
            Counter::TextureCopies => "TextureCopies",
            Counter::StreamRegistrations => "StreamRegistrations",
            Counter::QueueReturnedPastDeadline => "QueueReturnedPastDeadline",
            Counter::FuturePresentationTimestamp => "FuturePresentationTimestamp",
            Counter::TransitionPresentationsIgnored => "TransitionPresentationsIgnored",
            Counter::ResourceSetsCreated => "ResourceSetsCreated",
            Counter::ResourceSetsReused => "ResourceSetsReused",
            Counter::ResourceSetsRecycled => "ResourceSetsRecycled",
            Counter::ResourceSetsDestroyed => "ResourceSetsDestroyed",
            Counter::ResourcePoolBusy => "ResourcePoolBusy",
            Counter::SignalSemaphoresReplaced => "SignalSemaphoresReplaced",
        }
    }
}

/// Two stages at the same place of the declaration order are the same stage, and every place of
/// the order is taken.
pub proof fn stage_order_is_total(a: Stage, b: Stage, place: nat)
    ensures
        a.position() == b.position() ==> a == b,
        a.position() < STAGES,
        place < STAGES ==> Stage::nth(place as int).position() == place,
{
}

/// Two counters at the same place of the declaration order are the same counter, and every place of
/// the order is taken.
pub proof fn counter_order_is_total(a: Counter, b: Counter, place: nat)
    ensures
        a.position() == b.position() ==> a == b,
        a.position() < COUNTERS,
        place < COUNTERS ==> Counter::nth(place as int).position() == place,
{
}

/// Every stage has its own identifier as its serialization name, and its fixed place in the order
/// of snapshots.
pub proof fn stages_are_named_after_themselves(stage: Stage)
    ensures
        match stage {
            Stage::NiriFrame => stage.name() == "NiriFrame"@ && stage.position() == 0,
            Stage::NiriPrepare => stage.name() == "NiriPrepare"@ && stage.position() == 1,
            Stage::NiriElements => stage.name() == "NiriElements"@ && stage.position() == 2,
            Stage::NiriRender => stage.name() == "NiriRender"@ && stage.position() == 3,
            Stage::NiriSyncWait => stage.name() == "NiriSyncWait"@ && stage.position() == 4,
            Stage::NiriQueue => stage.name() == "NiriQueue"@ && stage.position() == 5,
            Stage::FrameInterval => stage.name() == "FrameInterval"@ && stage.position() == 6,
            Stage::RenderLead => stage.name() == "RenderLead"@ && stage.position() == 7,
            Stage::QueueLead => stage.name() == "QueueLead"@ && stage.position() == 8,
            Stage::QueueLate => stage.name() == "QueueLate"@ && stage.position() == 9,
            Stage::PresentLateness => stage.name() == "PresentLateness"@ && stage.position() == 10,
            Stage::PresentEarliness => stage.name() == "PresentEarliness"@ && stage.position()
                == 11,
            Stage::PresentationInterval => stage.name() == "PresentationInterval"@
                && stage.position() == 12,
            Stage::PresentCallbackDelay => stage.name() == "PresentCallbackDelay"@
                && stage.position() == 13,
            Stage::QueueToPresentation => stage.name() == "QueueToPresentation"@ && stage.position()
                == 14,
            Stage::SourceReuseWait => stage.name() == "SourceReuseWait"@ && stage.position() == 15,
            Stage::TargetAcquire => stage.name() == "TargetAcquire"@ && stage.position() == 16,
            Stage::TargetPublish => stage.name() == "TargetPublish"@ && stage.position() == 17,
            Stage::VulkanCopy => stage.name() == "VulkanCopy"@ && stage.position() == 18,
            Stage::VulkanRetire => stage.name() == "VulkanRetire"@ && stage.position() == 19,
            Stage::SourceImport => stage.name() == "SourceImport"@ && stage.position() == 20,
            Stage::TargetImport => stage.name() == "TargetImport"@ && stage.position() == 21,
            Stage::VulkanInputSetup => stage.name() == "VulkanInputSetup"@ && stage.position()
                == 22,
            Stage::CpuInputFenceWait => stage.name() == "CpuInputFenceWait"@ && stage.position()
                == 23,
            Stage::VulkanRecord => stage.name() == "VulkanRecord"@ && stage.position() == 24,
            Stage::VulkanSubmit => stage.name() == "VulkanSubmit"@ && stage.position() == 25,
            Stage::VulkanExport => stage.name() == "VulkanExport"@ && stage.position() == 26,
            Stage::ResourcesDestroy => stage.name() == "ResourcesDestroy"@ && stage.position()
                == 27,
            Stage::VulkanFenceWait => stage.name() == "VulkanFenceWait"@ && stage.position() == 28,
            Stage::GlesWait => stage.name() == "GlesWait"@ && stage.position() == 29,
            Stage::CpuGlesWait => stage.name() == "CpuGlesWait"@ && stage.position() == 30,
            Stage::VulkanValidation => stage.name() == "VulkanValidation"@ && stage.position()
                == 31,
            Stage::VulkanResources => stage.name() == "VulkanResources"@ && stage.position() == 32,
            Stage::ImportedDestroy => stage.name() == "ImportedDestroy"@ && stage.position() == 33,
            Stage::DeviceDestroy => stage.name() == "DeviceDestroy"@ && stage.position() == 34,
            Stage::BatchDestroy => stage.name() == "BatchDestroy"@ && stage.position() == 35,
            Stage::TransferRetire => stage.name() == "TransferRetire"@ && stage.position() == 36,
            Stage::TransferWait => stage.name() == "TransferWait"@ && stage.position() == 37,
            Stage::GlesFinish => stage.name() == "GlesFinish"@ && stage.position() == 38,
            Stage::TargetTextureImport => stage.name() == "TargetTextureImport"@ && stage.position()
                == 39,
            Stage::NiriRedraw => stage.name() == "NiriRedraw"@ && stage.position() == 40,
            Stage::NiriCallbacks => stage.name() == "NiriCallbacks"@ && stage.position() == 41,
            Stage::NiriScreenCast => stage.name() == "NiriScreenCast"@ && stage.position() == 42,
            Stage::VulkanSignalSetup => stage.name() == "VulkanSignalSetup"@ && stage.position()
                == 43,
            Stage::QueueReturnLead => stage.name() == "QueueReturnLead"@ && stage.position() == 44,
            Stage::QueueReturnLate => stage.name() == "QueueReturnLate"@ && stage.position() == 45,
            Stage::NiriSceneUpdate => stage.name() == "NiriSceneUpdate"@ && stage.position() == 46,
            Stage::NiriVblank => stage.name() == "NiriVblank"@ && stage.position() == 47,
            Stage::NiriPresentRetire => stage.name() == "NiriPresentRetire"@ && stage.position()
                == 48,
            Stage::VulkanPoolReset => stage.name() == "VulkanPoolReset"@ && stage.position() == 49,
        },
{
}

/// Every counter has its own identifier as its serialization name, and its fixed place in the order
/// of snapshots.
pub proof fn counters_are_named_after_themselves(counter: Counter)
    ensures
        match counter {
            Counter::FrameAttempts => counter.name() == "FrameAttempts"@ && counter.position() == 0,
            Counter::FramesSubmitted => counter.name() == "FramesSubmitted"@ && counter.position()
                == 1,
            Counter::FramesNoDamage => counter.name() == "FramesNoDamage"@ && counter.position()
                == 2,
            Counter::RenderErrors => counter.name() == "RenderErrors"@ && counter.position() == 3,
            Counter::QueueErrors => counter.name() == "QueueErrors"@ && counter.position() == 4,
            Counter::ClientScanoutFrames => counter.name() == "ClientScanoutFrames"@
                && counter.position() == 5,
            Counter::SwapchainFrames => counter.name() == "SwapchainFrames"@ && counter.position()
                == 6,
            Counter::PresentEvents => counter.name() == "PresentEvents"@ && counter.position() == 7,
            Counter::SequenceGaps => counter.name() == "SequenceGaps"@ && counter.position() == 8,
            Counter::PresentLate => counter.name() == "PresentLate"@ && counter.position() == 9,
            Counter::QueuePastDeadline => counter.name() == "QueuePastDeadline"@
                && counter.position() == 10,
            Counter::UnknownClock => counter.name() == "UnknownClock"@ && counter.position() == 11,
            Counter::DirectCopies => counter.name() == "DirectCopies"@ && counter.position() == 12,
            Counter::IntermediateCopies => counter.name() == "IntermediateCopies"@
                && counter.position() == 13,
            Counter::CpuCopies => counter.name() == "CpuCopies"@ && counter.position() == 14,
            Counter::SourceImportMisses => counter.name() == "SourceImportMisses"@
                && counter.position() == 15,
            Counter::TargetImportMisses => counter.name() == "TargetImportMisses"@
                && counter.position() == 16,
            Counter::NativeInputImports => counter.name() == "NativeInputImports"@
                && counter.position() == 17,
            Counter::CpuInputWaits => counter.name() == "CpuInputWaits"@ && counter.position()
                == 18,
            Counter::CpuGlesWaits => counter.name() == "CpuGlesWaits"@ && counter.position() == 19,
            Counter::GlesFinishFallbacks => counter.name() == "GlesFinishFallbacks"@
                && counter.position() == 20,
            Counter::BatchesCreated => counter.name() == "BatchesCreated"@ && counter.position()
                == 21,
            Counter::BatchesRetired => counter.name() == "BatchesRetired"@ && counter.position()
                == 22,
            Counter::TextureCopies => counter.name() == "TextureCopies"@ && counter.position()
                == 23,
            Counter::StreamRegistrations => counter.name() == "StreamRegistrations"@
                && counter.position() == 24,
            Counter::QueueReturnedPastDeadline => counter.name() == "QueueReturnedPastDeadline"@
                && counter.position() == 25,
            Counter::FuturePresentationTimestamp => counter.name() == "FuturePresentationTimestamp"@
                && counter.position() == 26,
            Counter::TransitionPresentationsIgnored => counter.name() == "TransitionPresentationsIgnored"@
                && counter.position() == 27,
            Counter::ResourceSetsCreated => counter.name() == "ResourceSetsCreated"@
                && counter.position() == 28,
            Counter::ResourceSetsReused => counter.name() == "ResourceSetsReused"@
                && counter.position() == 29,
            Counter::ResourceSetsRecycled => counter.name() == "ResourceSetsRecycled"@
                && counter.position() == 30,
            Counter::ResourceSetsDestroyed => counter.name() == "ResourceSetsDestroyed"@
                && counter.position() == 31,
            Counter::ResourcePoolBusy => counter.name() == "ResourcePoolBusy"@ && counter.position()
                == 32,
            Counter::SignalSemaphoresReplaced => counter.name() == "SignalSemaphoresReplaced"@
                && counter.position() == 33,
        },
{
}

} // verus!
