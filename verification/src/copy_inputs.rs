//! Input fences: how they are settled before a submission, and what a copy begins with.

use crate::copy::{
    action_of, copy_stages, entered, inner_stage_of, is_submitted, reached_at, requested, stage_of,
    stage_place, stepped, CopyAction, CopyEvent, CopySession, ImportStep, Machine, Phase, Progress,
};
use crate::copy_answers::{failed_imports_are_waited, waited_inputs_are_settled};
use crate::copy_invariant::{every_run_is_consistent, ran};
use crate::copy_laws::{lemma_same_request, other_steps_leave_the_inputs};
use crate::copy_progress::{answers_phase, other_answers_change_nothing};
use crate::device::SyncFdSupport;
use crate::error::{Interrupted, VkResult};
use crate::geometry::Rectangle;
use crate::names::Stage;
use crate::resources::Input;
use crate::validate::Dmabuf;
use vstd::prelude::*;

verus! {

/// What has been done about the fence of an input.
pub open spec fn progress_of<H>(session: CopySession<H>, input: Input) -> Progress {
    match input {
        Input::Acquire => session.acquire,
        Input::Release => session.release,
    }
}

/// Whether there is a fence for an input.
pub open spec fn has_fence<H>(session: CopySession<H>, input: Input) -> bool {
    match input {
        Input::Acquire => session.acquire_fence,
        Input::Release => session.release_fence,
    }
}

/// The driver imported the fence of that input, being asked for it.
pub open spec fn imports_fence<H, P>(phase: Phase, event: CopyEvent<H, P>, input: Input) -> bool {
    phase == Phase::ImportInput(input) && event matches CopyEvent::InputImported(Ok(_))
}

/// The fence of that input was waited for, being asked for it.
pub open spec fn waits_fence<H, P>(phase: Phase, event: CopyEvent<H, P>, input: Input) -> bool {
    phase == Phase::WaitInput(input) && event matches CopyEvent::InputWaited(Ok(_))
}

/// A fence counts as imported only after the driver imported that fence, and as waited only after
/// it was waited for. Nothing else settles it.
pub proof fn fences_are_settled_by_an_import_or_a_wait<H, P>(
    m: Machine<H, P>,
    event: CopyEvent<H, P>,
    input: Input,
)
    requires
        m.inv(),
    ensures
        ({
            let after = stepped(m, event).0.session;
            let phase = m.session.phase;
            &&& imports_fence(phase, event, input) ==> progress_of(after, input)
                == Progress::Native
            &&& waits_fence(phase, event, input) ==> progress_of(after, input) == Progress::Waited
            &&& !imports_fence(phase, event, input) && !waits_fence(phase, event, input)
                ==> progress_of(after, input) == progress_of(m.session, input)
        }),
{
    match m.session.phase {
        Phase::ImportInput(at) => {
            if let CopyEvent::InputImported(reply) = event {
                failed_imports_are_waited(m, at, reply);
            } else {
                assert(!answers_phase(m.session.phase, event));
                other_answers_change_nothing(m, event);
            }
        },
        Phase::WaitInput(at) => {
            if let CopyEvent::InputWaited(reply) = event {
                waited_inputs_are_settled(m, at, reply);
            } else {
                assert(!answers_phase(m.session.phase, event));
                other_answers_change_nothing(m, event);
            }
        },
        _ => {
            other_steps_leave_the_inputs(m, event);
        },
    }
}

/// Whether answer `k` of a run settled the fence of an input.
pub open spec fn settled_at<H, P>(
    m: Machine<H, P>,
    events: Seq<CopyEvent<H, P>>,
    k: int,
    input: Input,
) -> bool {
    let phase = ran(m, events.take(k)).session.phase;
    &&& 0 <= k < events.len()
    &&& imports_fence(phase, events[k], input) || waits_fence(phase, events[k], input)
}

proof fn lemma_settled<H, P>(m: Machine<H, P>, events: Seq<CopyEvent<H, P>>, input: Input)
    requires
        m.inv(),
        progress_of(m.session, input) == Progress::Open,
        progress_of(ran(m, events).session, input) != Progress::Open,
    ensures
        exists|k: int| #[trigger] settled_at(m, events, k, input),
    decreases events.len(),
{
    if events.len() > 0 {
        let shorter = events.drop_last();
        let n = events.len() - 1;
        assert(events.take(n) =~= shorter);
        if progress_of(ran(m, shorter).session, input) != Progress::Open {
            lemma_settled(m, shorter, input);
            let k = choose|k: int| #[trigger] settled_at(m, shorter, k, input);
            assert(shorter.take(k) =~= events.take(k));
            assert(settled_at(m, events, k, input));
        } else {
            every_run_is_consistent(m, shorter);
            fences_are_settled_by_an_import_or_a_wait(ran(m, shorter), events.last(), input);
            assert(settled_at(m, events, n, input));
        }
    }
}

/// No copy is submitted before its fences: if there is a fence for an input, then the driver
/// imported exactly that fence into the submission, or it was waited for, at some point of the
/// run.
pub proof fn submitted_copies_settled_their_fences<H, P>(
    m: Machine<H, P>,
    events: Seq<CopyEvent<H, P>>,
    input: Input,
)
    requires
        m.inv(),
        m.session.acquire == Progress::Open,
        m.session.release == Progress::Open,
        is_submitted(ran(m, events).session.phase),
        has_fence(m.session, input),
    ensures
        exists|k: int| #[trigger] settled_at(m, events, k, input),
{
    lemma_same_request(m, events);
    every_run_is_consistent(m, events);
    lemma_settled(m, events, input);
}

/// A copy begins with its source's identity, and has done nothing: it has no image, no set and no
/// descriptor, and its fences are open. It is of the given buffers, damage, format and fences.
pub proof fn copies_begin_with_nothing_done<H>(
    src: Dmabuf,
    dst: Dmabuf,
    acquire_fence: bool,
    release_fence: bool,
    regions: Vec<Rectangle>,
    format: Option<i32>,
    sync_fd: SyncFdSupport,
)
    ensures
        ({
            let s = requested::<H>(
                src,
                dst,
                acquire_fence,
                release_fence,
                regions,
                format,
                sync_fd,
            );
            &&& s.phase == Phase::IdentifySource
            &&& s.src == src
            &&& s.dst == dst
            &&& s.regions == regions
            &&& s.known_format == format
            &&& s.sync_fd == sync_fd
            &&& s.acquire_fence == acquire_fence
            &&& s.release_fence == release_fence
            &&& s.acquire == Progress::Open
            &&& s.release == Progress::Open
            &&& s.source is None
            &&& s.destination is None
            &&& s.building is None
            &&& s.checkout.resources is None
            &&& s.submitted is None
            &&& s.exported is None
        }),
{
}

/// The call that is asked for is the one whose answer the phase takes, for the same buffer, object
/// or fence.
pub proof fn actions_ask_for_the_phase<H, P>(phase: Phase)
    ensures
        match phase {
            Phase::IdentifySource => action_of(phase) == (CopyAction::Identify { source: true }),
            Phase::IdentifyDestination(_) => action_of(phase) == (CopyAction::Identify {
                source: false,
            }),
            Phase::Reap(i) => action_of(phase) == CopyAction::Poll(i),
            Phase::Import { source, step } => match step {
                ImportStep::ListModifiers => action_of(phase) == CopyAction::ListModifiers,
                ImportStep::QueryLimits => action_of(phase) == (CopyAction::QueryLimits {
                    source,
                }),
                ImportStep::CreateImage => action_of(phase) == (CopyAction::CreateImage {
                    source,
                }),
                ImportStep::DuplicateFd { .. } => action_of(phase) == (CopyAction::DuplicateFd {
                    source,
                }),
                ImportStep::QueryFdMemory { .. } => action_of(phase) == (
                CopyAction::QueryFdMemory { source }),
                ImportStep::Allocate { memory_type, size } => action_of(phase) == (
                CopyAction::Allocate { source, memory_type, size }),
                ImportStep::Bind => action_of(phase) == (CopyAction::Bind { source }),
            },
            Phase::Create(step) => action_of(phase) == CopyAction::CreateObject(step),
            Phase::Reset(step) => action_of(phase) == CopyAction::ResetObject(step),
            Phase::ExportInput(input) => action_of(phase) == CopyAction::ExportInput(input),
            Phase::ImportInput(input) => action_of(phase) == CopyAction::ImportInput(input),
            Phase::WaitInput(input) => action_of(phase) == CopyAction::WaitInput(input),
            Phase::Record => action_of(phase) == CopyAction::Record,
            Phase::Submit => action_of(phase) == CopyAction::Submit,
            Phase::ExportSignal => action_of(phase) == CopyAction::ExportSignal,
            Phase::Publish => action_of(phase) == CopyAction::Publish,
            Phase::Finished | Phase::Failed => action_of(phase) == CopyAction::Nothing,
        },
        action_of(phase) == CopyAction::Nothing <==> forall|event: CopyEvent<H, P>|
            !#[trigger] answers_phase(phase, event),
{
    if phase != Phase::Finished && phase != Phase::Failed {
        lemma_some_answer::<H, P>(phase);
    }
}

proof fn lemma_some_answer<H, P>(phase: Phase)
    requires
        phase != Phase::Finished,
        phase != Phase::Failed,
    ensures
        exists|event: CopyEvent<H, P>| #[trigger] answers_phase(phase, event),
{
    let err = VkResult { raw: 0 };
    let event = match phase {
        Phase::IdentifySource | Phase::IdentifyDestination(_) => CopyEvent::<H, P>::Identified(
            arbitrary(),
        ),
        Phase::Reap(_) => CopyEvent::Polled(Err(err)),
        Phase::Import { source, step } => match step {
            ImportStep::ListModifiers => CopyEvent::ModifiersListed(arbitrary()),
            ImportStep::QueryLimits => CopyEvent::LimitsQueried(Err(err)),
            ImportStep::CreateImage => CopyEvent::ImageCreated(Err(err)),
            ImportStep::DuplicateFd { .. } => CopyEvent::FdDuplicated(Ok(())),
            ImportStep::QueryFdMemory { .. } => CopyEvent::FdMemoryQueried(Err(err)),
            ImportStep::Allocate { .. } => CopyEvent::Allocated(Err(err)),
            ImportStep::Bind => CopyEvent::Bound(Err(err)),
        },
        Phase::Create(_) => CopyEvent::ObjectCreated(Err(err)),
        Phase::Reset(_) => CopyEvent::ObjectReset(Err(err)),
        Phase::ExportInput(_) => CopyEvent::InputExported(true),
        Phase::ImportInput(_) => CopyEvent::InputImported(Err(err)),
        Phase::WaitInput(_) => CopyEvent::InputWaited(Err(Interrupted)),
        Phase::Record => CopyEvent::Recorded(Err(err)),
        Phase::Submit => CopyEvent::Submitted(Err(err)),
        Phase::ExportSignal => CopyEvent::SignalExported(Err(err)),
        _ => CopyEvent::Published(arbitrary()),
    };
    assert(answers_phase(phase, event));
}

/// The time of a phase goes to its stage. Resetting a set and waiting for a fence are measured
/// within their stage as well. Publishing is in no stage, but the copy has been through its export.
pub proof fn phases_have_their_stage(phase: Phase, before: Stage)
    ensures
        match phase {
            Phase::IdentifySource => stage_of(phase) == Some(Stage::VulkanValidation),
            Phase::IdentifyDestination(_) => stage_of(phase) == Some(Stage::VulkanValidation),
            Phase::Reap(_) => stage_of(phase) == Some(Stage::VulkanRetire),
            Phase::Import { source, .. } => stage_of(phase) == Some(
                if source {
                    Stage::SourceImport
                } else {
                    Stage::TargetImport
                },
            ),
            Phase::Create(_) => stage_of(phase) == Some(Stage::VulkanResources),
            Phase::Reset(_) => stage_of(phase) == Some(Stage::VulkanResources),
            Phase::ExportInput(_) => stage_of(phase) == Some(Stage::VulkanInputSetup),
            Phase::ImportInput(_) => stage_of(phase) == Some(Stage::VulkanInputSetup),
            Phase::WaitInput(_) => stage_of(phase) == Some(Stage::VulkanInputSetup),
            Phase::Record => stage_of(phase) == Some(Stage::VulkanRecord),
            Phase::Submit => stage_of(phase) == Some(Stage::VulkanSubmit),
            Phase::ExportSignal => stage_of(phase) == Some(Stage::VulkanExport),
            Phase::Publish | Phase::Finished | Phase::Failed => stage_of(phase) is None,
        },
        phase is Reset ==> inner_stage_of(phase) == Some(Stage::VulkanPoolReset),
        phase is WaitInput ==> inner_stage_of(phase) == Some(Stage::CpuInputFenceWait),
        !(phase is Reset) && !(phase is WaitInput) ==> inner_stage_of(phase) is None,
        stage_of(phase) matches Some(stage) ==> reached_at(phase, before) == stage,
        phase == Phase::Publish ==> reached_at(phase, before) == Stage::VulkanExport,
        phase == Phase::Finished || phase == Phase::Failed ==> reached_at(phase, before)
            == before,
{
}

/// The ten stages of a copy, and their order: each has its own place, and other stages have none.
pub proof fn copies_have_ten_stages(stage: Stage)
    ensures
        0 <= stage_place(stage) < 10 ==> copy_stages()[stage_place(stage)] == stage,
        0 <= stage_place(stage) < 10 <==> copy_stages().contains(stage),
        copy_stages().len() == 10,
        copy_stages()[0] == Stage::VulkanValidation,
        copy_stages()[1] == Stage::VulkanRetire,
        copy_stages()[2] == Stage::SourceImport,
        copy_stages()[3] == Stage::TargetImport,
        copy_stages()[4] == Stage::VulkanResources,
        copy_stages()[5] == Stage::VulkanInputSetup,
        copy_stages()[6] == Stage::VulkanSignalSetup,
        copy_stages()[7] == Stage::VulkanRecord,
        copy_stages()[8] == Stage::VulkanSubmit,
        copy_stages()[9] == Stage::VulkanExport,
{
    let stages = copy_stages();
    if 0 <= stage_place(stage) < 10 {
        assert(stages[stage_place(stage)] == stage);
    }
    if stages.contains(stage) {
        let i = choose|i: int| 0 <= i < stages.len() && stages[i] == stage;
        assert(0 <= stage_place(stages[i]) < 10);
    }
}

/// The stages that a copy entered since an earlier one are all that lie behind it, in order, up to
/// the last one entered; none are, if the copy is still in the same stage.
pub proof fn entered_stages_are_consecutive(before: Stage, reached: Stage, k: int)
    requires
        0 <= stage_place(before) <= stage_place(reached) < 10,
    ensures
        ({
            let list = entered(before, reached);
            &&& list.len() == stage_place(reached) - stage_place(before)
            &&& 0 <= k < list.len() ==> stage_place(list[k]) == stage_place(before) + 1 + k
            &&& list.len() > 0 ==> list.last() == reached
        }),
{
    let list = entered(before, reached);
    if 0 <= k < list.len() {
        copies_have_ten_stages(list[k]);
        assert(list[k] == copy_stages()[stage_place(before) + 1 + k]);
    }
    copies_have_ten_stages(reached);
}

} // verus!
