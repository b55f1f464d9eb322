//! The stages that the time of a copy is recorded to.

use crate::copy::{
    copy_stages, entered, is_submitted, stage_place, stepped, CopyEvent, Machine, Phase,
};
use crate::copy_invariant::{every_run_is_consistent, ran};
use crate::copy_laws::stages_never_go_back;
use crate::names::Stage;
use crate::validate::{copy_format, damage_ok, Allocation};
use vstd::prelude::*;

verus! {

/// The stages that a copy enters in a series of steps.
pub open spec fn stages_of_run<H, P>(m: Machine<H, P>, events: Seq<CopyEvent<H, P>>) -> Seq<Stage>
    decreases events.len(),
{
    if events.len() == 0 {
        seq![]
    } else {
        let before = ran(m, events.drop_last());
        stages_of_run(m, events.drop_last()) + entered(
            before.session.reached,
            ran(m, events).session.reached,
        )
    }
}

/// What the stages of a run rest on.
proof fn lemma_run<H, P>(m: Machine<H, P>, events: Seq<CopyEvent<H, P>>)
    requires
        m.inv(),
    ensures
        0 <= stage_place(ran(m, events).session.reached) < copy_stages().len(),
        is_submitted(ran(m, events).session.phase) ==> ran(m, events).session.reached
            == Stage::VulkanExport,
{
    every_run_is_consistent(m, events);
    lemma_reached(ran(m, events));
}

proof fn lemma_reached<H, P>(m: Machine<H, P>)
    requires
        m.inv(),
    ensures
        0 <= stage_place(m.session.reached) < copy_stages().len(),
        is_submitted(m.session.phase) ==> m.session.reached == Stage::VulkanExport,
        m.session.phase == Phase::IdentifySource ==> m.session.reached == Stage::VulkanValidation,
{
}

proof fn lemma_last_step<H, P>(m: Machine<H, P>, events: Seq<CopyEvent<H, P>>)
    requires
        m.inv(),
        events.len() > 0,
    ensures
        stage_place(ran(m, events.drop_last()).session.reached) <= stage_place(
            ran(m, events).session.reached,
        ),
{
    every_run_is_consistent(m, events.drop_last());
    stages_never_go_back(ran(m, events.drop_last()), events.last());
}

/// Whatever is answered, a copy enters its stages in order and each of them once: those after the
/// stage that it was in, up to the one that it reached.
pub proof fn stages_are_entered_once<H, P>(m: Machine<H, P>, events: Seq<CopyEvent<H, P>>)
    requires
        m.inv(),
    ensures
        stage_place(m.session.reached) <= stage_place(ran(m, events).session.reached)
            < copy_stages().len(),
        stages_of_run(m, events) == entered(m.session.reached, ran(m, events).session.reached),
    decreases events.len(),
{
    lemma_run(m, events);
    if events.len() > 0 {
        stages_are_entered_once(m, events.drop_last());
        lemma_last_step(m, events);
        lemma_entered(
            m.session.reached,
            ran(m, events.drop_last()).session.reached,
            ran(m, events).session.reached,
        );
    }
}

proof fn lemma_entered(a: Stage, b: Stage, c: Stage)
    requires
        stage_place(a) <= stage_place(b) <= stage_place(c) < copy_stages().len(),
    ensures
        entered(a, b) + entered(b, c) == entered(a, c),
{
    assert(entered(a, b) + entered(b, c) =~= entered(a, c));
}

proof fn lemma_all_stages()
    ensures
        seq![Stage::VulkanValidation] + entered(Stage::VulkanValidation, Stage::VulkanExport)
            == copy_stages(),
{
    assert(seq![Stage::VulkanValidation] + entered(Stage::VulkanValidation, Stage::VulkanExport)
        =~= copy_stages());
}

/// A copy that is submitted has been through every stage, each of them once and in order, however
/// little there was to do: nothing pending, both images cached, no fence to wait for or to export.
pub proof fn submitted_copies_have_every_stage<H, P>(
    m: Machine<H, P>,
    events: Seq<CopyEvent<H, P>>,
)
    requires
        m.inv(),
        m.session.phase == Phase::IdentifySource,
        is_submitted(ran(m, events).session.phase),
    ensures
        seq![Stage::VulkanValidation] + stages_of_run(m, events) == copy_stages(),
{
    stages_are_entered_once(m, events);
    lemma_run(m, events);
    lemma_reached(m);
    lemma_all_stages();
}

/// A request that does not pass the checks has no stage but that of its validation.
pub proof fn rejected_copies_have_one_stage<H, P>(
    m: Machine<H, P>,
    second: Result<Allocation, std::io::Error>,
)
    requires
        m.inv(),
        m.session.phase is IdentifyDestination,
        copy_format(
            Ok(m.session.phase->IdentifyDestination_0),
            second,
            damage_ok(m.session.src.size, m.session.regions@),
            m.session.known_format,
        ) is Err,
    ensures
        stepped(m, CopyEvent::Identified(second)).1 is Err,
        stepped(m, CopyEvent::Identified(second)).0.session.reached == Stage::VulkanValidation,
{
}

} // verus!
