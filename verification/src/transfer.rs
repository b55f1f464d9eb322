//! Same-frame transfer storage. There is deliberately no output or presentation state here.
//!
//! Waiting for fences and starting the engine belong to the caller. Storage is dropped only after
//! both release fences were reached, so an operation that drops storage first names the fence to
//! wait for and is called again with the outcome of the wait noted.

use crate::error::{lost, ErrorView, Interrupted, VkBridgeError};
use crate::outside::same_text;
use vstd::prelude::*;

verus! {

/// The two allocations of a transfer.
#[derive(Clone, Copy, Debug, PartialEq, Eq, Structural)]
pub enum Role {
    Source,
    Destination,
}

/// The transfer engine, from lazy initialization on. `R` receives an engine `E` that is being
/// initialized in the background.
#[derive(Debug)]
pub enum Engine<R, E> {
    Uninitialized,
    Initializing(R),
    Ready(E),
    Failed,
}

/// What to do to get at the engine.
#[derive(Clone, Copy, Debug, PartialEq, Eq, Structural)]
pub enum EngineAction {
    /// Start its initialization in the background.
    Spawn,
    /// Look for its initialization without blocking.
    Receive,
    /// Use it.
    Use,
    /// Do without it.
    Unavailable,
}

/// A look at an initialization in the background.
#[derive(Debug)]
pub enum Received<E> {
    /// It succeeded.
    Engine(E),
    /// It failed.
    Error,
    /// It ended without an outcome.
    Disconnected,
    /// It still runs.
    Empty,
}

/// Outcome of negotiating source modifiers.
#[derive(Debug)]
pub enum Negotiated {
    /// Allocate the source with one of these.
    Use(Vec<u64>),
    /// The route is not usable: disable it.
    Disable,
}

/// A staging allocation and its identity.
#[derive(Debug)]
pub struct Staging<D> {
    pub id: u64,
    pub buffer: D,
}

/// Resources shared by sequential transfers between one source/target device pair.
///
/// A single destination suffices because its previous reader's fence is an explicit dependency of
/// the next write. No ring-size or output-timing assumption is made. `D` is an allocation, `F` a
/// fence that has not been reached yet.
#[derive(Debug)]
pub struct TransferState<D, F, R, E> {
    pub engine: Engine<R, E>,
    /// Identity of the source device's current generation.
    pub source_generation: Option<u64>,
    pub device_lost: bool,
    pub direct_target_enabled: bool,
    /// Identities of the targets that the engine rejected, each once.
    pub rejected_direct_targets: Vec<u64>,
    pub source: Option<Staging<D>>,
    pub destination: Option<D>,
    /// Fence of the copy that reads the source.
    pub source_release: Option<F>,
    /// Fence of the downstream reader of the destination.
    pub destination_release: Option<F>,
}

/// What a transfer state holds.
#[verifier::ext_equal]
pub struct TransferView<D, F, R, E> {
    pub engine: Engine<R, E>,
    pub source_generation: Option<u64>,
    pub device_lost: bool,
    pub direct_target_enabled: bool,
    /// Identities of the targets that the engine rejected, each once.
    pub rejected: Seq<u64>,
    pub source: Option<Staging<D>>,
    pub destination: Option<D>,
    pub source_release: Option<F>,
    pub destination_release: Option<F>,
}

impl<D, F, R, E> View for TransferState<D, F, R, E> {
    type V = TransferView<D, F, R, E>;

    open spec fn view(&self) -> TransferView<D, F, R, E> {
        TransferView {
            engine: self.engine,
            source_generation: self.source_generation,
            device_lost: self.device_lost,
            direct_target_enabled: self.direct_target_enabled,
            rejected: self.rejected_direct_targets@,
            source: self.source,
            destination: self.destination,
            source_release: self.source_release,
            destination_release: self.destination_release,
        }
    }
}

/// The engine after an attempt to start its initialization.
pub open spec fn after_spawn<R, E>(engine: Engine<R, E>, receiver: Option<R>) -> Engine<R, E> {
    match (engine, receiver) {
        (Engine::Uninitialized, Some(r)) => Engine::Initializing(r),
        (Engine::Uninitialized, None) => Engine::Failed,
        (other, _) => other,
    }
}

/// The engine after a look at its initialization.
pub open spec fn after_receive<R, E>(engine: Engine<R, E>, outcome: Received<E>) -> Engine<R, E> {
    match (engine, outcome) {
        (Engine::Initializing(_), Received::Engine(ready)) => Engine::Ready(ready),
        (Engine::Initializing(_), Received::Error) => Engine::Failed,
        (Engine::Initializing(_), Received::Disconnected) => Engine::Failed,
        (other, _) => other,
    }
}

/// A state without resources.
pub open spec fn initial<D, F, R, E>() -> TransferView<D, F, R, E> {
    TransferView {
        engine: Engine::Uninitialized,
        source_generation: None,
        device_lost: false,
        direct_target_enabled: false,
        rejected: seq![],
        source: None,
        destination: None,
        source_release: None,
        destination_release: None,
    }
}

impl<D, F, R, E> TransferView<D, F, R, E> {
    /// No target is rejected twice.
    pub open spec fn wf(self) -> bool {
        self.rejected.no_duplicates()
    }

    /// The fence to wait for before storage can be dropped. A source copy fence and the downstream
    /// target-reader fence protect different allocations; neither can stand in for the other.
    pub open spec fn outstanding(self) -> Option<Role> {
        if self.source_release is Some {
            Some(Role::Source)
        } else if self.destination_release is Some {
            Some(Role::Destination)
        } else {
            None
        }
    }

    /// The state without storage and what was learned about it.
    pub open spec fn retired(self) -> Self {
        TransferView { rejected: seq![], source: None, destination: None, ..self }
    }

    /// The state after a wait for a fence: interruption means retry, not completion.
    pub open spec fn after_wait(self, role: Role, outcome: Result<(), Interrupted>) -> Self {
        if outcome is Err {
            self
        } else {
            match role {
                Role::Source => TransferView { source_release: None, ..self },
                Role::Destination => TransferView { destination_release: None, ..self },
            }
        }
    }
}

impl<D, F, R, E> Default for TransferState<D, F, R, E> {
    /// A state without resources.
    fn default() -> (state: Self)
        ensures
            state@ == initial::<D, F, R, E>(),
            state@.wf(),
    {
        TransferState {
            engine: Engine::Uninitialized,
            source_generation: None,
            device_lost: false,
            direct_target_enabled: false,
            rejected_direct_targets: Vec::new(),
            source: None,
            destination: None,
            source_release: None,
            destination_release: None,
        }
    }
}

impl<D, F, R, E> TransferState<D, F, R, E> {
    /// Whether the source device is still of this generation.
    pub fn matches_generation(&self, generation: u64) -> (matching: bool)
        ensures
            matching == (self@.source_generation == Some(generation)),
    {
        match self.source_generation {
            Some(current) => current == generation,
            None => false,
        }
    }

    /// Drops storage once both of its fences were reached; until then nothing changes, and the
    /// role whose fence is to be waited for is returned.
    pub fn retire_buffers(&mut self) -> (outstanding: Option<Role>)
        ensures
            outstanding == old(self)@.outstanding(),
            final(self)@ == if outstanding is Some {
                old(self)@
            } else {
                old(self)@.retired()
            },
            old(self)@.wf() ==> final(self)@.wf(),
    {
        if self.source_release.is_some() {
            return Some(Role::Source);
        }
        if self.destination_release.is_some() {
            return Some(Role::Destination);
        }
        self.destination = None;
        self.source = None;
        self.rejected_direct_targets = Vec::new();
        None
    }

    /// Notes the outcome of a wait for a role's fence.
    pub fn waited(&mut self, role: Role, outcome: Result<(), Interrupted>)
        ensures
            final(self)@ == old(self)@.after_wait(role, outcome),
    {
        if wait(outcome) {
            return;
        }
        match role {
            Role::Source => {
                self.source_release = None;
            },
            Role::Destination => {
                self.destination_release = None;
            },
        }
    }

    /// Retires cached resources without changing the policy of an already borrowed renderer. Until
    /// both fences were reached nothing changes.
    pub fn invalidate(&mut self) -> (outstanding: Option<Role>)
        ensures
            outstanding == old(self)@.outstanding(),
            final(self)@ == if outstanding is Some {
                old(self)@
            } else {
                TransferView {
                    source_generation: old(self)@.source_generation,
                    direct_target_enabled: old(self)@.direct_target_enabled,
                    ..initial()
                }
            },
            old(self)@.wf() ==> final(self)@.wf(),
    {
        match self.retire_buffers() {
            Some(role) => {
                return Some(role);
            },
            None => {},
        }
        self.engine = Engine::Uninitialized;
        self.device_lost = false;
        None
    }

    /// Whether a target was rejected. Rejections are kept by allocation identity, without keeping
    /// a swapchain allocation alive: those of the allocations in `gone` are forgotten.
    pub fn direct_target_rejected(&mut self, target: u64, gone: &Vec<u64>) -> (rejected: bool)
        requires
            old(self)@.wf(),
        ensures
            final(self)@ == (TransferView {
                rejected: old(self)@.rejected.filter(|id: u64| !gone@.contains(id)),
                ..old(self)@
            }),
            final(self)@.wf(),
            rejected == (old(self)@.rejected.contains(target) && !gone@.contains(target)),
    {
        let ghost before = self.rejected_direct_targets@;
        let ghost keep = |id: u64| !gone@.contains(id);
        let mut kept: Vec<u64> = Vec::new();
        let mut rejected: bool = false;
        let mut i: usize = 0;
        proof {
            assert(before.take(0) =~= seq![]);
            assert(before.take(0).filter(keep) =~= seq![]) by {
                reveal(Seq::filter);
            }
        }
        while i < self.rejected_direct_targets.len()
            invariant
                self@ == old(self)@,
                before == self.rejected_direct_targets@,
                i <= before.len(),
                keep == (|id: u64| !gone@.contains(id)),
                kept@ == before.take(i as int).filter(keep),
                rejected == (before.take(i as int).contains(target) && !gone@.contains(target)),
            decreases before.len() - i,
        {
            let id: u64 = self.rejected_direct_targets[i];
            proof {
                let next = before.take(i + 1);
                assert(next.drop_last() =~= before.take(i as int));
                assert(next.last() == id);
                reveal(Seq::filter);
                assert(next =~= before.take(i as int).push(id));
                if id == target {
                    assert(next[i as int] == target);
                }
                if before.take(i as int).contains(target) {
                    let done = before.take(i as int);
                    let j = choose|j: int| 0 <= j < done.len() && done[j] == target;
                    assert(next[j] == target);
                }
            }
            if !listed(gone, id) {
                kept.push(id);
                if id == target {
                    rejected = true;
                }
            }
            i += 1;
        }
        proof {
            assert(before.take(before.len() as int) =~= before);
            lemma_filter_keeps_distinct(before, keep);
        }
        self.rejected_direct_targets = kept;
        rejected
    }

    /// Remembers that the engine rejected a target.
    pub fn reject_direct_target(&mut self, target: u64)
        requires
            old(self)@.wf(),
        ensures
            final(self)@.wf(),
            final(self)@ == (TransferView {
                rejected: if old(self)@.rejected.contains(target) {
                    old(self)@.rejected
                } else {
                    old(self)@.rejected.push(target)
                },
                ..old(self)@
            }),
    {
        if !listed(&self.rejected_direct_targets, target) {
            self.rejected_direct_targets.push(target);
        }
    }

    /// Whether a staging allocation is another one than the current: adopting it drops storage.
    pub fn replaces_source(&self, id: u64) -> (other: bool)
        ensures
            other == !(self@.source matches Some(current) && current.id == id),
    {
        match &self.source {
            Some(current) => current.id != id,
            None => true,
        }
    }

    /// Adopts a new staging allocation, invalidating the matching destination as well. Until both
    /// fences of the storage that it replaces were reached, nothing changes and the allocation is
    /// given back. The current allocation is adopted without any change.
    pub fn set_source(&mut self, staging: Staging<D>) -> (adopted: Result<(), (Role, Staging<D>)>)
        ensures
            old(self)@.source matches Some(current) && current.id == staging.id ==> {
                &&& adopted is Ok
                &&& final(self)@ == old(self)@
            },
            !(old(self)@.source matches Some(current) && current.id == staging.id) ==> match old(self)@.outstanding() {
                Some(role) => {
                    &&& adopted == Err::<(), (Role, Staging<D>)>((role, staging))
                    &&& final(self)@ == old(self)@
                },
                None => {
                    &&& adopted is Ok
                    &&& final(self)@ == (TransferView {
                        source: Some(staging),
                        ..old(self)@.retired()
                    })
                },
            },
            old(self)@.wf() ==> final(self)@.wf(),
    {
        if !self.replaces_source(staging.id) {
            return Ok(());
        }
        match self.retire_buffers() {
            Some(role) => Err((role, staging)),
            None => {
                self.source = Some(staging);
                Ok(())
            },
        }
    }

    /// What to do to get at the engine.
    pub fn engine_action(&self) -> (action: EngineAction)
        ensures
            action == match self@.engine {
                Engine::Uninitialized => EngineAction::Spawn,
                Engine::Initializing(_) => EngineAction::Receive,
                Engine::Ready(_) => EngineAction::Use,
                Engine::Failed => EngineAction::Unavailable,
            },
    {
        match self.engine {
            Engine::Uninitialized => EngineAction::Spawn,
            Engine::Initializing(_) => EngineAction::Receive,
            Engine::Ready(_) => EngineAction::Use,
            Engine::Failed => EngineAction::Unavailable,
        }
    }

    /// Notes that initialization was started in the background; `None` if that failed.
    pub fn spawned(&mut self, receiver: Option<R>)
        ensures
            final(self)@ == (TransferView {
                engine: after_spawn(old(self)@.engine, receiver),
                ..old(self)@
            }),
    {
        match self.engine {
            Engine::Uninitialized => {
                self.engine = match receiver {
                    Some(receiver) => Engine::Initializing(receiver),
                    None => Engine::Failed,
                };
            },
            _ => {},
        }
    }

    /// Where an engine that is being initialized arrives.
    pub fn receiver(&self) -> (receiver: Option<&R>)
        ensures
            receiver == match self@.engine {
                Engine::Initializing(r) => Some(&r),
                _ => None,
            },
    {
        match &self.engine {
            Engine::Initializing(receiver) => Some(receiver),
            _ => None,
        }
    }

    /// Notes a look at the initialization in the background.
    pub fn received(&mut self, outcome: Received<E>)
        ensures
            final(self)@ == (TransferView {
                engine: after_receive(old(self)@.engine, outcome),
                ..old(self)@
            }),
    {
        match self.engine {
            Engine::Initializing(_) => {},
            _ => {
                return;
            },
        }
        match outcome {
            Received::Engine(engine) => {
                self.engine = Engine::Ready(engine);
            },
            Received::Error => {
                self.engine = Engine::Failed;
            },
            Received::Disconnected => {
                self.engine = Engine::Failed;
            },
            Received::Empty => {},
        }
    }

    /// The engine, if it is ready.
    pub fn engine(&mut self) -> (engine: Option<&mut E>)
        ensures
            match old(self)@.engine {
                Engine::Ready(current) => {
                    &&& engine matches Some(ready)
                    &&& *ready == current
                    &&& final(self)@ == (TransferView {
                        engine: Engine::Ready(*final(ready)),
                        ..old(self)@
                    })
                },
                _ => engine is None && final(self)@ == old(self)@,
            },
    {
        match &mut self.engine {
            Engine::Ready(engine) => Some(engine),
            _ => None,
        }
    }

    /// Takes the engine's enumeration of source modifiers. An empty one and an error disable the
    /// route; a lost device is remembered.
    pub fn source_modifiers(&mut self, reply: Result<Vec<u64>, VkBridgeError>) -> (negotiated:
        Negotiated)
        ensures
            match reply {
                Ok(modifiers) if modifiers@.len() > 0 => {
                    &&& negotiated == Negotiated::Use(modifiers)
                    &&& final(self)@ == old(self)@
                },
                Ok(_) => negotiated is Disable && final(self)@ == old(self)@,
                Err(err) => {
                    &&& negotiated is Disable
                    &&& final(self)@ == (TransferView {
                        device_lost: old(self)@.device_lost || err@ == ErrorView::Vk(lost()),
                        ..old(self)@
                    })
                },
            },
    {
        match reply {
            Ok(modifiers) => if modifiers.len() > 0 {
                Negotiated::Use(modifiers)
            } else {
                Negotiated::Disable
            },
            Err(err) => {
                if err.is_device_lost() {
                    self.device_lost = true;
                }
                Negotiated::Disable
            },
        }
    }

    /// Gives the route up, once both fences were reached; until then nothing changes.
    pub fn disable(&mut self) -> (outstanding: Option<Role>)
        ensures
            outstanding == old(self)@.outstanding(),
            final(self)@ == if outstanding is Some {
                old(self)@
            } else {
                TransferView { engine: Engine::Failed, ..old(self)@.retired() }
            },
            old(self)@.wf() ==> final(self)@.wf(),
    {
        match self.retire_buffers() {
            Some(role) => {
                return Some(role);
            },
            None => {},
        }
        self.engine = Engine::Failed;
        None
    }
}

fn listed(ids: &Vec<u64>, id: u64) -> (found: bool)
    ensures
        found == ids@.contains(id),
{
    let mut i: usize = 0;
    while i < ids.len()
        invariant
            i <= ids@.len(),
            forall|j: int| 0 <= j < i ==> ids@[j] != id,
        decreases ids@.len() - i,
    {
        if ids[i] == id {
            assert(ids@[i as int] == id);
            return true;
        }
        i += 1;
    }
    false
}

proof fn lemma_filter_keeps_distinct(ids: Seq<u64>, keep: spec_fn(u64) -> bool)
    requires
        ids.no_duplicates(),
    ensures
        ids.filter(keep).no_duplicates(),
        forall|id: u64| ids.filter(keep).contains(id) ==> ids.contains(id),
    decreases ids.len(),
{
    reveal(Seq::filter);
    if ids.len() > 0 {
        let rest = ids.drop_last();
        lemma_filter_keeps_distinct(rest, keep);
        assert(!rest.contains(ids.last()));
        assert forall|id: u64| ids.filter(keep).contains(id) implies ids.contains(id) by {
            let kept = ids.filter(keep);
            let i = choose|i: int| 0 <= i < kept.len() && kept[i] == id;
            if i < rest.filter(keep).len() {
                assert(rest.filter(keep)[i] == id);
                assert(rest.contains(id));
                let j = choose|j: int| 0 <= j < rest.len() && rest[j] == id;
                assert(ids[j] == id);
            } else {
                assert(ids[ids.len() - 1] == id);
            }
        }
    }
}

/// Whether a wait has to be repeated: interruption explicitly means retry, not completion.
pub fn wait(outcome: Result<(), Interrupted>) -> (again: bool)
    ensures
        again == (outcome is Err),
{
    outcome.is_err()
}

/// Whether an error says that a target can never be written directly. Only the engine's
/// deterministic descriptor or capability rejection does: raw driver errors (including memory
/// pressure) need not describe this target allocation at all, and invalid damage describes a
/// single request, not persistent buffer incompatibility.
pub fn cache_direct_rejection(error: &VkBridgeError) -> (persistent: bool)
    ensures
        persistent == (error@ matches ErrorView::Unsupported(reason) && reason
            != "empty or out-of-bounds damage"@),
{
    match error {
        VkBridgeError::Unsupported(reason) => !same_text(reason, "empty or out-of-bounds damage"),
        _ => false,
    }
}

/// Initialization is started once, and its outcome is kept: an engine that failed or was lost is
/// not started again, and one that is ready stays so.
pub proof fn engine_is_initialized_once<R, E>(
    engine: Engine<R, E>,
    receiver: Option<R>,
    outcome: Received<E>,
)
    ensures
        !(after_spawn(engine, receiver) is Uninitialized),
        !(engine is Uninitialized) ==> after_spawn(engine, receiver) == engine,
        engine is Failed || engine is Ready ==> after_receive(engine, outcome) == engine,
        engine is Initializing && !(outcome is Empty) ==> (after_receive(engine, outcome) is Ready
            || after_receive(engine, outcome) is Failed),
{
}

/// The roles that a retirement waits for, given the outcome of each wait in turn.
pub open spec fn waits_of<D, F, R, E>(
    t: TransferView<D, F, R, E>,
    outcomes: Seq<Result<(), Interrupted>>,
) -> Seq<Role>
    decreases outcomes.len(),
{
    match t.outstanding() {
        Some(role) if outcomes.len() > 0 => seq![role] + waits_of(
            t.after_wait(role, outcomes[0]),
            outcomes.drop_first(),
        ),
        _ => seq![],
    }
}

/// A retirement waits for the source's fence first and then for the destination's, each until it
/// is reached and not again: every wait but the last for a role was interrupted.
pub proof fn retirement_waits_each_role_until_reached<D, F, R, E>(
    t: TransferView<D, F, R, E>,
    outcomes: Seq<Result<(), Interrupted>>,
)
    ensures
        ({
            let waits = waits_of(t, outcomes);
            &&& waits.len() <= outcomes.len()
            &&& forall|i: int, j: int|
                0 <= i < j < waits.len() && #[trigger] waits[i] == #[trigger] waits[j]
                    ==> outcomes[i] is Err
            &&& forall|i: int, j: int|
                0 <= i < j < waits.len() && #[trigger] waits[j] == Role::Source
                    ==> #[trigger] waits[i] == Role::Source
            &&& t.source_release is None ==> forall|i: int|
                0 <= i < waits.len() ==> #[trigger] waits[i] == Role::Destination
            &&& t.destination_release is None ==> forall|i: int|
                0 <= i < waits.len() ==> #[trigger] waits[i] == Role::Source
        }),
    decreases outcomes.len(),
{
    if let Some(role) = t.outstanding() {
        if outcomes.len() > 0 {
            let after = t.after_wait(role, outcomes[0]);
            let rest = outcomes.drop_first();
            let later = waits_of(after, rest);
            let waits = waits_of(t, outcomes);
            retirement_waits_each_role_until_reached(after, rest);
            assert(waits =~= seq![role] + later);
            assert forall|i: int, j: int|
                0 <= i < j < waits.len() && #[trigger] waits[i] == #[trigger] waits[j] implies
                outcomes[i] is Err by {
                assert(waits[j] == later[j - 1]);
                if i > 0 {
                    assert(waits[i] == later[i - 1]);
                    assert(outcomes[i] == rest[i - 1]);
                }
            }
            assert forall|i: int, j: int|
                0 <= i < j < waits.len() && #[trigger] waits[j] == Role::Source implies
                #[trigger] waits[i] == Role::Source by {
                assert(waits[j] == later[j - 1]);
                if i > 0 {
                    assert(waits[i] == later[i - 1]);
                }
            }
            assert forall|i: int| 0 <= i < waits.len() && i > 0 implies #[trigger] waits[i]
                == later[i - 1] by {}
        }
    }
}

/// Waits that are not interrupted reach everything: after them storage can be dropped, and a
/// second retirement waits for nothing.
pub proof fn reached_fences_are_not_waited_again<D, F, R, E>(t: TransferView<D, F, R, E>)
    ensures
        ({
            let done = Ok::<(), Interrupted>(());
            let reached = t.after_wait(Role::Source, done).after_wait(Role::Destination, done);
            &&& reached.outstanding() is None
            &&& reached.retired().outstanding() is None
            &&& reached.source == t.source
            &&& reached.destination == t.destination
            &&& reached.rejected == t.rejected
        }),
{
}

/// A new state has no engine, no storage and no fence, and direct targets are off.
pub proof fn new_states_are_empty<D, F, R, E>()
    ensures
        ({
            let t = initial::<D, F, R, E>();
            &&& t.engine is Uninitialized
            &&& t.source_generation is None
            &&& !t.device_lost
            &&& !t.direct_target_enabled
            &&& t.rejected.len() == 0
            &&& t.source is None
            &&& t.destination is None
            &&& t.source_release is None
            &&& t.destination_release is None
        }),
{
}

/// Storage is outstanding exactly while one of its fences is; the source's is waited for first.
pub proof fn outstanding_fences_are_named<D, F, R, E>(t: TransferView<D, F, R, E>)
    ensures
        t.source_release is Some ==> t.outstanding() == Some(Role::Source),
        t.source_release is None && t.destination_release is Some ==> t.outstanding() == Some(
            Role::Destination,
        ),
        t.source_release is None && t.destination_release is None ==> t.outstanding() is None,
{
}

/// Retired storage is gone with the rejections that were learned for it. The engine, the policy and
/// the fences stay.
pub proof fn retirement_drops_storage_only<D, F, R, E>(t: TransferView<D, F, R, E>)
    ensures
        t.retired().source is None,
        t.retired().destination is None,
        t.retired().rejected.len() == 0,
        t.retired().engine == t.engine,
        t.retired().source_generation == t.source_generation,
        t.retired().device_lost == t.device_lost,
        t.retired().direct_target_enabled == t.direct_target_enabled,
        t.retired().source_release == t.source_release,
        t.retired().destination_release == t.destination_release,
{
}

/// A wait that succeeded clears the fence of its role and no other; an interrupted one clears none.
/// Nothing else changes.
pub proof fn waits_clear_their_own_fence<D, F, R, E>(
    t: TransferView<D, F, R, E>,
    role: Role,
    outcome: Result<(), Interrupted>,
)
    ensures
        ({
            let after = t.after_wait(role, outcome);
            &&& after.source_release == if outcome is Ok && role == Role::Source {
                None
            } else {
                t.source_release
            }
            &&& after.destination_release == if outcome is Ok && role == Role::Destination {
                None
            } else {
                t.destination_release
            }
            &&& after.engine == t.engine
            &&& after.source_generation == t.source_generation
            &&& after.device_lost == t.device_lost
            &&& after.direct_target_enabled == t.direct_target_enabled
            &&& after.rejected == t.rejected
            &&& after.source == t.source
            &&& after.destination == t.destination
        }),
{
}

/// A started initialization is received where it arrives; one that could not be started has failed.
/// A received engine is used as it is, an error and an end without outcome are failures, and an
/// initialization that still runs is waited for.
pub proof fn initialization_follows_its_outcome<R, E>(receiver: R, engine: E)
    ensures
        after_spawn(Engine::<R, E>::Uninitialized, Some(receiver)) == Engine::<R, E>::Initializing(
            receiver,
        ),
        after_spawn(Engine::<R, E>::Uninitialized, None) is Failed,
        after_receive(Engine::<R, E>::Initializing(receiver), Received::Engine(engine))
            == Engine::<R, E>::Ready(engine),
        after_receive(Engine::<R, E>::Initializing(receiver), Received::Error) is Failed,
        after_receive(Engine::<R, E>::Initializing(receiver), Received::Disconnected) is Failed,
        after_receive(Engine::<R, E>::Initializing(receiver), Received::Empty) == Engine::<
            R,
            E,
        >::Initializing(receiver),
        after_receive(Engine::<R, E>::Uninitialized, Received::Engine(engine)) is Uninitialized,
{
}

} // verus!
