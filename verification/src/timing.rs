//! Opt-in frame timing aggregation, one recorder per thread.
//!
//! Register streams on the event-loop thread during topology setup, then enter a scope around
//! frame/presentation work and drain on that same thread. A recorder without an entered scope
//! records nothing. Registration is bounded to 16 streams for the lifetime of the recorder;
//! excess/unknown streams suppress recording until their scope exits. Guards must be given back
//! in nesting order.
//!
//! Nested stages overlap: do not sum them. Timings measure host elapsed time, not GPU execution.
//! Drain allocates/copies raw snapshots; summarize and serialize off the event loop. Histogram
//! quantiles are bucket upper bounds, not exact samples. Registering an existing ID resets its
//! histograms/counters, even if the label is unchanged. Each registration sets
//! `StreamRegistrations` to one; consumers should discard that partial reporting window. Register
//! only outside active timing scopes so an old guard cannot cross this reset boundary.

use crate::histogram::{clamp_nanos, empty_histogram, recorded, Histogram, HistogramView};
use crate::names::{Counter, Stage, COUNTERS, STAGES};
use crate::outside::{as_nanos, clock_elapsed, clock_now, duration_nanos, same_text};
use std::marker::PhantomData;
use std::rc::Rc;
use std::time::{Duration, Instant};
use vstd::prelude::*;

verus! {

/// Device/output identity chosen by the caller.
pub type StreamId = (u64, u32);

/// Most streams that a recorder keeps.
pub const MAX_STREAMS: usize = 16;

/// Owned snapshot. Only nonempty metrics/counters are emitted.
#[derive(Debug)]
pub struct StreamSnapshot {
    /// Registered stream identity.
    pub id: StreamId,
    /// Label copied at drain, never during recording.
    pub label: String,
    /// Raw histograms; summarize off-thread.
    pub metrics: Vec<(Stage, Histogram)>,
    /// Nonzero event counts.
    pub counters: Vec<(Counter, u64)>,
}

/// What a snapshot holds.
#[verifier::ext_equal]
pub struct SnapshotView {
    pub id: StreamId,
    pub label: Seq<char>,
    pub metrics: Seq<(Stage, HistogramView)>,
    pub counters: Seq<(Counter, u64)>,
}

/// Snapshot entries with their histograms' contents.
pub open spec fn metrics_view(metrics: Seq<(Stage, Histogram)>) -> Seq<
    (Stage, HistogramView),
> {
    metrics.map_values(|entry: (Stage, Histogram)| (entry.0, entry.1@))
}

impl View for StreamSnapshot {
    type V = SnapshotView;

    open spec fn view(&self) -> SnapshotView {
        SnapshotView {
            id: self.id,
            label: self.label@,
            metrics: metrics_view(self.metrics@),
            counters: self.counters@,
        }
    }
}

/// Samples and counts of one registered stream.
#[derive(Debug)]
pub struct Stream {
    /// Registered identity.
    pub id: StreamId,
    /// Label of the last registration.
    pub label: String,
    /// One histogram per stage.
    pub metrics: Vec<Histogram>,
    /// One count per counter.
    pub counters: [u64; 34],
}

/// What a stream holds.
#[verifier::ext_equal]
pub struct StreamView {
    pub id: StreamId,
    pub label: Seq<char>,
    pub metrics: Seq<HistogramView>,
    pub counters: Seq<u64>,
}

impl View for Stream {
    type V = StreamView;

    open spec fn view(&self) -> StreamView {
        StreamView {
            id: self.id,
            label: self.label@,
            metrics: self.metrics@.map_values(|h: Histogram| h@),
            counters: self.counters@,
        }
    }
}

/// All streams of a recorder and the one that is being recorded to.
#[derive(Debug)]
pub struct State {
    /// Registered streams, in order of first registration.
    pub streams: Vec<Stream>,
    /// Index of the active stream.
    pub current: Option<usize>,
}

/// What a recorder's state holds.
#[verifier::ext_equal]
pub struct StateView {
    pub streams: Seq<StreamView>,
    pub current: Option<usize>,
}

impl View for State {
    type V = StateView;

    open spec fn view(&self) -> StateView {
        StateView {
            streams: self.streams@.map_values(|s: Stream| s@),
            current: self.current,
        }
    }
}

impl StateView {
    /// At most `MAX_STREAMS` streams with distinct identities, each with a histogram per stage and
    /// a count per counter; the active stream is one of them.
    pub open spec fn wf(self) -> bool {
        &&& self.streams.len() <= MAX_STREAMS
        &&& forall|i: int|
            0 <= i < self.streams.len() ==> (#[trigger] self.streams[i]).metrics.len() == STAGES
        &&& forall|i: int|
            0 <= i < self.streams.len() ==> (#[trigger] self.streams[i]).counters.len()
                == COUNTERS
        &&& forall|i: int|
            0 <= i < self.streams.len() ==> unsampled_are_empty(#[trigger] self.streams[i])
        &&& forall|i: int, j: int|
            0 <= i < j < self.streams.len() ==> (#[trigger] self.streams[i]).id != (
            #[trigger] self.streams[j]).id
        &&& self.current matches Some(i) ==> i < self.streams.len()
    }
}

/// A histogram of the stream that counts no sample holds nothing.
pub open spec fn unsampled_are_empty(stream: StreamView) -> bool {
    forall|i: int|
        0 <= i < stream.metrics.len() && (#[trigger] stream.metrics[i]).count == 0
            ==> stream.metrics[i] == empty_histogram()
}

/// The stream that a registration leaves behind: no samples, and `StreamRegistrations` at one.
pub open spec fn fresh_stream(id: StreamId, label: Seq<char>) -> StreamView {
    StreamView {
        id,
        label,
        metrics: Seq::new(STAGES as nat, |i: int| empty_histogram()),
        counters: Seq::new(
            COUNTERS as nat,
            |i: int|
                if i == Counter::StreamRegistrations.position() {
                    1u64
                } else {
                    0u64
                },
        ),
    }
}

/// Index, from `from` on, of the stream registered as `id`; the number of streams if none is.
pub open spec fn stream_position(streams: Seq<StreamView>, id: StreamId, from: int) -> int
    decreases streams.len() - from,
{
    if from >= streams.len() {
        streams.len() as int
    } else if streams[from].id == id {
        from
    } else {
        stream_position(streams, id, from + 1)
    }
}

/// The state after registering `id`: a known stream starts over, a new one is added while there
/// is room.
pub open spec fn registered(s: StateView, id: StreamId, label: Seq<char>) -> StateView {
    let i = stream_position(s.streams, id, 0);
    if i < s.streams.len() {
        StateView { streams: s.streams.update(i, fresh_stream(id, label)), ..s }
    } else if s.streams.len() < MAX_STREAMS {
        StateView { streams: s.streams.push(fresh_stream(id, label)), ..s }
    } else {
        s
    }
}

/// The state with `id` active, or no stream active if `id` is unknown.
pub open spec fn selected(s: StateView, id: StreamId) -> StateView {
    let i = stream_position(s.streams, id, 0);
    StateView { current: if i < s.streams.len() { Some(i as usize) } else { None }, ..s }
}

/// The state with `ns` nanoseconds recorded to a stage of stream `i`; no stream, no change.
pub open spec fn observed(s: StateView, i: int, stage: Stage, ns: u64) -> StateView {
    if 0 <= i < s.streams.len() {
        let stream = s.streams[i];
        let place = stage.position() as int;
        StateView {
            streams: s.streams.update(
                i,
                StreamView {
                    metrics: stream.metrics.update(
                        place,
                        recorded(stream.metrics[place], ns),
                    ),
                    ..stream
                },
            ),
            ..s
        }
    } else {
        s
    }
}

/// The state with `value` events added, saturating, to a counter of stream `i`.
pub open spec fn counted(s: StateView, i: int, counter: Counter, value: u64) -> StateView {
    if 0 <= i < s.streams.len() {
        let stream = s.streams[i];
        let place = counter.position() as int;
        StateView {
            streams: s.streams.update(
                i,
                StreamView {
                    counters: stream.counters.update(
                        place,
                        stream.counters[place].saturating_add(value),
                    ),
                    ..stream
                },
            ),
            ..s
        }
    } else {
        s
    }
}

/// Stages among the first `n` that have samples, in declaration order.
pub open spec fn live_metrics(metrics: Seq<HistogramView>, n: int) -> Seq<
    (Stage, HistogramView),
>
    decreases n,
{
    if n <= 0 {
        seq![]
    } else if metrics[n - 1].count != 0 {
        live_metrics(metrics, n - 1).push((Stage::nth(n - 1), metrics[n - 1]))
    } else {
        live_metrics(metrics, n - 1)
    }
}

/// Counters among the first `n` that are not zero, in declaration order.
pub open spec fn live_counters(counters: Seq<u64>, n: int) -> Seq<(Counter, u64)>
    decreases n,
{
    if n <= 0 {
        seq![]
    } else if counters[n - 1] != 0 {
        live_counters(counters, n - 1).push((Counter::nth(n - 1), counters[n - 1]))
    } else {
        live_counters(counters, n - 1)
    }
}

/// What a drain reports of one stream.
pub open spec fn snapshot_of(stream: StreamView) -> SnapshotView {
    SnapshotView {
        id: stream.id,
        label: stream.label,
        metrics: live_metrics(stream.metrics, STAGES as int),
        counters: live_counters(stream.counters, COUNTERS as int),
    }
}

/// The stream after a drain: registered as before, without samples or counts.
pub open spec fn drained_stream(stream: StreamView) -> StreamView {
    StreamView {
        metrics: Seq::new(stream.metrics.len(), |i: int| empty_histogram()),
        counters: Seq::new(stream.counters.len(), |i: int| 0u64),
        ..stream
    }
}

/// Whether a drain has anything to report of a stream.
pub open spec fn is_live(stream: StreamView) -> bool {
    snapshot_of(stream).metrics.len() > 0 || snapshot_of(stream).counters.len() > 0
}

/// Snapshots of the live streams among the first `n`, in registration order.
pub open spec fn snapshots(streams: Seq<StreamView>, n: int) -> Seq<SnapshotView>
    decreases n,
{
    if n <= 0 {
        seq![]
    } else if is_live(streams[n - 1]) {
        snapshots(streams, n - 1).push(snapshot_of(streams[n - 1]))
    } else {
        snapshots(streams, n - 1)
    }
}

/// The state after a drain.
pub open spec fn drained(s: StateView) -> StateView {
    StateView { streams: s.streams.map_values(|stream: StreamView| drained_stream(stream)), ..s }
}

/// Contents of a list of snapshots.
pub open spec fn snapshots_view(list: Seq<StreamSnapshot>) -> Seq<SnapshotView> {
    list.map_values(|snapshot: StreamSnapshot| snapshot@)
}

impl Stream {
    fn fresh(id: StreamId, label: &str) -> (stream: Stream)
        ensures
            stream@ == fresh_stream(id, label@),
    {
        let mut metrics: Vec<Histogram> = Vec::new();
        let mut i: usize = 0;
        while i < STAGES
            invariant
                i <= STAGES,
                metrics@.len() == i,
                forall|j: int|
                    0 <= j < i ==> (#[trigger] metrics@[j])@ == empty_histogram(),
            decreases STAGES - i,
        {
            metrics.push(Histogram::default());
            i += 1;
        }
        let mut counters: [u64; 34] = [0; 34];
        counters[Counter::StreamRegistrations.index()] = 1;
        let stream = Stream { id, label: label.to_owned(), metrics, counters };
        assert(stream@.metrics =~= fresh_stream(id, label@).metrics);
        assert(stream@.counters =~= fresh_stream(id, label@).counters);
        stream
    }

    fn drain_metrics(&mut self) -> (metrics: Vec<(Stage, Histogram)>)
        requires
            old(self)@.metrics.len() == STAGES,
            unsampled_are_empty(old(self)@),
        ensures
            metrics_view(metrics@) == snapshot_of(old(self)@).metrics,
            final(self)@ == (StreamView {
                metrics: drained_stream(old(self)@).metrics,
                ..old(self)@
            }),
    {
        let ghost before = self@.metrics;
        let ghost after = drained_stream(self@).metrics;
        let mut metrics: Vec<(Stage, Histogram)> = Vec::new();
        let mut i: usize = 0;
        while i < STAGES
            invariant
                i <= STAGES,
                before == old(self)@.metrics,
                after == drained_stream(old(self)@).metrics,
                before.len() == STAGES,
                unsampled_are_empty(old(self)@),
                self.metrics@.len() == STAGES,
                self.id == old(self).id,
                self.label@ == old(self).label@,
                self.counters == old(self).counters,
                forall|j: int| 0 <= j < i ==> (#[trigger] self.metrics@[j])@ == after[j],
                forall|j: int| i <= j < STAGES ==> (#[trigger] self.metrics@[j])@ == before[j],
                metrics_view(metrics@) == live_metrics(before, i as int),
            decreases STAGES - i,
        {
            let ghost listed = metrics@;
            assert(self.metrics@[i as int]@ == before[i as int]);
            if self.metrics[i].count != 0 {
                let taken = self.metrics[i].take();
                metrics.push((Stage::at(i), taken));
                assert(metrics_view(metrics@) =~= metrics_view(listed).push(
                    (Stage::nth(i as int), before[i as int]),
                ));
            }
            i += 1;
        }
        assert(self@.metrics =~= after);
        metrics
    }

    fn drain_counters(&mut self) -> (counters: Vec<(Counter, u64)>)
        ensures
            counters@ == snapshot_of(old(self)@).counters,
            final(self)@ == (StreamView {
                counters: drained_stream(old(self)@).counters,
                ..old(self)@
            }),
    {
        let ghost before = self@.counters;
        let mut counters: Vec<(Counter, u64)> = Vec::new();
        let mut i: usize = 0;
        while i < COUNTERS
            invariant
                i <= COUNTERS,
                before == old(self)@.counters,
                before == self.counters@,
                counters@ == live_counters(before, i as int),
            decreases COUNTERS - i,
        {
            let value: u64 = self.counters[i];
            if value != 0 {
                counters.push((Counter::at(i), value));
            }
            i += 1;
        }
        self.counters = [0; 34];
        assert(self.counters@ =~= drained_stream(old(self)@).counters);
        counters
    }
}

impl State {
    /// Validity of the state.
    pub open spec fn wf(self) -> bool {
        self@.wf()
    }

    /// A state without streams.
    pub fn new() -> (state: State)
        ensures
            state.wf(),
            state@ == (StateView { streams: seq![], current: None }),
    {
        let state = State { streams: Vec::new(), current: None };
        assert(state@.streams =~= seq![]);
        state
    }

    fn position(&self, id: StreamId) -> (i: usize)
        ensures
            i == stream_position(self@.streams, id, 0),
            i <= self.streams@.len(),
    {
        let mut i: usize = 0;
        while i < self.streams.len()
            invariant
                i <= self.streams@.len(),
                stream_position(self@.streams, id, 0) == stream_position(
                    self@.streams,
                    id,
                    i as int,
                ),
            decreases self.streams@.len() - i,
        {
            let known: StreamId = self.streams[i].id;
            if known.0 == id.0 && known.1 == id.1 {
                return i;
            }
            i += 1;
        }
        i
    }

    /// Adds a stream, or resets it if it is known.
    pub fn register(&mut self, id: StreamId, label: &str)
        requires
            old(self).wf(),
        ensures
            final(self).wf(),
            final(self)@ == registered(old(self)@, id, label@),
    {
        let ghost before = self@;
        proof {
            lemma_position(before.streams, id, 0);
        }
        let i: usize = self.position(id);
        if i < self.streams.len() {
            self.streams[i] = Stream::fresh(id, label);
            assert(self@.streams =~= registered(before, id, label@).streams);
        } else if self.streams.len() < MAX_STREAMS {
            self.streams.push(Stream::fresh(id, label));
            assert(self@.streams =~= registered(before, id, label@).streams);
        }
    }

    /// Makes `id` the active stream and returns the stream that was active.
    pub fn select(&mut self, id: StreamId) -> (previous: Option<usize>)
        requires
            old(self).wf(),
        ensures
            final(self).wf(),
            previous == old(self)@.current,
            final(self)@ == selected(old(self)@, id),
    {
        proof {
            lemma_position(self@.streams, id, 0);
        }
        let previous = self.current;
        let i: usize = self.position(id);
        self.current = if i < self.streams.len() { Some(i) } else { None };
        previous
    }

    /// Records a duration, in nanoseconds, to a stage of stream `i`.
    pub fn observe_nanos(&mut self, i: usize, stage: Stage, nanos: u128)
        requires
            old(self).wf(),
        ensures
            final(self).wf(),
            final(self)@ == observed(
                old(self)@,
                i as int,
                stage,
                clamp_nanos(nanos),
            ),
    {
        let ghost before = self@;
        if i < self.streams.len() {
            assert(before.streams[i as int].metrics.len() == STAGES);
            self.streams[i].metrics[stage.index()].record_nanos(nanos);
            let ghost after = observed(
                before,
                i as int,
                stage,
                clamp_nanos(nanos),
            );
            assert(self@.streams[i as int].metrics =~= after.streams[i as int].metrics);
            assert(self@.streams =~= after.streams);
        }
    }

    /// Adds events to a counter of stream `i`.
    pub fn count(&mut self, i: usize, counter: Counter, value: u64)
        requires
            old(self).wf(),
        ensures
            final(self).wf(),
            final(self)@ == counted(old(self)@, i as int, counter, value),
    {
        let ghost before = self@;
        if i < self.streams.len() {
            let place: usize = counter.index();
            let sum: u64 = self.streams[i].counters[place].saturating_add(value);
            self.streams[i].counters[place] = sum;
            let ghost after = counted(before, i as int, counter, value);
            assert(self@.streams[i as int].counters =~= after.streams[i as int].counters);
            assert(self@.streams =~= after.streams);
        }
    }

    /// Reports and clears the samples and counts of every stream.
    pub fn drain(&mut self) -> (list: Vec<StreamSnapshot>)
        requires
            old(self).wf(),
        ensures
            final(self).wf(),
            final(self)@ == drained(old(self)@),
            snapshots_view(list@) == snapshots(
                old(self)@.streams,
                old(self)@.streams.len() as int,
            ),
    {
        let ghost before = self@;
        let mut list: Vec<StreamSnapshot> = Vec::new();
        let mut i: usize = 0;
        while i < self.streams.len()
            invariant
                before == old(self)@,
                before.wf(),
                i <= self.streams@.len(),
                self.streams@.len() == before.streams.len(),
                self.current == before.current,
                forall|j: int|
                    0 <= j < i ==> (#[trigger] self.streams@[j])@ == drained_stream(
                        before.streams[j],
                    ),
                forall|j: int|
                    i <= j < self.streams@.len() ==> (#[trigger] self.streams@[j])@
                        == before.streams[j],
                snapshots_view(list@) == snapshots(before.streams, i as int),
            decreases self.streams@.len() - i,
        {
            let ghost listed = list@;
            assert(self.streams@[i as int]@ == before.streams[i as int]);
            let metrics = self.streams[i].drain_metrics();
            let counters = self.streams[i].drain_counters();
            proof {
                assert(metrics_view(metrics@).len() == metrics@.len());
            }
            if !metrics.is_empty() || !counters.is_empty() {
                let snapshot = StreamSnapshot {
                    id: self.streams[i].id,
                    label: self.streams[i].label.clone(),
                    metrics,
                    counters,
                };
                assert(snapshot@ == snapshot_of(before.streams[i as int]));
                list.push(snapshot);
                assert(snapshots_view(list@) =~= snapshots_view(listed).push(snapshot@));
            }
            i += 1;
        }
        assert(self@.streams =~= drained(before).streams);
        proof {
            lemma_drained_wf(before);
        }
        list
    }
}

proof fn lemma_position(streams: Seq<StreamView>, id: StreamId, from: int)
    requires
        0 <= from <= streams.len(),
    ensures
        from <= stream_position(streams, id, from) <= streams.len(),
        stream_position(streams, id, from) < streams.len() ==> streams[stream_position(
            streams,
            id,
            from,
        )].id == id,
        forall|j: int|
            from <= j < stream_position(streams, id, from) ==> (#[trigger] streams[j]).id != id,
    decreases streams.len() - from,
{
    if from < streams.len() && streams[from].id != id {
        lemma_position(streams, id, from + 1);
    }
}

proof fn lemma_drained_wf(s: StateView)
    requires
        s.wf(),
    ensures
        drained(s).wf(),
{
    assert forall|i: int, j: int| 0 <= i < j < drained(s).streams.len() implies (
    #[trigger] drained(s).streams[i]).id != (#[trigger] drained(s).streams[j]).id by {
        assert(s.streams[i].id != s.streams[j].id);
    }
}

/// One thread's recorder: its streams and whether recording is on.
#[derive(Debug)]
pub struct Timing {
    enabled: bool,
    state: State,
}

/// What a recorder holds.
#[verifier::ext_equal]
pub struct TimingView {
    pub enabled: bool,
    pub state: StateView,
}

impl View for Timing {
    type V = TimingView;

    closed spec fn view(&self) -> TimingView {
        TimingView { enabled: self.enabled, state: self.state@ }
    }
}

/// The recorder with `value` events added to a counter of its active stream, if recording is on.
pub open spec fn timing_counted(t: TimingView, counter: Counter, value: u64) -> TimingView {
    if t.enabled && t.state.current is Some {
        TimingView { state: counted(t.state, t.state.current->0 as int, counter, value), ..t }
    } else {
        t
    }
}

impl Timing {
    /// Validity of the recorder.
    pub open spec fn wf(self) -> bool {
        self@.state.wf()
    }

    /// A recorder without streams.
    pub fn new(enabled: bool) -> (timing: Timing)
        ensures
            timing.wf(),
            timing@ == (TimingView {
                enabled,
                state: StateView { streams: seq![], current: None },
            }),
    {
        Timing { enabled, state: State::new() }
    }

    /// The streams and the active one.
    pub fn state(&self) -> (state: &State)
        ensures
            state@ == self@.state,
    {
        &self.state
    }
}

/// Whether recording starts switched on, given the value of `SMITHAY_FRAME_TIMING`: only for
/// exactly `1`.
pub fn initially_enabled(value: Option<&str>) -> (enabled: bool)
    ensures
        enabled == (value matches Some(text) && text@ == "1"@),
{
    match value {
        Some(text) => same_text(text, "1"),
        None => false,
    }
}

/// Current recording state.
pub fn enabled(timing: &Timing) -> (on: bool)
    ensures
        on == timing@.enabled,
{
    timing.enabled
}

/// Toggle recording between frames, outside all timing scopes. Preserves registrations and
/// pending samples; the caller must reset stream/reporting windows on transition.
pub fn set_enabled(timing: &mut Timing, enabled: bool)
    ensures
        final(timing)@ == (TimingView { enabled, ..old(timing)@ }),
{
    timing.enabled = enabled;
}

/// Register/reset a stream at topology setup outside timing scopes. Clears previous samples and
/// sets `StreamRegistrations` to one. No-op when disabled.
pub fn register_stream(timing: &mut Timing, id: StreamId, label: &str)
    requires
        old(timing).wf(),
    ensures
        final(timing).wf(),
        final(timing)@ == if old(timing)@.enabled {
            TimingView { state: registered(old(timing)@.state, id, label@), ..old(timing)@ }
        } else {
            old(timing)@
        },
{
    if timing.enabled {
        timing.state.register(id, label);
    }
}

/// Restores the previous stream when it is given back to [`ScopeGuard::exit`].
#[derive(Debug)]
pub struct ScopeGuard {
    previous: Option<usize>,
    _thread: PhantomData<Rc<()>>,
}

impl ScopeGuard {
    /// Index of the stream that was active before the scope.
    pub closed spec fn previous(self) -> Option<usize> {
        self.previous
    }

    /// Leaves the scope.
    pub fn exit(self, timing: &mut Timing)
        requires
            old(timing).wf(),
        ensures
            final(timing).wf(),
            final(timing)@ == (TimingView {
                state: StateView {
                    current: match self.previous() {
                        Some(i) if i < old(timing)@.state.streams.len() => Some(i),
                        _ => None,
                    },
                    ..old(timing)@.state
                },
                ..old(timing)@
            }),
    {
        timing.state.current = match self.previous {
            Some(i) => if i < timing.state.streams.len() {
                Some(i)
            } else {
                None
            },
            None => None,
        };
    }
}

/// Enter a registered stream. Unknown IDs enter an inactive scope, restoring on exit.
/// Returns None only when disabled; registration never happens here.
pub fn enter(timing: &mut Timing, id: StreamId) -> (guard: Option<ScopeGuard>)
    requires
        old(timing).wf(),
    ensures
        final(timing).wf(),
        guard is Some <==> old(timing)@.enabled,
        guard matches Some(scope) ==> scope.previous() == old(timing)@.state.current,
        final(timing)@ == if old(timing)@.enabled {
            TimingView { state: selected(old(timing)@.state, id), ..old(timing)@ }
        } else {
            old(timing)@
        },
{
    if !timing.enabled {
        return None;
    }
    Some(enter_active(timing, id))
}

/// Enter a stream whether or not recording is on.
pub fn enter_active(timing: &mut Timing, id: StreamId) -> (guard: ScopeGuard)
    requires
        old(timing).wf(),
    ensures
        final(timing).wf(),
        guard.previous() == old(timing)@.state.current,
        final(timing)@ == (TimingView {
            state: selected(old(timing)@.state, id),
            ..old(timing)@
        }),
{
    ScopeGuard { previous: timing.state.select(id), _thread: PhantomData }
}

/// A running clock. Given back to [`TimerGuard::finish`], it records elapsed host time to the
/// stream that was active at creation.
#[derive(Debug)]
pub struct TimerGuard {
    stream: usize,
    stage: Stage,
    start: Instant,
    _thread: PhantomData<Rc<()>>,
}

impl TimerGuard {
    /// Index of the stream that was active at creation.
    pub closed spec fn stream(self) -> usize {
        self.stream
    }

    /// The stage being timed.
    pub closed spec fn stage(self) -> Stage {
        self.stage
    }

    /// Whether the clock can show `elapsed` when it is read: what `Instant::elapsed` returns for
    /// the instant of creation.
    pub closed spec fn shows(self, elapsed: Duration) -> bool {
        call_ensures(clock_elapsed, (&self.start,), elapsed)
    }

    /// Stops the clock and records what it shows.
    pub fn finish(self, timing: &mut Timing)
        requires
            old(timing).wf(),
        ensures
            final(timing).wf(),
            exists|elapsed: Duration|
                self.shows(elapsed) && final(timing)@.state == #[trigger] observed(
                    old(timing)@.state,
                    self.stream() as int,
                    self.stage(),
                    clamp_nanos(duration_nanos(elapsed)),
                ),
            final(timing)@.enabled == old(timing)@.enabled,
    {
        let elapsed = clock_elapsed(&self.start);
        self.finish_after(timing, elapsed);
    }

    /// Records `elapsed` in place of the clock's own reading.
    pub fn finish_after(self, timing: &mut Timing, elapsed: Duration)
        requires
            old(timing).wf(),
        ensures
            final(timing).wf(),
            final(timing)@ == (TimingView {
                state: observed(
                    old(timing)@.state,
                    self.stream() as int,
                    self.stage(),
                    clamp_nanos(duration_nanos(elapsed)),
                ),
                ..old(timing)@
            }),
    {
        let nanos: u128 = as_nanos(elapsed);
        timing.state.observe_nanos(self.stream, self.stage, nanos);
    }
}

/// Start a clock only when enabled and inside an active registered stream.
pub fn time(timing: &Timing, stage: Stage) -> (guard: Option<TimerGuard>)
    ensures
        guard is Some <==> timing@.enabled && timing@.state.current is Some,
        guard matches Some(timer) ==> timer.stage() == stage && Some(timer.stream())
            == timing@.state.current,
{
    if !timing.enabled {
        return None;
    }
    time_active(timing, stage)
}

/// Start a clock inside an active registered stream, whether or not recording is on.
pub fn time_active(timing: &Timing, stage: Stage) -> (guard: Option<TimerGuard>)
    ensures
        guard is Some <==> timing@.state.current is Some,
        guard matches Some(timer) ==> timer.stage() == stage && Some(timer.stream())
            == timing@.state.current,
{
    match timing.state.current {
        Some(stream) => Some(
            TimerGuard { stream, stage, start: clock_now(), _thread: PhantomData },
        ),
        None => None,
    }
}

/// Add an externally measured duration to the active stream.
pub fn observe(timing: &mut Timing, stage: Stage, duration: Duration)
    requires
        old(timing).wf(),
    ensures
        final(timing).wf(),
        final(timing)@ == if old(timing)@.enabled && old(timing)@.state.current is Some {
            TimingView {
                state: observed(
                    old(timing)@.state,
                    old(timing)@.state.current->0 as int,
                    stage,
                    clamp_nanos(duration_nanos(duration)),
                ),
                ..old(timing)@
            }
        } else {
            old(timing)@
        },
{
    if !timing.enabled {
        return ;
    }
    if let Some(i) = timing.state.current {
        let nanos: u128 = as_nanos(duration);
        timing.state.observe_nanos(i, stage, nanos);
    }
}

/// Add events to the active stream using saturating arithmetic.
pub fn count(timing: &mut Timing, counter: Counter, value: u64)
    requires
        old(timing).wf(),
    ensures
        final(timing).wf(),
        final(timing)@ == timing_counted(old(timing)@, counter, value),
{
    if !timing.enabled {
        return ;
    }
    if let Some(i) = timing.state.current {
        timing.state.count(i, counter, value);
    }
}

/// Drain/reset samples, retaining registrations. Empty when disabled, with nothing reset.
pub fn drain(timing: &mut Timing) -> (list: Vec<StreamSnapshot>)
    requires
        old(timing).wf(),
    ensures
        final(timing).wf(),
        old(timing)@.enabled ==> {
            &&& final(timing)@ == (TimingView {
                state: drained(old(timing)@.state),
                ..old(timing)@
            })
            &&& snapshots_view(list@) == snapshots(
                old(timing)@.state.streams,
                old(timing)@.state.streams.len() as int,
            )
        },
        !old(timing)@.enabled ==> final(timing)@ == old(timing)@ && list@.len() == 0,
{
    if !timing.enabled {
        return Vec::new();
    }
    timing.state.drain()
}

} // verus!
