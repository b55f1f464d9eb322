//! What registering, entering, recording and draining keep and undo.

use crate::histogram::{empty_histogram, HistogramView};
use crate::names::{Counter, Stage, COUNTERS, STAGES};
use crate::timing::{
    counted, drained, drained_stream, fresh_stream, is_live, live_counters, live_metrics, observed,
    registered, selected, snapshot_of, snapshots, stream_position, timing_counted, SnapshotView,
    StateView, StreamId, StreamView, TimingView, MAX_STREAMS,
};
use vstd::prelude::*;

verus! {

/// Snapshots list exactly the stages that have samples, each once and in declaration order.
pub proof fn live_metrics_are_exact(metrics: Seq<HistogramView>, n: int)
    requires
        0 <= n <= STAGES,
        metrics.len() == STAGES,
    ensures
        ({
            let live = live_metrics(metrics, n);
            &&& forall|k: int|
                #![trigger live[k]]
                0 <= k < live.len() ==> {
                    &&& live[k].0.position() < n
                    &&& live[k].1 == metrics[live[k].0.position() as int]
                    &&& live[k].1.count != 0
                }
            &&& forall|k: int, l: int|
                0 <= k < l < live.len() ==> (#[trigger] live[k]).0.position() < (
                #[trigger] live[l]).0.position()
            &&& forall|place: int|
                0 <= place < n && (#[trigger] metrics[place]).count != 0 ==> live.contains(
                    (Stage::nth(place), metrics[place]),
                )
        }),
    decreases n,
{
    if n > 0 {
        live_metrics_are_exact(metrics, n - 1);
        let before = live_metrics(metrics, n - 1);
        let live = live_metrics(metrics, n);
        crate::names::stage_order_is_total(Stage::nth(n - 1), Stage::nth(n - 1), (n - 1) as nat);
        assert forall|place: int| 0 <= place < n && (#[trigger] metrics[place]).count
            != 0 implies live.contains((Stage::nth(place), metrics[place])) by {
            if place < n - 1 {
                let entry = (Stage::nth(place), metrics[place]);
                let k = choose|k: int| 0 <= k < before.len() && before[k] == entry;
                assert(live[k] == entry);
            } else {
                assert(live.last() == (Stage::nth(n - 1), metrics[n - 1]));
            }
        }
    }
}

/// Snapshots list exactly the counters that are not zero, each once and in declaration order.
pub proof fn live_counters_are_exact(counters: Seq<u64>, n: int)
    requires
        0 <= n <= COUNTERS,
        counters.len() == COUNTERS,
    ensures
        ({
            let live = live_counters(counters, n);
            &&& forall|k: int|
                #![trigger live[k]]
                0 <= k < live.len() ==> {
                    &&& live[k].0.position() < n
                    &&& live[k].1 == counters[live[k].0.position() as int]
                    &&& live[k].1 != 0
                }
            &&& forall|k: int, l: int|
                0 <= k < l < live.len() ==> (#[trigger] live[k]).0.position() < (
                #[trigger] live[l]).0.position()
            &&& forall|place: int|
                0 <= place < n && #[trigger] counters[place] != 0 ==> live.contains(
                    (Counter::nth(place), counters[place]),
                )
        }),
    decreases n,
{
    if n > 0 {
        live_counters_are_exact(counters, n - 1);
        let before = live_counters(counters, n - 1);
        let live = live_counters(counters, n);
        crate::names::counter_order_is_total(
            Counter::nth(n - 1),
            Counter::nth(n - 1),
            (n - 1) as nat,
        );
        assert forall|place: int| 0 <= place < n && #[trigger] counters[place]
            != 0 implies live.contains((Counter::nth(place), counters[place])) by {
            if place < n - 1 {
                let entry = (Counter::nth(place), counters[place]);
                let k = choose|k: int| 0 <= k < before.len() && before[k] == entry;
                assert(live[k] == entry);
            } else {
                assert(live.last() == (Counter::nth(n - 1), counters[n - 1]));
            }
        }
    }
}

proof fn lemma_no_metrics(metrics: Seq<HistogramView>, n: int)
    requires
        forall|i: int| 0 <= i < n ==> (#[trigger] metrics[i]).count == 0,
    ensures
        live_metrics(metrics, n) == Seq::<(Stage, HistogramView)>::empty(),
    decreases n,
{
    if n > 0 {
        lemma_no_metrics(metrics, n - 1);
    }
}

proof fn lemma_no_counters(counters: Seq<u64>, n: int)
    requires
        forall|i: int| 0 <= i < n ==> #[trigger] counters[i] == 0,
    ensures
        live_counters(counters, n) == Seq::<(Counter, u64)>::empty(),
    decreases n,
{
    if n > 0 {
        lemma_no_counters(counters, n - 1);
    }
}

proof fn lemma_single_counter(counters: Seq<u64>, place: int, n: int)
    requires
        0 <= place < n,
        forall|i: int| 0 <= i < n ==> (#[trigger] counters[i] == 0 <==> i != place),
    ensures
        live_counters(counters, n) == seq![(Counter::nth(place), counters[place])],
    decreases n,
{
    if place == n - 1 {
        lemma_no_counters(counters, n - 1);
    } else {
        lemma_single_counter(counters, place, n - 1);
    }
    assert(live_counters(counters, n) =~= seq![(Counter::nth(place), counters[place])]);
}

/// A drained stream has nothing left to report.
pub proof fn drained_stream_is_silent(stream: StreamView)
    requires
        stream.metrics.len() == STAGES,
        stream.counters.len() == COUNTERS,
    ensures
        !is_live(drained_stream(stream)),
        drained_stream(stream).id == stream.id,
        drained_stream(stream).label == stream.label,
{
    lemma_no_metrics(drained_stream(stream).metrics, STAGES as int);
    lemma_no_counters(drained_stream(stream).counters, COUNTERS as int);
}

proof fn lemma_silent_streams(streams: Seq<StreamView>, n: int)
    requires
        forall|i: int| 0 <= i < n ==> !is_live(#[trigger] streams[i]),
    ensures
        snapshots(streams, n) == Seq::<SnapshotView>::empty(),
    decreases n,
{
    if n > 0 {
        lemma_silent_streams(streams, n - 1);
    }
}

/// A drain leaves every histogram as it is by default and every counter at zero, and keeps every
/// registration in its place with its label, and the active stream. Draining again reports nothing
/// and changes nothing.
pub proof fn second_drain_is_empty(s: StateView)
    requires
        s.wf(),
    ensures
        drained(s).wf(),
        drained(s).streams.len() == s.streams.len(),
        drained(s).current == s.current,
        forall|i: int|
            0 <= i < s.streams.len() ==> {
                &&& (#[trigger] drained(s).streams[i]).id == s.streams[i].id
                &&& drained(s).streams[i].label == s.streams[i].label
                &&& drained(s).streams[i].metrics.len() == STAGES
                &&& drained(s).streams[i].counters.len() == COUNTERS
            },
        forall|i: int, j: int|
            0 <= i < s.streams.len() && 0 <= j < STAGES ==> #[trigger] drained(
                s,
            ).streams[i].metrics[j] == empty_histogram(),
        forall|i: int, j: int|
            0 <= i < s.streams.len() && 0 <= j < COUNTERS ==> #[trigger] drained(
                s,
            ).streams[i].counters[j] == 0,
        snapshots(drained(s).streams, drained(s).streams.len() as int) == Seq::<
            SnapshotView,
        >::empty(),
        drained(drained(s)) == drained(s),
{
    assert forall|i: int| 0 <= i < s.streams.len() implies !is_live(
        #[trigger] drained(s).streams[i],
    ) by {
        drained_stream_is_silent(s.streams[i]);
    }
    lemma_silent_streams(drained(s).streams, s.streams.len() as int);
    assert forall|i: int| 0 <= i < s.streams.len() implies (#[trigger] drained(
        drained(s),
    ).streams[i]) == drained(s).streams[i] by {
        assert(drained_stream(drained_stream(s.streams[i])).metrics =~= drained_stream(
            s.streams[i],
        ).metrics);
        assert(drained_stream(drained_stream(s.streams[i])).counters =~= drained_stream(
            s.streams[i],
        ).counters);
    }
    assert(drained(drained(s)).streams =~= drained(s).streams);
}

/// A stream just registered reports one registration and no samples, whatever it held before.
pub proof fn registration_reports_itself_only(id: StreamId, label: Seq<char>)
    ensures
        snapshot_of(fresh_stream(id, label)) == (SnapshotView {
            id,
            label,
            metrics: seq![],
            counters: seq![(Counter::StreamRegistrations, 1u64)],
        }),
{
    let stream = fresh_stream(id, label);
    lemma_no_metrics(stream.metrics, STAGES as int);
    lemma_single_counter(
        stream.counters,
        Counter::StreamRegistrations.position() as int,
        COUNTERS as int,
    );
}

proof fn lemma_known_position(streams: Seq<StreamView>, id: StreamId, from: int, i: int)
    requires
        0 <= from <= i < streams.len(),
        streams[i].id == id,
        forall|j: int| from <= j < i ==> (#[trigger] streams[j]).id != id,
    ensures
        stream_position(streams, id, from) == i,
    decreases i - from,
{
    if from < i {
        assert(streams[from].id != id);
        lemma_known_position(streams, id, from + 1, i);
    }
}

proof fn lemma_unknown_position(streams: Seq<StreamView>, id: StreamId, from: int)
    requires
        0 <= from <= streams.len(),
        forall|j: int| from <= j < streams.len() ==> (#[trigger] streams[j]).id != id,
    ensures
        stream_position(streams, id, from) == streams.len(),
    decreases streams.len() - from,
{
    if from < streams.len() {
        lemma_unknown_position(streams, id, from + 1);
    }
}

/// Registering a known stream starts that stream over and touches no other.
pub proof fn reregistration_resets_one_stream(s: StateView, i: int, label: Seq<char>)
    requires
        s.wf(),
        0 <= i < s.streams.len(),
    ensures
        registered(s, s.streams[i].id, label).streams == s.streams.update(
            i,
            fresh_stream(s.streams[i].id, label),
        ),
        registered(s, s.streams[i].id, label).current == s.current,
{
    lemma_known_position(s.streams, s.streams[i].id, 0, i);
}

/// Registration is bounded: a new stream joins behind the others while there is room, and is
/// ignored afterwards. A stream that joined can be entered.
pub proof fn registration_is_bounded(s: StateView, id: StreamId, label: Seq<char>)
    requires
        s.wf(),
        forall|i: int| 0 <= i < s.streams.len() ==> (#[trigger] s.streams[i]).id != id,
    ensures
        registered(s, id, label).streams.len() <= MAX_STREAMS,
        s.streams.len() == MAX_STREAMS ==> registered(s, id, label) == s,
        s.streams.len() == MAX_STREAMS ==> selected(
            registered(s, id, label),
            id,
        ).current is None,
        s.streams.len() < MAX_STREAMS ==> {
            &&& registered(s, id, label).streams == s.streams.push(fresh_stream(id, label))
            &&& selected(registered(s, id, label), id).current == Some(s.streams.len() as usize)
        },
{
    lemma_unknown_position(s.streams, id, 0);
    if s.streams.len() < MAX_STREAMS {
        let after = registered(s, id, label);
        lemma_known_position(after.streams, id, 0, s.streams.len() as int);
    }
}

/// Leaving a scope restores the stream that was active before it.
pub proof fn leaving_a_scope_restores_the_previous_stream(s: StateView, id: StreamId)
    ensures
        (StateView { current: s.current, ..selected(s, id) }) == s,
{
}

/// Inside a scope of an unknown stream nothing is counted, timed or observed.
pub proof fn unknown_scope_is_inactive(t: TimingView, id: StreamId, counter: Counter, value: u64)
    requires
        forall|i: int| 0 <= i < t.state.streams.len() ==> (#[trigger] t.state.streams[i]).id != id,
    ensures
        ({
            let inside = TimingView { state: selected(t.state, id), ..t };
            &&& inside.state.current is None
            &&& timing_counted(inside, counter, value) == inside
        }),
{
    lemma_unknown_position(t.state.streams, id, 0);
}

/// A clock records to the stream of its creation: entering another stream before it stops makes
/// no difference to what is recorded, nor to which stream is active.
pub proof fn timers_keep_their_stream(
    s: StateView,
    i: int,
    stage: Stage,
    ns: u64,
    id: StreamId,
)
    requires
        s.wf(),
    ensures
        observed(selected(s, id), i, stage, ns) == selected(observed(s, i, stage, ns), id),
{
    lemma_same_positions(s.streams, observed(s, i, stage, ns).streams, id, 0);
}

proof fn lemma_same_positions(a: Seq<StreamView>, b: Seq<StreamView>, id: StreamId, from: int)
    requires
        0 <= from <= a.len(),
        a.len() == b.len(),
        forall|i: int| 0 <= i < a.len() ==> (#[trigger] a[i]).id == (#[trigger] b[i]).id,
    ensures
        stream_position(a, id, from) == stream_position(b, id, from),
    decreases a.len() - from,
{
    if from < a.len() {
        assert(a[from].id == b[from].id);
        lemma_same_positions(a, b, id, from + 1);
    }
}

/// Recording touches one stream: the others, and every identity and label, stay as they are.
pub proof fn recording_touches_one_stream(
    s: StateView,
    i: int,
    stage: Stage,
    ns: u64,
    counter: Counter,
    value: u64,
)
    requires
        s.wf(),
        0 <= i < s.streams.len(),
    ensures
        observed(s, i, stage, ns).wf(),
        counted(s, i, counter, value).wf(),
        forall|j: int|
            0 <= j < s.streams.len() && j != i ==> #[trigger] observed(s, i, stage, ns).streams[j]
                == s.streams[j],
        forall|j: int|
            0 <= j < s.streams.len() && j != i ==> #[trigger] counted(
                s,
                i,
                counter,
                value,
            ).streams[j] == s.streams[j],
        observed(s, i, stage, ns).streams[i].counters == s.streams[i].counters,
        counted(s, i, counter, value).streams[i].metrics == s.streams[i].metrics,
{
    assert forall|k: int, l: int|
        0 <= k < l < s.streams.len() implies s.streams[k].id != s.streams[l].id by {}
    let a = observed(s, i, stage, ns);
    let b = counted(s, i, counter, value);
    assert forall|k: int| 0 <= k < s.streams.len() implies (#[trigger] a.streams[k]).id
        == s.streams[k].id && a.streams[k].metrics.len() == STAGES by {
        assert(s.streams[k].metrics.len() == STAGES);
    }
    assert forall|k: int| 0 <= k < s.streams.len() implies (#[trigger] b.streams[k]).id
        == s.streams[k].id && b.streams[k].counters.len() == COUNTERS by {
        assert(s.streams[k].counters.len() == COUNTERS);
    }
}

} // verus!
