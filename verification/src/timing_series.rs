//! What a series of recordings leaves behind, and what a drain reports of it.

use crate::histogram::{empty_histogram, recorded};
use crate::histogram_laws::histogram_of;
use crate::names::{Counter, Stage, COUNTERS, STAGES};
use crate::timing::{
    counted, drained, is_live, live_counters, live_metrics, observed, registered, selected,
    snapshot_of, snapshots, stream_position, timing_counted, StateView, StreamId, StreamView,
    TimingView,
};
use crate::timing_laws::{live_counters_are_exact, live_metrics_are_exact};
use vstd::prelude::*;

verus! {

/// One recording to a stream.
pub enum Entry {
    /// A duration of a stage.
    Span { stream: usize, stage: Stage, ns: u64 },
    /// Events of a counter.
    Events { stream: usize, counter: Counter, value: u64 },
}

/// The state after a series of recordings.
pub open spec fn series(s: StateView, entries: Seq<Entry>) -> StateView
    decreases entries.len(),
{
    if entries.len() == 0 {
        s
    } else {
        let before = series(s, entries.drop_last());
        match entries.last() {
            Entry::Span { stream, stage, ns } => observed(before, stream as int, stage, ns),
            Entry::Events { stream, counter, value } => counted(
                before,
                stream as int,
                counter,
                value,
            ),
        }
    }
}

/// The durations of a series that were recorded to a stage of stream `i`, in order.
pub open spec fn spans_of(entries: Seq<Entry>, i: int, stage: Stage) -> Seq<u64>
    decreases entries.len(),
{
    if entries.len() == 0 {
        seq![]
    } else {
        let before = spans_of(entries.drop_last(), i, stage);
        match entries.last() {
            Entry::Span { stream, stage: of, ns } if stream == i && of == stage => before.push(ns),
            _ => before,
        }
    }
}

/// The number of events of a series that were counted by a counter of stream `i`.
pub open spec fn events_of(entries: Seq<Entry>, i: int, counter: Counter) -> nat
    decreases entries.len(),
{
    if entries.len() == 0 {
        0
    } else {
        let before = events_of(entries.drop_last(), i, counter);
        match entries.last() {
            Entry::Events { stream, counter: of, value } if stream == i && of == counter => before
                + value as nat,
            _ => before,
        }
    }
}

/// Recording a duration adds that one sample to that stage of that stream. No other stage, no
/// counter, no other stream and no registration changes.
pub proof fn an_observation_adds_one_sample(
    s: StateView,
    i: int,
    stage: Stage,
    ns: u64,
    samples: Seq<u64>,
)
    requires
        s.wf(),
        0 <= i < s.streams.len(),
        s.streams[i].metrics[stage.position() as int] == histogram_of(samples),
    ensures
        ({
            let after = observed(s, i, stage, ns);
            &&& after.current == s.current
            &&& after.streams.len() == s.streams.len()
            &&& after.streams[i].metrics[stage.position() as int] == histogram_of(samples.push(ns))
            &&& after.streams[i].metrics.len() == STAGES
            &&& forall|place: int|
                0 <= place < STAGES && place != stage.position()
                    ==> #[trigger] after.streams[i].metrics[place] == s.streams[i].metrics[place]
            &&& after.streams[i].counters == s.streams[i].counters
            &&& after.streams[i].id == s.streams[i].id
            &&& after.streams[i].label == s.streams[i].label
            &&& forall|j: int|
                0 <= j < s.streams.len() && j != i ==> #[trigger] after.streams[j] == s.streams[j]
        }),
{
    assert(s.streams[i].metrics.len() == STAGES);
    assert(samples.push(ns).drop_last() =~= samples);
}

/// Counting adds the events, up to `u64::MAX`, to that counter of that stream. No other counter,
/// no histogram, no other stream and no registration changes.
pub proof fn a_count_adds_its_events(s: StateView, i: int, counter: Counter, value: u64)
    requires
        s.wf(),
        0 <= i < s.streams.len(),
    ensures
        ({
            let after = counted(s, i, counter, value);
            let was = s.streams[i].counters[counter.position() as int];
            let is = after.streams[i].counters[counter.position() as int];
            &&& after.current == s.current
            &&& after.streams.len() == s.streams.len()
            &&& was + value <= u64::MAX ==> is == was + value
            &&& was + value > u64::MAX ==> is == u64::MAX
            &&& after.streams[i].counters.len() == COUNTERS
            &&& forall|place: int|
                0 <= place < COUNTERS && place != counter.position()
                    ==> #[trigger] after.streams[i].counters[place] == s.streams[i].counters[place]
            &&& after.streams[i].metrics == s.streams[i].metrics
            &&& after.streams[i].id == s.streams[i].id
            &&& after.streams[i].label == s.streams[i].label
            &&& forall|j: int|
                0 <= j < s.streams.len() && j != i ==> #[trigger] after.streams[j] == s.streams[j]
        }),
{
    assert(s.streams[i].counters.len() == COUNTERS);
}

/// Nothing is recorded to a stream that is not registered.
pub proof fn unregistered_streams_take_nothing(
    s: StateView,
    i: int,
    stage: Stage,
    ns: u64,
    counter: Counter,
    value: u64,
)
    requires
        i < 0 || i >= s.streams.len(),
    ensures
        observed(s, i, stage, ns) == s,
        counted(s, i, counter, value) == s,
{
}

/// The recorder counts only while it is on and a stream is active, and then to that stream.
pub proof fn counting_needs_an_active_stream(t: TimingView, counter: Counter, value: u64)
    requires
        t.state.wf(),
    ensures
        !t.enabled || t.state.current is None ==> timing_counted(t, counter, value) == t,
        t.enabled && t.state.current is Some ==> {
            let i = t.state.current->0 as int;
            let was = t.state.streams[i].counters[counter.position() as int];
            let after = timing_counted(t, counter, value);
            &&& after.enabled
            &&& after.state.current == t.state.current
            &&& after.state.streams[i].counters[counter.position() as int] == if was + value
                <= u64::MAX {
                was + value
            } else {
                u64::MAX as int
            }
        },
{
    if t.state.current is Some {
        a_count_adds_its_events(t.state, t.state.current->0 as int, counter, value);
    }
}

proof fn lemma_position_found(streams: Seq<StreamView>, id: StreamId, from: int)
    requires
        0 <= from <= streams.len(),
    ensures
        from <= stream_position(streams, id, from) <= streams.len(),
        stream_position(streams, id, from) < streams.len() ==> streams[stream_position(
            streams,
            id,
            from,
        )].id == id,
        forall|j: int|
            from <= j < stream_position(streams, id, from) ==> (#[trigger] streams[j]).id != id,
    decreases streams.len() - from,
{
    if from < streams.len() && streams[from].id != id {
        lemma_position_found(streams, id, from + 1);
    }
}

/// Entering a stream makes the one stream with that identity active, or none if there is none; it
/// changes no stream.
pub proof fn entering_activates_the_stream_of_that_identity(s: StateView, id: StreamId)
    requires
        s.wf(),
    ensures
        selected(s, id).streams == s.streams,
        forall|i: int|
            0 <= i < s.streams.len() && (#[trigger] s.streams[i]).id == id ==> selected(
                s,
                id,
            ).current == Some(i as usize),
        selected(s, id).current matches Some(i) ==> i < s.streams.len() && s.streams[i as int].id
            == id,
{
    lemma_position_found(s.streams, id, 0);
    let found = stream_position(s.streams, id, 0);
    assert forall|i: int| 0 <= i < s.streams.len() && (#[trigger] s.streams[i]).id
        == id implies selected(s, id).current == Some(i as usize) by {
        if i > found {
            assert(s.streams[found].id != s.streams[i].id);
        }
    }
}

/// A registered stream is the only one of its identity. It has the given label, no samples, one
/// registration and no other event. The other streams and the active one stay.
pub proof fn registration_starts_one_stream(s: StateView, id: StreamId, label: Seq<char>)
    requires
        s.wf(),
    ensures
        ({
            let after = registered(s, id, label);
            &&& after.current == s.current
            &&& s.streams.len() <= after.streams.len() <= s.streams.len() + 1
            &&& after.streams.len() <= 16
            &&& forall|i: int|
                0 <= i < s.streams.len() ==> (#[trigger] after.streams[i]).id == s.streams[i].id
            &&& forall|i: int|
                0 <= i < s.streams.len() && s.streams[i].id != id ==> #[trigger] after.streams[i]
                    == s.streams[i]
            &&& forall|i: int|
                0 <= i < after.streams.len() && (#[trigger] after.streams[i]).id == id
                    ==> started(after.streams[i], label)
            &&& s.streams.len() < 16 ==> exists|i: int|
                0 <= i < after.streams.len() && (#[trigger] after.streams[i]).id == id
            &&& after.streams.len() > s.streams.len() ==> {
                &&& after.streams.last().id == id
                &&& forall|i: int| 0 <= i < s.streams.len() ==> (#[trigger] s.streams[i]).id != id
            }
        }),
{
    lemma_position_found(s.streams, id, 0);
    let found = stream_position(s.streams, id, 0);
    let after = registered(s, id, label);
    if s.streams.len() < 16 {
        assert(after.streams[found].id == id);
    }
    assert forall|i: int| 0 <= i < after.streams.len() && (#[trigger] after.streams[i]).id
        == id implies started(after.streams[i], label) by {
        if i < found {
            assert(s.streams[i].id != id);
        } else if i > found {
            assert(s.streams[found].id != s.streams[i].id);
        }
    }
}

/// A stream with that label, without samples, that was registered once.
pub open spec fn started(stream: StreamView, label: Seq<char>) -> bool {
    &&& stream.label == label
    &&& stream.metrics.len() == 50
    &&& stream.counters.len() == 34
    &&& forall|place: int|
        0 <= place < 50 ==> #[trigger] stream.metrics[place] == histogram_of(Seq::<u64>::empty())
    &&& forall|place: int|
        0 <= place < 34 ==> #[trigger] stream.counters[place] == if place
            == Counter::StreamRegistrations.position() {
            1int
        } else {
            0int
        }
}

proof fn lemma_series_wf(s: StateView, entries: Seq<Entry>)
    requires
        s.wf(),
    ensures
        series(s, entries).wf(),
        series(s, entries).current == s.current,
        series(s, entries).streams.len() == s.streams.len(),
        forall|i: int|
            0 <= i < s.streams.len() ==> (#[trigger] series(s, entries).streams[i]).id
                == s.streams[i].id && series(s, entries).streams[i].label == s.streams[i].label,
    decreases entries.len(),
{
    if entries.len() > 0 {
        lemma_series_wf(s, entries.drop_last());
        let before = series(s, entries.drop_last());
        match entries.last() {
            Entry::Span { stream, stage, ns } => {
                if stream < before.streams.len() {
                    crate::timing_laws::recording_touches_one_stream(
                        before,
                        stream as int,
                        stage,
                        ns,
                        Counter::StreamRegistrations,
                        0,
                    );
                }
            },
            Entry::Events { stream, counter, value } => {
                if stream < before.streams.len() {
                    crate::timing_laws::recording_touches_one_stream(
                        before,
                        stream as int,
                        Stage::nth(0),
                        0,
                        counter,
                        value,
                    );
                }
            },
        }
    }
}

/// A series of recordings, in whatever order, adds to every stage of every stream the samples
/// recorded to it, and to every counter its events.
pub proof fn a_series_adds_its_samples(
    s: StateView,
    entries: Seq<Entry>,
    i: int,
    stage: Stage,
    counter: Counter,
    samples: Seq<u64>,
)
    requires
        s.wf(),
        0 <= i < s.streams.len(),
        s.streams[i].metrics[stage.position() as int] == histogram_of(samples),
    ensures
        series(s, entries).streams[i].metrics[stage.position() as int] == histogram_of(
            samples + spans_of(entries, i, stage),
        ),
        series(s, entries).streams[i].counters[counter.position() as int] == {
            let sum = s.streams[i].counters[counter.position() as int] + events_of(
                entries,
                i,
                counter,
            );
            if sum <= u64::MAX {
                sum
            } else {
                u64::MAX as int
            }
        },
    decreases entries.len(),
{
    if entries.len() == 0 {
        assert(samples + spans_of(entries, i, stage) =~= samples);
    } else {
        let shorter = entries.drop_last();
        a_series_adds_its_samples(s, shorter, i, stage, counter, samples);
        lemma_series_wf(s, shorter);
        let before = series(s, shorter);
        let so_far = samples + spans_of(shorter, i, stage);
        assert(before.streams[i].metrics.len() == STAGES);
        assert(before.streams[i].counters.len() == COUNTERS);
        match entries.last() {
            Entry::Span { stream, stage: of, ns } => {
                crate::names::stage_order_is_total(of, stage, of.position());
                if stream == i && of == stage {
                    an_observation_adds_one_sample(before, i, stage, ns, so_far);
                    assert(samples + spans_of(entries, i, stage) =~= so_far.push(ns));
                }
            },
            Entry::Events { stream, counter: of, value } => {
                crate::names::counter_order_is_total(of, counter, of.position());
                if stream == i && of == counter {
                    a_count_adds_its_events(before, i, counter, value);
                }
            },
        }
    }
}

proof fn lemma_sampled(samples: Seq<u64>)
    ensures
        histogram_of(samples).count == 0 <==> samples.len() == 0,
{
}

proof fn lemma_snapshot_listed(streams: Seq<StreamView>, i: int, n: int)
    requires
        0 <= i < n <= streams.len(),
        is_live(streams[i]),
    ensures
        snapshots(streams, n).contains(snapshot_of(streams[i])),
    decreases n,
{
    if i < n - 1 {
        lemma_snapshot_listed(streams, i, n - 1);
        let before = snapshots(streams, n - 1);
        let k = choose|k: int| 0 <= k < before.len() && before[k] == snapshot_of(streams[i]);
        assert(snapshots(streams, n)[k] == snapshot_of(streams[i]));
    } else {
        assert(snapshots(streams, n).last() == snapshot_of(streams[i]));
    }
}

/// A drain reports streams in registration order, each under its own identity and label, and
/// reports a stream only if it has a sample or a count.
pub proof fn drains_report_registered_streams(streams: Seq<StreamView>, n: int, k: int)
    requires
        0 <= n <= streams.len(),
        0 <= k < snapshots(streams, n).len(),
    ensures
        exists|i: int|
            0 <= i < n && k <= i && {
                let snapshot = snapshots(streams, n)[k];
                &&& snapshot.id == (#[trigger] streams[i]).id
                &&& snapshot.label == streams[i].label
                &&& snapshot.metrics == live_metrics(streams[i].metrics, 50)
                &&& snapshot.counters == live_counters(streams[i].counters, 34)
                &&& snapshot.metrics.len() + snapshot.counters.len() > 0
            },
    decreases n,
{
    if k < snapshots(streams, n - 1).len() {
        drains_report_registered_streams(streams, n - 1, k);
        let i = choose|i: int|
            0 <= i < n - 1 && k <= i && {
                let snapshot = snapshots(streams, n - 1)[k];
                &&& snapshot.id == (#[trigger] streams[i]).id
                &&& snapshot.label == streams[i].label
                &&& snapshot.metrics == live_metrics(streams[i].metrics, 50)
                &&& snapshot.counters == live_counters(streams[i].counters, 34)
                &&& snapshot.metrics.len() + snapshot.counters.len() > 0
            };
        assert(snapshots(streams, n)[k] == snapshots(streams, n - 1)[k]);
        assert(streams[i].id == snapshots(streams, n)[k].id);
    } else {
        assert(snapshots(streams, n)[k] == snapshot_of(streams[n - 1]));
        lemma_fewer_snapshots(streams, n - 1);
        assert(streams[n - 1].id == snapshots(streams, n)[k].id);
    }
}

proof fn lemma_fewer_snapshots(streams: Seq<StreamView>, n: int)
    requires
        0 <= n <= streams.len(),
    ensures
        snapshots(streams, n).len() <= n,
    decreases n,
{
    if n > 0 {
        lemma_fewer_snapshots(streams, n - 1);
    }
}

/// A snapshot lists a stage exactly if samples were recorded to it, with the histogram of exactly
/// those samples, and a counter exactly if events were counted, with their number.
pub proof fn snapshots_hold_what_was_recorded(
    stream: StreamView,
    stage: Stage,
    counter: Counter,
    samples: Seq<u64>,
)
    requires
        stream.metrics.len() == STAGES,
        stream.counters.len() == COUNTERS,
        stream.metrics[stage.position() as int] == histogram_of(samples),
    ensures
        ({
            let snapshot = snapshot_of(stream);
            let value = stream.counters[counter.position() as int];
            &&& samples.len() > 0 ==> snapshot.metrics.contains((stage, histogram_of(samples)))
            &&& samples.len() == 0 ==> forall|k: int|
                0 <= k < snapshot.metrics.len() ==> (#[trigger] snapshot.metrics[k]).0 != stage
            &&& forall|k: int|
                0 <= k < snapshot.metrics.len() && (#[trigger] snapshot.metrics[k]).0 == stage
                    ==> snapshot.metrics[k].1 == histogram_of(samples)
            &&& value > 0 ==> snapshot.counters.contains((counter, value))
            &&& forall|k: int|
                0 <= k < snapshot.counters.len() && (#[trigger] snapshot.counters[k]).0 == counter
                    ==> snapshot.counters[k].1 == value && value > 0
        }),
{
    live_metrics_are_exact(stream.metrics, STAGES as int);
    live_counters_are_exact(stream.counters, COUNTERS as int);
    crate::names::stage_order_is_total(stage, stage, stage.position());
    crate::names::counter_order_is_total(counter, counter, counter.position());
    lemma_sampled(samples);
    if samples.len() > 0 {
        assert(stream.metrics[stage.position() as int].count != 0);
    }
    let value = stream.counters[counter.position() as int];
    assert(value != 0 ==> snapshot_of(stream).counters.contains((counter, value)));
}

/// A drain reports, of every stream, the samples and events recorded since the last drain and
/// nothing else: a stage with the histogram of exactly its samples, a counter with the number of
/// its events up to `u64::MAX`.
pub proof fn drains_report_what_was_recorded_since_the_last(
    s: StateView,
    entries: Seq<Entry>,
    i: int,
    stage: Stage,
    counter: Counter,
)
    requires
        s.wf(),
        0 <= i < s.streams.len(),
    ensures
        ({
            let streams = series(drained(s), entries).streams;
            let report = snapshots(streams, streams.len() as int);
            let spans = spans_of(entries, i, stage);
            let events = events_of(entries, i, counter);
            let value = if events <= u64::MAX {
                events as u64
            } else {
                u64::MAX
            };
            &&& spans.len() > 0 ==> exists|k: int|
                0 <= k < report.len() && (#[trigger] report[k]).id == s.streams[i].id
                    && report[k].label == s.streams[i].label && report[k].metrics.contains(
                    (stage, histogram_of(spans)),
                )
            &&& events > 0 ==> exists|k: int|
                0 <= k < report.len() && (#[trigger] report[k]).id == s.streams[i].id
                    && report[k].label == s.streams[i].label && report[k].counters.contains(
                    (counter, value),
                )
            &&& streams[i].metrics[stage.position() as int] == histogram_of(spans)
            &&& streams[i].counters[counter.position() as int] == value
        }),
{
    crate::timing_laws::second_drain_is_empty(s);
    let start = drained(s);
    let streams = series(start, entries).streams;
    let report = snapshots(streams, streams.len() as int);
    let spans = spans_of(entries, i, stage);
    let events = events_of(entries, i, counter);
    crate::names::stage_order_is_total(stage, stage, stage.position());
    crate::names::counter_order_is_total(counter, counter, counter.position());
    assert(start.streams[i].metrics[stage.position() as int] == empty_histogram());
    assert(start.streams[i].counters[counter.position() as int] == 0);
    a_series_adds_its_samples(start, entries, i, stage, counter, seq![]);
    assert(Seq::<u64>::empty() + spans =~= spans);
    lemma_series_wf(start, entries);
    assert(streams[i].metrics.len() == STAGES);
    assert(streams[i].counters.len() == COUNTERS);
    snapshots_hold_what_was_recorded(streams[i], stage, counter, spans);
    if spans.len() > 0 || events > 0 {
        lemma_snapshot_listed(streams, i, streams.len() as int);
        let k = choose|k: int| 0 <= k < report.len() && report[k] == snapshot_of(streams[i]);
        assert(report[k].id == s.streams[i].id);
    }
}

} // verus!
