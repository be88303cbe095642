//! Whole runs of the download machine. A trace state bundles the machine
//! with the shared cell it publishes to, seen at the spec level; the lemmas
//! here state what holds of every run: a stream whose chunks sum to the
//! declared total ends with the fraction exactly one, the published fraction
//! never decreases and never leaves the unit interval, the title flips
//! exactly once and only on success, and both terminal states absorb every
//! later event.

use vstd::prelude::*;
use crate::downloader::{
    DownloadAction, DownloadError, DownloadEvent, DownloadState, action_spec, declared_total,
    sat_add, step_progress, step_state, step_title,
};
use crate::progress::{Progress, completed_title, in_unit_interval, initial_title, ratio_den, ratio_num};

verus! {

/// One spec-level snapshot: the machine together with the byte counts and
/// title it has published.
pub struct TraceState {
    pub machine: DownloadState,
    pub progress: Progress,
    pub title: Seq<char>,
}

/// The snapshot at startup: machine about to request, nothing published.
pub open spec fn initial_trace() -> TraceState {
    TraceState {
        machine: DownloadState::Requesting,
        progress: Progress { downloaded: 0, total: 0 },
        title: initial_title(),
    }
}

/// One step of machine and shared cell together, as `DownloadState::step`
/// performs it.
pub open spec fn trace_step(t: TraceState, e: DownloadEvent) -> TraceState {
    TraceState {
        machine: step_state(t.machine, e),
        progress: step_progress(t.machine, e, t.progress),
        title: step_title(t.machine, e, t.title),
    }
}

/// A whole run: the events applied in order.
pub open spec fn run(t: TraceState, events: Seq<DownloadEvent>) -> TraceState
    decreases events.len(),
{
    if events.len() == 0 {
        t
    } else {
        run(trace_step(t, events[0]), events.skip(1))
    }
}

/// Running a concatenation is running the parts in order.
pub proof fn lemma_run_append(t: TraceState, a: Seq<DownloadEvent>, b: Seq<DownloadEvent>)
    ensures
        run(t, a + b) == run(run(t, a), b),
    decreases a.len(),
{
    if a.len() == 0 {
        assert(a + b =~= b);
    } else {
        assert((a + b)[0] == a[0]);
        assert((a + b).skip(1) =~= a.skip(1) + b);
        lemma_run_append(trace_step(t, a[0]), a.skip(1), b);
    }
}

/// The sum of a sequence of chunk sizes.
pub open spec fn sum_of(chunks: Seq<u64>) -> int
    decreases chunks.len(),
{
    if chunks.len() == 0 {
        0
    } else {
        chunks[0] + sum_of(chunks.skip(1))
    }
}

/// Chunk sizes are non-negative, so their sum is too.
pub proof fn lemma_sum_nonneg(chunks: Seq<u64>)
    ensures
        sum_of(chunks) >= 0,
    decreases chunks.len(),
{
    if chunks.len() > 0 {
        lemma_sum_nonneg(chunks.skip(1));
    }
}

/// A sum splits at any point into the sum of the prefix and of the rest.
pub proof fn lemma_sum_split(chunks: Seq<u64>, k: int)
    requires
        0 <= k <= chunks.len(),
    ensures
        sum_of(chunks) == sum_of(chunks.take(k)) + sum_of(chunks.skip(k)),
    decreases k,
{
    if k == 0 {
        assert(chunks.take(0) =~= Seq::<u64>::empty());
        assert(chunks.skip(0) =~= chunks);
    } else {
        assert(chunks.take(k)[0] == chunks[0]);
        assert(chunks.take(k).skip(1) =~= chunks.skip(1).take(k - 1));
        lemma_sum_split(chunks.skip(1), k - 1);
        assert(chunks.skip(1).skip(k - 1) =~= chunks.skip(k));
    }
}

/// The two events a delivered chunk contributes to a run: its arrival and
/// the completed write.
pub open spec fn chunk_events(chunks: Seq<u64>) -> Seq<DownloadEvent>
    decreases chunks.len(),
{
    if chunks.len() == 0 {
        Seq::<DownloadEvent>::empty()
    } else {
        seq![
            DownloadEvent::ChunkReceived { len: chunks[0] },
            DownloadEvent::ChunkWritten,
        ] + chunk_events(chunks.skip(1))
    }
}

/// Streaming chunks whose sum keeps the byte counter within the declared
/// total leaves the machine reading with the counter advanced by exactly
/// that sum, publishes the final counts (or touches nothing when there was
/// no chunk), and never touches the title.
pub proof fn lemma_chunk_run(
    total: u64,
    downloaded: u64,
    p: Progress,
    title: Seq<char>,
    chunks: Seq<u64>,
)
    requires
        downloaded + sum_of(chunks) <= u64::MAX,
    ensures
        ({
            let t0 = TraceState {
                machine: DownloadState::Reading { total, downloaded },
                progress: p,
                title,
            };
            let end = run(t0, chunk_events(chunks));
            &&& end.machine == (DownloadState::Reading {
                total,
                downloaded: (downloaded + sum_of(chunks)) as u64,
            })
            &&& end.title == title
            &&& end.progress == (if chunks.len() == 0 {
                p
            } else {
                Progress { downloaded: (downloaded + sum_of(chunks)) as u64, total }
            })
        }),
    decreases chunks.len(),
{
    let t0 = TraceState {
        machine: DownloadState::Reading { total, downloaded },
        progress: p,
        title,
    };
    if chunks.len() > 0 {
        lemma_sum_nonneg(chunks.skip(1));
        let two = seq![
            DownloadEvent::ChunkReceived { len: chunks[0] },
            DownloadEvent::ChunkWritten,
        ];
        lemma_run_append(t0, two, chunk_events(chunks.skip(1)));
        let after_receive = trace_step(t0, two[0]);
        let after_write = trace_step(after_receive, two[1]);
        assert(two[0] == (DownloadEvent::ChunkReceived { len: chunks[0] }));
        assert(two.skip(1) =~= seq![DownloadEvent::ChunkWritten]);
        assert(run(t0, two) == run(after_receive, seq![DownloadEvent::ChunkWritten]));
        assert(seq![DownloadEvent::ChunkWritten][0] == DownloadEvent::ChunkWritten);
        assert(seq![DownloadEvent::ChunkWritten].skip(1) =~= Seq::<DownloadEvent>::empty());
        assert(run(after_receive, seq![DownloadEvent::ChunkWritten]) == run(
            after_write,
            Seq::<DownloadEvent>::empty(),
        ));
        assert(run(t0, two) == after_write);
        let new_downloaded = sat_add(downloaded, chunks[0]);
        assert(new_downloaded == downloaded + chunks[0]);
        lemma_chunk_run(
            total,
            new_downloaded,
            Progress { downloaded: new_downloaded, total },
            title,
            chunks.skip(1),
        );
    }
}

/// Running a single event is one step.
pub proof fn lemma_run_one(t: TraceState, e: DownloadEvent)
    ensures
        run(t, seq![e]) == trace_step(t, e),
{
    assert(seq![e][0] == e);
    assert(seq![e].skip(1) =~= Seq::<DownloadEvent>::empty());
    assert(run(trace_step(t, e), Seq::<DownloadEvent>::empty()) == trace_step(t, e));
}

/// Running two events is two steps.
pub proof fn lemma_run_two(t: TraceState, e1: DownloadEvent, e2: DownloadEvent)
    ensures
        run(t, seq![e1, e2]) == trace_step(trace_step(t, e1), e2),
{
    assert(seq![e1, e2][0] == e1);
    assert(seq![e1, e2].skip(1) =~= seq![e2]);
    lemma_run_one(trace_step(t, e1), e2);
}

/// Running three events is three steps.
pub proof fn lemma_run_three(t: TraceState, e1: DownloadEvent, e2: DownloadEvent, e3: DownloadEvent)
    ensures
        run(t, seq![e1, e2, e3]) == trace_step(trace_step(trace_step(t, e1), e2), e3),
{
    assert(seq![e1, e2, e3][0] == e1);
    assert(seq![e1, e2, e3].skip(1) =~= seq![e2, e3]);
    lemma_run_two(trace_step(t, e1), e2, e3);
}

/// The prefix sums of a chunk stream never decrease.
pub proof fn lemma_prefix_sums_monotone(chunks: Seq<u64>, i: int, j: int)
    requires
        0 <= i <= j <= chunks.len(),
    ensures
        sum_of(chunks.take(i)) <= sum_of(chunks.take(j)),
        sum_of(chunks.take(j)) <= sum_of(chunks),
{
    lemma_sum_split(chunks, j);
    lemma_sum_nonneg(chunks.skip(j));
    lemma_sum_split(chunks.take(j), i);
    lemma_sum_nonneg(chunks.take(j).skip(i));
    assert(chunks.take(j).take(i) =~= chunks.take(i));
}

/// The events of a run that requests, opens the file, and then streams the
/// given chunks.
pub open spec fn partial_download_events(
    content_length: Option<u64>,
    chunks: Seq<u64>,
) -> Seq<DownloadEvent> {
    seq![DownloadEvent::ResponseOk { content_length }, DownloadEvent::FileOpened]
        + chunk_events(chunks)
}

/// The events of a run that goes all the way: request, open, every chunk,
/// end of stream, flush, sync.
pub open spec fn successful_run_events(
    content_length: Option<u64>,
    chunks: Seq<u64>,
) -> Seq<DownloadEvent> {
    partial_download_events(content_length, chunks)
        + seq![DownloadEvent::StreamEnded, DownloadEvent::Flushed, DownloadEvent::Synced]
}

/// After requesting and opening the file, the machine reads from byte zero
/// with the declared total, and nothing has been published yet.
pub proof fn lemma_open_prefix(content_length: Option<u64>, chunks: Seq<u64>)
    ensures
        run(initial_trace(), partial_download_events(content_length, chunks)) == run(
            TraceState {
                machine: DownloadState::Reading {
                    total: declared_total(content_length),
                    downloaded: 0,
                },
                progress: Progress { downloaded: 0, total: 0 },
                title: initial_title(),
            },
            chunk_events(chunks),
        ),
{
    let prefix = seq![
        DownloadEvent::ResponseOk { content_length },
        DownloadEvent::FileOpened,
    ];
    lemma_run_append(initial_trace(), prefix, chunk_events(chunks));
    lemma_run_two(
        initial_trace(),
        DownloadEvent::ResponseOk { content_length },
        DownloadEvent::FileOpened,
    );
}

/// For every positive declared total and every stream of chunks summing to
/// it, the full run succeeds, the published byte counts are exactly the
/// total over itself — the fraction is exactly one — and the title ends as
/// the completion string.
pub proof fn lemma_full_download_reaches_one(total: u64, chunks: Seq<u64>)
    requires
        total > 0,
        sum_of(chunks) == total,
    ensures
        ({
            let end = run(initial_trace(), successful_run_events(Some(total), chunks));
            &&& end.machine is Succeeded
            &&& end.progress == (Progress { downloaded: total, total })
            &&& ratio_num(end.progress) == ratio_den(end.progress)
            &&& end.title == completed_title()
        }),
{
    let suffix = seq![DownloadEvent::StreamEnded, DownloadEvent::Flushed, DownloadEvent::Synced];
    let t2 = TraceState {
        machine: DownloadState::Reading { total, downloaded: 0 },
        progress: Progress { downloaded: 0, total: 0 },
        title: initial_title(),
    };
    lemma_run_append(
        initial_trace(),
        partial_download_events(Some(total), chunks),
        suffix,
    );
    lemma_open_prefix(Some(total), chunks);
    lemma_chunk_run(total, 0, Progress { downloaded: 0, total: 0 }, initial_title(), chunks);
    if chunks.len() == 0 {
        assert(sum_of(chunks) == 0);
    }
    let mid = run(t2, chunk_events(chunks));
    assert(mid.machine == (DownloadState::Reading { total, downloaded: total }));
    assert(mid.progress == (Progress { downloaded: total, total }));
    lemma_run_three(
        mid,
        DownloadEvent::StreamEnded,
        DownloadEvent::Flushed,
        DownloadEvent::Synced,
    );
}

/// During a download whose chunks keep within the declared total — or whose
/// total the server never declared — the fraction published after any longer
/// prefix of the stream is at least the one published after any shorter
/// prefix, and both lie in the unit interval: what a render loop observes
/// never decreases and never leaves `[0, 1]`.
pub proof fn lemma_progress_monotone(
    content_length: Option<u64>,
    chunks: Seq<u64>,
    i: int,
    j: int,
)
    requires
        if declared_total(content_length) > 0 {
            sum_of(chunks) <= declared_total(content_length)
        } else {
            sum_of(chunks) <= u64::MAX
        },
        0 <= i <= j <= chunks.len(),
    ensures
        ({
            let pi = run(initial_trace(), partial_download_events(content_length, chunks.take(i))).progress;
            let pj = run(initial_trace(), partial_download_events(content_length, chunks.take(j))).progress;
            &&& in_unit_interval(pi)
            &&& in_unit_interval(pj)
            &&& ratio_num(pi) * ratio_den(pj) <= ratio_num(pj) * ratio_den(pi)
        }),
{
    let total = declared_total(content_length);
    let t2 = TraceState {
        machine: DownloadState::Reading { total, downloaded: 0 },
        progress: Progress { downloaded: 0, total: 0 },
        title: initial_title(),
    };
    lemma_prefix_sums_monotone(chunks, i, j);
    lemma_sum_nonneg(chunks.take(i));
    lemma_sum_nonneg(chunks.take(j));
    let si = sum_of(chunks.take(i));
    let sj = sum_of(chunks.take(j));
    lemma_open_prefix(content_length, chunks.take(i));
    lemma_open_prefix(content_length, chunks.take(j));
    lemma_chunk_run(total, 0, Progress { downloaded: 0, total: 0 }, initial_title(), chunks.take(i));
    lemma_chunk_run(total, 0, Progress { downloaded: 0, total: 0 }, initial_title(), chunks.take(j));
    let pi = run(t2, chunk_events(chunks.take(i))).progress;
    let pj = run(t2, chunk_events(chunks.take(j))).progress;
    vstd::arithmetic::mul::lemma_mul_inequality(ratio_num(pi), ratio_num(pj), ratio_den(pi));
    assert(ratio_den(pi) == ratio_den(pj) || i == 0);
}

/// The published title is determined by whether the machine has succeeded:
/// still the initial string before, the completion string after.
pub open spec fn title_tracks_success(t: TraceState) -> bool {
    t.title == if t.machine is Succeeded {
        completed_title()
    } else {
        initial_title()
    }
}

/// One step preserves the title/success correspondence: the title changes
/// on exactly the step that makes the machine succeed, and success never
/// goes away.
pub proof fn lemma_step_title_tracking(t: TraceState, e: DownloadEvent)
    requires
        title_tracks_success(t),
    ensures
        title_tracks_success(trace_step(t, e)),
{
}

/// The correspondence holds along whole runs.
pub proof fn lemma_run_title_tracking(t: TraceState, events: Seq<DownloadEvent>)
    requires
        title_tracks_success(t),
    ensures
        title_tracks_success(run(t, events)),
    decreases events.len(),
{
    if events.len() > 0 {
        lemma_step_title_tracking(t, events[0]);
        lemma_run_title_tracking(trace_step(t, events[0]), events.skip(1));
    }
}

/// Observed after any number of steps of any run from startup, the title is
/// the initial string until the machine succeeds and the completion string
/// from then on. Together with success being terminal this is the title's
/// whole life: it transitions exactly once, on the successful sync, and the
/// change is in the shared cell the moment the step returns — the next
/// frame that reads the cell sees it.
pub proof fn lemma_title_flips_exactly_once(events: Seq<DownloadEvent>, k: int)
    requires
        0 <= k <= events.len(),
    ensures
        title_tracks_success(run(initial_trace(), events.take(k))),
{
    lemma_run_title_tracking(initial_trace(), events.take(k));
}

/// Both terminal states absorb every later event: machine, published counts
/// and title all stay exactly as they are.
pub proof fn lemma_terminal_absorbs(t: TraceState, events: Seq<DownloadEvent>)
    requires
        t.machine is Succeeded || t.machine is Failed,
    ensures
        run(t, events) == t,
    decreases events.len(),
{
    if events.len() > 0 {
        assert(trace_step(t, events[0]) == t);
        lemma_terminal_absorbs(t, events.skip(1));
    }
}

/// Each failure event, in the one state where it can occur, moves the
/// machine to the failure carrying exactly the corresponding error and
/// leaves the shared cell untouched.
pub proof fn lemma_failure_points(t: TraceState)
    ensures
        t.machine is Requesting ==> trace_step(t, DownloadEvent::ResponseFailed) == (TraceState {
            machine: DownloadState::Failed(DownloadError::Request),
            progress: t.progress,
            title: t.title,
        }),
        t.machine is Opening ==> trace_step(t, DownloadEvent::FileOpenFailed) == (TraceState {
            machine: DownloadState::Failed(DownloadError::FileOpen),
            progress: t.progress,
            title: t.title,
        }),
        t.machine is Reading ==> trace_step(t, DownloadEvent::StreamFailed) == (TraceState {
            machine: DownloadState::Failed(DownloadError::Stream),
            progress: t.progress,
            title: t.title,
        }),
        t.machine is Writing ==> trace_step(t, DownloadEvent::ChunkWriteFailed) == (TraceState {
            machine: DownloadState::Failed(DownloadError::ChunkWrite),
            progress: t.progress,
            title: t.title,
        }),
        t.machine is Flushing ==> trace_step(t, DownloadEvent::FlushFailed) == (TraceState {
            machine: DownloadState::Failed(DownloadError::Flush),
            progress: t.progress,
            title: t.title,
        }),
        t.machine is Syncing ==> trace_step(t, DownloadEvent::SyncFailed) == (TraceState {
            machine: DownloadState::Failed(DownloadError::Sync),
            progress: t.progress,
            title: t.title,
        }),
{
}

/// After a failure no success is ever reported: every later event leaves
/// the machine in the same failure, the owed action stays the report of
/// exactly that failure, and the title never becomes the completion string
/// — no process replacement occurs.
pub proof fn lemma_failed_never_replaces_process(
    t: TraceState,
    err: DownloadError,
    events: Seq<DownloadEvent>,
)
    requires
        t.machine == DownloadState::Failed(err),
    ensures
        run(t, events) == t,
        action_spec(run(t, events).machine) == DownloadAction::ReportFailure(err),
        run(t, events).machine !is Succeeded,
{
    lemma_terminal_absorbs(t, events);
}

} // verus!

