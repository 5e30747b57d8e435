//! Runs of the transfer state machine over sequences of events, and the
//! properties that hold along them.

use vstd::prelude::*;
use crate::rate::sum;
use crate::transfer::{Action, DownloadState, Event, Phase, TransferView};

verus! {

/// The state after feeding every event of `evs`, in order, to `s`.
pub open spec fn run(s: TransferView, evs: Seq<Event>) -> TransferView
    decreases evs.len(),
{
    if evs.len() == 0 {
        s
    } else {
        run(s, evs.drop_last()).next(evs.last()).0
    }
}

/// The action answered to the `k`-th event of `evs`.
pub open spec fn action_at(s: TransferView, evs: Seq<Event>, k: int) -> Action {
    run(s, evs.take(k)).next(evs[k]).1
}

/// The snapshot that an action hands to the progress sink, if any.
pub open spec fn reported(a: Action) -> Option<DownloadState> {
    match a {
        Action::Report(st) => Some(st),
        Action::Complete(st) => Some(st),
        _ => None,
    }
}

/// `downloaded` never exceeds a known total.
pub open spec fn within_total(s: TransferView) -> bool {
    s.total == 0 || s.downloaded <= s.total
}

/// A written chunk does not go past a known total.
pub open spec fn respects_total(s: TransferView, e: Event) -> bool {
    match e {
        Event::Written { len, .. } => s.total > 0 ==> s.downloaded + len <= s.total,
        _ => true,
    }
}

/// One step: bytes are only ever added, and only by a written chunk, by
/// exactly its length; a known total never changes; a request always asks
/// for the bytes from exactly the number already written; a reported
/// snapshot tells the new state's counts; a total that bounded the bytes
/// written still does after a chunk that respects it; and with no total
/// known, the transfer completes only when an open stream (not one closed
/// for a pause or a read error) has ended.
pub proof fn lemma_step(s: TransferView, e: Event)
    ensures
        ({
            let (t, a) = s.next(e);
            &&& t.downloaded >= s.downloaded
            &&& (e is Written || t.downloaded == s.downloaded)
            &&& (a != Action::Unexpected ==> (e matches Event::Written { len, .. }
                ==> t.downloaded == s.downloaded + len))
            &&& (s.total > 0 ==> t.total == s.total)
            &&& (a matches Action::Request { offset } ==> offset == s.downloaded && t.downloaded
                == s.downloaded)
            &&& (reported(a) matches Some(st) ==> st.downloaded == t.downloaded && st.total
                == t.total)
            &&& (within_total(s) && respects_total(s, e) ==> within_total(t))
            &&& (a is Complete && t.total == 0 ==> e is StreamEnded && s.phase == Phase::Streaming)
        }),
{
}

proof fn lemma_run_take(s: TransferView, evs: Seq<Event>, j: int)
    requires
        0 < j <= evs.len(),
    ensures
        run(s, evs.take(j)) == run(s, evs.take(j - 1)).next(evs[j - 1]).0,
{
    assert(evs.take(j).drop_last() =~= evs.take(j - 1));
}

proof fn lemma_run_prefix_monotone(s: TransferView, evs: Seq<Event>, i: int, j: int)
    requires
        0 <= i <= j <= evs.len(),
    ensures
        run(s, evs.take(i)).downloaded <= run(s, evs.take(j)).downloaded,
        run(s, evs.take(i)).total > 0 ==> run(s, evs.take(j)).total == run(s, evs.take(i)).total,
    decreases j - i,
{
    if i < j {
        lemma_run_prefix_monotone(s, evs, i, j - 1);
        lemma_run_take(s, evs, j);
        lemma_step(run(s, evs.take(j - 1)), evs[j - 1]);
    }
}

/// Along any run, the snapshots handed to the sink never go back: the byte
/// count of a later one is at least that of an earlier one, and once a
/// total is known every later snapshot carries the same total.
pub proof fn lemma_reports_monotone(s: TransferView, evs: Seq<Event>, k1: int, k2: int)
    requires
        0 <= k1 <= k2 < evs.len(),
        reported(action_at(s, evs, k1)) is Some,
        reported(action_at(s, evs, k2)) is Some,
    ensures
        reported(action_at(s, evs, k1))->0.downloaded <= reported(action_at(s, evs, k2))->0.downloaded,
        reported(action_at(s, evs, k1))->0.total > 0 ==> reported(action_at(s, evs, k2))->0.total
            == reported(action_at(s, evs, k1))->0.total,
{
    lemma_run_take(s, evs, k1 + 1);
    lemma_run_take(s, evs, k2 + 1);
    lemma_step(run(s, evs.take(k1)), evs[k1]);
    lemma_step(run(s, evs.take(k2)), evs[k2]);
    lemma_run_prefix_monotone(s, evs, k1 + 1, k2 + 1);
}

/// Along a run in which no written chunk goes past a known total, no
/// snapshot handed to the sink reports more bytes than a known total.
pub proof fn lemma_reports_within_total(s: TransferView, evs: Seq<Event>, k: int)
    requires
        within_total(s),
        forall|i: int| 0 <= i < evs.len() ==> respects_total(run(s, evs.take(i)), #[trigger] evs[i]),
        0 <= k < evs.len(),
        reported(action_at(s, evs, k)) is Some,
    ensures
        reported(action_at(s, evs, k))->0.total == 0 || reported(action_at(s, evs, k))->0.downloaded
            <= reported(action_at(s, evs, k))->0.total,
{
    lemma_run_within_total(s, evs, k + 1);
    lemma_run_take(s, evs, k + 1);
    lemma_step(run(s, evs.take(k)), evs[k]);
}

proof fn lemma_run_within_total(s: TransferView, evs: Seq<Event>, j: int)
    requires
        within_total(s),
        forall|i: int| 0 <= i < evs.len() ==> respects_total(run(s, evs.take(i)), #[trigger] evs[i]),
        0 <= j <= evs.len(),
    ensures
        within_total(run(s, evs.take(j))),
    decreases j,
{
    if j == 0 {
        assert(evs.take(0) =~= Seq::<Event>::empty());
    } else {
        lemma_run_within_total(s, evs, j - 1);
        lemma_run_take(s, evs, j);
        lemma_step(run(s, evs.take(j - 1)), evs[j - 1]);
    }
}

/// After a read error mid-stream, the stream is closed, the loop goes back
/// to its top, and (unless the known total has been reached) the next
/// request resumes at exactly the number of bytes written, which the error
/// did not change.
pub proof fn lemma_resume_after_read_error(s: TransferView, paused_at_end: bool)
    requires
        s.phase == Phase::Streaming,
        !s.finished(),
    ensures
        ({
            let (s1, a1) = s.next(Event::Chunk { paused: false, cancelled: false, read_ok: false });
            let (s2, a2) = s1.next(Event::StreamEnded { paused: paused_at_end });
            let (s3, a3) = s2.next(Event::Checkpoint { paused: false, cancelled: false });
            &&& a1 == Action::CloseStream
            &&& a2 == Action::Proceed
            &&& a3 == Action::Request { offset: s.downloaded }
            &&& s3.downloaded == s.downloaded
        }),
{
}

/// Repeating `e` `n` times.
pub open spec fn repeat(e: Event, n: nat) -> Seq<Event>
    decreases n,
{
    if n == 0 {
        Seq::empty()
    } else {
        repeat(e, (n - 1) as nat).push(e)
    }
}

/// Running `a` then `b` is running `b` from where `a` ended.
pub proof fn lemma_run_append(s: TransferView, a: Seq<Event>, b: Seq<Event>)
    ensures
        run(s, a + b) == run(run(s, a), b),
    decreases b.len(),
{
    if b.len() == 0 {
        assert(a + b =~= a);
    } else {
        assert((a + b).drop_last() =~= a + b.drop_last());
        lemma_run_append(s, a, b.drop_last());
    }
}

proof fn lemma_paused_checkpoints_idle(s: TransferView, n: nat)
    requires
        s.phase == Phase::Idle,
    ensures
        run(s, repeat(Event::Checkpoint { paused: true, cancelled: false }, n)) == s,
    decreases n,
{
    let e = Event::Checkpoint { paused: true, cancelled: false };
    if n > 0 {
        lemma_paused_checkpoints_idle(s, (n - 1) as nat);
        assert(repeat(e, n).drop_last() =~= repeat(e, (n - 1) as nat));
    } else {
        assert(repeat(e, n) =~= Seq::<Event>::empty());
    }
}

/// Pausing before a request changes nothing: each paused checkpoint only
/// waits, and any number of them, put between two parts of a run where the
/// loop is at its top, leave the end state of the run as it was without
/// them. Mid-stream, a pause drops the connection without touching the
/// bytes written (`lemma_pause_mid_stream` follows it to the next request).
pub proof fn lemma_pause_changes_nothing(s: TransferView, a: Seq<Event>, b: Seq<Event>, n: nat)
    requires
        run(s, a).phase == Phase::Idle,
    ensures
        run(s, a).next(Event::Checkpoint { paused: true, cancelled: false }) == (
            run(s, a),
            Action::Wait { millis: crate::transfer::PAUSE_POLL_MS },
        ),
        run(s, a + repeat(Event::Checkpoint { paused: true, cancelled: false }, n) + b) == run(
            s,
            a + b,
        ),
        ({
            let (t, act) = s.next(Event::Chunk { paused: true, cancelled: false, read_ok: true });
            s.phase == Phase::Streaming ==> act == Action::CloseStream && t.downloaded
                == s.downloaded && t.total == s.total
        }),
{
    let p = repeat(Event::Checkpoint { paused: true, cancelled: false }, n);
    lemma_run_append(s, a + p, b);
    lemma_run_append(s, a, p);
    lemma_paused_checkpoints_idle(run(s, a), n);
    lemma_run_append(s, a, b);
}

/// A stream closed for a pause never completes the transfer, whatever the
/// pause flag reads when the stream has ended: the loop goes back to its
/// top with the bytes written unchanged, and once unpaused (unless a known
/// total has been reached) the next request resumes at exactly that count.
pub proof fn lemma_pause_mid_stream(s: TransferView, read_ok: bool, paused_at_end: bool)
    requires
        s.phase == Phase::Streaming,
    ensures
        ({
            let (s1, a1) = s.next(Event::Chunk { paused: true, cancelled: false, read_ok });
            let (s2, a2) = s1.next(Event::StreamEnded { paused: paused_at_end });
            let (s3, a3) = s2.next(Event::Checkpoint { paused: false, cancelled: false });
            &&& a1 == Action::CloseStream
            &&& a2 == Action::Proceed
            &&& s2.phase == Phase::Idle
            &&& s2.downloaded == s.downloaded
            &&& s2.total == s.total
            &&& !s.finished() ==> a3 == Action::Request { offset: s.downloaded }
        }),
{
}

/// Cancelling at either checkpoint (before a request, whatever the pause
/// flag, or before a chunk is processed) ends the transfer as cancelled and
/// asks for the destination file to be deleted; a cancelled transfer takes
/// in no further event.
pub proof fn lemma_cancel(s: TransferView, paused: bool, read_ok: bool, e: Event)
    ensures
        s.phase == Phase::Idle ==> s.next(Event::Checkpoint { paused, cancelled: true }) == (
            s.with_phase(Phase::Cancelled),
            Action::Cancel,
        ),
        s.phase == Phase::Streaming ==> s.next(Event::Chunk { paused, cancelled: true, read_ok })
            == (s.with_phase(Phase::Cancelled), Action::Cancel),
        s.phase == Phase::Cancelled ==> s.next(e) == (s, Action::Unexpected),
{
}

proof fn lemma_run_one(x: TransferView, e: Event)
    ensures
        run(x, seq![e]) == x.next(e).0,
{
    assert(seq![e].drop_last() =~= Seq::<Event>::empty());
    assert(run(x, Seq::<Event>::empty()) == x);
}

/// The events of a body stream that delivers chunks of the given lengths,
/// each written at the matching time.
pub open spec fn chunk_events(lens: Seq<u64>, times: Seq<u64>) -> Seq<Event>
    decreases lens.len(),
{
    if lens.len() == 0 || times.len() == 0 {
        Seq::empty()
    } else {
        chunk_events(lens.drop_last(), times.drop_last()) + seq![
            Event::Chunk { paused: false, cancelled: false, read_ok: true },
            Event::Written { len: lens.last(), now_us: times.last() },
        ]
    }
}

proof fn lemma_stream_unknown_size(s: TransferView, lens: Seq<u64>, times: Seq<u64>)
    requires
        s.phase == Phase::Streaming,
        s.total == 0,
        lens.len() == times.len(),
        s.downloaded + sum(lens) <= u64::MAX,
    ensures
        ({
            let t = run(s, chunk_events(lens, times));
            &&& t.phase == Phase::Streaming
            &&& t.total == 0
            &&& t.downloaded == s.downloaded + sum(lens)
        }),
    decreases lens.len(),
{
    if lens.len() > 0 {
        let (l0, t0) = (lens.drop_last(), times.drop_last());
        lemma_stream_unknown_size(s, l0, t0);
        let pair = seq![
            Event::Chunk { paused: false, cancelled: false, read_ok: true },
            Event::Written { len: lens.last(), now_us: times.last() },
        ];
        let mid = run(s, chunk_events(l0, t0));
        lemma_run_append(s, chunk_events(l0, t0), pair);
        assert(chunk_events(lens, times) == chunk_events(l0, t0) + pair);
        assert(pair.drop_last() =~= seq![pair[0]]);
        assert(seq![pair[0]].drop_last() =~= Seq::<Event>::empty());
        lemma_run_one(mid, pair[0]);
        assert(run(mid, pair) == run(mid, seq![pair[0]]).next(pair[1]).0);
        assert(sum(lens) == sum(l0) + lens.last());
    } else {
        assert(chunk_events(lens, times) =~= Seq::<Event>::empty());
    }
}

/// With no size known (from the metadata request or from the response), a
/// stream that ends without error after chunks of `lens` bytes completes
/// the transfer: the final snapshot has the bytes of every chunk added to
/// those written before, a total of `0` and a speed of `0`.
pub proof fn lemma_unknown_size_completes(
    s: TransferView,
    status: u16,
    lens: Seq<u64>,
    times: Seq<u64>,
)
    requires
        s.phase == Phase::Idle,
        s.total == 0,
        crate::transfer::is_success(status),
        lens.len() == times.len(),
        s.downloaded + sum(lens) <= u64::MAX,
    ensures
        ({
            let head = seq![
                Event::Checkpoint { paused: false, cancelled: false },
                Event::Response { status, content_length: None },
            ];
            let evs = head + chunk_events(lens, times);
            let (t, a) = run(s, evs).next(Event::StreamEnded { paused: false });
            &&& t.phase == Phase::Completed
            &&& a == Action::Complete(
                DownloadState { downloaded: (s.downloaded + sum(lens)) as u64, total: 0, speed: 0 },
            )
        }),
{
    let head = seq![
        Event::Checkpoint { paused: false, cancelled: false },
        Event::Response { status, content_length: None },
    ];
    assert(head.drop_last() =~= seq![head[0]]);
    assert(seq![head[0]].drop_last() =~= Seq::<Event>::empty());
    let s2 = run(s, head);
    lemma_run_one(s, head[0]);
    assert(s2 == run(s, seq![head[0]]).next(head[1]).0);
    lemma_run_append(s, head, chunk_events(lens, times));
    lemma_stream_unknown_size(s2, lens, times);
}

} // verus!
