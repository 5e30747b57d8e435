use isofetch::transfer::{Action, DownloadState, Event, Phase, Transfer};

fn go() -> Event {
    Event::Checkpoint { paused: false, cancelled: false }
}

fn chunk_ok() -> Event {
    Event::Chunk { paused: false, cancelled: false, read_ok: true }
}

fn state(downloaded: u64, total: u64, speed: u64) -> DownloadState {
    DownloadState { downloaded, total, speed }
}

#[test]
fn first_request_has_no_offset() {
    let mut t = Transfer::new(0, Some(1000));
    assert_eq!(t.total(), 1000);
    assert_eq!(t.step(go()), Action::Request { offset: 0 });
    assert_eq!(t.phase(), Phase::Requesting);
}

#[test]
fn resume_after_read_error_at_written_offset() {
    let mut t = Transfer::new(0, Some(1000));
    assert_eq!(t.step(go()), Action::Request { offset: 0 });
    assert_eq!(
        t.step(Event::Response { status: 200, content_length: Some(1000) }),
        Action::ReadChunk
    );
    assert_eq!(t.step(chunk_ok()), Action::WriteChunk);
    assert_eq!(t.step(Event::Written { len: 400, now_us: 10 }), Action::ReadChunk);
    assert_eq!(
        t.step(Event::Chunk { paused: false, cancelled: false, read_ok: false }),
        Action::CloseStream
    );
    assert_eq!(t.step(Event::StreamEnded { paused: false }), Action::Proceed);
    assert_eq!(t.downloaded(), 400);
    assert_eq!(t.step(go()), Action::Request { offset: 400 });
    assert_eq!(
        t.step(Event::Response { status: 206, content_length: Some(600) }),
        Action::ReadChunk
    );
    assert_eq!(t.total(), 1000);
    assert_eq!(t.step(chunk_ok()), Action::WriteChunk);
    assert_eq!(t.step(Event::Written { len: 600, now_us: 20 }), Action::ReadChunk);
    assert_eq!(
        t.step(Event::StreamEnded { paused: false }),
        Action::Complete(state(1000, 1000, 0))
    );
    assert_eq!(t.phase(), Phase::Completed);
}

#[test]
fn stream_ending_short_of_total_requests_again() {
    let mut t = Transfer::new(0, Some(1000));
    t.step(go());
    t.step(Event::Response { status: 200, content_length: Some(1000) });
    t.step(chunk_ok());
    t.step(Event::Written { len: 300, now_us: 5 });
    assert_eq!(t.step(Event::StreamEnded { paused: false }), Action::Proceed);
    assert_eq!(t.step(go()), Action::Request { offset: 300 });
}

#[test]
fn pause_before_request_waits_without_change() {
    let mut t = Transfer::new(0, None);
    let paused = Event::Checkpoint { paused: true, cancelled: false };
    for _ in 0..5 {
        assert_eq!(t.step(paused), Action::Wait { millis: 100 });
        assert_eq!(t.phase(), Phase::Idle);
        assert_eq!(t.downloaded(), 0);
    }
    assert_eq!(t.step(go()), Action::Request { offset: 0 });
}

#[test]
fn pause_mid_stream_drops_and_resumes_without_loss() {
    let mut t = Transfer::new(0, Some(900));
    t.step(go());
    t.step(Event::Response { status: 200, content_length: Some(900) });
    t.step(chunk_ok());
    t.step(Event::Written { len: 300, now_us: 1 });
    assert_eq!(
        t.step(Event::Chunk { paused: true, cancelled: false, read_ok: true }),
        Action::CloseStream
    );
    assert_eq!(t.step(Event::StreamEnded { paused: true }), Action::Proceed);
    for _ in 0..3 {
        assert_eq!(
            t.step(Event::Checkpoint { paused: true, cancelled: false }),
            Action::Wait { millis: 100 }
        );
    }
    assert_eq!(t.downloaded(), 300);
    assert_eq!(t.step(go()), Action::Request { offset: 300 });
    t.step(Event::Response { status: 206, content_length: Some(600) });
    t.step(chunk_ok());
    t.step(Event::Written { len: 600, now_us: 2 });
    assert_eq!(
        t.step(Event::StreamEnded { paused: false }),
        Action::Complete(state(900, 900, 0))
    );
}

#[test]
fn cancel_before_request() {
    let mut t = Transfer::new(0, None);
    assert_eq!(t.step(Event::Checkpoint { paused: true, cancelled: true }), Action::Cancel);
    assert_eq!(t.phase(), Phase::Cancelled);
    assert_eq!(t.step(go()), Action::Unexpected);
}

#[test]
fn cancel_before_chunk() {
    let mut t = Transfer::new(0, None);
    t.step(go());
    t.step(Event::Response { status: 200, content_length: Some(50) });
    assert_eq!(
        t.step(Event::Chunk { paused: false, cancelled: true, read_ok: true }),
        Action::Cancel
    );
    assert_eq!(t.phase(), Phase::Cancelled);
    assert_eq!(t.step(Event::Written { len: 1, now_us: 1 }), Action::Unexpected);
}

#[test]
fn unknown_size_completes_when_stream_ends() {
    let mut t = Transfer::new(0, None);
    assert_eq!(t.step(go()), Action::Request { offset: 0 });
    assert_eq!(t.step(Event::Response { status: 200, content_length: None }), Action::ReadChunk);
    for len in [100u64, 200, 300] {
        assert_eq!(t.step(chunk_ok()), Action::WriteChunk);
        assert_eq!(t.step(Event::Written { len, now_us: 1 }), Action::ReadChunk);
    }
    assert_eq!(t.total(), 0);
    assert_eq!(
        t.step(Event::StreamEnded { paused: false }),
        Action::Complete(state(600, 0, 0))
    );
}

#[test]
fn total_learnt_from_get_counts_from_offset() {
    let mut t = Transfer::new(0, None);
    t.step(go());
    t.step(Event::Response { status: 200, content_length: None });
    t.step(chunk_ok());
    t.step(Event::Written { len: 100, now_us: 1 });
    t.step(Event::Chunk { paused: false, cancelled: false, read_ok: false });
    t.step(Event::StreamEnded { paused: false });
    assert_eq!(t.step(go()), Action::Request { offset: 100 });
    t.step(Event::Response { status: 206, content_length: Some(400) });
    assert_eq!(t.total(), 500);
}

#[test]
fn failed_status_waits_and_retries() {
    let mut t = Transfer::new(0, Some(10));
    t.step(go());
    assert_eq!(
        t.step(Event::Response { status: 503, content_length: None }),
        Action::Wait { millis: 2000 }
    );
    assert_eq!(t.step(go()), Action::Request { offset: 0 });
    assert_eq!(t.step(Event::ConnectFailed), Action::Wait { millis: 2000 });
    assert_eq!(t.phase(), Phase::Idle);
}

#[test]
fn range_not_satisfiable_with_unknown_total_is_retried() {
    let mut t = Transfer::new(0, None);
    t.step(go());
    t.step(Event::Response { status: 200, content_length: None });
    t.step(chunk_ok());
    t.step(Event::Written { len: 100, now_us: 1 });
    t.step(Event::Chunk { paused: false, cancelled: false, read_ok: false });
    t.step(Event::StreamEnded { paused: false });
    assert_eq!(t.step(go()), Action::Request { offset: 100 });
    assert_eq!(
        t.step(Event::Response { status: 416, content_length: None }),
        Action::Wait { millis: 2000 }
    );
    t.step(go());
    // the length of a failed response is not the size of the file
    assert_eq!(
        t.step(Event::Response { status: 416, content_length: Some(0) }),
        Action::Wait { millis: 2000 }
    );
    assert_eq!(t.total(), 0);
}

#[test]
fn failed_response_length_is_not_adopted() {
    let mut t = Transfer::new(0, None);
    t.step(go());
    assert_eq!(
        t.step(Event::Response { status: 503, content_length: Some(150) }),
        Action::Wait { millis: 2000 }
    );
    assert_eq!(t.total(), 0);
    t.step(go());
    t.step(Event::Response { status: 200, content_length: Some(1000) });
    assert_eq!(t.total(), 1000);
}

#[test]
fn pause_with_unknown_size_never_completes() {
    let mut t = Transfer::new(0, None);
    t.step(go());
    t.step(Event::Response { status: 200, content_length: None });
    t.step(chunk_ok());
    t.step(Event::Written { len: 10, now_us: 1 });
    assert_eq!(
        t.step(Event::Chunk { paused: true, cancelled: false, read_ok: true }),
        Action::CloseStream
    );
    // the flag was cleared before the stream-ended event
    assert_eq!(t.step(Event::StreamEnded { paused: false }), Action::Proceed);
    assert_eq!(t.phase(), Phase::Idle);
    assert_eq!(t.step(go()), Action::Request { offset: 10 });
}

#[test]
fn finished_at_checkpoint_completes_without_request() {
    let mut t = Transfer::new(0, Some(100));
    t.step(go());
    t.step(Event::Response { status: 200, content_length: Some(100) });
    t.step(chunk_ok());
    t.step(Event::Written { len: 100, now_us: 1 });
    t.step(Event::Chunk { paused: true, cancelled: false, read_ok: true });
    assert_eq!(t.step(Event::StreamEnded { paused: true }), Action::Proceed);
    assert_eq!(t.step(go()), Action::Complete(state(100, 100, 0)));
}

#[test]
fn progress_reported_at_most_every_interval() {
    let mut t = Transfer::new(0, Some(10_000));
    t.step(go());
    t.step(Event::Response { status: 200, content_length: Some(10_000) });
    t.step(chunk_ok());
    assert_eq!(t.step(Event::Written { len: 1000, now_us: 50_000 }), Action::ReadChunk);
    t.step(chunk_ok());
    // 2000 bytes in 0.1 s since the start
    assert_eq!(
        t.step(Event::Written { len: 1000, now_us: 100_000 }),
        Action::Report(state(2000, 10_000, 20_000))
    );
    t.step(chunk_ok());
    assert_eq!(t.step(Event::Written { len: 1000, now_us: 150_000 }), Action::ReadChunk);
}

#[test]
fn snapshots_never_go_back() {
    let mut t = Transfer::new(0, Some(5_000));
    let mut seen: Vec<DownloadState> = Vec::new();
    let mut now: u64 = 0;
    t.step(go());
    t.step(Event::Response { status: 200, content_length: Some(5_000) });
    for i in 0..5u64 {
        t.step(chunk_ok());
        now += 120_000;
        if let Action::Report(s) = t.step(Event::Written { len: 500, now_us: now }) {
            seen.push(s);
        }
        if i == 2 {
            t.step(Event::Chunk { paused: false, cancelled: false, read_ok: false });
            t.step(Event::StreamEnded { paused: false });
            t.step(go());
            t.step(Event::Response { status: 206, content_length: Some(3_500) });
        }
    }
    t.step(chunk_ok());
    now += 120_000;
    if let Action::Report(s) = t.step(Event::Written { len: 2_500, now_us: now }) {
        seen.push(s);
    }
    if let Action::Complete(s) = t.step(Event::StreamEnded { paused: false }) {
        seen.push(s);
    }
    assert_eq!(seen.len(), 7);
    for w in seen.windows(2) {
        assert!(w[0].downloaded <= w[1].downloaded);
        assert_eq!(w[0].total, w[1].total);
        assert!(w[1].downloaded <= w[1].total);
    }
    assert_eq!(seen[6], state(5_000, 5_000, 0));
}

#[test]
fn event_out_of_phase_changes_nothing() {
    let mut t = Transfer::new(0, None);
    assert_eq!(t.step(chunk_ok()), Action::Unexpected);
    assert_eq!(t.step(Event::Written { len: 5, now_us: 1 }), Action::Unexpected);
    assert_eq!(t.step(Event::ConnectFailed), Action::Unexpected);
    assert_eq!(t.downloaded(), 0);
    assert_eq!(t.phase(), Phase::Idle);
}
