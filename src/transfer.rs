//! The transfer loop as a state machine.
//!
//! The driver (which owns the network connection, the destination file, the
//! clock and the pause and cancel flags) feeds each thing that happens to
//! `Transfer::step` as an `Event`, and performs the `Action` it gets back.
//! The driver's loop is:
//!
//! * `Checkpoint` at the top of every round, with the flags as read now;
//! * after a `Request`, either `ConnectFailed` or the `Response`;
//! * while streaming, `Chunk` for each item that the body stream yields,
//!   `Written` once a chunk has been appended to the file, and
//!   `StreamEnded` (with the pause flag read again) once the stream is over
//!   or has been closed.

use vstd::prelude::*;
use crate::rate::{RateEstimator, RateView};

verus! {

/// How long to idle, in milliseconds, before looking at the pause flag again.
pub const PAUSE_POLL_MS: u64 = 100;

/// How long to wait, in milliseconds, before retrying a failed request.
pub const RETRY_DELAY_MS: u64 = 2000;

/// The HTTP status "range not satisfiable".
pub const RANGE_NOT_SATISFIABLE: u16 = 416;

/// A progress snapshot: bytes written so far, the expected size (`0` when
/// unknown) and the smoothed speed in bytes per second.
#[derive(Clone, Copy, Debug, PartialEq, Eq, Structural)]
pub struct DownloadState {
    pub downloaded: u64,
    pub total: u64,
    pub speed: u64,
}

/// Where the transfer stands.
#[derive(Clone, Copy, Debug, PartialEq, Eq, Structural)]
pub enum Phase {
    /// At the top of the loop, about to look at the flags.
    Idle,
    /// A request has been issued and its outcome is awaited.
    Requesting,
    /// The body stream is open and the next item is awaited.
    Streaming,
    /// A chunk is being appended to the file.
    Writing,
    /// The stream is being closed early (paused, or a read failed); the loop
    /// goes back to its top from here, never to completion.
    Closing,
    /// Every byte has arrived.
    Completed,
    /// The transfer was cancelled.
    Cancelled,
}

/// Something that happened, reported by the driver.
#[derive(Clone, Copy, Debug, PartialEq, Eq, Structural)]
pub enum Event {
    /// The top of a round, with the current pause and cancel flags.
    Checkpoint { paused: bool, cancelled: bool },
    /// The request could not be sent (no connection, DNS, timeout).
    ConnectFailed,
    /// A response arrived, with its status and its content length, if any.
    Response { status: u16, content_length: Option<u64> },
    /// The body stream yielded an item; `read_ok` is false for a read error.
    Chunk { paused: bool, cancelled: bool, read_ok: bool },
    /// The chunk of `len` bytes was appended to the file at time `now_us`.
    Written { len: u64, now_us: u64 },
    /// The body stream is over or was closed; `paused` is read afresh.
    StreamEnded { paused: bool },
}

/// What the driver is to do next.
#[derive(Clone, Copy, Debug, PartialEq, Eq, Structural)]
pub enum Action {
    /// Issue a GET; when `offset > 0`, ask for the bytes from `offset` on.
    Request { offset: u64 },
    /// Sleep for `millis` milliseconds, then report a `Checkpoint`.
    Wait { millis: u64 },
    /// Await the next item of the body stream.
    ReadChunk,
    /// Append the chunk just received to the file.
    WriteChunk,
    /// Hand this snapshot to the progress sink, then read the next chunk.
    Report(DownloadState),
    /// Drop the connection, then report `StreamEnded`.
    CloseStream,
    /// Go back to the top of the loop and report a `Checkpoint`.
    Proceed,
    /// Drop the connection, delete the destination file, and end the
    /// transfer as cancelled.
    Cancel,
    /// Flush and close the file, hand this final snapshot to the sink, and
    /// end the transfer successfully.
    Complete(DownloadState),
    /// The event does not fit the current phase; nothing changed.
    Unexpected,
}

/// Whether an HTTP status is a success (2xx).
pub open spec fn is_success(status: u16) -> bool {
    200 <= status <= 299
}

/// The state of a transfer: its phase, bytes written, expected size (`0`
/// when unknown), and the rate estimator.
pub ghost struct TransferView {
    pub phase: Phase,
    pub downloaded: u64,
    pub total: u64,
    pub rate: RateView,
}

impl TransferView {
    /// The estimator is well formed and its anchor lies within the bytes
    /// written.
    pub open spec fn wf(self) -> bool {
        self.rate.wf() && self.rate.anchor_bytes <= self.downloaded
    }

    /// The expected size is known and has been reached.
    pub open spec fn finished(self) -> bool {
        self.total > 0 && self.downloaded >= self.total
    }

    /// The progress snapshot of this state with the given speed.
    pub open spec fn snapshot(self, speed: u64) -> DownloadState {
        DownloadState { downloaded: self.downloaded, total: self.total, speed }
    }

    /// This state, moved to `phase`.
    pub open spec fn with_phase(self, phase: Phase) -> TransferView {
        TransferView { phase, ..self }
    }

    /// The total after a successful response with `content_length`: a length
    /// is adopted (counted from the current offset) only while the total is
    /// unknown.
    pub open spec fn total_after(self, content_length: Option<u64>) -> u64 {
        if self.total == 0 {
            match content_length {
                Some(len) => if self.downloaded + len > u64::MAX {
                    u64::MAX
                } else {
                    (self.downloaded + len) as u64
                },
                None => 0,
            }
        } else {
            self.total
        }
    }

    /// The state and action that follow `e`.
    pub open spec fn next(self, e: Event) -> (TransferView, Action) {
        match e {
            Event::Checkpoint { paused, cancelled } => if self.phase != Phase::Idle {
                (self, Action::Unexpected)
            } else if cancelled {
                (self.with_phase(Phase::Cancelled), Action::Cancel)
            } else if paused {
                (self, Action::Wait { millis: PAUSE_POLL_MS })
            } else if self.finished() {
                (self.with_phase(Phase::Completed), Action::Complete(self.snapshot(0)))
            } else {
                (self.with_phase(Phase::Requesting), Action::Request { offset: self.downloaded })
            },
            Event::ConnectFailed => if self.phase != Phase::Requesting {
                (self, Action::Unexpected)
            } else {
                (self.with_phase(Phase::Idle), Action::Wait { millis: RETRY_DELAY_MS })
            },
            Event::Response { status, content_length } => if self.phase != Phase::Requesting {
                (self, Action::Unexpected)
            } else {
                if is_success(status) {
                    (
                        TransferView {
                            phase: Phase::Streaming,
                            total: self.total_after(content_length),
                            ..self
                        },
                        Action::ReadChunk,
                    )
                } else if status == RANGE_NOT_SATISFIABLE && self.finished() {
                    (self.with_phase(Phase::Completed), Action::Complete(self.snapshot(0)))
                } else {
                    (self.with_phase(Phase::Idle), Action::Wait { millis: RETRY_DELAY_MS })
                }
            },
            Event::Chunk { paused, cancelled, read_ok } => if self.phase != Phase::Streaming {
                (self, Action::Unexpected)
            } else if cancelled {
                (self.with_phase(Phase::Cancelled), Action::Cancel)
            } else if paused {
                (self.with_phase(Phase::Closing), Action::CloseStream)
            } else if !read_ok {
                (self.with_phase(Phase::Closing), Action::CloseStream)
            } else {
                (self.with_phase(Phase::Writing), Action::WriteChunk)
            },
            Event::Written { len, now_us } => if self.phase != Phase::Writing
                || self.downloaded + len > u64::MAX {
                (self, Action::Unexpected)
            } else {
                let d = (self.downloaded + len) as u64;
                let (rate, r) = self.rate.observe(now_us, d);
                let s = TransferView { phase: Phase::Streaming, downloaded: d, rate, ..self };
                match r {
                    Some(speed) => (s, Action::Report(s.snapshot(speed))),
                    None => (s, Action::ReadChunk),
                }
            },
            Event::StreamEnded { paused } => if self.phase != Phase::Streaming && self.phase
                != Phase::Closing {
                (self, Action::Unexpected)
            } else if self.phase == Phase::Streaming && !paused && (self.total == 0
                || self.downloaded >= self.total) {
                (self.with_phase(Phase::Completed), Action::Complete(self.snapshot(0)))
            } else {
                (self.with_phase(Phase::Idle), Action::Proceed)
            },
        }
    }
}

/// A transfer in progress.
pub struct Transfer {
    phase: Phase,
    downloaded: u64,
    total: u64,
    rate: RateEstimator,
}

impl View for Transfer {
    type V = TransferView;

    closed spec fn view(&self) -> TransferView {
        TransferView {
            phase: self.phase,
            downloaded: self.downloaded,
            total: self.total,
            rate: self.rate@,
        }
    }
}

impl Transfer {
    /// A transfer that has written nothing yet, started at `start_us`, with
    /// the size learnt from a metadata request (`None` when that request
    /// failed or gave no length).
    pub fn new(start_us: u64, probed_total: Option<u64>) -> (r: Transfer)
        ensures
            r@.wf(),
            r@.phase == Phase::Idle,
            r@.downloaded == 0,
            r@.total == match probed_total {
                Some(t) => t,
                None => 0,
            },
            r@.rate.samples.len() == 0,
            r@.rate.history.len() == 0,
            r@.rate.anchor_us == start_us,
            r@.rate.anchor_bytes == 0,
    {
        let total = match probed_total {
            Some(t) => t,
            None => 0,
        };
        Transfer {
            phase: Phase::Idle,
            downloaded: 0,
            total,
            rate: RateEstimator::new(start_us),
        }
    }

    /// Takes in one event and says what to do next.
    pub fn step(&mut self, e: Event) -> (a: Action)
        requires
            old(self)@.wf(),
        ensures
            final(self)@.wf(),
            (final(self)@, a) == old(self)@.next(e),
    {
        match e {
            Event::Checkpoint { paused, cancelled } => {
                if self.phase != Phase::Idle {
                    Action::Unexpected
                } else if cancelled {
                    self.phase = Phase::Cancelled;
                    Action::Cancel
                } else if paused {
                    Action::Wait { millis: PAUSE_POLL_MS }
                } else if self.total > 0 && self.downloaded >= self.total {
                    self.phase = Phase::Completed;
                    Action::Complete(self.state(0))
                } else {
                    self.phase = Phase::Requesting;
                    Action::Request { offset: self.downloaded }
                }
            },
            Event::ConnectFailed => {
                if self.phase != Phase::Requesting {
                    Action::Unexpected
                } else {
                    self.phase = Phase::Idle;
                    Action::Wait { millis: RETRY_DELAY_MS }
                }
            },
            Event::Response { status, content_length } => {
                if self.phase != Phase::Requesting {
                    return Action::Unexpected;
                }
                if 200 <= status && status <= 299 {
                    if self.total == 0 {
                        if let Some(len) = content_length {
                            self.total = self.downloaded.saturating_add(len);
                        }
                    }
                    self.phase = Phase::Streaming;
                    Action::ReadChunk
                } else if status == RANGE_NOT_SATISFIABLE && self.total > 0 && self.downloaded
                    >= self.total {
                    self.phase = Phase::Completed;
                    Action::Complete(self.state(0))
                } else {
                    self.phase = Phase::Idle;
                    Action::Wait { millis: RETRY_DELAY_MS }
                }
            },
            Event::Chunk { paused, cancelled, read_ok } => {
                if self.phase != Phase::Streaming {
                    Action::Unexpected
                } else if cancelled {
                    self.phase = Phase::Cancelled;
                    Action::Cancel
                } else if paused {
                    self.phase = Phase::Closing;
                    Action::CloseStream
                } else if !read_ok {
                    self.phase = Phase::Closing;
                    Action::CloseStream
                } else {
                    self.phase = Phase::Writing;
                    Action::WriteChunk
                }
            },
            Event::Written { len, now_us } => {
                if self.phase != Phase::Writing {
                    return Action::Unexpected;
                }
                match self.downloaded.checked_add(len) {
                    None => Action::Unexpected,
                    Some(d) => {
                        self.downloaded = d;
                        self.phase = Phase::Streaming;
                        match self.rate.observe(now_us, d) {
                            Some(speed) => Action::Report(self.state(speed)),
                            None => Action::ReadChunk,
                        }
                    },
                }
            },
            Event::StreamEnded { paused } => {
                if self.phase != Phase::Streaming && self.phase != Phase::Closing {
                    Action::Unexpected
                } else if self.phase == Phase::Streaming && !paused && (self.total == 0
                    || self.downloaded >= self.total) {
                    self.phase = Phase::Completed;
                    Action::Complete(self.state(0))
                } else {
                    self.phase = Phase::Idle;
                    Action::Proceed
                }
            },
        }
    }

    /// Where the transfer stands.
    pub fn phase(&self) -> (r: Phase)
        ensures
            r == self@.phase,
    {
        self.phase
    }

    /// The bytes written so far.
    pub fn downloaded(&self) -> (r: u64)
        ensures
            r == self@.downloaded,
    {
        self.downloaded
    }

    /// The expected size, `0` while unknown.
    pub fn total(&self) -> (r: u64)
        ensures
            r == self@.total,
    {
        self.total
    }

    /// A snapshot of the progress with the given speed.
    pub fn state(&self, speed: u64) -> (r: DownloadState)
        ensures
            r == self@.snapshot(speed),
    {
        DownloadState { downloaded: self.downloaded, total: self.total, speed }
    }
}

} // verus!
