//! Smoothed throughput: a bounded window of instantaneous rate samples.

use vstd::prelude::*;

verus! {

/// How many of the most recent samples the window keeps.
pub const WINDOW: usize = 20;

/// The least time, in microseconds, between two samples.
pub const SAMPLE_INTERVAL_US: u64 = 100_000;

/// The sum of a sequence of samples.
pub open spec fn sum(s: Seq<u64>) -> nat
    decreases s.len(),
{
    if s.len() == 0 {
        0
    } else {
        sum(s.drop_last()) + s.last() as nat
    }
}

/// The arithmetic mean of a non-empty sequence of samples, rounded down.
pub open spec fn mean(s: Seq<u64>) -> nat {
    if s.len() == 0 {
        0
    } else {
        sum(s) / s.len()
    }
}

/// The last `n` elements of `s`, or all of `s` if it is shorter.
pub open spec fn last_n(s: Seq<u64>, n: nat) -> Seq<u64> {
    if s.len() <= n {
        s
    } else {
        s.subrange(s.len() - n, s.len() as int)
    }
}

/// The rate, in whole bytes per second, of `bytes` transferred over
/// `elapsed_us` microseconds; a rate beyond `u64::MAX` is held at it.
pub open spec fn instant_rate(bytes: nat, elapsed_us: nat) -> nat {
    if elapsed_us == 0 {
        0
    } else if bytes * 1_000_000 / elapsed_us > u64::MAX {
        u64::MAX as nat
    } else {
        bytes * 1_000_000 / elapsed_us
    }
}

/// What an estimator is: the retained window, every sample ever taken, and
/// the anchor (time and byte count) that the next sample is measured from.
pub ghost struct RateView {
    pub samples: Seq<u64>,
    pub history: Seq<u64>,
    pub anchor_us: u64,
    pub anchor_bytes: u64,
}

impl RateView {
    /// The window holds exactly the most recent samples, at most `WINDOW`.
    pub open spec fn wf(self) -> bool {
        &&& self.samples.len() <= WINDOW
        &&& self.samples == last_n(self.history, WINDOW as nat)
    }

    /// Whether a sample is due at `now_us`.
    pub open spec fn due(self, now_us: u64) -> bool {
        now_us >= self.anchor_us && now_us - self.anchor_us >= SAMPLE_INTERVAL_US
    }

    /// The effect of observing `downloaded` bytes in total at `now_us`: when a
    /// sample is due, the instantaneous rate since the anchor is pushed into the
    /// window (evicting the oldest beyond `WINDOW`), the anchor moves to now,
    /// and the smoothed rate is the mean of the window; otherwise nothing
    /// changes and no rate is produced.
    pub open spec fn observe(self, now_us: u64, downloaded: u64) -> (RateView, Option<u64>) {
        if self.due(now_us) {
            let x = instant_rate(
                (downloaded - self.anchor_bytes) as nat,
                (now_us - self.anchor_us) as nat,
            ) as u64;
            let pushed = self.samples.push(x);
            let window = if pushed.len() > WINDOW {
                pushed.drop_first()
            } else {
                pushed
            };
            (
                RateView {
                    samples: window,
                    history: self.history.push(x),
                    anchor_us: now_us,
                    anchor_bytes: downloaded,
                },
                Some(mean(window) as u64),
            )
        } else {
            (self, None)
        }
    }
}

/// A sliding-window throughput estimator.
pub struct RateEstimator {
    samples: Vec<u64>,
    history: Ghost<Seq<u64>>,
    anchor_us: u64,
    anchor_bytes: u64,
}

impl View for RateEstimator {
    type V = RateView;

    closed spec fn view(&self) -> RateView {
        RateView {
            samples: self.samples@,
            history: self.history@,
            anchor_us: self.anchor_us,
            anchor_bytes: self.anchor_bytes,
        }
    }
}

proof fn lemma_sum_bound(s: Seq<u64>)
    ensures
        sum(s) <= s.len() * (u64::MAX as nat),
    decreases s.len(),
{
    if s.len() > 0 {
        lemma_sum_bound(s.drop_last());
    }
}

proof fn lemma_mean_bound(s: Seq<u64>)
    ensures
        mean(s) <= u64::MAX,
{
    if s.len() > 0 {
        lemma_sum_bound(s);
        let n = s.len();
        assert(sum(s) / n <= u64::MAX) by (nonlinear_arith)
            requires
                sum(s) <= n * (u64::MAX as nat),
                n > 0,
        ;
    }
}

proof fn lemma_window_step(samples: Seq<u64>, history: Seq<u64>, x: u64)
    requires
        samples.len() <= WINDOW,
        samples == last_n(history, WINDOW as nat),
    ensures
        ({
            let pushed = samples.push(x);
            let window = if pushed.len() > WINDOW {
                pushed.drop_first()
            } else {
                pushed
            };
            window.len() <= WINDOW && window == last_n(history.push(x), WINDOW as nat)
        }),
{
    let pushed = samples.push(x);
    let h = history.push(x);
    if history.len() <= WINDOW {
        assert(pushed =~= h);
        if h.len() > WINDOW {
            assert(pushed.drop_first() =~= h.subrange(h.len() - WINDOW, h.len() as int));
        }
    } else {
        assert(pushed.drop_first() =~= h.subrange(h.len() - WINDOW, h.len() as int));
    }
}

/// Once `WINDOW` or more samples have been taken, the window holds exactly
/// the `WINDOW` most recent of them; a further sample keeps it so, and the
/// rate it yields is the mean of exactly the `WINDOW` most recent samples.
pub proof fn lemma_window_is_most_recent(v: RateView, now_us: u64, downloaded: u64)
    requires
        v.wf(),
        v.history.len() >= WINDOW,
    ensures
        v.samples.len() == WINDOW,
        v.samples == v.history.subrange(v.history.len() - WINDOW, v.history.len() as int),
        v.due(now_us) ==> ({
            let (w, r) = v.observe(now_us, downloaded);
            &&& w.history.len() == v.history.len() + 1
            &&& w.samples.len() == WINDOW
            &&& w.samples == w.history.subrange(w.history.len() - WINDOW, w.history.len() as int)
            &&& r == Some((sum(w.samples) / (WINDOW as nat)) as u64)
        }),
{
    if v.due(now_us) {
        let x = instant_rate(
            (downloaded - v.anchor_bytes) as nat,
            (now_us - v.anchor_us) as nat,
        ) as u64;
        lemma_window_step(v.samples, v.history, x);
    }
}

impl RateEstimator {
    /// An estimator with no samples, anchored at `now_us` and zero bytes.
    pub fn new(now_us: u64) -> (r: RateEstimator)
        ensures
            r@.wf(),
            r@.samples.len() == 0,
            r@.history.len() == 0,
            r@.anchor_us == now_us,
            r@.anchor_bytes == 0,
    {
        RateEstimator {
            samples: Vec::with_capacity(WINDOW),
            history: Ghost(Seq::empty()),
            anchor_us: now_us,
            anchor_bytes: 0,
        }
    }

    /// Observes `downloaded` bytes in total at time `now_us`. When at least
    /// `SAMPLE_INTERVAL_US` has passed since the anchor, takes a sample and
    /// returns the smoothed rate in bytes per second.
    pub fn observe(&mut self, now_us: u64, downloaded: u64) -> (r: Option<u64>)
        requires
            old(self)@.wf(),
            old(self)@.anchor_bytes <= downloaded,
        ensures
            final(self)@.wf(),
            (final(self)@, r) == old(self)@.observe(now_us, downloaded),
    {
        if now_us < self.anchor_us || now_us - self.anchor_us < SAMPLE_INTERVAL_US {
            return None;
        }
        let elapsed: u64 = now_us - self.anchor_us;
        let bytes: u64 = downloaded - self.anchor_bytes;
        let scaled: u128 = bytes as u128 * 1_000_000;
        let q: u128 = scaled / elapsed as u128;
        let x: u64 = if q > u64::MAX as u128 {
            u64::MAX
        } else {
            q as u64
        };
        assert(x == instant_rate(bytes as nat, elapsed as nat));
        proof {
            lemma_window_step(self.samples@, self.history@, x);
        }
        self.samples.push(x);
        if self.samples.len() > WINDOW {
            self.samples.remove(0);
        }
        self.history = Ghost(self.history@.push(x));
        self.anchor_us = now_us;
        self.anchor_bytes = downloaded;
        let avg = self.average();
        Some(avg)
    }

    /// The retained samples, oldest first.
    pub fn samples(&self) -> (r: Vec<u64>)
        ensures
            r@ == self@.samples,
    {
        let mut r: Vec<u64> = Vec::new();
        let mut i: usize = 0;
        while i < self.samples.len()
            invariant
                i <= self.samples@.len(),
                r@ == self.samples@.take(i as int),
            decreases self.samples@.len() - i,
        {
            r.push(self.samples[i]);
            i = i + 1;
            assert(r@ =~= self.samples@.take(i as int));
        }
        assert(r@ =~= self.samples@);
        r
    }

    /// The mean of the retained samples (zero when there are none).
    pub fn average(&self) -> (r: u64)
        ensures
            r == mean(self@.samples),
    {
        let n = self.samples.len();
        let mut total: u128 = 0;
        let mut i: usize = 0;
        while i < n
            invariant
                n == self.samples@.len(),
                i <= n,
                total == sum(self.samples@.take(i as int)),
                total <= i * (u64::MAX as nat),
            decreases n - i,
        {
            assert(self.samples@.take(i as int + 1).drop_last() =~= self.samples@.take(i as int));
            assert((i + 1) * (u64::MAX as nat) == i * (u64::MAX as nat) + u64::MAX) by (nonlinear_arith);
            total = total + self.samples[i] as u128;
            i = i + 1;
        }
        assert(self.samples@.take(n as int) =~= self.samples@);
        if n == 0 {
            0
        } else {
            proof {
                lemma_mean_bound(self.samples@);
            }
            (total / n as u128) as u64
        }
    }
}

} // verus!
