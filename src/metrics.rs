//! Download-speed meter for reply audio.
//!
//! Time is a count of milliseconds on a monotonic clock that the caller reads;
//! the meter never reads a clock itself.
use vstd::prelude::*;

verus! {

/// Bytes of reply audio per second of playback: 16 kHz, 16-bit, mono.
pub const BYTES_PER_SECOND: u64 = 32000;

/// Length of the window after which a new speed measurement is due.
pub const TIMEOUT_SEC: u64 = 30;

/// `a + b`, held at `u64::MAX`.
pub open spec fn sat_add(a: u64, b: u64) -> u64 {
    if a + b > u64::MAX {
        u64::MAX
    } else {
        (a + b) as u64
    }
}

/// `a - b`, held at zero.
pub open spec fn sat_sub(a: u64, b: u64) -> u64 {
    if a >= b {
        (a - b) as u64
    } else {
        0
    }
}

/// The ratio of wall time to the playback time of the audio received, kept
/// as its two terms: `(elapsed_ms / 1000) / (audio_bytes / 32000)`.
#[derive(Clone, Copy, Debug, PartialEq, Eq, Structural)]
pub struct Speed {
    pub elapsed_ms: u64,
    pub audio_bytes: u64,
}

impl Speed {
    /// The ratio is above one: the audio arrived slower than it plays.
    /// With no audio at all the ratio is infinite when time has passed.
    pub open spec fn above_one(self) -> bool {
        self.elapsed_ms * BYTES_PER_SECOND > self.audio_bytes * 1000
    }

    /// The ratio is below one: the audio arrived faster than it plays.
    pub open spec fn below_one(self) -> bool {
        self.elapsed_ms * BYTES_PER_SECOND < self.audio_bytes * 1000
    }

    /// The ratio assumed before any measurement: 0.8.
    pub fn initial() -> (r: Speed)
        ensures
            r.elapsed_ms == 800,
            r.audio_bytes == BYTES_PER_SECOND,
            r.below_one(),
    {
        Speed { elapsed_ms: 800, audio_bytes: BYTES_PER_SECOND }
    }

    pub fn exceeds_one(&self) -> (r: bool)
        ensures
            r == self.above_one(),
    {
        (self.elapsed_ms as u128) * (BYTES_PER_SECOND as u128) > (self.audio_bytes as u128) * 1000
    }

    pub fn under_one(&self) -> (r: bool)
        ensures
            r == self.below_one(),
    {
        (self.elapsed_ms as u128) * (BYTES_PER_SECOND as u128) < (self.audio_bytes as u128) * 1000
    }
}

/// Measures how fast reply audio arrives compared with its playback time.
#[derive(Clone, Copy, Debug, PartialEq, Eq, Structural)]
pub struct DownloadMetrics {
    /// Clock reading at the last `reset`, or at creation.
    pub start_ms: u64,
    /// Bytes counted since the last `reset`.
    pub data_size: u64,
    pub timeout_sec: u64,
    /// False until the first `reset`: a meter that never measured counts as
    /// timed out.
    pub started: bool,
}

impl DownloadMetrics {
    pub open spec fn elapsed_at(self, now_ms: u64) -> u64 {
        sat_sub(now_ms, self.start_ms)
    }

    pub open spec fn timed_out_at(self, now_ms: u64) -> bool {
        !self.started || self.elapsed_at(now_ms) / 1000 > self.timeout_sec
    }

    pub open spec fn speed_at(self, now_ms: u64) -> Speed {
        Speed { elapsed_ms: self.elapsed_at(now_ms), audio_bytes: self.data_size }
    }

    /// A meter created at `now_ms`, with no measurement yet.
    pub open spec fn new_spec(now_ms: u64) -> DownloadMetrics {
        DownloadMetrics { start_ms: now_ms, data_size: 0, timeout_sec: TIMEOUT_SEC, started: false }
    }

    pub fn new(now_ms: u64) -> (r: Self)
        ensures
            r == Self::new_spec(now_ms),
            r.timed_out_at(now_ms),
    {
        DownloadMetrics { start_ms: now_ms, data_size: 0, timeout_sec: TIMEOUT_SEC, started: false }
    }

    pub fn is_timeout(&self, now_ms: u64) -> (r: bool)
        ensures
            r == self.timed_out_at(now_ms),
    {
        !self.started || self.elapsed(now_ms) / 1000 > self.timeout_sec
    }

    pub fn reset(&mut self, now_ms: u64)
        ensures
            final(self).start_ms == now_ms,
            final(self).data_size == 0,
            final(self).timeout_sec == old(self).timeout_sec,
            final(self).started,
    {
        self.start_ms = now_ms;
        self.data_size = 0;
        self.started = true;
    }

    /// Counts `size` more bytes; the count saturates at `u64::MAX`.
    pub fn add_data(&mut self, size: u64)
        ensures
            final(self).data_size == sat_add(old(self).data_size, size),
            final(self).start_ms == old(self).start_ms,
            final(self).timeout_sec == old(self).timeout_sec,
            final(self).started == old(self).started,
    {
        self.data_size = self.data_size.saturating_add(size);
    }

    /// Milliseconds since the last `reset` (zero if the clock reads earlier).
    pub fn elapsed(&self, now_ms: u64) -> (r: u64)
        ensures
            r == self.elapsed_at(now_ms),
    {
        now_ms.saturating_sub(self.start_ms)
    }

    pub fn speed(&self, now_ms: u64) -> (r: Speed)
        ensures
            r == self.speed_at(now_ms),
    {
        Speed { elapsed_ms: self.elapsed(now_ms), audio_bytes: self.data_size }
    }
}

/// The buffering policy is monotone in the measurement: with the same audio,
/// more elapsed time never turns a slow ratio into a fast one; with the same
/// time, more audio never turns a fast ratio into a slow one. A ratio of
/// exactly one is neither above nor below one.
pub proof fn lemma_speed_policy_monotone(a: Speed, b: Speed)
    ensures
        a.audio_bytes == b.audio_bytes && a.elapsed_ms <= b.elapsed_ms && a.above_one()
            ==> b.above_one(),
        a.elapsed_ms == b.elapsed_ms && a.audio_bytes <= b.audio_bytes && a.below_one()
            ==> b.below_one(),
        a.elapsed_ms * BYTES_PER_SECOND == a.audio_bytes * 1000 ==> !a.above_one()
            && !a.below_one(),
{
}

} // verus!
