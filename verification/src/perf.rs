//! Counters the decode loop keeps about itself: frame cost, frame rate and
//! dropped frames. Times are integers (microseconds or nanoseconds on a
//! monotonic clock); rates and averages are left to the caller.

use vstd::prelude::*;

verus! {

/// One second, in nanoseconds.
pub const NANOS_PER_SECOND: u64 = 1_000_000_000;

/// Frame decode costs gathered since the last report.
pub struct VideoPerfWindow {
    pub samples: u64,
    pub total_micros: u128,
    pub max_micros: u64,
}

impl Default for VideoPerfWindow {
    fn default() -> (r: Self)
        ensures
            r.samples == 0,
            r.total_micros == 0,
            r.max_micros == 0,
    {
        VideoPerfWindow { samples: 0, total_micros: 0, max_micros: 0 }
    }
}

/// `a + b`, saturating at the largest value of the type's range `max`.
pub open spec fn saturating_add(a: int, b: int, max: int) -> int {
    if a + b > max {
        max
    } else {
        a + b
    }
}

/// What a report of the window gives: the number of frames, their total and
/// their largest cost in microseconds.
pub struct VideoPerfSnapshot {
    pub samples: u64,
    pub total_micros: u128,
    pub max_micros: u64,
}

/// What the video pipeline keeps about the frames it prepares.
pub struct VideoFramePipeline {
    pub integrity: VideoIntegrityStats,
    pub perf_window: VideoPerfWindow,
}

impl VideoFramePipeline {
    /// Adds the cost of one frame, in microseconds; the sums saturate, and a
    /// cost beyond `u64` counts as the largest `u64`.
    pub fn record_frame_cost(&mut self, cost_micros: u128)
        ensures
            final(self).perf_window.samples == saturating_add(old(self).perf_window.samples as int, 1, u64::MAX as int),
            final(self).perf_window.total_micros == saturating_add(
                old(self).perf_window.total_micros as int,
                cost_micros as int,
                u128::MAX as int,
            ),
            final(self).perf_window.max_micros == ({
                let c = if cost_micros > u64::MAX as u128 {
                    u64::MAX
                } else {
                    cost_micros as u64
                };
                if c > old(self).perf_window.max_micros {
                    c
                } else {
                    old(self).perf_window.max_micros
                }
            }),
            final(self).integrity == old(self).integrity,
    {
        self.perf_window.samples = if self.perf_window.samples == u64::MAX {
            u64::MAX
        } else {
            self.perf_window.samples + 1
        };
        self.perf_window.total_micros = match self.perf_window.total_micros.checked_add(cost_micros) {
            Some(t) => t,
            None => u128::MAX,
        };
        let c: u64 = if cost_micros > u64::MAX as u128 {
            u64::MAX
        } else {
            cost_micros as u64
        };
        if c > self.perf_window.max_micros {
            self.perf_window.max_micros = c;
        }
    }

    /// Hands out what was gathered and starts a new window; nothing when no
    /// frame was recorded.
    pub fn take_perf_snapshot(&mut self) -> (r: Option<VideoPerfSnapshot>)
        ensures
            old(self).perf_window.samples == 0 ==> r is None && final(self).perf_window.samples == old(self).perf_window.samples
                && final(self).perf_window.total_micros == old(self).perf_window.total_micros && final(self).perf_window.max_micros
                == old(self).perf_window.max_micros,
            old(self).perf_window.samples != 0 ==> (r matches Some(s) && s.samples == old(self).perf_window.samples
                && s.total_micros == old(self).perf_window.total_micros && s.max_micros == old(
                self,
            ).perf_window.max_micros) && final(self).perf_window.samples == 0 && final(self).perf_window.total_micros == 0
                && final(self).perf_window.max_micros == 0,
            final(self).integrity == old(self).integrity,
    {
        if self.perf_window.samples == 0 {
            return None;
        }
        let snapshot = VideoPerfSnapshot {
            samples: self.perf_window.samples,
            total_micros: self.perf_window.total_micros,
            max_micros: self.perf_window.max_micros,
        };
        self.perf_window.samples = 0;
        self.perf_window.total_micros = 0;
        self.perf_window.max_micros = 0;
        Some(snapshot)
    }
}

impl Default for VideoFramePipeline {
    fn default() -> (r: Self)
        ensures
            r.perf_window.samples == 0,
            r.integrity.dropped_hw_transfer == 0,
            r.integrity.last_emit_nanos is None,
    {
        VideoFramePipeline {
            integrity: VideoIntegrityStats::default(),
            perf_window: VideoPerfWindow::default(),
        }
    }
}

/// Frames counted over a window of about one second.
pub struct FpsWindow {
    pub started_at_nanos: Option<u64>,
    pub frames: u32,
}

impl Default for FpsWindow {
    fn default() -> (r: Self)
        ensures
            r.started_at_nanos is None,
            r.frames == 0,
    {
        FpsWindow { started_at_nanos: None, frames: 0 }
    }
}

impl FpsWindow {
    /// Counts a frame shown at `now_nanos`. Once a second or more has passed
    /// since the window started, returns the frames counted and the time
    /// elapsed (their ratio is the frame rate), and starts a new window.
    pub fn record_frame_and_compute(&mut self, now_nanos: u64) -> (r: Option<(u32, u64)>)
        ensures
            ({
                let started = match old(self).started_at_nanos {
                    Some(s) => s,
                    None => now_nanos,
                };
                let frames = saturating_add(old(self).frames as int, 1, u32::MAX as int);
                let elapsed = if now_nanos >= started {
                    now_nanos - started
                } else {
                    0
                };
                if elapsed >= NANOS_PER_SECOND {
                    &&& r == Some((frames as u32, elapsed as u64))
                    &&& final(self).started_at_nanos == Some(now_nanos)
                    &&& final(self).frames == 0
                } else {
                    &&& r is None
                    &&& final(self).started_at_nanos == Some(started)
                    &&& final(self).frames == frames
                }
            }),
    {
        let started = match self.started_at_nanos {
            Some(s) => s,
            None => now_nanos,
        };
        self.started_at_nanos = Some(started);
        self.frames = if self.frames == u32::MAX {
            u32::MAX
        } else {
            self.frames + 1
        };
        let elapsed = if now_nanos >= started {
            now_nanos - started
        } else {
            0
        };
        if elapsed >= NANOS_PER_SECOND {
            let frames = self.frames;
            self.started_at_nanos = Some(now_nanos);
            self.frames = 0;
            return Some((frames, elapsed));
        }
        None
    }
}

/// Frames the video pipeline had to drop, and how often the colour profile
/// drifted, with the time of the last report (nanoseconds).
pub struct VideoIntegrityStats {
    pub dropped_hw_transfer: u64,
    pub dropped_nv12_extract: u64,
    pub color_profile_drift: u64,
    pub last_emit_nanos: Option<u64>,
}

impl Default for VideoIntegrityStats {
    fn default() -> (r: Self)
        ensures
            r.dropped_hw_transfer == 0,
            r.dropped_nv12_extract == 0,
            r.color_profile_drift == 0,
            r.last_emit_nanos is None,
    {
        VideoIntegrityStats {
            dropped_hw_transfer: 0,
            dropped_nv12_extract: 0,
            color_profile_drift: 0,
            last_emit_nanos: None,
        }
    }
}

/// Reports of the integrity counters are at least this far apart, in
/// milliseconds.
pub const METRICS_EMIT_INTERVAL_MS: u64 = 1000;

fn saturating_inc(n: u64) -> (r: u64)
    ensures
        r == saturating_add(n as int, 1, u64::MAX as int),
{
    if n == u64::MAX {
        n
    } else {
        n + 1
    }
}

impl VideoFramePipeline {
    /// Counts a frame dropped because it could not leave the GPU.
    pub fn on_hw_transfer_failed(&mut self)
        ensures
            final(self).integrity.dropped_hw_transfer == saturating_add(
                old(self).integrity.dropped_hw_transfer as int,
                1,
                u64::MAX as int,
            ),
            final(self).integrity.dropped_nv12_extract == old(self).integrity.dropped_nv12_extract,
            final(self).integrity.color_profile_drift == old(self).integrity.color_profile_drift,
            final(self).integrity.last_emit_nanos == old(self).integrity.last_emit_nanos,
            final(self).perf_window == old(self).perf_window,
    {
        self.integrity.dropped_hw_transfer = saturating_inc(self.integrity.dropped_hw_transfer);
    }

    /// Counts a frame dropped because its planes could not be read.
    pub fn on_nv12_extract_failed(&mut self)
        ensures
            final(self).integrity.dropped_nv12_extract == saturating_add(
                old(self).integrity.dropped_nv12_extract as int,
                1,
                u64::MAX as int,
            ),
            final(self).integrity.dropped_hw_transfer == old(self).integrity.dropped_hw_transfer,
            final(self).integrity.color_profile_drift == old(self).integrity.color_profile_drift,
            final(self).integrity.last_emit_nanos == old(self).integrity.last_emit_nanos,
            final(self).perf_window == old(self).perf_window,
    {
        self.integrity.dropped_nv12_extract = saturating_inc(self.integrity.dropped_nv12_extract);
    }

    /// Counts a change of colour profile within one stream.
    pub fn on_color_profile_drift(&mut self)
        ensures
            final(self).integrity.color_profile_drift == saturating_add(
                old(self).integrity.color_profile_drift as int,
                1,
                u64::MAX as int,
            ),
            final(self).integrity.dropped_hw_transfer == old(self).integrity.dropped_hw_transfer,
            final(self).integrity.dropped_nv12_extract == old(self).integrity.dropped_nv12_extract,
            final(self).integrity.last_emit_nanos == old(self).integrity.last_emit_nanos,
            final(self).perf_window == old(self).perf_window,
    {
        self.integrity.color_profile_drift = saturating_inc(self.integrity.color_profile_drift);
    }

    /// Whether to report the counters at `now_nanos`: the first time, and
    /// then once the interval has passed; a report marks the time.
    pub fn integrity_report_due(&mut self, now_nanos: u64) -> (r: bool)
        ensures
            r == match old(self).integrity.last_emit_nanos {
                Some(last) => now_nanos >= last && now_nanos - last >= METRICS_EMIT_INTERVAL_MS
                    * 1_000_000,
                None => true,
            },
            r ==> final(self).integrity.last_emit_nanos == Some(now_nanos),
            !r ==> final(self).integrity.last_emit_nanos == old(self).integrity.last_emit_nanos,
            final(self).integrity.dropped_hw_transfer == old(self).integrity.dropped_hw_transfer,
            final(self).integrity.dropped_nv12_extract == old(self).integrity.dropped_nv12_extract,
            final(self).integrity.color_profile_drift == old(self).integrity.color_profile_drift,
            final(self).perf_window == old(self).perf_window,
    {
        let due = match self.integrity.last_emit_nanos {
            Some(last) => now_nanos >= last && now_nanos - last >= METRICS_EMIT_INTERVAL_MS
                * 1_000_000,
            None => true,
        };
        if due {
            self.integrity.last_emit_nanos = Some(now_nanos);
        }
        due
    }
}

} // verus!
