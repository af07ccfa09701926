//! The playback session service: what each command does to the session.

use vstd::prelude::*;
use crate::floatbits::{
    f64_bits_clamp, f64_bits_max_zero, f64_clamp, f64_max_zero, f64_nan, f64_negative, F64_QUARTER,
    F64_THREE, F64_ZERO,
};
use crate::playback::types::{
    HardwareDecodeMode, PlaybackQualityMode, PlaybackState, PlaybackStatus, initial_playback_state,
};
use crate::text::{ascii_lower, ascii_lower_chars, chars_of, contains, has_infix, trim, trimmed_chars};

verus! {

/// A source whose quality can adapt: an HLS (`.m3u8`) or DASH (`.mpd`)
/// address, in any ASCII case, surrounding whitespace ignored.
pub open spec fn adaptive_quality_source(source: Seq<char>) -> bool {
    let n = ascii_lower(trim(source));
    has_infix(n, ".m3u8"@) || has_infix(n, ".mpd"@)
}

pub fn is_adaptive_quality_source(source: &str) -> (r: bool)
    ensures
        r == adaptive_quality_source(source@),
{
    let t = trimmed_chars(source);
    let n = ascii_lower_chars(t.as_slice());
    let hls = chars_of(".m3u8");
    let dash = chars_of(".mpd");
    contains(n.as_slice(), hls.as_slice()) || contains(n.as_slice(), dash.as_slice())
}

/// The session after opening `source`: paused at zero with nothing known of
/// its length, no error, no hardware decoding yet, and the source quality.
pub open spec fn opened(s: PlaybackState, source: String) -> PlaybackState {
    PlaybackState {
        current_path: Some(source),
        position_seconds_bits: F64_ZERO,
        duration_seconds_bits: F64_ZERO,
        status: PlaybackStatus::Paused,
        error: None,
        hw_decode_active: false,
        hw_decode_backend: None,
        hw_decode_error: None,
        quality_mode: PlaybackQualityMode::Source,
        adaptive_quality_supported: adaptive_quality_source(source@),
        ..s
    }
}

/// The session once playing: any error is cleared.
pub open spec fn played(s: PlaybackState) -> PlaybackState {
    PlaybackState { status: PlaybackStatus::Playing, error: None, ..s }
}

/// The session once paused.
pub open spec fn paused(s: PlaybackState) -> PlaybackState {
    PlaybackState { status: PlaybackStatus::Paused, ..s }
}

/// The session once stopped: back at the start.
pub open spec fn stopped(s: PlaybackState) -> PlaybackState {
    PlaybackState { status: PlaybackStatus::Stopped, position_seconds_bits: F64_ZERO, ..s }
}

/// The session at a new position (`position.max(0.0)`).
pub open spec fn sought(s: PlaybackState, position_bits: u64) -> PlaybackState {
    PlaybackState { position_seconds_bits: f64_max_zero(position_bits), ..s }
}

/// The session at a new rate (`rate.clamp(0.25, 3.0)`).
pub open spec fn rated(s: PlaybackState, rate_bits: u64) -> PlaybackState {
    PlaybackState { playback_rate_bits: f64_clamp(rate_bits, F64_QUARTER, F64_THREE), ..s }
}

/// The session with position and length reported by the decoder, each
/// `max(0.0)`.
pub open spec fn synced(s: PlaybackState, position_bits: u64, duration_bits: u64) -> PlaybackState {
    PlaybackState {
        position_seconds_bits: f64_max_zero(position_bits),
        duration_seconds_bits: f64_max_zero(duration_bits),
        ..s
    }
}

pub struct MediaPlaybackService {
    state: PlaybackState,
}

impl View for MediaPlaybackService {
    type V = PlaybackState;

    closed spec fn view(&self) -> PlaybackState {
        self.state
    }
}

impl Default for MediaPlaybackService {
    fn default() -> (r: Self)
        ensures
            initial_playback_state(r@),
    {
        MediaPlaybackService { state: PlaybackState::default() }
    }
}

impl MediaPlaybackService {
    pub fn state(&mut self) -> (r: PlaybackState)
        ensures
            r == old(self)@,
            final(self)@ == old(self)@,
    {
        self.state.duplicate()
    }

    pub fn open(&mut self, source: String) -> (r: PlaybackState)
        ensures
            final(self)@ == opened(old(self)@, source),
            r == final(self)@,
    {
        let adaptive_quality_supported = is_adaptive_quality_source(source.as_str());
        self.state.current_path = Some(source);
        self.state.position_seconds_bits = F64_ZERO;
        self.state.duration_seconds_bits = F64_ZERO;
        self.state.status = PlaybackStatus::Paused;
        self.state.error = None;
        self.state.hw_decode_active = false;
        self.state.hw_decode_backend = None;
        self.state.hw_decode_error = None;
        self.state.quality_mode = PlaybackQualityMode::Source;
        self.state.adaptive_quality_supported = adaptive_quality_supported;
        self.state.duplicate()
    }

    pub fn play(&mut self) -> (r: PlaybackState)
        ensures
            final(self)@ == played(old(self)@),
            r == final(self)@,
    {
        self.state.status = PlaybackStatus::Playing;
        self.state.error = None;
        self.state.duplicate()
    }

    pub fn pause(&mut self) -> (r: PlaybackState)
        ensures
            final(self)@ == paused(old(self)@),
            r == final(self)@,
    {
        self.state.status = PlaybackStatus::Paused;
        self.state.duplicate()
    }

    pub fn stop(&mut self) -> (r: PlaybackState)
        ensures
            final(self)@ == stopped(old(self)@),
            r == final(self)@,
    {
        self.state.status = PlaybackStatus::Stopped;
        self.state.position_seconds_bits = F64_ZERO;
        self.state.duplicate()
    }

    /// Moves to a position, given as the bits of an `f64` number of seconds.
    pub fn seek(&mut self, position_seconds_bits: u64) -> (r: PlaybackState)
        ensures
            final(self)@ == sought(old(self)@, position_seconds_bits),
            r == final(self)@,
    {
        self.state.position_seconds_bits = f64_bits_max_zero(position_seconds_bits);
        self.state.duplicate()
    }

    /// Sets the rate, given as the bits of an `f64`.
    pub fn set_rate(&mut self, playback_rate_bits: u64) -> (r: PlaybackState)
        ensures
            final(self)@ == rated(old(self)@, playback_rate_bits),
            r == final(self)@,
    {
        self.state.playback_rate_bits = f64_bits_clamp(playback_rate_bits, F64_QUARTER, F64_THREE);
        self.state.duplicate()
    }

    pub fn hw_decode_mode(&self) -> (r: HardwareDecodeMode)
        ensures
            r == self@.hw_decode_mode,
    {
        self.state.hw_decode_mode
    }

    pub fn set_hw_decode_mode(&mut self, mode: HardwareDecodeMode) -> (r: PlaybackState)
        ensures
            final(self)@ == (PlaybackState { hw_decode_mode: mode, ..old(self)@ }),
            r == final(self)@,
    {
        self.state.hw_decode_mode = mode;
        self.state.duplicate()
    }

    pub fn update_hw_decode_status(
        &mut self,
        active: bool,
        backend: Option<String>,
        error: Option<String>,
    ) -> (r: PlaybackState)
        ensures
            final(self)@ == (PlaybackState {
                hw_decode_active: active,
                hw_decode_backend: backend,
                hw_decode_error: error,
                ..old(self)@
            }),
            r == final(self)@,
    {
        self.state.hw_decode_active = active;
        self.state.hw_decode_backend = backend;
        self.state.hw_decode_error = error;
        self.state.duplicate()
    }

    pub fn quality_mode(&self) -> (r: PlaybackQualityMode)
        ensures
            r == self@.quality_mode,
    {
        self.state.quality_mode
    }

    pub fn set_quality_mode(&mut self, mode: PlaybackQualityMode) -> (r: PlaybackState)
        ensures
            final(self)@ == (PlaybackState { quality_mode: mode, ..old(self)@ }),
            r == final(self)@,
    {
        self.state.quality_mode = mode;
        self.state.duplicate()
    }

    pub fn adaptive_quality_supported(&self) -> (r: bool)
        ensures
            r == self@.adaptive_quality_supported,
    {
        self.state.adaptive_quality_supported
    }

    /// Records the position and length the decoder reports, as `f64` bits.
    pub fn sync_position(&mut self, position_seconds_bits: u64, duration_seconds_bits: u64) -> (r:
        PlaybackState)
        ensures
            final(self)@ == synced(old(self)@, position_seconds_bits, duration_seconds_bits),
            r == final(self)@,
    {
        self.state.position_seconds_bits = f64_bits_max_zero(position_seconds_bits);
        self.state.duration_seconds_bits = f64_bits_max_zero(duration_seconds_bits);
        self.state.duplicate()
    }
}

/// Opening a source starts it afresh: paused at zero, at source quality, with
/// no error and no hardware decode status, whatever came before. Only the
/// engine, the rate and the hardware decode preference carry over.
pub proof fn law_open_starts_afresh(a: PlaybackState, b: PlaybackState, source: String)
    requires
        a.engine == b.engine,
        a.playback_rate_bits == b.playback_rate_bits,
        a.hw_decode_mode == b.hw_decode_mode,
    ensures
        opened(a, source) == opened(b, source),
        opened(a, source).status == PlaybackStatus::Paused,
        opened(a, source).position_seconds_bits == F64_ZERO,
        opened(a, source).quality_mode == PlaybackQualityMode::Source,
        opened(a, source).current_path == Some(source),
{
}

/// Positions that seeks and decoder reports leave are never negative and
/// never NaN.
pub proof fn law_positions_stay_valid(s: PlaybackState, position_bits: u64, duration_bits: u64)
    ensures
        !f64_negative(sought(s, position_bits).position_seconds_bits),
        !f64_nan(sought(s, position_bits).position_seconds_bits),
        !f64_negative(synced(s, position_bits, duration_bits).position_seconds_bits),
        !f64_nan(synced(s, position_bits, duration_bits).position_seconds_bits),
        !f64_negative(synced(s, position_bits, duration_bits).duration_seconds_bits),
        !f64_nan(synced(s, position_bits, duration_bits).duration_seconds_bits),
{
}

/// A rate that is a number ends up between 0.25 and 3.0.
pub proof fn law_rate_within_bounds(s: PlaybackState, rate_bits: u64)
    requires
        !f64_nan(rate_bits),
    ensures
        F64_QUARTER <= rated(s, rate_bits).playback_rate_bits <= F64_THREE,
{
}

/// Stopping rewinds: playing after a stop starts from zero, and the rest of
/// the session is kept.
pub proof fn law_stop_rewinds(s: PlaybackState)
    ensures
        played(stopped(s)).position_seconds_bits == F64_ZERO,
        played(stopped(s)).status == PlaybackStatus::Playing,
        played(stopped(s)).current_path == s.current_path,
        played(stopped(s)).quality_mode == s.quality_mode,
{
}

} // verus!
