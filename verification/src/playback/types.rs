//! Values of the playback session.

use vstd::prelude::*;
use crate::floatbits::{F64_ONE, F64_ZERO};
use crate::transcode::state::copy_opt_string;

verus! {

#[derive(Debug, Clone, Copy, PartialEq, Eq, Structural)]
pub enum PlaybackStatus {
    Idle,
    Playing,
    Paused,
    Stopped,
}

#[derive(Debug, Clone, Copy, PartialEq, Eq, Structural)]
pub enum HardwareDecodeMode {
    Auto,
    On,
    Off,
}

impl Default for HardwareDecodeMode {
    fn default() -> (r: Self)
        ensures
            r == HardwareDecodeMode::Auto,
    {
        HardwareDecodeMode::Auto
    }
}

#[derive(Debug, Clone, Copy, PartialEq, Eq, Structural)]
pub enum PlaybackQualityMode {
    Source,
    Auto,
    P1080,
    P720,
    P480,
    P320,
}

impl Default for PlaybackQualityMode {
    fn default() -> (r: Self)
        ensures
            r == PlaybackQualityMode::Source,
    {
        PlaybackQualityMode::Source
    }
}

/// How the two audio channels reach the speakers.
#[derive(Debug, Clone, Copy, PartialEq, Eq, Structural)]
pub enum PlaybackChannelRouting {
    Stereo,
    LeftToBoth,
    RightToBoth,
}

/// The playback session as the front end sees it. Times and the rate are
/// `f64` values held as their bit patterns.
#[derive(Debug)]
pub struct PlaybackState {
    pub engine: String,
    pub status: PlaybackStatus,
    pub current_path: Option<String>,
    pub position_seconds_bits: u64,
    pub duration_seconds_bits: u64,
    pub playback_rate_bits: u64,
    pub error: Option<String>,
    pub hw_decode_mode: HardwareDecodeMode,
    pub hw_decode_active: bool,
    pub hw_decode_backend: Option<String>,
    pub hw_decode_error: Option<String>,
    pub quality_mode: PlaybackQualityMode,
    pub adaptive_quality_supported: bool,
}

/// The state of a session that has opened nothing yet.
pub open spec fn initial_playback_state(s: PlaybackState) -> bool {
    &&& s.engine@ == "mpv"@
    &&& s.status == PlaybackStatus::Idle
    &&& s.current_path is None
    &&& s.position_seconds_bits == F64_ZERO
    &&& s.duration_seconds_bits == F64_ZERO
    &&& s.playback_rate_bits == F64_ONE
    &&& s.error is None
    &&& s.hw_decode_mode == HardwareDecodeMode::Auto
    &&& !s.hw_decode_active
    &&& s.hw_decode_backend is None
    &&& s.hw_decode_error is None
    &&& s.quality_mode == PlaybackQualityMode::Source
    &&& !s.adaptive_quality_supported
}

impl Default for PlaybackState {
    fn default() -> (r: Self)
        ensures
            initial_playback_state(r),
    {
        PlaybackState {
            engine: String::from_str("mpv"),
            status: PlaybackStatus::Idle,
            current_path: None,
            position_seconds_bits: F64_ZERO,
            duration_seconds_bits: F64_ZERO,
            playback_rate_bits: F64_ONE,
            error: None,
            hw_decode_mode: HardwareDecodeMode::Auto,
            hw_decode_active: false,
            hw_decode_backend: None,
            hw_decode_error: None,
            quality_mode: PlaybackQualityMode::Source,
            adaptive_quality_supported: false,
        }
    }
}

impl PlaybackState {
    /// A field-by-field copy.
    pub fn duplicate(&self) -> (r: Self)
        ensures
            r == *self,
    {
        PlaybackState {
            engine: self.engine.clone(),
            status: self.status,
            current_path: copy_opt_string(&self.current_path),
            position_seconds_bits: self.position_seconds_bits,
            duration_seconds_bits: self.duration_seconds_bits,
            playback_rate_bits: self.playback_rate_bits,
            error: copy_opt_string(&self.error),
            hw_decode_mode: self.hw_decode_mode,
            hw_decode_active: self.hw_decode_active,
            hw_decode_backend: copy_opt_string(&self.hw_decode_backend),
            hw_decode_error: copy_opt_string(&self.hw_decode_error),
            quality_mode: self.quality_mode,
            adaptive_quality_supported: self.adaptive_quality_supported,
        }
    }
}

/// What the front end is told about cache recording.
#[derive(Debug)]
pub struct CacheRecordingStatus {
    pub recording: bool,
    pub source: Option<String>,
    pub output_path: Option<String>,
    pub finalized_output_path: Option<String>,
    pub output_size_bytes: Option<u64>,
    pub started_at_ms: Option<u64>,
    pub error_message: Option<String>,
    pub fallback_transcoding: Option<bool>,
}

impl CacheRecordingStatus {
    /// The status when no recording exists.
    pub fn idle() -> (r: Self)
        ensures
            !r.recording,
            r.source is None,
            r.output_path is None,
            r.finalized_output_path is None,
            r.output_size_bytes is None,
            r.started_at_ms is None,
            r.error_message is None,
            r.fallback_transcoding is None,
    {
        CacheRecordingStatus {
            recording: false,
            source: None,
            output_path: None,
            finalized_output_path: None,
            output_size_bytes: None,
            started_at_ms: None,
            error_message: None,
            fallback_transcoding: None,
        }
    }
}

} // verus!
