//! What the playback commands decide, apart from starting and stopping the
//! decode thread and talking to the window: request checks, and the steps
//! each command takes on the session, the stream bookkeeping and the cache
//! recording.

use vstd::prelude::*;
use crate::error::MediaError;
use crate::floatbits::{
    f64_at_most_zero, f64_bits_at_most_zero, f64_bits_clamp, f64_bits_finite, f64_bits_max,
    f64_bits_max_zero, f64_clamp, f64_finite, f64_max, f64_max_zero, F64_FOUR, F64_ONE,
    F64_QUARTER, F64_ZERO,
};
use crate::playback::cache::{finalized_for, MediaCacheState};
use crate::playback::controls::{AudioControlsView, MediaControlState};
use crate::playback::service::{
    opened, paused, played, rated, sought, stopped, synced, MediaPlaybackService,
};
use crate::playback::stream::{MediaRuntimeState, StreamRuntimeView};
use crate::playback::types::{
    HardwareDecodeMode, PlaybackQualityMode, PlaybackState, PlaybackStatus,
};
use crate::text::append_str;

verus! {

/// Message for a request number that is infinite or NaN.
pub open spec fn not_finite_message(field: Seq<char>) -> Seq<char> {
    field + " must be a finite number"@
}

fn not_finite(field: &str) -> (r: MediaError)
    ensures
        r matches MediaError::InvalidInput(m) && m@ == not_finite_message(field@),
{
    let mut m = String::new();
    append_str(&mut m, field);
    append_str(&mut m, " must be a finite number");
    MediaError::InvalidInput(m)
}

/// A time from a request (`f64` bits): it must be finite; negative values
/// become zero.
pub fn normalize_non_negative(value_bits: u64, field: &str) -> (r: Result<u64, MediaError>)
    ensures
        match r {
            Ok(v) => f64_finite(value_bits) && v == f64_max_zero(value_bits),
            Err(MediaError::InvalidInput(m)) => !f64_finite(value_bits) && m@ == not_finite_message(
                field@,
            ),
            Err(_) => false,
        },
{
    if !f64_bits_finite(value_bits) {
        return Err(not_finite(field));
    }
    Ok(f64_bits_max_zero(value_bits))
}

/// A level from a request (`f64` bits): it must be finite, and is clamped to
/// `0.0..=1.0`.
pub fn normalize_unit_interval(value_bits: u64, field: &str) -> (r: Result<u64, MediaError>)
    ensures
        match r {
            Ok(v) => f64_finite(value_bits) && v == f64_clamp(value_bits, F64_ZERO, F64_ONE),
            Err(MediaError::InvalidInput(m)) => !f64_finite(value_bits) && m@ == not_finite_message(
                field@,
            ),
            Err(_) => false,
        },
{
    if !f64_bits_finite(value_bits) {
        return Err(not_finite(field));
    }
    Ok(f64_bits_clamp(value_bits, F64_ZERO, F64_ONE))
}

/// A playback rate from a request (`f64` bits): it must be finite, and is
/// clamped to `0.25..=4.0`.
pub fn normalize_playback_rate(playback_rate_bits: u64) -> (r: Result<u64, MediaError>)
    ensures
        match r {
            Ok(v) => f64_finite(playback_rate_bits) && v == f64_clamp(
                playback_rate_bits,
                F64_QUARTER,
                F64_FOUR,
            ),
            Err(MediaError::InvalidInput(m)) => !f64_finite(playback_rate_bits) && m@
                == "playback_rate must be a finite number"@,
            Err(_) => false,
        },
{
    if !f64_bits_finite(playback_rate_bits) {
        return Err(MediaError::invalid_input("playback_rate must be a finite number"));
    }
    Ok(f64_bits_clamp(playback_rate_bits, F64_QUARTER, F64_FOUR))
}

/// Smallest edge of a hover thumbnail, in pixels.
pub const MIN_PREVIEW_EDGE: u32 = 32;

/// Largest edge of a hover thumbnail, in pixels.
pub const MAX_PREVIEW_EDGE: u32 = 4096;

/// A thumbnail edge held within `MIN_PREVIEW_EDGE..=MAX_PREVIEW_EDGE`.
pub fn normalize_preview_edge(edge: u32) -> (r: u32)
    ensures
        r == (if edge < MIN_PREVIEW_EDGE {
            MIN_PREVIEW_EDGE
        } else if edge > MAX_PREVIEW_EDGE {
            MAX_PREVIEW_EDGE
        } else {
            edge
        }),
{
    if edge < MIN_PREVIEW_EDGE {
        MIN_PREVIEW_EDGE
    } else if edge > MAX_PREVIEW_EDGE {
        MAX_PREVIEW_EDGE
    } else {
        edge
    }
}

/// Where playback resumes: the later of the session position and the last
/// position the stream reached, and not before zero.
pub open spec fn resume_position(position_bits: u64, latest_bits: u64) -> u64 {
    f64_max(f64_max(position_bits, latest_bits), F64_ZERO)
}

/// Where a pause leaves the session: the later of its position (not before
/// zero) and the last position the stream reached.
pub open spec fn pause_position(position_bits: u64, latest_bits: u64) -> u64 {
    f64_max(f64_max(position_bits, F64_ZERO), latest_bits)
}

/// The source to restart after a decoder setting changed: the current one,
/// if it is playing.
pub open spec fn restart_source(s: PlaybackState) -> Option<String> {
    if s.status == PlaybackStatus::Playing {
        s.current_path
    } else {
        None
    }
}

/// Reason recorded on a recording cut short by opening another source.
pub open spec fn source_switch_reason() -> Seq<char> {
    "播放源已切换，录制已自动停止"@
}

/// Reason recorded on a recording cut short by stopping playback.
pub open spec fn playback_stop_reason() -> Seq<char> {
    "播放已停止，录制已自动停止"@
}

/// Message for asking adaptive quality of a source that cannot adapt.
pub open spec fn adaptive_unsupported_message() -> Seq<char> {
    "adaptive quality is not supported for current source"@
}

/// Everything the playback commands act on, apart from the decode thread.
pub struct MediaState {
    pub playback: MediaPlaybackService,
    pub runtime: MediaRuntimeState,
    pub controls: MediaControlState,
    pub cache: MediaCacheState,
}

impl Default for MediaState {
    fn default() -> (r: Self)
        ensures
            crate::playback::types::initial_playback_state(r.playback@),
            r.runtime.stream@.pending_seek_bits is None,
            r.cache.recorder is None,
    {
        MediaState {
            playback: MediaPlaybackService::default(),
            runtime: MediaRuntimeState::default(),
            controls: MediaControlState::default(),
            cache: MediaCacheState::default(),
        }
    }
}

impl MediaState {
    /// Opens a source (the decode stream already stopped): an active cache
    /// recording is finalized, the session opens the source, and the stream
    /// is set to start from zero.
    pub fn open_source(&mut self, path: String)
        ensures
            finalized_for(old(self).cache.recorder, final(self).cache.recorder, source_switch_reason()),
            final(self).playback@ == opened(old(self).playback@, path),
            final(self).runtime.stream@ == (StreamRuntimeView {
                latest_position_bits: F64_ZERO,
                pending_seek_bits: Some(F64_ZERO),
                ..old(self).runtime.stream@
            }),
            final(self).runtime.paused_seek_epoch == old(self).runtime.paused_seek_epoch,
            final(self).runtime.preview_frame_epoch == old(self).runtime.preview_frame_epoch,
    {
        self.cache.finalize_active("播放源已切换，录制已自动停止");
        self.playback.open(path);
        self.runtime.stream.set_latest_position_seconds(F64_ZERO);
        self.runtime.stream.reset_pending_seek_to_zero();
    }

    /// Starts playing: the session resumes at `resume_position`, which the
    /// next stream is asked to start from. Returns the source to stream.
    pub fn resume(&mut self) -> (r: Option<String>)
        ensures
            ({
                let pos = resume_position(
                    old(self).playback@.position_seconds_bits,
                    f64_max_zero(old(self).runtime.stream@.latest_position_bits),
                );
                &&& final(self).playback@ == sought(played(old(self).playback@), pos)
                &&& final(self).runtime.stream@ == (StreamRuntimeView {
                    pending_seek_bits: Some(f64_max_zero(pos)),
                    ..old(self).runtime.stream@
                })
                &&& r == old(self).playback@.current_path
            }),
            final(self).cache.recorder == old(self).cache.recorder,
    {
        let latest = self.runtime.stream.latest_position_seconds();
        let st = self.playback.play();
        let resume = f64_bits_max(f64_bits_max(st.position_seconds_bits, latest), F64_ZERO);
        self.playback.seek(resume);
        self.runtime.stream.set_pending_seek_seconds(resume);
        st.current_path
    }

    /// Pauses (the decode stream already stopped), keeping the furthest
    /// position reached.
    pub fn pause_session(&mut self)
        ensures
            final(self).playback@ == paused(
                sought(
                    old(self).playback@,
                    pause_position(
                        old(self).playback@.position_seconds_bits,
                        f64_max_zero(old(self).runtime.stream@.latest_position_bits),
                    ),
                ),
            ),
            final(self).runtime.stream@ == old(self).runtime.stream@,
            final(self).cache.recorder == old(self).cache.recorder,
    {
        let latest = self.runtime.stream.latest_position_seconds();
        let st = self.playback.state();
        let current = f64_bits_max(st.position_seconds_bits, F64_ZERO);
        let resume = f64_bits_max(current, latest);
        self.playback.seek(resume);
        self.playback.pause();
    }

    /// Stops (the decode stream already stopped): an active recording is
    /// finalized, the session stops at zero, and the next stream starts from
    /// zero. Returns the source that was open, to show its first frame.
    pub fn stop_session(&mut self) -> (r: Option<String>)
        ensures
            finalized_for(old(self).cache.recorder, final(self).cache.recorder, playback_stop_reason()),
            final(self).playback@ == stopped(old(self).playback@),
            final(self).runtime.stream@ == (StreamRuntimeView {
                latest_position_bits: F64_ZERO,
                pending_seek_bits: Some(F64_ZERO),
                ..old(self).runtime.stream@
            }),
            r == old(self).playback@.current_path,
    {
        self.cache.finalize_active("播放已停止，录制已自动停止");
        self.runtime.stream.set_latest_position_seconds(F64_ZERO);
        let st = self.playback.state();
        self.playback.stop();
        self.runtime.stream.reset_pending_seek_to_zero();
        st.current_path
    }

    /// Seeks to a requested position (`f64` bits, which must be finite).
    /// Returns the source and status after the seek: a paused source needs
    /// its frame at the new position drawn.
    pub fn seek_to(&mut self, position_seconds_bits: u64) -> (r: Result<
        (Option<String>, PlaybackStatus),
        MediaError,
    >)
        ensures
            !f64_finite(position_seconds_bits) ==> (r matches Err(MediaError::InvalidInput(m)) && m@
                == not_finite_message("position_seconds"@) && final(self).playback@ == old(
                self,
            ).playback@ && final(self).runtime.stream@ == old(self).runtime.stream@),
            f64_finite(position_seconds_bits) ==> ({
                let p = f64_max_zero(position_seconds_bits);
                &&& final(self).playback@ == sought(old(self).playback@, p)
                &&& final(self).runtime.stream@ == (StreamRuntimeView {
                    pending_seek_bits: Some(p),
                    latest_position_bits: p,
                    ..old(self).runtime.stream@
                })
                &&& r matches Ok((path, status)) && path == old(self).playback@.current_path
                    && status == old(self).playback@.status
            }),
            final(self).cache.recorder == old(self).cache.recorder,
    {
        let p = match normalize_non_negative(position_seconds_bits, "position_seconds") {
            Ok(p) => p,
            Err(e) => {
                proof {
                    reveal_strlit("position_seconds");
                }
                return Err(e);
            },
        };
        let st = self.playback.seek(p);
        self.runtime.stream.set_pending_seek_seconds(p);
        self.runtime.stream.set_latest_position_seconds(p);
        Ok((st.current_path, st.status))
    }

    /// Sets the rate from a request (`f64` bits, which must be finite).
    /// Returns the rate clamped to `0.25..=4.0`, which the timing controls
    /// take as an `f32`; the session keeps it clamped to `3.0`.
    pub fn set_rate(&mut self, playback_rate_bits: u64) -> (r: Result<u64, MediaError>)
        ensures
            match r {
                Ok(v) => f64_finite(playback_rate_bits) && v == f64_clamp(
                    playback_rate_bits,
                    F64_QUARTER,
                    F64_FOUR,
                ) && final(self).playback@ == rated(old(self).playback@, v),
                Err(MediaError::InvalidInput(m)) => !f64_finite(playback_rate_bits) && m@
                    == "playback_rate must be a finite number"@ && final(self).playback@ == old(
                    self,
                ).playback@,
                Err(_) => false,
            },
            final(self).runtime.stream@ == old(self).runtime.stream@,
    {
        let rate = match normalize_playback_rate(playback_rate_bits) {
            Ok(v) => v,
            Err(e) => {
                return Err(e);
            },
        };
        self.playback.set_rate(rate);
        Ok(rate)
    }

    /// Sets the volume from a request (`f64` bits, which must be finite).
    /// Returns the level clamped to `0.0..=1.0`, which the audio controls
    /// take as an `f32`; a level of zero mutes, any other unmutes.
    pub fn set_volume(&mut self, volume_bits: u64) -> (r: Result<u64, MediaError>)
        ensures
            match r {
                Ok(v) => f64_finite(volume_bits) && v == f64_clamp(volume_bits, F64_ZERO, F64_ONE)
                    && final(self).controls.audio@ == (AudioControlsView {
                    muted: f64_at_most_zero(v),
                    ..old(self).controls.audio@
                }),
                Err(MediaError::InvalidInput(m)) => !f64_finite(volume_bits) && m@
                    == not_finite_message("volume"@) && final(self).controls.audio@ == old(
                    self,
                ).controls.audio@,
                Err(_) => false,
            },
    {
        let v = match normalize_unit_interval(volume_bits, "volume") {
            Ok(v) => v,
            Err(e) => {
                proof {
                    reveal_strlit("volume");
                }
                return Err(e);
            },
        };
        self.controls.audio.set_muted(f64_bits_at_most_zero(v));
        Ok(v)
    }

    /// Changes the hardware decode preference; the decoder status is reset
    /// until the next stream reports it. Returns the source to restart, if
    /// one is playing.
    pub fn set_hw_decode_mode(&mut self, mode: HardwareDecodeMode) -> (r: Option<String>)
        ensures
            final(self).playback@ == (PlaybackState {
                hw_decode_mode: mode,
                hw_decode_active: false,
                hw_decode_backend: None,
                hw_decode_error: None,
                ..old(self).playback@
            }),
            r == restart_source(old(self).playback@),
            final(self).runtime.stream@ == old(self).runtime.stream@,
    {
        self.playback.set_hw_decode_mode(mode);
        let st = self.playback.update_hw_decode_status(false, None, None);
        if st.status == PlaybackStatus::Playing {
            st.current_path
        } else {
            None
        }
    }

    /// Changes the quality mode; adaptive quality needs a source that can
    /// adapt. Returns the source to restart, if one is playing.
    pub fn set_quality_mode(&mut self, mode: PlaybackQualityMode) -> (r: Result<
        Option<String>,
        MediaError,
    >)
        ensures
            (mode == PlaybackQualityMode::Auto && !old(self).playback@.adaptive_quality_supported)
                ==> (r matches Err(MediaError::InvalidInput(m)) && m@
                == adaptive_unsupported_message() && final(self).playback@ == old(self).playback@),
            !(mode == PlaybackQualityMode::Auto && !old(self).playback@.adaptive_quality_supported)
                ==> (final(self).playback@ == (PlaybackState {
                quality_mode: mode,
                ..old(self).playback@
            }) && r == Ok::<Option<String>, MediaError>(restart_source(old(self).playback@))),
            final(self).runtime.stream@ == old(self).runtime.stream@,
    {
        if mode == PlaybackQualityMode::Auto && !self.playback.adaptive_quality_supported() {
            return Err(
                MediaError::invalid_input("adaptive quality is not supported for current source"),
            );
        }
        let st = self.playback.set_quality_mode(mode);
        if st.status == PlaybackStatus::Playing {
            Ok(st.current_path)
        } else {
            Ok(None)
        }
    }

    /// Before a playing stream restarts: the session moves to
    /// `resume_position`, which the new stream is asked to start from.
    /// Returns that position.
    pub fn prepare_restart(&mut self) -> (r: u64)
        ensures
            r == resume_position(
                old(self).playback@.position_seconds_bits,
                f64_max_zero(old(self).runtime.stream@.latest_position_bits),
            ),
            final(self).playback@ == sought(old(self).playback@, r),
            final(self).runtime.stream@ == (StreamRuntimeView {
                pending_seek_bits: Some(f64_max_zero(r)),
                ..old(self).runtime.stream@
            }),
    {
        let latest = self.runtime.stream.latest_position_seconds();
        let st = self.playback.state();
        let pos = f64_bits_max(f64_bits_max(st.position_seconds_bits, latest), F64_ZERO);
        self.playback.seek(pos);
        self.runtime.stream.set_pending_seek_seconds(pos);
        pos
    }

    /// Records the position and length the front end reports (`f64` bits,
    /// each of which must be finite). Returns the open source.
    pub fn sync_position(&mut self, position_seconds_bits: u64, duration_seconds_bits: u64) -> (r:
        Result<Option<String>, MediaError>)
        ensures
            !f64_finite(position_seconds_bits) ==> (r matches Err(MediaError::InvalidInput(m)) && m@
                == not_finite_message("position_seconds"@)),
            f64_finite(position_seconds_bits) && !f64_finite(duration_seconds_bits) ==> (r matches Err(
                MediaError::InvalidInput(m),
            ) && m@ == not_finite_message("duration_seconds"@)),
            r is Err ==> final(self).playback@ == old(self).playback@,
            f64_finite(position_seconds_bits) && f64_finite(duration_seconds_bits) ==> (
            final(self).playback@ == synced(
                old(self).playback@,
                f64_max_zero(position_seconds_bits),
                f64_max_zero(duration_seconds_bits),
            ) && r == Ok::<Option<String>, MediaError>(old(self).playback@.current_path)),
    {
        let p = match normalize_non_negative(position_seconds_bits, "position_seconds") {
            Ok(p) => p,
            Err(e) => {
                proof {
                    reveal_strlit("position_seconds");
                }
                return Err(e);
            },
        };
        let d = match normalize_non_negative(duration_seconds_bits, "duration_seconds") {
            Ok(d) => d,
            Err(e) => {
                proof {
                    reveal_strlit("duration_seconds");
                }
                return Err(e);
            },
        };
        let st = self.playback.sync_position(p, d);
        Ok(st.current_path)
    }

    /// Progress the decode stream reports: the end of the stream stops the
    /// session and rewinds the stream to zero; otherwise the position and
    /// length are recorded.
    pub fn record_progress(
        &mut self,
        position_seconds_bits: u64,
        duration_seconds_bits: u64,
        finalize: bool,
    ) -> (r: PlaybackState)
        ensures
            finalize ==> final(self).playback@ == stopped(old(self).playback@)
                && final(self).runtime.stream@ == (StreamRuntimeView {
                latest_position_bits: F64_ZERO,
                pending_seek_bits: Some(F64_ZERO),
                ..old(self).runtime.stream@
            }),
            !finalize ==> final(self).playback@ == synced(
                old(self).playback@,
                position_seconds_bits,
                duration_seconds_bits,
            ) && final(self).runtime.stream@ == old(self).runtime.stream@,
            r == final(self).playback@,
    {
        if finalize {
            self.playback.stop();
            self.runtime.stream.set_latest_position_seconds(F64_ZERO);
            self.runtime.stream.reset_pending_seek_to_zero();
        } else {
            self.playback.sync_position(position_seconds_bits, duration_seconds_bits);
        }
        self.playback.state()
    }
}

/// A resumed session never starts before zero, and never before the
/// furthest point the stream reached, whatever position the session held.
pub proof fn law_resume_not_before_stream(position_bits: u64, latest_bits: u64)
    requires
        !crate::floatbits::f64_nan(latest_bits),
        !crate::floatbits::f64_negative(latest_bits),
    ensures
        !crate::floatbits::f64_nan(resume_position(position_bits, latest_bits)),
        !crate::floatbits::f64_less(resume_position(position_bits, latest_bits), F64_ZERO),
        !crate::floatbits::f64_less(resume_position(position_bits, latest_bits), latest_bits),
{
}

} // verus!
