//! Bookkeeping of the decode stream: the pending seek, the latest reported
//! position, and the counters that tell a current stream from a stale one.

use vstd::prelude::*;
use crate::floatbits::{f64_bits_max_zero, f64_max_zero, F64_ZERO};
use std::sync::Arc;
use std::sync::atomic::AtomicBool;

verus! {

/// `n + 1`, wrapping to zero past the largest `u32`.
pub open spec fn wrapping_next_u32(n: u32) -> u32 {
    if n == u32::MAX {
        0
    } else {
        (n + 1) as u32
    }
}

/// `n + 1`, wrapping to zero past the largest `u64`.
pub open spec fn wrapping_next_u64(n: u64) -> u64 {
    if n == u64::MAX {
        0
    } else {
        (n + 1) as u64
    }
}

/// The bookkeeping with a pending seek to `position_bits` (made
/// non-negative).
pub open spec fn with_pending_seek(v: StreamRuntimeView, position_bits: u64) -> StreamRuntimeView {
    StreamRuntimeView { pending_seek_bits: Some(f64_max_zero(position_bits)), ..v }
}

/// The bookkeeping once its pending seek is handed out.
pub open spec fn without_pending_seek(v: StreamRuntimeView) -> StreamRuntimeView {
    StreamRuntimeView { pending_seek_bits: None, ..v }
}

/// The bookkeeping after a new generation starts.
pub open spec fn next_generation(v: StreamRuntimeView) -> StreamRuntimeView {
    StreamRuntimeView { generation: wrapping_next_u32(v.generation), ..v }
}

/// What the stream bookkeeping holds. Positions are `f64` bits.
pub struct StreamRuntimeView {
    pub pending_seek_bits: Option<u64>,
    pub latest_position_bits: u64,
    pub generation: u32,
    pub restart_epoch: u64,
}

pub struct StreamRuntimeState {
    pending_seek_bits: Option<u64>,
    latest_position_bits: u64,
    generation: u32,
    restart_epoch: u64,
}

impl View for StreamRuntimeState {
    type V = StreamRuntimeView;

    closed spec fn view(&self) -> StreamRuntimeView {
        StreamRuntimeView {
            pending_seek_bits: self.pending_seek_bits,
            latest_position_bits: self.latest_position_bits,
            generation: self.generation,
            restart_epoch: self.restart_epoch,
        }
    }
}

impl Default for StreamRuntimeState {
    fn default() -> (r: Self)
        ensures
            r@.pending_seek_bits is None,
            r@.latest_position_bits == F64_ZERO,
            r@.generation == 0,
            r@.restart_epoch == 0,
    {
        StreamRuntimeState {
            pending_seek_bits: None,
            latest_position_bits: F64_ZERO,
            generation: 0,
            restart_epoch: 0,
        }
    }
}

impl StreamRuntimeState {
    /// Starts a new restart epoch and returns it.
    pub fn next_restart_epoch(&mut self) -> (r: u64)
        ensures
            r == wrapping_next_u64(old(self)@.restart_epoch),
            final(self)@ == (StreamRuntimeView { restart_epoch: r, ..old(self)@ }),
    {
        let next = if self.restart_epoch == u64::MAX {
            0
        } else {
            self.restart_epoch + 1
        };
        self.restart_epoch = next;
        next
    }

    pub fn is_restart_epoch_current(&self, epoch: u64) -> (r: bool)
        ensures
            r == (self@.restart_epoch == epoch),
    {
        self.restart_epoch == epoch
    }

    /// Records the latest position the decoder reached (`max(0.0)`).
    pub fn set_latest_position_seconds(&mut self, position_seconds_bits: u64)
        ensures
            final(self)@ == (StreamRuntimeView {
                latest_position_bits: f64_max_zero(position_seconds_bits),
                ..old(self)@
            }),
    {
        self.latest_position_bits = f64_bits_max_zero(position_seconds_bits);
    }

    pub fn latest_position_seconds(&self) -> (r: u64)
        ensures
            r == f64_max_zero(self@.latest_position_bits),
    {
        f64_bits_max_zero(self.latest_position_bits)
    }

    /// Starts a new stream generation. The counter wraps past the largest
    /// `u32`; the value returned is the old one plus one, saturating.
    pub fn advance_generation(&mut self) -> (r: u32)
        ensures
            final(self)@ == next_generation(old(self)@),
            r == (if old(self)@.generation == u32::MAX {
                u32::MAX
            } else {
                (old(self)@.generation + 1) as u32
            }),
    {
        let old = self.generation;
        self.generation = if old == u32::MAX {
            0
        } else {
            old + 1
        };
        if old == u32::MAX {
            u32::MAX
        } else {
            old + 1
        }
    }

    pub fn current_generation(&self) -> (r: u32)
        ensures
            r == self@.generation,
    {
        self.generation
    }

    pub fn is_generation_current(&self, generation: u32) -> (r: bool)
        ensures
            r == (self@.generation == generation),
    {
        self.current_generation() == generation
    }

    /// Asks the next stream to start at a position (`max(0.0)`).
    pub fn set_pending_seek_seconds(&mut self, position_seconds_bits: u64)
        ensures
            final(self)@ == with_pending_seek(old(self)@, position_seconds_bits),
    {
        self.pending_seek_bits = Some(f64_bits_max_zero(position_seconds_bits));
    }

    pub fn reset_pending_seek_to_zero(&mut self)
        ensures
            final(self)@ == (StreamRuntimeView { pending_seek_bits: Some(F64_ZERO), ..old(self)@ }),
    {
        self.pending_seek_bits = Some(F64_ZERO);
    }

    /// Hands out the pending seek, leaving none.
    pub fn take_pending_seek_seconds(&mut self) -> (r: Option<u64>)
        ensures
            r == old(self)@.pending_seek_bits,
            final(self)@ == without_pending_seek(old(self)@),
    {
        let r = self.pending_seek_bits;
        self.pending_seek_bits = None;
        r
    }
}

/// A new generation is current and tells stale streams apart: the value
/// handed out is the one stored, and differs from the one before, unless the
/// counter was at its largest value.
pub proof fn law_new_generation_is_current(before: StreamRuntimeView)
    requires
        before.generation < u32::MAX,
    ensures
        next_generation(before).generation == (before.generation + 1) as u32,
        next_generation(before).generation != before.generation,
        next_generation(before).pending_seek_bits == before.pending_seek_bits,
        next_generation(before).latest_position_bits == before.latest_position_bits,
{
}

/// A new restart epoch differs from the one before.
pub proof fn law_new_restart_epoch_differs(before: u64)
    ensures
        wrapping_next_u64(before) != before,
{
}

/// A pending seek is handed out once: taking it after setting it gives the
/// position set (made non-negative), and taking it again gives nothing.
pub proof fn law_pending_seek_taken_once(v: StreamRuntimeView, position_bits: u64)
    ensures
        with_pending_seek(v, position_bits).pending_seek_bits == Some(f64_max_zero(position_bits)),
        without_pending_seek(with_pending_seek(v, position_bits)).pending_seek_bits is None,
        without_pending_seek(with_pending_seek(v, position_bits)).latest_position_bits
            == v.latest_position_bits,
        without_pending_seek(with_pending_seek(v, position_bits)).generation == v.generation,
{
}

/// A decode stream at work: the source it reads and the flag that asks it to
/// stop.
pub struct DecodeSession<'a> {
    pub source: &'a str,
    pub stop_flag: &'a Arc<AtomicBool>,
}

/// Epoch counters of work done outside the decode stream: a paused seek's
/// preview on the main view and a timeline hover thumbnail.
pub struct MediaRuntimeState {
    pub stream: StreamRuntimeState,
    pub paused_seek_epoch: u32,
    pub preview_frame_epoch: u32,
}

impl Default for MediaRuntimeState {
    fn default() -> (r: Self)
        ensures
            r.stream@.pending_seek_bits is None,
            r.stream@.generation == 0,
            r.paused_seek_epoch == 0,
            r.preview_frame_epoch == 0,
    {
        MediaRuntimeState {
            stream: StreamRuntimeState::default(),
            paused_seek_epoch: 0,
            preview_frame_epoch: 0,
        }
    }
}

impl MediaRuntimeState {
    /// Starts the work of a new paused-seek preview; earlier work sees that
    /// its epoch is no longer the current one.
    pub fn next_paused_seek_epoch(&mut self) -> (r: u32)
        requires
            old(self).paused_seek_epoch < u32::MAX,
        ensures
            r == old(self).paused_seek_epoch + 1,
            final(self).paused_seek_epoch == r,
            final(self).preview_frame_epoch == old(self).preview_frame_epoch,
            final(self).stream == old(self).stream,
    {
        self.paused_seek_epoch = self.paused_seek_epoch + 1;
        self.paused_seek_epoch
    }

    /// Starts the work of a new hover thumbnail.
    pub fn next_preview_frame_epoch(&mut self) -> (r: u32)
        requires
            old(self).preview_frame_epoch < u32::MAX,
        ensures
            r == old(self).preview_frame_epoch + 1,
            final(self).preview_frame_epoch == r,
            final(self).paused_seek_epoch == old(self).paused_seek_epoch,
            final(self).stream == old(self).stream,
    {
        self.preview_frame_epoch = self.preview_frame_epoch + 1;
        self.preview_frame_epoch
    }
}

} // verus!
