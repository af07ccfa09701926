//! Audio and timing controls the decode loop reads: volume levels as `f32`
//! bit patterns, mute switches and channel routing.

use vstd::prelude::*;
use crate::floatbits::{
    f32_bits_clamp, f32_bits_positive_or_one, f32_clamp, f32_finite, f32_nan, f32_negative,
    f32_positive_or_one, F32_ONE, F32_QUARTER, F32_THREE, F32_ZERO,
};
use crate::playback::types::PlaybackChannelRouting;

verus! {

/// Channel routing stored as a byte: `1` and `2` route one side to both
/// speakers, any other value is stereo.
pub open spec fn routing_of_code(code: u8) -> PlaybackChannelRouting {
    if code == 1 {
        PlaybackChannelRouting::LeftToBoth
    } else if code == 2 {
        PlaybackChannelRouting::RightToBoth
    } else {
        PlaybackChannelRouting::Stereo
    }
}

/// The byte that stores a routing.
pub open spec fn code_of_routing(routing: PlaybackChannelRouting) -> u8 {
    match routing {
        PlaybackChannelRouting::Stereo => 0,
        PlaybackChannelRouting::LeftToBoth => 1,
        PlaybackChannelRouting::RightToBoth => 2,
    }
}

/// Volume and mute settings. All start at zero bits and `false`: a zero
/// volume reads as full volume, and the routing starts as stereo.
pub struct AudioControls {
    volume_bits: u32,
    muted: bool,
    left_volume_bits: u32,
    right_volume_bits: u32,
    left_muted: bool,
    right_muted: bool,
    channel_routing: u8,
}

/// What the controls hold.
pub struct AudioControlsView {
    pub volume_bits: u32,
    pub muted: bool,
    pub left_volume_bits: u32,
    pub right_volume_bits: u32,
    pub left_muted: bool,
    pub right_muted: bool,
    pub channel_routing: u8,
}

impl View for AudioControls {
    type V = AudioControlsView;

    closed spec fn view(&self) -> AudioControlsView {
        AudioControlsView {
            volume_bits: self.volume_bits,
            muted: self.muted,
            left_volume_bits: self.left_volume_bits,
            right_volume_bits: self.right_volume_bits,
            left_muted: self.left_muted,
            right_muted: self.right_muted,
            channel_routing: self.channel_routing,
        }
    }
}

impl Default for AudioControls {
    fn default() -> (r: Self)
        ensures
            r@.volume_bits == 0,
            !r@.muted,
            r@.left_volume_bits == 0,
            r@.right_volume_bits == 0,
            !r@.left_muted,
            !r@.right_muted,
            r@.channel_routing == 0,
    {
        AudioControls {
            volume_bits: 0,
            muted: false,
            left_volume_bits: 0,
            right_volume_bits: 0,
            left_muted: false,
            right_muted: false,
            channel_routing: 0,
        }
    }
}

impl AudioControls {
    /// The volume as `f32` bits: the stored level when it is a number above
    /// zero (at most 1.0), full volume otherwise.
    pub fn volume(&self) -> (r: u32)
        ensures
            r == f32_positive_or_one(self@.volume_bits, F32_ONE),
    {
        f32_bits_positive_or_one(self.volume_bits, F32_ONE)
    }

    /// Stores a volume given as `f32` bits, clamped to `0.0..=1.0`.
    pub fn set_volume(&mut self, value_bits: u32)
        ensures
            final(self)@ == (AudioControlsView {
                volume_bits: f32_clamp(value_bits, F32_ZERO, F32_ONE),
                ..old(self)@
            }),
    {
        self.volume_bits = f32_bits_clamp(value_bits, F32_ZERO, F32_ONE);
    }

    /// The level the audio output plays at, as `f32` bits: zero when muted,
    /// the volume otherwise.
    pub fn output_volume(&self) -> (r: u32)
        ensures
            r == (if self@.muted {
                F32_ZERO
            } else {
                f32_positive_or_one(self@.volume_bits, F32_ONE)
            }),
    {
        if self.muted {
            F32_ZERO
        } else {
            self.volume()
        }
    }

    pub fn muted(&self) -> (r: bool)
        ensures
            r == self@.muted,
    {
        self.muted
    }

    pub fn set_muted(&mut self, value: bool)
        ensures
            final(self)@ == (AudioControlsView { muted: value, ..old(self)@ }),
    {
        self.muted = value;
    }

    /// The left channel level, read as `volume` reads the master level.
    pub fn left_volume(&self) -> (r: u32)
        ensures
            r == f32_positive_or_one(self@.left_volume_bits, F32_ONE),
    {
        f32_bits_positive_or_one(self.left_volume_bits, F32_ONE)
    }

    pub fn set_left_volume(&mut self, value_bits: u32)
        ensures
            final(self)@ == (AudioControlsView {
                left_volume_bits: f32_clamp(value_bits, F32_ZERO, F32_ONE),
                ..old(self)@
            }),
    {
        self.left_volume_bits = f32_bits_clamp(value_bits, F32_ZERO, F32_ONE);
    }

    /// The right channel level, read as `volume` reads the master level.
    pub fn right_volume(&self) -> (r: u32)
        ensures
            r == f32_positive_or_one(self@.right_volume_bits, F32_ONE),
    {
        f32_bits_positive_or_one(self.right_volume_bits, F32_ONE)
    }

    pub fn set_right_volume(&mut self, value_bits: u32)
        ensures
            final(self)@ == (AudioControlsView {
                right_volume_bits: f32_clamp(value_bits, F32_ZERO, F32_ONE),
                ..old(self)@
            }),
    {
        self.right_volume_bits = f32_bits_clamp(value_bits, F32_ZERO, F32_ONE);
    }

    pub fn left_muted(&self) -> (r: bool)
        ensures
            r == self@.left_muted,
    {
        self.left_muted
    }

    pub fn set_left_muted(&mut self, value: bool)
        ensures
            final(self)@ == (AudioControlsView { left_muted: value, ..old(self)@ }),
    {
        self.left_muted = value;
    }

    pub fn right_muted(&self) -> (r: bool)
        ensures
            r == self@.right_muted,
    {
        self.right_muted
    }

    pub fn set_right_muted(&mut self, value: bool)
        ensures
            final(self)@ == (AudioControlsView { right_muted: value, ..old(self)@ }),
    {
        self.right_muted = value;
    }

    pub fn channel_routing(&self) -> (r: PlaybackChannelRouting)
        ensures
            r == routing_of_code(self@.channel_routing),
    {
        if self.channel_routing == 1 {
            PlaybackChannelRouting::LeftToBoth
        } else if self.channel_routing == 2 {
            PlaybackChannelRouting::RightToBoth
        } else {
            PlaybackChannelRouting::Stereo
        }
    }

    pub fn set_channel_routing(&mut self, value: PlaybackChannelRouting)
        ensures
            final(self)@ == (AudioControlsView {
                channel_routing: code_of_routing(value),
                ..old(self)@
            }),
    {
        let encoded: u8 = match value {
            PlaybackChannelRouting::Stereo => 0,
            PlaybackChannelRouting::LeftToBoth => 1,
            PlaybackChannelRouting::RightToBoth => 2,
        };
        self.channel_routing = encoded;
    }
}

/// A routing that is set is the routing that is read back.
pub proof fn law_channel_routing_roundtrip(routing: PlaybackChannelRouting)
    ensures
        routing_of_code(code_of_routing(routing)) == routing,
{
}

/// A volume set to a number in `(0.0, 1.0]` reads back unchanged; one set to
/// zero or below reads back as full volume.
pub proof fn law_volume_roundtrip(value_bits: u32)
    ensures
        (f32_finite(value_bits) && !f32_negative(value_bits) && F32_ZERO < value_bits <= F32_ONE)
            ==> f32_positive_or_one(f32_clamp(value_bits, F32_ZERO, F32_ONE), F32_ONE)
            == value_bits,
        (f32_negative(value_bits) || value_bits == F32_ZERO) && !f32_nan(value_bits)
            ==> f32_positive_or_one(f32_clamp(value_bits, F32_ZERO, F32_ONE), F32_ONE) == F32_ONE,
{
}

/// The playback rate the decode loop reads, as `f32` bits.
pub struct TimingControls {
    playback_rate_bits: u32,
}

impl View for TimingControls {
    type V = u32;

    closed spec fn view(&self) -> u32 {
        self.playback_rate_bits
    }
}

/// A stored rate read back: a number above zero, clamped to `0.25..=3.0`;
/// anything else reads as `1.0`.
pub open spec fn rate_read(b: u32) -> u32 {
    if f32_finite(b) && !f32_negative(b) && b > F32_ZERO {
        f32_clamp(b, F32_QUARTER, F32_THREE)
    } else {
        F32_ONE
    }
}

impl Default for TimingControls {
    fn default() -> (r: Self)
        ensures
            r@ == 0,
    {
        TimingControls { playback_rate_bits: 0 }
    }
}

impl TimingControls {
    /// The rate as `f32` bits (1.0 until one is set).
    pub fn playback_rate(&self) -> (r: u32)
        ensures
            r == rate_read(self@),
    {
        let b = self.playback_rate_bits;
        if b % 0x8000_0000u32 < 0x7F80_0000u32 && b < 0x8000_0000u32 && b > F32_ZERO {
            f32_bits_clamp(b, F32_QUARTER, F32_THREE)
        } else {
            F32_ONE
        }
    }

    /// Stores a rate given as `f32` bits, clamped to `0.25..=3.0`.
    pub fn set_playback_rate(&mut self, value_bits: u32)
        ensures
            final(self)@ == f32_clamp(value_bits, F32_QUARTER, F32_THREE),
    {
        self.playback_rate_bits = f32_bits_clamp(value_bits, F32_QUARTER, F32_THREE);
    }
}

/// The controls shared by the commands and the decode loop.
pub struct MediaControlState {
    pub audio: AudioControls,
    pub timing: TimingControls,
}

impl Default for MediaControlState {
    fn default() -> (r: Self)
        ensures
            r.audio@.volume_bits == 0,
            !r.audio@.muted,
            r.audio@.channel_routing == 0,
            r.timing@ == 0,
    {
        MediaControlState { audio: AudioControls::default(), timing: TimingControls::default() }
    }
}

} // verus!
