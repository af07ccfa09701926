//! Video presentation: the scale mode, the bounded queue of frames waiting
//! to be shown, surface sizes, and the copies of decoded picture planes.

use vstd::prelude::*;
use std::collections::VecDeque;
use crate::floatbits::{f64_bits_finite, f64_finite, f64_negative, F64_NEG_ZERO, F64_ONE, F64_THREE, F64_ZERO};
use crate::text::{append_str, ascii_lower, ascii_lower_chars, equals_str, string_from_chars, trim, trimmed_chars};

verus! {

#[derive(Debug, Clone, Copy, PartialEq, Eq, Structural)]
pub enum VideoScaleMode {
    Contain,
    Cover,
}

/// The mode stored as a byte: `1` is cover, anything else contain.
pub open spec fn scale_mode_of_code(value: u8) -> VideoScaleMode {
    if value == 1 {
        VideoScaleMode::Cover
    } else {
        VideoScaleMode::Contain
    }
}

/// The byte that stores a mode.
pub open spec fn code_of_scale_mode(mode: VideoScaleMode) -> u8 {
    match mode {
        VideoScaleMode::Contain => 0,
        VideoScaleMode::Cover => 1,
    }
}

/// The mode a request names: `contain` or `cover`, trimmed, in any ASCII
/// case.
pub open spec fn scale_mode_named(value: Seq<char>) -> Option<VideoScaleMode> {
    let n = ascii_lower(trim(value));
    if n == "contain"@ {
        Some(VideoScaleMode::Contain)
    } else if n == "cover"@ {
        Some(VideoScaleMode::Cover)
    } else {
        None
    }
}

impl VideoScaleMode {
    pub fn from_u8(value: u8) -> (r: Self)
        ensures
            r == scale_mode_of_code(value),
    {
        if value == 1 {
            VideoScaleMode::Cover
        } else {
            VideoScaleMode::Contain
        }
    }

    pub fn as_u8(self) -> (r: u8)
        ensures
            r == code_of_scale_mode(self),
    {
        match self {
            VideoScaleMode::Contain => 0,
            VideoScaleMode::Cover => 1,
        }
    }

    /// The mode a request names; an unknown name is refused with the
    /// normalized name in the message.
    pub fn parse(value: &str) -> (r: Result<Self, String>)
        ensures
            match r {
                Ok(m) => scale_mode_named(value@) == Some(m),
                Err(e) => scale_mode_named(value@) is None && e@
                    == "unsupported video scale mode: "@ + ascii_lower(trim(value@)),
            },
    {
        let t = trimmed_chars(value);
        let n = ascii_lower_chars(t.as_slice());
        if equals_str(n.as_slice(), "contain") {
            Ok(VideoScaleMode::Contain)
        } else if equals_str(n.as_slice(), "cover") {
            Ok(VideoScaleMode::Cover)
        } else {
            let mut msg = String::from_str("unsupported video scale mode: ");
            let name = string_from_chars(n.as_slice());
            append_str(&mut msg, name.as_str());
            Err(msg)
        }
    }
}

/// A stored mode reads back as the mode that was stored.
pub proof fn law_scale_mode_roundtrip(mode: VideoScaleMode)
    ensures
        scale_mode_of_code(code_of_scale_mode(mode)) == mode,
{
}

/// Most frames waiting to be presented.
pub const FRAME_QUEUE_CAPACITY: usize = 6;

/// The frames waiting to be presented, oldest first. When the decoder runs
/// ahead of presentation, the oldest frames are dropped so that the queue
/// never holds more than `FRAME_QUEUE_CAPACITY`.
pub struct FrameQueue<T> {
    frames: VecDeque<T>,
}

impl<T> View for FrameQueue<T> {
    type V = Seq<T>;

    closed spec fn view(&self) -> Seq<T> {
        self.frames@
    }
}

/// The queue after `frame` is submitted to `q`: the oldest frames beyond
/// room for one more are dropped, and the frame goes last.
pub open spec fn submitted<T>(q: Seq<T>, frame: T) -> Seq<T> {
    let keep = if q.len() >= FRAME_QUEUE_CAPACITY {
        q.skip(q.len() - (FRAME_QUEUE_CAPACITY - 1))
    } else {
        q
    };
    keep.push(frame)
}

impl<T> FrameQueue<T> {
    pub fn new() -> (r: Self)
        ensures
            r@ == Seq::<T>::empty(),
    {
        FrameQueue { frames: VecDeque::new() }
    }

    pub fn queue_depth(&self) -> (r: usize)
        ensures
            r == self@.len(),
    {
        self.frames.len()
    }

    pub fn can_accept_frame(&self) -> (r: bool)
        ensures
            r == (self@.len() < FRAME_QUEUE_CAPACITY),
    {
        self.frames.len() < FRAME_QUEUE_CAPACITY
    }

    pub fn submit(&mut self, frame: T)
        ensures
            final(self)@ == submitted(old(self)@, frame),
    {
        while self.frames.len() >= FRAME_QUEUE_CAPACITY
            invariant
                self.frames@.len() >= FRAME_QUEUE_CAPACITY - 1 ==> self.frames@ == old(
                    self,
                ).frames@.skip(old(self).frames@.len() - self.frames@.len()),
                self.frames@.len() <= old(self).frames@.len(),
                old(self).frames@.len() < FRAME_QUEUE_CAPACITY ==> self.frames@ == old(
                    self,
                ).frames@,
                old(self).frames@.len() >= FRAME_QUEUE_CAPACITY ==> self.frames@.len()
                    >= FRAME_QUEUE_CAPACITY - 1,
            decreases self.frames@.len(),
        {
            let ghost before = self.frames@;
            self.frames.pop_front();
            proof {
                assert(self.frames@ =~= before.drop_first());
                assert(self.frames@ =~= old(self).frames@.skip(
                    old(self).frames@.len() - self.frames@.len(),
                ));
            }
        }
        proof {
            if old(self).frames@.len() >= FRAME_QUEUE_CAPACITY {
                assert(self.frames@.len() == FRAME_QUEUE_CAPACITY - 1);
            }
        }
        self.frames.push_back(frame);
    }

    /// Takes the oldest frame.
    pub fn pop_front(&mut self) -> (r: Option<T>)
        ensures
            old(self)@.len() == 0 ==> r is None && final(self)@ == old(self)@,
            old(self)@.len() > 0 ==> r == Some(old(self)@[0]) && final(self)@ == old(
                self,
            )@.drop_first(),
    {
        let r = self.frames.pop_front();
        proof {
            if old(self)@.len() > 0 {
                assert(self.frames@ =~= old(self)@.drop_first());
            }
        }
        r
    }

    /// Drops every waiting frame.
    pub fn clear(&mut self)
        ensures
            final(self)@ == Seq::<T>::empty(),
    {
        self.frames.clear();
    }
}

/// The queue stays within its capacity, and a submitted frame is always
/// the newest one waiting, behind the newest of those that were there.
pub proof fn law_frame_queue_bounded<T>(q: Seq<T>, frame: T)
    requires
        q.len() <= FRAME_QUEUE_CAPACITY,
    ensures
        submitted(q, frame).len() <= FRAME_QUEUE_CAPACITY,
        submitted(q, frame).last() == frame,
        q.len() < FRAME_QUEUE_CAPACITY ==> submitted(q, frame) == q.push(frame),
        q.len() == FRAME_QUEUE_CAPACITY ==> submitted(q, frame) == q.drop_first().push(frame),
{
    if q.len() == FRAME_QUEUE_CAPACITY {
        assert(q.skip(1) =~= q.drop_first());
    }
}

/// How finished frames reach the screen, as the graphics backend offers them.
#[derive(Debug, Clone, Copy, PartialEq, Eq, Structural)]
pub enum PresentMode {
    AutoVsync,
    AutoNoVsync,
    Fifo,
    FifoRelaxed,
    Immediate,
    Mailbox,
}

/// The present mode picked among those a surface supports: `Fifo` where it
/// is offered, else `AutoVsync`, else the first offered, else `Fifo`.
pub open spec fn present_mode_choice(candidates: Seq<PresentMode>) -> PresentMode {
    if candidates.contains(PresentMode::Fifo) {
        PresentMode::Fifo
    } else if candidates.contains(PresentMode::AutoVsync) {
        PresentMode::AutoVsync
    } else if candidates.len() > 0 {
        candidates[0]
    } else {
        PresentMode::Fifo
    }
}

fn offers_mode(candidates: &[PresentMode], mode: PresentMode) -> (r: bool)
    ensures
        r == candidates@.contains(mode),
{
    let mut i: usize = 0;
    while i < candidates.len()
        invariant
            i <= candidates@.len(),
            forall|j: int| 0 <= j < i ==> candidates@[j] != mode,
        decreases candidates@.len() - i,
    {
        if candidates[i] == mode {
            return true;
        }
        i = i + 1;
    }
    false
}

pub fn select_present_mode(candidates: &[PresentMode]) -> (r: PresentMode)
    ensures
        r == present_mode_choice(candidates@),
{
    if offers_mode(candidates, PresentMode::Fifo) {
        PresentMode::Fifo
    } else if offers_mode(candidates, PresentMode::AutoVsync) {
        PresentMode::AutoVsync
    } else if candidates.len() > 0 {
        candidates[0]
    } else {
        PresentMode::Fifo
    }
}

/// A surface size made presentable: each side at least 1 and at most
/// `max_extent` (itself at least 1).
pub open spec fn clamp_extent(side: u32, max_extent: u32) -> u32 {
    let hi = if max_extent < 1 {
        1u32
    } else {
        max_extent
    };
    let lo = if side < 1 {
        1u32
    } else {
        side
    };
    if lo > hi {
        hi
    } else {
        lo
    }
}

pub fn sanitize_surface_size(width: u32, height: u32, max_extent: u32) -> (r: (u32, u32))
    ensures
        r == (clamp_extent(width, max_extent), clamp_extent(height, max_extent)),
{
    let hi = if max_extent < 1 {
        1
    } else {
        max_extent
    };
    let w = if width < 1 {
        1
    } else {
        width
    };
    let h = if height < 1 {
        1
    } else {
        height
    };
    (if w > hi {
        hi
    } else {
        w
    }, if h > hi {
        hi
    } else {
        h
    })
}

/// The first `rows` rows of a plane, each `row_bytes` long, read from
/// `data` where consecutive rows start `stride` bytes apart.
pub open spec fn plane_rows(data: Seq<u8>, stride: int, row_bytes: int, rows: nat) -> Seq<u8>
    decreases rows,
{
    if rows == 0 {
        Seq::empty()
    } else {
        let start = (rows - 1) * stride;
        plane_rows(data, stride, row_bytes, (rows - 1) as nat) + data.subrange(
            start,
            start + row_bytes,
        )
    }
}

/// Copies the rows of a picture plane without their padding.
pub fn copy_plane_rows(data: &[u8], stride: usize, row_bytes: usize, rows: usize) -> (r: Vec<u8>)
    requires
        rows == 0 || (rows - 1) * stride + row_bytes <= data@.len(),
    ensures
        r@ == plane_rows(data@, stride as int, row_bytes as int, rows as nat),
{
    let mut out: Vec<u8> = Vec::new();
    let n = data.len();
    let mut y: usize = 0;
    while y < rows
        invariant
            n == data@.len(),
            y <= rows,
            rows == 0 || (rows - 1) * stride + row_bytes <= data@.len(),
            out@ == plane_rows(data@, stride as int, row_bytes as int, y as nat),
        decreases rows - y,
    {
        assert(y as int * stride as int <= (rows - 1) as int * stride as int) by (nonlinear_arith)
            requires
                y < rows,
        ;
        let start = y * stride;
        assert(start + row_bytes <= data@.len());
        let mut x: usize = 0;
        let ghost before = out@;
        while x < row_bytes
            invariant
                n == data@.len(),
                x <= row_bytes,
                start + row_bytes <= data@.len(),
                out@ == before + data@.subrange(start as int, start + x),
            decreases row_bytes - x,
        {
            out.push(data[start + x]);
            x += 1;
            assert(out@ =~= before + data@.subrange(start as int, start + x));
        }
        proof {
            assert(((y + 1) - 1) as int * stride as int == start as int);
        }
        y += 1;
    }
    out
}

/// RGBA pixels of packed RGB bytes, every pixel made opaque.
pub open spec fn rgba_of_rgb(s: Seq<u8>) -> Seq<u8>
    decreases s.len(),
{
    if s.len() < 3 {
        Seq::empty()
    } else {
        let n = s.len() - 3;
        rgba_of_rgb(s.subrange(0, n)) + seq![s[n], s[n + 1], s[n + 2], 255u8]
    }
}

/// RGBA pixels of the first `rows` rows of a packed RGB picture `width`
/// pixels wide whose rows start `stride` bytes apart.
pub open spec fn rgba_rows(data: Seq<u8>, stride: int, width: int, rows: nat) -> Seq<u8>
    decreases rows,
{
    if rows == 0 {
        Seq::empty()
    } else {
        let start = (rows - 1) * stride;
        rgba_rows(data, stride, width, (rows - 1) as nat) + rgba_of_rgb(
            data.subrange(start, start + 3 * width),
        )
    }
}

/// What converting an RGB frame for a GIF gives: its RGBA pixels, or why it
/// cannot be converted.
pub open spec fn gif_frame_pixels(data: Seq<u8>, stride: usize, width: usize, height: usize) -> Result<
    Seq<u8>,
    Seq<char>,
> {
    let needed = if stride * height > usize::MAX {
        usize::MAX as int
    } else {
        stride * height
    };
    if width == 0 || height == 0 {
        Err("GIF 帧尺寸无效"@)
    } else if data.len() < needed {
        Err("GIF 帧数据不完整"@)
    } else {
        Ok(rgba_rows(data, stride as int, width as int, height as nat))
    }
}

/// Converts a packed RGB frame to opaque RGBA for the GIF encoder.
pub fn rgb24_frame_to_rgba(data: &[u8], stride: usize, width: usize, height: usize) -> (r: Result<
    Vec<u8>,
    String,
>)
    requires
        4 * width * height <= isize::MAX,
        width == 0 || height == 0 || data@.len() < (if stride * height > usize::MAX {
            usize::MAX as int
        } else {
            stride * height
        }) || (height - 1) * stride + 3 * width <= data@.len(),
    ensures
        match r {
            Ok(v) => gif_frame_pixels(data@, stride, width, height) == Ok::<Seq<u8>, Seq<char>>(v@),
            Err(e) => gif_frame_pixels(data@, stride, width, height) == Err::<Seq<u8>, Seq<char>>(
                e@,
            ),
        },
{
    if width == 0 || height == 0 {
        return Err(String::from_str("GIF 帧尺寸无效"));
    }
    let needed = match stride.checked_mul(height) {
        Some(v) => v,
        None => usize::MAX,
    };
    if data.len() < needed {
        return Err(String::from_str("GIF 帧数据不完整"));
    }
    assert(3 * width <= 4 * width * height) by (nonlinear_arith)
        requires
            height >= 1,
    ;
    let row_bytes = width * 3;
    let n = data.len();
    let mut out: Vec<u8> = Vec::new();
    let mut y: usize = 0;
    while y < height
        invariant
            n == data@.len(),
            y <= height,
            height >= 1,
            row_bytes == 3 * width,
            (height - 1) * stride + 3 * width <= data@.len(),
            out@ == rgba_rows(data@, stride as int, width as int, y as nat),
        decreases height - y,
    {
        assert(y as int * stride as int <= (height - 1) as int * stride as int) by (nonlinear_arith)
            requires
                y < height,
        ;
        let start = y * stride;
        let mut x: usize = 0;
        let ghost before = out@;
        assert(data@.subrange(start as int, start as int) =~= Seq::<u8>::empty());
        while x < width
            invariant
                n == data@.len(),
                x <= width,
                row_bytes == 3 * width,
                start + row_bytes <= data@.len(),
                out@ == before + rgba_of_rgb(data@.subrange(start as int, start + 3 * x)),
            decreases width - x,
        {
            let p = start + 3 * x;
            out.push(data[p]);
            out.push(data[p + 1]);
            out.push(data[p + 2]);
            out.push(255u8);
            proof {
                let next = data@.subrange(start as int, start + 3 * (x + 1));
                assert(next.subrange(0, next.len() - 3) =~= data@.subrange(
                    start as int,
                    start + 3 * x,
                ));
                assert(next[next.len() - 3] == data@[p as int]);
                assert(next[next.len() - 2] == data@[p + 1]);
                assert(next[next.len() - 1] == data@[p + 2]);
            }
            x += 1;
            assert(out@ =~= before + rgba_of_rgb(data@.subrange(start as int, start + 3 * x)));
        }
        proof {
            assert(((y + 1) - 1) as int * stride as int == start as int);
        }
        y += 1;
    }
    Ok(out)
}

/// The rate the presentation clock runs at (`f64` bits): a positive finite
/// rate, at most 3.0; anything else runs at 1.0.
pub open spec fn clock_rate_of(rate_bits: u64) -> u64 {
    if f64_finite(rate_bits) && !f64_negative(rate_bits) && rate_bits > F64_ZERO {
        if rate_bits > F64_THREE {
            F64_THREE
        } else {
            rate_bits
        }
    } else {
        F64_ONE
    }
}

pub fn clock_rate(rate_bits: u64) -> (r: u64)
    ensures
        r == clock_rate_of(rate_bits),
{
    if f64_bits_finite(rate_bits) && rate_bits < F64_NEG_ZERO && rate_bits > F64_ZERO {
        if rate_bits > F64_THREE {
            F64_THREE
        } else {
            rate_bits
        }
    } else {
        F64_ONE
    }
}

} // verus!
