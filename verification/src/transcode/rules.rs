//! The rules that turn transcode requests into jobs and job results:
//! request fields, output formats and codecs, target sizes and outcomes.

use vstd::prelude::*;
use crate::paths::{extension_chars, path_extension};
use crate::text::{
    after_first_char, append_str, before_char, chars_after_first, chars_before, chars_of,
    decimal, decimal_chars, equals_str, string_from_chars, trim, trim_str,
    trimmed_chars, lowercased, lowercase_str, ascii_lower, is_ascii_text,
    lemma_ascii_lower_keeps_non_ascii, lemma_after_first_char, lemma_before_char,
    lemma_trimmed_is_fixed, is_ws, trimmed,
};
use crate::transcode::state::TranscodeJobKind;
use crate::codecs::{optimized_png, oxipng_optimized};

verus! {

/// Message for a blank required path.
pub open spec fn blank_field_message(field_name: Seq<char>) -> Seq<char> {
    field_name + " 不能为空"@
}

/// A required path, trimmed; blank is refused with the field's name.
pub fn validate_path(value: &str, field_name: &str) -> (r: Result<String, String>)
    ensures
        match r {
            Ok(s) => trim(value@).len() > 0 && s@ == trim(value@),
            Err(e) => trim(value@).len() == 0 && e@ == blank_field_message(field_name@),
        },
{
    let t = trimmed_chars(value);
    if t.len() == 0 {
        let mut msg = String::from_str("");
        append_str(&mut msg, field_name);
        append_str(&mut msg, " 不能为空");
        proof {
            reveal_strlit("");
        }
        Err(msg)
    } else {
        Ok(string_from_chars(t.as_slice()))
    }
}

/// A request choice as it is compared: trimmed, then lowercased
/// (`str::to_lowercase`).
pub open spec fn normalized(s: Seq<char>) -> Seq<char> {
    lowercased(trim(s))
}

fn normalize(s: &str) -> (r: Vec<char>)
    ensures
        r@ == normalized(s@),
{
    let t = trim_str(s);
    let l = lowercase_str(t.as_str());
    chars_of(l.as_str())
}

/// The file extension a `container/codec+codec` format asks for: its
/// container part, or `fallback` when the format is blank.
pub open spec fn extension_from_format(format: Seq<char>, fallback: Seq<char>) -> Seq<char> {
    let n = normalized(format);
    if n.len() == 0 {
        fallback
    } else {
        before_char(before_char(n, '/'), '+')
    }
}

pub fn derive_extension_from_format(format: &str, fallback: &str) -> (r: String)
    ensures
        r@ == extension_from_format(format@, fallback@),
{
    let n = normalize(format);
    if n.len() == 0 {
        let mut r = String::new();
        append_str(&mut r, fallback);
        return r;
    }
    let a = chars_before(n.as_slice(), '/');
    let b = chars_before(a.as_slice(), '+');
    string_from_chars(b.as_slice())
}

/// Container and video codec of a video transcode.
#[derive(Debug, Clone)]
pub struct VideoTranscodePlan {
    pub container: String,
    pub video_codec: String,
}

/// Container and video codec named by a `container/video+audio` format:
/// blank means MP4 with H.264, a missing codec part means `h264+aac`, and a
/// GIF container always uses the GIF codec.
pub open spec fn video_plan_of(value: Seq<char>) -> (Seq<char>, Seq<char>) {
    let t = normalized(value);
    if t.len() == 0 {
        ("mp4"@, "h264"@)
    } else {
        let container = before_char(t, '/');
        let codec_part = match after_first_char(t, '/') {
            Some(p) => p,
            None => "h264+aac"@,
        };
        if container == "gif"@ {
            (container, "gif"@)
        } else {
            (container, before_char(codec_part, '+'))
        }
    }
}

pub fn parse_video_plan(value: &str) -> (r: Result<VideoTranscodePlan, String>)
    ensures
        r matches Ok(p) && (p.container@, p.video_codec@) == video_plan_of(value@),
{
    let t = normalize(value);
    if t.len() == 0 {
        return Ok(
            VideoTranscodePlan {
                container: String::from_str("mp4"),
                video_codec: String::from_str("h264"),
            },
        );
    }
    let container = chars_before(t.as_slice(), '/');
    if equals_str(container.as_slice(), "gif") {
        return Ok(
            VideoTranscodePlan {
                container: string_from_chars(container.as_slice()),
                video_codec: String::from_str("gif"),
            },
        );
    }
    let codec_part = match chars_after_first(t.as_slice(), '/') {
        Some(p) => p,
        None => chars_of("h264+aac"),
    };
    let codec = chars_before(codec_part.as_slice(), '+');
    Ok(
        VideoTranscodePlan {
            container: string_from_chars(container.as_slice()),
            video_codec: string_from_chars(codec.as_slice()),
        },
    )
}

/// Target height named by a resolution choice: `Some(None)` keeps the source
/// size (blank or `source`), `None` for an unknown choice.
pub open spec fn resolution_height(resolution: Seq<char>) -> Option<Option<u32>> {
    let r = normalized(resolution);
    if r.len() == 0 || r == "source"@ {
        Some(None)
    } else if r == "1080p"@ {
        Some(Some(1080u32))
    } else if r == "720p"@ {
        Some(Some(720u32))
    } else if r == "480p"@ {
        Some(Some(480u32))
    } else if r == "360p"@ {
        Some(Some(360u32))
    } else if r == "240p"@ {
        Some(Some(240u32))
    } else if r == "120p"@ {
        Some(Some(120u32))
    } else {
        None
    }
}

/// Message for an unknown resolution choice.
pub open spec fn unsupported_resolution_message(resolution: Seq<char>) -> Seq<char> {
    "不支持的分辨率: "@ + resolution
}

pub fn parse_resolution_height(resolution: &str) -> (r: Result<Option<u32>, String>)
    ensures
        match r {
            Ok(h) => resolution_height(resolution@) == Some(h),
            Err(e) => resolution_height(resolution@) is None && e@
                == unsupported_resolution_message(resolution@),
        },
{
    let r = normalize(resolution);
    let s = r.as_slice();
    if r.len() == 0 || equals_str(s, "source") {
        Ok(None)
    } else if equals_str(s, "1080p") {
        Ok(Some(1080))
    } else if equals_str(s, "720p") {
        Ok(Some(720))
    } else if equals_str(s, "480p") {
        Ok(Some(480))
    } else if equals_str(s, "360p") {
        Ok(Some(360))
    } else if equals_str(s, "240p") {
        Ok(Some(240))
    } else if equals_str(s, "120p") {
        Ok(Some(120))
    } else {
        let mut msg = String::from_str("不支持的分辨率: ");
        append_str(&mut msg, resolution);
        Err(msg)
    }
}

/// A choice whose trimmed text lowers (ASCII) to ASCII text is compared in
/// that lowered form.
proof fn lemma_normalized_ascii(s: Seq<char>)
    requires
        is_ascii_text(ascii_lower(trim(s))),
    ensures
        normalized(s) == ascii_lower(trim(s)),
{
    lemma_ascii_lower_keeps_non_ascii(trim(s));
}

/// The heights a resolution choice may name.
pub open spec fn offered_height(n: u32) -> bool {
    n == 1080 || n == 720 || n == 480 || n == 360 || n == 240 || n == 120
}

/// Law: a resolution choice names its height as written. Whenever a choice
/// gives a target height `h`, the choice reads `<h>p` (trimmed, lowercase);
/// and each offered height `n`, written `<n>p` in any ASCII case with any
/// surrounding whitespace, gives exactly `n`.
pub proof fn law_resolution_height_as_written(resolution: Seq<char>, n: u32)
    ensures
        resolution_height(resolution) matches Some(Some(h)) ==> normalized(resolution) == decimal(
            h as nat,
        ) + "p"@,
        offered_height(n) && ascii_lower(trim(resolution)) == decimal(n as nat) + "p"@
            ==> resolution_height(resolution) == Some(Some(n)),
{
    reveal_strlit("1080p");
    reveal_strlit("720p");
    reveal_strlit("480p");
    reveal_strlit("360p");
    reveal_strlit("240p");
    reveal_strlit("120p");
    reveal_strlit("source");
    reveal_strlit("p");
    reveal_with_fuel(decimal, 5);
    assert(decimal(1080) =~= seq!['1', '0', '8', '0']);
    assert(decimal(720) =~= seq!['7', '2', '0']);
    assert(decimal(480) =~= seq!['4', '8', '0']);
    assert(decimal(360) =~= seq!['3', '6', '0']);
    assert(decimal(240) =~= seq!['2', '4', '0']);
    assert(decimal(120) =~= seq!['1', '2', '0']);
    assert("1080p"@ =~= decimal(1080) + "p"@);
    assert("720p"@ =~= decimal(720) + "p"@);
    assert("480p"@ =~= decimal(480) + "p"@);
    assert("360p"@ =~= decimal(360) + "p"@);
    assert("240p"@ =~= decimal(240) + "p"@);
    assert("120p"@ =~= decimal(120) + "p"@);
    if offered_height(n) && ascii_lower(trim(resolution)) == decimal(n as nat) + "p"@ {
        let w = decimal(n as nat) + "p"@;
        assert(w.len() <= 5);
        assert forall|i: int| 0 <= i < w.len() implies (#[trigger] w[i] as u32) < 128 by {
            if n == 1080 {
                assert(w =~= seq!['1', '0', '8', '0', 'p']);
            } else if n == 720 {
                assert(w =~= seq!['7', '2', '0', 'p']);
            } else if n == 480 {
                assert(w =~= seq!['4', '8', '0', 'p']);
            } else if n == 360 {
                assert(w =~= seq!['3', '6', '0', 'p']);
            } else if n == 240 {
                assert(w =~= seq!['2', '4', '0', 'p']);
            } else {
                assert(w =~= seq!['1', '2', '0', 'p']);
            }
        }
        assert(is_ascii_text(w));
        lemma_normalized_ascii(resolution);
        assert(normalized(resolution) == w);
        assert(w.len() > 0);
        assert(w != "source"@) by {
            assert(w.last() == 'p');
            assert("source"@.last() == 'e');
        }
        assert(resolution_height(resolution) == Some(Some(n))) by {
            if n == 1080 {
                assert(w == "1080p"@);
            } else if n == 720 {
                assert(w == "720p"@);
                assert(w.len() != "1080p"@.len() || w[0] != "1080p"@[0]);
            } else if n == 480 {
                assert(w == "480p"@);
                assert(w.len() != "1080p"@.len() || w[0] != "1080p"@[0]);
                assert(w.len() != "720p"@.len() || w[0] != "720p"@[0]);
            } else if n == 360 {
                assert(w == "360p"@);
                assert(w.len() != "1080p"@.len() || w[0] != "1080p"@[0]);
                assert(w.len() != "720p"@.len() || w[0] != "720p"@[0]);
                assert(w.len() != "480p"@.len() || w[0] != "480p"@[0]);
            } else if n == 240 {
                assert(w == "240p"@);
                assert(w.len() != "1080p"@.len() || w[0] != "1080p"@[0]);
                assert(w.len() != "720p"@.len() || w[0] != "720p"@[0]);
                assert(w.len() != "480p"@.len() || w[0] != "480p"@[0]);
                assert(w.len() != "360p"@.len() || w[0] != "360p"@[0]);
            } else {
                assert(w == "120p"@);
                assert(w.len() != "1080p"@.len() || w[0] != "1080p"@[0]);
                assert(w.len() != "720p"@.len() || w[0] != "720p"@[0]);
                assert(w.len() != "480p"@.len() || w[0] != "480p"@[0]);
                assert(w.len() != "360p"@.len() || w[0] != "360p"@[0]);
                assert(w.len() != "240p"@.len() || w[0] != "240p"@[0]);
            }
        }
    }
}

/// Output frame size of a video: the source size unless a smaller target
/// height is asked for; then that height, and the proportional width
/// `scaled_width` made even (rounded down) and at least 2.
pub open spec fn target_dimensions(
    source_width: u32,
    source_height: u32,
    target_height: Option<u32>,
    scaled_width: u32,
) -> (u32, u32) {
    match target_height {
        None => (source_width, source_height),
        Some(t) => if t >= source_height {
            (source_width, source_height)
        } else {
            let even: u32 = if scaled_width % 2 != 0 {
                (scaled_width - 1) as u32
            } else {
                scaled_width
            };
            (if even < 2 {
                2u32
            } else {
                even
            }, t)
        },
    }
}

/// Law: a video keeps its size unless a smaller target height is asked for;
/// then it takes that height and the supplied width made even (rounded
/// down), at least 2.
pub proof fn law_target_dimensions(
    source_width: u32,
    source_height: u32,
    target_height: Option<u32>,
    scaled_width: u32,
)
    ensures
        (target_height is None || target_height->0 >= source_height) ==> target_dimensions(
            source_width,
            source_height,
            target_height,
            scaled_width,
        ) == (source_width, source_height),
        (target_height is Some && target_height->0 < source_height) ==> {
            let even = scaled_width - scaled_width % 2;
            target_dimensions(source_width, source_height, target_height, scaled_width) == (
                (if even < 2 {
                    2
                } else {
                    even
                }) as u32,
                target_height->0,
            )
        },
{
}

/// Output frame size of a video. `scaled_width` is the proportional width
/// `target_height * source_width / source_height` as the caller rounds it to
/// the nearest integer; it only matters when the target is smaller than the
/// source.
pub fn compute_target_dimensions(
    source_width: u32,
    source_height: u32,
    target_height: Option<u32>,
    scaled_width: u32,
) -> (r: (u32, u32))
    ensures
        r == target_dimensions(source_width, source_height, target_height, scaled_width),
{
    let t = match target_height {
        None => {
            return (source_width, source_height);
        },
        Some(t) => t,
    };
    if t >= source_height {
        return (source_width, source_height);
    }
    let mut width = scaled_width;
    if width % 2 != 0 {
        width = width - 1;
    }
    (if width < 2 {
        2
    } else {
        width
    }, t)
}

/// Audio encoders a transcode can use.
#[derive(Debug, Clone, Copy, PartialEq, Eq, Structural)]
pub enum AudioCodec {
    Aac,
    Mp3,
    Opus,
    Mp2,
    Wmav2,
}

/// The codec name in a `container/codec+...` format: the second
/// `/`-separated field up to any `+`, `aac` when there is none.
pub open spec fn audio_codec_name(value: Seq<char>) -> Seq<char> {
    match after_first_char(normalized(value), '/') {
        Some(rest) => before_char(before_char(rest, '/'), '+'),
        None => "aac"@,
    }
}

/// The encoder for a codec name; unknown names use AAC.
pub open spec fn audio_codec_of_name(name: Seq<char>) -> AudioCodec {
    if name == "mp3"@ || name == "libmp3lame"@ {
        AudioCodec::Mp3
    } else if name == "opus"@ || name == "libopus"@ {
        AudioCodec::Opus
    } else if name == "mp2"@ {
        AudioCodec::Mp2
    } else if name == "wmav2"@ {
        AudioCodec::Wmav2
    } else {
        AudioCodec::Aac
    }
}

pub fn parse_audio_codec_id(value: &str) -> (r: AudioCodec)
    ensures
        r == audio_codec_of_name(audio_codec_name(value@)),
{
    let t = normalize(value);
    let name = match chars_after_first(t.as_slice(), '/') {
        Some(rest) => {
            let seg = chars_before(rest.as_slice(), '/');
            chars_before(seg.as_slice(), '+')
        },
        None => chars_of("aac"),
    };
    let n = name.as_slice();
    if equals_str(n, "mp3") || equals_str(n, "libmp3lame") {
        AudioCodec::Mp3
    } else if equals_str(n, "opus") || equals_str(n, "libopus") {
        AudioCodec::Opus
    } else if equals_str(n, "mp2") {
        AudioCodec::Mp2
    } else if equals_str(n, "wmav2") {
        AudioCodec::Wmav2
    } else {
        AudioCodec::Aac
    }
}

/// Law: each encoder is chosen by exactly its codec names. `opus` and
/// `libopus` choose Opus, `mp3` and `libmp3lame` MP3, `mp2` MP2, `wmav2`
/// WMA v2, and every other name AAC.
pub proof fn law_audio_codec_names(value: Seq<char>)
    ensures
        ({
            let name = audio_codec_name(value);
            let c = audio_codec_of_name(name);
            &&& (c == AudioCodec::Opus <==> (name == "opus"@ || name == "libopus"@))
            &&& (c == AudioCodec::Mp3 <==> (name == "mp3"@ || name == "libmp3lame"@))
            &&& (c == AudioCodec::Mp2 <==> name == "mp2"@)
            &&& (c == AudioCodec::Wmav2 <==> name == "wmav2"@)
            &&& (c == AudioCodec::Aac <==> !(name == "opus"@ || name == "libopus"@ || name
                == "mp3"@ || name == "libmp3lame"@ || name == "mp2"@ || name == "wmav2"@))
        }),
{
    reveal_strlit("opus");
    reveal_strlit("libopus");
    reveal_strlit("mp3");
    reveal_strlit("libmp3lame");
    reveal_strlit("mp2");
    reveal_strlit("wmav2");
    assert("opus"@.len() == 4 && "libopus"@.len() == 7 && "mp3"@.len() == 3);
    assert("libmp3lame"@.len() == 10 && "mp2"@.len() == 3 && "wmav2"@.len() == 5);
    assert("mp3"@[2] != "mp2"@[2]);
}

/// Law: in a format `container/codec` (ASCII, no whitespace, no `/` in
/// either part, no `+` in the codec), the codec name read is the codec
/// part in lowercase, whatever case it was written in.
pub proof fn law_audio_codec_field(container: Seq<char>, codec: Seq<char>)
    requires
        is_ascii_text(container),
        is_ascii_text(codec),
        forall|i: int| 0 <= i < container.len() ==> #[trigger] container[i] != '/' && !is_ws(container[i]),
        forall|i: int|
            0 <= i < codec.len() ==> #[trigger] codec[i] != '/' && codec[i] != '+' && !is_ws(
                codec[i],
            ),
    ensures
        audio_codec_name(container + seq!['/'] + codec) == ascii_lower(codec),
{
    let v = container + seq!['/'] + codec;
    let n: int = container.len() as int;
    assert(v[n] == '/');
    assert forall|i: int| 0 <= i < v.len() implies (#[trigger] v[i] as u32) < 128 by {
        if i < n {
            assert(v[i] == container[i]);
        } else if i > n {
            assert(v[i] == codec[i - n - 1]);
        }
    }
    assert(trimmed(v)) by {
        if n > 0 {
            assert(v[0] == container[0]);
        }
        if codec.len() > 0 {
            assert(v.last() == codec[codec.len() - 1]);
        }
    }
    lemma_trimmed_is_fixed(v);
    assert(normalized(v) == ascii_lower(v));
    let l = ascii_lower(v);
    let lc = ascii_lower(codec);
    assert forall|k: int| 0 <= k < n implies #[trigger] l[k] != '/' by {
        assert(v[k] == container[k]);
    }
    lemma_after_first_char(l, '/', n);
    assert(l.subrange(n + 1, l.len() as int) =~= lc) by {
        assert forall|k: int| 0 <= k < lc.len() implies l.subrange(n + 1, l.len() as int)[k]
            == lc[k] by {
            assert(v[n + 1 + k] == codec[k]);
        }
    }
    lemma_before_char(lc, '/', lc.len() as int);
    assert(lc.subrange(0, lc.len() as int) =~= lc);
    lemma_before_char(lc, '+', lc.len() as int);
}

/// `q` held within `1..=100`.
pub open spec fn clamp_quality(q: int) -> int {
    if q < 1 {
        1
    } else if q > 100 {
        100
    } else {
        q
    }
}

/// Encoder quality for a lossy target: the requested quality within
/// `1..=100`, lowered by 10 for JPEG and by 8 for WebP, kept at least 1.
pub open spec fn tuned_quality(input_quality: u8, target_format: Seq<char>) -> int {
    let q = clamp_quality(input_quality as int);
    let lowered = if target_format == "jpeg"@ {
        if q > 10 {
            q - 10
        } else {
            0
        }
    } else if target_format == "webp"@ {
        if q > 8 {
            q - 8
        } else {
            0
        }
    } else {
        q
    };
    clamp_quality(lowered)
}

pub fn tuned_lossy_quality(input_quality: u8, target_format: &str) -> (r: u8)
    ensures
        r == tuned_quality(input_quality, target_format@),
{
    let quality: u8 = if input_quality < 1 {
        1
    } else if input_quality > 100 {
        100
    } else {
        input_quality
    };
    let f = chars_of(target_format);
    let tuned: u8 = if equals_str(f.as_slice(), "jpeg") {
        quality.saturating_sub(10)
    } else if equals_str(f.as_slice(), "webp") {
        quality.saturating_sub(8)
    } else {
        quality
    };
    if tuned < 1 {
        1
    } else if tuned > 100 {
        100
    } else {
        tuned
    }
}

/// How an image compression request treats its images.
#[derive(Debug, Clone, Copy, PartialEq, Eq, Structural)]
pub enum ImageCompressMode {
    /// Re-encode in a lossy format, next to the source.
    Lossy,
    /// Optimize without loss, overwriting the source.
    Lossless,
    /// Any other mode: optimize without loss, next to the source.
    Other,
}

/// The mode named by a request value.
pub open spec fn compress_mode_of(mode: Seq<char>) -> ImageCompressMode {
    let m = normalized(mode);
    if m == "lossy"@ {
        ImageCompressMode::Lossy
    } else if m == "lossless"@ {
        ImageCompressMode::Lossless
    } else {
        ImageCompressMode::Other
    }
}

/// The lossy output format a request names: the trimmed, lowercased format,
/// `jpeg` when it is absent or blank.
pub open spec fn lossy_format_of(format: Option<Seq<char>>) -> Seq<char> {
    match format {
        Some(f) => if trim(f).len() > 0 {
            lowercased(trim(f))
        } else {
            "jpeg"@
        },
        None => "jpeg"@,
    }
}

/// Formats a lossy compression can write.
pub open spec fn lossy_format_supported(f: Seq<char>) -> bool {
    f == "jpeg"@ || f == "webp"@ || f == "png"@ || f == "gif"@ || f == "bmp"@
}

/// Message for a lossy request with an unsupported format.
pub open spec fn lossy_format_message() -> Seq<char> {
    "有损压缩格式仅支持 jpeg/webp/png/gif/bmp"@
}

/// The mode and lossy format of an image compression request.
#[derive(Debug)]
pub struct ImageCompressChoice {
    pub mode: ImageCompressMode,
    pub lossy_format: String,
}

/// Reads the mode and lossy format of an image compression request; a
/// lossy request must name a supported format.
pub fn image_compress_choice(mode: &str, format: Option<&str>) -> (r: Result<
    ImageCompressChoice,
    String,
>)
    ensures
        ({
            let fv = match format {
                Some(f) => Some(f@),
                None => None::<Seq<char>>,
            };
            let m = compress_mode_of(mode@);
            let f = lossy_format_of(fv);
            match r {
                Ok(c) => c.mode == m && c.lossy_format@ == f && (m == ImageCompressMode::Lossy
                    ==> lossy_format_supported(f)),
                Err(e) => m == ImageCompressMode::Lossy && !lossy_format_supported(f) && e@
                    == lossy_format_message(),
            }
        }),
{
    let m = normalize(mode);
    let cm = if equals_str(m.as_slice(), "lossy") {
        ImageCompressMode::Lossy
    } else if equals_str(m.as_slice(), "lossless") {
        ImageCompressMode::Lossless
    } else {
        ImageCompressMode::Other
    };
    let lossy_format = match format {
        Some(f) => {
            let t = trim_str(f);
            if t.as_str().unicode_len() > 0 {
                lowercase_str(t.as_str())
            } else {
                String::from_str("jpeg")
            }
        },
        None => String::from_str("jpeg"),
    };
    if cm == ImageCompressMode::Lossy {
        let lf = chars_of(lossy_format.as_str());
        let s = lf.as_slice();
        if !(equals_str(s, "jpeg") || equals_str(s, "webp") || equals_str(s, "png")
            || equals_str(s, "gif") || equals_str(s, "bmp")) {
            return Err(String::from_str("有损压缩格式仅支持 jpeg/webp/png/gif/bmp"));
        }
    }
    Ok(ImageCompressChoice { mode: cm, lossy_format })
}

/// Extension of the file an image job writes: the lossy format's own
/// extension (`jpg` for JPEG and anything else), or for other modes the
/// source's extension, `png` when it has none.
pub open spec fn image_output_extension_of(
    mode: ImageCompressMode,
    lossy_format: Seq<char>,
    source_path: Seq<char>,
) -> Seq<char> {
    if mode == ImageCompressMode::Lossy {
        if lossy_format == "webp"@ || lossy_format == "png"@ || lossy_format == "gif"@
            || lossy_format == "bmp"@ {
            lossy_format
        } else {
            "jpg"@
        }
    } else {
        match path_extension(source_path) {
            Some(e) => e,
            None => "png"@,
        }
    }
}

pub fn image_output_extension(choice: &ImageCompressChoice, source_path: &str) -> (r: String)
    ensures
        r@ == image_output_extension_of(choice.mode, choice.lossy_format@, source_path@),
{
    if choice.mode == ImageCompressMode::Lossy {
        let lf = chars_of(choice.lossy_format.as_str());
        let s = lf.as_slice();
        if equals_str(s, "webp") || equals_str(s, "png") || equals_str(s, "gif") || equals_str(
            s,
            "bmp",
        ) {
            string_from_chars(s)
        } else {
            String::from_str("jpg")
        }
    } else {
        let p = chars_of(source_path);
        match extension_chars(p.as_slice()) {
            Some(e) => string_from_chars(e.as_slice()),
            None => String::from_str("png"),
        }
    }
}

/// The file extension of what an encoder writes.
pub open spec fn encoder_extension(e: LossyEncoder) -> Seq<char> {
    match e {
        LossyEncoder::Webp => "webp"@,
        LossyEncoder::Png => "png"@,
        LossyEncoder::Jpeg => "jpg"@,
        LossyEncoder::Gif => "gif"@,
        LossyEncoder::Bmp => "bmp"@,
    }
}

/// Law: a lossy output is named for the encoder that writes it. For every
/// format an encoder takes, the output extension is that encoder's own:
/// the format itself for `webp`, `png`, `gif` and `bmp`, and `jpg` for
/// `jpeg`. Outputs of the other modes keep the source's extension (`png`
/// when it has none).
pub proof fn law_output_extension_matches_encoder(
    mode: ImageCompressMode,
    lossy_format: Seq<char>,
    source_path: Seq<char>,
)
    ensures
        mode == ImageCompressMode::Lossy ==> (lossy_encoder_of(lossy_format) matches Some(e)
            ==> image_output_extension_of(mode, lossy_format, source_path) == encoder_extension(
            e,
        )),
        mode == ImageCompressMode::Lossy && (lossy_format == "webp"@ || lossy_format == "png"@
            || lossy_format == "gif"@ || lossy_format == "bmp"@) ==> image_output_extension_of(
            mode,
            lossy_format,
            source_path,
        ) == lossy_format,
        mode == ImageCompressMode::Lossy && lossy_format == "jpeg"@ ==> image_output_extension_of(
            mode,
            lossy_format,
            source_path,
        ) == "jpg"@,
        mode != ImageCompressMode::Lossy ==> image_output_extension_of(
            mode,
            lossy_format,
            source_path,
        ) == (match path_extension(source_path) {
            Some(x) => x,
            None => "png"@,
        }),
{
    reveal_strlit("webp");
    reveal_strlit("png");
    reveal_strlit("gif");
    reveal_strlit("bmp");
    reveal_strlit("jpeg");
    assert("jpeg"@.len() == 4 && "webp"@.len() == 4 && "png"@.len() == 3);
    assert("gif"@.len() == 3 && "bmp"@.len() == 3);
    assert("jpeg"@[0] != "webp"@[0]);
}

/// The job kind of an image compression mode.
pub fn image_job_kind(mode: ImageCompressMode) -> (r: TranscodeJobKind)
    ensures
        r == (if mode == ImageCompressMode::Lossy {
            TranscodeJobKind::ImageLossy
        } else {
            TranscodeJobKind::ImageLossless
        }),
{
    if mode == ImageCompressMode::Lossy {
        TranscodeJobKind::ImageLossy
    } else {
        TranscodeJobKind::ImageLossless
    }
}

/// Expected size after a lossless optimization: 90% of the input, the
/// product saturating at `u64::MAX`.
pub fn lossless_size_estimate(size: u64) -> (r: u64)
    ensures
        r == (if size * 90 > u64::MAX {
            u64::MAX as int
        } else {
            size * 90
        }) / 100,
{
    let product = match size.checked_mul(90) {
        Some(p) => p,
        None => u64::MAX,
    };
    product / 100
}

/// How a job ended when it did not fail.
#[derive(Debug)]
pub enum JobResult {
    /// The output was written; its size in bytes.
    Success(u64),
    /// Nothing better was produced; the size kept and the reason.
    Skipped(u64, String),
}

/// Reason given when a compression does not shrink the file.
pub open spec fn no_gain_message(lossy: bool, input_size: u64, output_size: u64) -> Seq<char> {
    (if lossy {
        "有损"@
    } else {
        "无损"@
    }) + "压缩未减小体积（原始: "@ + decimal(input_size as nat) + " B, 输出: "@ + decimal(
        output_size as nat,
    ) + " B）"@
}

/// Whether `r` is the outcome of a compression that produced `output_size`
/// bytes from `input_size`: skipped, keeping the input, unless the output is
/// smaller.
pub open spec fn is_compression_outcome(r: JobResult, lossy: bool, input_size: u64, output_size: u64) -> bool {
    &&& output_size < input_size ==> (r matches JobResult::Success(s) && s == output_size)
    &&& output_size >= input_size ==> (r matches JobResult::Skipped(s, m) && s == input_size && m@
        == no_gain_message(lossy, input_size, output_size))
}

/// The result of a compression that produced `output_size` bytes from
/// `input_size`: skipped, keeping the input, unless the output is smaller.
pub fn compression_outcome(lossy: bool, input_size: u64, output_size: u64) -> (r: JobResult)
    ensures
        output_size < input_size ==> (r matches JobResult::Success(s) && s == output_size),
        output_size >= input_size ==> (r matches JobResult::Skipped(s, m) && s == input_size && m@
            == no_gain_message(lossy, input_size, output_size)),
{
    if output_size < input_size {
        return JobResult::Success(output_size);
    }
    let mut msg = if lossy {
        String::from_str("有损")
    } else {
        String::from_str("无损")
    };
    append_str(&mut msg, "压缩未减小体积（原始: ");
    let a = decimal_chars(input_size);
    let a = string_from_chars(a.as_slice());
    append_str(&mut msg, a.as_str());
    append_str(&mut msg, " B, 输出: ");
    let b = decimal_chars(output_size);
    let b = string_from_chars(b.as_slice());
    append_str(&mut msg, b.as_str());
    append_str(&mut msg, " B）");
    JobResult::Skipped(input_size, msg)
}

/// Prefix of the message for a PNG that oxipng could not optimize; oxipng's
/// error text follows it.
pub open spec fn png_optimize_failed_prefix() -> Seq<char> {
    "PNG 优化失败: "@
}

/// Lossless compression of a PNG file's bytes with oxipng: the optimized
/// bytes, and the outcome of going from the input's size to theirs. When
/// oxipng fails, its error text comes back after `png_optimize_failed_prefix`.
pub fn compress_png_bytes(data: &[u8]) -> (r: Result<(JobResult, Vec<u8>), String>)
    ensures
        match oxipng_optimized(data@) {
            Ok(out) => r matches Ok((j, v)) && v@ == out && is_compression_outcome(
                j,
                false,
                data@.len() as u64,
                out.len() as u64,
            ),
            Err(e) => r matches Err(m) && m@ == png_optimize_failed_prefix() + e,
        },
{
    match optimized_png(data) {
        Ok(v) => {
            let j = compression_outcome(false, data.len() as u64, v.len() as u64);
            Ok((j, v))
        },
        Err(e) => {
            let mut m = String::from_str("PNG 优化失败: ");
            append_str(&mut m, e.as_str());
            Err(m)
        },
    }
}

/// Lossless optimizers, by source format.
#[derive(Debug, Clone, Copy, PartialEq, Eq, Structural)]
pub enum LosslessCodec {
    Png,
    Jpeg,
}

/// Message for a lossless job on a format it cannot optimize.
pub open spec fn lossless_unsupported_message() -> Seq<char> {
    "当前仅支持 PNG/JPG/JPEG 的优化压缩"@
}

/// The lossless optimizer for a source, by its lowercased extension.
pub open spec fn lossless_codec_of(source_path: Seq<char>) -> Option<LosslessCodec> {
    match path_extension(source_path) {
        Some(e) => {
            let l = lowercased(e);
            if l == "png"@ {
                Some(LosslessCodec::Png)
            } else if l == "jpg"@ || l == "jpeg"@ {
                Some(LosslessCodec::Jpeg)
            } else {
                None
            }
        },
        None => None,
    }
}

pub fn lossless_codec_for(source_path: &str) -> (r: Result<LosslessCodec, String>)
    ensures
        match r {
            Ok(c) => lossless_codec_of(source_path@) == Some(c),
            Err(e) => lossless_codec_of(source_path@) is None && e@
                == lossless_unsupported_message(),
        },
{
    let p = chars_of(source_path);
    if let Some(e) = extension_chars(p.as_slice()) {
        let es = string_from_chars(e.as_slice());
        let l = lowercase_str(es.as_str());
        let lc = chars_of(l.as_str());
        if equals_str(lc.as_slice(), "png") {
            return Ok(LosslessCodec::Png);
        }
        if equals_str(lc.as_slice(), "jpg") || equals_str(lc.as_slice(), "jpeg") {
            return Ok(LosslessCodec::Jpeg);
        }
    }
    Err(String::from_str("当前仅支持 PNG/JPG/JPEG 的优化压缩"))
}

/// Lossy encoders, by target format.
#[derive(Debug, Clone, Copy, PartialEq, Eq, Structural)]
pub enum LossyEncoder {
    Webp,
    Png,
    Jpeg,
    Gif,
    Bmp,
}

/// The encoder for a lossy target format (compared exactly).
pub open spec fn lossy_encoder_of(target_format: Seq<char>) -> Option<LossyEncoder> {
    if target_format == "webp"@ {
        Some(LossyEncoder::Webp)
    } else if target_format == "png"@ {
        Some(LossyEncoder::Png)
    } else if target_format == "jpeg"@ {
        Some(LossyEncoder::Jpeg)
    } else if target_format == "gif"@ {
        Some(LossyEncoder::Gif)
    } else if target_format == "bmp"@ {
        Some(LossyEncoder::Bmp)
    } else {
        None
    }
}

/// Message for a lossy job with a format no encoder writes.
pub open spec fn lossy_unsupported_message(target_format: Seq<char>) -> Seq<char> {
    "不支持的有损输出格式: "@ + target_format
}

pub fn lossy_encoder_for(target_format: &str) -> (r: Result<LossyEncoder, String>)
    ensures
        match r {
            Ok(c) => lossy_encoder_of(target_format@) == Some(c),
            Err(e) => lossy_encoder_of(target_format@) is None && e@ == lossy_unsupported_message(
                target_format@,
            ),
        },
{
    let f = chars_of(target_format);
    let s = f.as_slice();
    if equals_str(s, "webp") {
        Ok(LossyEncoder::Webp)
    } else if equals_str(s, "png") {
        Ok(LossyEncoder::Png)
    } else if equals_str(s, "jpeg") {
        Ok(LossyEncoder::Jpeg)
    } else if equals_str(s, "gif") {
        Ok(LossyEncoder::Gif)
    } else if equals_str(s, "bmp") {
        Ok(LossyEncoder::Bmp)
    } else {
        let mut msg = String::from_str("不支持的有损输出格式: ");
        append_str(&mut msg, target_format);
        Err(msg)
    }
}

} // verus!
