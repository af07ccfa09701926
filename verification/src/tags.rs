//! Audio tag editing: cover art validation and transport, and the edits that a
//! tag write applies.

use vstd::prelude::*;
use crate::codecs::{
    base64_decode, base64_decode_error, base64_encode, base64_encoding, image_decodes,
    image_loads, lemma_base64_injective, lemma_encoding_head, lemma_encoding_trimmed,
    lofty_primary_tag_pictures, picture_view, pictures_view, primary_tag_pictures,
};
use crate::paths::{extension_chars, lemma_extension_of_name, path_extension};
use crate::text::{
    append_str, ascii_lower, ascii_lower_chars, chars_of, decimal, decimal_chars, equals_str,
    eq_ignore_ascii_case, slice_range, string_from_chars, trim, trimmed_chars,
};

verus! {

/// Largest cover image accepted, in bytes.
pub const MAX_COVER_BYTES: usize = 5 * 1024 * 1024;

/// MIME type guessed from the leading bytes of an image.
pub open spec fn mime_of(b: Seq<u8>) -> Seq<char> {
    if b.len() >= 8 && b[0] == 0x89u8 && b[1] == 0x50u8 && b[2] == 0x4Eu8 && b[3] == 0x47u8
        && b[4] == 0x0Du8 && b[5] == 0x0Au8 && b[6] == 0x1Au8 && b[7] == 0x0Au8 {
        "image/png"@
    } else if b.len() >= 3 && b[0] == 0xFFu8 && b[1] == 0xD8u8 && b[2] == 0xFFu8 {
        "image/jpeg"@
    } else if b.len() >= 6 && b[0] == 0x47u8 && b[1] == 0x49u8 && b[2] == 0x46u8
        && b[3] == 0x38u8 && (b[4] == 0x37u8 || b[4] == 0x39u8) && b[5] == 0x61u8 {
        "image/gif"@
    } else if b.len() >= 2 && b[0] == 0x42u8 && b[1] == 0x4Du8 {
        "image/bmp"@
    } else {
        "application/octet-stream"@
    }
}

/// Guesses the MIME type of an image from its signature: PNG, JPEG, GIF
/// (87a or 89a), BMP, and `application/octet-stream` otherwise.
pub fn mime_type_from_bytes(bytes: &[u8]) -> (r: String)
    ensures
        r@ == mime_of(bytes@),
{
    let n = bytes.len();
    if n >= 8 && bytes[0] == 0x89u8 && bytes[1] == 0x50u8 && bytes[2] == 0x4Eu8
        && bytes[3] == 0x47u8 && bytes[4] == 0x0Du8 && bytes[5] == 0x0Au8 && bytes[6] == 0x1Au8
        && bytes[7] == 0x0Au8 {
        return String::from_str("image/png");
    }
    if n >= 3 && bytes[0] == 0xFFu8 && bytes[1] == 0xD8u8 && bytes[2] == 0xFFu8 {
        return String::from_str("image/jpeg");
    }
    if n >= 6 && bytes[0] == 0x47u8 && bytes[1] == 0x49u8 && bytes[2] == 0x46u8
        && bytes[3] == 0x38u8 && (bytes[4] == 0x37u8 || bytes[4] == 0x39u8) && bytes[5] == 0x61u8 {
        return String::from_str("image/gif");
    }
    if n >= 2 && bytes[0] == 0x42u8 && bytes[1] == 0x4Du8 {
        return String::from_str("image/bmp");
    }
    String::from_str("application/octet-stream")
}

/// Message for an empty cover image.
pub open spec fn cover_empty_message() -> Seq<char> {
    "封面图片为空"@
}

/// Message for a cover image above `MAX_COVER_BYTES`.
pub open spec fn cover_too_large_message() -> Seq<char> {
    "封面图片过大（最大 "@ + decimal((MAX_COVER_BYTES / 1024 / 1024) as nat) + " MB）"@
}

/// Message for bytes that do not decode as an image.
pub open spec fn cover_unsupported_message() -> Seq<char> {
    "封面图片格式不受支持"@
}

/// What is wrong with candidate cover bytes, if anything.
pub open spec fn cover_problem(b: Seq<u8>) -> Option<Seq<char>> {
    if b.len() == 0 {
        Some(cover_empty_message())
    } else if b.len() > MAX_COVER_BYTES {
        Some(cover_too_large_message())
    } else if !image_decodes(b) {
        Some(cover_unsupported_message())
    } else {
        None
    }
}

/// Checks that bytes can serve as cover art: not empty, at most
/// `MAX_COVER_BYTES`, and decodable as an image.
pub fn validate_cover_bytes(bytes: &[u8]) -> (r: Result<(), String>)
    ensures
        match r {
            Ok(_) => cover_problem(bytes@) is None,
            Err(e) => cover_problem(bytes@) == Some(e@),
        },
{
    if bytes.len() == 0 {
        return Err(String::from_str("封面图片为空"));
    }
    if bytes.len() > MAX_COVER_BYTES {
        let mut msg = String::from_str("封面图片过大（最大 ");
        let digits = decimal_chars((MAX_COVER_BYTES / 1024 / 1024) as u64);
        let d = string_from_chars(digits.as_slice());
        append_str(&mut msg, d.as_str());
        append_str(&mut msg, " MB）");
        return Err(msg);
    }
    if !image_loads(bytes) {
        return Err(String::from_str("封面图片格式不受支持"));
    }
    Ok(())
}

#[derive(Debug, Clone, Copy, PartialEq, Eq, Structural)]
pub enum CoverArtChange {
    NoChange,
    Replace,
    Remove,
}

/// The change named by a request value: `replace` or `remove`, trimmed and
/// in any ASCII case; anything else, or no value, changes nothing.
pub open spec fn cover_change_of(value: Option<Seq<char>>) -> CoverArtChange {
    match value {
        Some(v) => {
            let t = ascii_lower(trim(v));
            if t == "replace"@ {
                CoverArtChange::Replace
            } else if t == "remove"@ {
                CoverArtChange::Remove
            } else {
                CoverArtChange::NoChange
            }
        },
        None => CoverArtChange::NoChange,
    }
}

/// The view of an optional string slice.
pub open spec fn opt_str_view(value: Option<&str>) -> Option<Seq<char>> {
    match value {
        Some(s) => Some(s@),
        None => None,
    }
}

impl CoverArtChange {
    pub fn parse(value: Option<&str>) -> (r: Self)
        ensures
            r == cover_change_of(opt_str_view(value)),
    {
        match value {
            Some(s) => {
                let t = trimmed_chars(s);
                let l = ascii_lower_chars(t.as_slice());
                if equals_str(l.as_slice(), "replace") {
                    CoverArtChange::Replace
                } else if equals_str(l.as_slice(), "remove") {
                    CoverArtChange::Remove
                } else {
                    CoverArtChange::NoChange
                }
            },
            None => CoverArtChange::NoChange,
        }
    }
}

/// Extensions (lowercase) of the audio formats whose tags can be written.
pub open spec fn tag_writable_extension(e: Seq<char>) -> bool {
    ||| e == "mp3"@
    ||| e == "flac"@
    ||| e == "m4a"@
    ||| e == "ogg"@
    ||| e == "opus"@
    ||| e == "ape"@
    ||| e == "wma"@
    ||| e == "aiff"@
    ||| e == "alac"@
    ||| e == "mka"@
    ||| e == "wav"@
}

/// Whether the file's extension, in any ASCII case, is one whose tags can be
/// written.
pub open spec fn tag_writable_path(path: Seq<char>) -> bool {
    match path_extension(path) {
        Some(e) => tag_writable_extension(ascii_lower(e)),
        None => false,
    }
}

pub fn supports_tag_writing(path: &str) -> (b: bool)
    ensures
        b == tag_writable_path(path@),
{
    let p = chars_of(path);
    match extension_chars(p.as_slice()) {
        Some(e) => {
            let l = ascii_lower_chars(e.as_slice());
            let s = l.as_slice();
            equals_str(s, "mp3") || equals_str(s, "flac") || equals_str(s, "m4a")
                || equals_str(s, "ogg") || equals_str(s, "opus") || equals_str(s, "ape")
                || equals_str(s, "wma") || equals_str(s, "aiff") || equals_str(s, "alac")
                || equals_str(s, "mka") || equals_str(s, "wav")
        },
        None => false,
    }
}

/// Law: tags can be written to exactly the files named `<stem>.<ext>` whose
/// extension, in any ASCII case, is one of mp3, flac, m4a, ogg, opus, ape,
/// wma, aiff, alac, mka and wav.
pub proof fn law_tag_writable_extensions(stem: Seq<char>, ext: Seq<char>)
    requires
        stem.len() > 0,
        ext.len() > 0,
        forall|i: int| 0 <= i < stem.len() ==> #[trigger] stem[i] != '/',
        forall|i: int| 0 <= i < ext.len() ==> #[trigger] ext[i] != '/' && ext[i] != '.',
    ensures
        tag_writable_path(stem + seq!['.'] + ext) <==> ({
            let l = ascii_lower(ext);
            ||| l == "mp3"@
            ||| l == "flac"@
            ||| l == "m4a"@
            ||| l == "ogg"@
            ||| l == "opus"@
            ||| l == "ape"@
            ||| l == "wma"@
            ||| l == "aiff"@
            ||| l == "alac"@
            ||| l == "mka"@
            ||| l == "wav"@
        }),
{
    lemma_extension_of_name(stem, ext);
}

#[derive(Debug, Clone)]
pub struct AudioCoverArtData {
    pub mime_type: String,
    pub bytes: Vec<u8>,
}

/// Whether `t` is the standard base64 encoding of some bytes.
pub open spec fn base64_decodable(t: Seq<char>) -> bool {
    exists|v: Seq<u8>| #[trigger] base64_encoding(v) == t
}

/// The bytes whose standard base64 encoding is `t` (unique, as the encoding
/// is injective).
pub open spec fn base64_decoded(t: Seq<char>) -> Seq<u8> {
    choose|v: Seq<u8>| #[trigger] base64_encoding(v) == t
}

/// Message for cover data that is empty after trimming.
pub open spec fn cover_data_empty_message() -> Seq<char> {
    "封面数据为空"@
}

/// Prefix of the message for cover data that is not valid base64.
pub open spec fn cover_data_invalid_prefix() -> Seq<char> {
    "封面数据解码失败: "@
}

/// Prefix of the message for a declared MIME type that does not match the
/// image; the expected type follows it.
pub open spec fn cover_mime_mismatch_prefix() -> Seq<char> {
    "封面格式不匹配，期望 "@
}

/// Whether a declared MIME type contradicts the one guessed from the bytes:
/// it differs ignoring ASCII case and is not `application/octet-stream`.
pub open spec fn mime_mismatch(b: Seq<u8>, declared: Option<Seq<char>>) -> bool {
    match declared {
        Some(m) => ascii_lower(m) != ascii_lower(mime_of(b)) && m != "application/octet-stream"@,
        None => false,
    }
}

/// What decoding base64 cover data gives: the bytes, or the error message.
pub open spec fn cover_decode(data: Seq<char>, declared: Option<Seq<char>>) -> Result<
    Seq<u8>,
    Seq<char>,
> {
    let t = trim(data);
    if t.len() == 0 {
        Err(cover_data_empty_message())
    } else if !base64_decodable(t) {
        Err(cover_data_invalid_prefix() + base64_decode_error(t))
    } else {
        let v = base64_decoded(t);
        match cover_problem(v) {
            Some(e) => Err(e),
            None => if mime_mismatch(v, declared) {
                Err(cover_mime_mismatch_prefix() + mime_of(v))
            } else {
                Ok(v)
            },
        }
    }
}

/// Whether an executable result matches the specified one.
pub open spec fn matches_bytes_result(r: Result<Vec<u8>, String>, s: Result<Seq<u8>, Seq<char>>) -> bool {
    match r {
        Ok(b) => s == Ok::<Seq<u8>, Seq<char>>(b@),
        Err(e) => s == Err::<Seq<u8>, Seq<char>>(e@),
    }
}

/// Decodes base64 cover data (surrounding whitespace ignored), checks it as
/// cover art and, when a MIME type is declared, that it matches the image.
pub fn decode_cover_art_base64(data_base64: &str, mime_type: Option<&str>) -> (r: Result<
    Vec<u8>,
    String,
>)
    ensures
        matches_bytes_result(r, cover_decode(data_base64@, opt_str_view(mime_type))),
{
    let t = trimmed_chars(data_base64);
    if t.len() == 0 {
        return Err(String::from_str("封面数据为空"));
    }
    let trimmed = string_from_chars(t.as_slice());
    let bytes = match base64_decode(trimmed.as_str()) {
        Ok(b) => b,
        Err(e) => {
            let mut msg = String::from_str("封面数据解码失败: ");
            append_str(&mut msg, e.as_str());
            return Err(msg);
        },
    };
    proof {
        let tv = trim(data_base64@);
        assert(base64_encoding(bytes@) == tv);
        assert(base64_decodable(tv));
        lemma_base64_injective(base64_decoded(tv), bytes@);
    }
    match validate_cover_bytes(bytes.as_slice()) {
        Ok(_) => {},
        Err(e) => {
            return Err(e);
        },
    }
    if let Some(mime) = mime_type {
        let expected = mime_type_from_bytes(bytes.as_slice());
        let same = eq_ignore_ascii_case(mime, expected.as_str());
        let m = chars_of(mime);
        if !same && !equals_str(m.as_slice(), "application/octet-stream") {
            let mut msg = String::from_str("封面格式不匹配，期望 ");
            append_str(&mut msg, expected.as_str());
            return Err(msg);
        }
    }
    Ok(bytes)
}

/// Standard base64 of the cover's bytes.
pub fn cover_art_to_base64(cover: &AudioCoverArtData) -> (r: String)
    ensures
        r@ == base64_encoding(cover.bytes@),
{
    base64_encode(cover.bytes.as_slice())
}

/// Cover art survives transport: the base64 text that `cover_art_to_base64`
/// produces for acceptable cover bytes decodes, with no declared MIME type,
/// to the same bytes.
pub proof fn law_cover_base64_roundtrip(bytes: Seq<u8>)
    requires
        cover_problem(bytes) is None,
    ensures
        cover_decode(base64_encoding(bytes), None) == Ok::<Seq<u8>, Seq<char>>(bytes),
{
    let e = base64_encoding(bytes);
    lemma_encoding_trimmed(bytes);
    lemma_encoding_head(bytes);
    assert(base64_decodable(e));
    lemma_base64_injective(base64_decoded(e), bytes);
}

/// Cover art found inside a media file (a tag picture, or an attached picture
/// stream), given its bytes and the MIME type the container declares, if any.
/// Empty data means no cover; other data must pass `validate_cover_bytes`. A
/// declared, non-empty MIME type is kept; otherwise it is guessed from the
/// bytes.
pub fn cover_from_embedded_bytes(bytes: Vec<u8>, declared_mime: Option<String>) -> (r: Result<
    Option<AudioCoverArtData>,
    String,
>)
    ensures
        bytes@.len() == 0 ==> r matches Ok(None),
        bytes@.len() > 0 ==> match r {
            Ok(Some(c)) => cover_problem(bytes@) is None && c.bytes@ == bytes@ && c.mime_type@
                == (match declared_mime {
                Some(m) => if m@.len() > 0 {
                    m@
                } else {
                    mime_of(bytes@)
                },
                None => mime_of(bytes@),
            }),
            Ok(None) => false,
            Err(e) => cover_problem(bytes@) == Some(e@),
        },
        cover_result_view(r) == embedded_cover(bytes@, opt_string_view(declared_mime)),
{
    if bytes.len() == 0 {
        return Ok(None);
    }
    match validate_cover_bytes(bytes.as_slice()) {
        Ok(_) => {},
        Err(e) => {
            return Err(e);
        },
    }
    let mime_type = match declared_mime {
        Some(m) => if m.as_str().unicode_len() > 0 {
            m
        } else {
            mime_type_from_bytes(bytes.as_slice())
        },
        None => mime_type_from_bytes(bytes.as_slice()),
    };
    Ok(Some(AudioCoverArtData { mime_type, bytes }))
}

/// The view of a cover read: its MIME type and bytes.
pub open spec fn cover_result_view(r: Result<Option<AudioCoverArtData>, String>) -> Result<
    Option<(Seq<char>, Seq<u8>)>,
    Seq<char>,
> {
    match r {
        Ok(Some(c)) => Ok(Some((c.mime_type@, c.bytes@))),
        Ok(None) => Ok(None),
        Err(e) => Err(e@),
    }
}

/// The cover made of embedded picture bytes: none when they are empty, the
/// `cover_problem` when there is one, else the bytes with their declared MIME
/// type when it is not empty, or the one guessed from them.
pub open spec fn embedded_cover(bytes: Seq<u8>, declared: Option<Seq<char>>) -> Result<
    Option<(Seq<char>, Seq<u8>)>,
    Seq<char>,
> {
    if bytes.len() == 0 {
        Ok(None)
    } else {
        match cover_problem(bytes) {
            Some(e) => Err(e),
            None => Ok(
                Some(
                    (
                        match declared {
                            Some(m) => if m.len() > 0 {
                                m
                            } else {
                                mime_of(bytes)
                            },
                            None => mime_of(bytes),
                        },
                        bytes,
                    ),
                ),
            ),
        }
    }
}

/// The first picture marked as front cover.
pub open spec fn first_front_cover(pics: Seq<(bool, Option<Seq<char>>, Seq<u8>)>) -> Option<
    (bool, Option<Seq<char>>, Seq<u8>),
>
    decreases pics.len(),
{
    if pics.len() == 0 {
        None
    } else if pics[0].0 {
        Some(pics[0])
    } else {
        first_front_cover(pics.drop_first())
    }
}

/// The picture used as cover art: the first front cover, else the first
/// picture.
pub open spec fn chosen_picture(pics: Seq<(bool, Option<Seq<char>>, Seq<u8>)>) -> Option<
    (bool, Option<Seq<char>>, Seq<u8>),
> {
    match first_front_cover(pics) {
        Some(p) => Some(p),
        None => if pics.len() > 0 {
            Some(pics[0])
        } else {
            None
        },
    }
}

/// Prefix of the message when reading an audio file's tags fails: at the
/// guess of its type, or at the read itself. lofty's error text follows.
pub open spec fn tag_read_failed_prefix(guessing: bool) -> Seq<char> {
    if guessing {
        "识别文件格式失败: "@
    } else {
        "读取标签失败: "@
    }
}

/// The cover art found by reading an audio file's tags.
pub open spec fn cover_from_tag_read(
    read: Result<Option<Seq<(bool, Option<Seq<char>>, Seq<u8>)>>, (bool, Seq<char>)>,
) -> Result<Option<(Seq<char>, Seq<u8>)>, Seq<char>> {
    match read {
        Err((guessing, e)) => Err(tag_read_failed_prefix(guessing) + e),
        Ok(None) => Ok(None),
        Ok(Some(pics)) => match chosen_picture(pics) {
            Some(p) => embedded_cover(p.2, p.1),
            None => Ok(None),
        },
    }
}

fn chosen_picture_index(pics: &Vec<(bool, Option<String>, Vec<u8>)>) -> (r: Option<usize>)
    ensures
        match r {
            Some(i) => i < pics@.len() && chosen_picture(pictures_view(pics@)) == Some(
                pictures_view(pics@)[i as int],
            ),
            None => chosen_picture(pictures_view(pics@)) is None,
        },
{
    let ghost view = pictures_view(pics@);
    assert(view.subrange(0, view.len() as int) =~= view);
    let mut i: usize = 0;
    while i < pics.len()
        invariant
            i <= pics@.len(),
            view == pictures_view(pics@),
            view.len() == pics@.len(),
            first_front_cover(view) == first_front_cover(view.subrange(i as int, view.len() as int)),
        decreases pics@.len() - i,
    {
        let ghost rest = view.subrange(i as int, view.len() as int);
        assert(rest[0] == view[i as int]);
        assert(view[i as int] == picture_view(pics@[i as int]));
        if pics[i].0 {
            return Some(i);
        }
        assert(rest.drop_first() =~= view.subrange(i as int + 1, view.len() as int));
        i = i + 1;
    }
    assert(view.subrange(i as int, view.len() as int).len() == 0);
    if pics.len() > 0 {
        Some(0)
    } else {
        None
    }
}

/// The cover art of an audio file, from the bytes of the file and its path
/// (whose extension lofty starts from): lofty's failure comes back with
/// `tag_read_failed_prefix`; no primary tag or no picture gives `Ok(None)`;
/// else the first front cover, or the first picture, goes through
/// `cover_from_embedded_bytes`.
pub fn read_audio_cover_art(file: &[u8], path: &str) -> (r: Result<Option<AudioCoverArtData>, String>)
    ensures
        cover_result_view(r) == cover_from_tag_read(lofty_primary_tag_pictures(file@, path@)),
{
    match primary_tag_pictures(file, path) {
        Err((guessing, e)) => {
            let mut m = if guessing {
                String::from_str("识别文件格式失败: ")
            } else {
                String::from_str("读取标签失败: ")
            };
            append_str(&mut m, e.as_str());
            Err(m)
        },
        Ok(None) => Ok(None),
        Ok(Some(mut pics)) => {
            match chosen_picture_index(&pics) {
                None => Ok(None),
                Some(i) => {
                    let ghost view = pictures_view(pics@);
                    let (_front, mime, data) = pics.remove(i);
                    assert(view[i as int] == picture_view((_front, mime, data)));
                    cover_from_embedded_bytes(data, mime)
                },
            }
        },
    }
}

/// Cover art taken from the bytes of an image file: they must pass
/// `validate_cover_bytes`, and the MIME type is guessed from them.
pub fn cover_from_image_file_bytes(bytes: Vec<u8>) -> (r: Result<AudioCoverArtData, String>)
    ensures
        match r {
            Ok(c) => cover_problem(bytes@) is None && c.bytes@ == bytes@ && c.mime_type@ == mime_of(
                bytes@,
            ),
            Err(e) => cover_problem(bytes@) == Some(e@),
        },
{
    match validate_cover_bytes(bytes.as_slice()) {
        Ok(_) => {},
        Err(e) => {
            return Err(e);
        },
    }
    let mime_type = mime_type_from_bytes(bytes.as_slice());
    Ok(AudioCoverArtData { mime_type, bytes })
}

/// What a write does to one text field of a tag.
#[derive(Debug)]
pub enum TextEdit {
    /// Leave the field as it is.
    Keep,
    /// Remove the field.
    Clear,
    /// Set the field to this text.
    Assign(String),
}

/// `edit` is what a requested value asks of a text field: no value keeps the
/// field, a blank value clears it, anything else sets it to the trimmed text.
pub open spec fn text_edit_for(edit: TextEdit, value: Option<Seq<char>>) -> bool {
    match value {
        None => edit is Keep,
        Some(v) => if trim(v).len() == 0 {
            edit is Clear
        } else {
            edit matches TextEdit::Assign(s) && s@ == trim(v)
        },
    }
}

/// The edit of a text field for a requested value.
pub fn text_edit(value: Option<&str>) -> (r: TextEdit)
    ensures
        text_edit_for(r, opt_str_view(value)),
{
    match value {
        None => TextEdit::Keep,
        Some(v) => {
            let t = trimmed_chars(v);
            if t.len() == 0 {
                TextEdit::Clear
            } else {
                TextEdit::Assign(string_from_chars(t.as_slice()))
            }
        },
    }
}

/// What a write does to the pictures of a tag.
#[derive(Debug)]
pub enum CoverEdit {
    /// Leave the pictures as they are.
    Keep,
    /// Remove every picture.
    RemoveAll,
    /// Replace the front cover with these image bytes.
    ReplaceFront(Vec<u8>),
}

/// Message when a replacement cover has no data.
pub open spec fn cover_missing_message() -> Seq<char> {
    "缺少封面图片数据"@
}

/// The picture edit for a cover change: removal, or replacement by bytes that
/// must be present and pass `validate_cover_bytes`.
pub fn cover_edit(change: CoverArtChange, cover_bytes: Option<&[u8]>) -> (r: Result<
    CoverEdit,
    String,
>)
    ensures
        change == CoverArtChange::NoChange ==> r matches Ok(CoverEdit::Keep),
        change == CoverArtChange::Remove ==> r matches Ok(CoverEdit::RemoveAll),
        change == CoverArtChange::Replace ==> match cover_bytes {
            None => r matches Err(e) && e@ == cover_missing_message(),
            Some(b) => match r {
                Ok(CoverEdit::ReplaceFront(v)) => cover_problem(b@) is None && v@ == b@,
                Ok(_) => false,
                Err(e) => cover_problem(b@) == Some(e@),
            },
        },
{
    match change {
        CoverArtChange::NoChange => Ok(CoverEdit::Keep),
        CoverArtChange::Remove => Ok(CoverEdit::RemoveAll),
        CoverArtChange::Replace => {
            let b = match cover_bytes {
                Some(b) => b,
                None => {
                    return Err(String::from_str("缺少封面图片数据"));
                },
            };
            match validate_cover_bytes(b) {
                Ok(_) => {},
                Err(e) => {
                    return Err(e);
                },
            }
            let v = slice_range(b, 0, b.len());
            Ok(CoverEdit::ReplaceFront(v))
        },
    }
}

#[derive(Debug, Clone)]
pub struct AudioTagWriteInput {
    pub title: Option<String>,
    pub artist: Option<String>,
    pub album: Option<String>,
    pub lyrics_lrc: Option<String>,
    pub embed_lyrics: bool,
    pub cover_art_change: CoverArtChange,
    pub cover_art_data_base64: Option<String>,
    pub cover_art_mime_type: Option<String>,
}

/// Everything a tag write changes.
#[derive(Debug)]
pub struct TagEditPlan {
    pub title: TextEdit,
    pub artist: TextEdit,
    pub album: TextEdit,
    pub lyrics: TextEdit,
    pub cover: CoverEdit,
}

/// The view of an optional string.
pub open spec fn opt_string_view(value: Option<String>) -> Option<Seq<char>> {
    match value {
        Some(s) => Some(s@),
        None => None,
    }
}

fn opt_as_str(value: &Option<String>) -> (r: Option<&str>)
    ensures
        opt_str_view(r) == opt_string_view(*value),
{
    match value {
        Some(s) => Some(s.as_str()),
        None => None,
    }
}

/// Message for a file whose format does not take tag writes.
pub open spec fn tag_unsupported_message(path: Seq<char>) -> Seq<char> {
    "当前文件格式不支持写入标签: "@ + path
}

/// Refuses a path whose format cannot take tag writes.
pub fn ensure_tag_writable(path: &str) -> (r: Result<(), String>)
    ensures
        match r {
            Ok(_) => tag_writable_path(path@),
            Err(e) => !tag_writable_path(path@) && e@ == tag_unsupported_message(path@),
        },
{
    if supports_tag_writing(path) {
        Ok(())
    } else {
        let mut msg = String::from_str("当前文件格式不支持写入标签: ");
        append_str(&mut msg, path);
        Err(msg)
    }
}

/// The edits a tag write makes for a request: each text field by
/// `text_edit`, the lyrics only when embedding is asked for, and the cover as
/// `cover_edit` of the change, a replacement taking its bytes from
/// `decode_cover_art_base64` of the request's data (empty when absent) and
/// declared MIME type.
pub fn plan_tag_edits(input: &AudioTagWriteInput) -> (r: Result<TagEditPlan, String>)
    ensures
        ({
            let data = match input.cover_art_data_base64 {
                Some(d) => d@,
                None => Seq::<char>::empty(),
            };
            let decoded = cover_decode(data, opt_string_view(input.cover_art_mime_type));
            match r {
                Ok(p) => {
                    &&& text_edit_for(p.title, opt_string_view(input.title))
                    &&& text_edit_for(p.artist, opt_string_view(input.artist))
                    &&& text_edit_for(p.album, opt_string_view(input.album))
                    &&& (if input.embed_lyrics {
                        text_edit_for(p.lyrics, opt_string_view(input.lyrics_lrc))
                    } else {
                        p.lyrics is Keep
                    })
                    &&& match input.cover_art_change {
                        CoverArtChange::NoChange => p.cover is Keep,
                        CoverArtChange::Remove => p.cover is RemoveAll,
                        CoverArtChange::Replace => p.cover matches CoverEdit::ReplaceFront(v)
                            && decoded == Ok::<Seq<u8>, Seq<char>>(v@),
                    }
                },
                Err(e) => input.cover_art_change == CoverArtChange::Replace && decoded == Err::<
                    Seq<u8>,
                    Seq<char>,
                >(e@),
            }
        }),
{
    let title = text_edit(opt_as_str(&input.title));
    let artist = text_edit(opt_as_str(&input.artist));
    let album = text_edit(opt_as_str(&input.album));
    let lyrics = if input.embed_lyrics {
        text_edit(opt_as_str(&input.lyrics_lrc))
    } else {
        TextEdit::Keep
    };
    let cover = match input.cover_art_change {
        CoverArtChange::NoChange => CoverEdit::Keep,
        CoverArtChange::Remove => CoverEdit::RemoveAll,
        CoverArtChange::Replace => {
            let data: &str = match &input.cover_art_data_base64 {
                Some(d) => d.as_str(),
                None => "",
            };
            proof {
                reveal_strlit("");
            }
            let bytes = match decode_cover_art_base64(data, opt_as_str(&input.cover_art_mime_type)) {
                Ok(b) => b,
                Err(e) => {
                    return Err(e);
                },
            };
            match cover_edit(CoverArtChange::Replace, Some(bytes.as_slice())) {
                Ok(c) => c,
                Err(e) => {
                    return Err(e);
                },
            }
        },
    };
    Ok(TagEditPlan { title, artist, album, lyrics, cover })
}

} // verus!
