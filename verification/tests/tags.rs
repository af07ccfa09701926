use lofty::config::WriteOptions;
use lofty::picture::{MimeType, Picture, PictureType};
use lofty::tag::{Tag, TagExt, TagType};
use mediax::tags::{
    cover_art_to_base64, cover_edit, cover_from_embedded_bytes, cover_from_image_file_bytes,
    decode_cover_art_base64, ensure_tag_writable, read_audio_cover_art, mime_type_from_bytes, plan_tag_edits,
    supports_tag_writing, text_edit, validate_cover_bytes, AudioCoverArtData, AudioTagWriteInput,
    CoverArtChange, CoverEdit, TextEdit,
};

fn tiny_png() -> Vec<u8> {
    let mut out = Vec::new();
    let image = image::RgbaImage::from_pixel(2, 2, image::Rgba([10, 20, 30, 255]));
    image::DynamicImage::ImageRgba8(image)
        .write_to(&mut std::io::Cursor::new(&mut out), image::ImageFormat::Png)
        .expect("encode png");
    out
}

#[test]
fn parses_cover_change_values() {
    assert_eq!(CoverArtChange::parse(Some("replace")), CoverArtChange::Replace);
    assert_eq!(CoverArtChange::parse(Some("REMOVE")), CoverArtChange::Remove);
    assert_eq!(CoverArtChange::parse(Some("none")), CoverArtChange::NoChange);
    assert_eq!(CoverArtChange::parse(None), CoverArtChange::NoChange);
}

#[test]
fn detects_png_mime_type() {
    let png_header = [0x89, b'P', b'N', b'G', 0x0D, 0x0A, 0x1A, 0x0A];
    assert_eq!(mime_type_from_bytes(&png_header), "image/png");
}

#[test]
fn rejects_invalid_base64_cover() {
    assert!(decode_cover_art_base64("%%%", None).is_err());
}

#[test]
fn recognizes_tag_writable_extensions() {
    assert!(supports_tag_writing("/music/demo.mp3"));
    assert!(supports_tag_writing("/music/demo.flac"));
    assert!(!supports_tag_writing("/music/demo.ac3"));
}

#[test]
fn tag_writable_extension_ignores_case_and_needs_an_extension() {
    assert!(supports_tag_writing("/music/DEMO.MP3"));
    assert!(supports_tag_writing("song.Wav"));
    assert!(!supports_tag_writing("/music/mp3"));
    assert!(!supports_tag_writing("/music/.mp3"));
    assert!(!supports_tag_writing(""));
}

#[test]
fn cover_change_trims_before_matching() {
    assert_eq!(CoverArtChange::parse(Some("  Replace \n")), CoverArtChange::Replace);
    assert_eq!(CoverArtChange::parse(Some("removed")), CoverArtChange::NoChange);
}

#[test]
fn guesses_other_image_types() {
    assert_eq!(mime_type_from_bytes(&[0xFF, 0xD8, 0xFF, 0xE0]), "image/jpeg");
    assert_eq!(mime_type_from_bytes(b"GIF89a...."), "image/gif");
    assert_eq!(mime_type_from_bytes(b"GIF87a"), "image/gif");
    assert_eq!(mime_type_from_bytes(b"BM1234"), "image/bmp");
    assert_eq!(mime_type_from_bytes(b"GIF88a"), "application/octet-stream");
    assert_eq!(mime_type_from_bytes(&[]), "application/octet-stream");
}

#[test]
fn validates_cover_bytes() {
    assert_eq!(validate_cover_bytes(&[]), Err("封面图片为空".to_string()));
    let big = vec![0u8; 5 * 1024 * 1024 + 1];
    assert_eq!(validate_cover_bytes(&big), Err("封面图片过大（最大 5 MB）".to_string()));
    assert_eq!(validate_cover_bytes(b"not an image"), Err("封面图片格式不受支持".to_string()));
    assert_eq!(validate_cover_bytes(&tiny_png()), Ok(()));
}

#[test]
fn cover_base64_roundtrip() {
    let png = tiny_png();
    let cover = AudioCoverArtData { mime_type: "image/png".to_string(), bytes: png.clone() };
    let text = cover_art_to_base64(&cover);
    assert_eq!(decode_cover_art_base64(&text, None), Ok(png.clone()));
    let padded = format!("  {text}\n");
    assert_eq!(decode_cover_art_base64(&padded, Some("IMAGE/PNG")), Ok(png.clone()));
    assert_eq!(
        decode_cover_art_base64(&text, Some("application/octet-stream")),
        Ok(png)
    );
}

#[test]
fn base64_encoding_matches_the_standard_alphabet() {
    let cover = AudioCoverArtData { mime_type: String::new(), bytes: b"Man".to_vec() };
    assert_eq!(cover_art_to_base64(&cover), "TWFu");
    let cover = AudioCoverArtData { mime_type: String::new(), bytes: b"Ma".to_vec() };
    assert_eq!(cover_art_to_base64(&cover), "TWE=");
    let cover = AudioCoverArtData { mime_type: String::new(), bytes: vec![0xFB, 0xFF] };
    assert_eq!(cover_art_to_base64(&cover), "+/8=");
}

#[test]
fn decode_reports_each_failure() {
    assert_eq!(decode_cover_art_base64("   ", None), Err("封面数据为空".to_string()));
    let err = decode_cover_art_base64("%%%", None).unwrap_err();
    assert!(err.starts_with("封面数据解码失败: "));
    assert_eq!(decode_cover_art_base64("AAAA", None), Err("封面图片格式不受支持".to_string()));
    let text = cover_art_to_base64(&AudioCoverArtData { mime_type: String::new(), bytes: tiny_png() });
    assert_eq!(
        decode_cover_art_base64(&text, Some("image/jpeg")),
        Err("封面格式不匹配，期望 image/png".to_string())
    );
}

#[test]
fn embedded_cover_keeps_declared_type() {
    assert_eq!(cover_from_embedded_bytes(Vec::new(), None).unwrap().is_none(), true);
    let png = tiny_png();
    let cover = cover_from_embedded_bytes(png.clone(), Some("image/x-custom".to_string()))
        .unwrap()
        .unwrap();
    assert_eq!(cover.mime_type, "image/x-custom");
    let cover = cover_from_embedded_bytes(png.clone(), Some(String::new())).unwrap().unwrap();
    assert_eq!(cover.mime_type, "image/png");
    assert_eq!(cover.bytes, png);
    assert!(cover_from_embedded_bytes(vec![1, 2, 3], None).is_err());
    let from_file = cover_from_image_file_bytes(tiny_png()).unwrap();
    assert_eq!(from_file.mime_type, "image/png");
}

#[test]
fn text_edits_follow_the_request() {
    assert!(matches!(text_edit(None), TextEdit::Keep));
    assert!(matches!(text_edit(Some("  ")), TextEdit::Clear));
    match text_edit(Some("  Title ")) {
        TextEdit::Assign(v) => assert_eq!(v, "Title"),
        _ => panic!("expected a new value"),
    }
}

#[test]
fn cover_edits_need_valid_bytes() {
    assert!(matches!(cover_edit(CoverArtChange::NoChange, None), Ok(CoverEdit::Keep)));
    assert!(matches!(cover_edit(CoverArtChange::Remove, None), Ok(CoverEdit::RemoveAll)));
    assert_eq!(
        cover_edit(CoverArtChange::Replace, None).unwrap_err(),
        "缺少封面图片数据"
    );
    assert!(cover_edit(CoverArtChange::Replace, Some(&[1, 2, 3])).is_err());
    let png = tiny_png();
    match cover_edit(CoverArtChange::Replace, Some(&png)) {
        Ok(CoverEdit::ReplaceFront(v)) => assert_eq!(v, png),
        _ => panic!("expected a replacement"),
    }
}

#[test]
fn plans_a_tag_write() {
    let input = AudioTagWriteInput {
        title: Some(" Love Is Everything ".to_string()),
        artist: Some("".to_string()),
        album: None,
        lyrics_lrc: Some("[00:12.34]line".to_string()),
        embed_lyrics: false,
        cover_art_change: CoverArtChange::Replace,
        cover_art_data_base64: None,
        cover_art_mime_type: None,
    };
    assert_eq!(plan_tag_edits(&input).unwrap_err(), "封面数据为空");
    let input = AudioTagWriteInput {
        cover_art_change: CoverArtChange::Remove,
        embed_lyrics: true,
        ..input
    };
    let plan = plan_tag_edits(&input).unwrap();
    match plan.title {
        TextEdit::Assign(v) => assert_eq!(v, "Love Is Everything"),
        _ => panic!("expected a title"),
    }
    assert!(matches!(plan.artist, TextEdit::Clear));
    assert!(matches!(plan.album, TextEdit::Keep));
    assert!(matches!(plan.lyrics, TextEdit::Assign(_)));
    assert!(matches!(plan.cover, CoverEdit::RemoveAll));
}

#[test]
fn refuses_tag_writes_to_other_formats() {
    assert_eq!(ensure_tag_writable("/music/a.flac"), Ok(()));
    assert_eq!(
        ensure_tag_writable("/music/a.ac3"),
        Err("当前文件格式不支持写入标签: /music/a.ac3".to_string())
    );
}

fn png_of_size(w: u32, h: u32) -> Vec<u8> {
    let mut out = Vec::new();
    let image = image::RgbaImage::from_pixel(w, h, image::Rgba([200, 20, 30, 255]));
    image::DynamicImage::ImageRgba8(image)
        .write_to(&mut std::io::Cursor::new(&mut out), image::ImageFormat::Png)
        .unwrap();
    out
}

/// An MP3 stream: an ID3v2 tag holding `pictures`, then a few silent
/// MPEG-1 Layer III frames (128 kbit/s, 44.1 kHz, 417 bytes each).
fn mp3_with_pictures(pictures: Vec<Picture>) -> Vec<u8> {
    let mut tag = Tag::new(TagType::Id3v2);
    for p in pictures {
        tag.push_picture(p);
    }
    let mut out = Vec::new();
    tag.dump_to(&mut out, WriteOptions::default()).unwrap();
    for _ in 0..6 {
        let mut frame = vec![0u8; 417];
        frame[0] = 0xFF;
        frame[1] = 0xFB;
        frame[2] = 0x90;
        frame[3] = 0x00;
        out.extend_from_slice(&frame);
    }
    out
}

#[test]
fn reads_front_cover_from_audio_bytes() {
    let other = png_of_size(3, 3);
    let front = png_of_size(1, 1);
    let file = mp3_with_pictures(vec![
        Picture::new_unchecked(PictureType::Other, Some(MimeType::Png), None, other),
        Picture::new_unchecked(PictureType::CoverFront, Some(MimeType::Png), None, front.clone()),
    ]);
    let cover = read_audio_cover_art(&file, "song.mp3").unwrap().unwrap();
    assert_eq!(cover.bytes, front);
    assert_eq!(cover.mime_type, "image/png");
}

#[test]
fn reads_first_picture_without_front_cover() {
    let first = png_of_size(2, 1);
    let file = mp3_with_pictures(vec![
        Picture::new_unchecked(PictureType::Other, None, None, first.clone()),
    ]);
    let cover = read_audio_cover_art(&file, "song.mp3").unwrap().unwrap();
    assert_eq!(cover.bytes, first);
    assert_eq!(cover.mime_type, "image/png");
}

#[test]
fn audio_without_pictures_has_no_cover() {
    let file = mp3_with_pictures(Vec::new());
    assert!(read_audio_cover_art(&file, "song.mp3").unwrap().is_none());
}

#[test]
fn unreadable_audio_bytes_report_the_tag_read() {
    let err = read_audio_cover_art(b"not an audio file at all", "notes.txt").unwrap_err();
    assert!(
        err.starts_with("读取标签失败: ") || err.starts_with("识别文件格式失败: "),
        "{err}"
    );
}

#[test]
fn audio_type_falls_back_to_the_extension() {
    // Leading zeros longer than lofty's junk window hide the MPEG frames from
    // content guessing; the `.mp3` extension still selects the MPEG reader.
    let mut file = vec![0u8; 1100];
    file.extend_from_slice(&mp3_with_pictures(Vec::new()));
    assert!(read_audio_cover_art(&file, "/music/track.mp3").unwrap().is_none());
    let err = read_audio_cover_art(&file, "/music/track.bin").unwrap_err();
    assert!(err.starts_with("读取标签失败: "), "{err}");
}
