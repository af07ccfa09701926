use mediax::transcode::naming::{
    next_available_output_path, output_path_candidate, source_basename,
};
use mediax::transcode::requests::{
    configured_output_dir, image_job_format, image_output_dir, image_output_path, total_input_size, validate_image_paths,
};
use image::codecs::png::{CompressionType, FilterType, PngEncoder};
use image::ImageEncoder;
use std::path::Path;
use mediax::transcode::rules::{
    compress_png_bytes, compression_outcome, compute_target_dimensions, derive_extension_from_format,
    image_compress_choice, image_job_kind, image_output_extension, lossless_codec_for,
    lossless_size_estimate, lossy_encoder_for, parse_audio_codec_id, parse_resolution_height,
    parse_video_plan, tuned_lossy_quality, validate_path, AudioCodec, ImageCompressMode,
    JobResult, LosslessCodec, LossyEncoder,
};
use mediax::transcode::state::{TranscodeJob, TranscodeJobKind, TranscodeJobStatus, TranscodeState};

#[test]
fn validate_path_trims_and_names_the_field() {
    assert_eq!(validate_path("  /tmp/a.mp4 ", "视频源路径"), Ok("/tmp/a.mp4".to_string()));
    assert_eq!(validate_path("   ", "输出目录"), Err("输出目录 不能为空".to_string()));
}

#[test]
fn extension_comes_from_the_container_part() {
    assert_eq!(derive_extension_from_format(" MP4/H264+AAC ", "mp4"), "mp4");
    assert_eq!(derive_extension_from_format("mkv+opus", "mp4"), "mkv");
    assert_eq!(derive_extension_from_format("  ", "m4a"), "m4a");
    assert_eq!(derive_extension_from_format("WebM", "mp4"), "webm");
}

#[test]
fn video_plans() {
    let p = parse_video_plan("").unwrap();
    assert_eq!((p.container.as_str(), p.video_codec.as_str()), ("mp4", "h264"));
    let p = parse_video_plan("mkv/hevc+aac").unwrap();
    assert_eq!((p.container.as_str(), p.video_codec.as_str()), ("mkv", "hevc"));
    let p = parse_video_plan("mov").unwrap();
    assert_eq!((p.container.as_str(), p.video_codec.as_str()), ("mov", "h264"));
    let p = parse_video_plan("GIF/whatever").unwrap();
    assert_eq!((p.container.as_str(), p.video_codec.as_str()), ("gif", "gif"));
}

#[test]
fn resolution_heights() {
    assert_eq!(parse_resolution_height(""), Ok(None));
    assert_eq!(parse_resolution_height(" Source "), Ok(None));
    assert_eq!(parse_resolution_height("720P"), Ok(Some(720)));
    assert_eq!(parse_resolution_height("120p"), Ok(Some(120)));
    assert_eq!(parse_resolution_height("4k"), Err("不支持的分辨率: 4k".to_string()));
}

#[test]
fn target_dimensions_keep_even_widths() {
    assert_eq!(compute_target_dimensions(1920, 1080, None, 0), (1920, 1080));
    assert_eq!(compute_target_dimensions(1920, 1080, Some(1080), 0), (1920, 1080));
    assert_eq!(compute_target_dimensions(1920, 1080, Some(720), 1280), (1280, 720));
    assert_eq!(compute_target_dimensions(1000, 999, Some(480), 481), (480, 480));
    assert_eq!(compute_target_dimensions(1, 1000, Some(120), 0), (2, 120));
}

#[test]
fn audio_codecs_by_name() {
    assert_eq!(parse_audio_codec_id("mp3/libmp3lame"), AudioCodec::Mp3);
    assert_eq!(parse_audio_codec_id("ogg/opus+x"), AudioCodec::Opus);
    assert_eq!(parse_audio_codec_id("mka/mp2/extra"), AudioCodec::Mp2);
    assert_eq!(parse_audio_codec_id("asf/wmav2"), AudioCodec::Wmav2);
    assert_eq!(parse_audio_codec_id("m4a"), AudioCodec::Aac);
    assert_eq!(parse_audio_codec_id("wav/pcm"), AudioCodec::Aac);
}

#[test]
fn lossy_quality_is_tuned_per_format() {
    assert_eq!(tuned_lossy_quality(75, "jpeg"), 65);
    assert_eq!(tuned_lossy_quality(75, "webp"), 67);
    assert_eq!(tuned_lossy_quality(75, "png"), 75);
    assert_eq!(tuned_lossy_quality(5, "jpeg"), 1);
    assert_eq!(tuned_lossy_quality(0, "gif"), 1);
    assert_eq!(tuned_lossy_quality(200, "webp"), 92);
}

#[test]
fn image_compress_choices() {
    let c = image_compress_choice(" Lossy ", Some(" WEBP ")).unwrap();
    assert_eq!(c.mode, ImageCompressMode::Lossy);
    assert_eq!(c.lossy_format, "webp");
    assert_eq!(image_output_extension(&c, "/a/b.png"), "webp");
    assert_eq!(image_job_kind(c.mode), TranscodeJobKind::ImageLossy);
    let c = image_compress_choice("lossy", None).unwrap();
    assert_eq!(c.lossy_format, "jpeg");
    assert_eq!(image_output_extension(&c, "/a/b.png"), "jpg");
    assert_eq!(
        image_compress_choice("lossy", Some("tiff")).unwrap_err(),
        "有损压缩格式仅支持 jpeg/webp/png/gif/bmp"
    );
    let c = image_compress_choice("lossless", Some("tiff")).unwrap();
    assert_eq!(c.mode, ImageCompressMode::Lossless);
    assert_eq!(image_output_extension(&c, "/a/b.JPG"), "JPG");
    assert_eq!(image_output_extension(&c, "/a/noext"), "png");
    assert_eq!(image_job_kind(c.mode), TranscodeJobKind::ImageLossless);
    assert_eq!(image_compress_choice("other", None).unwrap().mode, ImageCompressMode::Other);
}

#[test]
fn lossless_estimate_is_ninety_percent() {
    assert_eq!(lossless_size_estimate(1000), 900);
    assert_eq!(lossless_size_estimate(0), 0);
    assert_eq!(lossless_size_estimate(u64::MAX), u64::MAX / 100);
}

#[test]
fn compression_outcomes() {
    assert!(matches!(compression_outcome(true, 100, 50), JobResult::Success(50)));
    match compression_outcome(false, 100, 120) {
        JobResult::Skipped(size, reason) => {
            assert_eq!(size, 100);
            assert_eq!(reason, "无损压缩未减小体积（原始: 100 B, 输出: 120 B）");
        }
        _ => panic!("expected a skip"),
    }
    match compression_outcome(true, 7, 7) {
        JobResult::Skipped(_, reason) => assert_eq!(reason, "有损压缩未减小体积（原始: 7 B, 输出: 7 B）"),
        _ => panic!("expected a skip"),
    }
}

#[test]
fn encoders_by_format() {
    assert_eq!(lossless_codec_for("/a/b.PNG"), Ok(LosslessCodec::Png));
    assert_eq!(lossless_codec_for("/a/b.jpeg"), Ok(LosslessCodec::Jpeg));
    assert_eq!(
        lossless_codec_for("/a/b.gif"),
        Err("当前仅支持 PNG/JPG/JPEG 的优化压缩".to_string())
    );
    assert!(lossless_codec_for("/a/b").is_err());
    assert_eq!(lossy_encoder_for("bmp"), Ok(LossyEncoder::Bmp));
    assert_eq!(lossy_encoder_for("JPEG"), Err("不支持的有损输出格式: JPEG".to_string()));
}

#[test]
fn base_names_from_paths_and_urls() {
    assert_eq!(source_basename("/videos/clip.final.mp4", "x"), "clip.final");
    assert_eq!(source_basename("https://host/live/stream.m3u8?token=1#t", "x"), "stream");
    assert_eq!(source_basename("https://host/dir/", "fallback"), "dir");
    assert_eq!(source_basename("/a/what:is*this?.mp4", "x"), "what-is-this");
    assert_eq!(source_basename("C:\\media\\clip.mp4", "x"), "C--media-clip");
    assert_eq!(source_basename("", "fallback"), "fallback");
    assert_eq!(source_basename("/a/ .mp4", "fallback"), "fallback");
    assert_eq!(source_basename("/a/.hidden", "x"), ".hidden");
}

#[test]
fn output_paths() {
    assert_eq!(
        output_path_candidate("/out", "/in/a.mov", "-transcoded", "mp4", "v"),
        "/out/a-transcoded.mp4"
    );
    assert_eq!(
        output_path_candidate("/out/", "/in/a.mov", "-transcoded", "mp4", "v"),
        "/out/a-transcoded.mp4"
    );
    assert_eq!(output_path_candidate("", "/in/a.mov", "", "mp4", "v"), "a.mp4");
    assert_eq!(
        next_available_output_path("/out", "/in/a.mov", "-x", "mp4", "v", false, 5),
        "/out/a-x.mp4"
    );
    assert_eq!(
        next_available_output_path("/out", "/in/a.mov", "-x", "mp4", "v", true, 1700000000123),
        "/out/a-x-1700000000123.mp4"
    );
}

#[test]
fn image_request_helpers() {
    let paths = vec![" /a.png ".to_string(), "/b.png".to_string()];
    assert_eq!(validate_image_paths(&paths), Ok(vec!["/a.png".to_string(), "/b.png".to_string()]));
    let paths = vec!["/a.png".to_string(), " ".to_string()];
    assert_eq!(validate_image_paths(&paths), Err("图片路径 不能为空".to_string()));
    assert_eq!(total_input_size(&[Some(10), None, Some(5)]), 15);
    assert_eq!(total_input_size(&[Some(u64::MAX), Some(5)]), u64::MAX);
    assert_eq!(configured_output_dir(Some("  /out ")), Some("/out".to_string()));
    assert_eq!(configured_output_dir(Some("  ")), None);
    assert_eq!(configured_output_dir(None), None);
}

fn job(id: u64) -> TranscodeJob {
    TranscodeJob::queued(
        id,
        TranscodeJobKind::Video,
        format!("/in/{id}.mov"),
        format!("/out/{id}.mp4"),
        Some(100),
        Some(100),
        None,
        Some("mp4".to_string()),
        Some("source".to_string()),
        Some(1.0f64.to_bits()),
    )
}

#[test]
fn queue_runs_three_jobs_at_a_time() {
    let mut state = TranscodeState::new();
    for _ in 0..5 {
        let id = state.next_job_id();
        state.enqueue(job(id));
    }
    let started = state.schedule(1000);
    assert_eq!(started, vec![1, 2, 3]);
    let snap = state.snapshot();
    assert_eq!(snap.running_jobs, 3);
    assert_eq!(snap.queued_jobs, 2);
    assert_eq!(snap.jobs[0].status, TranscodeJobStatus::Running);
    assert_eq!(snap.jobs[0].started_at_ms, Some(1000));
    assert_eq!(state.schedule(1001), Vec::<u64>::new());
}

#[test]
fn canceled_job_never_starts() {
    let mut state = TranscodeState::new();
    for _ in 0..2 {
        let id = state.next_job_id();
        state.enqueue(job(id));
    }
    state.cancel(1);
    assert!(state.is_canceled(1));
    let started = state.schedule(5);
    assert_eq!(started, vec![2]);
    let snap = state.snapshot();
    assert_eq!(snap.jobs[0].status, TranscodeJobStatus::Canceled);
    assert_eq!(snap.jobs[0].error_message.as_deref(), Some("任务已取消"));
}

#[test]
fn finished_jobs_make_room_and_progress_is_clamped() {
    let mut state = TranscodeState::new();
    for _ in 0..4 {
        let id = state.next_job_id();
        state.enqueue(job(id));
    }
    state.schedule(1);
    let status = state.update_progress(1, 250.0f64.to_bits(), Some(10), None, None);
    assert_eq!(status, TranscodeJobStatus::Running);
    assert_eq!(state.job(1).unwrap().progress_percent_bits, 100.0f64.to_bits());
    state.update_progress(1, (-3.0f64).to_bits(), None, None, None);
    assert_eq!(state.job(1).unwrap().progress_percent_bits, 0.0f64.to_bits());
    let bits = state.finish(1, TranscodeJobStatus::Success, None, 9);
    assert_eq!(bits, 100.0f64.to_bits());
    assert_eq!(state.schedule(10), vec![4]);
    state.remove(2);
    assert!(state.job(2).is_none());
    assert_eq!(state.snapshot().jobs.len(), 3);
}

#[test]
fn image_output_dir_follows_path_parent() {
    let cases = [
        "/a/b.png", "a/b.png", "b.png", "/b.png", "/", "", ".", "./", "./a.png", "a/./b.png",
        "a/b/", "a//b", "/a/.", "a/..", "../x.png", "//x", "a/b/./", "./.", "x/.//y/",
    ];
    for case in cases {
        let want = Path::new(case).parent().and_then(|p| p.to_str()).unwrap_or(".").to_string();
        assert_eq!(image_output_dir(None, case), want, "parent of {case:?}");
    }
    assert_eq!(image_output_dir(Some("/out".to_string()), "/a/b.png"), "/out");
}

#[test]
fn job_outcomes_are_recorded() {
    let mut state = TranscodeState::new();
    for _ in 0..3 {
        let id = state.next_job_id();
        state.enqueue(job(id));
    }
    state.schedule(1);
    state.record_job_outcome(1, Ok(JobResult::Success(42)), 7);
    let j = state.job(1).unwrap();
    assert_eq!(j.status, TranscodeJobStatus::Success);
    assert_eq!(j.output_size_bytes, Some(42));
    assert_eq!(j.progress_percent_bits, 100.0f64.to_bits());
    assert_eq!(j.finished_at_ms, Some(7));
    state.record_job_outcome(2, Ok(JobResult::Skipped(9, "no gain".to_string())), 8);
    let j = state.job(2).unwrap();
    assert_eq!(j.status, TranscodeJobStatus::Skipped);
    assert_eq!(j.output_size_bytes, Some(9));
    assert_eq!(j.error_message.as_deref(), Some("no gain"));
    assert_eq!(j.progress_percent_bits, 100.0f64.to_bits());
    state.record_job_outcome(3, Err("boom".to_string()), 9);
    let j = state.job(3).unwrap();
    assert_eq!(j.status, TranscodeJobStatus::Failed);
    assert_eq!(j.error_message.as_deref(), Some("boom"));
    assert_eq!(j.progress_percent_bits, 0.0f64.to_bits());
    assert_eq!(state.snapshot().running_jobs, 0);
}

#[test]
fn basenames_are_clean_or_fallback() {
    let cases = [
        "/a/b/My Song.mp3", "https://x.y/v/clip.mp4?t=1#f", "a:b*c?.png", "  .hidden ", "///",
        "", "dir/ spaced name .wav", "C:\\x\\y.avi",
    ];
    for case in cases {
        let r = source_basename(case, "output");
        let reserved = ['\\', '/', ':', '*', '?', '"', '<', '>', '|'];
        assert!(
            r == "output" || (!r.is_empty() && r == r.trim() && !r.chars().any(|c| reserved.contains(&c))),
            "{case:?} -> {r:?}"
        );
    }
}

fn uncompressed_png(w: u32, h: u32) -> Vec<u8> {
    let data = vec![128u8; (w * h * 4) as usize];
    let mut out = Vec::new();
    PngEncoder::new_with_quality(&mut out, CompressionType::Fast, FilterType::NoFilter)
        .write_image(&data, w, h, image::ExtendedColorType::Rgba8)
        .unwrap();
    out
}

#[test]
fn png_bytes_are_optimized_losslessly() {
    let data = uncompressed_png(64, 64);
    let (outcome, out) = compress_png_bytes(&data).unwrap();
    assert!(out.len() < data.len());
    assert_ne!(out, data);
    assert!(matches!(outcome, JobResult::Success(n) if n == out.len() as u64));
    let decoded = image::load_from_memory(&out).unwrap().to_rgba8();
    assert_eq!(decoded.as_raw(), &vec![128u8; 64 * 64 * 4]);
}

#[test]
fn non_png_bytes_fail_optimization() {
    let err = compress_png_bytes(b"plain text").unwrap_err();
    assert!(err.starts_with("PNG 优化失败: "), "{err}");
}

#[test]
fn image_jobs_overwrite_only_when_lossless() {
    let lossless = image_compress_choice("lossless", None).unwrap();
    assert_eq!(image_output_path(&lossless, "/p/a.png", "/p", true, 5), "/p/a.png");
    assert_eq!(image_job_format(&lossless), None);
    let lossy = image_compress_choice("lossy", Some("WebP")).unwrap();
    assert_eq!(image_output_path(&lossy, "/p/a.png", "/out", false, 5), "/out/a-compressed.webp");
    assert_eq!(image_output_path(&lossy, "/p/a.png", "/out", true, 5), "/out/a-compressed-5.webp");
    assert_eq!(image_job_format(&lossy).as_deref(), Some("webp"));
    let other = image_compress_choice("smart", None).unwrap();
    assert_eq!(image_output_path(&other, "/p/a.jpeg", "/p", false, 5), "/p/a-compressed.jpeg");
    assert_eq!(image_job_format(&other), None);
}
