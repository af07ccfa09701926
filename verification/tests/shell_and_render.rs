use mediax::perf::{FpsWindow, VideoFramePipeline};
use mediax::playback::types::PlaybackStatus;
use mediax::render::{
    select_present_mode, PresentMode, copy_plane_rows, rgb24_frame_to_rgba, sanitize_surface_size, FrameQueue, VideoScaleMode,
    FRAME_QUEUE_CAPACITY,
};
use mediax::shell::{
    accepts_open_requests, classify_launch_text, deep_link_source, is_deep_link_argument,
    is_supported_remote_source, keep_awake_action, optional_str, KeepAwakeAction, LaunchSource,
};
use mediax::updates::{github_release_page_url, update_log_context, updater_platform_key};

#[test]
fn remote_sources_by_scheme() {
    assert!(is_supported_remote_source("HTTPS://example.com/a.mp4"));
    assert!(is_supported_remote_source("file:///tmp/a.mp4"));
    assert!(is_supported_remote_source("mms://x"));
    assert!(!is_supported_remote_source("/tmp/a.mp4"));
    assert!(!is_supported_remote_source("ftp://x"));
}

#[test]
fn launch_arguments() {
    assert!(classify_launch_text("   ").is_none());
    match classify_launch_text(" rtmp://live/x ") {
        Some(LaunchSource::Remote(s)) => assert_eq!(s, "rtmp://live/x"),
        _ => panic!("expected a remote source"),
    }
    match classify_launch_text("./movie.mkv") {
        Some(LaunchSource::LocalPath(s)) => assert_eq!(s, "./movie.mkv"),
        _ => panic!("expected a path"),
    }
    assert!(is_deep_link_argument("  MediaX://open?url=x"));
    assert!(!is_deep_link_argument("/home/me/mediax://"));
}

#[test]
fn deep_links() {
    let q = |pairs: &[(&str, &str)]| {
        pairs.iter().map(|(k, v)| (k.to_string(), v.to_string())).collect::<Vec<_>>()
    };
    match deep_link_source("mediax", Some("Play"), &q(&[("x", "1"), ("url", "https://a/b.m3u8")])) {
        Some(LaunchSource::Remote(s)) => assert_eq!(s, "https://a/b.m3u8"),
        _ => panic!("expected a remote source"),
    }
    match deep_link_source("mediax", None, &q(&[("path", "/tmp/a.mp4"), ("url", "https://x")])) {
        Some(LaunchSource::LocalPath(s)) => assert_eq!(s, "/tmp/a.mp4"),
        _ => panic!("expected a path"),
    }
    assert!(deep_link_source("https", Some("open"), &q(&[("url", "https://x")])).is_none());
    assert!(deep_link_source("mediax", Some("delete"), &q(&[("url", "https://x")])).is_none());
    assert!(deep_link_source("mediax", Some("open"), &q(&[("source", "")])).is_none());
    assert!(deep_link_source("mediax", Some("open"), &q(&[("other", "x")])).is_none());
}

#[test]
fn open_requests_wait_for_autoprobe() {
    assert!(accepts_open_requests(None));
    assert!(accepts_open_requests(Some("  ")));
    assert!(!accepts_open_requests(Some("/tmp/a.mp4")));
}

#[test]
fn keep_awake_follows_playback() {
    assert_eq!(keep_awake_action(PlaybackStatus::Playing, false), KeepAwakeAction::Start);
    assert_eq!(keep_awake_action(PlaybackStatus::Playing, true), KeepAwakeAction::Unchanged);
    assert_eq!(keep_awake_action(PlaybackStatus::Paused, true), KeepAwakeAction::Stop);
    assert_eq!(keep_awake_action(PlaybackStatus::Stopped, false), KeepAwakeAction::Unchanged);
}

#[test]
fn optional_metadata_text() {
    assert_eq!(optional_str(""), None);
    assert_eq!(optional_str("Artist"), Some("Artist"));
}

#[test]
fn platform_keys() {
    assert_eq!(updater_platform_key("macos", "aarch64"), "darwin-aarch64");
    assert_eq!(updater_platform_key("windows", "x86_64"), "windows-x86_64");
    assert_eq!(updater_platform_key("linux", "aarch64"), "linux-aarch64");
    assert_eq!(updater_platform_key("linux", "riscv64"), "unknown");
    assert_eq!(updater_platform_key("freebsd", "x86_64"), "unknown");
}

#[test]
fn release_pages_and_log_context() {
    let endpoints = vec![
        "https://updates.example.com/releases/latest.json".to_string(),
        "https://github.com/acme/mediax/releases/latest/download/latest.json".to_string(),
    ];
    assert_eq!(
        github_release_page_url(&endpoints),
        Some("https://github.com/acme/mediax/releases".to_string())
    );
    assert_eq!(github_release_page_url(&endpoints[..1]), None);
    assert_eq!(github_release_page_url(&[]), None);
    assert_eq!(
        update_log_context("linux-x86_64", "0.3.1", &endpoints),
        "platform=linux-x86_64, current_version=0.3.1, endpoints=https://updates.example.com/releases/latest.json, https://github.com/acme/mediax/releases/latest/download/latest.json"
    );
    assert_eq!(
        update_log_context("unknown", "1.0.0", &[]),
        "platform=unknown, current_version=1.0.0, endpoints=none"
    );
}

#[test]
fn scale_modes() {
    assert_eq!(VideoScaleMode::from_u8(1), VideoScaleMode::Cover);
    assert_eq!(VideoScaleMode::from_u8(7), VideoScaleMode::Contain);
    assert_eq!(VideoScaleMode::from_u8(VideoScaleMode::Cover.as_u8()), VideoScaleMode::Cover);
    assert_eq!(VideoScaleMode::parse(" COVER "), Ok(VideoScaleMode::Cover));
    assert_eq!(
        VideoScaleMode::parse(" Fill "),
        Err("unsupported video scale mode: fill".to_string())
    );
}

#[test]
fn frame_queue_keeps_the_newest_six() {
    let mut q = FrameQueue::new();
    for i in 0..10 {
        q.submit(i);
        assert!(q.queue_depth() <= FRAME_QUEUE_CAPACITY);
    }
    assert!(!q.can_accept_frame());
    let mut out = Vec::new();
    while let Some(f) = q.pop_front() {
        out.push(f);
    }
    assert_eq!(out, vec![4, 5, 6, 7, 8, 9]);
    q.submit(1);
    q.clear();
    assert_eq!(q.queue_depth(), 0);
    assert!(q.can_accept_frame());
}

#[test]
fn surface_sizes() {
    assert_eq!(sanitize_surface_size(0, 5000, 4096), (1, 4096));
    assert_eq!(sanitize_surface_size(800, 600, 0), (1, 1));
    assert_eq!(sanitize_surface_size(800, 600, 4096), (800, 600));
}

#[test]
fn planes_and_pixels() {
    let data: Vec<u8> = (0..12).collect();
    assert_eq!(copy_plane_rows(&data, 4, 3, 3), vec![0, 1, 2, 4, 5, 6, 8, 9, 10]);
    assert_eq!(copy_plane_rows(&data, 4, 3, 0), Vec::<u8>::new());
    let rgb: Vec<u8> = vec![1, 2, 3, 4, 5, 6, 9, 7, 8, 9, 10, 11, 12, 9];
    assert_eq!(
        rgb24_frame_to_rgba(&rgb, 7, 2, 2),
        Ok(vec![1, 2, 3, 255, 4, 5, 6, 255, 7, 8, 9, 255, 10, 11, 12, 255])
    );
    assert_eq!(rgb24_frame_to_rgba(&rgb, 7, 0, 2), Err("GIF 帧尺寸无效".to_string()));
    assert_eq!(rgb24_frame_to_rgba(&rgb, 8, 2, 2), Err("GIF 帧数据不完整".to_string()));
}

#[test]
fn perf_windows() {
    let mut p = VideoFramePipeline::default();
    assert!(p.take_perf_snapshot().is_none());
    p.record_frame_cost(100);
    p.record_frame_cost(300);
    p.record_frame_cost(u128::MAX);
    let s = p.take_perf_snapshot().unwrap();
    assert_eq!((s.samples, s.total_micros, s.max_micros), (3, u128::MAX, u64::MAX));
    assert!(p.take_perf_snapshot().is_none());
    p.on_hw_transfer_failed();
    p.on_nv12_extract_failed();
    p.on_nv12_extract_failed();
    assert_eq!((p.integrity.dropped_hw_transfer, p.integrity.dropped_nv12_extract), (1, 2));
    p.on_color_profile_drift();
    assert_eq!(p.integrity.color_profile_drift, 1);
    p.integrity.color_profile_drift = u64::MAX;
    p.on_color_profile_drift();
    assert_eq!(p.integrity.color_profile_drift, u64::MAX);
    assert!(p.integrity_report_due(5));
    assert!(!p.integrity_report_due(5 + 999_999_999));
    assert!(p.integrity_report_due(5 + 1_000_000_000));
    let mut w = FpsWindow::default();
    assert_eq!(w.record_frame_and_compute(0), None);
    assert_eq!(w.record_frame_and_compute(500_000_000), None);
    assert_eq!(w.record_frame_and_compute(1_000_000_000), Some((3, 1_000_000_000)));
    assert_eq!(w.frames, 0);
    assert_eq!(w.record_frame_and_compute(1_500_000_000), None);
}

#[test]
fn documented_deep_links() {
    let pair = |k: &str, v: &str| vec![(k.to_string(), v.to_string())];
    match deep_link_source("mediax", Some("open"), &pair("url", "https://example.com/video.mp4")) {
        Some(LaunchSource::Remote(s)) => assert_eq!(s, "https://example.com/video.mp4"),
        _ => panic!("expected a remote source"),
    }
    match deep_link_source("mediax", Some("play"), &pair("url", "https://example.com/live.m3u8")) {
        Some(LaunchSource::Remote(s)) => assert_eq!(s, "https://example.com/live.m3u8"),
        _ => panic!("expected a remote source"),
    }
    match deep_link_source("mediax", Some("open"), &pair("path", "/Users/wangsen/Downloads/demo.mp4")) {
        Some(LaunchSource::LocalPath(s)) => assert_eq!(s, "/Users/wangsen/Downloads/demo.mp4"),
        _ => panic!("expected a path"),
    }
    match deep_link_source(
        "mediax",
        Some("open"),
        &pair("url", "file:///Users/wangsen/Downloads/demo.mp4"),
    ) {
        Some(LaunchSource::Remote(s)) => assert_eq!(s, "file:///Users/wangsen/Downloads/demo.mp4"),
        _ => panic!("expected a file URL"),
    }
}

#[test]
fn present_mode_prefers_fifo_then_auto_vsync() {
    assert_eq!(
        select_present_mode(&[PresentMode::Mailbox, PresentMode::Fifo, PresentMode::AutoVsync]),
        PresentMode::Fifo
    );
    assert_eq!(
        select_present_mode(&[PresentMode::Mailbox, PresentMode::AutoVsync]),
        PresentMode::AutoVsync
    );
    assert_eq!(
        select_present_mode(&[PresentMode::Immediate, PresentMode::Mailbox]),
        PresentMode::Immediate
    );
    assert_eq!(select_present_mode(&[]), PresentMode::Fifo);
}
