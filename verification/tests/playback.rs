use mediax::error::{command_result, MediaError};
use mediax::playback::cache::{is_network_source, prepare_cache_recording, MediaCacheState};
use mediax::playback::commands::{
    normalize_non_negative, normalize_playback_rate, normalize_preview_edge,
    normalize_unit_interval, MediaState,
};
use mediax::playback::controls::{AudioControls, TimingControls};
use mediax::playback::service::{is_adaptive_quality_source, MediaPlaybackService};
use mediax::playback::stream::{MediaRuntimeState, StreamRuntimeState};
use mediax::playback::types::{
    HardwareDecodeMode, PlaybackChannelRouting, PlaybackQualityMode, PlaybackState, PlaybackStatus,
};

fn bits(x: f64) -> u64 {
    x.to_bits()
}

#[test]
fn default_session_is_idle() {
    let s = PlaybackState::default();
    assert_eq!(s.engine, "mpv");
    assert_eq!(s.status, PlaybackStatus::Idle);
    assert_eq!(s.playback_rate_bits, bits(1.0));
    assert_eq!(HardwareDecodeMode::default(), HardwareDecodeMode::Auto);
    assert_eq!(PlaybackQualityMode::default(), PlaybackQualityMode::Source);
}

#[test]
fn open_starts_paused_at_zero_with_source_quality() {
    let mut service = MediaPlaybackService::default();
    service.set_quality_mode(PlaybackQualityMode::P480);
    service.seek(bits(42.0));
    service.update_hw_decode_status(true, Some("vaapi".to_string()), None);
    let s = service.open("https://cdn/live.M3U8".to_string());
    assert_eq!(s.status, PlaybackStatus::Paused);
    assert_eq!(s.position_seconds_bits, bits(0.0));
    assert_eq!(s.quality_mode, PlaybackQualityMode::Source);
    assert!(!s.hw_decode_active);
    assert_eq!(s.hw_decode_backend, None);
    assert!(s.adaptive_quality_supported);
    assert_eq!(s.current_path.as_deref(), Some("https://cdn/live.M3U8"));
    let s = service.open("/movies/a.mp4".to_string());
    assert!(!s.adaptive_quality_supported);
}

#[test]
fn adaptive_sources() {
    assert!(is_adaptive_quality_source("  https://x/manifest.mpd "));
    assert!(is_adaptive_quality_source("HTTP://X/A.M3U8?x=1"));
    assert!(!is_adaptive_quality_source("/a/b.mp4"));
}

#[test]
fn seek_rate_and_sync_are_normalized() {
    let mut service = MediaPlaybackService::default();
    assert_eq!(service.seek(bits(-5.0)).position_seconds_bits, bits(0.0));
    assert_eq!(service.seek(f64::NAN.to_bits()).position_seconds_bits, bits(0.0));
    assert_eq!(service.seek(bits(12.5)).position_seconds_bits, bits(12.5));
    assert_eq!(service.set_rate(bits(10.0)).playback_rate_bits, bits(3.0));
    assert_eq!(service.set_rate(bits(0.1)).playback_rate_bits, bits(0.25));
    assert_eq!(service.set_rate(bits(-1.0)).playback_rate_bits, bits(0.25));
    assert_eq!(service.set_rate(bits(1.5)).playback_rate_bits, bits(1.5));
    let s = service.sync_position(bits(-1.0), bits(90.0));
    assert_eq!((s.position_seconds_bits, s.duration_seconds_bits), (bits(0.0), bits(90.0)));
}

#[test]
fn stop_rewinds_and_play_clears_errors() {
    let mut service = MediaPlaybackService::default();
    service.open("/a.mp4".to_string());
    service.seek(bits(30.0));
    let s = service.stop();
    assert_eq!(s.status, PlaybackStatus::Stopped);
    assert_eq!(s.position_seconds_bits, bits(0.0));
    let s = service.play();
    assert_eq!(s.status, PlaybackStatus::Playing);
    assert_eq!(s.error, None);
    assert_eq!(service.pause().status, PlaybackStatus::Paused);
}

#[test]
fn audio_controls_roundtrip() {
    let mut c = AudioControls::default();
    assert_eq!(c.volume(), 1.0f32.to_bits());
    assert_eq!(c.channel_routing(), PlaybackChannelRouting::Stereo);
    c.set_volume(0.5f32.to_bits());
    assert_eq!(f32::from_bits(c.volume()), 0.5);
    c.set_volume(3.0f32.to_bits());
    assert_eq!(f32::from_bits(c.volume()), 1.0);
    c.set_volume(0.0f32.to_bits());
    assert_eq!(f32::from_bits(c.volume()), 1.0);
    c.set_muted(true);
    assert!(c.muted());
    assert_eq!(c.output_volume(), 0);
    for routing in [
        PlaybackChannelRouting::Stereo,
        PlaybackChannelRouting::LeftToBoth,
        PlaybackChannelRouting::RightToBoth,
    ] {
        c.set_channel_routing(routing);
        assert_eq!(c.channel_routing(), routing);
    }
    c.set_left_muted(true);
    c.set_right_muted(false);
    assert!(c.left_muted() && !c.right_muted());
    c.set_left_volume(0.25f32.to_bits());
    assert_eq!(f32::from_bits(c.left_volume()), 0.25);
    assert_eq!(f32::from_bits(c.right_volume()), 1.0);
    c.set_right_volume((-1.0f32).to_bits());
    assert_eq!(f32::from_bits(c.right_volume()), 1.0);
}

#[test]
fn timing_controls_clamp_rates() {
    let mut t = TimingControls::default();
    assert_eq!(f32::from_bits(t.playback_rate()), 1.0);
    t.set_playback_rate(5.0f32.to_bits());
    assert_eq!(f32::from_bits(t.playback_rate()), 3.0);
    t.set_playback_rate(0.5f32.to_bits());
    assert_eq!(f32::from_bits(t.playback_rate()), 0.5);
}

#[test]
fn stream_bookkeeping() {
    let mut s = StreamRuntimeState::default();
    let g = s.advance_generation();
    assert_eq!(g, 1);
    assert!(s.is_generation_current(g));
    assert!(!s.is_generation_current(0));
    let e = s.next_restart_epoch();
    assert!(s.is_restart_epoch_current(e));
    s.set_pending_seek_seconds(bits(-2.0));
    assert_eq!(s.take_pending_seek_seconds(), Some(bits(0.0)));
    assert_eq!(s.take_pending_seek_seconds(), None);
    s.set_pending_seek_seconds(bits(7.0));
    assert_eq!(s.take_pending_seek_seconds(), Some(bits(7.0)));
    s.reset_pending_seek_to_zero();
    assert_eq!(s.take_pending_seek_seconds(), Some(bits(0.0)));
    s.set_latest_position_seconds(bits(9.0));
    assert_eq!(s.latest_position_seconds(), bits(9.0));
    let mut r = MediaRuntimeState::default();
    assert_eq!(r.next_preview_frame_epoch(), 1);
    assert_eq!(r.next_paused_seek_epoch(), 1);
    assert_eq!(r.next_paused_seek_epoch(), 2);
}

#[test]
fn request_numbers_are_checked() {
    assert_eq!(normalize_non_negative(bits(-3.0), "position_seconds").unwrap(), bits(0.0));
    match normalize_non_negative(f64::INFINITY.to_bits(), "position_seconds") {
        Err(MediaError::InvalidInput(m)) => assert_eq!(m, "position_seconds must be a finite number"),
        _ => panic!("expected an error"),
    }
    assert_eq!(normalize_unit_interval(bits(1.5), "volume").unwrap(), bits(1.0));
    assert!(normalize_unit_interval(f64::NAN.to_bits(), "volume").is_err());
    assert_eq!(normalize_playback_rate(bits(9.0)).unwrap(), bits(4.0));
    assert_eq!(normalize_playback_rate(bits(0.0)).unwrap(), bits(0.25));
    assert!(normalize_playback_rate(f64::NEG_INFINITY.to_bits()).is_err());
    assert_eq!(normalize_preview_edge(1), 32);
    assert_eq!(normalize_preview_edge(160), 160);
    assert_eq!(normalize_preview_edge(10_000), 4096);
}

#[test]
fn command_results_carry_the_message() {
    let r: Result<u8, MediaError> = Err(MediaError::invalid_input("bad"));
    assert_eq!(command_result(r), Err("bad".to_string()));
    assert_eq!(command_result::<u8>(Ok(3)), Ok(3));
}

#[test]
fn session_commands() {
    let mut m = MediaState::default();
    m.open_source("/a.mp4".to_string());
    assert_eq!(m.runtime.stream.take_pending_seek_seconds(), Some(bits(0.0)));
    m.runtime.stream.set_latest_position_seconds(bits(12.0));
    let path = m.resume();
    assert_eq!(path.as_deref(), Some("/a.mp4"));
    assert_eq!(m.runtime.stream.take_pending_seek_seconds(), Some(bits(12.0)));
    let s = m.playback.state();
    assert_eq!(s.status, PlaybackStatus::Playing);
    assert_eq!(s.position_seconds_bits, bits(12.0));
    m.runtime.stream.set_latest_position_seconds(bits(20.0));
    m.pause_session();
    let s = m.playback.state();
    assert_eq!(s.status, PlaybackStatus::Paused);
    assert_eq!(s.position_seconds_bits, bits(20.0));
    let (p, status) = m.seek_to(bits(5.0)).unwrap();
    assert_eq!((p.as_deref(), status), (Some("/a.mp4"), PlaybackStatus::Paused));
    assert!(m.seek_to(f64::NAN.to_bits()).is_err());
    assert_eq!(m.set_rate(bits(3.5)).unwrap(), bits(3.5));
    assert_eq!(m.playback.state().playback_rate_bits, bits(3.0));
    assert_eq!(m.set_volume(bits(0.0)).unwrap(), bits(0.0));
    assert!(m.controls.audio.muted());
    m.set_volume(bits(0.4)).unwrap();
    assert!(!m.controls.audio.muted());
    match m.set_quality_mode(PlaybackQualityMode::Auto) {
        Err(MediaError::InvalidInput(msg)) => {
            assert_eq!(msg, "adaptive quality is not supported for current source")
        }
        _ => panic!("expected a refusal"),
    }
    assert_eq!(m.set_quality_mode(PlaybackQualityMode::P720).unwrap(), None);
    m.resume();
    assert_eq!(m.set_hw_decode_mode(HardwareDecodeMode::Off).as_deref(), Some("/a.mp4"));
    m.runtime.stream.set_latest_position_seconds(bits(8.0));
    assert_eq!(m.prepare_restart(), bits(8.0));
    let stopped = m.stop_session();
    assert_eq!(stopped.as_deref(), Some("/a.mp4"));
    let s = m.playback.state();
    assert_eq!((s.status, s.position_seconds_bits), (PlaybackStatus::Stopped, bits(0.0)));
    assert_eq!(m.sync_position(bits(1.0), bits(2.0)).unwrap().as_deref(), Some("/a.mp4"));
    let s = m.record_progress(bits(3.0), bits(4.0), true);
    assert_eq!(s.status, PlaybackStatus::Stopped);
}

#[test]
fn cache_recording_lifecycle() {
    assert!(is_network_source("rtsp://cam/1"));
    assert!(!is_network_source("HTTP://x"));
    let (source, dir) =
        prepare_cache_recording(Some("http://x/live.m3u8".to_string()), Some(" /tmp/rec/ ")).unwrap();
    assert_eq!(dir, "/tmp/rec/");
    match prepare_cache_recording(None, Some("/tmp")) {
        Err(MediaError::InvalidInput(m)) => assert_eq!(m, "no active source to cache"),
        _ => panic!("expected an error"),
    }
    match prepare_cache_recording(Some("/a.mp4".to_string()), Some("  ")) {
        Err(MediaError::InvalidInput(m)) => assert_eq!(m, "cache output_dir is required"),
        _ => panic!("expected an error"),
    }
    let mut cache = MediaCacheState::default();
    assert!(!cache.recording_status(None).recording);
    let status = cache.start_recording(source, &dir, 1234).unwrap();
    assert!(status.recording);
    assert_eq!(status.output_path.as_deref(), Some("/tmp/rec/mediax-cache-1234.ts"));
    assert_eq!(status.output_size_bytes, Some(0));
    match cache.start_recording("/b.mp4".to_string(), "/tmp", 1) {
        Err(MediaError::InvalidInput(m)) => assert_eq!(m, "cache recording already running"),
        _ => panic!("expected an error"),
    }
    cache.finalize_active("播放已停止，录制已自动停止");
    let status = cache.recording_status(Some(10));
    assert!(!status.recording);
    assert_eq!(status.finalized_output_path.as_deref(), Some("/tmp/rec/mediax-cache-1234.ts"));
    assert_eq!(status.error_message.as_deref(), Some("播放已停止，录制已自动停止"));
    let stopped = cache.stop_recording(Some(10));
    assert_eq!(stopped.output_size_bytes, Some(10));
    assert!(cache.recorder.is_none());
    let status = cache.start_recording("/movies/a.mp4".to_string(), "/tmp", 7).unwrap();
    assert_eq!(status.output_path.as_deref(), Some("/tmp/mediax-cache-7.mp4"));
    cache.stop_recording(None);
    match cache.start_recording("/tmp/MEDIAX-CACHE-7.MP4".to_string(), "/tmp", 8) {
        Err(MediaError::InvalidInput(m)) => {
            assert_eq!(m, "cannot start cache recording from an existing cache recording file")
        }
        _ => panic!("expected an error"),
    }
    assert!(!cache.stop_recording(None).recording);
}
