use mediax::playback::types::PlaybackStatus;
use mediax::render::clock_rate;
use mediax::system::{
    display_title, media_controls_metadata, media_controls_playback, positive_duration,
    MediaControlsPlayback, app_menu_title, main_window_title, media_key_command, menu_action, menu_event_payload,
    pauses_on_close, update_report, MediaKeyCommand, MediaKeyEvent, MenuAction, UpdateEvent,
};

fn bits(x: f64) -> u64 {
    x.to_bits()
}

#[test]
fn menu_ids() {
    assert_eq!(menu_action("mediax.app.quit"), MenuAction::Quit);
    assert_eq!(menu_action("mediax.app.settings"), MenuAction::ShowSettings);
    assert_eq!(menu_action("mediax.help.check_update"), MenuAction::CheckForUpdate);
    assert_eq!(menu_action("mediax.file.open_local"), MenuAction::OpenLocal);
    assert_eq!(menu_action("mediax.file.open_url"), MenuAction::OpenUrl);
    assert_eq!(menu_action("about"), MenuAction::Ignore);
    assert_eq!(menu_event_payload(MenuAction::OpenUrl), Some("open_url"));
    assert_eq!(menu_event_payload(MenuAction::Quit), None);
}

#[test]
fn menu_titles() {
    assert_eq!(app_menu_title("mediax"), "Mediax");
    assert_eq!(app_menu_title("ßeta"), "SSeta");
    assert_eq!(app_menu_title(""), "");
}

#[test]
fn window_titles_and_closing() {
    assert_eq!(main_window_title(Some("  Movie  "), "mediax"), "Movie");
    assert_eq!(main_window_title(Some("   "), "mediax"), "mediax");
    assert_eq!(main_window_title(None, "mediax"), "mediax");
    assert!(pauses_on_close(PlaybackStatus::Playing));
    assert!(!pauses_on_close(PlaybackStatus::Paused));
}

#[test]
fn media_keys() {
    let playing = PlaybackStatus::Playing;
    assert_eq!(media_key_command(MediaKeyEvent::Toggle, playing, 0), MediaKeyCommand::Pause);
    assert_eq!(
        media_key_command(MediaKeyEvent::Toggle, PlaybackStatus::Stopped, 0),
        MediaKeyCommand::Play
    );
    assert_eq!(
        media_key_command(MediaKeyEvent::Next, playing, 0),
        MediaKeyCommand::SeekRelative(bits(15.0))
    );
    assert_eq!(
        media_key_command(MediaKeyEvent::Previous, playing, bits(42.0)),
        MediaKeyCommand::SeekRelative(bits(-15.0))
    );
    assert_eq!(
        media_key_command(MediaKeyEvent::Previous, playing, bits(2.5)),
        MediaKeyCommand::SeekRelative(bits(-2.5))
    );
    assert_eq!(
        media_key_command(MediaKeyEvent::Previous, playing, bits(3.0)),
        MediaKeyCommand::SeekRelative(bits(-3.0))
    );
    assert_eq!(
        media_key_command(MediaKeyEvent::Seek(false), playing, 0),
        MediaKeyCommand::SeekRelative(bits(-15.0))
    );
    assert_eq!(
        media_key_command(MediaKeyEvent::SeekBy(false, bits(4.0)), playing, 0),
        MediaKeyCommand::SeekRelative(bits(-4.0))
    );
    assert_eq!(
        media_key_command(MediaKeyEvent::SetPosition(bits(9.0)), playing, 0),
        MediaKeyCommand::SeekTo(bits(9.0))
    );
    assert_eq!(media_key_command(MediaKeyEvent::Raise, playing, 0), MediaKeyCommand::ShowMainWindow);
    assert_eq!(media_key_command(MediaKeyEvent::Quit, playing, 0), MediaKeyCommand::Nothing);
}

#[test]
fn update_reports() {
    let ctx = "platform=linux-x86_64, current_version=0.1.0, endpoints=none";
    let r = update_report(&UpdateEvent::CheckFailed("timeout".to_string()), "linux-x86_64", "0.1.0", ctx);
    assert_eq!(r.log, format!("check failed: timeout; {ctx}"));
    let d = r.dialog.unwrap();
    assert_eq!(d.title, "检查更新失败");
    assert_eq!(
        d.message,
        "无法检查更新：timeout\n平台：linux-x86_64\n当前版本：0.1.0\n请确认 GitHub Releases 与 updater endpoint 已正确配置。"
    );
    assert!(d.error);
    assert!(!r.proceed);
    let r = update_report(&UpdateEvent::Available("0.2.0".to_string(), 12), "p", "v", ctx);
    assert_eq!(r.log, format!("update available: target_version=0.2.0, body_length=12, {ctx}"));
    assert_eq!(r.dialog.unwrap().message, "发现新版本 0.2.0，开始自动下载并安装。");
    assert!(r.proceed);
    let r = update_report(&UpdateEvent::DownloadProgress(512, Some(2048)), "p", "v", ctx);
    assert_eq!(r.log, format!("download progress: chunk_length=512, content_length=Some(2048), {ctx}"));
    let r = update_report(&UpdateEvent::DownloadProgress(1, None), "p", "v", ctx);
    assert_eq!(r.log, format!("download progress: chunk_length=1, content_length=None, {ctx}"));
    let r = update_report(&UpdateEvent::UpToDate, "p", "v", ctx);
    assert_eq!(r.dialog.unwrap().message, "当前已是最新版本。");
    assert!(!r.proceed);
    assert!(update_report(&UpdateEvent::NoReleasePage, "p", "v", ctx).dialog.is_none());
}

#[test]
fn presentation_clock_rates() {
    assert_eq!(clock_rate(bits(1.5)), bits(1.5));
    assert_eq!(clock_rate(bits(8.0)), bits(3.0));
    assert_eq!(clock_rate(bits(0.0)), bits(1.0));
    assert_eq!(clock_rate(bits(-2.0)), bits(1.0));
    assert_eq!(clock_rate(f64::NAN.to_bits()), bits(1.0));
}

#[test]
fn display_title_prefers_title_then_file_name() {
    assert_eq!(display_title(Some("Song"), Some("/m/a.mp3")), "Song");
    assert_eq!(display_title(Some(""), Some("/m/a.mp3")), "a.mp3");
    assert_eq!(display_title(None, Some("C:/x/clip.mkv")), "clip.mkv");
    assert_eq!(display_title(None, Some("/")), "MediaX");
    assert_eq!(display_title(None, Some("")), "MediaX");
    assert_eq!(display_title(None, None), "MediaX");
}

#[test]
fn positive_duration_keeps_finite_positive_times() {
    assert_eq!(positive_duration(bits(12.5)), Some(bits(12.5)));
    assert_eq!(positive_duration(bits(0.0)), None);
    assert_eq!(positive_duration(bits(-0.0)), None);
    assert_eq!(positive_duration(bits(-3.0)), None);
    assert_eq!(positive_duration(bits(f64::INFINITY)), None);
    assert_eq!(positive_duration(bits(f64::NAN)), None);
    assert_eq!(positive_duration(bits(f64::MIN_POSITIVE)), Some(bits(f64::MIN_POSITIVE)));
}

#[test]
fn media_controls_metadata_hides_empty_fields() {
    let m = media_controls_metadata(None, Some(""), Some("Album"), Some("/a/b/track.flac"), bits(200.0));
    assert_eq!(m.title, "track.flac");
    assert_eq!(m.artist, None);
    assert_eq!(m.album.as_deref(), Some("Album"));
    assert_eq!(m.duration_seconds_bits, Some(bits(200.0)));
    let m = media_controls_metadata(Some("T"), Some("A"), None, None, bits(0.0));
    assert_eq!(m.title, "T");
    assert_eq!(m.artist.as_deref(), Some("A"));
    assert_eq!(m.album, None);
    assert_eq!(m.duration_seconds_bits, None);
}

#[test]
fn media_controls_playback_follows_status() {
    assert_eq!(
        media_controls_playback(PlaybackStatus::Playing, bits(4.0)),
        MediaControlsPlayback::Playing(Some(bits(4.0)))
    );
    assert_eq!(
        media_controls_playback(PlaybackStatus::Paused, bits(0.0)),
        MediaControlsPlayback::Paused(None)
    );
    assert_eq!(media_controls_playback(PlaybackStatus::Idle, bits(4.0)), MediaControlsPlayback::Stopped);
    assert_eq!(media_controls_playback(PlaybackStatus::Stopped, bits(4.0)), MediaControlsPlayback::Stopped);
}
