//! Desktop integration decisions: the application menu, the system media
//! keys, and the messages of the update check.

use vstd::prelude::*;
use crate::floatbits::{f64_finite, f64_less, f64_nan, f64_negative, F64_INFINITY, F64_NEG_ZERO, F64_ZERO};
use crate::paths::{file_name, file_name_chars};
use crate::tags::opt_str_view;
use crate::playback::types::PlaybackStatus;
use crate::text::{append_str, chars_of, decimal, decimal_chars, equals_str, push_char, string_from_chars};

verus! {

/// Event name of menu actions sent to the front end.
pub const APP_MENU_EVENT: &'static str = "media://menu-action";

/// What a menu item does.
#[derive(Debug, Clone, Copy, PartialEq, Eq, Structural)]
pub enum MenuAction {
    Quit,
    ShowSettings,
    CheckForUpdate,
    /// Ask the front end to open a local file.
    OpenLocal,
    /// Ask the front end to open an address.
    OpenUrl,
    Ignore,
}

/// The action of a menu item, by its id.
pub open spec fn menu_action_of(id: Seq<char>) -> MenuAction {
    if id == "mediax.app.quit"@ {
        MenuAction::Quit
    } else if id == "mediax.app.settings"@ {
        MenuAction::ShowSettings
    } else if id == "mediax.help.check_update"@ {
        MenuAction::CheckForUpdate
    } else if id == "mediax.file.open_local"@ {
        MenuAction::OpenLocal
    } else if id == "mediax.file.open_url"@ {
        MenuAction::OpenUrl
    } else {
        MenuAction::Ignore
    }
}

pub fn menu_action(id: &str) -> (r: MenuAction)
    ensures
        r == menu_action_of(id@),
{
    let v = chars_of(id);
    let s = v.as_slice();
    if equals_str(s, "mediax.app.quit") {
        MenuAction::Quit
    } else if equals_str(s, "mediax.app.settings") {
        MenuAction::ShowSettings
    } else if equals_str(s, "mediax.help.check_update") {
        MenuAction::CheckForUpdate
    } else if equals_str(s, "mediax.file.open_local") {
        MenuAction::OpenLocal
    } else if equals_str(s, "mediax.file.open_url") {
        MenuAction::OpenUrl
    } else {
        MenuAction::Ignore
    }
}

/// The payload a front-end menu action carries.
pub open spec fn menu_event_payload_of(action: MenuAction) -> Option<Seq<char>> {
    match action {
        MenuAction::OpenLocal => Some("open_local"@),
        MenuAction::OpenUrl => Some("open_url"@),
        _ => None,
    }
}

pub fn menu_event_payload(action: MenuAction) -> (r: Option<&'static str>)
    ensures
        match r {
            Some(p) => menu_event_payload_of(action) == Some(p@),
            None => menu_event_payload_of(action) is None,
        },
{
    match action {
        MenuAction::OpenLocal => Some("open_local"),
        MenuAction::OpenUrl => Some("open_url"),
        _ => None,
    }
}

/// The uppercase mapping of a character (`char::to_uppercase`).
pub uninterp spec fn unicode_uppercase_char(c: char) -> Seq<char>;

/// Calls `char::to_uppercase` and collects the characters. The contract
/// claims only that the result is the Unicode uppercase mapping of `c`,
/// named `unicode_uppercase_char`.
#[verifier::external_body]
fn uppercase_char(c: char) -> (r: String)
    ensures
        r@ == unicode_uppercase_char(c),
{
    c.to_uppercase().collect::<String>()
}

/// The application menu's title: the package name with its first character
/// in uppercase.
pub open spec fn menu_title_of(name: Seq<char>) -> Seq<char> {
    if name.len() == 0 {
        name
    } else {
        unicode_uppercase_char(name[0]) + name.drop_first()
    }
}

pub fn app_menu_title(name: &str) -> (r: String)
    ensures
        r@ == menu_title_of(name@),
{
    let v = chars_of(name);
    if v.len() == 0 {
        return String::new();
    }
    let mut r = uppercase_char(v[0]);
    let mut i: usize = 1;
    while i < v.len()
        invariant
            1 <= i <= v@.len(),
            v@ == name@,
            r@ == unicode_uppercase_char(v@[0]) + v@.subrange(1, i as int),
        decreases v@.len() - i,
    {
        push_char(&mut r, v[i]);
        i += 1;
        assert(r@ =~= unicode_uppercase_char(v@[0]) + v@.subrange(1, i as int));
    }
    assert(v@.subrange(1, v@.len() as int) =~= v@.drop_first());
    r
}

/// Bits of the `f64` value `15.0`, the skip of the media keys.
pub const SKIP_SECONDS_BITS: u64 = 0x402E_0000_0000_0000;

/// Bits of the `f64` value `3.0`: "previous" rewinds the current source
/// when playback is past this point.
pub const RESTART_THRESHOLD_BITS: u64 = 0x4008_0000_0000_0000;

/// A system media key or request; times are `f64` bits.
#[derive(Debug, Clone, Copy, PartialEq, Eq, Structural)]
pub enum MediaKeyEvent {
    Play,
    Pause,
    Toggle,
    Stop,
    Next,
    Previous,
    /// A skip forward (`true`) or back.
    Seek(bool),
    /// A move forward (`true`) or back by the given seconds.
    SeekBy(bool, u64),
    SetPosition(u64),
    SetVolume(u64),
    Raise,
    OpenUri,
    Quit,
}

/// What the player does for a media key.
#[derive(Debug, Clone, Copy, PartialEq, Eq, Structural)]
pub enum MediaKeyCommand {
    Play,
    Pause,
    Stop,
    /// Move by the given seconds (`f64` bits, negative goes back).
    SeekRelative(u64),
    /// Move to the given position (`f64` bits).
    SeekTo(u64),
    SetVolume(u64),
    ShowMainWindow,
    Nothing,
}

/// `-x` for an `f64` (the sign bit flipped).
pub open spec fn f64_negated(b: u64) -> u64 {
    if b >= F64_NEG_ZERO {
        (b - F64_NEG_ZERO) as u64
    } else {
        (b + F64_NEG_ZERO) as u64
    }
}

fn negate_bits(b: u64) -> (r: u64)
    ensures
        r == f64_negated(b),
{
    if b >= F64_NEG_ZERO {
        b - F64_NEG_ZERO
    } else {
        b + F64_NEG_ZERO
    }
}

/// The command for a media key, given the playback status and position.
/// "Previous" goes back a skip when past the threshold, else to the start.
pub open spec fn media_key_command_of(event: MediaKeyEvent, status: PlaybackStatus, position_bits: u64) -> MediaKeyCommand {
    match event {
        MediaKeyEvent::Play => MediaKeyCommand::Play,
        MediaKeyEvent::Pause => MediaKeyCommand::Pause,
        MediaKeyEvent::Toggle => if status == PlaybackStatus::Playing {
            MediaKeyCommand::Pause
        } else {
            MediaKeyCommand::Play
        },
        MediaKeyEvent::Stop => MediaKeyCommand::Stop,
        MediaKeyEvent::Next => MediaKeyCommand::SeekRelative(SKIP_SECONDS_BITS),
        MediaKeyEvent::Previous => if !f64_nan(position_bits) && f64_less(
            RESTART_THRESHOLD_BITS,
            position_bits,
        ) {
            MediaKeyCommand::SeekRelative(f64_negated(SKIP_SECONDS_BITS))
        } else {
            MediaKeyCommand::SeekRelative(f64_negated(position_bits))
        },
        MediaKeyEvent::Seek(forward) => if forward {
            MediaKeyCommand::SeekRelative(SKIP_SECONDS_BITS)
        } else {
            MediaKeyCommand::SeekRelative(f64_negated(SKIP_SECONDS_BITS))
        },
        MediaKeyEvent::SeekBy(forward, seconds) => if forward {
            MediaKeyCommand::SeekRelative(seconds)
        } else {
            MediaKeyCommand::SeekRelative(f64_negated(seconds))
        },
        MediaKeyEvent::SetPosition(p) => MediaKeyCommand::SeekTo(p),
        MediaKeyEvent::SetVolume(v) => MediaKeyCommand::SetVolume(v),
        MediaKeyEvent::Raise => MediaKeyCommand::ShowMainWindow,
        MediaKeyEvent::OpenUri => MediaKeyCommand::Nothing,
        MediaKeyEvent::Quit => MediaKeyCommand::Nothing,
    }
}

pub fn media_key_command(event: MediaKeyEvent, status: PlaybackStatus, position_bits: u64) -> (r:
    MediaKeyCommand)
    ensures
        r == media_key_command_of(event, status, position_bits),
{
    match event {
        MediaKeyEvent::Play => MediaKeyCommand::Play,
        MediaKeyEvent::Pause => MediaKeyCommand::Pause,
        MediaKeyEvent::Toggle => if status == PlaybackStatus::Playing {
            MediaKeyCommand::Pause
        } else {
            MediaKeyCommand::Play
        },
        MediaKeyEvent::Stop => MediaKeyCommand::Stop,
        MediaKeyEvent::Next => MediaKeyCommand::SeekRelative(SKIP_SECONDS_BITS),
        MediaKeyEvent::Previous => {
            let nan = position_bits % F64_NEG_ZERO > 0x7FF0_0000_0000_0000u64;
            let pos_neg = position_bits >= F64_NEG_ZERO;
            let past = !nan && !pos_neg && RESTART_THRESHOLD_BITS < position_bits;
            if past {
                MediaKeyCommand::SeekRelative(negate_bits(SKIP_SECONDS_BITS))
            } else {
                MediaKeyCommand::SeekRelative(negate_bits(position_bits))
            }
        },
        MediaKeyEvent::Seek(forward) => if forward {
            MediaKeyCommand::SeekRelative(SKIP_SECONDS_BITS)
        } else {
            MediaKeyCommand::SeekRelative(negate_bits(SKIP_SECONDS_BITS))
        },
        MediaKeyEvent::SeekBy(forward, seconds) => if forward {
            MediaKeyCommand::SeekRelative(seconds)
        } else {
            MediaKeyCommand::SeekRelative(negate_bits(seconds))
        },
        MediaKeyEvent::SetPosition(p) => MediaKeyCommand::SeekTo(p),
        MediaKeyEvent::SetVolume(v) => MediaKeyCommand::SetVolume(v),
        MediaKeyEvent::Raise => MediaKeyCommand::ShowMainWindow,
        MediaKeyEvent::OpenUri => MediaKeyCommand::Nothing,
        MediaKeyEvent::Quit => MediaKeyCommand::Nothing,
    }
}

/// The play/pause key always changes whether the player is playing.
pub proof fn law_toggle_flips_playing(status: PlaybackStatus, position_bits: u64)
    ensures
        status == PlaybackStatus::Playing ==> media_key_command_of(
            MediaKeyEvent::Toggle,
            status,
            position_bits,
        ) == MediaKeyCommand::Pause,
        status != PlaybackStatus::Playing ==> media_key_command_of(
            MediaKeyEvent::Toggle,
            status,
            position_bits,
        ) == MediaKeyCommand::Play,
{
}

/// Title the system media controls show when nothing better is known.
pub const DEFAULT_MEDIA_TITLE: &'static str = "MediaX";

/// The title shown for a source: its own non-empty title, else the file
/// name of its path, else the application's name.
pub open spec fn display_title_of(title: Option<Seq<char>>, path: Option<Seq<char>>) -> Seq<char> {
    if title is Some && title->0.len() > 0 {
        title->0
    } else if path is Some && file_name(path->0) is Some {
        file_name(path->0)->0
    } else {
        DEFAULT_MEDIA_TITLE@
    }
}

pub fn display_title(title: Option<&str>, current_path: Option<&str>) -> (r: String)
    ensures
        r@ == display_title_of(opt_str_view(title), opt_str_view(current_path)),
{
    if let Some(t) = title {
        if t.unicode_len() > 0 {
            return t.to_string();
        }
    }
    if let Some(path) = current_path {
        let chars = chars_of(path);
        if let Some(name) = file_name_chars(chars.as_slice()) {
            return string_from_chars(name.as_slice());
        }
    }
    DEFAULT_MEDIA_TITLE.to_string()
}

/// A time in seconds (`f64` bits) when it is finite and above zero.
pub open spec fn positive_seconds_of(b: u64) -> Option<u64> {
    if f64_finite(b) && !f64_negative(b) && b != F64_ZERO {
        Some(b)
    } else {
        None
    }
}

pub fn positive_duration(seconds_bits: u64) -> (r: Option<u64>)
    ensures
        r == positive_seconds_of(seconds_bits),
{
    if F64_ZERO < seconds_bits && seconds_bits < F64_INFINITY {
        Some(seconds_bits)
    } else {
        None
    }
}

/// What the system media controls show of the current source.
#[derive(Debug)]
pub struct MediaControlsMetadata {
    pub title: String,
    pub artist: Option<String>,
    pub album: Option<String>,
    /// Length in seconds (`f64` bits), when known and positive.
    pub duration_seconds_bits: Option<u64>,
}

/// A text field shown only when it is present and not empty.
pub open spec fn shown_text(value: Option<Seq<char>>) -> Option<Seq<char>> {
    if value is Some && value->0.len() > 0 {
        value
    } else {
        None
    }
}

fn shown_field(value: Option<&str>) -> (r: Option<String>)
    ensures
        match r {
            Some(s) => shown_text(opt_str_view(value)) == Some(s@),
            None => shown_text(opt_str_view(value)) is None,
        },
{
    match value {
        Some(v) => if v.unicode_len() > 0 {
            Some(v.to_string())
        } else {
            None
        },
        None => None,
    }
}

/// The metadata handed to the system media controls for a source.
pub fn media_controls_metadata(
    title: Option<&str>,
    artist: Option<&str>,
    album: Option<&str>,
    current_path: Option<&str>,
    duration_seconds_bits: u64,
) -> (r: MediaControlsMetadata)
    ensures
        r.title@ == display_title_of(opt_str_view(title), opt_str_view(current_path)),
        match r.artist {
            Some(a) => shown_text(opt_str_view(artist)) == Some(a@),
            None => shown_text(opt_str_view(artist)) is None,
        },
        match r.album {
            Some(a) => shown_text(opt_str_view(album)) == Some(a@),
            None => shown_text(opt_str_view(album)) is None,
        },
        r.duration_seconds_bits == positive_seconds_of(duration_seconds_bits),
{
    MediaControlsMetadata {
        title: display_title(title, current_path),
        artist: shown_field(artist),
        album: shown_field(album),
        duration_seconds_bits: positive_duration(duration_seconds_bits),
    }
}

/// The playback state shown by the system media controls; a progress is
/// the position in seconds (`f64` bits) when it is positive.
#[derive(Debug, Clone, Copy, PartialEq, Eq, Structural)]
pub enum MediaControlsPlayback {
    Playing(Option<u64>),
    Paused(Option<u64>),
    Stopped,
}

pub open spec fn media_controls_playback_of(status: PlaybackStatus, position_bits: u64) -> MediaControlsPlayback {
    match status {
        PlaybackStatus::Playing => MediaControlsPlayback::Playing(positive_seconds_of(position_bits)),
        PlaybackStatus::Paused => MediaControlsPlayback::Paused(positive_seconds_of(position_bits)),
        PlaybackStatus::Idle => MediaControlsPlayback::Stopped,
        PlaybackStatus::Stopped => MediaControlsPlayback::Stopped,
    }
}

pub fn media_controls_playback(status: PlaybackStatus, position_bits: u64) -> (r: MediaControlsPlayback)
    ensures
        r == media_controls_playback_of(status, position_bits),
{
    let progress = positive_duration(position_bits);
    match status {
        PlaybackStatus::Playing => MediaControlsPlayback::Playing(progress),
        PlaybackStatus::Paused => MediaControlsPlayback::Paused(progress),
        PlaybackStatus::Idle => MediaControlsPlayback::Stopped,
        PlaybackStatus::Stopped => MediaControlsPlayback::Stopped,
    }
}

/// A step of the update check, as the updater reports it. Error texts are
/// those of the updater.
#[derive(Debug)]
pub enum UpdateEvent {
    Started,
    InitFailed(String),
    CheckFailed(String),
    UpToDate,
    /// A newer version exists; the length of its release notes.
    Available(String, usize),
    ReleasePageOpened(String),
    ReleasePageFailed(String, String),
    NoReleasePage,
    /// Bytes received in a chunk, and the total when known.
    DownloadProgress(usize, Option<u64>),
    DownloadFinished,
    InstallFailed(String),
    Installed(String),
}

/// A dialog shown to the user: title, message, and whether it reports an
/// error.
#[derive(Debug)]
pub struct UpdateDialog {
    pub title: String,
    pub message: String,
    pub error: bool,
}

/// What to do at a step: a log line, maybe a dialog, and whether the check
/// goes on.
#[derive(Debug)]
pub struct UpdateReport {
    pub log: String,
    pub dialog: Option<UpdateDialog>,
    pub proceed: bool,
}

/// `Some(n)` or `None`, as `{:?}` prints an optional count.
pub open spec fn debug_option(v: Option<u64>) -> Seq<char> {
    match v {
        Some(n) => "Some("@ + decimal(n as nat) + ")"@,
        None => "None"@,
    }
}

/// The log line of a step; `context` is `update_log_context`'s line.
pub open spec fn update_log_of(event: UpdateEvent, context: Seq<char>) -> Seq<char> {
    match event {
        UpdateEvent::Started => "check started: "@ + context,
        UpdateEvent::InitFailed(e) => "updater init failed: "@ + e@ + "; "@ + context,
        UpdateEvent::CheckFailed(e) => "check failed: "@ + e@ + "; "@ + context,
        UpdateEvent::UpToDate => "already up to date: "@ + context,
        UpdateEvent::Available(v, n) => "update available: target_version="@ + v@
            + ", body_length="@ + decimal(n as nat) + ", "@ + context,
        UpdateEvent::ReleasePageOpened(u) => "opened releases page: url="@ + u@ + ", "@ + context,
        UpdateEvent::ReleasePageFailed(u, e) => "open releases page failed: url="@ + u@
            + ", error="@ + e@ + ", "@ + context,
        UpdateEvent::NoReleasePage => "skip opening releases page: no github endpoint found, "@
            + context,
        UpdateEvent::DownloadProgress(c, t) => "download progress: chunk_length="@ + decimal(
            c as nat,
        ) + ", content_length="@ + debug_option(t) + ", "@ + context,
        UpdateEvent::DownloadFinished => "download finished: "@ + context,
        UpdateEvent::InstallFailed(e) => "install failed: "@ + e@ + "; "@ + context,
        UpdateEvent::Installed(v) => "install finished successfully: new_version="@ + v@ + ", "@
            + context,
    }
}

/// The dialog of a step, if any: title, message and whether it is an error.
pub open spec fn update_dialog_of(event: UpdateEvent, platform: Seq<char>, version: Seq<char>) -> Option<
    (Seq<char>, Seq<char>, bool),
> {
    match event {
        UpdateEvent::InitFailed(e) => Some(
            (
                "检查更新失败"@,
                "初始化更新器失败："@ + e@ + "\n平台："@ + platform + "\n当前版本："@ + version
                    + "\n请检查 tauri.conf.json 的 updater 配置。"@,
                true,
            ),
        ),
        UpdateEvent::CheckFailed(e) => Some(
            (
                "检查更新失败"@,
                "无法检查更新："@ + e@ + "\n平台："@ + platform + "\n当前版本："@ + version
                    + "\n请确认 GitHub Releases 与 updater endpoint 已正确配置。"@,
                true,
            ),
        ),
        UpdateEvent::UpToDate => Some(("检查更新"@, "当前已是最新版本。"@, false)),
        UpdateEvent::Available(v, _) => Some(
            ("发现新版本"@, "发现新版本 "@ + v@ + "，开始自动下载并安装。"@, false),
        ),
        UpdateEvent::InstallFailed(e) => Some(
            ("更新失败"@, "下载或安装更新失败："@ + e@, true),
        ),
        UpdateEvent::Installed(_) => Some(("更新完成"@, "更新已安装，应用将立即重启。"@, false)),
        _ => None,
    }
}

/// Whether the check goes on after a step: not after a failure, nor when
/// there is nothing to install.
pub open spec fn update_proceeds(event: UpdateEvent) -> bool {
    match event {
        UpdateEvent::InitFailed(_) => false,
        UpdateEvent::CheckFailed(_) => false,
        UpdateEvent::UpToDate => false,
        UpdateEvent::InstallFailed(_) => false,
        _ => true,
    }
}

fn decimal_text(n: u64) -> (r: String)
    ensures
        r@ == decimal(n as nat),
{
    let d = decimal_chars(n);
    string_from_chars(d.as_slice())
}

/// What to log and show at a step of the update check. `platform` and
/// `version` are the platform key and the running version; `context` is the
/// update log's context line.
pub fn update_report(event: &UpdateEvent, platform: &str, version: &str, context: &str) -> (r:
    UpdateReport)
    ensures
        r.log@ == update_log_of(*event, context@),
        match update_dialog_of(*event, platform@, version@) {
            Some((t, m, e)) => r.dialog matches Some(d) && d.title@ == t && d.message@ == m
                && d.error == e,
            None => r.dialog is None,
        },
        r.proceed == update_proceeds(*event),
{
    match event {
        UpdateEvent::Started => {
            let mut log = String::from_str("check started: ");
            append_str(&mut log, context);
            UpdateReport { log, dialog: None, proceed: true }
        },
        UpdateEvent::InitFailed(e) => {
            let mut log = String::from_str("updater init failed: ");
            append_str(&mut log, e.as_str());
            append_str(&mut log, "; ");
            append_str(&mut log, context);
            let mut message = String::from_str("初始化更新器失败：");
            append_str(&mut message, e.as_str());
            append_str(&mut message, "\n平台：");
            append_str(&mut message, platform);
            append_str(&mut message, "\n当前版本：");
            append_str(&mut message, version);
            append_str(&mut message, "\n请检查 tauri.conf.json 的 updater 配置。");
            UpdateReport {
                log,
                dialog: Some(UpdateDialog { title: String::from_str("检查更新失败"), message, error: true }),
                proceed: false,
            }
        },
        UpdateEvent::CheckFailed(e) => {
            let mut log = String::from_str("check failed: ");
            append_str(&mut log, e.as_str());
            append_str(&mut log, "; ");
            append_str(&mut log, context);
            let mut message = String::from_str("无法检查更新：");
            append_str(&mut message, e.as_str());
            append_str(&mut message, "\n平台：");
            append_str(&mut message, platform);
            append_str(&mut message, "\n当前版本：");
            append_str(&mut message, version);
            append_str(&mut message, "\n请确认 GitHub Releases 与 updater endpoint 已正确配置。");
            UpdateReport {
                log,
                dialog: Some(UpdateDialog { title: String::from_str("检查更新失败"), message, error: true }),
                proceed: false,
            }
        },
        UpdateEvent::UpToDate => {
            let mut log = String::from_str("already up to date: ");
            append_str(&mut log, context);
            UpdateReport {
                log,
                dialog: Some(
                    UpdateDialog {
                        title: String::from_str("检查更新"),
                        message: String::from_str("当前已是最新版本。"),
                        error: false,
                    },
                ),
                proceed: false,
            }
        },
        UpdateEvent::Available(v, n) => {
            let len = decimal_text(*n as u64);
            let mut log = String::from_str("update available: target_version=");
            append_str(&mut log, v.as_str());
            append_str(&mut log, ", body_length=");
            append_str(&mut log, len.as_str());
            append_str(&mut log, ", ");
            append_str(&mut log, context);
            let mut message = String::from_str("发现新版本 ");
            append_str(&mut message, v.as_str());
            append_str(&mut message, "，开始自动下载并安装。");
            UpdateReport {
                log,
                dialog: Some(UpdateDialog { title: String::from_str("发现新版本"), message, error: false }),
                proceed: true,
            }
        },
        UpdateEvent::ReleasePageOpened(u) => {
            let mut log = String::from_str("opened releases page: url=");
            append_str(&mut log, u.as_str());
            append_str(&mut log, ", ");
            append_str(&mut log, context);
            UpdateReport { log, dialog: None, proceed: true }
        },
        UpdateEvent::ReleasePageFailed(u, e) => {
            let mut log = String::from_str("open releases page failed: url=");
            append_str(&mut log, u.as_str());
            append_str(&mut log, ", error=");
            append_str(&mut log, e.as_str());
            append_str(&mut log, ", ");
            append_str(&mut log, context);
            UpdateReport { log, dialog: None, proceed: true }
        },
        UpdateEvent::NoReleasePage => {
            let mut log = String::from_str("skip opening releases page: no github endpoint found, ");
            append_str(&mut log, context);
            UpdateReport { log, dialog: None, proceed: true }
        },
        UpdateEvent::DownloadProgress(c, t) => {
            let chunk = decimal_text(*c as u64);
            let total = match t {
                Some(n) => {
                    let d = decimal_text(*n);
                    let mut s = String::from_str("Some(");
                    append_str(&mut s, d.as_str());
                    append_str(&mut s, ")");
                    s
                },
                None => String::from_str("None"),
            };
            let mut log = String::from_str("download progress: chunk_length=");
            append_str(&mut log, chunk.as_str());
            append_str(&mut log, ", content_length=");
            append_str(&mut log, total.as_str());
            append_str(&mut log, ", ");
            append_str(&mut log, context);
            UpdateReport { log, dialog: None, proceed: true }
        },
        UpdateEvent::DownloadFinished => {
            let mut log = String::from_str("download finished: ");
            append_str(&mut log, context);
            UpdateReport { log, dialog: None, proceed: true }
        },
        UpdateEvent::InstallFailed(e) => {
            let mut log = String::from_str("install failed: ");
            append_str(&mut log, e.as_str());
            append_str(&mut log, "; ");
            append_str(&mut log, context);
            let mut message = String::from_str("下载或安装更新失败：");
            append_str(&mut message, e.as_str());
            UpdateReport {
                log,
                dialog: Some(UpdateDialog { title: String::from_str("更新失败"), message, error: true }),
                proceed: false,
            }
        },
        UpdateEvent::Installed(v) => {
            let mut log = String::from_str("install finished successfully: new_version=");
            append_str(&mut log, v.as_str());
            append_str(&mut log, ", ");
            append_str(&mut log, context);
            UpdateReport {
                log,
                dialog: Some(
                    UpdateDialog {
                        title: String::from_str("更新完成"),
                        message: String::from_str("更新已安装，应用将立即重启。"),
                        error: false,
                    },
                ),
                proceed: true,
            }
        },
    }
}

/// The main window's title: the requested one, trimmed, unless blank; the
/// application's default otherwise.
pub fn main_window_title(title: Option<&str>, default_title: &str) -> (r: String)
    ensures
        r@ == match title {
            Some(t) => if crate::text::trim(t@).len() > 0 {
                crate::text::trim(t@)
            } else {
                default_title@
            },
            None => default_title@,
        },
{
    if let Some(t) = title {
        let v = crate::text::trimmed_chars(t);
        if v.len() > 0 {
            return string_from_chars(v.as_slice());
        }
    }
    let mut r = String::new();
    append_str(&mut r, default_title);
    r
}

/// Whether closing the main window pauses playback first: only while playing.
pub fn pauses_on_close(status: PlaybackStatus) -> (r: bool)
    ensures
        r == (status == PlaybackStatus::Playing),
{
    status == PlaybackStatus::Playing
}

} // verus!
