//! Sources handed to the application from outside: launch arguments, a
//! second launch, and `mediax://` deep links.

use vstd::prelude::*;
use vstd::string::*;
use crate::playback::types::PlaybackStatus;
use crate::text::{
    ascii_lower, ascii_lower_chars, before_char, chars_before, chars_of, equals_str, has_prefix,
    lemma_before_char,
    starts_with, string_from_chars, trim, trimmed_chars,
};

verus! {

/// A request to open a source, and the stage of start-up it came from.
#[derive(Clone, Copy)]
pub struct OpenSourceRequest<'a> {
    pub source: &'a str,
    pub stage: &'static str,
}

/// A source the player opens without looking for a file: its scheme (the
/// text before the first `:`, in any ASCII case) is `http`, `https`,
/// `rtsp`, `rtmp`, `mms` or `file`.
pub open spec fn supported_remote_source(source: Seq<char>) -> bool {
    let scheme = ascii_lower(before_char(source, ':'));
    ||| scheme == "http"@
    ||| scheme == "https"@
    ||| scheme == "rtsp"@
    ||| scheme == "rtmp"@
    ||| scheme == "mms"@
    ||| scheme == "file"@
}

pub fn is_supported_remote_source(source: &str) -> (r: bool)
    ensures
        r == supported_remote_source(source@),
{
    let s = chars_of(source);
    let head = chars_before(s.as_slice(), ':');
    let scheme = ascii_lower_chars(head.as_slice());
    let v = scheme.as_slice();
    equals_str(v, "http") || equals_str(v, "https") || equals_str(v, "rtsp") || equals_str(
        v,
        "rtmp",
    ) || equals_str(v, "mms") || equals_str(v, "file")
}

/// Law: a source `<scheme>:<rest>` (no `:` in the scheme) is opened as
/// remote exactly when its scheme, in any ASCII case, is http, https, rtsp,
/// rtmp, mms or file, whatever follows the colon.
pub proof fn law_remote_schemes(scheme: Seq<char>, rest: Seq<char>)
    requires
        forall|i: int| 0 <= i < scheme.len() ==> #[trigger] scheme[i] != ':',
    ensures
        supported_remote_source(scheme + seq![':'] + rest) <==> ({
            let l = ascii_lower(scheme);
            ||| l == "http"@
            ||| l == "https"@
            ||| l == "rtsp"@
            ||| l == "rtmp"@
            ||| l == "mms"@
            ||| l == "file"@
        }),
{
    let s = scheme + seq![':'] + rest;
    let k = scheme.len() as int;
    assert forall|i: int| 0 <= i < k implies #[trigger] s[i] != ':' by {
        assert(s[i] == scheme[i]);
    }
    assert(s[k] == ':');
    lemma_before_char(s, ':', k);
    assert(s.subrange(0, k) =~= scheme);
}

/// Where a source handed in from outside points.
#[derive(Debug)]
pub enum LaunchSource {
    /// A remote address, opened as given.
    Remote(String),
    /// A local path, opened if a file is there.
    LocalPath(String),
}

/// `r` is what the text `t` names: a remote address, or else a local path.
pub open spec fn launch_source_for(r: LaunchSource, t: Seq<char>) -> bool {
    if supported_remote_source(t) {
        r matches LaunchSource::Remote(s) && s@ == t
    } else {
        r matches LaunchSource::LocalPath(s) && s@ == t
    }
}

/// What a launch argument names, surrounding whitespace ignored; nothing
/// when it is blank. (An argument that is itself an existing path is taken
/// before this.)
pub fn classify_launch_text(raw: &str) -> (r: Option<LaunchSource>)
    ensures
        trim(raw@).len() == 0 ==> r is None,
        trim(raw@).len() > 0 ==> (r matches Some(l) && launch_source_for(l, trim(raw@))),
{
    let t = trimmed_chars(raw);
    if t.len() == 0 {
        return None;
    }
    let text = string_from_chars(t.as_slice());
    if is_supported_remote_source(text.as_str()) {
        Some(LaunchSource::Remote(text))
    } else {
        Some(LaunchSource::LocalPath(text))
    }
}

/// A second launch's argument that is a `mediax://` link (trimmed, any
/// ASCII case); such links arrive through the deep link handler instead.
pub open spec fn deep_link_argument(raw: Seq<char>) -> bool {
    has_prefix(ascii_lower(trim(raw)), "mediax://"@)
}

pub fn is_deep_link_argument(raw: &str) -> (r: bool)
    ensures
        r == deep_link_argument(raw@),
{
    let t = trimmed_chars(raw);
    let l = ascii_lower_chars(t.as_slice());
    let p = chars_of("mediax://");
    starts_with(l.as_slice(), p.as_slice())
}

/// The value of the first query pair whose key is `url`, `source` or `path`.
pub open spec fn deep_link_value(query: Seq<(Seq<char>, Seq<char>)>) -> Option<Seq<char>>
    decreases query.len(),
{
    if query.len() == 0 {
        None
    } else {
        let (k, v) = query[0];
        if k == "url"@ || k == "source"@ || k == "path"@ {
            Some(v)
        } else {
            deep_link_value(query.drop_first())
        }
    }
}

/// The query pairs of a link, as plain text.
pub open spec fn query_view(query: Seq<(String, String)>) -> Seq<(Seq<char>, Seq<char>)> {
    Seq::new(query.len(), |i: int| (query[i].0@, query[i].1@))
}

/// What a `mediax://` link opens: the link must have scheme `mediax`, an
/// action (host) of `open` or `play` in any ASCII case if it has one, and a
/// non-empty `url`, `source` or `path` query value.
pub open spec fn deep_link_target(
    scheme: Seq<char>,
    host: Option<Seq<char>>,
    query: Seq<(Seq<char>, Seq<char>)>,
) -> Option<Seq<char>> {
    if scheme != "mediax"@ {
        None
    } else if host matches Some(h) && ascii_lower(h) != "open"@ && ascii_lower(h) != "play"@ {
        None
    } else {
        match deep_link_value(query) {
            Some(v) => if v.len() == 0 {
                None
            } else {
                Some(v)
            },
            None => None,
        }
    }
}

fn first_source_value(query: &[(String, String)]) -> (r: Option<String>)
    ensures
        match r {
            Some(v) => deep_link_value(query_view(query@)) == Some(v@),
            None => deep_link_value(query_view(query@)) is None,
        },
{
    let mut i: usize = 0;
    assert(query_view(query@).subrange(0, query@.len() as int) =~= query_view(query@));
    while i < query.len()
        invariant
            i <= query@.len(),
            deep_link_value(query_view(query@)) == deep_link_value(
                query_view(query@).subrange(i as int, query@.len() as int),
            ),
        decreases query@.len() - i,
    {
        let (k, v) = &query[i];
        let kc = chars_of(k.as_str());
        let ghost rest = query_view(query@).subrange(i as int, query@.len() as int);
        assert(rest[0] == (k@, v@));
        if equals_str(kc.as_slice(), "url") || equals_str(kc.as_slice(), "source") || equals_str(
            kc.as_slice(),
            "path",
        ) {
            return Some(v.clone());
        }
        assert(rest.drop_first() =~= query_view(query@).subrange(i + 1, query@.len() as int));
        i += 1;
    }
    assert(query_view(query@).subrange(i as int, query@.len() as int).len() == 0);
    None
}

/// What a deep link opens, given its scheme, host and query pairs.
pub fn deep_link_source(scheme: &str, host: Option<&str>, query: &[(String, String)]) -> (r: Option<
    LaunchSource,
>)
    ensures
        match deep_link_target(
            scheme@,
            match host {
                Some(h) => Some(h@),
                None => None,
            },
            query_view(query@),
        ) {
            Some(t) => r matches Some(l) && launch_source_for(l, t),
            None => r is None,
        },
{
    let sc = chars_of(scheme);
    if !equals_str(sc.as_slice(), "mediax") {
        return None;
    }
    if let Some(h) = host {
        let hc = chars_of(h);
        let hl = ascii_lower_chars(hc.as_slice());
        if !equals_str(hl.as_slice(), "open") && !equals_str(hl.as_slice(), "play") {
            return None;
        }
    }
    let value = match first_source_value(query) {
        Some(v) => v,
        None => {
            return None;
        },
    };
    if value.as_str().unicode_len() == 0 {
        return None;
    }
    if is_supported_remote_source(value.as_str()) {
        Some(LaunchSource::Remote(value))
    } else {
        Some(LaunchSource::LocalPath(value))
    }
}

/// Whether outside open requests are acted on: not while an automatic probe
/// source is configured (a non-blank value).
pub fn accepts_open_requests(autoprobe_source: Option<&str>) -> (r: bool)
    ensures
        r == match autoprobe_source {
            Some(v) => trim(v@).len() == 0,
            None => true,
        },
{
    match autoprobe_source {
        Some(v) => trimmed_chars(v).len() == 0,
        None => true,
    }
}

/// What to do about the system's sleep and screen saver.
#[derive(Debug, Clone, Copy, PartialEq, Eq, Structural)]
pub enum KeepAwakeAction {
    /// Nothing to change.
    Unchanged,
    /// Keep the system and display awake.
    Start,
    /// Give the system its idle behaviour back.
    Stop,
}

/// While playing the system is kept awake; otherwise it may sleep.
/// `active` says whether it is kept awake now.
pub fn keep_awake_action(status: PlaybackStatus, active: bool) -> (r: KeepAwakeAction)
    ensures
        r == (if (status == PlaybackStatus::Playing) == active {
            KeepAwakeAction::Unchanged
        } else if status == PlaybackStatus::Playing {
            KeepAwakeAction::Start
        } else {
            KeepAwakeAction::Stop
        }),
{
    let should_block = status == PlaybackStatus::Playing;
    if should_block == active {
        KeepAwakeAction::Unchanged
    } else if should_block {
        KeepAwakeAction::Start
    } else {
        KeepAwakeAction::Stop
    }
}

/// Text for an optional metadata field: nothing when it is empty.
pub fn optional_str(value: &str) -> (r: Option<&str>)
    ensures
        value@.len() == 0 ==> r is None,
        value@.len() > 0 ==> r == Some(value),
{
    if value.unicode_len() == 0 {
        None
    } else {
        Some(value)
    }
}

} // verus!
