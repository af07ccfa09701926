//! Recording the playing source to a cache file: when a recording may start,
//! where it is written, and what is reported of it.

use vstd::prelude::*;
use crate::error::MediaError;
use crate::playback::types::CacheRecordingStatus;
use crate::text::{
    append_str, ascii_lower, ascii_lower_chars, chars_of, chars_trim_end, contains, decimal,
    decimal_chars, ends_with, has_infix, has_prefix, has_suffix, starts_with, string_from_chars,
    trim, trim_end_char, trimmed_chars,
};
use crate::transcode::state::copy_opt_string;

verus! {

/// A network address the player streams from (`http`, `https`, `rtsp`,
/// `rtmp`, `mms`), by its exact prefix.
pub open spec fn network_source(source: Seq<char>) -> bool {
    ||| has_prefix(source, "http://"@)
    ||| has_prefix(source, "https://"@)
    ||| has_prefix(source, "rtsp://"@)
    ||| has_prefix(source, "rtmp://"@)
    ||| has_prefix(source, "mms://"@)
}

fn starts_with_str(s: &[char], p: &str) -> (r: bool)
    ensures
        r == has_prefix(s@, p@),
{
    let pv = chars_of(p);
    starts_with(s, pv.as_slice())
}

pub fn is_network_source(source: &str) -> (r: bool)
    ensures
        r == network_source(source@),
{
    let s = chars_of(source);
    let v = s.as_slice();
    starts_with_str(v, "http://") || starts_with_str(v, "https://") || starts_with_str(v, "rtsp://")
        || starts_with_str(v, "rtmp://") || starts_with_str(v, "mms://")
}

/// A live source, recorded as MPEG-TS: an HLS playlist or a network
/// address (judged on the ASCII-lowercased source).
pub open spec fn live_cache_source(source: Seq<char>) -> bool {
    let l = ascii_lower(source);
    has_infix(l, ".m3u8"@) || network_source(l)
}

/// Where a recording started at `started_at_ms` is written:
/// `<dir>/mediax-cache-<ms>.ts` for live sources, `.mp4` otherwise, the
/// directory's trailing `/` dropped.
pub open spec fn cache_output_path(base_dir: Seq<char>, started_at_ms: u64, live: bool) -> Seq<char> {
    trim_end_char(base_dir, '/') + "/mediax-cache-"@ + decimal(started_at_ms as nat) + (if live {
        ".ts"@
    } else {
        ".mp4"@
    })
}

/// A file this player wrote as a cache recording (judged on the
/// ASCII-lowercased source).
pub open spec fn cache_recording_file(source: Seq<char>) -> bool {
    let l = ascii_lower(source);
    (has_suffix(l, ".mp4"@) || has_suffix(l, ".ts"@)) && has_infix(l, "mediax-cache-"@)
}

pub struct CacheRecorderSession {
    pub source: String,
    pub output_path: String,
    pub started_at_ms: u64,
    pub active: bool,
    pub fallback_transcoding: bool,
    pub error_message: Option<String>,
}

/// The recording, if one exists.
pub struct MediaCacheState {
    pub recorder: Option<CacheRecorderSession>,
}

impl Default for MediaCacheState {
    fn default() -> (r: Self)
        ensures
            r.recorder is None,
    {
        MediaCacheState { recorder: None }
    }
}

/// The status reported of a recording session; `output_size_bytes` is the
/// size of its output file, when it can be read.
pub open spec fn session_status(
    r: CacheRecordingStatus,
    session: CacheRecorderSession,
    recording: bool,
    output_size_bytes: Option<u64>,
) -> bool {
    &&& r.recording == recording
    &&& r.source == Some(session.source)
    &&& r.output_path == Some(session.output_path)
    &&& r.finalized_output_path == (if recording {
        None
    } else {
        Some(session.output_path)
    })
    &&& r.output_size_bytes == output_size_bytes
    &&& r.started_at_ms == Some(session.started_at_ms)
    &&& r.error_message == session.error_message
    &&& r.fallback_transcoding == Some(session.fallback_transcoding)
}

/// No recording to report.
pub open spec fn idle_status(r: CacheRecordingStatus) -> bool {
    &&& !r.recording
    &&& r.source is None
    &&& r.output_path is None
    &&& r.finalized_output_path is None
    &&& r.output_size_bytes is None
    &&& r.started_at_ms is None
    &&& r.error_message is None
    &&& r.fallback_transcoding is None
}

fn status_of(session: &CacheRecorderSession, recording: bool, output_size_bytes: Option<u64>) -> (r:
    CacheRecordingStatus)
    ensures
        session_status(r, *session, recording, output_size_bytes),
{
    CacheRecordingStatus {
        recording,
        source: Some(session.source.clone()),
        output_path: Some(session.output_path.clone()),
        finalized_output_path: if recording {
            None
        } else {
            Some(session.output_path.clone())
        },
        output_size_bytes,
        started_at_ms: Some(session.started_at_ms),
        error_message: copy_opt_string(&session.error_message),
        fallback_transcoding: Some(session.fallback_transcoding),
    }
}

/// The source and output directory of a new recording: there must be a
/// source playing and a non-blank directory (trimmed).
pub fn prepare_cache_recording(current_path: Option<String>, output_dir: Option<&str>) -> (r: Result<
    (String, String),
    MediaError,
>)
    ensures
        match r {
            Ok((source, dir)) => current_path == Some(source) && (output_dir matches Some(d) && trim(
                d@,
            ).len() > 0 && dir@ == trim(d@)),
            Err(MediaError::InvalidInput(m)) => if current_path is None {
                m@ == "no active source to cache"@
            } else {
                m@ == "cache output_dir is required"@ && match output_dir {
                    Some(d) => trim(d@).len() == 0,
                    None => true,
                }
            },
            Err(_) => false,
        },
{
    let source = match current_path {
        Some(s) => s,
        None => {
            return Err(MediaError::invalid_input("no active source to cache"));
        },
    };
    let dir = match output_dir {
        Some(d) => trimmed_chars(d),
        None => {
            return Err(MediaError::invalid_input("cache output_dir is required"));
        },
    };
    if dir.len() == 0 {
        return Err(MediaError::invalid_input("cache output_dir is required"));
    }
    Ok((source, string_from_chars(dir.as_slice())))
}

/// `after` is the recording `before` once finalized for `reason`: an active
/// one stops, with the reason as its message; anything else is unchanged.
pub open spec fn finalized_for(
    before: Option<CacheRecorderSession>,
    after: Option<CacheRecorderSession>,
    reason: Seq<char>,
) -> bool {
    match before {
        Some(s) => if s.active {
            after matches Some(f) && f.source == s.source && f.output_path == s.output_path
                && f.started_at_ms == s.started_at_ms && !f.active && f.fallback_transcoding
                == s.fallback_transcoding && f.error_message is Some && f.error_message->0@ == reason
        } else {
            after == before
        },
        None => after is None,
    }
}

impl MediaCacheState {
    /// The status of the recording; `output_size_bytes` is the size of its
    /// output file, when it can be read.
    pub fn recording_status(&self, output_size_bytes: Option<u64>) -> (r: CacheRecordingStatus)
        ensures
            match self.recorder {
                Some(s) => session_status(r, s, s.active, output_size_bytes),
                None => idle_status(r),
            },
    {
        match &self.recorder {
            Some(session) => status_of(session, session.active, output_size_bytes),
            None => CacheRecordingStatus::idle(),
        }
    }

    /// Starts recording `source` into `base_dir`, at `started_at_ms`. Refused
    /// while a recording exists, and for a source that is itself a cache
    /// recording.
    pub fn start_recording(&mut self, source: String, base_dir: &str, started_at_ms: u64) -> (r:
        Result<CacheRecordingStatus, MediaError>)
        ensures
            old(self).recorder is Some ==> (r matches Err(MediaError::InvalidInput(m)) && m@
                == "cache recording already running"@ && final(self).recorder == old(
                self,
            ).recorder),
            old(self).recorder is None && cache_recording_file(source@) ==> (r matches Err(
                MediaError::InvalidInput(m),
            ) && m@ == "cannot start cache recording from an existing cache recording file"@
                && final(self).recorder is None),
            old(self).recorder is None && !cache_recording_file(source@) ==> ({
                &&& final(self).recorder matches Some(s) && s.source == source && s.output_path@
                    == cache_output_path(base_dir@, started_at_ms, live_cache_source(source@))
                    && s.started_at_ms == started_at_ms && s.active && !s.fallback_transcoding
                    && s.error_message is None
                &&& r matches Ok(st) && session_status(st, final(self).recorder->0, true, Some(0))
            }),
    {
        let lower = ascii_lower_chars(chars_of(source.as_str()).as_slice());
        let lower_text = string_from_chars(lower.as_slice());
        let live = {
            let hls = chars_of(".m3u8");
            contains(lower.as_slice(), hls.as_slice()) || is_network_source(lower_text.as_str())
        };
        let base = chars_of(base_dir);
        let trimmed = chars_trim_end(base.as_slice(), '/');
        let mut output_path = string_from_chars(trimmed.as_slice());
        append_str(&mut output_path, "/mediax-cache-");
        let digits = decimal_chars(started_at_ms);
        let ds = string_from_chars(digits.as_slice());
        append_str(&mut output_path, ds.as_str());
        if live {
            append_str(&mut output_path, ".ts");
        } else {
            append_str(&mut output_path, ".mp4");
        }
        if self.recorder.is_some() {
            return Err(MediaError::invalid_input("cache recording already running"));
        }
        let mp4 = chars_of(".mp4");
        let ts = chars_of(".ts");
        let marker = chars_of("mediax-cache-");
        let is_cache_file = (ends_with(lower.as_slice(), mp4.as_slice()) || ends_with(
            lower.as_slice(),
            ts.as_slice(),
        )) && contains(lower.as_slice(), marker.as_slice());
        if is_cache_file {
            return Err(
                MediaError::invalid_input(
                    "cannot start cache recording from an existing cache recording file",
                ),
            );
        }
        let session = CacheRecorderSession {
            source,
            output_path,
            started_at_ms,
            active: true,
            fallback_transcoding: false,
            error_message: None,
        };
        let status = status_of(&session, true, Some(0));
        self.recorder = Some(session);
        Ok(status)
    }

    /// Ends the recording and reports it as finalized; `output_size_bytes` is
    /// the size of its output file, when it can be read.
    pub fn stop_recording(&mut self, output_size_bytes: Option<u64>) -> (r: CacheRecordingStatus)
        ensures
            final(self).recorder is None,
            match old(self).recorder {
                Some(s) => session_status(r, s, false, output_size_bytes),
                None => idle_status(r),
            },
    {
        match self.recorder.take() {
            Some(session) => status_of(&session, false, output_size_bytes),
            None => CacheRecordingStatus::idle(),
        }
    }

    /// Marks an active recording as stopped, with the reason as its message;
    /// the session stays until it is stopped.
    pub fn finalize_active(&mut self, reason: &str)
        ensures
            finalized_for(old(self).recorder, final(self).recorder, reason@),
    {
        match &mut self.recorder {
            Some(session) => {
                if session.active {
                    session.active = false;
                    let mut m = String::new();
                    append_str(&mut m, reason);
                    session.error_message = Some(m);
                }
            },
            None => {},
        }
    }
}

} // verus!
