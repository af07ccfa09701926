//! Events the player sends to the front end.

use vstd::prelude::*;

verus! {

pub const MEDIA_STATE_EVENT: &'static str = "media://state";

pub const MEDIA_METADATA_EVENT: &'static str = "media://metadata";

pub const MEDIA_ERROR_EVENT: &'static str = "media://error";

pub const MEDIA_DEBUG_EVENT: &'static str = "media://debug";

pub const TRANSCODE_STATUS_EVENT: &'static str = "media://transcode/status";

pub const TRANSCODE_PROGRESS_EVENT: &'static str = "media://transcode/progress";

pub const TRANSCODE_ESTIMATE_EVENT: &'static str = "media://transcode/estimate";

/// An error of the decode stream, with a stable code.
#[derive(Debug)]
pub struct MediaErrorPayload {
    pub code: &'static str,
    pub message: String,
}

/// A diagnostic message of a stage of the decode stream.
#[derive(Debug)]
pub struct MediaDebugPayload {
    pub stage: &'static str,
    pub message: String,
    pub at_ms: u64,
}

} // verus!
