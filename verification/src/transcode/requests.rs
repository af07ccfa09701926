//! The requests the front end sends to the transcode commands, and the jobs
//! made from them.

use vstd::prelude::*;
use crate::floatbits::F64_ZERO;
use crate::paths::{parent_chars, path_parent};
use crate::text::{chars_of, trim, trimmed_chars, string_from_chars};
use crate::transcode::naming::{next_available_output_path, output_candidate, timestamped_candidate};
use crate::transcode::rules::{
    blank_field_message, image_output_extension, image_output_extension_of, validate_path,
    ImageCompressChoice, ImageCompressMode,
};
use crate::transcode::state::{TranscodeJob, TranscodeJobKind, TranscodeJobStatus};

verus! {

#[derive(Debug)]
pub struct VideoProbeResponse {
    pub width: u32,
    pub height: u32,
}

/// A video transcode request; the playback rate is an `f64` bit pattern.
#[derive(Debug)]
pub struct VideoTranscodeRequest {
    pub source_path: String,
    pub output_dir: String,
    pub format: String,
    pub resolution: String,
    pub playback_rate_bits: u64,
}

/// An audio transcode request; the playback rate is an `f64` bit pattern.
#[derive(Debug)]
pub struct AudioTranscodeRequest {
    pub source_path: String,
    pub output_dir: String,
    pub format: String,
    pub playback_rate_bits: u64,
}

#[derive(Debug)]
pub struct ImageCompressRequest {
    pub source_paths: Vec<String>,
    pub output_dir: Option<String>,
    pub mode: String,
    pub format: Option<String>,
    pub quality: Option<u8>,
}

#[derive(Debug)]
pub struct ImageCompressEstimateRequest {
    pub source_paths: Vec<String>,
    pub mode: String,
    pub format: Option<String>,
    pub quality: Option<u8>,
}

#[derive(Debug)]
pub struct ImageCompressEstimateResponse {
    pub total_input_size_bytes: u64,
    pub estimated_output_size_bytes: u64,
}

/// A job freshly queued: nothing started, finished or measured of its
/// output yet, at zero progress.
pub open spec fn queued_job(j: TranscodeJob) -> bool {
    &&& j.status == TranscodeJobStatus::Queued
    &&& j.progress_percent_bits == F64_ZERO
    &&& j.started_at_ms is None
    &&& j.finished_at_ms is None
    &&& j.error_message is None
    &&& j.output_size_bytes is None
}

impl TranscodeJob {
    /// A new job waiting in the queue.
    pub fn queued(
        id: u64,
        kind: TranscodeJobKind,
        source_path: String,
        output_path: String,
        input_size_bytes: Option<u64>,
        estimated_output_size_bytes: Option<u64>,
        quality: Option<u8>,
        format: Option<String>,
        resolution: Option<String>,
        playback_rate_bits: Option<u64>,
    ) -> (r: TranscodeJob)
        ensures
            queued_job(r),
            r.id == id,
            r.kind == kind,
            r.source_path == source_path,
            r.output_path == output_path,
            r.input_size_bytes == input_size_bytes,
            r.estimated_output_size_bytes == estimated_output_size_bytes,
            r.quality == quality,
            r.format == format,
            r.resolution == resolution,
            r.playback_rate_bits == playback_rate_bits,
    {
        TranscodeJob {
            id,
            kind,
            source_path,
            output_path,
            status: TranscodeJobStatus::Queued,
            progress_percent_bits: F64_ZERO,
            started_at_ms: None,
            finished_at_ms: None,
            error_message: None,
            input_size_bytes,
            output_size_bytes: None,
            estimated_output_size_bytes,
            quality,
            format,
            resolution,
            playback_rate_bits,
        }
    }
}

/// Checks every image path: each must be non-blank, and is trimmed; the
/// first blank one is refused.
pub fn validate_image_paths(paths: &[String]) -> (r: Result<Vec<String>, String>)
    ensures
        match r {
            Ok(v) => v@.len() == paths@.len() && forall|i: int|
                0 <= i < paths@.len() ==> trim(#[trigger] paths@[i]@).len() > 0 && v@[i]@ == trim(
                    paths@[i]@,
                ),
            Err(e) => e@ == blank_field_message("图片路径"@) && exists|i: int|
                0 <= i < paths@.len() && trim(#[trigger] paths@[i]@).len() == 0,
        },
{
    let mut out: Vec<String> = Vec::new();
    let mut i: usize = 0;
    while i < paths.len()
        invariant
            i <= paths@.len(),
            out@.len() == i,
            forall|k: int|
                0 <= k < i ==> trim(#[trigger] paths@[k]@).len() > 0 && out@[k]@ == trim(
                    paths@[k]@,
                ),
        decreases paths@.len() - i,
    {
        match validate_path(paths[i].as_str(), "图片路径") {
            Ok(p) => {
                out.push(p);
            },
            Err(e) => {
                proof {
                    reveal_strlit("图片路径");
                    assert(trim(paths@[i as int]@).len() == 0);
                }
                return Err(e);
            },
        }
        i += 1;
    }
    Ok(out)
}

/// Sum of the sizes that could be read, saturating at `u64::MAX`.
pub open spec fn total_size(sizes: Seq<Option<u64>>) -> int
    decreases sizes.len(),
{
    if sizes.len() == 0 {
        0
    } else {
        let rest = total_size(sizes.drop_last());
        let add = match sizes.last() {
            Some(n) => n as int,
            None => 0,
        };
        if rest + add > u64::MAX {
            u64::MAX as int
        } else {
            rest + add
        }
    }
}

/// The total input size of an estimate: the sizes that could be read,
/// added with saturation.
pub fn total_input_size(sizes: &[Option<u64>]) -> (r: u64)
    ensures
        r == total_size(sizes@),
{
    let mut total: u64 = 0;
    let mut i: usize = 0;
    while i < sizes.len()
        invariant
            i <= sizes@.len(),
            total == total_size(sizes@.subrange(0, i as int)),
        decreases sizes@.len() - i,
    {
        proof {
            assert(sizes@.subrange(0, i + 1).drop_last() =~= sizes@.subrange(0, i as int));
        }
        if let Some(n) = sizes[i] {
            total = match total.checked_add(n) {
                Some(t) => t,
                None => u64::MAX,
            };
        }
        i += 1;
    }
    assert(sizes@.subrange(0, sizes@.len() as int) =~= sizes@);
    total
}

/// The output directory an image request names: trimmed, unless blank.
pub fn configured_output_dir(output_dir: Option<&str>) -> (r: Option<String>)
    ensures
        match output_dir {
            Some(d) => if trim(d@).len() > 0 {
                r matches Some(s) && s@ == trim(d@)
            } else {
                r is None
            },
            None => r is None,
        },
{
    match output_dir {
        Some(d) => {
            let t = trimmed_chars(d);
            if t.len() > 0 {
                Some(string_from_chars(t.as_slice()))
            } else {
                None
            }
        },
        None => None,
    }
}

/// The directory an image job writes to: the configured one, else the
/// directory of the source (`Path::parent`), else `.`.
pub fn image_output_dir(configured: Option<String>, source_path: &str) -> (r: String)
    ensures
        r@ == match configured {
            Some(d) => d@,
            None => match path_parent(source_path@) {
                Some(p) => p,
                None => "."@,
            },
        },
{
    match configured {
        Some(d) => d,
        None => {
            let s = chars_of(source_path);
            match parent_chars(s.as_slice()) {
                Some(p) => string_from_chars(p.as_slice()),
                None => String::from_str("."),
            }
        },
    }
}

/// The output path of an image job: a lossless job overwrites its source;
/// any other writes `<base>-compressed.<extension>` into `output_dir`, with
/// a timestamp in the name when that file already exists.
pub open spec fn image_output_path_of(
    mode: ImageCompressMode,
    source_path: Seq<char>,
    output_dir: Seq<char>,
    extension: Seq<char>,
    candidate_exists: bool,
    timestamp_ms: u128,
) -> Seq<char> {
    if mode == ImageCompressMode::Lossless {
        source_path
    } else if candidate_exists {
        timestamped_candidate(
            output_dir,
            source_path,
            "-compressed"@,
            extension,
            "mediax-image"@,
            timestamp_ms,
        )
    } else {
        output_candidate(output_dir, source_path, "-compressed"@, extension, "mediax-image"@)
    }
}

/// Where an image job writes, with the extension `image_output_extension`
/// gives; `candidate_exists` tells whether a file already stands at the
/// first candidate, `timestamp_ms` is the current time.
pub fn image_output_path(
    choice: &ImageCompressChoice,
    source_path: &str,
    output_dir: &str,
    candidate_exists: bool,
    timestamp_ms: u128,
) -> (r: String)
    ensures
        r@ == image_output_path_of(
            choice.mode,
            source_path@,
            output_dir@,
            image_output_extension_of(choice.mode, choice.lossy_format@, source_path@),
            candidate_exists,
            timestamp_ms,
        ),
{
    if choice.mode == ImageCompressMode::Lossless {
        return source_path.to_string();
    }
    let extension = image_output_extension(choice, source_path);
    next_available_output_path(
        output_dir,
        source_path,
        "-compressed",
        extension.as_str(),
        "mediax-image",
        candidate_exists,
        timestamp_ms,
    )
}

/// The format recorded on an image job: the lossy format for a lossy job,
/// none otherwise.
pub fn image_job_format(choice: &ImageCompressChoice) -> (r: Option<String>)
    ensures
        r == (if choice.mode == ImageCompressMode::Lossy {
            Some(choice.lossy_format)
        } else {
            None
        }),
{
    if choice.mode == ImageCompressMode::Lossy {
        Some(choice.lossy_format.clone())
    } else {
        None
    }
}

} // verus!
