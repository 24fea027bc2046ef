use vstd::prelude::*;

use crate::compression::FitsCompression;
use crate::image::{DynamicImage, Timestamp};
use crate::layout::{fits_layout, layout_spec, FitsLayout};

verus! {

/// The strftime pattern of the `DATE-OBS` record: microsecond precision.
pub const DATE_OBS_PATTERN: &'static str = "%Y-%m-%dT%H:%M:%S%.6f";

pub open spec fn date_obs_pattern() -> Seq<char> {
    "%Y-%m-%dT%H:%M:%S%.6f"@
}

/// The UTC calendar text of the instant `secs` seconds and `nanos` nanoseconds
/// after the Unix epoch, laid out by `pattern`; `None` when chrono cannot
/// represent the instant.
pub uninterp spec fn utc_format(secs: i64, nanos: u32, pattern: Seq<char>) -> Option<Seq<char>>;

/// `path` with its extension replaced by (or, without one, extended with) `ext`.
pub uninterp spec fn path_with_extension(path: Seq<char>, ext: Seq<char>) -> Seq<char>;

/// Relies on chrono's `DateTime::<Utc>::from_timestamp` (`None` for an
/// instant out of range or an invalid nanosecond count) and
/// `DateTime::format(..).to_string()`, which renders the instant by `pattern`.
/// Rendering panics on an invalid pattern, so only the `DATE-OBS` pattern is taken.
#[verifier::external_body]
fn format_utc(secs: i64, nanos: u32, pattern: &str) -> (r: Option<String>)
    requires
        pattern@ == date_obs_pattern(),
    ensures
        match r {
            Some(s) => utc_format(secs, nanos, pattern@) == Some(s@),
            None => utc_format(secs, nanos, pattern@) is None,
        },
{
    match chrono::DateTime::<chrono::Utc>::from_timestamp(secs, nanos) {
        Some(dt) => Some(dt.format(pattern).to_string()),
        None => None,
    }
}

/// Relies on `std::path::Path::with_extension`, which panics when the new
/// extension holds a path separator (`/`, and on Windows also `\`); a `str`
/// path stays valid UTF-8, so the lossy conversion back is exact.
#[verifier::external_body]
fn with_extension(path: &str, ext: &str) -> (r: String)
    requires
        forall|i: int| 0 <= i < ext@.len() ==> ext@[i] != '/' && ext@[i] != '\\',
    ensures
        r@ == path_with_extension(path@, ext@),
{
    std::path::Path::new(path).with_extension(ext).to_string_lossy().into_owned()
}

/// Why a file cannot be planned.
#[derive(Debug, Clone, Copy, PartialEq, Eq, Structural)]
pub enum SaveError {
    /// The destination is an existing directory.
    PathConflict,
    /// The capture time cannot be written as a calendar date.
    TimestampOutOfRange,
    /// The attached metadata's capture time lies before the Unix epoch.
    TimestampBeforeEpoch,
}

/// What writing a file takes: the paths, whether to delete an old file at
/// the base path first, and the layout of the new file.
#[derive(Debug, Clone)]
pub struct SavePlan {
    /// The destination with the uncompressed extension.
    pub base_path: String,
    /// Delete an existing file at `base_path` before creating the new one.
    pub clear_base: bool,
    /// The path handed to the writer, with the compression qualifier; also
    /// the path reported to the caller.
    pub final_path: String,
    /// Ask the writer to replace an existing file when it creates this one.
    pub overwrite: bool,
    pub layout: FitsLayout,
}

/// Milliseconds since the Unix epoch, kept to 64 bits; `None` before the epoch.
pub open spec fn millis_since_epoch(t: Timestamp) -> Option<u64> {
    if t.secs < 0 {
        None
    } else {
        Some(((t.secs * 1000 + t.nanos / 1000000) % 0x1_0000_0000_0000_0000) as u64)
    }
}

/// Milliseconds since the Unix epoch, kept to 64 bits; `None` before the epoch.
pub fn timestamp_millis(t: Timestamp) -> (r: Option<u64>)
    ensures
        r == millis_since_epoch(t),
{
    if t.secs < 0 {
        None
    } else {
        let ms: u128 = (t.secs as u128) * 1000 + (t.nanos / 1_000_000) as u128;
        Some((ms % 0x1_0000_0000_0000_0000) as u64)
    }
}

/// The time recorded for `image`: its metadata's capture time, else `now`.
pub open spec fn capture_time(image: DynamicImage, now: Timestamp) -> Timestamp {
    match image.spec_metadata() {
        Some(m) => m.timestamp,
        None => now,
    }
}

/// The `TIMESTAMP` value: `None` when attached metadata predates the epoch;
/// without metadata a time before the epoch counts as 0.
pub open spec fn timestamp_record(image: DynamicImage, now: Timestamp) -> Option<u64> {
    match image.spec_metadata() {
        Some(m) => millis_since_epoch(m.timestamp),
        None => match millis_since_epoch(now) {
            Some(ms) => Some(ms),
            None => Some(0),
        },
    }
}

/// The `DATE-OBS` text for `image`.
pub open spec fn date_obs_record(image: DynamicImage, now: Timestamp) -> Option<Seq<char>> {
    let t = capture_time(image, now);
    utc_format(t.secs, t.nanos, date_obs_pattern())
}

/// Plans writing `image`, whose buffer must hold `width * height * channels`
/// samples, to `path`. `dest_is_dir` tells whether `path` is an existing
/// directory; `now` is the time used when no metadata is attached.
pub fn plan_save(
    image: &DynamicImage,
    path: &str,
    compress: FitsCompression,
    overwrite: bool,
    dest_is_dir: bool,
    now: Timestamp,
) -> (r: Result<SavePlan, SaveError>)
    requires
        image.wf(),
    ensures
        r == Err::<SavePlan, SaveError>(SaveError::PathConflict) <==> dest_is_dir,
        r == Err::<SavePlan, SaveError>(SaveError::TimestampOutOfRange) <==> !dest_is_dir
            && date_obs_record(*image, now) is None,
        r == Err::<SavePlan, SaveError>(SaveError::TimestampBeforeEpoch) <==> !dest_is_dir
            && date_obs_record(*image, now) is Some && timestamp_record(*image, now) is None,
        r matches Ok(p) ==> {
            &&& p.base_path@ == path_with_extension(path@, FitsCompression::Uncompressed.extension_spec())
            &&& p.final_path@ == path_with_extension(p.base_path@, compress.extension_spec())
            &&& p.clear_base == overwrite
            &&& p.overwrite == overwrite
            &&& p.layout@ == layout_spec(
                *image,
                compress,
                date_obs_record(*image, now)->0,
                timestamp_record(*image, now)->0,
            )
        },
{
    if dest_is_dir {
        return Err(SaveError::PathConflict);
    }
    let t = match image.metadata() {
        Some(m) => m.timestamp,
        None => now,
    };
    let date_obs = match format_utc(t.secs, t.nanos, DATE_OBS_PATTERN) {
        Some(s) => s,
        None => {
            return Err(SaveError::TimestampOutOfRange);
        },
    };
    let ms = match image.metadata() {
        Some(_) => match timestamp_millis(t) {
            Some(ms) => ms,
            None => {
                return Err(SaveError::TimestampBeforeEpoch);
            },
        },
        None => match timestamp_millis(t) {
            Some(ms) => ms,
            None => 0,
        },
    };
    let layout = fits_layout(image, compress, date_obs.as_str(), ms);
    proof {
        FitsCompression::Uncompressed.lemma_extension_has_no_separator();
        compress.lemma_extension_has_no_separator();
    }
    let base_path = with_extension(path, FitsCompression::Uncompressed.extension());
    let final_path = with_extension(base_path.as_str(), compress.extension());
    Ok(SavePlan { base_path, clear_base: overwrite, final_path, overwrite, layout })
}

} // verus!
