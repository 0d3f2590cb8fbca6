use vstd::prelude::*;

use crate::error::AppError;
use crate::path::AbsPath;
use crate::security::{bad_filename, validate_filename};
use crate::text::{has_prefix, lower_of, lowercase, text_eq, text_starts_with};

verus! {

/// The media types that may be uploaded, given in lower case: MP3 audio and
/// every image type.
pub open spec fn mime_allowed(lower: Seq<char>) -> bool {
    lower == "audio/mpeg"@ || lower == "audio/mp3"@ || has_prefix(lower, "image/"@)
}

/// Whether a media type already in lower case may be uploaded.
pub fn is_allowed_lower_mime(lower: &str) -> (r: bool)
    ensures
        r == mime_allowed(lower@),
{
    text_eq(lower, "audio/mpeg") || text_eq(lower, "audio/mp3") || text_starts_with(
        lower,
        "image/",
    )
}

/// Whether a media type, in any case, may be uploaded.
pub fn is_allowed_mime(mime: &str) -> (r: bool)
    ensures
        r == mime_allowed(lower_of(mime@)),
{
    let lower = lowercase(mime);
    is_allowed_lower_mime(lower.as_str())
}

/// Where an uploaded file goes: the client's declared name, checked to be a
/// single segment, added to a destination directory that was already resolved.
pub fn upload_destination(dir: &AbsPath, filename: &str) -> (r: Result<AbsPath, AppError>)
    ensures
        r is Err <==> bad_filename(filename@),
        r is Ok ==> r->Ok_0@ == dir@.push(filename@),
{
    let name = validate_filename(filename)?;
    let mut dest = dir.clone_path();
    dest.parts.push(String::from_str(name));
    proof {
        assert(dest@ =~= dir@.push(filename@));
    }
    Ok(dest)
}

/// Whether the bytes received so far still fit under the upload ceiling:
/// `None` once the total exceeds `limit` (or no longer fits in 64 bits).
pub fn add_upload_bytes(total: u64, chunk: u64, limit: u64) -> (r: Option<u64>)
    ensures
        r is Some <==> total + chunk <= limit,
        r is Some ==> r->Some_0 == total + chunk,
{
    if chunk > limit || total > limit - chunk {
        None
    } else {
        Some(total + chunk)
    }
}

/// The verdict on writing an upload to a destination: a file already there is
/// a conflict unless the client asked to overwrite it.
pub fn check_overwrite(exists: bool, overwrite: bool) -> (r: Result<(), AppError>)
    ensures
        r is Err <==> exists && !overwrite,
        r is Err ==> r->Err_0.fault_spec() == crate::error::Fault::Conflict,
{
    if exists && !overwrite {
        Err(AppError::Conflict(String::from_str("file already exists")))
    } else {
        Ok(())
    }
}

} // verus!
