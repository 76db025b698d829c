//! The fetch pipeline's decisions: which request to issue, when to stop,
//! and where to write.  The pipeline is strictly linear — metadata request,
//! decode, image request, write — and any failure aborts it; the transport
//! and filesystem work itself stays with the caller, which hands bodies and
//! outcomes back to these functions as plain values.

use crate::config::Config;
use crate::filename::image_filename;
use crate::filename::spec_image_filename;
use crate::json::json_fields_of;
use crate::record::decode_media_record;
use crate::record::spec_decode_fields;
use crate::record::DecodeError;
use crate::record::MediaRecord;
use crate::record::MediaType;
use crate::record::MediaTypeV;
use crate::weburl::UrlText;
use vstd::prelude::*;
use vstd::string::StrSliceExecFns;
use vstd::string::StringExecFns;

verus! {

/// The identifying client string every outbound request carries.
pub const USER_AGENT: &'static str = "I CAN HAZ STARS?";

/// The metadata endpoint the first request goes to.
pub const APOD_ENDPOINT: &'static str = "https://api.nasa.gov/planetary/apod";

/// The placeholder API key used when the configuration names none.
pub const DEMO_KEY: &'static str = "DEMO_KEY";

/// Why a pipeline run aborted.  No stage is retried: the first failure is
/// the run's outcome.
#[derive(Clone, Copy, PartialEq, Eq, Structural, Debug)]
pub enum PipelineError {
    /// The metadata response body did not decode as a media record.
    Decode(DecodeError),
    /// The record's variant is `Video`: there is no image to fetch.
    NoImageAvailable,
    /// The metadata request itself failed in transport.
    MetadataFetch,
    /// The image request failed in transport or its body was unreadable.
    ImageFetch,
    /// The decoded image bytes could not be written out.
    Write,
}

/// The API key a run uses: the configured one, or the placeholder.  The
/// second component tells whether the placeholder was taken, so the caller
/// can warn.
pub fn effective_api_key(config: &Config) -> (r: (String, bool))
    ensures
        match config@.api_key {
            Some(k) => r.0@ == k && !r.1,
            None => r.0@ == DEMO_KEY@ && r.1,
        },
{
    match &config.api_key {
        Some(k) => (k.clone(), false),
        None => (String::from_str(DEMO_KEY), true),
    }
}

/// The high-resolution image URL of a record, owed exactly when its
/// variant is `Image`; a `Video` record stops the pipeline here with
/// `NoImageAvailable`.
pub fn get_image_url(image_data: &MediaRecord) -> (r: Result<&UrlText, PipelineError>)
    ensures
        match image_data@.media {
            MediaTypeV::Image { hdurl } => r matches Ok(u) && u@ == hdurl,
            MediaTypeV::Video => r matches Err(e) && e == PipelineError::NoImageAvailable,
        },
{
    match &image_data.media {
        MediaType::Image { hdurl } => Ok(hdurl),
        MediaType::Video => Err(PipelineError::NoImageAvailable),
    }
}

/// Decodes a metadata response body and resolves the image URL to fetch
/// next.  An image URL comes back exactly when the bytes decode as an
/// image-variant record; a video record yields `NoImageAvailable`, so no
/// second request can follow it.
pub fn on_metadata_body(bytes: &[u8]) -> (r: Result<(MediaRecord, UrlText), PipelineError>)
    ensures
        match json_fields_of(bytes@) {
            None => r matches Err(e) && e == PipelineError::Decode(DecodeError::MalformedJson),
            Some(m) => match spec_decode_fields(m) {
                Err(e) => r matches Err(pe) && pe == PipelineError::Decode(e),
                Ok(rm) => match rm.media {
                    MediaTypeV::Video => r matches Err(pe) && pe
                        == PipelineError::NoImageAvailable,
                    MediaTypeV::Image { hdurl } => r matches Ok(p) && p.0@ == rm && p.1@ == hdurl,
                },
            },
        },
{
    let record = match decode_media_record(bytes) {
        Ok(record) => record,
        Err(e) => {
            return Err(PipelineError::Decode(e));
        },
    };
    let url = match get_image_url(&record) {
        Ok(u) => u.clone_url(),
        Err(e) => {
            return Err(e);
        },
    };
    Ok((record, url))
}

/// The path a write goes to: the directory and the filename, joined with a
/// `'/'` unless the directory is empty or already ends in one.
pub open spec fn spec_output_path(dir: Seq<char>, name: Seq<char>) -> Seq<char> {
    if dir.len() == 0 {
        name
    } else if dir[dir.len() - 1] == '/' {
        dir + name
    } else {
        dir + seq!['/'] + name
    }
}

/// Joins the output directory and a filename, as [`spec_output_path`]
/// describes.
pub fn output_path(dir: &str, name: &str) -> (r: String)
    ensures
        r@ == spec_output_path(dir@, name@),
{
    proof {
        reveal_strlit("/");
    }
    let n = dir.unicode_len();
    if n == 0 {
        return name.to_owned();
    }
    let r = if dir.get_char(n - 1) == '/' {
        dir.to_owned().concat(name)
    } else {
        dir.to_owned().concat("/").concat(name)
    };
    proof {
        assert(r@ =~= spec_output_path(dir@, name@));
    }
    r
}

/// The full path the image of `record`, fetched from `url`, is written to
/// under `dir`: the directory joined with the derived filename.
pub fn image_output_path(dir: &str, record: &MediaRecord, url: &UrlText) -> (r: String)
    ensures
        r@ == spec_output_path(dir@, spec_image_filename(record@.date, url@.path)),
{
    let name = image_filename(&record.date, url);
    output_path(dir, name.as_str())
}

} // verus!
