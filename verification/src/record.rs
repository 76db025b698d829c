//! Decoding the day's metadata record from one JSON object.
//!
//! The `media_type` member is the discriminator: `"image"` records carry a
//! high-resolution image URL in `hdurl`, `"video"` records carry none, and
//! any other value — a missing member included — is rejected.  The shared
//! members (`copyright`, `date`, `explanation`, `title`, `url`) are checked
//! after the discriminator and its variant members, in that order; members
//! this decoder does not know are ignored.

use crate::date::spec_parse_date;
use crate::date::DateString;
use crate::json::find_field;
use crate::json::json_fields_of;
use crate::json::parse_json_fields;
use crate::json::spec_lookup;
use crate::json::FieldsV;
use crate::weburl::url_parse_model;
use crate::weburl::UrlText;
use crate::weburl::UrlTextV;
use vstd::prelude::*;
use vstd::string::StringExecFns;

verus! {

/// The record or configuration members a decode failure can name.
#[derive(Clone, Copy, PartialEq, Eq, Structural, Debug)]
pub enum FieldName {
    Copyright,
    Date,
    Explanation,
    Title,
    Url,
    Hdurl,
    ApiKey,
    ImageDir,
}

/// Why a byte buffer failed to decode as a media record.
#[derive(Clone, Copy, PartialEq, Eq, Structural, Debug)]
pub enum DecodeError {
    /// The bytes are not one JSON object.
    MalformedJson,
    /// The `media_type` member is missing, not a string, or neither
    /// `"image"` nor `"video"`.
    UnknownMediaType,
    /// The named member is missing or of the wrong kind.
    MalformedRecord(FieldName),
    /// A member that must hold an absolute URL does not parse as one.
    InvalidUrl,
}

/// The variant of a record: an image with its high-resolution URL, or a
/// video, which carries none.
#[derive(PartialEq, Eq, Debug)]
pub enum MediaType {
    Image { hdurl: UrlText },
    Video,
}

/// The mathematical value of a [`MediaType`].
pub enum MediaTypeV {
    Image { hdurl: UrlTextV },
    Video,
}

impl View for MediaType {
    type V = MediaTypeV;

    open spec fn view(&self) -> MediaTypeV {
        match self {
            MediaType::Image { hdurl } => MediaTypeV::Image { hdurl: hdurl@ },
            MediaType::Video => MediaTypeV::Video,
        }
    }
}

/// One day's decoded metadata record.
#[derive(PartialEq, Eq, Debug)]
pub struct MediaRecord {
    pub copyright: Option<String>,
    pub date: DateString,
    pub explanation: String,
    pub title: String,
    pub url: UrlText,
    pub media: MediaType,
}

/// The mathematical value of a [`MediaRecord`].
pub struct MediaRecordV {
    pub copyright: Option<Seq<char>>,
    pub date: DateString,
    pub explanation: Seq<char>,
    pub title: Seq<char>,
    pub url: UrlTextV,
    pub media: MediaTypeV,
}

impl View for MediaRecord {
    type V = MediaRecordV;

    open spec fn view(&self) -> MediaRecordV {
        MediaRecordV {
            copyright: self.copyright.deep_view(),
            date: self.date,
            explanation: self.explanation@,
            title: self.title@,
            url: self.url@,
            media: self.media@,
        }
    }
}

/// The member `name` of `m` when it is present as a string; a failure
/// naming `f` otherwise.
pub open spec fn spec_req_string(m: FieldsV, name: Seq<char>, f: FieldName) -> Result<
    Seq<char>,
    DecodeError,
> {
    match spec_lookup(m, name) {
        Some(Some(Some(s))) => Ok(s),
        _ => Err(DecodeError::MalformedRecord(f)),
    }
}

/// The member `name` of `m` when present as a string; nothing when it is
/// absent or `null`; a failure naming `f` when it is of any other kind.
pub open spec fn spec_opt_string(m: FieldsV, name: Seq<char>, f: FieldName) -> Result<
    Option<Seq<char>>,
    DecodeError,
> {
    match spec_lookup(m, name) {
        None => Ok(None),
        Some(Some(None)) => Ok(None),
        Some(Some(Some(s))) => Ok(Some(s)),
        Some(None) => Err(DecodeError::MalformedRecord(f)),
    }
}

/// The discriminator of `m`: its `media_type` member, when that is a
/// string.
pub open spec fn spec_media_tag(m: FieldsV) -> Option<Seq<char>> {
    match spec_lookup(m, "media_type"@) {
        Some(Some(Some(t))) => Some(t),
        _ => None,
    }
}

/// The variant a record with members `m` decodes to.
pub open spec fn spec_decode_media(m: FieldsV) -> Result<MediaTypeV, DecodeError> {
    if spec_media_tag(m) == Some("image"@) {
        match spec_req_string(m, "hdurl"@, FieldName::Hdurl) {
            Err(e) => Err(e),
            Ok(h) => match url_parse_model(h) {
                None => Err(DecodeError::InvalidUrl),
                Some(u) => Ok(MediaTypeV::Image { hdurl: UrlTextV { full: u.0, path: u.1 } }),
            },
        }
    } else if spec_media_tag(m) == Some("video"@) {
        Ok(MediaTypeV::Video)
    } else {
        Err(DecodeError::UnknownMediaType)
    }
}

/// The record the members `m` decode to: the discriminator and its variant
/// members first, then the shared members in a fixed order.
pub open spec fn spec_decode_fields(m: FieldsV) -> Result<MediaRecordV, DecodeError> {
    match spec_decode_media(m) {
        Err(e) => Err(e),
        Ok(media) => match spec_opt_string(m, "copyright"@, FieldName::Copyright) {
            Err(e) => Err(e),
            Ok(copyright) => match spec_req_string(m, "date"@, FieldName::Date) {
                Err(e) => Err(e),
                Ok(ds) => match spec_parse_date(ds) {
                    None => Err(DecodeError::MalformedRecord(FieldName::Date)),
                    Some(date) => match spec_req_string(m, "explanation"@, FieldName::Explanation) {
                        Err(e) => Err(e),
                        Ok(explanation) => match spec_req_string(m, "title"@, FieldName::Title) {
                            Err(e) => Err(e),
                            Ok(title) => match spec_req_string(m, "url"@, FieldName::Url) {
                                Err(e) => Err(e),
                                Ok(us) => match url_parse_model(us) {
                                    None => Err(DecodeError::InvalidUrl),
                                    Some(u) => Ok(
                                        MediaRecordV {
                                            copyright,
                                            date,
                                            explanation,
                                            title,
                                            url: UrlTextV { full: u.0, path: u.1 },
                                            media,
                                        },
                                    ),
                                },
                            },
                        },
                    },
                },
            },
        },
    }
}

/// Fetches the member `name` as a string, as [`spec_req_string`] describes.
fn req_string(
    fields: &Vec<(String, Option<Option<String>>)>,
    name: &String,
    f: FieldName,
) -> (r: Result<String, DecodeError>)
    ensures
        match r {
            Ok(s) => spec_req_string(fields.deep_view(), name@, f) == Ok::<_, DecodeError>(s@),
            Err(e) => spec_req_string(fields.deep_view(), name@, f) == Err::<Seq<char>, _>(e),
        },
{
    match find_field(fields, name) {
        Some(Some(Some(s))) => Ok(s.clone()),
        _ => Err(DecodeError::MalformedRecord(f)),
    }
}

/// Fetches the member `name` as an optional string, as [`spec_opt_string`]
/// describes.
pub(crate) fn opt_string_field(
    fields: &Vec<(String, Option<Option<String>>)>,
    name: &String,
    f: FieldName,
) -> (r: Result<Option<String>, DecodeError>)
    ensures
        match r {
            Ok(s) => spec_opt_string(fields.deep_view(), name@, f) == Ok::<_, DecodeError>(
                s.deep_view(),
            ),
            Err(e) => spec_opt_string(fields.deep_view(), name@, f) == Err::<Option<Seq<char>>, _>(
                e,
            ),
        },
{
    match find_field(fields, name) {
        None => Ok(None),
        Some(Some(None)) => Ok(None),
        Some(Some(Some(s))) => Ok(Some(s.clone())),
        Some(None) => Err(DecodeError::MalformedRecord(f)),
    }
}

/// Decodes the members of one JSON object into a media record, as
/// [`spec_decode_fields`] describes.
pub fn decode_media_fields(fields: &Vec<(String, Option<Option<String>>)>) -> (r: Result<
    MediaRecord,
    DecodeError,
>)
    ensures
        match r {
            Ok(rec) => spec_decode_fields(fields.deep_view()) == Ok::<_, DecodeError>(rec@),
            Err(e) => spec_decode_fields(fields.deep_view()) == Err::<MediaRecordV, _>(e),
        },
{
    let media_type_name = String::from_str("media_type");
    let image_lit = String::from_str("image");
    let video_lit = String::from_str("video");
    let media: MediaType = match find_field(fields, &media_type_name) {
        Some(Some(Some(t))) => {
            if t.eq(&image_lit) {
                let h = match req_string(fields, &String::from_str("hdurl"), FieldName::Hdurl) {
                    Ok(h) => h,
                    Err(e) => {
                        return Err(e);
                    },
                };
                match UrlText::parse(h.as_str()) {
                    None => {
                        return Err(DecodeError::InvalidUrl);
                    },
                    Some(u) => MediaType::Image { hdurl: u },
                }
            } else if t.eq(&video_lit) {
                MediaType::Video
            } else {
                return Err(DecodeError::UnknownMediaType);
            }
        },
        _ => {
            return Err(DecodeError::UnknownMediaType);
        },
    };
    let copyright = match opt_string_field(
        fields,
        &String::from_str("copyright"),
        FieldName::Copyright,
    ) {
        Ok(c) => c,
        Err(e) => {
            return Err(e);
        },
    };
    let date_text = match req_string(fields, &String::from_str("date"), FieldName::Date) {
        Ok(s) => s,
        Err(e) => {
            return Err(e);
        },
    };
    let date = match DateString::parse(date_text.as_str()) {
        Some(d) => d,
        None => {
            return Err(DecodeError::MalformedRecord(FieldName::Date));
        },
    };
    let explanation = match req_string(
        fields,
        &String::from_str("explanation"),
        FieldName::Explanation,
    ) {
        Ok(s) => s,
        Err(e) => {
            return Err(e);
        },
    };
    let title = match req_string(fields, &String::from_str("title"), FieldName::Title) {
        Ok(s) => s,
        Err(e) => {
            return Err(e);
        },
    };
    let url_text = match req_string(fields, &String::from_str("url"), FieldName::Url) {
        Ok(s) => s,
        Err(e) => {
            return Err(e);
        },
    };
    let url = match UrlText::parse(url_text.as_str()) {
        None => {
            return Err(DecodeError::InvalidUrl);
        },
        Some(u) => u,
    };
    Ok(MediaRecord { copyright, date, explanation, title, url, media })
}

/// Decodes a byte buffer holding one JSON object into a media record.
pub fn decode_media_record(bytes: &[u8]) -> (r: Result<MediaRecord, DecodeError>)
    ensures
        match json_fields_of(bytes@) {
            None => r == Err::<MediaRecord, _>(DecodeError::MalformedJson),
            Some(m) => match r {
                Ok(rec) => spec_decode_fields(m) == Ok::<_, DecodeError>(rec@),
                Err(e) => spec_decode_fields(m) == Err::<MediaRecordV, _>(e),
            },
        },
{
    match parse_json_fields(bytes) {
        None => Err(DecodeError::MalformedJson),
        Some(fields) => decode_media_fields(&fields),
    }
}

} // verus!
