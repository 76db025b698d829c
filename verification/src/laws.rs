//! The decoder's and the filename deriver's laws, stated over the spec
//! functions the executable contracts use and proved once and for all.

use crate::date::DateString;
use crate::filename::spec_image_filename;
use crate::json::spec_lookup;
use crate::json::FieldsV;
use crate::record::spec_decode_fields;
use crate::record::spec_media_tag;
use crate::record::spec_req_string;
use crate::record::DecodeError;
use crate::record::FieldName;
use crate::record::MediaTypeV;
use crate::segment::after_last_slash;
use crate::weburl::url_parse_model;
use crate::weburl::UrlTextV;
use vstd::prelude::*;

verus! {

/// A record that decodes with discriminator `"image"` always carries the
/// `Image` variant, and its URL is exactly what the `hdurl` member parses
/// to — whatever other members the object holds.
pub proof fn lemma_image_decode(m: FieldsV)
    ensures
        spec_media_tag(m) == Some("image"@) ==> match spec_decode_fields(m) {
            Ok(r) => spec_req_string(m, "hdurl"@, FieldName::Hdurl) matches Ok(h)
                && url_parse_model(h) matches Some(u) && r.media == MediaTypeV::Image {
                hdurl: UrlTextV { full: u.0, path: u.1 },
            },
            Err(_) => true,
        },
{
}

/// A record that decodes with discriminator `"video"` always comes out as
/// the `Video` variant, and the decode never fails for want of an `hdurl`
/// member: that member is not read at all.
pub proof fn lemma_video_decode(m: FieldsV)
    ensures
        spec_media_tag(m) == Some("video"@) ==> match spec_decode_fields(m) {
            Ok(r) => r.media == MediaTypeV::Video,
            Err(e) => e != DecodeError::MalformedRecord(FieldName::Hdurl),
        },
{
    lemma_image_video_tags_differ();
}

/// When the discriminator is neither `"image"` nor `"video"` — a missing
/// `media_type` member included — the decode fails with
/// `UnknownMediaType`.
pub proof fn lemma_unknown_media_type(m: FieldsV)
    ensures
        (spec_media_tag(m) != Some("image"@) && spec_media_tag(m) != Some("video"@))
            ==> spec_decode_fields(m) == Err::<crate::record::MediaRecordV, _>(
            DecodeError::UnknownMediaType,
        ),
{
}

/// A `"video"` record's decode never reads the `hdurl` member: two member
/// lists that agree on every name but `"hdurl"` decode to the very same
/// result.
pub proof fn lemma_video_ignores_hdurl(m1: FieldsV, m2: FieldsV)
    requires
        spec_media_tag(m1) == Some("video"@),
        forall|n: Seq<char>| n != "hdurl"@ ==> spec_lookup(m1, n) == spec_lookup(m2, n),
    ensures
        spec_decode_fields(m1) == spec_decode_fields(m2),
{
    lemma_image_video_tags_differ();
    reveal_strlit("hdurl");
    reveal_strlit("media_type");
    reveal_strlit("video");
    reveal_strlit("copyright");
    reveal_strlit("date");
    reveal_strlit("explanation");
    reveal_strlit("title");
    reveal_strlit("url");
    assert("hdurl"@.len() == 5 && "media_type"@.len() == 10 && "copyright"@.len() == 9 && "date"@
        .len() == 4 && "explanation"@.len() == 11 && "url"@.len() == 3);
    assert("media_type"@ != "hdurl"@ && "copyright"@ != "hdurl"@ && "date"@ != "hdurl"@
        && "explanation"@ != "hdurl"@ && "url"@ != "hdurl"@);
    assert("title"@[0] == 't' && "hdurl"@[0] == 'h');
    assert("title"@ != "hdurl"@);
    assert(spec_lookup(m1, "media_type"@) == spec_lookup(m2, "media_type"@));
    assert(spec_lookup(m1, "copyright"@) == spec_lookup(m2, "copyright"@));
    assert(spec_lookup(m1, "date"@) == spec_lookup(m2, "date"@));
    assert(spec_lookup(m1, "explanation"@) == spec_lookup(m2, "explanation"@));
    assert(spec_lookup(m1, "title"@) == spec_lookup(m2, "title"@));
    assert(spec_lookup(m1, "url"@) == spec_lookup(m2, "url"@));
}

/// Filename derivation is a pure function of the date and the URL's path:
/// equal inputs give equal filenames, on every run.
pub proof fn lemma_filename_pure(d1: DateString, p1: Option<Seq<char>>, d2: DateString, p2: Option<
    Seq<char>,
>)
    requires
        d1 == d2,
        p1 == p2,
    ensures
        spec_image_filename(d1, p1) == spec_image_filename(d2, p2),
{
}

/// Whenever the URL yields no usable final path segment — no
/// `'/'`-separated path at all, or an empty last segment, as with a bare
/// `https://host/` — the filename is the bare date, with no suffix.
pub proof fn lemma_no_segment_bare_date(d: DateString, path: Option<Seq<char>>)
    ensures
        path is None ==> spec_image_filename(d, path) == d.spec_chars(),
        (path matches Some(p) && (p.len() == 0 || p[0] != '/' || after_last_slash(p).len() == 0))
            ==> spec_image_filename(d, path) == d.spec_chars(),
{
}

/// A decoded `Video` record never yields a high-resolution URL, and a
/// decoded `Image` record always does: the pipeline fetches a second time
/// exactly for images.
pub proof fn lemma_video_never_yields_url(m: FieldsV)
    ensures
        match spec_decode_fields(m) {
            Ok(r) => (r.media is Video <==> spec_media_tag(m) == Some("video"@)),
            Err(_) => true,
        },
{
    lemma_image_video_tags_differ();
}

/// The two discriminator values are distinct strings.
proof fn lemma_image_video_tags_differ()
    ensures
        "image"@ != "video"@,
{
    reveal_strlit("image");
    reveal_strlit("video");
    assert("image"@[0] == 'i' && "video"@[0] == 'v');
}

} // verus!
