//! Deriving the output filename from a date and the image URL.
//!
//! The name is the date in `YYYY-MM-DD` form and, when the URL's path ends
//! in a usable segment, an underscore and that segment, percent-decoded.
//! Whenever no usable segment exists — no `'/'`-separated path, an empty
//! final segment, or a decoding that is not valid UTF-8 — the name falls
//! back to the bare date.

use crate::date::DateString;
use crate::segment::after_last_slash;
use crate::segment::percent_decode_bytes;
use crate::segment::spec_pct_decode;
use crate::weburl::UrlText;
use vstd::prelude::*;
use vstd::string::StrSliceExecFns;
use vstd::string::StringExecFns;
use vstd::utf8::decode_utf8;
use vstd::utf8::encode_utf8;
use vstd::utf8::valid_utf8;

verus! {

/// The characters of the output filename for date `d` and a URL whose path
/// component is `path` (absent for URLs that cannot be a base).
pub open spec fn spec_image_filename(d: DateString, path: Option<Seq<char>>) -> Seq<char> {
    let date = d.spec_chars();
    match path {
        None => date,
        Some(p) => {
            if p.len() == 0 || p[0] != '/' {
                date
            } else {
                let seg = after_last_slash(p);
                if seg.len() == 0 {
                    date
                } else {
                    let dec = spec_pct_decode(encode_utf8(seg));
                    if valid_utf8(dec) {
                        date + seq!['_'] + decode_utf8(dec)
                    } else {
                        date
                    }
                }
            }
        },
    }
}

/// Relies on `String::from_utf8`: it succeeds exactly on valid UTF-8 input,
/// and the characters of the result are the decoding of those bytes.
#[verifier::external_body]
fn bytes_to_string(v: Vec<u8>) -> (r: Option<String>)
    ensures
        match r {
            Some(s) => valid_utf8(v@) && s@ == decode_utf8(v@),
            None => !valid_utf8(v@),
        },
{
    String::from_utf8(v).ok()
}

/// Derives the output filename for a record dated `date` whose image sits
/// at `url`, as [`spec_image_filename`] describes.
pub fn image_filename(date: &DateString, url: &UrlText) -> (r: String)
    ensures
        r@ == spec_image_filename(*date, url@.path),
{
    proof {
        reveal_strlit("_");
    }
    match &url.path {
        None => date.format(),
        Some(p) => {
            let pstr: &str = p.as_str();
            let n = pstr.unicode_len();
            if n == 0 || pstr.get_char(0) != '/' {
                return date.format();
            }
            let mut i: usize = n - 1;
            while pstr.get_char(i) != '/'
                invariant
                    0 <= i < n,
                    n == p@.len(),
                    pstr@ == p@,
                    p@[0] == '/',
                    forall|j: int| i < j < n ==> p@[j] != '/',
                decreases i,
            {
                i = i - 1;
            }
            proof {
                crate::segment::lemma_after_last_slash_at(p@, i as int);
            }
            if i + 1 == n {
                return date.format();
            }
            let seg: &str = pstr.substring_char(i + 1, n);
            let seg_bytes: Vec<u8> = seg.as_bytes_vec();
            let dec = percent_decode_bytes(&seg_bytes);
            match bytes_to_string(dec) {
                None => date.format(),
                Some(suffix) => {
                    let r = date.format().concat("_").concat(suffix.as_str());
                    proof {
                        assert(r@ =~= spec_image_filename(*date, url@.path));
                    }
                    r
                },
            }
        },
    }
}

} // verus!
