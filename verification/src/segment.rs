//! Path-segment extraction and percent-decoding, the raw material of output
//! filenames.
//!
//! Percent-decoding follows the WHATWG rule: a `%` followed by two
//! hexadecimal digits becomes the byte those digits spell; any other byte,
//! a lone `%` included, passes through unchanged.

use vstd::prelude::*;

verus! {

/// The suffix of `p` that follows its last `'/'`; all of `p` when it holds
/// no `'/'` at all.
pub open spec fn after_last_slash(p: Seq<char>) -> Seq<char>
    decreases p.len(),
{
    if p.len() == 0 {
        Seq::empty()
    } else if p[p.len() - 1] == '/' {
        Seq::empty()
    } else {
        after_last_slash(p.drop_last()).push(p[p.len() - 1])
    }
}

/// When `p[i]` is the last `'/'` of `p`, the suffix after it is exactly
/// what [`after_last_slash`] yields.
pub proof fn lemma_after_last_slash_at(p: Seq<char>, i: int)
    requires
        0 <= i < p.len(),
        p[i] == '/',
        forall|j: int| i < j < p.len() ==> p[j] != '/',
    ensures
        after_last_slash(p) == p.subrange(i + 1, p.len() as int),
    decreases p.len(),
{
    if i == p.len() - 1 {
        assert(after_last_slash(p) =~= p.subrange(i + 1, p.len() as int));
    } else {
        lemma_after_last_slash_at(p.drop_last(), i);
        assert(after_last_slash(p) =~= p.subrange(i + 1, p.len() as int));
    }
}

/// True when `b` is the ASCII code of a hexadecimal digit.
pub open spec fn spec_is_hex(b: u8) -> bool {
    (48 <= b <= 57) || (65 <= b <= 70) || (97 <= b <= 102)
}

/// The numeric value of a hexadecimal digit byte.
pub open spec fn spec_hex_val(b: u8) -> int {
    if 48 <= b <= 57 {
        b - 48
    } else if 65 <= b <= 70 {
        b - 55
    } else {
        b - 87
    }
}

/// Percent-decodes a byte sequence: each `%` followed by two hexadecimal
/// digits becomes one byte; every other byte stays as it is.
pub open spec fn spec_pct_decode(s: Seq<u8>) -> Seq<u8>
    decreases s.len(),
{
    if s.len() == 0 {
        Seq::empty()
    } else if s[0] == 37 && s.len() >= 3 && spec_is_hex(s[1]) && spec_is_hex(s[2]) {
        seq![(spec_hex_val(s[1]) * 16 + spec_hex_val(s[2])) as u8] + spec_pct_decode(s.skip(3))
    } else {
        seq![s[0]] + spec_pct_decode(s.skip(1))
    }
}

/// Executable twin of [`spec_is_hex`].
fn is_hex(b: u8) -> (r: bool)
    ensures
        r == spec_is_hex(b),
{
    (48 <= b && b <= 57) || (65 <= b && b <= 70) || (97 <= b && b <= 102)
}

/// Executable twin of [`spec_hex_val`]; meaningful only on hexadecimal
/// digit bytes.
fn hex_val(b: u8) -> (r: u8)
    requires
        spec_is_hex(b),
    ensures
        r == spec_hex_val(b),
{
    if 48 <= b && b <= 57 {
        b - 48
    } else if 65 <= b && b <= 70 {
        b - 55
    } else {
        b - 87
    }
}

/// Percent-decodes `b`, as [`spec_pct_decode`] describes.
pub fn percent_decode_bytes(b: &Vec<u8>) -> (r: Vec<u8>)
    ensures
        r@ == spec_pct_decode(b@),
{
    let mut out: Vec<u8> = Vec::new();
    let mut i: usize = 0;
    proof {
        assert(b@.skip(0) =~= b@);
    }
    while i < b.len()
        invariant
            i <= b.len(),
            out@ + spec_pct_decode(b@.skip(i as int)) == spec_pct_decode(b@),
        decreases b.len() - i,
    {
        if b[i] == 37 && b.len() - i >= 3 && is_hex(b[i + 1]) && is_hex(b[i + 2]) {
            let v = hex_val(b[i + 1]) * 16 + hex_val(b[i + 2]);
            out.push(v);
            proof {
                assert(b@.skip(i as int).skip(3) =~= b@.skip(i + 3));
                assert(out@ + spec_pct_decode(b@.skip(i + 3)) =~= spec_pct_decode(b@));
            }
            i = i + 3;
        } else {
            out.push(b[i]);
            proof {
                assert(b@.skip(i as int).skip(1) =~= b@.skip(i + 1));
                assert(out@ + spec_pct_decode(b@.skip(i + 1)) =~= spec_pct_decode(b@));
            }
            i = i + 1;
        }
    }
    proof {
        assert(b@.skip(i as int) =~= Seq::<u8>::empty());
        assert(out@ =~= spec_pct_decode(b@));
    }
    out
}

} // verus!
