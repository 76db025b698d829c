//! The JSON shape the decoders read: the members of one top-level object,
//! each a name together with its string value, a marker for `null`, or a
//! marker for any other kind of value.

use vstd::prelude::*;

verus! {

/// One member's value, as the decoders see it: `Some(Some(s))` for the
/// string `s`, `Some(None)` for `null`, `None` for a value of any other
/// kind.
pub type FieldV = Option<Option<Seq<char>>>;

/// The members of one JSON object, in the order the parser hands them out.
pub type FieldsV = Seq<(Seq<char>, FieldV)>;

/// What parsing a byte buffer as one JSON document yields: `None` when the
/// bytes are not a single JSON object; otherwise the object's members, each
/// name with its value as a [`FieldV`].
pub uninterp spec fn json_fields_of(b: Seq<u8>) -> Option<FieldsV>;

/// Relies on `serde_json::from_slice::<Value>`: it parses the bytes as one
/// JSON document, and a `Value::Object` holds the members as names mapped
/// to `Value`s, of which `Value::String` and `Value::Null` are told apart
/// here from everything else.
#[verifier::external_body]
pub(crate) fn parse_json_fields(bytes: &[u8]) -> (r: Option<Vec<(String, Option<Option<String>>)>>)
    ensures
        r.deep_view() == json_fields_of(bytes@),
{
    match serde_json::from_slice::<serde_json::Value>(bytes) {
        Ok(serde_json::Value::Object(map)) => Some(
            map.into_iter()
                .map(|(k, v)| match v {
                    serde_json::Value::String(s) => (k, Some(Some(s))),
                    serde_json::Value::Null => (k, Some(None)),
                    _ => (k, None),
                })
                .collect(),
        ),
        _ => None,
    }
}

/// The value of the first member of `m` named `name`; `None` when no member
/// carries that name.
pub open spec fn spec_lookup(m: FieldsV, name: Seq<char>) -> Option<FieldV>
    decreases m.len(),
{
    if m.len() == 0 {
        None
    } else if m[0].0 == name {
        Some(m[0].1)
    } else {
        spec_lookup(m.skip(1), name)
    }
}

/// Finds the first member of `fields` named `name`.
pub fn find_field<'a>(
    fields: &'a Vec<(String, Option<Option<String>>)>,
    name: &String,
) -> (r: Option<&'a Option<Option<String>>>)
    ensures
        r.deep_view() == spec_lookup(fields.deep_view(), name@),
{
    let mut i: usize = 0;
    proof {
        assert(fields.deep_view().skip(0) =~= fields.deep_view());
    }
    while i < fields.len()
        invariant
            i <= fields@.len(),
            fields.deep_view().len() == fields@.len(),
            spec_lookup(fields.deep_view().skip(i as int), name@) == spec_lookup(
                fields.deep_view(),
                name@,
            ),
            forall|j: int|
                0 <= j < fields@.len() ==> #[trigger] fields.deep_view()[j]
                    == (fields@[j].0@, fields@[j].1.deep_view()),
        decreases fields@.len() - i,
    {
        if fields[i].0.eq(name) {
            proof {
                assert(fields.deep_view().skip(i as int)[0] == fields.deep_view()[i as int]);
            }
            return Some(&fields[i].1);
        }
        proof {
            assert(fields.deep_view().skip(i as int).skip(1) =~= fields.deep_view().skip(i + 1));
            assert(fields.deep_view().skip(i as int)[0] == fields.deep_view()[i as int]);
        }
        i = i + 1;
    }
    proof {
        assert(fields.deep_view().skip(i as int) =~= Seq::<(Seq<char>, FieldV)>::empty());
    }
    None
}

} // verus!
