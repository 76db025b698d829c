//! The optional run configuration: an API key and an output directory,
//! decoded from a small JSON object.  A missing configuration source is not
//! an error — both members simply stay absent.

use crate::json::json_fields_of;
use crate::json::parse_json_fields;
use crate::json::FieldsV;
use crate::record::opt_string_field;
use crate::record::spec_opt_string;
use crate::record::DecodeError;
use crate::record::FieldName;
use vstd::prelude::*;
use vstd::string::StringExecFns;

verus! {

/// The run configuration.  Either member may be absent: the pipeline then
/// falls back to the placeholder API key and the current directory.
#[derive(PartialEq, Eq, Debug)]
pub struct Config {
    pub api_key: Option<String>,
    pub image_dir: Option<String>,
}

/// The mathematical value of a [`Config`].
pub struct ConfigV {
    pub api_key: Option<Seq<char>>,
    pub image_dir: Option<Seq<char>>,
}

impl View for Config {
    type V = ConfigV;

    open spec fn view(&self) -> ConfigV {
        ConfigV { api_key: self.api_key.deep_view(), image_dir: self.image_dir.deep_view() }
    }
}

impl Default for Config {
    /// The empty configuration: no API key, no output directory.
    fn default() -> (r: Config)
        ensures
            r@.api_key is None,
            r@.image_dir is None,
    {
        Config { api_key: None, image_dir: None }
    }
}

/// The configuration the members `m` decode to: `api_key` and `image_dir`,
/// each optional, each a string when present.
pub open spec fn spec_decode_config(m: FieldsV) -> Result<ConfigV, DecodeError> {
    match spec_opt_string(m, "api_key"@, FieldName::ApiKey) {
        Err(e) => Err(e),
        Ok(api_key) => match spec_opt_string(m, "image_dir"@, FieldName::ImageDir) {
            Err(e) => Err(e),
            Ok(image_dir) => Ok(ConfigV { api_key, image_dir }),
        },
    }
}

/// Decodes a byte buffer holding one JSON object into a configuration.
pub fn decode_config(bytes: &[u8]) -> (r: Result<Config, DecodeError>)
    ensures
        match json_fields_of(bytes@) {
            None => r == Err::<Config, _>(DecodeError::MalformedJson),
            Some(m) => match r {
                Ok(c) => spec_decode_config(m) == Ok::<_, DecodeError>(c@),
                Err(e) => spec_decode_config(m) == Err::<ConfigV, _>(e),
            },
        },
{
    let fields = match parse_json_fields(bytes) {
        None => {
            return Err(DecodeError::MalformedJson);
        },
        Some(fields) => fields,
    };
    let api_key = match opt_string_field(&fields, &String::from_str("api_key"), FieldName::ApiKey) {
        Ok(c) => c,
        Err(e) => {
            return Err(e);
        },
    };
    let image_dir = match opt_string_field(
        &fields,
        &String::from_str("image_dir"),
        FieldName::ImageDir,
    ) {
        Ok(c) => c,
        Err(e) => {
            return Err(e);
        },
    };
    Ok(Config { api_key, image_dir })
}

} // verus!
