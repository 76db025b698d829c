//! Fetching the Astronomy Picture of the Day: decoding the day's metadata
//! record, deriving a deterministic output filename from its date and image
//! URL, and planning the fetch pipeline around those two steps.

use vstd::prelude::*;

mod config;
mod date;
mod filename;
mod json;
pub mod laws;
mod pipeline;
mod record;
mod segment;
mod weburl;

pub use config::decode_config;
pub use config::Config;
pub use config::ConfigV;
pub use date::spec_parse_date;
pub use date::DateString;
pub use filename::image_filename;
pub use filename::spec_image_filename;
pub use json::json_fields_of;
pub use json::FieldsV;
pub use pipeline::effective_api_key;
pub use pipeline::get_image_url;
pub use pipeline::image_output_path;
pub use pipeline::on_metadata_body;
pub use pipeline::output_path;
pub use pipeline::spec_output_path;
pub use pipeline::PipelineError;
pub use pipeline::APOD_ENDPOINT;
pub use pipeline::DEMO_KEY;
pub use pipeline::USER_AGENT;
pub use record::decode_media_fields;
pub use record::decode_media_record;
pub use record::spec_decode_fields;
pub use record::spec_media_tag;
pub use record::DecodeError;
pub use record::FieldName;
pub use record::MediaRecord;
pub use record::MediaRecordV;
pub use record::MediaType;
pub use record::MediaTypeV;
pub use weburl::url_parse_model;
pub use weburl::UrlText;
pub use weburl::UrlTextV;

verus! {

} // verus!
