use apod::decode_config;
use apod::decode_media_record;
use apod::effective_api_key;
use apod::get_image_url;
use apod::image_filename;
use apod::image_output_path;
use apod::on_metadata_body;
use apod::output_path;
use apod::Config;
use apod::DateString;
use apod::DecodeError;
use apod::FieldName;
use apod::MediaRecord;
use apod::MediaType;
use apod::PipelineError;
use apod::UrlText;

#[test]
fn test_media_type_image_deserialization() {
    // given
    let json = "{\"copyright\": \"Nicolas Lefaudeux\",\"date\": \"2021-03-08\",\"explanation\": \"What created the unusual red tail[…]\",\"hdurl\": \"https://apod.nasa.gov/apod/image/2103/Neowise3Tails_Lefaudeux_1088.jpg\",\"media_type\": \"image\",\"service_version\": \"v1\",\"title\": \"Three Tails of Comet NEOWISE\",\"url\": \"https://apod.nasa.gov/apod/image/2103/Neowise3Tails_Lefaudeux_960.jpg\"}";

    // when
    let parsed = decode_media_record(json.as_bytes());

    // then
    let apod_data = parsed.expect("Expected successful parsing");
    assert_eq!(
        apod_data,
        MediaRecord {
            copyright: Some("Nicolas Lefaudeux".to_owned()),
            date: DateString::from_ymd(2021, 3, 8).expect("expected valid date"),
            explanation: "What created the unusual red tail[…]".to_owned(),
            title: "Three Tails of Comet NEOWISE".to_owned(),
            url: UrlText::parse(
                "https://apod.nasa.gov/apod/image/2103/Neowise3Tails_Lefaudeux_960.jpg"
            )
            .expect("Expected valid URL"),
            media: MediaType::Image {
                hdurl: UrlText::parse(
                    "https://apod.nasa.gov/apod/image/2103/Neowise3Tails_Lefaudeux_1088.jpg"
                )
                .expect("Expected valid URL")
            }
        }
    )
}

#[test]
fn test_media_type_video_deserialization() {
    // given
    let json = "{\"date\": \"2021-03-09\",\"explanation\": \"Is that a fossil?[…]\",\"media_type\": \"video\",\"service_version\": \"v1\",\"title\": \"Perseverance 360: Unusual Rocks and the Search for Life on Mars\",\"url\": \"https://mars.nasa.gov/layout/embed/image/mars-panorama/?id=25674\"}";

    // when
    let parsed = decode_media_record(json.as_bytes());

    // then
    let apod_data = parsed.expect("Expected successful parsing");
    assert_eq!(
        apod_data,
        MediaRecord {
            copyright: None,
            date: DateString::from_ymd(2021, 3, 9).expect("expected valid date"),
            explanation: "Is that a fossil?[…]".to_owned(),
            title: "Perseverance 360: Unusual Rocks and the Search for Life on Mars".to_owned(),
            url: UrlText::parse("https://mars.nasa.gov/layout/embed/image/mars-panorama/?id=25674")
                .expect("Expected valid URL"),
            media: MediaType::Video,
        }
    )
}

#[test]
fn image_filename_handles_spaces_correctly() {
    // given
    let url = UrlText::parse("https://apod.nasa.gov/apod/image/2404/NGC3372_ETA CARINA_LOPES.jpg")
        .expect("expected valid URL");
    let apod_data = MediaRecord {
        copyright: Some("Demison Lopes".to_owned()),
        date: DateString::from_ymd(2024, 4, 19).expect("expected valid date"),
        explanation: "A jewel of the southern sky, […]".to_owned(),
        title: "The Great Carina Nebula".to_owned(),
        url: UrlText::parse("https://apod.nasa.gov/apod/image/2404/NGC3372_ETA CARINA_LOPES.jpg")
            .expect("expected valid URL"),
        media: MediaType::Image {
            hdurl: UrlText::parse(
                "https://apod.nasa.gov/apod/image/2404/NGC3372_ETA CARINA_LOPES.jpg"
            )
            .expect("expected valid URL"),
        },
    };

    // when
    let path = image_filename(&apod_data.date, &url);

    // then
    assert_eq!(&path, "2024-04-19_NGC3372_ETA CARINA_LOPES.jpg");
}

#[test]
fn filename_decodes_percent_twenty_to_space() {
    let url =
        UrlText::parse("https://apod.nasa.gov/apod/image/2404/NGC3372_ETA%20CARINA_LOPES.jpg")
            .expect("expected valid URL");
    let date = DateString::from_ymd(2024, 4, 19).expect("expected valid date");
    assert_eq!(
        image_filename(&date, &url),
        "2024-04-19_NGC3372_ETA CARINA_LOPES.jpg"
    );
}

#[test]
fn filename_is_bare_date_without_path_segments() {
    let url = UrlText::parse("https://host/").expect("expected valid URL");
    let date = DateString::from_ymd(2021, 3, 8).expect("expected valid date");
    assert_eq!(image_filename(&date, &url), "2021-03-08");
}

#[test]
fn filename_is_bare_date_for_cannot_be_a_base_url() {
    let url = UrlText::parse("mailto:stars@example.com").expect("expected valid URL");
    let date = DateString::from_ymd(2021, 3, 8).expect("expected valid date");
    assert_eq!(image_filename(&date, &url), "2021-03-08");
}

#[test]
fn filename_decodes_utf8_escapes() {
    let url = UrlText::parse("https://example.com/images/caf%C3%A9.jpg").expect("valid URL");
    let date = DateString::from_ymd(2022, 1, 2).expect("expected valid date");
    assert_eq!(image_filename(&date, &url), "2022-01-02_café.jpg");
}

#[test]
fn filename_falls_back_on_invalid_utf8_escape() {
    let url = UrlText::parse("https://example.com/images/%FF.jpg").expect("valid URL");
    let date = DateString::from_ymd(2022, 1, 2).expect("expected valid date");
    assert_eq!(image_filename(&date, &url), "2022-01-02");
}

#[test]
fn filename_keeps_invalid_percent_escape_literally() {
    let url = UrlText::parse("https://example.com/images/a%zzb.jpg").expect("valid URL");
    let date = DateString::from_ymd(2022, 1, 2).expect("expected valid date");
    assert_eq!(image_filename(&date, &url), "2022-01-02_a%zzb.jpg");
}

#[test]
fn filename_derivation_is_deterministic() {
    let url = UrlText::parse("https://apod.nasa.gov/apod/image/2103/Neowise3Tails_Lefaudeux_1088.jpg")
        .expect("valid URL");
    let date = DateString::from_ymd(2021, 3, 8).expect("expected valid date");
    let first = image_filename(&date, &url);
    let second = image_filename(&date, &url);
    assert_eq!(first, second);
    assert_eq!(first, "2021-03-08_Neowise3Tails_Lefaudeux_1088.jpg");
}

#[test]
fn decoding_fails_without_media_type() {
    let json = "{\"date\": \"2021-03-08\", \"title\": \"t\"}";
    assert_eq!(
        decode_media_record(json.as_bytes()),
        Err(DecodeError::UnknownMediaType)
    );
}

#[test]
fn decoding_fails_on_unknown_media_type() {
    let json = "{\"date\": \"2021-03-08\",\"explanation\": \"e\",\"media_type\": \"audio\",\"title\": \"t\",\"url\": \"https://example.com/a\"}";
    assert_eq!(
        decode_media_record(json.as_bytes()),
        Err(DecodeError::UnknownMediaType)
    );
}

#[test]
fn decoding_fails_on_non_string_media_type() {
    let json = "{\"media_type\": 3, \"date\": \"2021-03-08\"}";
    assert_eq!(
        decode_media_record(json.as_bytes()),
        Err(DecodeError::UnknownMediaType)
    );
}

#[test]
fn decoding_fails_on_missing_hdurl_for_image() {
    let json = "{\"date\": \"2021-03-08\",\"explanation\": \"e\",\"media_type\": \"image\",\"title\": \"t\",\"url\": \"https://example.com/a\"}";
    assert_eq!(
        decode_media_record(json.as_bytes()),
        Err(DecodeError::MalformedRecord(FieldName::Hdurl))
    );
}

#[test]
fn decoding_fails_on_unparseable_hdurl() {
    let json = "{\"date\": \"2021-03-08\",\"explanation\": \"e\",\"hdurl\": \"notaurl\",\"media_type\": \"image\",\"title\": \"t\",\"url\": \"https://example.com/a\"}";
    assert_eq!(
        decode_media_record(json.as_bytes()),
        Err(DecodeError::InvalidUrl)
    );
}

#[test]
fn decoding_fails_on_invalid_date() {
    let json = "{\"date\": \"2021-13-40\",\"explanation\": \"e\",\"media_type\": \"video\",\"title\": \"t\",\"url\": \"https://example.com/a\"}";
    assert_eq!(
        decode_media_record(json.as_bytes()),
        Err(DecodeError::MalformedRecord(FieldName::Date))
    );
}

#[test]
fn decoding_fails_on_missing_title() {
    let json = "{\"date\": \"2021-03-08\",\"explanation\": \"e\",\"media_type\": \"video\",\"url\": \"https://example.com/a\"}";
    assert_eq!(
        decode_media_record(json.as_bytes()),
        Err(DecodeError::MalformedRecord(FieldName::Title))
    );
}

#[test]
fn decoding_fails_on_non_object_body() {
    assert_eq!(
        decode_media_record(b"[1, 2]"),
        Err(DecodeError::MalformedJson)
    );
    assert_eq!(
        decode_media_record(b"{not json"),
        Err(DecodeError::MalformedJson)
    );
}

#[test]
fn video_record_with_hdurl_still_decodes_as_video() {
    let json = "{\"date\": \"2021-03-09\",\"explanation\": \"e\",\"hdurl\": \"https://example.com/ignored.jpg\",\"media_type\": \"video\",\"title\": \"t\",\"url\": \"https://example.com/a\"}";
    let record = decode_media_record(json.as_bytes()).expect("Expected successful parsing");
    assert_eq!(record.media, MediaType::Video);
}

#[test]
fn video_record_halts_pipeline_before_image_request() {
    let json = "{\"date\": \"2021-03-09\",\"explanation\": \"e\",\"media_type\": \"video\",\"title\": \"t\",\"url\": \"https://example.com/a\"}";
    assert_eq!(
        on_metadata_body(json.as_bytes()).map(|p| p.1),
        Err(PipelineError::NoImageAvailable)
    );
    let record = decode_media_record(json.as_bytes()).expect("Expected successful parsing");
    assert_eq!(
        get_image_url(&record),
        Err(PipelineError::NoImageAvailable)
    );
}

#[test]
fn pipeline_requests_hdurl_and_writes_derived_path() {
    let json = "{\"copyright\": \"Nicolas Lefaudeux\",\"date\": \"2021-03-08\",\"explanation\": \"What created the unusual red tail[…]\",\"hdurl\": \"https://apod.nasa.gov/apod/image/2103/Neowise3Tails_Lefaudeux_1088.jpg\",\"media_type\": \"image\",\"service_version\": \"v1\",\"title\": \"Three Tails of Comet NEOWISE\",\"url\": \"https://apod.nasa.gov/apod/image/2103/Neowise3Tails_Lefaudeux_960.jpg\"}";
    let (record, image_url) = on_metadata_body(json.as_bytes()).expect("expected an image record");
    assert_eq!(
        image_url.full,
        "https://apod.nasa.gov/apod/image/2103/Neowise3Tails_Lefaudeux_1088.jpg"
    );
    assert_eq!(
        image_output_path("pics", &record, &image_url),
        "pics/2021-03-08_Neowise3Tails_Lefaudeux_1088.jpg"
    );
}

#[test]
fn output_path_joins_with_separator() {
    assert_eq!(output_path("", "a.jpg"), "a.jpg");
    assert_eq!(output_path("pics", "a.jpg"), "pics/a.jpg");
    assert_eq!(output_path("pics/", "a.jpg"), "pics/a.jpg");
    assert_eq!(output_path(".", "a.jpg"), "./a.jpg");
}

#[test]
fn date_parsing_checks_the_calendar() {
    assert_eq!(
        DateString::parse("2021-03-08"),
        DateString::from_ymd(2021, 3, 8)
    );
    assert_eq!(DateString::parse("2024-02-29"), DateString::from_ymd(2024, 2, 29));
    assert_eq!(DateString::parse("2023-02-29"), None);
    assert_eq!(DateString::parse("2021-13-01"), None);
    assert_eq!(DateString::parse("2021-00-10"), None);
    assert_eq!(DateString::parse("2100-02-29"), None);
    assert_eq!(DateString::parse("2000-02-29"), DateString::from_ymd(2000, 2, 29));
    assert_eq!(DateString::parse("21-03-08"), None);
    assert_eq!(DateString::parse("2021/03/08"), None);
}

#[test]
fn date_formatting_pads_to_four_digits() {
    let d = DateString::from_ymd(1, 1, 1).expect("expected valid date");
    assert_eq!(d.format(), "0001-01-01");
    let d = DateString::from_ymd(2021, 12, 31).expect("expected valid date");
    assert_eq!(d.format(), "2021-12-31");
}

#[test]
fn empty_config_uses_demo_key_and_current_directory() {
    let config = Config::default();
    assert_eq!(config.image_dir, None);
    let (key, warned) = effective_api_key(&config);
    assert_eq!(key, "DEMO_KEY");
    assert!(warned);
}

#[test]
fn configured_api_key_is_used_without_warning() {
    let config = Config {
        api_key: Some("my_api_key".to_owned()),
        image_dir: None,
    };
    let (key, warned) = effective_api_key(&config);
    assert_eq!(key, "my_api_key");
    assert!(!warned);
}

#[test]
fn config_decodes_optional_members() {
    let config = decode_config(b"{\"api_key\": \"k\", \"image_dir\": \"/tmp/pics\"}")
        .expect("expected a configuration");
    assert_eq!(config.api_key, Some("k".to_owned()));
    assert_eq!(config.image_dir, Some("/tmp/pics".to_owned()));

    let config = decode_config(b"{}").expect("expected a configuration");
    assert_eq!(config, Config::default());

    let config = decode_config(b"{\"api_key\": null}").expect("expected a configuration");
    assert_eq!(config.api_key, None);
}

#[test]
fn config_rejects_wrong_kinds_and_bad_json() {
    assert_eq!(
        decode_config(b"{\"api_key\": 5}"),
        Err(DecodeError::MalformedRecord(FieldName::ApiKey))
    );
    assert_eq!(
        decode_config(b"{\"image_dir\": [1]}"),
        Err(DecodeError::MalformedRecord(FieldName::ImageDir))
    );
    assert_eq!(decode_config(b"not json"), Err(DecodeError::MalformedJson));
}
