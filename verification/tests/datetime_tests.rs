use media_renamer::context::{root_get, RootVal, Scal};
use media_renamer::errors::Error;
use media_renamer::extract::build_context;
use media_renamer::datetime::normalize_datetime;
use media_renamer::meta::ContainerMeta;
use chrono::Offset;

fn local_is_utc() -> bool {
    let now = chrono::Local::now();
    now.offset().fix().local_minus_utc() == 0
}

#[test]
fn creation_time_default_format_in_utc() {
    let value = Scal::Str(String::from("2023-05-01T10:00:00Z"));
    let r = normalize_datetime(&value, "%Y%m%d%H%M%S").unwrap();
    assert_eq!(r.len(), 14);
    if local_is_utc() {
        assert_eq!(r, "20230501100000");
    }
}

#[test]
fn non_string_value_is_type_mismatch() {
    let value = Scal::Int(5);
    let r = normalize_datetime(&value, "%Y%m%d%H%M%S");
    assert_eq!(r, Err(Error::TypeMismatch));
}

#[test]
fn malformed_timestamp_is_parse_error() {
    let value = Scal::Str(String::from("yesterday at noon"));
    let r = normalize_datetime(&value, "%Y%m%d%H%M%S");
    assert!(matches!(r, Err(Error::DatetimeParse(_))));
}

#[test]
fn invalid_pattern_is_refused() {
    let value = Scal::Str(String::from("2023-05-01T10:00:00Z"));
    let r = normalize_datetime(&value, "%");
    assert_eq!(r, Err(Error::BadDatetimeFormat));
}

#[test]
fn custom_pattern_renders_date_only() {
    let value = Scal::Str(String::from("2023-05-01T10:00:00Z"));
    let r = normalize_datetime(&value, "%Y-%m-%d").unwrap();
    assert_eq!(r.len(), 10);
    if local_is_utc() {
        assert_eq!(r, "2023-05-01");
    }
}

#[test]
fn creation_time_tag_gets_ct_alias() {
    let meta = ContainerMeta {
        tags: vec![
            (String::from("title"), String::from("demo")),
            (
                String::from("creation_time"),
                String::from("2023-05-01T10:00:00Z"),
            ),
        ],
        streams: Vec::new(),
        best_video: None,
        best_audio: None,
        best_subtitle: None,
    };
    let ctx = build_context(&meta, "a.mp4", "%Y%m%d%H%M%S").unwrap();
    let ct = root_get(&ctx, &String::from("ct")).cloned();
    let original_key = root_get(&ctx, &String::from("creation_time")).cloned();
    assert!(ct.is_some());
    assert_eq!(ct, original_key);
    if local_is_utc() {
        assert_eq!(
            ct,
            Some(RootVal::Leaf(Scal::Str(String::from("20230501100000"))))
        );
    }
}

#[test]
fn bad_creation_time_aborts_the_file() {
    let meta = ContainerMeta {
        tags: vec![(String::from("creation_time"), String::from("not a date"))],
        streams: Vec::new(),
        best_video: None,
        best_audio: None,
        best_subtitle: None,
    };
    let r = build_context(&meta, "a.mp4", "%Y%m%d%H%M%S");
    assert!(matches!(r, Err(Error::DatetimeParse(_))));
}
