use media_renamer::context::{root_get, stream_get, Ctx, RootVal, Scal, StreamCtx};
use media_renamer::extract::build_context;
use media_renamer::extract::build_stream;
use media_renamer::meta::{
    AudioMeta, ContainerMeta, Medium, Rational, StreamDetail, StreamMeta, StreamProbe, VideoMeta,
};
use media_renamer::template::{compile_template, render_filename};

fn scal_to_value(s: &Scal) -> serde_json::Value {
    match s {
        Scal::Str(v) => serde_json::Value::String(v.clone()),
        Scal::Int(i) => serde_json::Value::from(*i),
        Scal::UInt(u) => serde_json::Value::from(*u),
        Scal::Bool(b) => serde_json::Value::Bool(*b),
        Scal::Pair(n, d) => {
            serde_json::Value::Array(vec![serde_json::Value::from(*n), serde_json::Value::from(*d)])
        }
        Scal::Ratio(n, d) => serde_json::Value::from(f64::from(*n) / f64::from(*d)),
        Scal::Scaled(t, n, d) => {
            serde_json::Value::from(*t as f64 * (f64::from(*n) / f64::from(*d)))
        }
    }
}

fn stream_to_value(s: &StreamCtx) -> serde_json::Value {
    let mut m = serde_json::Map::new();
    for (k, v) in &s.entries {
        m.insert(k.clone(), scal_to_value(v));
    }
    serde_json::Value::Object(m)
}

fn ctx_to_value(c: &Ctx) -> serde_json::Value {
    let mut m = serde_json::Map::new();
    for (k, v) in &c.entries {
        let val = match v {
            RootVal::Leaf(s) => scal_to_value(s),
            RootVal::One(s) => stream_to_value(s),
            RootVal::Many(list) => {
                serde_json::Value::Array(list.iter().map(stream_to_value).collect())
            }
        };
        m.insert(k.clone(), val);
    }
    serde_json::Value::Object(m)
}

fn video_stream(index: usize, width: u32, height: u32) -> StreamMeta {
    StreamMeta {
        index,
        time_base: Rational { num: 1, den: 90000 },
        start_time: 0,
        duration: 900000,
        frames: 300,
        disposition: String::from("DEFAULT"),
        discard: String::from("Default"),
        rate: Rational {
            num: 30000,
            den: 1001,
        },
        medium: Medium::Video,
        codec_name: String::from("H264"),
        detail: StreamDetail::Video(VideoMeta {
            bit_rate: 4_000_000,
            max_bit_rate: 6_000_000,
            delay: 0,
            width,
            height,
            pixel_format: String::from("YUV420P"),
            has_b_frames: true,
            aspect_ratio: Rational { num: 16, den: 9 },
            color_space: String::from("BT709"),
            color_range: String::from("MPEG"),
            color_primaries: String::from("BT709"),
            color_transfer: String::from("BT709"),
            chroma_location: String::from("Left"),
            references: 4,
            intra_dc_precision: 0,
        }),
    }
}

fn audio_stream(index: usize) -> StreamMeta {
    StreamMeta {
        index,
        time_base: Rational { num: 1, den: 48000 },
        start_time: 0,
        duration: 480000,
        frames: 0,
        disposition: String::from("DEFAULT"),
        discard: String::from("Default"),
        rate: Rational { num: 48000, den: 1 },
        medium: Medium::Audio,
        codec_name: String::from("AAC"),
        detail: StreamDetail::Audio(AudioMeta {
            bit_rate: 128_000,
            max_bit_rate: 0,
            delay: 0,
            rate: 48000,
            channels: 2,
            sample_format: String::from("FLTP"),
            frames: 0,
            align: 0,
            channel_layout: String::from("STEREO"),
        }),
    }
}

#[test]
fn rational_fields_have_three_forms() {
    let sc = build_stream(&video_stream(0, 1920, 1080));
    let pair = stream_get(&sc, &String::from("rate")).cloned();
    assert_eq!(pair, Some(Scal::Pair(30000, 1001)));
    let printed = stream_get(&sc, &String::from("rate_str")).cloned();
    assert_eq!(printed, Some(Scal::Str(String::from("30000/1001"))));
    let float = stream_get(&sc, &String::from("rate_float")).cloned();
    assert_eq!(float, Some(Scal::Ratio(30000, 1001)));
    let as_float = scal_to_value(&float.unwrap()).as_f64().unwrap();
    assert!((as_float - 29.97).abs() < 0.01);
}

#[test]
fn time_base_forms_and_duration() {
    let sc = build_stream(&video_stream(0, 1920, 1080));
    assert_eq!(
        stream_get(&sc, &String::from("time_base")).cloned(),
        Some(Scal::Pair(1, 90000))
    );
    assert_eq!(
        stream_get(&sc, &String::from("time_base_str")).cloned(),
        Some(Scal::Str(String::from("1/90000")))
    );
    assert_eq!(
        stream_get(&sc, &String::from("duration_in_sec")).cloned(),
        Some(Scal::Scaled(900000, 1, 90000))
    );
    let secs = scal_to_value(&Scal::Scaled(900000, 1, 90000)).as_f64().unwrap();
    assert!((secs - 10.0).abs() < 1e-9);
}

#[test]
fn audio_rate_shadows_rational_rate() {
    let sc = build_stream(&audio_stream(1));
    assert_eq!(
        stream_get(&sc, &String::from("rate")).cloned(),
        Some(Scal::UInt(48000))
    );
    assert_eq!(
        stream_get(&sc, &String::from("rate_str")).cloned(),
        Some(Scal::Str(String::from("48000/1")))
    );
    assert_eq!(
        stream_get(&sc, &String::from("channels")).cloned(),
        Some(Scal::UInt(2))
    );
}

#[test]
fn video_stream_fields_present() {
    let sc = build_stream(&video_stream(0, 1280, 720));
    assert_eq!(stream_get(&sc, &String::from("width")).cloned(), Some(Scal::UInt(1280)));
    assert_eq!(stream_get(&sc, &String::from("height")).cloned(), Some(Scal::UInt(720)));
    assert_eq!(
        stream_get(&sc, &String::from("codec_medium")).cloned(),
        Some(Scal::Str(String::from("Video")))
    );
    assert_eq!(
        stream_get(&sc, &String::from("has_b_frames")).cloned(),
        Some(Scal::Bool(true))
    );
    assert_eq!(
        stream_get(&sc, &String::from("aspect_ratio_str")).cloned(),
        Some(Scal::Str(String::from("16/9")))
    );
}

#[test]
fn best_video_template_renders_geometry() {
    let meta = ContainerMeta {
        tags: Vec::new(),
        streams: vec![StreamProbe::Probed(video_stream(0, 1920, 1080))],
        best_video: Some(0),
        best_audio: None,
        best_subtitle: None,
    };
    let ctx = build_context(&meta, "clip.mkv", "%Y%m%d%H%M%S").unwrap();
    let value = ctx_to_value(&ctx);
    let text = String::from("{v.width}x{v.height}.mkv");
    let tt = compile_template(&text).unwrap();
    let rendered = render_filename(&tt, &value).unwrap();
    assert_eq!(rendered, "1920x1080.mkv");
}

#[test]
fn aliases_point_into_streams() {
    let meta = ContainerMeta {
        tags: vec![(String::from("title"), String::from("demo"))],
        streams: vec![
            StreamProbe::Probed(video_stream(0, 640, 480)),
            StreamProbe::Probed(audio_stream(1)),
        ],
        best_video: Some(0),
        best_audio: Some(1),
        best_subtitle: None,
    };
    let ctx = build_context(&meta, "in.mp4", "%Y%m%d%H%M%S").unwrap();
    match root_get(&ctx, &String::from("streams")) {
        Some(RootVal::Many(list)) => assert_eq!(list.len(), 2),
        other => panic!("streams entry missing or wrong: {:?}", other),
    }
    match root_get(&ctx, &String::from("v")) {
        Some(RootVal::One(s)) => {
            assert_eq!(stream_get(s, &String::from("width")).cloned(), Some(Scal::UInt(640)));
        }
        other => panic!("v alias missing or wrong: {:?}", other),
    }
    match root_get(&ctx, &String::from("audio")) {
        Some(RootVal::One(s)) => {
            assert_eq!(stream_get(s, &String::from("rate")).cloned(), Some(Scal::UInt(48000)));
        }
        other => panic!("audio alias missing or wrong: {:?}", other),
    }
    assert!(root_get(&ctx, &String::from("s")).is_none());
    assert!(root_get(&ctx, &String::from("subtitle")).is_none());
    assert_eq!(
        root_get(&ctx, &String::from("title")).cloned(),
        Some(RootVal::Leaf(Scal::Str(String::from("demo"))))
    );
    assert_eq!(
        root_get(&ctx, &String::from("org")).cloned(),
        Some(RootVal::Leaf(Scal::Str(String::from("in.mp4"))))
    );
    assert_eq!(
        root_get(&ctx, &String::from("original_filename")).cloned(),
        Some(RootVal::Leaf(Scal::Str(String::from("in.mp4"))))
    );
}

#[test]
fn template_indexes_into_the_stream_list() {
    let meta = ContainerMeta {
        tags: Vec::new(),
        streams: vec![
            StreamProbe::Probed(video_stream(0, 1920, 1080)),
            StreamProbe::Probed(audio_stream(1)),
        ],
        best_video: Some(0),
        best_audio: Some(1),
        best_subtitle: None,
    };
    let ctx = build_context(&meta, "clip.mkv", "%Y%m%d%H%M%S").unwrap();
    let value = ctx_to_value(&ctx);
    let text = String::from("{streams.1.codec}_{streams.0.index}");
    let tt = compile_template(&text).unwrap();
    let rendered = render_filename(&tt, &value).unwrap();
    assert_eq!(rendered, "AAC_0");
}

#[test]
fn unresolved_template_key_is_a_render_error() {
    let meta = ContainerMeta {
        tags: Vec::new(),
        streams: Vec::new(),
        best_video: None,
        best_audio: None,
        best_subtitle: None,
    };
    let ctx = build_context(&meta, "a.mp4", "%Y%m%d%H%M%S").unwrap();
    let value = ctx_to_value(&ctx);
    let text = String::from("{no_such_key}.mkv");
    let tt = compile_template(&text).unwrap();
    let rendered = render_filename(&tt, &value);
    assert!(matches!(rendered, Err(media_renamer::errors::Error::Render(_))));
}

#[test]
fn template_with_original_filename_renders() {
    let meta = ContainerMeta {
        tags: Vec::new(),
        streams: Vec::new(),
        best_video: None,
        best_audio: None,
        best_subtitle: None,
    };
    let ctx = build_context(&meta, "old_name.mov", "%Y%m%d%H%M%S").unwrap();
    let value = ctx_to_value(&ctx);
    let text = String::from("copy_of_{org}");
    let tt = compile_template(&text).unwrap();
    let rendered = render_filename(&tt, &value).unwrap();
    assert_eq!(rendered, "copy_of_old_name.mov");
}
