use media_renamer::decimal::{i32_to_string, i64_to_string, rational_string, u64_to_string};
use media_renamer::errors::Error;
use media_renamer::meta::{
    ContainerMeta, Medium, ProbeOutcome, Rational, StreamDetail, StreamMeta, StreamProbe,
};
use media_renamer::meta::medium_label;
use media_renamer::pipeline::{context_for_file, continue_after_child, plan_rename};
use media_renamer::template::compile_template;

fn bare_stream(index: usize) -> StreamMeta {
    StreamMeta {
        index,
        time_base: Rational { num: 1, den: 1000 },
        start_time: 0,
        duration: 0,
        frames: 0,
        disposition: String::from("DEFAULT"),
        discard: String::from("Default"),
        rate: Rational { num: 25, den: 1 },
        medium: Medium::Subtitle,
        codec_name: String::from("SRT"),
        detail: StreamDetail::Bare,
    }
}

#[test]
fn non_media_file_is_silently_skipped() {
    let r = context_for_file(&ProbeOutcome::NotMedia, "notes.txt", "%Y%m%d%H%M%S");
    assert!(matches!(r, Ok(None)));
}

#[test]
fn corrupt_stream_aborts_only_its_file() {
    let corrupt = ProbeOutcome::Media(ContainerMeta {
        tags: Vec::new(),
        streams: vec![
            StreamProbe::Probed(bare_stream(0)),
            StreamProbe::CodecFailed(String::from("unsupported codec parameters")),
        ],
        best_video: None,
        best_audio: None,
        best_subtitle: None,
    });
    let healthy = ProbeOutcome::Media(ContainerMeta {
        tags: Vec::new(),
        streams: vec![StreamProbe::Probed(bare_stream(0))],
        best_video: None,
        best_audio: None,
        best_subtitle: None,
    });

    let bad = context_for_file(&corrupt, "corrupt.mp4", "%Y%m%d%H%M%S");
    assert!(matches!(bad, Err(Error::CodecProbe(_))));
    // A file's failure never stops the batch ...
    assert!(continue_after_child(false, true));
    // ... so the healthy neighbour is still processed and renamed.
    let good = context_for_file(&healthy, "good.mp4", "%Y%m%d%H%M%S");
    let ctx = good.unwrap();
    assert!(ctx.is_some());
    let plan = plan_rename(
        &String::from("good.mp4"),
        &String::from("renamed.mp4"),
        false,
        true,
    )
    .unwrap();
    assert!(plan.execute);
}

#[test]
fn subdirectory_failure_stops_its_branch() {
    assert!(!continue_after_child(true, true));
    assert!(continue_after_child(true, false));
    assert!(continue_after_child(false, false));
}

#[test]
fn existing_destination_is_a_collision() {
    let r = plan_rename(&String::from("a.mp4"), &String::from("b.mp4"), true, true);
    match r {
        Err(Error::Collision(msg)) => assert!(msg.contains("b.mp4")),
        other => panic!("expected a collision, got {:?}", other),
    }
}

#[test]
fn rerun_after_rename_collides_without_crash() {
    // First run: destination free, rename planned and executed.
    let first = plan_rename(&String::from("a.mp4"), &String::from("b.mp4"), false, true).unwrap();
    assert_eq!(first.source, "a.mp4");
    assert_eq!(first.dest, "b.mp4");
    assert!(first.execute);
    // Second run over the renamed tree: the destination now exists, so
    // the run must fail with a collision, never silently re-rename.
    let second = plan_rename(&String::from("a.mp4"), &String::from("b.mp4"), true, true);
    assert!(matches!(second, Err(Error::Collision(_))));
}

#[test]
fn dry_run_plans_match_execute_plans() {
    let dry = plan_rename(&String::from("x.mkv"), &String::from("y.mkv"), false, false).unwrap();
    let wet = plan_rename(&String::from("x.mkv"), &String::from("y.mkv"), false, true).unwrap();
    assert_eq!(dry.source, wet.source);
    assert_eq!(dry.dest, wet.dest);
    assert!(!dry.execute);
    assert!(wet.execute);
}

#[test]
fn decimal_renderings_are_exact() {
    assert_eq!(u64_to_string(0), "0");
    assert_eq!(u64_to_string(30000), "30000");
    assert_eq!(i64_to_string(-1001), "-1001");
    assert_eq!(i64_to_string(i64::MIN), "-9223372036854775808");
    assert_eq!(i32_to_string(i32::MIN), "-2147483648");
    assert_eq!(rational_string(30000, 1001), "30000/1001");
    assert_eq!(rational_string(-1, 4), "-1/4");
}

#[test]
fn medium_labels_match_probe_names() {
    assert_eq!(medium_label(Medium::Video), "Video");
    assert_eq!(medium_label(Medium::Audio), "Audio");
    assert_eq!(medium_label(Medium::Subtitle), "Subtitle");
    assert_eq!(medium_label(Medium::Unknown), "Unknown");
}

#[test]
fn broken_template_is_fatal_at_startup() {
    let text = String::from("{unclosed");
    let r = compile_template(&text);
    assert!(matches!(r, Err(Error::TemplateCompile(_))));
}

#[test]
fn good_template_compiles() {
    let text = String::from("{org}.bak");
    assert!(compile_template(&text).is_ok());
}
