//! The loader, the worker state machine and the surrounding decisions on
//! concrete runs, with real image files decoded and scaled.

use enkei::config::{determine_mode, ApplicationError, Mode};
use enkei::image::error::ImageError;
use enkei::image::images::Image;
use enkei::image::scaling::{Filter, Scaling};
use enkei::messages::{Frac, WorkerMessage};
use enkei::metadata::{MetadataReader, Transition};
use enkei::outputs::{handle_output_events, Output, OutputEvent};
use enkei::schema::Image as Entry;
use enkei::util::ResourceLoader;
use enkei::watchdog::{sleep_cycle_detected, ticker_messages, Message};
use enkei::worker::{
    calc_frame_updates, output_ready, work_step, Action, RenderConfig, State, TimerRequest,
};
use enkei::ScaledMode;

fn write_png(path: &str, rgba: [u8; 4]) {
    let img = image::RgbaImage::from_pixel(4, 4, image::Rgba(rgba));
    img.save(path).unwrap();
}

fn target() -> ScaledMode {
    ScaledMode { width: 8, height: 8 }
}

fn ready_output(id: u32, refresh: i32) -> Output {
    let mut out = Output::new(id);
    let no_emit = handle_output_events(
        &mut out,
        OutputEvent::Mode { flags: 0, width: 1920, height: 1080, refresh },
    );
    assert!(!no_emit);
    let emit = handle_output_events(&mut out, OutputEvent::Done);
    assert!(emit);
    out
}

#[test]
fn loader_returns_identical_bytes_without_evictions() {
    let path = "/tmp/enkei_loader_p6.png".to_string();
    write_png(&path, [40, 80, 120, 255]);
    let mut loader = ResourceLoader::new();
    let first = loader.load(&path, &target(), Scaling::Fill, Filter::Good).unwrap();
    assert_eq!(first.len(), 3 * 8 * 8);
    let second = loader.load(&path, &target(), Scaling::Fill, Filter::Good).unwrap();
    assert_eq!(first, second);
}

#[test]
fn loader_serves_from_cache_after_the_file_changed() {
    let path = "/tmp/enkei_loader_cached.png".to_string();
    write_png(&path, [11, 22, 33, 255]);
    let mut loader = ResourceLoader::new();
    let first = loader.load(&path, &target(), Scaling::Fill, Filter::Good).unwrap();
    // the file changes on disk, but the cache still answers
    write_png(&path, [99, 88, 77, 255]);
    let second = loader.load(&path, &target(), Scaling::Fill, Filter::Good).unwrap();
    assert_eq!(first, second);
    for px in second.chunks(3) {
        assert_eq!(px, &[11, 22, 33]);
    }
}

#[test]
fn loader_decodes_what_was_written() {
    let path = "/tmp/enkei_loader_decode.png".to_string();
    write_png(&path, [200, 100, 50, 255]);
    let mut loader = ResourceLoader::new();
    let buf = loader.load(&path, &target(), Scaling::Fill, Filter::Fast).unwrap();
    // a solid image stays solid through decoding, resampling and cropping
    for px in buf.chunks(3) {
        assert_eq!(px, &[200, 100, 50]);
    }
}

#[test]
fn decoding_a_missing_file_is_an_io_error() {
    let r = Image::new("/tmp/enkei_no_such_file.png", Scaling::Fill, Filter::Good);
    assert!(matches!(r, Err(ImageError::Io(_))));
}

#[test]
fn single_still_image_draws_ratio_zero_forever() {
    let path = "/tmp/enkei_p9_still.png".to_string();
    write_png(&path, [10, 20, 30, 255]);
    let mut state = State::new();
    let mut resources = ResourceLoader::new();
    let mut config = RenderConfig {
        scaling: Scaling::Fill,
        filter: Filter::Best,
        metadata: MetadataReader::static_configuration(path),
    };
    let acts = work_step(
        &mut state,
        &mut resources,
        &mut config,
        WorkerMessage::AddOutput(ready_output(7, 60000), 7),
        0,
    )
    .unwrap();
    assert!(matches!(acts[0], Action::CreateRenderer(7)));
    assert_eq!(state.fps_millihertz(), 60000);
    let acts = output_ready(&mut state, &mut resources, &config, 7, target(), 0).unwrap();
    // the two textures are the same image, the ratio is zero, and the
    // scheduled timer is a plain refresh: no animation step ever comes
    match &acts[0] {
        Action::UploadTextures(id, tp, _) => {
            assert_eq!(*id, 7);
            assert_eq!(tp.from, tp.to);
        },
        other => panic!("upload expected, got {:?}", other),
    }
    assert!(matches!(acts[1], Action::Draw(7, Frac { num: 0, den: 1 })));
    match &acts[2] {
        Action::SpawnTimer(TimerRequest::Simple { message: WorkerMessage::Refresh, .. }) => {},
        other => panic!("a simple refresh timer expected, got {:?}", other),
    }
    assert!(state.is_ticker_active());
}

fn animated_config(from: &str, to: &str) -> RenderConfig {
    let entries = vec![
        Entry::StartTime { year: 1970, month: 1, day: 1, hour: 0, minute: 0, second: 0 },
        Entry::Static { duration_millis: 5000, file: from.to_string() },
        Entry::Transition {
            kind: "overlay".to_string(),
            duration_millis: 2000,
            from: from.to_string(),
            to: to.to_string(),
        },
    ];
    RenderConfig {
        scaling: Scaling::Fill,
        filter: Filter::Good,
        metadata: MetadataReader::read_entries(entries).unwrap(),
    }
}

#[test]
fn animated_slide_schedules_the_transition() {
    let a = "/tmp/enkei_p10_a.png";
    let b = "/tmp/enkei_p10_b.png";
    write_png(a, [255, 0, 0, 255]);
    write_png(b, [0, 0, 255, 255]);
    let mut state = State::new();
    let mut resources = ResourceLoader::new();
    let config = animated_config(a, b);
    // at the anchor instant the still phase has 5000 ms left; its timer
    // fires the start of the 2000 ms transition
    let acts = output_ready(&mut state, &mut resources, &config, 1, target(), 0).unwrap();
    match &acts[2] {
        Action::SpawnTimer(TimerRequest::Simple { delay_millis, message }) => {
            assert_eq!(*delay_millis, 5000);
            assert!(matches!(message, WorkerMessage::AnimationStart(2000)));
        },
        other => panic!("a simple timer expected, got {:?}", other),
    }
    // at one hertz the transition runs in two steps of 1000 ms
    let mut config = config;
    let acts = work_step(
        &mut state,
        &mut resources,
        &mut config,
        WorkerMessage::AnimationStart(2000),
        5000,
    )
    .unwrap();
    match &acts[0] {
        Action::SpawnTimer(TimerRequest::Ticker { step_millis, count, offset }) => {
            assert_eq!((*step_millis, *count, *offset), (1000, 2, 0));
        },
        other => panic!("a ticker expected, got {:?}", other),
    }
    // the ticker's plan ends at ratio one
    let plan = ticker_messages(2, 0);
    assert_eq!(plan.len(), 3);
    assert_eq!(plan[0], Frac { num: 0, den: 2 });
    assert_eq!(plan[2], Frac { num: 2, den: 2 });
    // the final step queues a refresh
    let acts = work_step(
        &mut state,
        &mut resources,
        &mut config,
        WorkerMessage::AnimationStep(Frac { num: 2, den: 2 }),
        7000,
    )
    .unwrap();
    assert!(matches!(acts[0], Action::Draw(1, Frac { num: 2, den: 2 })));
    assert!(matches!(acts[1], Action::Enqueue(WorkerMessage::Refresh)));
    // the refresh at 7000 ms wraps to the schedule's start
    let acts = work_step(&mut state, &mut resources, &mut config, WorkerMessage::Refresh, 7000)
        .unwrap();
    assert!(matches!(acts[0], Action::CancelTimers));
    assert!(matches!(acts[2], Action::Draw(1, Frac { num: 0, den: 1 })));
}

#[test]
fn late_transition_refresh_caps_the_ratio_at_one() {
    let a = "/tmp/enkei_late_a.png";
    let b = "/tmp/enkei_late_b.png";
    write_png(a, [1, 1, 1, 255]);
    write_png(b, [2, 2, 2, 255]);
    // a one-second still phase and a one-second cross-fade
    let entries = vec![
        Entry::StartTime { year: 1970, month: 1, day: 1, hour: 0, minute: 0, second: 0 },
        Entry::Static { duration_millis: 1000, file: a.to_string() },
        Entry::Transition {
            kind: "overlay".to_string(),
            duration_millis: 1000,
            from: a.to_string(),
            to: b.to_string(),
        },
    ];
    let mut config = RenderConfig {
        scaling: Scaling::Fill,
        filter: Filter::Good,
        metadata: MetadataReader::read_entries(entries).unwrap(),
    };
    let mut state = State::new();
    state.set_fps(144_000);
    let mut resources = ResourceLoader::new();
    output_ready(&mut state, &mut resources, &config, 1, target(), 0).unwrap();
    // 999 ms into the transition: 144 steps of 6 ms each are all finished
    // (the rounded-down step undercounts), so the ratio is capped at one
    // and the ticker starts at its final step
    let acts =
        work_step(&mut state, &mut resources, &mut config, WorkerMessage::Refresh, 1999).unwrap();
    assert!(matches!(acts[2], Action::Draw(1, Frac { num: 144, den: 144 })));
    match acts.last().unwrap() {
        Action::SpawnTimer(TimerRequest::Ticker { step_millis, count, offset }) => {
            assert_eq!((*step_millis, *count, *offset), (6, 144, 144));
            // the plan still emits the final step, which queues the refresh
            let plan = ticker_messages(*count, *offset);
            assert_eq!(plan, vec![Frac { num: 144, den: 144 }]);
        },
        other => panic!("a ticker expected, got {:?}", other),
    }
}

#[test]
fn third_distinct_buffer_evicts_the_oldest() {
    let a = "/tmp/enkei_evict_a.png".to_string();
    let b = "/tmp/enkei_evict_b.png".to_string();
    let c = "/tmp/enkei_evict_c.png".to_string();
    write_png(&a, [10, 0, 0, 255]);
    write_png(&b, [0, 10, 0, 255]);
    write_png(&c, [0, 0, 10, 255]);
    let mut loader = ResourceLoader::new();
    loader.load(&a, &target(), Scaling::Fill, Filter::Good).unwrap();
    loader.load(&b, &target(), Scaling::Fill, Filter::Good).unwrap();
    loader.load(&c, &target(), Scaling::Fill, Filter::Good).unwrap();
    // both caches hold two entries; the oldest was evicted, so a changed
    // file for it is decoded anew
    write_png(&a, [99, 0, 0, 255]);
    let again = loader.load(&a, &target(), Scaling::Fill, Filter::Good).unwrap();
    for px in again.chunks(3) {
        assert_eq!(px, &[99, 0, 0]);
    }
}

#[test]
fn removing_one_output_leaves_the_other_untouched() {
    let a = "/tmp/enkei_p11_a.png";
    let b = "/tmp/enkei_p11_b.png";
    write_png(a, [9, 9, 9, 255]);
    write_png(b, [200, 200, 200, 255]);
    let mut state = State::new();
    let mut resources = ResourceLoader::new();
    let mut config = animated_config(a, b);
    output_ready(&mut state, &mut resources, &config, 1, target(), 5500).unwrap();
    output_ready(&mut state, &mut resources, &config, 2, target(), 5500).unwrap();
    assert_eq!(state.render_count(), 2);
    let before = resources.load(&a.to_string(), &target(), Scaling::Fill, Filter::Good).unwrap();
    let acts =
        work_step(&mut state, &mut resources, &mut config, WorkerMessage::RemoveOutput(2), 5500)
            .unwrap();
    assert!(matches!(acts[0], Action::DestroyRenderer(2)));
    assert_eq!(acts.len(), 1);
    assert_eq!(state.render_count(), 1);
    assert_eq!(state.render_at(0).id, 1);
    // the cache still answers with the same bytes
    let after = resources.load(&a.to_string(), &target(), Scaling::Fill, Filter::Good).unwrap();
    assert_eq!(before, after);
}

#[test]
fn two_refreshes_show_what_one_shows() {
    let a = "/tmp/enkei_p7_a.png";
    let b = "/tmp/enkei_p7_b.png";
    write_png(a, [1, 2, 3, 255]);
    write_png(b, [4, 5, 6, 255]);
    let mut state = State::new();
    let mut resources = ResourceLoader::new();
    let mut config = animated_config(a, b);
    output_ready(&mut state, &mut resources, &config, 3, target(), 0).unwrap();
    let first =
        work_step(&mut state, &mut resources, &mut config, WorkerMessage::Refresh, 6000).unwrap();
    let ticker1 = state.is_ticker_active();
    let renders1 = state.render_count();
    let second =
        work_step(&mut state, &mut resources, &mut config, WorkerMessage::Refresh, 6000).unwrap();
    assert_eq!(state.is_ticker_active(), ticker1);
    assert_eq!(state.render_count(), renders1);
    assert_eq!(first.len(), second.len());
    for (x, y) in first.iter().zip(second.iter()) {
        match (x, y) {
            (Action::Draw(i, f), Action::Draw(j, g)) => {
                assert_eq!(i, j);
                assert_eq!(f, g);
            },
            (Action::UploadTextures(i, tp1, m1), Action::UploadTextures(j, tp2, m2)) => {
                assert_eq!(i, j);
                assert_eq!(m1, m2);
                assert_eq!(tp1.from, tp2.from);
                assert_eq!(tp1.to, tp2.to);
            },
            (Action::CancelTimers, Action::CancelTimers) => {},
            (Action::SpawnTimer(_), Action::SpawnTimer(_)) => {},
            (x, y) => panic!("mismatched actions: {:?} vs {:?}", x, y),
        }
    }
}

#[test]
fn ipc_update_replaces_the_schedule() {
    let a = "/tmp/enkei_p13_a.png";
    let b = "/tmp/enkei_p13_b.png";
    write_png(a, [250, 0, 0, 255]);
    write_png(b, [0, 250, 0, 255]);
    let mut state = State::new();
    let mut resources = ResourceLoader::new();
    let mut config = RenderConfig {
        scaling: Scaling::Fill,
        filter: Filter::Best,
        metadata: MetadataReader::static_configuration(a.to_string()),
    };
    output_ready(&mut state, &mut resources, &config, 1, target(), 0).unwrap();
    let msg = Message { filter: None, scaling: None, path: b.to_string(), mode: None };
    let acts = work_step(
        &mut state,
        &mut resources,
        &mut config,
        WorkerMessage::IPCConfigUpdate(msg),
        100,
    )
    .unwrap();
    assert_eq!(acts.len(), 1);
    assert!(matches!(acts[0], Action::Enqueue(WorkerMessage::Refresh)));
    assert_eq!(config.metadata.slide(0).from().as_str(), b);
    // the queued refresh repaints with the new image
    let acts =
        work_step(&mut state, &mut resources, &mut config, WorkerMessage::Refresh, 200).unwrap();
    match &acts[1] {
        Action::UploadTextures(_, tp, _) => {
            for px in tp.from.chunks(3) {
                assert_eq!(px, &[0, 250, 0]);
            }
        },
        other => panic!("upload expected, got {:?}", other),
    }
}

#[test]
fn ipc_update_with_untypeable_path_is_dropped() {
    let mut state = State::new();
    let mut resources = ResourceLoader::new();
    let mut config = RenderConfig {
        scaling: Scaling::Fill,
        filter: Filter::Best,
        metadata: MetadataReader::static_configuration("x.png".to_string()),
    };
    let msg = Message {
        filter: Some(Filter::Fast),
        scaling: None,
        path: "notes.txt".to_string(),
        mode: None,
    };
    let acts = work_step(
        &mut state,
        &mut resources,
        &mut config,
        WorkerMessage::IPCConfigUpdate(msg),
        0,
    )
    .unwrap();
    assert!(acts.is_empty());
    assert_eq!(config.filter, Filter::Best);
}

#[test]
fn readvertised_output_is_replayed_as_a_refresh() {
    let a = "/tmp/enkei_replay.png";
    write_png(a, [7, 7, 7, 255]);
    let mut state = State::new();
    let mut resources = ResourceLoader::new();
    let mut config = RenderConfig {
        scaling: Scaling::Fill,
        filter: Filter::Best,
        metadata: MetadataReader::static_configuration(a.to_string()),
    };
    output_ready(&mut state, &mut resources, &config, 5, target(), 0).unwrap();
    let acts = work_step(
        &mut state,
        &mut resources,
        &mut config,
        WorkerMessage::AddOutput(ready_output(5, 144000), 5),
        0,
    )
    .unwrap();
    assert_eq!(acts.len(), 2);
    assert!(matches!(acts[0], Action::Enqueue(WorkerMessage::RemoveOutput(5))));
    assert!(matches!(
        acts[1],
        Action::Enqueue(WorkerMessage::AddOutput(_, 5))
    ));
    // the replay does not raise the pace; only a fresh addition does
    assert_eq!(state.fps_millihertz(), 1000);
}

#[test]
fn suspend_detection_trips_past_the_poll_interval() {
    assert!(!sleep_cycle_detected(59));
    assert!(!sleep_cycle_detected(60));
    assert!(sleep_cycle_detected(61));
    assert!(sleep_cycle_detected(1860));
}

#[test]
fn frame_updates_follow_duration_and_rate() {
    // two seconds at 60 Hz is 120 steps
    assert_eq!(calc_frame_updates(2000, 60000), 120);
    // never fewer than one step
    assert_eq!(calc_frame_updates(1, 1000), 1);
    assert_eq!(calc_frame_updates(0, 60000), 1);
    // never more than three hundred steps
    assert_eq!(calc_frame_updates(10000, 60000), 300);
}

#[test]
fn mode_inference_follows_the_extension() {
    assert!(matches!(determine_mode("w.xml", None), Ok(Mode::Dynamic)));
    assert!(matches!(determine_mode("w.XML", None), Ok(Mode::Dynamic)));
    assert!(matches!(determine_mode("w.png", None), Ok(Mode::Static)));
    assert!(matches!(determine_mode("w.JpEg", None), Ok(Mode::Static)));
    assert!(matches!(determine_mode("w.webp", None), Ok(Mode::Static)));
    assert!(matches!(determine_mode("w.tiff", None), Ok(Mode::Static)));
    assert!(matches!(
        determine_mode("w.txt", None),
        Err(ApplicationError::InvalidDataType)
    ));
    assert!(matches!(determine_mode("w.txt", Some(Mode::Static)), Ok(Mode::Static)));
    assert!(matches!(determine_mode("w.png", Some(Mode::Dynamic)), Ok(Mode::Dynamic)));
}

#[test]
fn scaled_mode_rounds_width_up_and_applies_the_scale() {
    assert_eq!(
        ScaledMode::from_configure(1920, 1080, 2),
        Some(ScaledMode { width: 3840, height: 2160 })
    );
    assert_eq!(
        ScaledMode::from_configure(1919, 1080, 1),
        Some(ScaledMode { width: 1920, height: 1080 })
    );
    assert_eq!(ScaledMode::from_configure(1920, 1080, 0), None);
    assert_eq!(ScaledMode::from_configure(u32::MAX - 1, 1, i32::MAX), None);
}

#[test]
fn output_events_accumulate_until_done() {
    let mut out = Output::new(11);
    assert!(out.mode().is_none());
    assert!(out.geometry().is_none());
    assert_eq!(out.scale(), 1);
    let e1 = handle_output_events(
        &mut out,
        OutputEvent::Geometry {
            x: 0,
            y: 0,
            make: "acme".to_string(),
            model: "panel".to_string(),
        },
    );
    assert!(!e1);
    let e2 = handle_output_events(
        &mut out,
        OutputEvent::Mode { flags: 1, width: 2560, height: 1440, refresh: 120000 },
    );
    assert!(!e2);
    let e3 = handle_output_events(&mut out, OutputEvent::Scale { factor: 2 });
    assert!(!e3);
    let e4 = handle_output_events(&mut out, OutputEvent::Done);
    assert!(e4);
    assert_eq!(out.id(), 11);
    assert_eq!(out.scale(), 2);
    let m = out.mode().unwrap();
    assert_eq!((m.width, m.height, m.refresh), (2560, 1440, 120000));
    assert_eq!(out.geometry().unwrap().make.as_str(), "acme");
    assert_eq!(out.refresh_rate(), Some(120000));
}

#[test]
fn timeline_realigns_after_a_long_suspension() {
    let a = "/tmp/enkei_p12.png";
    write_png(a, [3, 3, 3, 255]);
    let config = animated_config(a, a);
    // thirty minutes is 1_800_000 ms; modulo the 7000 ms loop that is
    // offset 1000: one second into the still phase
    match config.metadata.current_at(1_800_000).unwrap() {
        enkei::metadata::AnimationState::Static(p, _) => assert_eq!(p, 1000),
        enkei::metadata::AnimationState::Transition(_, _) => panic!("still expected"),
    }
}

#[test]
fn slide_accessors_expose_the_parsed_values() {
    let config = animated_config("/tmp/x.png", "/tmp/y.png");
    let s: &Transition = config.metadata.slide(0);
    assert!(s.is_animated());
    assert_eq!(s.duration_static(), 5000);
    assert_eq!(s.duration_transition(), 2000);
}
