//! The schedule builder and the timeline query on concrete schedules.

use enkei::metadata::{AnimationState, Metadata, MetadataError, MetadataReader, FOREVER_MILLIS};
use enkei::schema::Image;

fn start_epoch() -> Image {
    Image::StartTime { year: 1970, month: 1, day: 1, hour: 0, minute: 0, second: 0 }
}

fn animated_schedule() -> Metadata {
    // one animated slide: 5 s still, 2 s cross-fade
    let entries = vec![
        start_epoch(),
        Image::Static { duration_millis: 5000, file: "a.png".to_string() },
        Image::Transition {
            kind: "overlay".to_string(),
            duration_millis: 2000,
            from: "a.png".to_string(),
            to: "b.png".to_string(),
        },
    ];
    MetadataReader::read_entries(entries).unwrap()
}

#[test]
fn read_entries_builds_one_animated_slide() {
    let m = animated_schedule();
    assert_eq!(m.start_time(), 0);
    assert_eq!(m.total_duration(), 7000);
    assert_eq!(m.slide_count(), 1);
    let s = m.slide(0);
    assert!(s.is_animated());
    assert_eq!(s.duration_static(), 5000);
    assert_eq!(s.duration_transition(), 2000);
    assert_eq!(s.time_range().start, 0);
    assert_eq!(s.time_range().end, 7000);
    assert_eq!(s.from().as_str(), "a.png");
    assert_eq!(s.to().unwrap().as_str(), "b.png");
}

#[test]
fn ranges_tile_without_gaps() {
    // two stills and one animated slide tile [0, total) contiguously
    let entries = vec![
        start_epoch(),
        Image::Static { duration_millis: 3000, file: "a.png".to_string() },
        Image::Static { duration_millis: 4000, file: "b.png".to_string() },
        Image::Transition {
            kind: "overlay".to_string(),
            duration_millis: 1500,
            from: "b.png".to_string(),
            to: "c.png".to_string(),
        },
        Image::Static { duration_millis: 500, file: "c.png".to_string() },
    ];
    let m = MetadataReader::read_entries(entries).unwrap();
    assert_eq!(m.slide_count(), 3);
    assert_eq!(m.total_duration(), 9000);
    let mut edge = 0u64;
    for i in 0..m.slide_count() {
        let r = m.slide(i).time_range();
        assert_eq!(r.start, edge);
        edge = r.end;
    }
    assert_eq!(edge, 9000);
}

#[test]
fn still_phase_state_is_exact() {
    let m = animated_schedule();
    // 1500 ms into the still phase
    match m.current_at(1500).unwrap() {
        AnimationState::Static(p, s) => {
            assert_eq!(p, 1500);
            assert_eq!(s.from().as_str(), "a.png");
        },
        AnimationState::Transition(_, _) => panic!("still phase expected"),
    }
}

#[test]
fn transition_phase_state_is_exact() {
    let m = animated_schedule();
    // 500 ms into the cross-fade
    match m.current_at(5500).unwrap() {
        AnimationState::Transition(p, s) => {
            assert_eq!(p, 500);
            assert!(s.is_animated());
        },
        AnimationState::Static(_, _) => panic!("transition phase expected"),
    }
}

#[test]
fn schedule_wraps_around() {
    let m = animated_schedule();
    // a full loop plus 1500 ms lands in the still phase again
    match m.current_at(8500).unwrap() {
        AnimationState::Static(p, _) => assert_eq!(p, 1500),
        AnimationState::Transition(_, _) => panic!("still phase expected"),
    }
}

#[test]
fn instants_before_the_anchor_wrap_backwards() {
    let m = animated_schedule();
    // 1000 ms before the anchor is offset 6000: inside the cross-fade
    match m.current_at(-1000).unwrap() {
        AnimationState::Transition(p, _) => assert_eq!(p, 1000),
        AnimationState::Static(_, _) => panic!("transition phase expected"),
    }
}

#[test]
fn state_slide_contains_the_offset() {
    let m = animated_schedule();
    for t in [0i64, 1, 4999, 5000, 6999, 7000, 7001, 123456] {
        let st = m.current_at(t).unwrap();
        let (slide, local) = match st {
            AnimationState::Static(p, s) => (s, p),
            AnimationState::Transition(p, s) => {
                let ds = s.duration_static();
                (s, ds + p)
            },
        };
        let diff = (t as u64) % 7000;
        assert!(slide.time_range().contains(diff));
        assert_eq!(local, diff - slide.time_range().start);
    }
}

#[test]
fn empty_description_is_invalid_time_format() {
    let r = MetadataReader::read_entries(Vec::new());
    assert!(matches!(r, Err(MetadataError::InvalidTimeFormat)));
}

#[test]
fn first_entry_must_be_a_start_time() {
    let entries = vec![Image::Static { duration_millis: 5000, file: "a.png".to_string() }];
    let r = MetadataReader::read_entries(entries);
    assert!(matches!(r, Err(MetadataError::InvalidTime)));
}

#[test]
fn invalid_date_cannot_be_parsed() {
    let entries = vec![
        Image::StartTime { year: 2022, month: 2, day: 30, hour: 0, minute: 0, second: 0 },
        Image::Static { duration_millis: 5000, file: "a.png".to_string() },
    ];
    let r = MetadataReader::read_entries(entries);
    assert!(matches!(r, Err(MetadataError::CouldNotParse(_))));
}

#[test]
fn transition_without_preceding_still_cannot_be_parsed() {
    let entries = vec![
        start_epoch(),
        Image::Transition {
            kind: "overlay".to_string(),
            duration_millis: 2000,
            from: "a.png".to_string(),
            to: "b.png".to_string(),
        },
    ];
    let r = MetadataReader::read_entries(entries);
    assert!(matches!(r, Err(MetadataError::CouldNotParse(_))));
}

#[test]
fn overlong_schedule_cannot_be_parsed() {
    let entries = vec![
        start_epoch(),
        Image::Static { duration_millis: u64::MAX - 10, file: "a.png".to_string() },
        Image::Static { duration_millis: 1000, file: "b.png".to_string() },
    ];
    let r = MetadataReader::read_entries(entries);
    assert!(matches!(r, Err(MetadataError::CouldNotParse(_))));
}

#[test]
fn schedule_with_no_slides_has_no_current_frame() {
    let m = MetadataReader::read_entries(vec![start_epoch()]).unwrap();
    assert_eq!(m.total_duration(), 0);
    assert!(matches!(m.current_at(42), Err(MetadataError::CurrentFrame)));
}

#[test]
fn static_configuration_is_one_endless_still() {
    let m = MetadataReader::static_configuration("wall.png".to_string());
    assert_eq!(m.total_duration(), FOREVER_MILLIS);
    assert_eq!(m.slide_count(), 1);
    let s = m.slide(0);
    assert!(!s.is_animated());
    assert_eq!(s.from().as_str(), "wall.png");
    assert_eq!(s.time_range().start, 0);
    assert_eq!(s.time_range().end, FOREVER_MILLIS);
    // whatever the clock said, the current state is the still slide
    match m.current().unwrap() {
        AnimationState::Static(_, slide) => assert!(!slide.is_animated()),
        AnimationState::Transition(_, _) => panic!("still expected"),
    }
}

#[test]
fn start_time_of_the_epoch_is_zero() {
    // the civil date 1970-01-01 00:00:00 maps to offset zero
    let m = MetadataReader::read_entries(vec![
        start_epoch(),
        Image::Static { duration_millis: 1000, file: "a.png".to_string() },
    ])
    .unwrap();
    assert_eq!(m.start_time(), 0);
    // and one day later is exactly 86_400_000 milliseconds
    let m2 = MetadataReader::read_entries(vec![
        Image::StartTime { year: 1970, month: 1, day: 2, hour: 0, minute: 0, second: 0 },
        Image::Static { duration_millis: 1000, file: "a.png".to_string() },
    ])
    .unwrap();
    assert_eq!(m2.start_time(), 86_400_000);
}

#[test]
fn zero_length_transition_is_still_animated() {
    let entries = vec![
        start_epoch(),
        Image::Static { duration_millis: 1000, file: "a.png".to_string() },
        Image::Transition {
            kind: "overlay".to_string(),
            duration_millis: 0,
            from: "a.png".to_string(),
            to: "b.png".to_string(),
        },
    ];
    let m = MetadataReader::read_entries(entries).unwrap();
    let s = m.slide(0);
    assert!(s.is_animated());
    assert_eq!(s.duration_transition(), 0);
    // the whole range is the still phase
    match m.current_at(999).unwrap() {
        AnimationState::Static(p, _) => assert_eq!(p, 999),
        AnimationState::Transition(_, _) => panic!("still expected"),
    }
}
