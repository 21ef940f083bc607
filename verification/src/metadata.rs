//! The slide-show timeline: a schedule anchored at a wall-clock start time,
//! an ordered list of slides whose time ranges tile the schedule's total
//! duration, and the mapping from an instant to the slide state shown then.
//!
//! All durations and offsets are whole milliseconds.

use vstd::prelude::*;

use crate::schema::Image;

verus! {

/// Duration, in milliseconds, standing in for "never transition" when a
/// single still image is shown: long enough that no realistic uptime ever
/// reaches it, small enough that sums with it stay inside `u64`.
pub const FOREVER_MILLIS: u64 = 0x0400_0000_0000_0000;

/// Failures of reading a schedule or querying the current frame.
#[derive(Debug)]
pub enum MetadataError {
    /// The description held no entries at all.
    InvalidTimeFormat,
    /// The first entry was not a start-time block.
    InvalidTime,
    /// The description file could not be opened.
    CouldNotOpen(String),
    /// An entry was malformed: out of order, an invalid date, or durations
    /// past what the schedule can hold.
    CouldNotParse(String),
    /// No slide's range contains the current offset.
    CurrentFrame,
}

/// A half-open interval `[start, end)` of schedule offsets, in milliseconds.
#[derive(Debug, Clone, Copy, PartialEq, Eq, Structural)]
pub struct TimeRange {
    pub start: u64,
    pub end: u64,
}

impl TimeRange {
    pub open spec fn spec_contains(&self, t: int) -> bool {
        self.start <= t < self.end
    }

    pub fn contains(&self, t: u64) -> (r: bool)
        ensures
            r == self.spec_contains(t as int),
    {
        self.start <= t && t < self.end
    }
}

/// One slide of the schedule: either a still image held for a duration, or
/// a still phase followed by a cross-fade to the next image.
#[derive(Debug)]
pub enum Transition {
    WithAnimation {
        kind: String,
        duration_static: u64,
        duration_transition: u64,
        time_range: TimeRange,
        from: String,
        to: String,
    },
    WithoutAnimation {
        duration: u64,
        time_range: TimeRange,
        from: String,
    },
}

impl Transition {
    /// Milliseconds of the still phase.
    pub open spec fn spec_duration_static(&self) -> int {
        match self {
            Transition::WithAnimation { duration_static, .. } => *duration_static as int,
            Transition::WithoutAnimation { duration, .. } => *duration as int,
        }
    }

    /// Milliseconds of the cross-fade phase; zero for a still-only slide.
    pub open spec fn spec_duration_transition(&self) -> int {
        match self {
            Transition::WithAnimation { duration_transition, .. } => *duration_transition as int,
            Transition::WithoutAnimation { .. } => 0,
        }
    }

    pub open spec fn spec_time_range(&self) -> TimeRange {
        match self {
            Transition::WithAnimation { time_range, .. } => *time_range,
            Transition::WithoutAnimation { time_range, .. } => *time_range,
        }
    }

    /// A slide is animated exactly when it is the `WithAnimation` variant,
    /// regardless of its transition duration.
    pub open spec fn spec_is_animated(&self) -> bool {
        self is WithAnimation
    }

    pub open spec fn spec_from(&self) -> Seq<char> {
        match self {
            Transition::WithAnimation { from, .. } => from@,
            Transition::WithoutAnimation { from, .. } => from@,
        }
    }

    pub open spec fn spec_to(&self) -> Option<Seq<char>> {
        match self {
            Transition::WithAnimation { to, .. } => Some(to@),
            Transition::WithoutAnimation { .. } => None,
        }
    }

    /// A slide is well formed when its range is exactly as long as its two
    /// phases together.
    pub open spec fn wf(&self) -> bool {
        self.spec_time_range().start + self.spec_duration_static()
            + self.spec_duration_transition() == self.spec_time_range().end
    }

    pub fn duration_static(&self) -> (d: u64)
        ensures
            d as int == self.spec_duration_static(),
    {
        match self {
            Transition::WithAnimation { duration_static, .. } => *duration_static,
            Transition::WithoutAnimation { duration, .. } => *duration,
        }
    }

    pub fn duration_transition(&self) -> (d: u64)
        ensures
            d as int == self.spec_duration_transition(),
    {
        match self {
            Transition::WithAnimation { duration_transition, .. } => *duration_transition,
            Transition::WithoutAnimation { .. } => 0,
        }
    }

    pub fn is_animated(&self) -> (r: bool)
        ensures
            r == self.spec_is_animated(),
    {
        match self {
            Transition::WithAnimation { .. } => true,
            Transition::WithoutAnimation { .. } => false,
        }
    }

    pub fn time_range(&self) -> (r: &TimeRange)
        ensures
            *r == self.spec_time_range(),
    {
        match self {
            Transition::WithAnimation { time_range, .. } => time_range,
            Transition::WithoutAnimation { time_range, .. } => time_range,
        }
    }

    pub fn from(&self) -> (p: &String)
        ensures
            p@ == self.spec_from(),
    {
        match self {
            Transition::WithAnimation { from, .. } => from,
            Transition::WithoutAnimation { from, .. } => from,
        }
    }

    pub fn to(&self) -> (p: Option<&String>)
        ensures
            match p {
                Some(s) => self.spec_to() == Some(s@),
                None => self.spec_to() is None,
            },
    {
        match self {
            Transition::WithAnimation { to, .. } => Some(to),
            Transition::WithoutAnimation { .. } => None,
        }
    }
}

impl Clone for Transition {
    fn clone(&self) -> (r: Self)
        ensures
            r == *self,
    {
        match self {
            Transition::WithAnimation {
                kind,
                duration_static,
                duration_transition,
                time_range,
                from,
                to,
            } => Transition::WithAnimation {
                kind: kind.clone(),
                duration_static: *duration_static,
                duration_transition: *duration_transition,
                time_range: *time_range,
                from: from.clone(),
                to: to.clone(),
            },
            Transition::WithoutAnimation { duration, time_range, from } => {
                Transition::WithoutAnimation {
                    duration: *duration,
                    time_range: *time_range,
                    from: from.clone(),
                }
            },
        }
    }
}

/// What chrono computes for a civil date-time: the milliseconds since the
/// epoch of that local calendar instant, or nothing when the fields name no
/// valid date or time of day.  Pure calendar arithmetic on the fields alone.
pub uninterp spec fn local_epoch_millis(
    year: u32,
    month: u32,
    day: u32,
    hour: u32,
    minute: u32,
    second: u32,
) -> Option<i64>;

/// Relies on chrono's `NaiveDate::from_ymd_opt`, `NaiveDate::and_hms_opt`
/// and `NaiveDateTime::timestamp_millis`: a civil date-time maps to an
/// epoch offset by calendar arithmetic on its fields alone, and the fields
/// are rejected exactly when they name no valid date or time of day.
#[verifier::external_body]
fn to_epoch_millis(year: u32, month: u32, day: u32, hour: u32, minute: u32, second: u32) -> (r:
    Option<i64>)
    ensures
        r == local_epoch_millis(year, month, day, hour, minute, second),
{
    chrono::naive::NaiveDate::from_ymd_opt(year as i32, month, day)
        .and_then(|d| d.and_hms_opt(hour, minute, second))
        .map(|dt| dt.and_utc().timestamp_millis())
}

/// Relies on chrono's `Local::now`: the current local wall clock, read anew
/// on every call; nothing relates two readings.
#[verifier::external_body]
pub fn now_local_millis() -> i64 {
    chrono::Local::now().naive_local().and_utc().timestamp_millis()
}

/// The state shown at one instant: the slide together with the progress, in
/// milliseconds, into its still or cross-fade phase.
#[derive(Debug)]
pub enum AnimationState {
    Static(u64, Transition),
    Transition(u64, Transition),
}

/// A schedule: the anchor instant, the slides, and the total duration that
/// the slides' time ranges tile.
#[derive(Debug)]
pub struct Metadata {
    start_time: i64,
    image_transitions: Vec<Transition>,
    total_duration_millis: u64,
}

/// `s` is a list of well-formed slides whose time ranges tile `[lo, hi)`
/// contiguously, without gaps or overlap.
pub open spec fn tiles(s: Seq<Transition>, lo: int, hi: int) -> bool {
    &&& forall|k: int| 0 <= k < s.len() ==> (#[trigger] s[k]).wf()
    &&& (s.len() == 0 ==> lo == hi)
    &&& (s.len() > 0 ==> s[0].spec_time_range().start == lo
        && s[s.len() - 1].spec_time_range().end == hi)
    &&& forall|k: int| 0 <= k < s.len() - 1 ==> (#[trigger] s[k]).spec_time_range().end
        == s[k + 1].spec_time_range().start
}

impl Metadata {
    pub closed spec fn spec_start_time(&self) -> int {
        self.start_time as int
    }

    pub closed spec fn spec_total(&self) -> int {
        self.total_duration_millis as int
    }

    pub closed spec fn spec_slides(&self) -> Seq<Transition> {
        self.image_transitions@
    }

    /// The schedule invariant: the slides tile `[0, total)`.
    pub open spec fn wf(&self) -> bool {
        tiles(self.spec_slides(), 0, self.spec_total())
    }

    pub fn start_time(&self) -> (t: i64)
        ensures
            t as int == self.spec_start_time(),
    {
        self.start_time
    }

    pub fn total_duration(&self) -> (t: u64)
        ensures
            t as int == self.spec_total(),
    {
        self.total_duration_millis
    }

    pub fn slide_count(&self) -> (n: usize)
        ensures
            n == self.spec_slides().len(),
    {
        self.image_transitions.len()
    }

    pub fn slide(&self, i: usize) -> (s: &Transition)
        requires
            i < self.spec_slides().len(),
        ensures
            *s == self.spec_slides()[i as int],
    {
        &self.image_transitions[i]
    }
}

impl Clone for Metadata {
    fn clone(&self) -> (r: Self)
        ensures
            r.spec_start_time() == self.spec_start_time(),
            r.spec_slides() == self.spec_slides(),
            r.spec_total() == self.spec_total(),
    {
        let mut slides: Vec<Transition> = Vec::new();
        let mut i: usize = 0;
        while i < self.image_transitions.len()
            invariant
                i <= self.image_transitions.len(),
                slides@ == self.image_transitions@.subrange(0, i as int),
            decreases self.image_transitions.len() - i,
        {
            slides.push(self.image_transitions[i].clone());
            proof {
                assert(slides@ =~= self.image_transitions@.subrange(0, i + 1 as int));
            }
            i = i + 1;
        }
        proof {
            assert(slides@ =~= self.image_transitions@);
        }
        Metadata {
            start_time: self.start_time,
            image_transitions: slides,
            total_duration_millis: self.total_duration_millis,
        }
    }
}

/// What the slides built from `entries[i..]` look like when the schedule
/// offset has already advanced to `elapsed`: a still entry becomes one slide,
/// a still entry followed by a transition entry becomes one animated slide,
/// and anything else — or durations past what `u64` offsets can hold — is a
/// parse failure.
pub open spec fn spec_build(entries: Seq<Image>, i: int, elapsed: int) -> Option<Seq<Transition>>
    decreases entries.len() - i,
{
    if i >= entries.len() {
        Some(Seq::empty())
    } else {
        match entries[i] {
            Image::Static { duration_millis, file } => {
                if i + 1 < entries.len() && entries[i + 1] is Transition {
                    match entries[i + 1] {
                        Image::Transition { kind, duration_millis: td, to, .. } => {
                            let end = elapsed + duration_millis + td;
                            if end <= u64::MAX {
                                match spec_build(entries, i + 2, end) {
                                    Some(rest) => Some(
                                        seq![
                                            Transition::WithAnimation {
                                                kind,
                                                duration_static: duration_millis,
                                                duration_transition: td,
                                                time_range: TimeRange {
                                                    start: elapsed as u64,
                                                    end: end as u64,
                                                },
                                                from: file,
                                                to,
                                            },
                                        ] + rest,
                                    ),
                                    None => None,
                                }
                            } else {
                                None
                            }
                        },
                        _ => None,
                    }
                } else {
                    let end = elapsed + duration_millis;
                    if end <= u64::MAX {
                        match spec_build(entries, i + 1, end) {
                            Some(rest) => Some(
                                seq![
                                    Transition::WithoutAnimation {
                                        duration: duration_millis,
                                        time_range: TimeRange {
                                            start: elapsed as u64,
                                            end: end as u64,
                                        },
                                        from: file,
                                    },
                                ] + rest,
                            ),
                            None => None,
                        }
                    } else {
                        None
                    }
                }
            },
            _ => None,
        }
    }
}

/// The offset the schedule has reached after the slides `s`, starting
/// from `lo`.
pub open spec fn built_end(s: Seq<Transition>, lo: int) -> int {
    if s.len() == 0 {
        lo
    } else {
        s[s.len() - 1].spec_time_range().end as int
    }
}

/// Appending a well-formed slide that starts where the tiled prefix ends
/// keeps the tiling, now up to the new slide's end.
proof fn lemma_tiles_snoc(s: Seq<Transition>, lo: int, t: Transition)
    requires
        tiles(s, lo, t.spec_time_range().start as int),
        t.wf(),
    ensures
        tiles(s.push(t), lo, t.spec_time_range().end as int),
{
    let s2 = s.push(t);
    assert forall|k: int| 0 <= k < s2.len() - 1 implies (#[trigger] s2[k]).spec_time_range().end
        == s2[k + 1].spec_time_range().start by {
        if k < s.len() - 1 {
            assert(s2[k] == s[k]);
            assert(s2[k + 1] == s[k + 1]);
        } else {
            assert(s2[k] == s[k]);
            assert(s2[k + 1] == t);
        }
    }
    assert forall|k: int| 0 <= k < s2.len() implies (#[trigger] s2[k]).wf() by {
        if k < s.len() {
            assert(s2[k] == s[k]);
        } else {
            assert(s2[k] == t);
        }
    }
    if s.len() > 0 {
        assert(s2[0] == s[0]);
    }
}

/// Builds schedules: from the entry list of a description document, or the
/// one-slide schedule that a single still image gets.
pub struct MetadataReader {}

impl MetadataReader {
    /// Builds the schedule from the entries of a description document.
    ///
    /// The first entry must be the start-time block; after it, each still
    /// entry — optionally followed by one transition entry — becomes one
    /// slide, laid out contiguously from offset zero.  The resulting
    /// schedule is well formed: its slides tile `[0, total)` exactly.
    pub fn read_entries(entries: Vec<Image>) -> (r: Result<Metadata, MetadataError>)
        ensures
            entries@.len() == 0 ==> r matches Err(MetadataError::InvalidTimeFormat),
            entries@.len() > 0 && !(entries@[0] is StartTime) ==> r matches Err(
                MetadataError::InvalidTime,
            ),
            entries@.len() > 0 ==> (entries@[0] matches Image::StartTime {
                year,
                month,
                day,
                hour,
                minute,
                second,
            } ==> match (
                local_epoch_millis(year, month, day, hour, minute, second),
                spec_build(entries@, 1, 0),
            ) {
                (None, _) => r matches Err(MetadataError::CouldNotParse(_)),
                (Some(_), None) => r matches Err(MetadataError::CouldNotParse(_)),
                (Some(st), Some(s)) => r matches Ok(m) && m.spec_start_time() == st
                    && m.spec_slides() == s && m.spec_total() == built_end(s, 0) && m.wf(),
            }),
    {
        if entries.len() == 0 {
            return Err(MetadataError::InvalidTimeFormat);
        }
        let start_time: i64;
        match &entries[0] {
            Image::StartTime { year, month, day, hour, minute, second } => {
                match to_epoch_millis(*year, *month, *day, *hour, *minute, *second) {
                    Some(t) => {
                        start_time = t;
                    },
                    None => {
                        return Err(
                            MetadataError::CouldNotParse("invalid start time".to_owned()),
                        );
                    },
                }
            },
            _ => {
                return Err(MetadataError::InvalidTime);
            },
        }
        let mut transitions: Vec<Transition> = Vec::new();
        let mut elapsed: u64 = 0;
        let mut i: usize = 1;
        proof {
            assert(spec_build(entries@, 1, 0) matches Some(r0)
                ==> Seq::<Transition>::empty() + r0 =~= r0);
        }
        while i < entries.len()
            invariant
                1 <= i,
                entries@.len() > 0,
                entries@[0] is StartTime,
                (entries@[0] matches Image::StartTime { year, month, day, hour, minute, second }
                    ==> local_epoch_millis(year, month, day, hour, minute, second) == Some(
                    start_time,
                )),
                tiles(transitions@, 0, elapsed as int),
                elapsed as int == built_end(transitions@, 0),
                (match spec_build(entries@, i as int, elapsed as int) {
                    Some(rest) => spec_build(entries@, 1, 0) == Some(transitions@ + rest),
                    None => spec_build(entries@, 1, 0) is None,
                }),
            decreases entries@.len() - i,
        {
            let d: u64;
            let file: String;
            match &entries[i] {
                Image::Static { duration_millis, file: f } => {
                    d = *duration_millis;
                    file = f.clone();
                },
                _ => {
                    return Err(
                        MetadataError::CouldNotParse("expected a still entry".to_owned()),
                    );
                },
            }
            let mut pair: Option<(String, u64, String)> = None;
            if i + 1 < entries.len() {
                match &entries[i + 1] {
                    Image::Transition { kind, duration_millis, to, .. } => {
                        pair = Some((kind.clone(), *duration_millis, to.clone()));
                    },
                    _ => {},
                }
            }
            let ghost old_transitions = transitions@;
            let ghost old_elapsed = elapsed as int;
            match pair {
                Some((kind, td, to_file)) => {
                    let mid = match elapsed.checked_add(d) {
                        Some(x) => x,
                        None => {
                            return Err(
                                MetadataError::CouldNotParse("schedule too long".to_owned()),
                            );
                        },
                    };
                    let end = match mid.checked_add(td) {
                        Some(x) => x,
                        None => {
                            return Err(
                                MetadataError::CouldNotParse("schedule too long".to_owned()),
                            );
                        },
                    };
                    let t = Transition::WithAnimation {
                        kind,
                        duration_static: d,
                        duration_transition: td,
                        time_range: TimeRange { start: elapsed, end },
                        from: file,
                        to: to_file,
                    };
                    proof {
                        lemma_tiles_snoc(transitions@, 0, t);
                        assert(spec_build(entries@, i + 2, end as int) matches Some(rest)
                            ==> old_transitions.push(t) + rest =~= old_transitions + (seq![t]
                            + rest));
                    }
                    transitions.push(t);
                    elapsed = end;
                    i = i + 2;
                },
                None => {
                    let end = match elapsed.checked_add(d) {
                        Some(x) => x,
                        None => {
                            return Err(
                                MetadataError::CouldNotParse("schedule too long".to_owned()),
                            );
                        },
                    };
                    let t = Transition::WithoutAnimation {
                        duration: d,
                        time_range: TimeRange { start: elapsed, end },
                        from: file,
                    };
                    proof {
                        lemma_tiles_snoc(transitions@, 0, t);
                        assert(spec_build(entries@, i + 1, end as int) matches Some(rest)
                            ==> old_transitions.push(t) + rest =~= old_transitions + (seq![t]
                            + rest));
                    }
                    transitions.push(t);
                    elapsed = end;
                    i = i + 1;
                },
            }
        }
        proof {
            assert(transitions@ + Seq::<Transition>::empty() =~= transitions@);
        }
        Ok(
            Metadata {
                start_time,
                image_transitions: transitions,
                total_duration_millis: elapsed,
            },
        )
    }

    /// The schedule for a single still image: anchored at the moment of the
    /// call, one slide of practically infinite duration.
    pub fn static_configuration(path: String) -> (m: Metadata)
        ensures
            m.wf(),
            m.spec_total() == FOREVER_MILLIS,
            m.spec_slides() =~= seq![
                Transition::WithoutAnimation {
                    duration: FOREVER_MILLIS,
                    time_range: TimeRange { start: 0, end: FOREVER_MILLIS },
                    from: path,
                },
            ],
    {
        let now = now_local_millis();
        let mut slides: Vec<Transition> = Vec::new();
        slides.push(
            Transition::WithoutAnimation {
                duration: FOREVER_MILLIS,
                time_range: TimeRange { start: 0, end: FOREVER_MILLIS },
                from: path,
            },
        );
        Metadata {
            start_time: now,
            image_transitions: slides,
            total_duration_millis: FOREVER_MILLIS,
        }
    }
}

/// First index at or after `i` whose slide's range contains offset `d`;
/// `s.len()` when no such slide exists.
pub open spec fn find_from(s: Seq<Transition>, d: int, i: int) -> int
    decreases s.len() - i,
{
    if i < 0 || i >= s.len() {
        s.len() as int
    } else if s[i].spec_time_range().spec_contains(d) {
        i
    } else {
        find_from(s, d, i + 1)
    }
}

impl Metadata {
    /// Offset of the instant `now` into the looping schedule.
    pub open spec fn spec_diff(&self, now: int) -> int
        recommends
            self.spec_total() > 0,
    {
        (now - self.spec_start_time()) % self.spec_total()
    }

    /// Index of the slide shown at the instant `now`.
    pub open spec fn spec_slide_index(&self, now: int) -> int
        recommends
            self.spec_total() > 0,
    {
        find_from(self.spec_slides(), self.spec_diff(now), 0)
    }

    /// The state shown at the instant `now`: the slide whose range contains
    /// the schedule offset, still for the first `duration_static`
    /// milliseconds of the slide, in transition for the remainder.
    pub open spec fn spec_current_at(&self, now: int) -> AnimationState
        recommends
            self.spec_total() > 0,
    {
        let d = self.spec_diff(now);
        let i = self.spec_slide_index(now);
        let s = self.spec_slides()[i];
        let local = d - s.spec_time_range().start;
        if local < s.spec_duration_static() {
            AnimationState::Static(local as u64, s)
        } else {
            AnimationState::Transition((local - s.spec_duration_static()) as u64, s)
        }
    }

    /// In a well-formed schedule every slide ends no later than the total.
    proof fn lemma_end_le_total(&self, i: int)
        requires
            self.wf(),
            0 <= i < self.spec_slides().len(),
        ensures
            self.spec_slides()[i].spec_time_range().end <= self.spec_total(),
        decreases self.spec_slides().len() - i,
    {
        let s = self.spec_slides();
        if i == s.len() - 1 {
        } else {
            assert(s[i].spec_time_range().end == s[i + 1].spec_time_range().start);
            assert(s[i + 1].wf());
            self.lemma_end_le_total(i + 1);
        }
    }

    /// Earlier slides end no later than later slides start.
    proof fn lemma_ranges_ordered(&self, i: int, j: int)
        requires
            self.wf(),
            0 <= i < j < self.spec_slides().len(),
        ensures
            self.spec_slides()[i].spec_time_range().end
                <= self.spec_slides()[j].spec_time_range().start,
        decreases j - i,
    {
        let s = self.spec_slides();
        if j == i + 1 {
        } else {
            assert(s[i + 1].wf());
            self.lemma_ranges_ordered(i + 1, j);
        }
    }

    /// From any slide whose start is at most `d`, the search finds a slide
    /// containing `d`.
    proof fn lemma_find_covers(&self, d: int, i: int)
        requires
            self.wf(),
            self.spec_total() > 0,
            0 <= i < self.spec_slides().len(),
            self.spec_slides()[i].spec_time_range().start <= d < self.spec_total(),
        ensures
            i <= find_from(self.spec_slides(), d, i) < self.spec_slides().len(),
            self.spec_slides()[find_from(self.spec_slides(), d, i)]
                .spec_time_range().spec_contains(d),
        decreases self.spec_slides().len() - i,
    {
        let s = self.spec_slides();
        if s[i].spec_time_range().spec_contains(d) {
        } else {
            assert(s[i].wf());
            assert(d >= s[i].spec_time_range().end);
            assert(i < s.len() - 1) by {
                if i == s.len() - 1 {
                    assert(s[i].spec_time_range().end == self.spec_total());
                }
            }
            assert(s[i].spec_time_range().end == s[i + 1].spec_time_range().start);
            self.lemma_find_covers(d, i + 1);
        }
    }

    /// The search starting anywhere at or before a slide that contains `d`
    /// stops exactly at that slide.
    proof fn lemma_find_reaches(&self, d: int, j: int, i: int)
        requires
            self.wf(),
            0 <= j <= i < self.spec_slides().len(),
            self.spec_slides()[i].spec_time_range().spec_contains(d),
        ensures
            find_from(self.spec_slides(), d, j) == i,
        decreases i - j,
    {
        let s = self.spec_slides();
        if j == i {
        } else {
            self.lemma_ranges_ordered(j, i);
            assert(!s[j].spec_time_range().spec_contains(d));
            self.lemma_find_reaches(d, j + 1, i);
        }
    }

    /// Law: the schedule offset of any instant falls in `[0, total)`, and the
    /// returned state's slide is the one whose time range contains it.
    pub proof fn lemma_current_slide_contains(&self, now: int)
        requires
            self.wf(),
            self.spec_total() > 0,
        ensures
            0 <= self.spec_diff(now) < self.spec_total(),
            0 <= self.spec_slide_index(now) < self.spec_slides().len(),
            (match self.spec_current_at(now) {
                AnimationState::Static(_, s) => s,
                AnimationState::Transition(_, s) => s,
            }).spec_time_range().spec_contains(self.spec_diff(now)),
    {
        vstd::arithmetic::div_mod::lemma_mod_bound(
            now - self.spec_start_time(),
            self.spec_total(),
        );
        let s = self.spec_slides();
        assert(s.len() > 0) by {
            if s.len() == 0 {
                assert(self.spec_total() == 0);
            }
        }
        self.lemma_find_covers(self.spec_diff(now), 0);
    }

    /// Law: every state lies on a slide of the schedule, still states within
    /// the still phase, transition states within the transition phase of an
    /// animated slide.
    pub open spec fn state_on_schedule(&self, st: AnimationState) -> bool {
        match st {
            AnimationState::Static(p, s) => exists|i: int|
                #![auto]
                0 <= i < self.spec_slides().len() && self.spec_slides()[i] == s && p
                    < s.spec_duration_static(),
            AnimationState::Transition(p, s) => exists|i: int|
                #![auto]
                0 <= i < self.spec_slides().len() && self.spec_slides()[i] == s
                    && s.spec_is_animated() && p < s.spec_duration_transition(),
        }
    }

    /// Law: any state the timeline can produce lies on the schedule.
    pub proof fn lemma_current_state_on_schedule(&self, now: int)
        requires
            self.wf(),
            self.spec_total() > 0,
        ensures
            self.state_on_schedule(self.spec_current_at(now)),
    {
        self.lemma_current_slide_contains(now);
        let d = self.spec_diff(now);
        let i = self.spec_slide_index(now);
        let s = self.spec_slides()[i];
        assert(s.wf());
        let local = d - s.spec_time_range().start;
        if local < s.spec_duration_static() {
        } else {
            assert(local < s.spec_duration_static() + s.spec_duration_transition());
            assert(s.spec_duration_transition() > 0);
            assert(s.spec_is_animated());
        }
    }

    /// Computes the state shown at the instant `now` (milliseconds of local
    /// wall-clock time).  Fails with `CurrentFrame` exactly when the
    /// schedule is degenerate (total duration zero); on a well-formed,
    /// non-degenerate schedule it returns precisely `spec_current_at(now)`.
    pub fn current_at(&self, now: i64) -> (r: Result<AnimationState, MetadataError>)
        requires
            self.wf(),
        ensures
            self.spec_total() == 0 ==> r matches Err(MetadataError::CurrentFrame),
            self.spec_total() > 0 ==> (r matches Ok(st) && st == self.spec_current_at(now as int)),
    {
        if self.total_duration_millis == 0 {
            return Err(MetadataError::CurrentFrame);
        }
        let total: i128 = self.total_duration_millis as i128;
        let delta: i128 = now as i128 - self.start_time as i128;
        let ghost dspec = self.spec_diff(now as int);
        proof {
            vstd::arithmetic::div_mod::lemma_mod_bound(delta as int, total as int);
        }
        let diff: u64;
        if delta >= 0 {
            diff = (delta % total) as u64;
        } else {
            let n: i128 = -delta;
            let m: i128 = n % total;
            proof {
                let ni = n as int;
                let ti = total as int;
                let mi = m as int;
                let q = ni / ti;
                vstd::arithmetic::div_mod::lemma_mod_bound(ni, ti);
                vstd::arithmetic::div_mod::lemma_fundamental_div_mod(ni, ti);
                assert(mi == ni % ti);
                assert(ni == ti * q + mi);
                if m == 0 {
                    assert(delta as int == (-q) * ti + 0) by (nonlinear_arith)
                        requires
                            ni == ti * q + mi,
                            mi == 0,
                            delta as int == -ni,
                    ;
                    vstd::arithmetic::div_mod::lemma_fundamental_div_mod_converse_mod(
                        delta as int,
                        ti,
                        -q,
                        0,
                    );
                } else {
                    assert(delta as int == (-q - 1) * ti + (ti - mi)) by (nonlinear_arith)
                        requires
                            ni == ti * q + mi,
                            delta as int == -ni,
                    ;
                    vstd::arithmetic::div_mod::lemma_fundamental_div_mod_converse_mod(
                        delta as int,
                        ti,
                        -q - 1,
                        ti - mi,
                    );
                }
            }
            diff = if m == 0 {
                0
            } else {
                (total - m) as u64
            };
        }
        assert(diff as int == dspec);
        let ghost d = diff as int;
        let mut idx: usize = 0;
        while idx < self.image_transitions.len()
            invariant
                self.wf(),
                self.spec_total() > 0,
                0 <= d < self.spec_total(),
                d == diff as int,
                d == self.spec_diff(now as int),
                idx <= self.spec_slides().len(),
                find_from(self.spec_slides(), d, 0) == find_from(
                    self.spec_slides(),
                    d,
                    idx as int,
                ),
            decreases self.spec_slides().len() - idx,
        {
            let s = &self.image_transitions[idx];
            if s.time_range().contains(diff) {
                proof {
                    self.lemma_find_reaches(d, idx as int, idx as int);
                }
                let start = s.time_range().start;
                let local = diff - start;
                let ds = s.duration_static();
                if local < ds {
                    return Ok(AnimationState::Static(local, s.clone()));
                } else {
                    return Ok(AnimationState::Transition(local - ds, s.clone()));
                }
            }
            idx = idx + 1;
        }
        proof {
            assert(self.spec_slides().len() > 0) by {
                if self.spec_slides().len() == 0 {
                    assert(self.spec_total() == 0);
                }
            }
            self.lemma_find_covers(d, 0);
            assert(false);
        }
        Err(MetadataError::CurrentFrame)
    }

    /// The state shown now, by the local wall clock.  Fails with
    /// `CurrentFrame` exactly when the schedule is degenerate; otherwise the
    /// state lies on the schedule.
    pub fn current(&self) -> (r: Result<AnimationState, MetadataError>)
        requires
            self.wf(),
        ensures
            self.spec_total() == 0 ==> r matches Err(MetadataError::CurrentFrame),
            self.spec_total() > 0 ==> (r matches Ok(st) && self.state_on_schedule(st)),
    {
        let now = now_local_millis();
        let r = self.current_at(now);
        proof {
            if self.spec_total() > 0 {
                self.lemma_current_state_on_schedule(now as int);
            }
        }
        r
    }

    /// Law: at an instant that falls `p` milliseconds into the still phase
    /// of slide `i`, the state is `Static(p)` on exactly that slide.
    pub proof fn lemma_still_phase(&self, i: int, p: int)
        requires
            self.wf(),
            self.spec_total() > 0,
            0 <= i < self.spec_slides().len(),
            0 <= p < self.spec_slides()[i].spec_duration_static(),
        ensures
            self.spec_current_at(
                self.spec_start_time() + self.spec_slides()[i].spec_time_range().start + p,
            ) == AnimationState::Static(p as u64, self.spec_slides()[i]),
    {
        let s = self.spec_slides()[i];
        let rs = s.spec_time_range().start as int;
        let t = self.spec_start_time() + rs + p;
        assert(s.wf());
        self.lemma_end_le_total(i);
        vstd::arithmetic::div_mod::lemma_small_mod((rs + p) as nat, self.spec_total() as nat);
        assert(self.spec_diff(t) == rs + p);
        assert(s.spec_time_range().spec_contains(rs + p));
        self.lemma_find_reaches(rs + p, 0, i);
    }

    /// Law: at an instant that falls `p` milliseconds into slide `i`, where
    /// `p` lies in the transition phase, the state is `Transition` with
    /// progress `p - duration_static`, on exactly that slide.
    pub proof fn lemma_transition_phase(&self, i: int, p: int)
        requires
            self.wf(),
            self.spec_total() > 0,
            0 <= i < self.spec_slides().len(),
            self.spec_slides()[i].spec_duration_static() <= p < self.spec_slides()[
                i
            ].spec_duration_static() + self.spec_slides()[i].spec_duration_transition(),
        ensures
            self.spec_current_at(
                self.spec_start_time() + self.spec_slides()[i].spec_time_range().start + p,
            ) == AnimationState::Transition(
                (p - self.spec_slides()[i].spec_duration_static()) as u64,
                self.spec_slides()[i],
            ),
    {
        let s = self.spec_slides()[i];
        let rs = s.spec_time_range().start as int;
        let t = self.spec_start_time() + rs + p;
        assert(s.wf());
        self.lemma_end_le_total(i);
        vstd::arithmetic::div_mod::lemma_small_mod((rs + p) as nat, self.spec_total() as nat);
        assert(self.spec_diff(t) == rs + p);
        assert(s.spec_time_range().spec_contains(rs + p));
        self.lemma_find_reaches(rs + p, 0, i);
    }

    /// Law: the slides tile `[0, total)` exactly — every offset in range
    /// lies in some slide's range, and in no two distinct slides' ranges.
    pub proof fn lemma_tiling_exact(&self, d: int)
        requires
            self.wf(),
            0 <= d < self.spec_total(),
        ensures
            exists|i: int|
                #![auto]
                0 <= i < self.spec_slides().len() && self.spec_slides()[
                    i
                ].spec_time_range().spec_contains(d),
            forall|i: int, j: int|
                #![auto]
                0 <= i < j < self.spec_slides().len() ==> !(self.spec_slides()[
                    i
                ].spec_time_range().spec_contains(d) && self.spec_slides()[
                    j
                ].spec_time_range().spec_contains(d)),
    {
        let s = self.spec_slides();
        assert(s.len() > 0) by {
            if s.len() == 0 {
                assert(self.spec_total() == 0);
            }
        }
        self.lemma_find_covers(d, 0);
        assert(0 <= find_from(s, d, 0) < s.len() && s[find_from(s, d, 0)]
            .spec_time_range().spec_contains(d));
        assert forall|i: int, j: int|
            0 <= i < j < s.len() implies !((#[trigger] s[i]).spec_time_range().spec_contains(d)
            && (#[trigger] s[j]).spec_time_range().spec_contains(d)) by {
            self.lemma_ranges_ordered(i, j);
        }
    }
}

} // verus!
