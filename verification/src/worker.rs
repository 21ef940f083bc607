//! The single-threaded event core: the worker's state, and the decision it
//! takes for each message of its event stream.
//!
//! The worker owns no GPU or display-server handle here.  For every message
//! it returns the list of actions the surrounding loop must perform —
//! create or destroy a renderer, upload textures, draw at a ratio, spawn or
//! cancel timers, enqueue follow-up messages — and updates its own
//! bookkeeping: the highest refresh rate seen, whether a ticker is
//! outstanding, and which outputs have renderers.

use vstd::prelude::*;

use crate::config::{determine_mode, ApplicationError, Mode};
use crate::image::scaling::{Filter, Scaling};
use crate::messages::{Frac, WorkerMessage};
use crate::metadata::{AnimationState, Metadata, MetadataReader, Transition};
use crate::util::ResourceLoader;
use crate::ScaledMode;

verus! {

/// The most animation steps a single transition is divided into.
pub const MAX_FRAME_UPDATES: u64 = 300;

/// Millihertz per hertz times seconds per millisecond: the divisor that
/// turns a product of milliseconds and millihertz into a frame count.
pub const FRAME_DIVISOR: u64 = 1_000_000;

/// The number of animation steps for a transition of the given length on a
/// display of the given refresh rate: duration times rate, clamped to
/// `[1, MAX_FRAME_UPDATES]`.
pub open spec fn spec_frame_updates(duration_millis: int, fps_mhz: int) -> int {
    let n = duration_millis * fps_mhz / (FRAME_DIVISOR as int);
    if n < 1 {
        1
    } else if n > MAX_FRAME_UPDATES {
        MAX_FRAME_UPDATES as int
    } else {
        n
    }
}

/// Computes [`spec_frame_updates`].
pub fn calc_frame_updates(duration_millis: u64, fps_mhz: u64) -> (n: u64)
    ensures
        n as int == spec_frame_updates(duration_millis as int, fps_mhz as int),
        1 <= n <= MAX_FRAME_UPDATES,
{
    proof {
        assert((duration_millis as int) * (fps_mhz as int) <= 0xffff_ffff_ffff_ffff
            * 0xffff_ffff_ffff_ffff) by (nonlinear_arith)
            requires
                0 <= (duration_millis as int) <= 0xffff_ffff_ffff_ffff,
                0 <= (fps_mhz as int) <= 0xffff_ffff_ffff_ffff,
        ;
    }
    let prod: u128 = (duration_millis as u128) * (fps_mhz as u128);
    let q: u128 = prod / (FRAME_DIVISOR as u128);
    if q < 1 {
        1
    } else if q > MAX_FRAME_UPDATES as u128 {
        MAX_FRAME_UPDATES
    } else {
        q as u64
    }
}

/// One live renderer: the output it belongs to and the pixel geometry of
/// its surface.
#[derive(Debug, Clone, Copy, PartialEq, Eq, Structural)]
pub struct RenderEntry {
    pub id: u32,
    pub resolution: ScaledMode,
}

/// The worker's bookkeeping: the pace of animation, whether a ticker is
/// outstanding, and the renderers by output.
#[derive(Debug)]
pub struct State {
    fps_mhz: u32,
    ticker_active: bool,
    renders: Vec<RenderEntry>,
}

impl State {
    /// The highest refresh rate observed, in millihertz.
    pub closed spec fn spec_fps(&self) -> int {
        self.fps_mhz as int
    }

    pub closed spec fn spec_ticker_active(&self) -> bool {
        self.ticker_active
    }

    pub closed spec fn spec_renders(&self) -> Seq<RenderEntry> {
        self.renders@
    }

    /// Some renderer belongs to the output `id`.
    pub open spec fn spec_has_render(&self, id: u32) -> bool {
        exists|i: int|
            0 <= i < self.spec_renders().len() && (#[trigger] self.spec_renders()[i]).id == id
    }

    /// No two renderers belong to the same output.
    pub open spec fn wf(&self) -> bool {
        forall|i: int, j: int|
            0 <= i < j < self.spec_renders().len() ==> (#[trigger] self.spec_renders()[i]).id != (
            #[trigger] self.spec_renders()[j]).id
    }

    /// A fresh worker: one hertz until an output tells us better, no
    /// ticker, no renderers.
    pub fn new() -> (s: State)
        ensures
            s.wf(),
            s.spec_fps() == 1000,
            !s.spec_ticker_active(),
            s.spec_renders().len() == 0,
    {
        State { fps_mhz: 1000, ticker_active: false, renders: Vec::new() }
    }

    /// Raises the animation pace to the given rate if it is higher.
    pub fn set_fps(&mut self, mhz: u32)
        ensures
            final(self).spec_fps() == if mhz as int > old(self).spec_fps() {
                mhz as int
            } else {
                old(self).spec_fps()
            },
            final(self).spec_ticker_active() == old(self).spec_ticker_active(),
            final(self).spec_renders() == old(self).spec_renders(),
    {
        if mhz > self.fps_mhz {
            self.fps_mhz = mhz;
        }
    }

    pub fn fps_millihertz(&self) -> (f: u32)
        ensures
            f as int == self.spec_fps(),
    {
        self.fps_mhz
    }

    pub fn is_ticker_active(&self) -> (t: bool)
        ensures
            t == self.spec_ticker_active(),
    {
        self.ticker_active
    }

    pub fn render_count(&self) -> (n: usize)
        ensures
            n == self.spec_renders().len(),
    {
        self.renders.len()
    }

    pub fn render_at(&self, i: usize) -> (e: RenderEntry)
        requires
            i < self.spec_renders().len(),
        ensures
            e == self.spec_renders()[i as int],
    {
        self.renders[i]
    }

    /// Whether a renderer exists for the output `id`.
    fn has_render(&self, id: u32) -> (r: bool)
        ensures
            r == self.spec_has_render(id),
    {
        let mut i: usize = 0;
        while i < self.renders.len()
            invariant
                i <= self.renders@.len(),
                forall|j: int| 0 <= j < i ==> (#[trigger] self.renders@[j]).id != id,
            decreases self.renders@.len() - i,
        {
            if self.renders[i].id == id {
                proof {
                    assert(self.spec_renders()[i as int].id == id);
                }
                return true;
            }
            i = i + 1;
        }
        false
    }
}

/// The slide an animation state lies on.
pub open spec fn spec_slide_of(st: AnimationState) -> Transition {
    match st {
        AnimationState::Static(_, t) => t,
        AnimationState::Transition(_, t) => t,
    }
}

/// The scaled-cache key of the slide's source image at one output
/// geometry.
pub open spec fn slide_from_key(t: Transition, m: ScaledMode) -> (Seq<char>, i32, i32) {
    (t.spec_from(), m.width, m.height)
}

/// The scaled-cache key of the slide's target image at one output
/// geometry; for a still-only slide both textures show the source image,
/// so this is the source's key.
pub open spec fn slide_to_key(t: Transition, m: ScaledMode) -> (Seq<char>, i32, i32) {
    match t.spec_to() {
        Some(p) => (p, m.width, m.height),
        None => (t.spec_from(), m.width, m.height),
    }
}

/// An animation state is plausible: its slide is well formed and the
/// progress lies within the phase it names.
pub open spec fn state_wf(st: AnimationState) -> bool {
    match st {
        AnimationState::Static(p, t) => t.wf() && p <= t.spec_duration_static(),
        AnimationState::Transition(p, t) => t.wf() && p < t.spec_duration_transition(),
    }
}

/// A timer the surrounding loop must spawn.
#[derive(Debug)]
pub enum TimerRequest {
    /// After `delay_millis`, post `message` unless cancelled.
    Simple { delay_millis: u64, message: WorkerMessage },
    /// Post `AnimationStep(i / count)` for `i = offset ..= count`, one
    /// message per `step_millis`, unless cancelled.
    Ticker { step_millis: u64, count: u64, offset: u64 },
}

/// What one output must do for the current animation state: the ratio to
/// draw, the timer to spawn if none is outstanding, and the ticker flag
/// afterwards.
#[derive(Debug)]
pub struct DrawPlan {
    pub ratio: Frac,
    pub timer: Option<TimerRequest>,
    pub ticker_active: bool,
}

/// What [`state_draw`] decides.
///
/// In a still phase the ratio is zero, and — when no ticker is outstanding
/// — a simple timer covers the rest of the still phase, firing the start of
/// the transition for an animated slide and a plain refresh for a
/// still-only one.  In a transition phase the remaining steps are counted
/// out of [`spec_frame_updates`] steps, the ratio is the steps already
/// finished over the count, and — when no ticker is outstanding — a ticker
/// continues from the finished step.  The step length is rounded down, so
/// late in a transition the raw quotient can pass the count; it is capped
/// there, keeping the ratio within one and the ticker offset within its
/// count.  Either way a ticker is outstanding afterwards.
pub open spec fn spec_state_draw(st: AnimationState, ticker_active: bool, fps_mhz: int) -> DrawPlan {
    match st {
        AnimationState::Static(p, t) => DrawPlan {
            ratio: Frac { num: 0, den: 1 },
            timer: if !ticker_active {
                Some(
                    TimerRequest::Simple {
                        delay_millis: (t.spec_duration_static() - p) as u64,
                        message: if t.spec_is_animated() {
                            WorkerMessage::AnimationStart(t.spec_duration_transition() as u64)
                        } else {
                            WorkerMessage::Refresh
                        },
                    },
                )
            } else {
                None
            },
            ticker_active: true,
        },
        AnimationState::Transition(p, t) => {
            let count = spec_frame_updates(t.spec_duration_transition(), fps_mhz);
            let step = t.spec_duration_transition() / count;
            let raw = if step == 0 {
                0
            } else {
                p as int / step
            };
            let finished = if raw > count {
                count
            } else {
                raw
            };
            DrawPlan {
                ratio: Frac { num: finished as u64, den: count as u64 },
                timer: if !ticker_active {
                    Some(
                        TimerRequest::Ticker {
                            step_millis: step as u64,
                            count: count as u64,
                            offset: finished as u64,
                        },
                    )
                } else {
                    None
                },
                ticker_active: true,
            }
        },
    }
}

/// Decides what to draw and which timer to spawn for one output; exactly
/// [`spec_state_draw`].
pub fn state_draw(st: &AnimationState, ticker_active: bool, fps_mhz: u64) -> (p: DrawPlan)
    requires
        state_wf(*st),
    ensures
        p == spec_state_draw(*st, ticker_active, fps_mhz as int),
        p.ticker_active,
        p.ratio.num <= p.ratio.den,
        1 <= p.ratio.den,
        (p.timer matches Some(TimerRequest::Ticker { count, offset, .. }) ==> offset <= count && 1
            <= count),
{
    match st {
        AnimationState::Static(progress, t) => {
            let timer: Option<TimerRequest> = if !ticker_active {
                let delay = t.duration_static() - *progress;
                let message = if t.is_animated() {
                    WorkerMessage::AnimationStart(t.duration_transition())
                } else {
                    WorkerMessage::Refresh
                };
                Some(TimerRequest::Simple { delay_millis: delay, message })
            } else {
                None
            };
            DrawPlan { ratio: Frac { num: 0, den: 1 }, timer, ticker_active: true }
        },
        AnimationState::Transition(progress, t) => {
            let dt = t.duration_transition();
            let count = calc_frame_updates(dt, fps_mhz);
            let step = dt / count;
            let raw: u64 = if step == 0 {
                0
            } else {
                *progress / step
            };
            let finished: u64 = if raw > count {
                count
            } else {
                raw
            };
            let timer: Option<TimerRequest> = if !ticker_active {
                Some(TimerRequest::Ticker { step_millis: step, count, offset: finished })
            } else {
                None
            };
            DrawPlan { ratio: Frac { num: finished, den: count }, timer, ticker_active: true }
        },
    }
}

/// The two texture buffers uploaded to one renderer: the image faded from
/// and the image faded to.  For a still-only slide both are the same
/// pixels.
#[derive(Debug)]
pub struct TexturePair {
    pub from: Vec<u8>,
    pub to: Vec<u8>,
}

/// Loads the current slide's textures for one output geometry through the
/// cache: the `from` image always, the `to` image when the slide is
/// animated, the `from` bytes again otherwise.
///
/// On success the scaled cache holds both textures under the slide's two
/// keys for this geometry, mapping each to the bytes returned.  When both
/// keys were already cached, success is owed, the caches are left exactly
/// as they were, and the textures are the cached bytes.
pub fn refresh_output(
    resources: &mut ResourceLoader,
    st: &AnimationState,
    scaled_mode: &ScaledMode,
    scaling: Scaling,
    filter: Filter,
) -> (r: Result<TexturePair, ApplicationError>)
    requires
        old(resources).wf(),
    ensures
        final(resources).wf(),
        r matches Ok(tp) ==> tp.from@.len() == 3 * scaled_mode.width * scaled_mode.height
            && tp.to@.len() == 3 * scaled_mode.width * scaled_mode.height,
        r matches Ok(tp) ==> (!spec_slide_of(*st).spec_is_animated() ==> tp.to@ == tp.from@),
        r is Err ==> r matches Err(ApplicationError::ErrorWhileImageProcessing(_)),
        r matches Ok(tp) ==> final(resources).spec_scaled().contains_pair(
            slide_from_key(spec_slide_of(*st), *scaled_mode),
            tp.from@,
        ) && final(resources).spec_scaled().contains_pair(
            slide_to_key(spec_slide_of(*st), *scaled_mode),
            tp.to@,
        ),
        (old(resources).spec_scaled().dom().contains(
            slide_from_key(spec_slide_of(*st), *scaled_mode),
        ) && old(resources).spec_scaled().dom().contains(
            slide_to_key(spec_slide_of(*st), *scaled_mode),
        )) ==> (r matches Ok(tp) && final(resources).spec_scaled() == old(resources).spec_scaled() && final(resources).spec_images() == old(resources).spec_images()
            && tp.from@ == old(resources).spec_scaled()[slide_from_key(
            spec_slide_of(*st),
            *scaled_mode,
        )] && tp.to@ == old(resources).spec_scaled()[slide_to_key(
            spec_slide_of(*st),
            *scaled_mode,
        )]),
{
    let transition = match st {
        AnimationState::Static(_, t) => t,
        AnimationState::Transition(_, t) => t,
    };
    let from = match resources.load(transition.from(), scaled_mode, scaling, filter) {
        Ok(b) => b,
        Err(e) => {
            return Err(ApplicationError::ErrorWhileImageProcessing(e));
        },
    };
    if transition.is_animated() {
        let to_path = match transition.to() {
            Some(p) => p,
            None => {
                proof {
                    assert(false);
                }
                return Err(
                    ApplicationError::ErrorWhileImageProcessing(
                        crate::image::error::ImageError::Generic(
                            "animated slide without a target image".to_owned(),
                        ),
                    ),
                );
            },
        };
        let to = match resources.load(to_path, scaled_mode, scaling, filter) {
            Ok(b) => b,
            Err(e) => {
                return Err(ApplicationError::ErrorWhileImageProcessing(e));
            },
        };
        Ok(TexturePair { from, to })
    } else {
        let to = clone_buffer(&from);
        Ok(TexturePair { from, to })
    }
}

/// A byte-for-byte copy of a pixel buffer.
fn clone_buffer(v: &Vec<u8>) -> (r: Vec<u8>)
    ensures
        r@ == v@,
{
    let mut r: Vec<u8> = Vec::new();
    let mut i: usize = 0;
    while i < v.len()
        invariant
            i <= v@.len(),
            r@ == v@.subrange(0, i as int),
        decreases v@.len() - i,
    {
        r.push(v[i]);
        proof {
            assert(r@ =~= v@.subrange(0, i + 1 as int));
        }
        i = i + 1;
    }
    proof {
        assert(r@ =~= v@);
    }
    r
}


/// Everything the surrounding loop must perform after one message: GPU and
/// display-server work, timer threads, and follow-up messages.
#[derive(Debug)]
pub enum Action {
    /// Construct a renderer for this output; report back with
    /// [`output_ready`] once the surface is configured.
    CreateRenderer(u32),
    /// Destroy the renderer of this output: display-server surface first,
    /// then GPU surface, then GPU context.
    DestroyRenderer(u32),
    /// Upload the two textures to this output's renderer.
    UploadTextures(u32, TexturePair, ScaledMode),
    /// Draw this output at the given ratio, eased quad-in-out.
    Draw(u32, Frac),
    /// Spawn the requested timer thread.
    SpawnTimer(TimerRequest),
    /// Signal all outstanding timers to stop, and drain residual signals.
    CancelTimers,
    /// Post this message back into the worker's own queue.
    Enqueue(WorkerMessage),
    /// Read and parse the schedule description at this path and store it as
    /// the current schedule.
    LoadSchedule(String),
}

/// The reconfigurable part of the engine: how images are fitted and
/// filtered, and the schedule being shown.
#[derive(Debug)]
pub struct RenderConfig {
    pub scaling: Scaling,
    pub filter: Filter,
    pub metadata: Metadata,
}

/// Any state the timeline produces on a well-formed, non-degenerate
/// schedule is plausible.
proof fn lemma_current_state_wf(m: &Metadata, now: int)
    requires
        m.wf(),
        m.spec_total() > 0,
    ensures
        state_wf(m.spec_current_at(now)),
{
    m.lemma_current_state_on_schedule(now);
    let st = m.spec_current_at(now);
    match st {
        AnimationState::Static(p, t) => {
            let i = choose|i: int|
                #![auto]
                0 <= i < m.spec_slides().len() && m.spec_slides()[i] == t && p
                    < t.spec_duration_static();
            assert(m.spec_slides()[i].wf());
        },
        AnimationState::Transition(p, t) => {
            let i = choose|i: int|
                #![auto]
                0 <= i < m.spec_slides().len() && m.spec_slides()[i] == t
                    && t.spec_is_animated() && p < t.spec_duration_transition();
            assert(m.spec_slides()[i].wf());
        },
    }
}

/// The action is an upload of textures to the renderer of output `id` at
/// geometry `m`.
pub open spec fn is_upload_for(a: Action, id: u32, m: ScaledMode) -> bool {
    a matches Action::UploadTextures(id2, _, m2) && id2 == id && m2 == m
}

/// The ratio every output draws on a refresh at instant `now`.
pub open spec fn spec_refresh_ratio(meta: Metadata, now: int, fps: int) -> Frac {
    spec_state_draw(meta.spec_current_at(now), true, fps).ratio
}

/// Registers a freshly constructed renderer and paints its first frame:
/// loads the current slide's textures for its geometry, draws the current
/// ratio, and schedules the next timer if none is outstanding.
#[verifier::loop_isolation(false)]
pub fn output_ready(
    state: &mut State,
    resources: &mut ResourceLoader,
    config: &RenderConfig,
    id: u32,
    resolution: ScaledMode,
    now_millis: i64,
) -> (r: Result<Vec<Action>, ApplicationError>)
    requires
        old(state).wf(),
        !old(state).spec_has_render(id),
        old(resources).wf(),
        config.metadata.wf(),
    ensures
        final(state).wf(),
        final(resources).wf(),
        final(state).spec_fps() == old(state).spec_fps(),
        config.metadata.spec_total() == 0 ==> r matches Err(ApplicationError::MetadataError(_)),
        r is Err ==> final(state).spec_renders() == old(state).spec_renders()
            && final(state).spec_ticker_active() == old(state).spec_ticker_active(),
        r matches Ok(acts) ==> {
            &&& final(state).spec_renders() == old(state).spec_renders().push(
                RenderEntry { id, resolution },
            )
            &&& final(state).spec_ticker_active()
            &&& acts@.len() == if spec_state_draw(
                config.metadata.spec_current_at(now_millis as int),
                old(state).spec_ticker_active(),
                old(state).spec_fps(),
            ).timer is Some {
                3int
            } else {
                2int
            }
            &&& acts@[0] matches Action::UploadTextures(id2, _, m2) && id2 == id && m2
                == resolution
            &&& (acts@[0] matches Action::UploadTextures(_, tp, m3) ==> final(resources).spec_scaled().contains_pair(
                slide_from_key(
                    spec_slide_of(config.metadata.spec_current_at(now_millis as int)),
                    m3,
                ),
                tp.from@,
            ) && final(resources).spec_scaled().contains_pair(
                slide_to_key(
                    spec_slide_of(config.metadata.spec_current_at(now_millis as int)),
                    m3,
                ),
                tp.to@,
            ))
            &&& acts@[1] == Action::Draw(
                id,
                spec_refresh_ratio(config.metadata, now_millis as int, old(state).spec_fps()),
            )
        },
{
    let st = match config.metadata.current_at(now_millis) {
        Ok(s) => s,
        Err(e) => {
            return Err(ApplicationError::MetadataError(e));
        },
    };
    proof {
        lemma_current_state_wf(&config.metadata, now_millis as int);
    }
    let tp = match refresh_output(resources, &st, &resolution, config.scaling, config.filter) {
        Ok(t) => t,
        Err(e) => {
            return Err(e);
        },
    };
    let mut acts: Vec<Action> = Vec::new();
    acts.push(Action::UploadTextures(id, tp, resolution));
    let plan = state_draw(&st, state.ticker_active, state.fps_mhz as u64);
    acts.push(Action::Draw(id, plan.ratio));
    match plan.timer {
        Some(t) => {
            acts.push(Action::SpawnTimer(t));
        },
        None => {},
    }
    state.ticker_active = true;
    let ghost old_renders = state.renders@;
    state.renders.push(RenderEntry { id, resolution });
    proof {
        assert(old_renders == old(state).spec_renders());
        assert forall|i: int, j: int|
            0 <= i < j < state.renders@.len() implies (#[trigger] state.renders@[i]).id != (
        #[trigger] state.renders@[j]).id by {
            if j < old_renders.len() {
                assert(state.renders@[i] == old_renders[i]);
                assert(state.renders@[j] == old_renders[j]);
            } else {
                assert(state.renders@[j] == (RenderEntry { id, resolution }));
                assert(state.renders@[i] == old_renders[i]);
                if old_renders[i].id == id {
                    assert((old(state).spec_renders()[i]).id == id);
                    assert(old(state).spec_has_render(id));
                    assert(false);
                }
            }
        }
    }
    Ok(acts)
}

/// Every renderer's two texture keys for the slide are already in the
/// scaled cache.
pub open spec fn refresh_fully_cached(
    scaled: Map<(Seq<char>, i32, i32), Seq<u8>>,
    t: Transition,
    renders: Seq<RenderEntry>,
) -> bool {
    forall|j: int|
        0 <= j < renders.len() ==> scaled.dom().contains(
            slide_from_key(t, (#[trigger] renders[j]).resolution),
        ) && scaled.dom().contains(slide_to_key(t, renders[j].resolution))
}

/// The action uploads exactly the bytes `scaled` holds for the slide's two
/// keys at the action's own geometry.
pub open spec fn is_upload_cached(
    a: Action,
    scaled: Map<(Seq<char>, i32, i32), Seq<u8>>,
    t: Transition,
) -> bool {
    a matches Action::UploadTextures(_, tp, m) && tp.from@ == scaled[slide_from_key(t, m)]
        && tp.to@ == scaled[slide_to_key(t, m)]
}

/// The loader's three observable parts are unchanged.
pub open spec fn resources_unchanged(pre: ResourceLoader, post: ResourceLoader) -> bool {
    &&& post.spec_images() == pre.spec_images()
    &&& post.spec_scaled() == pre.spec_scaled()
    &&& post.spec_scaled_front() == pre.spec_scaled_front()
}

/// The loader's two maps are unchanged; the recency order may have moved.
pub open spec fn resources_maps_unchanged(pre: ResourceLoader, post: ResourceLoader) -> bool {
    &&& post.spec_images() == pre.spec_images()
    &&& post.spec_scaled() == pre.spec_scaled()
}

/// Handles exactly one message of the worker's event stream and returns the
/// actions the surrounding loop must perform.
///
/// A re-advertised output is replayed as a removal followed by an addition;
/// a new output raises the animation pace to its refresh rate and asks for
/// a renderer.  A removal destroys the renderer.  An animation step draws
/// every output at the step's ratio and queues a refresh once the ratio
/// reaches one.  An animation start spawns a fresh ticker over the whole
/// transition.  A refresh cancels all timers, re-samples the timeline, and
/// re-uploads and redraws every output, scheduling exactly one follow-up
/// timer.  A reconfiguration updates the fitting mode, the filter and the
/// schedule, then queues a refresh; a message whose path cannot be typed is
/// dropped.
#[verifier::loop_isolation(false)]
#[verifier::rlimit(60)]
pub fn work_step(
    state: &mut State,
    resources: &mut ResourceLoader,
    config: &mut RenderConfig,
    msg: WorkerMessage,
    now_millis: i64,
) -> (r: Result<Vec<Action>, ApplicationError>)
    requires
        old(state).wf(),
        old(resources).wf(),
        old(config).metadata.wf(),
    ensures
        final(state).wf(),
        final(resources).wf(),
        final(config).metadata.wf(),
        match msg {
            WorkerMessage::AddOutput(output, id) => {
                &&& resources_unchanged(*old(resources), *final(resources))
                &&& final(state).spec_renders() == old(state).spec_renders()
                &&& final(state).spec_ticker_active() == old(state).spec_ticker_active()
                &&& *final(config) == *old(config)
                &&& r matches Ok(acts)
                &&& (if old(state).spec_has_render(id) {
                    final(state).spec_fps() == old(state).spec_fps() && (r matches Ok(acts)
                        ==> acts@ == seq![
                        Action::Enqueue(WorkerMessage::RemoveOutput(id)),
                        Action::Enqueue(WorkerMessage::AddOutput(output, id)),
                    ])
                } else {
                    (r matches Ok(acts) ==> acts@ == seq![Action::CreateRenderer(id)]) && final(state).spec_fps() == (match output.spec_mode() {
                        Some(m) => if m.refresh > old(state).spec_fps() {
                            m.refresh as int
                        } else {
                            old(state).spec_fps()
                        },
                        None => old(state).spec_fps(),
                    })
                })
            },
            WorkerMessage::RemoveOutput(id) => {
                &&& resources_unchanged(*old(resources), *final(resources))
                &&& final(state).spec_ticker_active() == old(state).spec_ticker_active()
                &&& final(state).spec_fps() == old(state).spec_fps()
                &&& *final(config) == *old(config)
                &&& (if old(state).spec_has_render(id) {
                    (exists|i: int|
                        0 <= i < old(state).spec_renders().len() && (#[trigger] old(state).spec_renders()[i]).id == id && final(state).spec_renders() == old(state).spec_renders().remove(i)) && (r matches Ok(acts) && acts@ == seq![
                        Action::DestroyRenderer(id),
                    ])
                } else {
                    final(state).spec_renders() == old(state).spec_renders() && (r matches Ok(
                        acts,
                    ) && acts@.len() == 0)
                })
            },
            WorkerMessage::AnimationStep(f) => {
                &&& resources_unchanged(*old(resources), *final(resources))
                &&& final(state).spec_renders() == old(state).spec_renders()
                &&& final(state).spec_ticker_active() == old(state).spec_ticker_active()
                &&& final(state).spec_fps() == old(state).spec_fps()
                &&& *final(config) == *old(config)
                &&& r matches Ok(acts)
                &&& (r matches Ok(acts) ==> {
                    &&& acts@.len() == old(state).spec_renders().len() + (if f.spec_done() {
                        1int
                    } else {
                        0int
                    })
                    &&& forall|j: int|
                        0 <= j < old(state).spec_renders().len() ==> acts@[j] == Action::Draw(
                            (#[trigger] old(state).spec_renders()[j]).id,
                            f,
                        )
                    &&& f.spec_done() ==> acts@[old(state).spec_renders().len() as int]
                        == Action::Enqueue(WorkerMessage::Refresh)
                })
            },
            WorkerMessage::AnimationStart(d) => {
                &&& resources_unchanged(*old(resources), *final(resources))
                &&& final(state).spec_renders() == old(state).spec_renders()
                &&& final(state).spec_ticker_active() == old(state).spec_ticker_active()
                &&& final(state).spec_fps() == old(state).spec_fps()
                &&& *final(config) == *old(config)
                &&& r matches Ok(acts)
                &&& (r matches Ok(acts) ==> acts@ == seq![
                    Action::SpawnTimer(
                        TimerRequest::Ticker {
                            step_millis: (d as int / spec_frame_updates(
                                d as int,
                                old(state).spec_fps(),
                            )) as u64,
                            count: spec_frame_updates(d as int, old(state).spec_fps()) as u64,
                            offset: 0,
                        },
                    ),
                ])
            },
            WorkerMessage::Refresh => {
                &&& final(state).spec_renders() == old(state).spec_renders()
                &&& final(state).spec_fps() == old(state).spec_fps()
                &&& *final(config) == *old(config)
                &&& (old(config).metadata.spec_total() == 0 ==> r matches Err(
                    ApplicationError::MetadataError(_),
                ))
                &&& (r is Err ==> !final(state).spec_ticker_active())
                &&& (r matches Ok(acts) ==> {
                    &&& final(state).spec_ticker_active() == (old(state).spec_renders().len() > 0)
                    &&& acts@.len() == (if old(state).spec_renders().len() > 0 {
                        2 + 2 * old(state).spec_renders().len() as int
                    } else {
                        1int
                    })
                    &&& acts@[0] is CancelTimers
                    &&& forall|j: int|
                        0 <= j < old(state).spec_renders().len() ==> acts@[2 + 2 * j]
                            == Action::Draw(
                            (#[trigger] old(state).spec_renders()[j]).id,
                            spec_refresh_ratio(
                                old(config).metadata,
                                now_millis as int,
                                old(state).spec_fps(),
                            ),
                        )
                    &&& forall|j: int|
                        0 <= j < old(state).spec_renders().len() ==> is_upload_for(
                            acts@[1 + 2 * j],
                            (#[trigger] old(state).spec_renders()[j]).id,
                            old(state).spec_renders()[j].resolution,
                        )
                    &&& old(state).spec_renders().len() > 0 ==> (spec_state_draw(
                        old(config).metadata.spec_current_at(now_millis as int),
                        false,
                        old(state).spec_fps(),
                    ).timer matches Some(t) && acts@[acts@.len() - 1] == Action::SpawnTimer(t))
                    &&& old(state).spec_renders().len() > 0 ==> (acts@[1 + 2 * (old(state).spec_renders().len() - 1)] matches Action::UploadTextures(_, tp, m) && {
                        let t = spec_slide_of(
                            old(config).metadata.spec_current_at(now_millis as int),
                        );
                        final(resources).spec_scaled().contains_pair(
                            slide_from_key(t, m),
                            tp.from@,
                        ) && final(resources).spec_scaled().contains_pair(
                            slide_to_key(t, m),
                            tp.to@,
                        )
                    })
                    &&& refresh_fully_cached(
                        old(resources).spec_scaled(),
                        spec_slide_of(old(config).metadata.spec_current_at(now_millis as int)),
                        old(state).spec_renders(),
                    ) ==> (resources_maps_unchanged(*old(resources), *final(resources))
                        && forall|j: int|
                        0 <= j < old(state).spec_renders().len() ==> is_upload_cached(
                            #[trigger] acts@[1 + 2 * j],
                            old(resources).spec_scaled(),
                            spec_slide_of(old(config).metadata.spec_current_at(now_millis as int)),
                        ))
                })
                &&& ((old(config).metadata.spec_total() > 0 && old(state).spec_renders().len() == 0) ==> r is Ok)
                &&& ((old(config).metadata.spec_total() > 0 && refresh_fully_cached(
                    old(resources).spec_scaled(),
                    spec_slide_of(old(config).metadata.spec_current_at(now_millis as int)),
                    old(state).spec_renders(),
                )) ==> r is Ok)
            },
            WorkerMessage::IPCConfigUpdate(m) => {
                &&& resources_unchanged(*old(resources), *final(resources))
                &&& final(state).spec_renders() == old(state).spec_renders()
                &&& final(state).spec_ticker_active() == old(state).spec_ticker_active()
                &&& final(state).spec_fps() == old(state).spec_fps()
                &&& r matches Ok(acts)
                &&& (r matches Ok(acts) ==> match crate::config::spec_determine_mode(
                    vstd::utf8::encode_utf8(m.path@),
                    m.mode,
                ) {
                    None => acts@.len() == 0 && *final(config) == *old(config),
                    Some(crate::config::Mode::Static) => {
                        &&& acts@ == seq![Action::Enqueue(WorkerMessage::Refresh)]
                        &&& final(config).scaling == (match m.scaling {
                            Some(sc) => sc,
                            None => old(config).scaling,
                        })
                        &&& final(config).filter == (match m.filter {
                            Some(fl) => fl,
                            None => old(config).filter,
                        })
                        &&& final(config).metadata.spec_total()
                            == crate::metadata::FOREVER_MILLIS
                        &&& final(config).metadata.spec_slides().len() == 1
                        &&& final(config).metadata.spec_slides()[0].spec_from() == m.path@
                        &&& !final(config).metadata.spec_slides()[0].spec_is_animated()
                    },
                    Some(crate::config::Mode::Dynamic) => {
                        &&& acts@ == seq![
                            Action::LoadSchedule(m.path),
                            Action::Enqueue(WorkerMessage::Refresh),
                        ]
                        &&& final(config).scaling == (match m.scaling {
                            Some(sc) => sc,
                            None => old(config).scaling,
                        })
                        &&& final(config).filter == (match m.filter {
                            Some(fl) => fl,
                            None => old(config).filter,
                        })
                        &&& final(config).metadata == old(config).metadata
                    },
                })
            },
        },
{
    match msg {
        WorkerMessage::AddOutput(output, id) => {
            if state.has_render(id) {
                let ghost outg = output;
                let acts: Vec<Action> = vec![
                    Action::Enqueue(WorkerMessage::RemoveOutput(id)),
                    Action::Enqueue(WorkerMessage::AddOutput(output, id)),
                ];
                proof {
                    assert(acts@ =~= seq![
                        Action::Enqueue(WorkerMessage::RemoveOutput(id)),
                        Action::Enqueue(WorkerMessage::AddOutput(outg, id)),
                    ]);
                }
                Ok(acts)
            } else {
                match output.refresh_rate() {
                    Some(rate) => {
                        if rate > 0 {
                            state.set_fps(rate as u32);
                        } else {
                        }
                    },
                    None => {},
                }
                proof {
                    match output.spec_mode() {
                        Some(mo) => {
                            if mo.refresh > old(state).spec_fps() {
                                assert(mo.refresh > 0);
                            }
                        },
                        None => {},
                    }
                }
                let acts: Vec<Action> = vec![Action::CreateRenderer(id)];
                proof {
                    assert(acts@ =~= seq![Action::CreateRenderer(id)]);
                }
                Ok(acts)
            }
        },
        WorkerMessage::RemoveOutput(id) => {
            let mut i: usize = 0;
            let n = state.renders.len();
            while i < n
                invariant
                    i <= n,
                    state.renders@ == old(state).spec_renders(),
                    n == state.renders@.len(),
                    state.spec_fps() == old(state).spec_fps(),
                    state.spec_ticker_active() == old(state).spec_ticker_active(),
                    forall|j: int| 0 <= j < i ==> (#[trigger] state.renders@[j]).id != id,
                decreases n - i,
            {
                if state.renders[i].id == id {
                    let ghost old_renders = state.renders@;
                    state.renders.remove(i);
                    proof {
                        assert(state.renders@ == old_renders.remove(i as int));
                        assert(old_renders[i as int].id == id);
                        assert forall|a: int, b: int|
                            0 <= a < b < state.renders@.len() implies (#[trigger] state
                            .renders@[a]).id != (#[trigger] state.renders@[b]).id by {
                            if a < i && b < i {
                            } else if a < i {
                                assert(state.renders@[b] == old_renders[b + 1]);
                            } else {
                                assert(state.renders@[a] == old_renders[a + 1]);
                                assert(state.renders@[b] == old_renders[b + 1]);
                            }
                        }
                    }
                    let acts: Vec<Action> = vec![Action::DestroyRenderer(id)];
                    return Ok(acts);
                }
                i = i + 1;
            }
            Ok(Vec::new())
        },
        WorkerMessage::AnimationStep(f) => {
            let mut acts: Vec<Action> = Vec::new();
            let n = state.renders.len();
            let mut k: usize = 0;
            while k < n
                invariant
                    k <= n,
                    acts@.len() == k,
                    forall|j: int|
                        0 <= j < k ==> acts@[j] == Action::Draw(
                            (#[trigger] state.renders@[j]).id,
                            f,
                        ),
                decreases n - k,
            {
                acts.push(Action::Draw(state.renders[k].id, f));
                k = k + 1;
            }
            if f.done() {
                acts.push(Action::Enqueue(WorkerMessage::Refresh));
            }
            Ok(acts)
        },
        WorkerMessage::AnimationStart(d) => {
            let count = calc_frame_updates(d, state.fps_mhz as u64);
            let step = d / count;
            let acts: Vec<Action> = vec![
                Action::SpawnTimer(TimerRequest::Ticker { step_millis: step, count, offset: 0 }),
            ];
            Ok(acts)
        },
        WorkerMessage::Refresh => {
            state.ticker_active = false;
            let st = match config.metadata.current_at(now_millis) {
                Ok(s) => s,
                Err(e) => {
                    return Err(ApplicationError::MetadataError(e));
                },
            };
            proof {
                lemma_current_state_wf(&config.metadata, now_millis as int);
            }
            let ghost slide = spec_slide_of(
                config.metadata.spec_current_at(now_millis as int),
            );
            let mut acts: Vec<Action> = Vec::new();
            acts.push(Action::CancelTimers);
            let n = state.renders.len();
            let fps = state.fps_mhz as u64;
            let mut k: usize = 0;
            while k < n
                invariant
                    k <= n,
                    resources.wf(),
                    acts@.len() == 1 + 2 * k,
                    acts@[0] is CancelTimers,
                    forall|j: int|
                        0 <= j < k ==> acts@[2 + 2 * j] == Action::Draw(
                            (#[trigger] state.renders@[j]).id,
                            spec_refresh_ratio(
                                config.metadata,
                                now_millis as int,
                                old(state).spec_fps(),
                            ),
                        ),
                    forall|j: int|
                        0 <= j < k ==> is_upload_for(
                            acts@[1 + 2 * j],
                            (#[trigger] state.renders@[j]).id,
                            state.renders@[j].resolution,
                        ),
                    k > 0 ==> (acts@[1 + 2 * (k - 1)] matches Action::UploadTextures(
                        _,
                        tp,
                        m,
                    ) && resources.spec_scaled().contains_pair(slide_from_key(slide, m), tp.from@)
                        && resources.spec_scaled().contains_pair(slide_to_key(slide, m), tp.to@)),
                    refresh_fully_cached(
                        old(resources).spec_scaled(),
                        slide,
                        old(state).spec_renders(),
                    ) ==> (resources_maps_unchanged(*old(resources), *resources) && forall|j: int|
                        0 <= j < k ==> is_upload_cached(
                            #[trigger] acts@[1 + 2 * j],
                            old(resources).spec_scaled(),
                            slide,
                        )),
                decreases n - k,
            {
                let entry = state.renders[k];
                proof {
                    if refresh_fully_cached(
                        old(resources).spec_scaled(),
                        slide,
                        old(state).spec_renders(),
                    ) {
                        assert(spec_slide_of(st) == slide);
                        assert((#[trigger] old(state).spec_renders()[k as int]).resolution
                            == entry.resolution);
                        assert(old(resources).spec_scaled().dom().contains(
                            slide_from_key(slide, entry.resolution),
                        ));
                        assert(old(resources).spec_scaled().dom().contains(
                            slide_to_key(slide, entry.resolution),
                        ));
                    }
                }
                let tp = match refresh_output(
                    resources,
                    &st,
                    &entry.resolution,
                    config.scaling,
                    config.filter,
                ) {
                    Ok(t) => t,
                    Err(e) => {
                        proof {
                            if refresh_fully_cached(
                                old(resources).spec_scaled(),
                                slide,
                                old(state).spec_renders(),
                            ) {
                                assert(false);
                            }
                        }
                        return Err(e);
                    },
                };
                acts.push(Action::UploadTextures(entry.id, tp, entry.resolution));
                let plan = state_draw(&st, true, fps);
                acts.push(Action::Draw(entry.id, plan.ratio));
                proof {
                    assert(is_upload_for(acts@[1 + 2 * (k as int)], entry.id, entry.resolution));
                    assert(acts@[2 + 2 * (k as int)] == Action::Draw(entry.id, plan.ratio));
                    if refresh_fully_cached(
                        old(resources).spec_scaled(),
                        slide,
                        old(state).spec_renders(),
                    ) {
                        assert(is_upload_cached(
                            acts@[1 + 2 * (k as int)],
                            old(resources).spec_scaled(),
                            slide,
                        ));
                    }
                }
                k = k + 1;
            }
            if n > 0 {
                let plan0 = state_draw(&st, false, fps);
                match plan0.timer {
                    Some(t) => {
                        acts.push(Action::SpawnTimer(t));
                    },
                    None => {},
                }
                state.ticker_active = true;
            }
            Ok(acts)
        },
        WorkerMessage::IPCConfigUpdate(m) => {
            let crate::watchdog::Message { filter, scaling, path, mode } = m;
            match determine_mode(path.as_str(), mode) {
                Err(_) => Ok(Vec::new()),
                Ok(Mode::Static) => {
                    match filter {
                        Some(fl) => {
                            config.filter = fl;
                        },
                        None => {},
                    }
                    match scaling {
                        Some(sc) => {
                            config.scaling = sc;
                        },
                        None => {},
                    }
                    config.metadata = MetadataReader::static_configuration(path);
                    let acts: Vec<Action> = vec![Action::Enqueue(WorkerMessage::Refresh)];
                    Ok(acts)
                },
                Ok(Mode::Dynamic) => {
                    match filter {
                        Some(fl) => {
                            config.filter = fl;
                        },
                        None => {},
                    }
                    match scaling {
                        Some(sc) => {
                            config.scaling = sc;
                        },
                        None => {},
                    }
                    let acts: Vec<Action> = vec![
                        Action::LoadSchedule(path),
                        Action::Enqueue(WorkerMessage::Refresh),
                    ];
                    Ok(acts)
                },
            }
        },
    }
}

/// Law: two consecutive refreshes at one instant show what one shows.  The
/// premises are exactly what handling `Refresh` guarantees of each step in
/// turn: the first leaves its uploaded bytes cached under the slide's keys
/// (`scaled1`), and the second — finding them cached — re-uploads exactly
/// the mapped bytes.  The second step then changes nothing: same state,
/// same drawn ratio, same texture bytes.
pub proof fn lemma_refresh_idempotent(
    s0: State,
    s1: State,
    s2: State,
    meta: Metadata,
    now: int,
    scaled1: Map<(Seq<char>, i32, i32), Seq<u8>>,
    t: Transition,
    m: ScaledMode,
    tp1: (Seq<u8>, Seq<u8>),
    tp2: (Seq<u8>, Seq<u8>),
)
    requires
        s1.spec_renders() == s0.spec_renders(),
        s1.spec_fps() == s0.spec_fps(),
        s1.spec_ticker_active() == (s0.spec_renders().len() > 0),
        s2.spec_renders() == s1.spec_renders(),
        s2.spec_fps() == s1.spec_fps(),
        s2.spec_ticker_active() == (s1.spec_renders().len() > 0),
        scaled1.contains_pair(slide_from_key(t, m), tp1.0),
        scaled1.contains_pair(slide_to_key(t, m), tp1.1),
        tp2.0 == scaled1[slide_from_key(t, m)],
        tp2.1 == scaled1[slide_to_key(t, m)],
    ensures
        s2.spec_ticker_active() == s1.spec_ticker_active(),
        s2.spec_renders() == s1.spec_renders(),
        s2.spec_fps() == s1.spec_fps(),
        spec_refresh_ratio(meta, now, s2.spec_fps()) == spec_refresh_ratio(
            meta,
            now,
            s1.spec_fps(),
        ),
        tp2.0 == tp1.0,
        tp2.1 == tp1.1,
{
}

} // verus!
