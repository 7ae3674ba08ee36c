//! The render session's state machine.  The host layer runs the loop — it
//! polls input, drains watch events, compiles shaders and draws — and calls
//! in here for every decision: whether to reload or exit, how the mouse
//! sub-values latch, what a tick does to the uniform store, and how a
//! reload outcome replaces (or, on failure, leaves untouched) the program
//! and its uniform set.
//!
//! Watch-event paths are compared for equality as text; the host layer
//! canonicalizes the watched paths and the event paths to absolute form
//! before handing them in, so one file has one spelling.

use vstd::prelude::*;

use crate::error::LoadError;
use crate::store::{mode_of, set_wf, Mode, SetView, ShadertoyUniforms, UniformSet};
use crate::uniform::{Role, SlotView, UniformSlot, UniformValue, ValueView, F32_ONE_BITS};

verus! {

/// The program/store pair the renderer draws with.  The two are created
/// together by a load pass and only ever replaced together: the pair is the
/// system's central consistency invariant.  `P` is the host layer's handle
/// to the compiled GPU program; this crate never looks inside it.
#[derive(Debug)]
pub struct RenderState<P> {
    pub program: P,
    pub uniforms: UniformSet,
}

/// The whole per-session state this crate governs: the active pair and the
/// playing/paused flag.
#[derive(Debug)]
pub struct Session<P> {
    pub state: RenderState<P>,
    pub playing: bool,
}

impl<P> Session<P> {
    /// A fresh session around the initial load's pair.  Rendering starts
    /// in the playing state.
    pub fn new(program: P, uniforms: UniformSet) -> (r: Session<P>)
        ensures
            r.state.program == program,
            r.state.uniforms == uniforms,
            r.playing,
    {
        Session { state: RenderState { program, uniforms }, playing: true }
    }

    /// The sticky mode: the variant of the active uniform set.
    pub fn mode(&self) -> (m: Mode)
        ensures
            m == mode_of(self.state.uniforms@),
    {
        self.state.uniforms.mode()
    }
}

/// A filesystem event the watcher delivered, reduced to what the decision
/// reads: the kind and the (canonicalized) path it names.  Everything else
/// the watcher can report arrives as `Other`.
#[derive(Debug, PartialEq, Eq)]
pub enum WatchEvent {
    Write(String),
    Create(String),
    Remove(String),
    Other,
}

/// The mathematical value of a [`WatchEvent`].
#[verifier::ext_equal]
pub enum WatchEventView {
    Write(Seq<char>),
    Create(Seq<char>),
    Remove(Seq<char>),
    Other,
}

impl View for WatchEvent {
    type V = WatchEventView;

    open spec fn view(&self) -> WatchEventView {
        match self {
            WatchEvent::Write(p) => WatchEventView::Write(p@),
            WatchEvent::Create(p) => WatchEventView::Create(p@),
            WatchEvent::Remove(p) => WatchEventView::Remove(p@),
            WatchEvent::Other => WatchEventView::Other,
        }
    }
}

pub open spec fn event_views(es: Seq<WatchEvent>) -> Seq<WatchEventView> {
    es.map_values(|e: WatchEvent| e@)
}

/// What one tick's drained events call for.
#[derive(Debug, PartialEq, Eq)]
pub enum WatchDecision {
    /// Nothing of interest: keep rendering with the active pair.
    Idle,
    /// An active path was written or re-created: run one reload pass.
    Reload,
    /// An active path was removed: exit gracefully; there is no shader left
    /// to render.  Carries the removed path.
    Exit(String),
}

/// A write or create event naming an active path.
pub open spec fn is_touch(e: WatchEventView, vs: Seq<char>, fs: Seq<char>) -> bool {
    ||| e matches WatchEventView::Write(p) && (p == vs || p == fs)
    ||| e matches WatchEventView::Create(p) && (p == vs || p == fs)
}

/// A removal event naming an active path.
pub open spec fn is_removal(e: WatchEventView, vs: Seq<char>, fs: Seq<char>) -> bool {
    e matches WatchEventView::Remove(p) && (p == vs || p == fs)
}

/// The first removal of an active path among the drained events, if any.
pub open spec fn first_removal(es: Seq<WatchEventView>, vs: Seq<char>, fs: Seq<char>) -> Option<
    int,
>
    decreases es.len(),
{
    if es.len() == 0 {
        None
    } else if is_removal(es[0], vs, fs) {
        Some(0)
    } else {
        match first_removal(es.drop_first(), vs, fs) {
            Some(i) => Some(i + 1),
            None => None,
        }
    }
}

/// Decides what one tick's drained events call for, scanning in arrival
/// order.  Exactly one decision comes out of a drain however many events
/// arrived: multiple touches still mean a single reload pass.
pub fn decide_watch_events(events: &Vec<WatchEvent>, vs_path: &String, fs_path: &String) -> (r:
    WatchDecision)
    ensures
        match first_removal(event_views(events@), vs_path@, fs_path@) {
            Some(i) => r matches WatchDecision::Exit(p) && event_views(events@)[i]
                == WatchEventView::Remove(p@),
            None => {
                &&& (r is Reload <==> exists|i: int|
                    0 <= i < events@.len() && is_touch(
                        #[trigger] event_views(events@)[i],
                        vs_path@,
                        fs_path@,
                    ))
                &&& (r is Idle <==> !(exists|i: int|
                    0 <= i < events@.len() && is_touch(
                        #[trigger] event_views(events@)[i],
                        vs_path@,
                        fs_path@,
                    )))
            },
        },
        events@.len() == 0 ==> r is Idle,
{
    let ghost views = event_views(events@);
    let mut touched: bool = false;
    let mut k: usize = 0;
    while k < events.len()
        invariant
            k <= events@.len(),
            views == event_views(events@),
            forall|j: int| 0 <= j < k ==> !is_removal(#[trigger] views[j], vs_path@, fs_path@),
            touched <==> exists|j: int|
                0 <= j < k && is_touch(#[trigger] views[j], vs_path@, fs_path@),
        decreases events@.len() - k,
    {
        let event = &events[k];
        match event {
            WatchEvent::Write(p) => {
                if *p == *vs_path || *p == *fs_path {
                    touched = true;
                }
            },
            WatchEvent::Create(p) => {
                if *p == *vs_path || *p == *fs_path {
                    touched = true;
                }
            },
            WatchEvent::Remove(p) => {
                if *p == *vs_path || *p == *fs_path {
                    proof {
                        lemma_first_removal_characterizes(views, vs_path@, fs_path@);
                        assert(is_removal(views[k as int], vs_path@, fs_path@));
                    }
                    return WatchDecision::Exit(p.clone());
                }
            },
            WatchEvent::Other => {},
        }
        proof {
            assert(!is_removal(views[k as int], vs_path@, fs_path@));
        }
        k = k + 1;
    }
    proof {
        lemma_first_removal_characterizes(views, vs_path@, fs_path@);
        if let Some(i) = first_removal(views, vs_path@, fs_path@) {
            assert(is_removal(views[i], vs_path@, fs_path@));
            assert(false);
        }
    }
    if touched {
        WatchDecision::Reload
    } else {
        WatchDecision::Idle
    }
}

/// [`first_removal`] yields the least index carrying a removal of an
/// active path, and `None` exactly when there is none.
pub proof fn lemma_first_removal_characterizes(
    es: Seq<WatchEventView>,
    vs: Seq<char>,
    fs: Seq<char>,
)
    ensures
        match first_removal(es, vs, fs) {
            Some(i) => {
                &&& 0 <= i < es.len()
                &&& is_removal(#[trigger] es[i], vs, fs)
                &&& (forall|j: int| 0 <= j < i ==> !is_removal(#[trigger] es[j], vs, fs))
            },
            None => forall|j: int| 0 <= j < es.len() ==> !is_removal(#[trigger] es[j], vs, fs),
        },
    decreases es.len(),
{
    if es.len() == 0 {
    } else if is_removal(es[0], vs, fs) {
    } else {
        lemma_first_removal_characterizes(es.drop_first(), vs, fs);
        assert(forall|j: int| 0 < j < es.len() ==> #[trigger] es[j] == es.drop_first()[j - 1]);
    }
}

/// Draining an empty event batch never calls for a reload: with no events
/// there is neither a removal nor a touch of an active path, so
/// [`decide_watch_events`]'s contract forces the idle decision — and only
/// [`apply_reload`] ever replaces the active pair, which the idle path
/// never reaches.
pub proof fn lemma_no_events_no_reload(vs: Seq<char>, fs: Seq<char>)
    ensures
        first_removal(Seq::empty(), vs, fs) is None,
{
}

/// An input event the session reacts to: Escape requests exit, Space
/// toggles the playing state, anything else is ignored.
#[derive(Clone, Copy, Debug, PartialEq, Eq, Structural)]
pub enum ControlEvent {
    Escape,
    Space,
    Other,
}

/// Applies one input event.  Returns whether the session should end.  The
/// active program/store pair is never touched here.
pub fn apply_control<P>(session: &mut Session<P>, event: ControlEvent) -> (exit: bool)
    ensures
        exit == (event is Escape),
        final(session).state == old(session).state,
        final(session).playing == (if event is Space {
            !old(session).playing
        } else {
            old(session).playing
        }),
{
    match event {
        ControlEvent::Escape => true,
        ControlEvent::Space => {
            session.playing = !session.playing;
            false
        },
        ControlEvent::Other => false,
    }
}

/// What the mouse sub-values become on one tick: the click origin latches
/// the cursor on the press edge of the primary button and holds until the
/// next press; the live drag position follows the cursor while the button
/// is held and freezes at its last value on release.
pub open spec fn spec_mouse_updated(
    u: ShadertoyUniforms,
    pressed: bool,
    held: bool,
    x_bits: u32,
    y_bits: u32,
) -> ShadertoyUniforms {
    ShadertoyUniforms {
        mouse_click_x: if pressed {
            x_bits
        } else {
            u.mouse_click_x
        },
        mouse_click_y: if pressed {
            y_bits
        } else {
            u.mouse_click_y
        },
        mouse_x: if held {
            x_bits
        } else {
            u.mouse_x
        },
        mouse_y: if held {
            y_bits
        } else {
            u.mouse_y
        },
        ..u
    }
}

/// Latches the mouse sub-values into the store.  `pressed` is the press
/// edge of the primary button this tick; `held` is whether the button is
/// down; the coordinates are the cursor position as binary32 bit patterns.
/// Only the Shadertoy record carries a mouse role; a freeform store is left
/// untouched.
pub fn update_mouse(set: &mut UniformSet, pressed: bool, held: bool, x_bits: u32, y_bits: u32)
    ensures
        old(set)@ matches SetView::Freeform(_) ==> final(set)@ == old(set)@,
        old(set)@ matches SetView::Shadertoy(u) ==> final(set)@ == SetView::Shadertoy(
            spec_mouse_updated(u, pressed, held, x_bits, y_bits),
        ),
        set_wf(old(set)@) ==> set_wf(final(set)@),
        mode_of(final(set)@) == mode_of(old(set)@),
{
    let updated: Option<ShadertoyUniforms> = match &*set {
        UniformSet::Shadertoy(u) => {
            let mut v = *u;
            if pressed {
                v.mouse_click_x = x_bits;
                v.mouse_click_y = y_bits;
            }
            if held {
                v.mouse_x = x_bits;
                v.mouse_y = y_bits;
            }
            Some(v)
        },
        UniformSet::Freeform(_) => None,
    };
    if let Some(v) = updated {
        *set = UniformSet::Shadertoy(v);
    }
}

/// What the host layer measured and computed for one tick, every
/// fractional value as its binary32 bit pattern: the viewport size, the
/// inter-frame interval, the accumulated time (the previous time plus the
/// interval, summed by the host in binary32 — this crate holds no float
/// arithmetic), the measured frame rate, and the local date broken into
/// year, zero-based month, zero-based day and seconds since midnight.
#[derive(Clone, Copy, Debug, PartialEq, Eq, Structural)]
pub struct FrameInput {
    pub width_bits: u32,
    pub height_bits: u32,
    pub time_bits: u32,
    pub time_delta_bits: u32,
    pub frame_rate_bits: u32,
    pub year_bits: u32,
    pub month_bits: u32,
    pub day_bits: u32,
    pub seconds_bits: u32,
}

/// One tick of the Shadertoy record: resolution follows the viewport (its
/// third component pinned at 1.0, the unit pixel aspect ratio), the time
/// roles and the date follow the tick input, and the frame counter
/// advances by one.  The mouse sub-values are not touched here.
pub open spec fn spec_advanced_record(u: ShadertoyUniforms, input: FrameInput) -> ShadertoyUniforms {
    ShadertoyUniforms {
        resolution_x: input.width_bits,
        resolution_y: input.height_bits,
        resolution_z: F32_ONE_BITS,
        time: input.time_bits,
        time_delta: input.time_delta_bits,
        frame: (u.frame + 1) as i32,
        frame_rate: input.frame_rate_bits,
        mouse_x: u.mouse_x,
        mouse_y: u.mouse_y,
        mouse_click_x: u.mouse_click_x,
        mouse_click_y: u.mouse_click_y,
        date_year: input.year_bits,
        date_month: input.month_bits,
        date_day: input.day_bits,
        date_seconds: input.seconds_bits,
    }
}

/// One tick of a freeform store: only role-bound slots are touched, and of
/// the roles only Resolution is auto-updated in this variant; every
/// role-free (user-edited) slot keeps its value bit for bit.
pub open spec fn spec_advanced_slots(slots: Seq<SlotView>, input: FrameInput) -> Seq<SlotView> {
    slots.map_values(
        |s: SlotView|
            if s.role matches Some(r) && r == Role::Resolution {
                SlotView {
                    value: ValueView::Float(seq![input.width_bits, input.height_bits]),
                    ..s
                }
            } else {
                s
            },
    )
}

/// Runs the frame update pipeline for one tick — unless the session is
/// paused and no reload just happened.  A reload forces exactly one update
/// pass even while paused, so a freshly loaded shader is immediately
/// visible with current uniform values.
pub fn advance_frame<P>(session: &mut Session<P>, input: &FrameInput, reloaded: bool)
    requires
        old(session).playing || reloaded ==> (old(session).state.uniforms@ matches
            SetView::Shadertoy(u) ==> u.frame < i32::MAX),
    ensures
        final(session).playing == old(session).playing,
        final(session).state.program == old(session).state.program,
        !(old(session).playing || reloaded) ==> final(session).state.uniforms@ == old(session).state.uniforms@,
        old(session).playing || reloaded ==> match old(session).state.uniforms@ {
            SetView::Shadertoy(u) => final(session).state.uniforms@ == SetView::Shadertoy(
                spec_advanced_record(u, *input),
            ),
            SetView::Freeform(slots) => final(session).state.uniforms@ == SetView::Freeform(
                spec_advanced_slots(slots, *input),
            ),
        },
        set_wf(old(session).state.uniforms@) ==> set_wf(final(session).state.uniforms@),
        mode_of(final(session).state.uniforms@) == mode_of(old(session).state.uniforms@),
{
    if !session.playing && !reloaded {
        return ;
    }
    let ghost pre = session.state.uniforms@;
    let replacement: UniformSet = match &session.state.uniforms {
        UniformSet::Shadertoy(u) => {
            let mut v = *u;
            v.resolution_x = input.width_bits;
            v.resolution_y = input.height_bits;
            v.resolution_z = F32_ONE_BITS;
            v.time = input.time_bits;
            v.time_delta = input.time_delta_bits;
            v.frame = v.frame + 1;
            v.frame_rate = input.frame_rate_bits;
            v.date_year = input.year_bits;
            v.date_month = input.month_bits;
            v.date_day = input.day_bits;
            v.date_seconds = input.seconds_bits;
            UniformSet::Shadertoy(v)
        },
        UniformSet::Freeform(slots) => {
            let mut out: Vec<UniformSlot> = Vec::new();
            let mut k: usize = 0;
            while k < slots.len()
                invariant
                    k <= slots@.len(),
                    out@.len() == k,
                    forall|j: int|
                        0 <= j < k ==> #[trigger] out@[j]@ == spec_advanced_slots(
                            crate::uniform::slot_views(slots@),
                            *input,
                        )[j],
                decreases slots@.len() - k,
            {
                let slot = &slots[k];
                let is_resolution: bool = match slot.role {
                    Some(Role::Resolution) => true,
                    _ => false,
                };
                if is_resolution {
                    out.push(
                        UniformSlot {
                            name: slot.name.clone(),
                            tag: slot.tag,
                            value: UniformValue::Float(vec![input.width_bits, input.height_bits]),
                            role: slot.role,
                        },
                    );
                } else {
                    out.push(slot.duplicate());
                }
                proof {
                    assert(out@[k as int]@ =~~= spec_advanced_slots(
                        crate::uniform::slot_views(slots@),
                        *input,
                    )[k as int]);
                }
                k = k + 1;
            }
            proof {
                assert(crate::uniform::slot_views(out@) =~~= spec_advanced_slots(
                    crate::uniform::slot_views(slots@),
                    *input,
                ));
            }
            UniformSet::Freeform(out)
        },
    };
    session.state.uniforms = replacement;
    proof {
        if set_wf(pre) {
            lemma_advanced_slots_preserve_wf(pre, *input);
        }
    }
}

/// The tick update keeps the store invariant: a Resolution-role slot's tag
/// is the 2-component float shape, which is exactly the shape of the value
/// the update writes, and no name changes.
pub proof fn lemma_advanced_slots_preserve_wf(s: SetView, input: FrameInput)
    requires
        set_wf(s),
    ensures
        s matches SetView::Freeform(slots) ==> set_wf(
            SetView::Freeform(spec_advanced_slots(slots, input)),
        ),
{
    if let SetView::Freeform(slots) = s {
        let advanced = spec_advanced_slots(slots, input);
        assert forall|i: int| 0 <= i < advanced.len() implies crate::uniform::slot_wf(
            #[trigger] advanced[i],
        ) by {
            assert(crate::uniform::slot_wf(slots[i]));
        }
        assert forall|i: int, j: int| 0 <= i < j < advanced.len() implies (
        #[trigger] advanced[i]).name != (#[trigger] advanced[j]).name by {
            assert(slots[i].name != slots[j].name);
        }
    }
}

/// The Shadertoy record after a whole sequence of tick updates, in order.
pub open spec fn spec_ticked(u: ShadertoyUniforms, inputs: Seq<FrameInput>) -> ShadertoyUniforms
    decreases inputs.len(),
{
    if inputs.len() == 0 {
        u
    } else {
        spec_ticked(spec_advanced_record(u, inputs[0]), inputs.drop_first())
    }
}

/// The frame counter counts the ticks: over any tick sequence that stays
/// within the counter's range, running the update once per input advances
/// `frame` by exactly the number of inputs — sixty updates from a fresh
/// record read sixty.
pub proof fn lemma_frame_counts_ticks(u: ShadertoyUniforms, inputs: Seq<FrameInput>)
    requires
        u.frame + inputs.len() <= i32::MAX,
    ensures
        spec_ticked(u, inputs).frame == u.frame + inputs.len(),
    decreases inputs.len(),
{
    if inputs.len() > 0 {
        lemma_frame_counts_ticks(spec_advanced_record(u, inputs[0]), inputs.drop_first());
    }
}

/// Installs a reload pass's outcome.  On success the new program and the
/// new uniform set replace the old pair together, atomically from the
/// renderer's point of view: no state in which one half is new and the
/// other old is ever observable.  On failure the session — the whole pair,
/// every uniform name and value bit for bit — stays exactly as it was, and
/// the error is handed back for the host layer to log: a broken edit never
/// takes the previous shader off the screen.
pub fn apply_reload<P>(session: &mut Session<P>, outcome: Result<(P, UniformSet), LoadError>) -> (r:
    Option<LoadError>)
    requires
        outcome matches Ok(pair) ==> mode_of(pair.1@) == mode_of(old(session).state.uniforms@),
    ensures
        final(session).playing == old(session).playing,
        outcome matches Ok(pair) ==> final(session).state.program == pair.0 && final(session).state.uniforms == pair.1 && r is None,
        outcome matches Err(e) ==> *final(session) == *old(session) && (r matches Some(e2) && e2
            == e),
        mode_of(final(session).state.uniforms@) == mode_of(old(session).state.uniforms@),
{
    match outcome {
        Ok(pair) => {
            let (program, uniforms) = pair;
            session.state = RenderState { program, uniforms };
            None
        },
        Err(e) => Some(e),
    }
}

} // verus!
