//! The uniform value store: either the fixed Shadertoy-convention record or
//! a freeform collection of slots, behind one shared traversal contract that
//! hands the renderer every (name, value) pair in a stable order.

use vstd::prelude::*;

use crate::uniform::{slot_views, slot_wf, SlotView, UniformSlot, UniformValue, ValueView};

verus! {

/// Which of the two store shapes is active.  Sticky across reloads: a reload
/// never changes the mode.
#[derive(Clone, Copy, Debug, PartialEq, Eq, Structural)]
pub enum Mode {
    Shadertoy,
    Freeform,
}

/// The fixed Shadertoy-convention uniform record.  All roles are present
/// unconditionally.  Every field but `frame` is an IEEE-754 binary32 bit
/// pattern; `frame` is the frame counter itself.
#[derive(Clone, Copy, Debug, PartialEq, Eq, Structural)]
pub struct ShadertoyUniforms {
    /// Viewport width, height, and pixel aspect ratio (the last held at 1.0).
    pub resolution_x: u32,
    pub resolution_y: u32,
    pub resolution_z: u32,
    /// Seconds since load: a monotonic accumulator of the frame deltas.
    pub time: u32,
    /// The measured inter-frame interval, in seconds.
    pub time_delta: u32,
    /// Frames rendered since load.
    pub frame: i32,
    /// Measured frames per second.
    pub frame_rate: u32,
    /// Live drag position: the cursor while the primary button is held.
    pub mouse_x: u32,
    pub mouse_y: u32,
    /// Click origin: the cursor latched on the press edge.
    pub mouse_click_x: u32,
    pub mouse_click_y: u32,
    /// Year, zero-based month, zero-based day, seconds since local midnight.
    pub date_year: u32,
    pub date_month: u32,
    pub date_day: u32,
    pub date_seconds: u32,
}

impl ShadertoyUniforms {
    /// The record every load starts from: all components zero.
    pub open spec fn initial() -> ShadertoyUniforms {
        ShadertoyUniforms {
            resolution_x: 0,
            resolution_y: 0,
            resolution_z: 0,
            time: 0,
            time_delta: 0,
            frame: 0,
            frame_rate: 0,
            mouse_x: 0,
            mouse_y: 0,
            mouse_click_x: 0,
            mouse_click_y: 0,
            date_year: 0,
            date_month: 0,
            date_day: 0,
            date_seconds: 0,
        }
    }

    pub fn new() -> (r: ShadertoyUniforms)
        ensures
            r == ShadertoyUniforms::initial(),
    {
        ShadertoyUniforms {
            resolution_x: 0,
            resolution_y: 0,
            resolution_z: 0,
            time: 0,
            time_delta: 0,
            frame: 0,
            frame_rate: 0,
            mouse_x: 0,
            mouse_y: 0,
            mouse_click_x: 0,
            mouse_click_y: 0,
            date_year: 0,
            date_month: 0,
            date_day: 0,
            date_seconds: 0,
        }
    }
}

/// The variant union of the two store shapes.  Exactly one is active; it and
/// the compiled program are created together and replaced together.
#[derive(Debug, PartialEq, Eq)]
pub enum UniformSet {
    Shadertoy(ShadertoyUniforms),
    Freeform(Vec<UniformSlot>),
}

/// The mathematical value of a [`UniformSet`].
#[verifier::ext_equal]
pub enum SetView {
    Shadertoy(ShadertoyUniforms),
    Freeform(Seq<SlotView>),
}

impl View for UniformSet {
    type V = SetView;

    open spec fn view(&self) -> SetView {
        match self {
            UniformSet::Shadertoy(u) => SetView::Shadertoy(*u),
            UniformSet::Freeform(slots) => SetView::Freeform(slot_views(slots@)),
        }
    }
}

/// The store's mode.
pub open spec fn mode_of(s: SetView) -> Mode {
    match s {
        SetView::Shadertoy(_) => Mode::Shadertoy,
        SetView::Freeform(_) => Mode::Freeform,
    }
}

/// The freeform invariant: every slot is well formed and slot names are
/// unique.
pub open spec fn freeform_wf(slots: Seq<SlotView>) -> bool {
    &&& (forall|i: int| 0 <= i < slots.len() ==> slot_wf(#[trigger] slots[i]))
    &&& (forall|i: int, j: int|
        0 <= i < j < slots.len() ==> (#[trigger] slots[i]).name != (#[trigger] slots[j]).name)
}

/// The store invariant.  The Shadertoy record is well formed by shape.
pub open spec fn set_wf(s: SetView) -> bool {
    match s {
        SetView::Shadertoy(_) => true,
        SetView::Freeform(slots) => freeform_wf(slots),
    }
}

impl UniformSet {
    pub fn mode(&self) -> (m: Mode)
        ensures
            m == mode_of(self@),
    {
        match self {
            UniformSet::Shadertoy(_) => Mode::Shadertoy,
            UniformSet::Freeform(_) => Mode::Freeform,
        }
    }
}

/// One (name, value) pair the renderer binds.
#[derive(Debug, PartialEq, Eq)]
pub struct Binding {
    pub name: String,
    pub value: UniformValue,
}

/// The mathematical value of a [`Binding`].
#[verifier::ext_equal]
pub struct BindingView {
    pub name: Seq<char>,
    pub value: ValueView,
}

impl View for Binding {
    type V = BindingView;

    open spec fn view(&self) -> BindingView {
        BindingView { name: self.name@, value: self.value@ }
    }
}

pub open spec fn binding_views(bs: Seq<Binding>) -> Seq<BindingView> {
    bs.map_values(|b: Binding| b@)
}

/// The bindings of the fixed Shadertoy record, in their fixed order.
/// `iGlobalTime` is the deprecated alias of `iTime` and carries the same
/// value.
pub open spec fn spec_shadertoy_bindings(u: ShadertoyUniforms) -> Seq<BindingView> {
    seq![
        (BindingView {
            name: "iResolution"@,
            value: ValueView::Float(seq![u.resolution_x, u.resolution_y, u.resolution_z]),
        }),
        (BindingView { name: "iTime"@, value: ValueView::Float(seq![u.time]) }),
        (BindingView { name: "iGlobalTime"@, value: ValueView::Float(seq![u.time]) }),
        (BindingView { name: "iTimeDelta"@, value: ValueView::Float(seq![u.time_delta]) }),
        (BindingView { name: "iFrame"@, value: ValueView::Int(seq![u.frame]) }),
        (BindingView { name: "iFrameRate"@, value: ValueView::Float(seq![u.frame_rate]) }),
        (BindingView {
            name: "iMouse"@,
            value: ValueView::Float(seq![u.mouse_x, u.mouse_y, u.mouse_click_x, u.mouse_click_y]),
        }),
        (BindingView {
            name: "iDate"@,
            value: ValueView::Float(seq![u.date_year, u.date_month, u.date_day, u.date_seconds]),
        }),
    ]
}

/// The bindings a store exposes: the fixed eight for Shadertoy, or one per
/// slot, in slot order, for freeform.
pub open spec fn spec_bindings(s: SetView) -> Seq<BindingView> {
    match s {
        SetView::Shadertoy(u) => spec_shadertoy_bindings(u),
        SetView::Freeform(slots) => slots.map_values(
            |s: SlotView| BindingView { name: s.name, value: s.value },
        ),
    }
}

impl UniformSet {
    /// Every (name, value) pair the renderer must bind, in a stable order:
    /// a pure function of the store's value, computed without mutating it.
    pub fn bindings(&self) -> (r: Vec<Binding>)
        ensures
            binding_views(r@) == spec_bindings(self@),
    {
        match self {
            UniformSet::Shadertoy(u) => {
                let mut r: Vec<Binding> = Vec::new();
                r.push(
                    Binding {
                        name: "iResolution".to_owned(),
                        value: UniformValue::Float(
                            vec![u.resolution_x, u.resolution_y, u.resolution_z],
                        ),
                    },
                );
                r.push(
                    Binding { name: "iTime".to_owned(), value: UniformValue::Float(vec![u.time]) },
                );
                r.push(
                    Binding {
                        name: "iGlobalTime".to_owned(),
                        value: UniformValue::Float(vec![u.time]),
                    },
                );
                r.push(
                    Binding {
                        name: "iTimeDelta".to_owned(),
                        value: UniformValue::Float(vec![u.time_delta]),
                    },
                );
                r.push(
                    Binding { name: "iFrame".to_owned(), value: UniformValue::Int(vec![u.frame]) },
                );
                r.push(
                    Binding {
                        name: "iFrameRate".to_owned(),
                        value: UniformValue::Float(vec![u.frame_rate]),
                    },
                );
                r.push(
                    Binding {
                        name: "iMouse".to_owned(),
                        value: UniformValue::Float(
                            vec![u.mouse_x, u.mouse_y, u.mouse_click_x, u.mouse_click_y],
                        ),
                    },
                );
                r.push(
                    Binding {
                        name: "iDate".to_owned(),
                        value: UniformValue::Float(
                            vec![u.date_year, u.date_month, u.date_day, u.date_seconds],
                        ),
                    },
                );
                assert(binding_views(r@) =~~= spec_bindings(self@));
                r
            },
            UniformSet::Freeform(slots) => {
                let mut r: Vec<Binding> = Vec::new();
                let mut k: usize = 0;
                while k < slots.len()
                    invariant
                        k <= slots@.len(),
                        r@.len() == k,
                        forall|j: int|
                            0 <= j < k ==> #[trigger] r@[j]@ == (BindingView {
                                name: slots@[j]@.name,
                                value: slots@[j]@.value,
                            }),
                    decreases slots@.len() - k,
                {
                    let slot = &slots[k];
                    r.push(Binding { name: slot.name.clone(), value: slot.value.duplicate() });
                    k = k + 1;
                }
                proof {
                    let views = slot_views(slots@);
                    assert forall|j: int| 0 <= j < r@.len() implies binding_views(r@)[j]
                        == spec_bindings(self@)[j] by {
                        assert(spec_bindings(self@)[j] == (BindingView {
                            name: views[j].name,
                            value: views[j].value,
                        }));
                        assert(views[j] == slots@[j]@);
                    }
                    assert(binding_views(r@) =~~= spec_bindings(self@));
                }
                r
            },
        }
    }
}

} // verus!
