//! The typed uniform model: the closed set of supported GPU scalar shapes,
//! semantic roles, shape-matched values, and the slot that ties a declared
//! uniform's name to its type tag, current value and optional role.
//!
//! Fractional values never enter this crate as machine floats: every
//! float-valued component is carried as its IEEE-754 binary32 (or binary64)
//! bit pattern, in a `u32` (or `u64`).  The host layer converts at the GPU
//! boundary.

use vstd::prelude::*;

verus! {

/// The bit pattern of the IEEE-754 binary32 value one (1.0).
pub const F32_ONE_BITS: u32 = 0x3F80_0000;

/// The base numeric kind of a uniform's components.
#[derive(Clone, Copy, Debug, PartialEq, Eq, Structural)]
pub enum ScalarKind {
    Float,
    Double,
    Int,
    UnsignedInt,
    Int64,
    UnsignedInt64,
    Bool,
}

/// How many components a uniform has: a scalar or a 2-, 3- or 4-vector.
#[derive(Clone, Copy, Debug, PartialEq, Eq, Structural)]
pub enum Arity {
    One,
    Two,
    Three,
    Four,
}

impl Arity {
    pub open spec fn count(self) -> nat {
        match self {
            Arity::One => 1,
            Arity::Two => 2,
            Arity::Three => 3,
            Arity::Four => 4,
        }
    }

    pub fn count_exec(self) -> (n: usize)
        ensures
            n == self.count(),
    {
        match self {
            Arity::One => 1,
            Arity::Two => 2,
            Arity::Three => 3,
            Arity::Four => 4,
        }
    }
}

/// The shape of a uniform: one supported base kind crossed with an arity.
#[derive(Clone, Copy, Debug, PartialEq, Eq, Structural)]
pub struct TypeTag {
    pub kind: ScalarKind,
    pub arity: Arity,
}

/// A semantic meaning bound to a uniform slot, driving how the frame update
/// pipeline mutates the slot automatically.
#[derive(Clone, Copy, Debug, PartialEq, Eq, Structural)]
pub enum Role {
    Color,
    ColorRgba,
    Resolution,
    Time,
    TimeDelta,
    Frame,
    FrameRate,
    Mouse,
    Date,
}

/// The one shape a role may be assigned to.
pub open spec fn role_tag(role: Role) -> TypeTag {
    match role {
        Role::Color => TypeTag { kind: ScalarKind::Float, arity: Arity::Three },
        Role::ColorRgba => TypeTag { kind: ScalarKind::Float, arity: Arity::Four },
        Role::Resolution => TypeTag { kind: ScalarKind::Float, arity: Arity::Two },
        Role::Time => TypeTag { kind: ScalarKind::Float, arity: Arity::One },
        Role::TimeDelta => TypeTag { kind: ScalarKind::Float, arity: Arity::One },
        Role::Frame => TypeTag { kind: ScalarKind::Int, arity: Arity::One },
        Role::FrameRate => TypeTag { kind: ScalarKind::Float, arity: Arity::One },
        Role::Mouse => TypeTag { kind: ScalarKind::Float, arity: Arity::Four },
        Role::Date => TypeTag { kind: ScalarKind::Float, arity: Arity::Four },
    }
}

/// A uniform's current value: one vector of components per base kind.
/// `Float` components are binary32 bit patterns, `Double` components are
/// binary64 bit patterns; the remaining kinds carry their values directly.
#[derive(Debug, PartialEq, Eq)]
pub enum UniformValue {
    Float(Vec<u32>),
    Double(Vec<u64>),
    Int(Vec<i32>),
    UnsignedInt(Vec<u32>),
    Int64(Vec<i64>),
    UnsignedInt64(Vec<u64>),
    Bool(Vec<bool>),
}

/// The mathematical value of a [`UniformValue`].
#[verifier::ext_equal]
pub enum ValueView {
    Float(Seq<u32>),
    Double(Seq<u64>),
    Int(Seq<i32>),
    UnsignedInt(Seq<u32>),
    Int64(Seq<i64>),
    UnsignedInt64(Seq<u64>),
    Bool(Seq<bool>),
}

impl View for UniformValue {
    type V = ValueView;

    open spec fn view(&self) -> ValueView {
        match self {
            UniformValue::Float(v) => ValueView::Float(v@),
            UniformValue::Double(v) => ValueView::Double(v@),
            UniformValue::Int(v) => ValueView::Int(v@),
            UniformValue::UnsignedInt(v) => ValueView::UnsignedInt(v@),
            UniformValue::Int64(v) => ValueView::Int64(v@),
            UniformValue::UnsignedInt64(v) => ValueView::UnsignedInt64(v@),
            UniformValue::Bool(v) => ValueView::Bool(v@),
        }
    }
}

/// The base kind a value's components belong to.
pub open spec fn value_kind(v: ValueView) -> ScalarKind {
    match v {
        ValueView::Float(_) => ScalarKind::Float,
        ValueView::Double(_) => ScalarKind::Double,
        ValueView::Int(_) => ScalarKind::Int,
        ValueView::UnsignedInt(_) => ScalarKind::UnsignedInt,
        ValueView::Int64(_) => ScalarKind::Int64,
        ValueView::UnsignedInt64(_) => ScalarKind::UnsignedInt64,
        ValueView::Bool(_) => ScalarKind::Bool,
    }
}

/// How many components a value holds.
pub open spec fn value_len(v: ValueView) -> nat {
    match v {
        ValueView::Float(s) => s.len(),
        ValueView::Double(s) => s.len(),
        ValueView::Int(s) => s.len(),
        ValueView::UnsignedInt(s) => s.len(),
        ValueView::Int64(s) => s.len(),
        ValueView::UnsignedInt64(s) => s.len(),
        ValueView::Bool(s) => s.len(),
    }
}

/// The value's shape agrees with the tag: same base kind, same arity.
pub open spec fn value_matches(v: ValueView, tag: TypeTag) -> bool {
    value_kind(v) == tag.kind && value_len(v) == tag.arity.count()
}

/// The zero (or false) default of the given shape.
pub open spec fn spec_default_value(tag: TypeTag) -> ValueView {
    let n = tag.arity.count();
    match tag.kind {
        ScalarKind::Float => ValueView::Float(Seq::new(n, |i: int| 0u32)),
        ScalarKind::Double => ValueView::Double(Seq::new(n, |i: int| 0u64)),
        ScalarKind::Int => ValueView::Int(Seq::new(n, |i: int| 0i32)),
        ScalarKind::UnsignedInt => ValueView::UnsignedInt(Seq::new(n, |i: int| 0u32)),
        ScalarKind::Int64 => ValueView::Int64(Seq::new(n, |i: int| 0i64)),
        ScalarKind::UnsignedInt64 => ValueView::UnsignedInt64(Seq::new(n, |i: int| 0u64)),
        ScalarKind::Bool => ValueView::Bool(Seq::new(n, |i: int| false)),
    }
}

/// Every supported type tag's default value has exactly the tag's shape:
/// the same base kind and as many zero (or false) components as the arity
/// says.
pub proof fn lemma_default_value_matches_tag(tag: TypeTag)
    ensures
        value_matches(spec_default_value(tag), tag),
{
}

/// A vector of `n` copies of `x`.
fn filled<T: Copy>(n: usize, x: T) -> (r: Vec<T>)
    ensures
        r@ == Seq::new(n as nat, |i: int| x),
{
    let mut r: Vec<T> = Vec::new();
    let mut k: usize = 0;
    while k < n
        invariant
            k <= n,
            r@ =~= Seq::new(k as nat, |i: int| x),
        decreases n - k,
    {
        r.push(x);
        k = k + 1;
    }
    assert(r@ =~= Seq::new(n as nat, |i: int| x));
    r
}

/// The zero-valued (or false-valued) default of the given shape.
pub fn default_value(tag: TypeTag) -> (r: UniformValue)
    ensures
        r@ == spec_default_value(tag),
{
    let n = tag.arity.count_exec();
    match tag.kind {
        ScalarKind::Float => UniformValue::Float(filled(n, 0u32)),
        ScalarKind::Double => UniformValue::Double(filled(n, 0u64)),
        ScalarKind::Int => UniformValue::Int(filled(n, 0i32)),
        ScalarKind::UnsignedInt => UniformValue::UnsignedInt(filled(n, 0u32)),
        ScalarKind::Int64 => UniformValue::Int64(filled(n, 0i64)),
        ScalarKind::UnsignedInt64 => UniformValue::UnsignedInt64(filled(n, 0u64)),
        ScalarKind::Bool => UniformValue::Bool(filled(n, false)),
    }
}

impl UniformValue {
    /// A copy with the same mathematical value.
    pub fn duplicate(&self) -> (r: UniformValue)
        ensures
            r@ == self@,
    {
        match self {
            UniformValue::Float(v) => UniformValue::Float(copied(v)),
            UniformValue::Double(v) => UniformValue::Double(copied(v)),
            UniformValue::Int(v) => UniformValue::Int(copied(v)),
            UniformValue::UnsignedInt(v) => UniformValue::UnsignedInt(copied(v)),
            UniformValue::Int64(v) => UniformValue::Int64(copied(v)),
            UniformValue::UnsignedInt64(v) => UniformValue::UnsignedInt64(copied(v)),
            UniformValue::Bool(v) => UniformValue::Bool(copied(v)),
        }
    }
}

/// An element-for-element copy of a vector of plain values.
fn copied<T: Copy>(v: &Vec<T>) -> (r: Vec<T>)
    ensures
        r@ == v@,
{
    let mut r: Vec<T> = Vec::new();
    let mut k: usize = 0;
    while k < v.len()
        invariant
            k <= v.len(),
            r@ =~= v@.subrange(0, k as int),
        decreases v.len() - k,
    {
        r.push(v[k]);
        k = k + 1;
    }
    assert(r@ =~= v@);
    r
}

/// One declared shader uniform: a unique name, the shape the driver reported,
/// a shape-matched current value, and an optional semantic role.
#[derive(Debug, PartialEq, Eq)]
pub struct UniformSlot {
    pub name: String,
    pub tag: TypeTag,
    pub value: UniformValue,
    pub role: Option<Role>,
}

/// The mathematical value of a [`UniformSlot`].
#[verifier::ext_equal]
pub struct SlotView {
    pub name: Seq<char>,
    pub tag: TypeTag,
    pub value: ValueView,
    pub role: Option<Role>,
}

impl View for UniformSlot {
    type V = SlotView;

    open spec fn view(&self) -> SlotView {
        SlotView { name: self.name@, tag: self.tag, value: self.value@, role: self.role }
    }
}

pub open spec fn slot_views(ss: Seq<UniformSlot>) -> Seq<SlotView> {
    ss.map_values(|s: UniformSlot| s@)
}

/// The slot invariant: the value's shape matches the type tag, and an
/// assigned role demands exactly that shape.
pub open spec fn slot_wf(s: SlotView) -> bool {
    &&& value_matches(s.value, s.tag)
    &&& (s.role matches Some(r) ==> role_tag(r) == s.tag)
}

impl UniformSlot {
    /// A copy with the same mathematical value.
    pub fn duplicate(&self) -> (r: UniformSlot)
        ensures
            r@ == self@,
    {
        UniformSlot {
            name: self.name.clone(),
            tag: self.tag,
            value: self.value.duplicate(),
            role: self.role,
        }
    }
}

} // verus!
