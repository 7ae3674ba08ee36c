//! The uniform type registry: maps each uniform the linked program declares
//! — as the GPU driver reports it — to a typed, default-valued slot, or
//! rejects the whole program when a uniform's type falls outside the
//! supported set.

use vstd::prelude::*;

use crate::error::LoadError;
use crate::uniform::{
    default_value, slot_views, spec_default_value, Arity, ScalarKind, SlotView, TypeTag,
    UniformSlot,
};

verus! {

/// A uniform's type as the GPU driver reports it.  The named variants are
/// the closed supported set; everything else the driver can report (samplers,
/// matrices, images, ...) arrives as `Unsupported`.
#[derive(Clone, Copy, Debug, PartialEq, Eq, Structural)]
pub enum GpuType {
    Float,
    FloatVec2,
    FloatVec3,
    FloatVec4,
    Double,
    DoubleVec2,
    DoubleVec3,
    DoubleVec4,
    Int,
    IntVec2,
    IntVec3,
    IntVec4,
    UnsignedInt,
    UnsignedIntVec2,
    UnsignedIntVec3,
    UnsignedIntVec4,
    Int64,
    Int64Vec2,
    Int64Vec3,
    Int64Vec4,
    UnsignedInt64,
    UnsignedInt64Vec2,
    UnsignedInt64Vec3,
    UnsignedInt64Vec4,
    Bool,
    BoolVec2,
    BoolVec3,
    BoolVec4,
    Unsupported,
}

/// The shape a supported driver-reported type maps to; `None` exactly for
/// `Unsupported`.
pub open spec fn tag_of(t: GpuType) -> Option<TypeTag> {
    match t {
        GpuType::Float => Some(TypeTag { kind: ScalarKind::Float, arity: Arity::One }),
        GpuType::FloatVec2 => Some(TypeTag { kind: ScalarKind::Float, arity: Arity::Two }),
        GpuType::FloatVec3 => Some(TypeTag { kind: ScalarKind::Float, arity: Arity::Three }),
        GpuType::FloatVec4 => Some(TypeTag { kind: ScalarKind::Float, arity: Arity::Four }),
        GpuType::Double => Some(TypeTag { kind: ScalarKind::Double, arity: Arity::One }),
        GpuType::DoubleVec2 => Some(TypeTag { kind: ScalarKind::Double, arity: Arity::Two }),
        GpuType::DoubleVec3 => Some(TypeTag { kind: ScalarKind::Double, arity: Arity::Three }),
        GpuType::DoubleVec4 => Some(TypeTag { kind: ScalarKind::Double, arity: Arity::Four }),
        GpuType::Int => Some(TypeTag { kind: ScalarKind::Int, arity: Arity::One }),
        GpuType::IntVec2 => Some(TypeTag { kind: ScalarKind::Int, arity: Arity::Two }),
        GpuType::IntVec3 => Some(TypeTag { kind: ScalarKind::Int, arity: Arity::Three }),
        GpuType::IntVec4 => Some(TypeTag { kind: ScalarKind::Int, arity: Arity::Four }),
        GpuType::UnsignedInt => Some(TypeTag { kind: ScalarKind::UnsignedInt, arity: Arity::One }),
        GpuType::UnsignedIntVec2 => Some(
            TypeTag { kind: ScalarKind::UnsignedInt, arity: Arity::Two },
        ),
        GpuType::UnsignedIntVec3 => Some(
            TypeTag { kind: ScalarKind::UnsignedInt, arity: Arity::Three },
        ),
        GpuType::UnsignedIntVec4 => Some(
            TypeTag { kind: ScalarKind::UnsignedInt, arity: Arity::Four },
        ),
        GpuType::Int64 => Some(TypeTag { kind: ScalarKind::Int64, arity: Arity::One }),
        GpuType::Int64Vec2 => Some(TypeTag { kind: ScalarKind::Int64, arity: Arity::Two }),
        GpuType::Int64Vec3 => Some(TypeTag { kind: ScalarKind::Int64, arity: Arity::Three }),
        GpuType::Int64Vec4 => Some(TypeTag { kind: ScalarKind::Int64, arity: Arity::Four }),
        GpuType::UnsignedInt64 => Some(
            TypeTag { kind: ScalarKind::UnsignedInt64, arity: Arity::One },
        ),
        GpuType::UnsignedInt64Vec2 => Some(
            TypeTag { kind: ScalarKind::UnsignedInt64, arity: Arity::Two },
        ),
        GpuType::UnsignedInt64Vec3 => Some(
            TypeTag { kind: ScalarKind::UnsignedInt64, arity: Arity::Three },
        ),
        GpuType::UnsignedInt64Vec4 => Some(
            TypeTag { kind: ScalarKind::UnsignedInt64, arity: Arity::Four },
        ),
        GpuType::Bool => Some(TypeTag { kind: ScalarKind::Bool, arity: Arity::One }),
        GpuType::BoolVec2 => Some(TypeTag { kind: ScalarKind::Bool, arity: Arity::Two }),
        GpuType::BoolVec3 => Some(TypeTag { kind: ScalarKind::Bool, arity: Arity::Three }),
        GpuType::BoolVec4 => Some(TypeTag { kind: ScalarKind::Bool, arity: Arity::Four }),
        GpuType::Unsupported => None,
    }
}

/// Executable twin of [`tag_of`].
pub fn tag_of_exec(t: GpuType) -> (r: Option<TypeTag>)
    ensures
        r == tag_of(t),
{
    match t {
        GpuType::Float => Some(TypeTag { kind: ScalarKind::Float, arity: Arity::One }),
        GpuType::FloatVec2 => Some(TypeTag { kind: ScalarKind::Float, arity: Arity::Two }),
        GpuType::FloatVec3 => Some(TypeTag { kind: ScalarKind::Float, arity: Arity::Three }),
        GpuType::FloatVec4 => Some(TypeTag { kind: ScalarKind::Float, arity: Arity::Four }),
        GpuType::Double => Some(TypeTag { kind: ScalarKind::Double, arity: Arity::One }),
        GpuType::DoubleVec2 => Some(TypeTag { kind: ScalarKind::Double, arity: Arity::Two }),
        GpuType::DoubleVec3 => Some(TypeTag { kind: ScalarKind::Double, arity: Arity::Three }),
        GpuType::DoubleVec4 => Some(TypeTag { kind: ScalarKind::Double, arity: Arity::Four }),
        GpuType::Int => Some(TypeTag { kind: ScalarKind::Int, arity: Arity::One }),
        GpuType::IntVec2 => Some(TypeTag { kind: ScalarKind::Int, arity: Arity::Two }),
        GpuType::IntVec3 => Some(TypeTag { kind: ScalarKind::Int, arity: Arity::Three }),
        GpuType::IntVec4 => Some(TypeTag { kind: ScalarKind::Int, arity: Arity::Four }),
        GpuType::UnsignedInt => Some(TypeTag { kind: ScalarKind::UnsignedInt, arity: Arity::One }),
        GpuType::UnsignedIntVec2 => Some(
            TypeTag { kind: ScalarKind::UnsignedInt, arity: Arity::Two },
        ),
        GpuType::UnsignedIntVec3 => Some(
            TypeTag { kind: ScalarKind::UnsignedInt, arity: Arity::Three },
        ),
        GpuType::UnsignedIntVec4 => Some(
            TypeTag { kind: ScalarKind::UnsignedInt, arity: Arity::Four },
        ),
        GpuType::Int64 => Some(TypeTag { kind: ScalarKind::Int64, arity: Arity::One }),
        GpuType::Int64Vec2 => Some(TypeTag { kind: ScalarKind::Int64, arity: Arity::Two }),
        GpuType::Int64Vec3 => Some(TypeTag { kind: ScalarKind::Int64, arity: Arity::Three }),
        GpuType::Int64Vec4 => Some(TypeTag { kind: ScalarKind::Int64, arity: Arity::Four }),
        GpuType::UnsignedInt64 => Some(
            TypeTag { kind: ScalarKind::UnsignedInt64, arity: Arity::One },
        ),
        GpuType::UnsignedInt64Vec2 => Some(
            TypeTag { kind: ScalarKind::UnsignedInt64, arity: Arity::Two },
        ),
        GpuType::UnsignedInt64Vec3 => Some(
            TypeTag { kind: ScalarKind::UnsignedInt64, arity: Arity::Three },
        ),
        GpuType::UnsignedInt64Vec4 => Some(
            TypeTag { kind: ScalarKind::UnsignedInt64, arity: Arity::Four },
        ),
        GpuType::Bool => Some(TypeTag { kind: ScalarKind::Bool, arity: Arity::One }),
        GpuType::BoolVec2 => Some(TypeTag { kind: ScalarKind::Bool, arity: Arity::Two }),
        GpuType::BoolVec3 => Some(TypeTag { kind: ScalarKind::Bool, arity: Arity::Three }),
        GpuType::BoolVec4 => Some(TypeTag { kind: ScalarKind::Bool, arity: Arity::Four }),
        GpuType::Unsupported => None,
    }
}

/// One uniform as the linked program declares it: its name and its
/// driver-reported type.  The host layer reads these off the program's
/// uniform interface.
#[derive(Debug, PartialEq, Eq)]
pub struct UniformDeclaration {
    pub name: String,
    pub ty: GpuType,
}

/// The mathematical value of a [`UniformDeclaration`].
#[verifier::ext_equal]
pub struct DeclView {
    pub name: Seq<char>,
    pub ty: GpuType,
}

impl View for UniformDeclaration {
    type V = DeclView;

    open spec fn view(&self) -> DeclView {
        DeclView { name: self.name@, ty: self.ty }
    }
}

pub open spec fn decl_views(ds: Seq<UniformDeclaration>) -> Seq<DeclView> {
    ds.map_values(|d: UniformDeclaration| d@)
}

/// The slot a supported declaration turns into: the declared name, the
/// mapped shape, that shape's zero default, and no role.
pub open spec fn spec_slot_of(d: DeclView) -> SlotView {
    let tag = tag_of(d.ty).unwrap();
    SlotView { name: d.name, tag: tag, value: spec_default_value(tag), role: None }
}

/// Builds one typed, default-valued slot per declared uniform, in
/// declaration order.  Fails — with the name of the first offender — as soon
/// as any declaration's type is unsupported: an unsupported shader is
/// rejected, never silently truncated.
pub fn build_slots(decls: &Vec<UniformDeclaration>) -> (r: Result<Vec<UniformSlot>, LoadError>)
    ensures
        r is Ok <==> (forall|i: int|
            0 <= i < decls@.len() ==> tag_of(#[trigger] decls@[i]@.ty) is Some),
        r matches Ok(slots) ==> slot_views(slots@) == decl_views(decls@).map_values(
            |d: DeclView| spec_slot_of(d),
        ),
        r matches Err(e) ==> exists|i: int|
            {
                &&& 0 <= i < decls@.len()
                &&& tag_of(#[trigger] decls@[i]@.ty) is None
                &&& (forall|j: int| 0 <= j < i ==> tag_of(#[trigger] decls@[j]@.ty) is Some)
                &&& (e matches LoadError::UnsupportedUniformType(name) && name@ == decls@[i]@.name)
            },
{
    let mut slots: Vec<UniformSlot> = Vec::new();
    let mut k: usize = 0;
    while k < decls.len()
        invariant
            k <= decls@.len(),
            slots@.len() == k,
            forall|j: int| 0 <= j < k ==> tag_of(#[trigger] decls@[j]@.ty) is Some,
            forall|j: int| 0 <= j < k ==> #[trigger] slots@[j]@ == spec_slot_of(decls@[j]@),
        decreases decls@.len() - k,
    {
        let d = &decls[k];
        match tag_of_exec(d.ty) {
            Some(tag) => {
                let slot = UniformSlot {
                    name: d.name.clone(),
                    tag: tag,
                    value: default_value(tag),
                    role: None,
                };
                slots.push(slot);
                proof {
                    assert(slots@[k as int]@ == spec_slot_of(decls@[k as int]@));
                }
            },
            None => {
                proof {
                    let i = k as int;
                    assert(0 <= i < decls@.len() && tag_of(decls@[i]@.ty) is None && (forall|
                        j: int,
                    |
                        0 <= j < i ==> tag_of(#[trigger] decls@[j]@.ty) is Some));
                }
                return Err(LoadError::UnsupportedUniformType(d.name.clone()));
            },
        }
        k = k + 1;
    }
    assert(slot_views(slots@) =~= decl_views(decls@).map_values(|d: DeclView| spec_slot_of(d)));
    Ok(slots)
}

} // verus!
