//! Role resolution: applies the configuration block's directives to the
//! registry's slots.  A pure transformation from (slots, directives) to
//! (slots, non-fatal diagnostics): a directive either re-tags its slot with
//! a role (resetting the value to the role's default), sets an integer
//! literal as a slot's initial value, is recorded as a shape mismatch, or is
//! ignored.  Directives are applied in order, so of two directives naming
//! the same uniform the last wins.

use vstd::prelude::*;

use crate::config::{entry_views, ConfigEntry, ConfigValue, ConfigValueView, EntryView};
use crate::uniform::{
    slot_views, Arity, Role, ScalarKind, SlotView, TypeTag, UniformSlot, UniformValue,
    ValueView, F32_ONE_BITS,
};

verus! {

/// A non-fatal diagnostic: a directive named this uniform with a role hint
/// whose required shape differs from the slot's declared type.  The
/// directive is dropped; the slot keeps its value and stays role-free.
#[derive(Debug, PartialEq, Eq)]
pub struct RoleMismatch {
    pub name: String,
}

impl View for RoleMismatch {
    type V = Seq<char>;

    open spec fn view(&self) -> Seq<char> {
        self.name@
    }
}

pub open spec fn mismatch_views(ms: Seq<RoleMismatch>) -> Seq<Seq<char>> {
    ms.map_values(|m: RoleMismatch| m@)
}

/// The first slot with the given name, if any.
pub open spec fn find_slot(slots: Seq<SlotView>, name: Seq<char>) -> Option<int>
    decreases slots.len(),
{
    if slots.len() == 0 {
        None
    } else if slots[0].name == name {
        Some(0)
    } else {
        match find_slot(slots.drop_first(), name) {
            Some(i) => Some(i + 1),
            None => None,
        }
    }
}

/// [`find_slot`] yields the least index whose slot carries the name, and
/// `None` exactly when no slot does.
pub proof fn lemma_find_slot_characterizes(slots: Seq<SlotView>, name: Seq<char>)
    ensures
        match find_slot(slots, name) {
            Some(i) => {
                &&& 0 <= i < slots.len()
                &&& (#[trigger] slots[i]).name == name
                &&& (forall|j: int| 0 <= j < i ==> (#[trigger] slots[j]).name != name)
            },
            None => forall|j: int|
                0 <= j < slots.len() ==> (#[trigger] slots[j]).name != name,
        },
    decreases slots.len(),
{
    if slots.len() == 0 {
    } else if slots[0].name == name {
    } else {
        lemma_find_slot_characterizes(slots.drop_first(), name);
        assert(forall|j: int|
            0 < j < slots.len() ==> #[trigger] slots[j] == slots.drop_first()[j - 1]);
    }
}

pub open spec fn float_tag(a: Arity) -> TypeTag {
    TypeTag { kind: ScalarKind::Float, arity: a }
}

pub open spec fn int_scalar_tag() -> TypeTag {
    TypeTag { kind: ScalarKind::Int, arity: Arity::One }
}

/// An all-ones float vector of `n` components: opaque white for colors.
pub open spec fn float_ones(n: nat) -> ValueView {
    ValueView::Float(Seq::new(n, |k: int| F32_ONE_BITS))
}

/// An all-zeros float vector of `n` components.
pub open spec fn float_zeros(n: nat) -> ValueView {
    ValueView::Float(Seq::new(n, |k: int| 0u32))
}

/// What one directive does to the slots, and the mismatch it records, if
/// any:
/// - a `"color"` hint re-tags a 3- or 4-component float slot as `Color` or
///   `ColorRgba` with an all-ones (opaque white) value; any other shape is a
///   mismatch;
/// - a `"resolution"` hint re-tags a 2-component float slot as `Resolution`
///   with a zero value; any other shape is a mismatch;
/// - an integer literal becomes the initial value of a scalar `Int` slot,
///   when the literal fits that type; otherwise it is ignored;
/// - any other text, any other value, and any key naming no slot (the
///   uniform may have been compiled out) are ignored.
pub open spec fn spec_apply_directive(slots: Seq<SlotView>, e: EntryView) -> (
    Seq<SlotView>,
    Option<Seq<char>>,
) {
    match find_slot(slots, e.key) {
        None => (slots, None),
        Some(i) => {
            let s = slots[i];
            match e.value {
                ConfigValueView::Text(t) => {
                    if t == "color"@ {
                        if s.tag == float_tag(Arity::Three) {
                            (
                                slots.update(
                                    i,
                                    (SlotView {
                                        role: Some(Role::Color),
                                        value: float_ones(3),
                                        ..s
                                    }),
                                ),
                                None,
                            )
                        } else if s.tag == float_tag(Arity::Four) {
                            (
                                slots.update(
                                    i,
                                    (SlotView {
                                        role: Some(Role::ColorRgba),
                                        value: float_ones(4),
                                        ..s
                                    }),
                                ),
                                None,
                            )
                        } else {
                            (slots, Some(e.key))
                        }
                    } else if t == "resolution"@ {
                        if s.tag == float_tag(Arity::Two) {
                            (
                                slots.update(
                                    i,
                                    (SlotView {
                                        role: Some(Role::Resolution),
                                        value: float_zeros(2),
                                        ..s
                                    }),
                                ),
                                None,
                            )
                        } else {
                            (slots, Some(e.key))
                        }
                    } else {
                        (slots, None)
                    }
                },
                ConfigValueView::Integer(n) => {
                    if s.tag == int_scalar_tag() && i32::MIN <= n <= i32::MAX {
                        (
                            slots.update(
                                i,
                                (SlotView {
                                    value: ValueView::Int(seq![n as i32]),
                                    ..s
                                }),
                            ),
                            None,
                        )
                    } else {
                        (slots, None)
                    }
                },
                ConfigValueView::Other => (slots, None),
            }
        },
    }
}

/// The directives folded over the slots in order, with the mismatches they
/// record, in order.
pub open spec fn spec_resolve(slots: Seq<SlotView>, es: Seq<EntryView>) -> (
    Seq<SlotView>,
    Seq<Seq<char>>,
)
    decreases es.len(),
{
    if es.len() == 0 {
        (slots, Seq::empty())
    } else {
        let step = spec_apply_directive(slots, es[0]);
        let rest = spec_resolve(step.0, es.drop_first());
        (
            rest.0,
            (match step.1 {
                Some(m) => seq![m] + rest.1,
                None => rest.1,
            }),
        )
    }
}

/// A directive never adds, removes or renames a slot.
pub proof fn lemma_apply_directive_keeps_names(slots: Seq<SlotView>, e: EntryView)
    ensures
        spec_apply_directive(slots, e).0.len() == slots.len(),
        forall|i: int|
            0 <= i < slots.len() ==> (#[trigger] spec_apply_directive(slots, e).0[i]).name
                == slots[i].name,
{
    lemma_find_slot_characterizes(slots, e.key);
}

/// A directive keeps every slot well formed: a role is only ever assigned
/// together with a value of exactly the role's shape, and an integer
/// literal keeps the slot's scalar `Int` shape.
pub proof fn lemma_apply_directive_preserves_wf(slots: Seq<SlotView>, e: EntryView)
    requires
        forall|i: int| 0 <= i < slots.len() ==> crate::uniform::slot_wf(#[trigger] slots[i]),
    ensures
        forall|i: int|
            0 <= i < slots.len() ==> crate::uniform::slot_wf(
                #[trigger] spec_apply_directive(slots, e).0[i],
            ),
{
    lemma_find_slot_characterizes(slots, e.key);
}

/// Resolution as a whole never adds, removes or renames a slot, and keeps
/// every slot well formed.
pub proof fn lemma_resolve_preserves_wf(slots: Seq<SlotView>, es: Seq<EntryView>)
    requires
        forall|i: int| 0 <= i < slots.len() ==> crate::uniform::slot_wf(#[trigger] slots[i]),
    ensures
        spec_resolve(slots, es).0.len() == slots.len(),
        forall|i: int|
            0 <= i < slots.len() ==> (#[trigger] spec_resolve(slots, es).0[i]).name
                == slots[i].name,
        forall|i: int|
            0 <= i < slots.len() ==> crate::uniform::slot_wf(#[trigger] spec_resolve(slots, es).0[i]),
    decreases es.len(),
{
    if es.len() == 0 {
    } else {
        let step = spec_apply_directive(slots, es[0]);
        lemma_apply_directive_keeps_names(slots, es[0]);
        lemma_apply_directive_preserves_wf(slots, es[0]);
        lemma_resolve_preserves_wf(step.0, es.drop_first());
    }
}

/// The first slot with the given name, by linear search.
fn find_slot_index(slots: &Vec<UniformSlot>, name: &String) -> (r: Option<usize>)
    ensures
        match r {
            Some(i) => i < slots@.len() && Some(i as int) == find_slot(slot_views(slots@), name@),
            None => find_slot(slot_views(slots@), name@) is None,
        },
{
    let ghost views = slot_views(slots@);
    let mut k: usize = 0;
    while k < slots.len()
        invariant
            k <= slots@.len(),
            views == slot_views(slots@),
            forall|j: int| 0 <= j < k ==> (#[trigger] views[j]).name != name@,
        decreases slots@.len() - k,
    {
        let slot = &slots[k];
        if slot.name == *name {
            proof {
                lemma_find_slot_characterizes(views, name@);
                assert(views[k as int].name == name@);
                if let Some(i) = find_slot(views, name@) {
                    assert(i == k as int);
                } else {
                    assert(false);
                }
            }
            return Some(k);
        }
        assert(views[k as int].name != name@);
        k = k + 1;
    }
    proof {
        lemma_find_slot_characterizes(views, name@);
        if let Some(i) = find_slot(views, name@) {
            assert(views[i].name == name@);
            assert(false);
        }
    }
    None
}

/// Applies every directive, in order, to the slots, returning the resolved
/// slots and the mismatches recorded along the way — exactly the fold
/// [`spec_resolve`] describes.
pub fn resolve_roles(slots: Vec<UniformSlot>, entries: &Vec<ConfigEntry>) -> (r: (
    Vec<UniformSlot>,
    Vec<RoleMismatch>,
))
    ensures
        slot_views(r.0@) == spec_resolve(slot_views(slots@), entry_views(entries@)).0,
        mismatch_views(r.1@) == spec_resolve(slot_views(slots@), entry_views(entries@)).1,
{
    let ghost orig = slot_views(slots@);
    let ghost all_entries = entry_views(entries@);
    let mut slots = slots;
    let mut mismatches: Vec<RoleMismatch> = Vec::new();
    let color_word: String = "color".to_owned();
    let resolution_word: String = "resolution".to_owned();
    proof {
        assert(all_entries.skip(0) =~= all_entries);
        assert(mismatch_views(mismatches@) =~= Seq::<Seq<char>>::empty());
        assert(mismatch_views(mismatches@) + spec_resolve(slot_views(slots@), all_entries).1
            =~= spec_resolve(slot_views(slots@), all_entries).1);
    }
    let mut k: usize = 0;
    while k < entries.len()
        invariant
            k <= entries@.len(),
            all_entries == entry_views(entries@),
            color_word@ == "color"@,
            resolution_word@ == "resolution"@,
            spec_resolve(orig, all_entries) == {
                let rest = spec_resolve(slot_views(slots@), all_entries.skip(k as int));
                (rest.0, mismatch_views(mismatches@) + rest.1)
            },
        decreases entries@.len() - k,
    {
        let ghost pre = slot_views(slots@);
        let ghost remaining = all_entries.skip(k as int);
        let entry = &entries[k];
        proof {
            assert(remaining[0] == all_entries[k as int]);
            assert(remaining.drop_first() =~= all_entries.skip(k as int + 1));
        }
        let ghost step = spec_apply_directive(pre, entry@);
        let ghost pre_mismatches = mismatch_views(mismatches@);
        match find_slot_index(&slots, &entry.key) {
            None => {
                assert(step == (pre, Option::<Seq<char>>::None));
            },
            Some(i) => {
                let tag = slots[i].tag;
                match &entry.value {
                    ConfigValue::Text(t) => {
                        if *t == color_word {
                            if tag == (TypeTag { kind: ScalarKind::Float, arity: Arity::Three }) {
                                let updated = UniformSlot {
                                    name: slots[i].name.clone(),
                                    tag: tag,
                                    value: UniformValue::Float(
                                        vec![F32_ONE_BITS, F32_ONE_BITS, F32_ONE_BITS],
                                    ),
                                    role: Some(Role::Color),
                                };
                                slots.set(i, updated);
                                proof {
                                    assert(slot_views(slots@) =~~= step.0);
                                }
                            } else if tag == (TypeTag {
                                kind: ScalarKind::Float,
                                arity: Arity::Four,
                            }) {
                                let updated = UniformSlot {
                                    name: slots[i].name.clone(),
                                    tag: tag,
                                    value: UniformValue::Float(
                                        vec![F32_ONE_BITS, F32_ONE_BITS, F32_ONE_BITS, F32_ONE_BITS],
                                    ),
                                    role: Some(Role::ColorRgba),
                                };
                                slots.set(i, updated);
                                proof {
                                    assert(slot_views(slots@) =~~= step.0);
                                }
                            } else {
                                mismatches.push(RoleMismatch { name: entry.key.clone() });
                            }
                        } else if *t == resolution_word {
                            if tag == (TypeTag { kind: ScalarKind::Float, arity: Arity::Two }) {
                                let updated = UniformSlot {
                                    name: slots[i].name.clone(),
                                    tag: tag,
                                    value: UniformValue::Float(vec![0u32, 0u32]),
                                    role: Some(Role::Resolution),
                                };
                                slots.set(i, updated);
                                proof {
                                    assert(slot_views(slots@) =~~= step.0);
                                }
                            } else {
                                mismatches.push(RoleMismatch { name: entry.key.clone() });
                            }
                        } else {
                            assert(step == (pre, Option::<Seq<char>>::None));
                        }
                    },
                    ConfigValue::Integer(n) => {
                        let n = *n;
                        if tag == (TypeTag { kind: ScalarKind::Int, arity: Arity::One })
                            && n >= i32::MIN as i64 && n <= i32::MAX as i64 {
                            let updated = UniformSlot {
                                name: slots[i].name.clone(),
                                tag: tag,
                                value: UniformValue::Int(vec![n as i32]),
                                role: slots[i].role,
                            };
                            slots.set(i, updated);
                            proof {
                                assert(slot_views(slots@) =~~= step.0);
                            }
                        } else {
                            assert(step == (pre, Option::<Seq<char>>::None));
                        }
                    },
                    ConfigValue::Other => {
                        assert(step == (pre, Option::<Seq<char>>::None));
                    },
                }
            },
        }
        proof {
            assert(slot_views(slots@) =~~= step.0);
            let rest2 = spec_resolve(step.0, all_entries.skip(k as int + 1));
            match step.1 {
                Some(m) => {
                    assert(mismatch_views(mismatches@) =~= pre_mismatches + seq![m]);
                    assert(pre_mismatches + (seq![m] + rest2.1) =~= (pre_mismatches + seq![m])
                        + rest2.1);
                },
                None => {
                    assert(mismatch_views(mismatches@) == pre_mismatches);
                },
            }
        }
        k = k + 1;
    }
    proof {
        assert(all_entries.skip(all_entries.len() as int) =~= Seq::<EntryView>::empty());
        assert(mismatch_views(mismatches@) + Seq::<Seq<char>>::empty() =~= mismatch_views(
            mismatches@,
        ));
    }
    (slots, mismatches)
}

} // verus!
