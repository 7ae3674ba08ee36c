//! The load pipeline's verified halves.  A load or reload pass runs:
//! source splitting and configuration parsing ([`plan_load`]), then the GPU
//! compile (the host layer's call), then registry and role resolution
//! ([`build_uniform_set`]).  The host layer strings the halves together and
//! owns only the file read, the boilerplate text around the GLSL body, and
//! the driver call between them.

use vstd::prelude::*;

use crate::config::{
    entry_views, parse_config_block, toml_top_level_entries, ConfigEntry, EntryView,
};
use crate::error::LoadError;
use crate::registry::{build_slots, decl_views, spec_slot_of, tag_of, DeclView, UniformDeclaration};
use crate::resolve::{
    lemma_resolve_preserves_wf, mismatch_views, resolve_roles, spec_resolve, RoleMismatch,
};
use crate::source::{copy_range, first_delim, spec_split, split_source, SourceSplit, SplitView};
use crate::store::{mode_of, set_wf, Mode, SetView, ShadertoyUniforms, UniformSet};
use crate::uniform::{lemma_default_value_matches_tag, slot_views, slot_wf, UniformSlot};

verus! {

/// What a load pass hands the compiler and the set builder: the sticky
/// mode, the GLSL body, and the configuration directives (empty outside
/// freeform mode).
#[derive(Debug)]
pub struct LoadPlan {
    pub mode: Mode,
    pub body: Vec<u8>,
    pub directives: Vec<ConfigEntry>,
}

/// The mathematical value of a [`LoadPlan`].
#[verifier::ext_equal]
pub struct PlanView {
    pub mode: Mode,
    pub body: Seq<u8>,
    pub directives: Seq<EntryView>,
}

impl View for LoadPlan {
    type V = PlanView;

    open spec fn view(&self) -> PlanView {
        PlanView { mode: self.mode, body: self.body@, directives: entry_views(self.directives@) }
    }
}

/// The mode of the initial load: the command-line flag forces the Shadertoy
/// convention; otherwise the presence of the configuration-block delimiter
/// selects freeform mode, and its absence falls back to Shadertoy.  Across
/// reloads the mode is sticky and this function is not consulted again.
pub open spec fn spec_select_mode(force_shadertoy: bool, source: Seq<u8>) -> Mode {
    if force_shadertoy {
        Mode::Shadertoy
    } else if first_delim(source, 0) is Some {
        Mode::Freeform
    } else {
        Mode::Shadertoy
    }
}

/// Executable twin of [`spec_select_mode`].
pub fn select_mode(force_shadertoy: bool, source: &Vec<u8>) -> (m: Mode)
    ensures
        m == spec_select_mode(force_shadertoy, source@),
{
    if force_shadertoy {
        Mode::Shadertoy
    } else {
        match crate::source::find_delim(source, 0) {
            Some(_) => Mode::Freeform,
            None => Mode::Shadertoy,
        }
    }
}

/// Turns a fragment-shader file into a load plan for the given (sticky)
/// mode.
///
/// In Shadertoy mode the whole file is the GLSL body and no configuration
/// block is read, even if a delimiter occurs.  In freeform mode the file
/// splits as [`spec_split`] says: no delimiter means the whole file is the
/// body with no directives; an unclosed block is `MalformedBlock`; a fenced
/// block is parsed, and a parse failure is `ConfigParse` with the parser's
/// diagnostic.  These are the only error cases, so success is owed on every
/// other input.
pub fn plan_load(source: &Vec<u8>, mode: Mode) -> (r: Result<LoadPlan, LoadError>)
    ensures
        mode == Mode::Shadertoy ==> (r matches Ok(p) && p@ == (PlanView {
            mode: Mode::Shadertoy,
            body: source@,
            directives: Seq::empty(),
        })),
        mode == Mode::Freeform ==> match spec_split(source@) {
            SplitView::NoBlock => r matches Ok(p) && p@ == (PlanView {
                mode: Mode::Freeform,
                body: source@,
                directives: Seq::empty(),
            }),
            SplitView::Malformed => r matches Err(e) && e is MalformedBlock,
            SplitView::Blocks { config, body } => match toml_top_level_entries(config) {
                None => r matches Err(e) && e is ConfigParse,
                Some(es) => r matches Ok(p) && p@ == (PlanView {
                    mode: Mode::Freeform,
                    body: body,
                    directives: es,
                }),
            },
        },
{
    match mode {
        Mode::Shadertoy => {
            let body = copy_range(source, 0, source.len());
            proof {
                assert(body@ =~= source@);
            }
            Ok(LoadPlan { mode: Mode::Shadertoy, body, directives: Vec::new() })
        },
        Mode::Freeform => match split_source(source) {
            SourceSplit::NoBlock => {
                let body = copy_range(source, 0, source.len());
                proof {
                    assert(body@ =~= source@);
                }
                Ok(LoadPlan { mode: Mode::Freeform, body, directives: Vec::new() })
            },
            SourceSplit::Malformed => Err(LoadError::MalformedBlock),
            SourceSplit::Blocks { config, body } => match parse_config_block(config.as_slice()) {
                Err(diagnostic) => Err(LoadError::ConfigParse(diagnostic)),
                Ok(directives) => Ok(LoadPlan { mode: Mode::Freeform, body, directives }),
            },
        },
    }
}

/// The registry accepts every declared uniform's type.
pub open spec fn registry_ok(ds: Seq<DeclView>) -> bool {
    forall|i: int| 0 <= i < ds.len() ==> tag_of(#[trigger] ds[i].ty) is Some
}

/// The uniform set a successful build yields: the fixed all-zero Shadertoy
/// record, or the registry's default slots with the directives resolved
/// over them.
pub open spec fn spec_built_set(mode: Mode, ds: Seq<DeclView>, es: Seq<EntryView>) -> SetView {
    match mode {
        Mode::Shadertoy => SetView::Shadertoy(ShadertoyUniforms::initial()),
        Mode::Freeform => SetView::Freeform(
            spec_resolve(ds.map_values(|d: DeclView| spec_slot_of(d)), es).0,
        ),
    }
}

/// The mismatches a successful build records.
pub open spec fn spec_built_mismatches(mode: Mode, ds: Seq<DeclView>, es: Seq<EntryView>) -> Seq<
    Seq<char>,
> {
    match mode {
        Mode::Shadertoy => Seq::empty(),
        Mode::Freeform => spec_resolve(ds.map_values(|d: DeclView| spec_slot_of(d)), es).1,
    }
}

/// Builds the uniform set for a load pass: in Shadertoy mode the fixed
/// record (declarations and directives are not consulted); in freeform mode
/// the registry's slots with the directives resolved over them.  Fails
/// exactly when, in freeform mode, a declared uniform's type is
/// unsupported.  The built set always carries the requested mode and
/// satisfies the store invariant.
#[verifier::rlimit(50)]
pub fn build_uniform_set(
    mode: Mode,
    declared: Vec<UniformDeclaration>,
    directives: &Vec<ConfigEntry>,
) -> (r: Result<(UniformSet, Vec<RoleMismatch>), LoadError>)
    requires
        mode == Mode::Freeform ==> forall|i: int, j: int|
            0 <= i < j < declared@.len() ==> (#[trigger] declared@[i]@).name != (
            #[trigger] declared@[j]@).name,
    ensures
        mode == Mode::Shadertoy ==> r is Ok,
        mode == Mode::Freeform ==> (r is Ok <==> registry_ok(decl_views(declared@))),
        r matches Ok(pair) ==> {
            &&& pair.0@ == spec_built_set(mode, decl_views(declared@), entry_views(directives@))
            &&& mismatch_views(pair.1@) == spec_built_mismatches(
                mode,
                decl_views(declared@),
                entry_views(directives@),
            )
            &&& mode_of(pair.0@) == mode
            &&& set_wf(pair.0@)
        },
        r matches Err(e) ==> exists|i: int|
            {
                &&& 0 <= i < declared@.len()
                &&& tag_of(#[trigger] declared@[i]@.ty) is None
                &&& (forall|j: int| 0 <= j < i ==> tag_of(#[trigger] declared@[j]@.ty) is Some)
                &&& (e matches LoadError::UnsupportedUniformType(name) && name@
                    == declared@[i]@.name)
            },
{
    match mode {
        Mode::Shadertoy => {
            let set = UniformSet::Shadertoy(ShadertoyUniforms::new());
            Ok((set, Vec::new()))
        },
        Mode::Freeform => {
            let ghost ds = decl_views(declared@);
            proof {
                assert forall|i: int| 0 <= i < ds.len() implies (#[trigger] ds[i]).ty
                    == declared@[i]@.ty by {}
                if forall|i: int|
                    0 <= i < declared@.len() ==> tag_of(#[trigger] declared@[i]@.ty) is Some {
                    assert forall|i: int| 0 <= i < ds.len() implies tag_of(
                        #[trigger] ds[i].ty,
                    ) is Some by {
                        assert(tag_of(declared@[i]@.ty) is Some);
                    }
                }
                if registry_ok(ds) {
                    assert forall|i: int| 0 <= i < declared@.len() implies tag_of(
                        #[trigger] declared@[i]@.ty,
                    ) is Some by {
                        assert(tag_of(ds[i].ty) is Some);
                    }
                }
            }
            match build_slots(&declared) {
                Err(e) => Err(e),
                Ok(slots) => {
                    let ghost defaults = ds.map_values(|d: DeclView| spec_slot_of(d));
                    proof {
                        assert(slot_views(slots@) == defaults);
                        assert forall|i: int| 0 <= i < defaults.len() implies slot_wf(
                            #[trigger] defaults[i],
                        ) by {
                            lemma_default_value_matches_tag(tag_of(ds[i].ty).unwrap());
                        }
                    }
                    let (resolved, mismatches) = resolve_roles(slots, directives);
                    proof {
                        lemma_resolve_preserves_wf(defaults, entry_views(directives@));
                    }
                    Ok((UniformSet::Freeform(resolved), mismatches))
                },
            }
        },
    }
}

/// Round trip: loading the same source twice yields identical uniform
/// sets.  The built set is a function of the mode, the declared uniforms
/// and the configuration directives alone — and [`plan_load`]'s contract
/// pins mode, body and directives as functions of the source bytes — so two
/// loads from identical input agree on every role and every default value.
pub proof fn lemma_build_deterministic(
    mode: Mode,
    ds: Seq<DeclView>,
    es: Seq<EntryView>,
    first: SetView,
    second: SetView,
)
    requires
        first == spec_built_set(mode, ds, es),
        second == spec_built_set(mode, ds, es),
    ensures
        first == second,
{
}

} // verus!
