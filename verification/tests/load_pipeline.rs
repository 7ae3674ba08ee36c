//! The load pipeline end to end: source splitting, configuration parsing,
//! the uniform type registry, and role resolution.

use shade_storm::config::{ConfigEntry, ConfigValue};
use shade_storm::error::LoadError;
use shade_storm::load::{build_uniform_set, plan_load, select_mode};
use shade_storm::registry::{build_slots, GpuType, UniformDeclaration};
use shade_storm::resolve::resolve_roles;
use shade_storm::source::{split_source, SourceSplit};
use shade_storm::store::{Mode, UniformSet};
use shade_storm::uniform::{Arity, Role, ScalarKind, UniformValue};

fn decl(name: &str, ty: GpuType) -> UniformDeclaration {
    UniformDeclaration { name: name.to_string(), ty }
}

#[test]
fn registry_builds_shape_matched_defaults() {
    let decls = vec![
        decl("a", GpuType::Float),
        decl("b", GpuType::FloatVec3),
        decl("c", GpuType::IntVec2),
        decl("d", GpuType::BoolVec4),
        decl("e", GpuType::UnsignedInt64Vec2),
        decl("f", GpuType::Double),
        decl("g", GpuType::UnsignedInt),
        decl("h", GpuType::Int64Vec3),
    ];
    let slots = build_slots(&decls).unwrap();
    assert_eq!(slots.len(), 8);
    for slot in &slots {
        assert_eq!(slot.role, None);
    }
    assert_eq!(slots[0].value, UniformValue::Float(vec![0u32]));
    assert_eq!(slots[1].value, UniformValue::Float(vec![0u32; 3]));
    assert_eq!(slots[2].value, UniformValue::Int(vec![0i32; 2]));
    assert_eq!(slots[3].value, UniformValue::Bool(vec![false; 4]));
    assert_eq!(slots[4].value, UniformValue::UnsignedInt64(vec![0u64; 2]));
    assert_eq!(slots[5].value, UniformValue::Double(vec![0u64]));
    assert_eq!(slots[6].value, UniformValue::UnsignedInt(vec![0u32]));
    assert_eq!(slots[7].value, UniformValue::Int64(vec![0i64; 3]));
    assert_eq!(slots[1].tag.kind, ScalarKind::Float);
    assert_eq!(slots[1].tag.arity, Arity::Three);
    assert_eq!(slots[1].name, "b");
}

#[test]
fn registry_rejects_unsupported_type() {
    let decls = vec![decl("ok", GpuType::Float), decl("sampler", GpuType::Unsupported)];
    let err = build_slots(&decls).unwrap_err();
    assert_eq!(err, LoadError::UnsupportedUniformType("sampler".to_string()));
}

#[test]
fn build_fails_on_unsupported_in_freeform() {
    let decls = vec![decl("sampler", GpuType::Unsupported)];
    let err = build_uniform_set(Mode::Freeform, decls, &Vec::new()).unwrap_err();
    assert_eq!(err, LoadError::UnsupportedUniformType("sampler".to_string()));
}

#[test]
fn shadertoy_build_round_trip() {
    let (set1, m1) = build_uniform_set(Mode::Shadertoy, Vec::new(), &Vec::new()).unwrap();
    let (set2, m2) = build_uniform_set(Mode::Shadertoy, Vec::new(), &Vec::new()).unwrap();
    assert_eq!(set1, set2);
    assert!(m1.is_empty() && m2.is_empty());
    assert_eq!(set1.bindings().len(), set2.bindings().len());
    for (b1, b2) in set1.bindings().iter().zip(set2.bindings().iter()) {
        assert_eq!(b1, b2);
    }
}

#[test]
fn freeform_build_round_trip() {
    let source = b"+++\ntint = \"color\"\n+++\nvoid main() {}\n".to_vec();
    let mk = || {
        let plan = plan_load(&source, Mode::Freeform).unwrap();
        let decls = vec![decl("tint", GpuType::FloatVec3), decl("extra", GpuType::Int)];
        build_uniform_set(Mode::Freeform, decls, &plan.directives).unwrap()
    };
    let (set1, _) = mk();
    let (set2, _) = mk();
    assert_eq!(set1, set2);
}

#[test]
fn color_directive_retags_vec3_as_opaque_white() {
    let source = b"// preamble is ignored\n+++\ntint = \"color\"\n+++\nvoid main() {}\n".to_vec();
    let plan = plan_load(&source, Mode::Freeform).unwrap();
    let decls = vec![decl("tint", GpuType::FloatVec3)];
    let (set, mismatches) = build_uniform_set(Mode::Freeform, decls, &plan.directives).unwrap();
    assert!(mismatches.is_empty());
    let one = 1.0f32.to_bits();
    match set {
        UniformSet::Freeform(slots) => {
            assert_eq!(slots[0].role, Some(Role::Color));
            assert_eq!(slots[0].value, UniformValue::Float(vec![one, one, one]));
        }
        _ => panic!("expected a freeform store"),
    }
}

#[test]
fn color_directive_on_vec4_gives_rgba() {
    let entries = vec![ConfigEntry {
        key: "tint".to_string(),
        value: ConfigValue::Text("color".to_string()),
    }];
    let slots = build_slots(&vec![decl("tint", GpuType::FloatVec4)]).unwrap();
    let (resolved, mismatches) = resolve_roles(slots, &entries);
    assert!(mismatches.is_empty());
    let one = 1.0f32.to_bits();
    assert_eq!(resolved[0].role, Some(Role::ColorRgba));
    assert_eq!(resolved[0].value, UniformValue::Float(vec![one; 4]));
}

#[test]
fn resolution_directive_retags_vec2() {
    let entries = vec![ConfigEntry {
        key: "size".to_string(),
        value: ConfigValue::Text("resolution".to_string()),
    }];
    let slots = build_slots(&vec![decl("size", GpuType::FloatVec2)]).unwrap();
    let (resolved, mismatches) = resolve_roles(slots, &entries);
    assert!(mismatches.is_empty());
    assert_eq!(resolved[0].role, Some(Role::Resolution));
    assert_eq!(resolved[0].value, UniformValue::Float(vec![0u32, 0u32]));
}

#[test]
fn resolution_directive_on_vec4_is_recorded_mismatch() {
    let source = b"+++\nsize = \"resolution\"\n+++\nvoid main() {}\n".to_vec();
    let plan = plan_load(&source, Mode::Freeform).unwrap();
    let decls = vec![decl("size", GpuType::FloatVec4)];
    let (set, mismatches) = build_uniform_set(Mode::Freeform, decls, &plan.directives).unwrap();
    assert_eq!(mismatches.len(), 1);
    assert_eq!(mismatches[0].name, "size");
    match set {
        UniformSet::Freeform(slots) => {
            // The slot keeps its generic float-vec4 zero default and no role.
            assert_eq!(slots[0].role, None);
            assert_eq!(slots[0].value, UniformValue::Float(vec![0u32; 4]));
        }
        _ => panic!("expected a freeform store"),
    }
}

#[test]
fn color_directive_on_scalar_is_recorded_mismatch() {
    let entries = vec![ConfigEntry {
        key: "x".to_string(),
        value: ConfigValue::Text("color".to_string()),
    }];
    let slots = build_slots(&vec![decl("x", GpuType::Float)]).unwrap();
    let (resolved, mismatches) = resolve_roles(slots, &entries);
    assert_eq!(mismatches.len(), 1);
    assert_eq!(mismatches[0].name, "x");
    assert_eq!(resolved[0].role, None);
}

#[test]
fn integer_literal_sets_initial_value() {
    let source = b"+++\niterations = 250\n+++\nvoid main() {}\n".to_vec();
    let plan = plan_load(&source, Mode::Freeform).unwrap();
    let decls = vec![decl("iterations", GpuType::Int)];
    let (set, mismatches) = build_uniform_set(Mode::Freeform, decls, &plan.directives).unwrap();
    assert!(mismatches.is_empty());
    match set {
        UniformSet::Freeform(slots) => {
            assert_eq!(slots[0].role, None);
            assert_eq!(slots[0].value, UniformValue::Int(vec![250]));
        }
        _ => panic!("expected a freeform store"),
    }
}

#[test]
fn integer_literal_outside_i32_range_is_ignored() {
    let entries = vec![ConfigEntry {
        key: "n".to_string(),
        value: ConfigValue::Integer(5_000_000_000),
    }];
    let slots = build_slots(&vec![decl("n", GpuType::Int)]).unwrap();
    let (resolved, mismatches) = resolve_roles(slots, &entries);
    assert!(mismatches.is_empty());
    assert_eq!(resolved[0].value, UniformValue::Int(vec![0]));
}

#[test]
fn integer_literal_on_non_int_slot_is_ignored() {
    let entries = vec![ConfigEntry { key: "v".to_string(), value: ConfigValue::Integer(7) }];
    let slots = build_slots(&vec![decl("v", GpuType::FloatVec2)]).unwrap();
    let (resolved, mismatches) = resolve_roles(slots, &entries);
    assert!(mismatches.is_empty());
    assert_eq!(resolved[0].value, UniformValue::Float(vec![0u32; 2]));
}

#[test]
fn directive_for_absent_uniform_is_ignored() {
    let entries = vec![ConfigEntry {
        key: "ghost_uniform".to_string(),
        value: ConfigValue::Text("color".to_string()),
    }];
    let slots = build_slots(&vec![decl("real", GpuType::FloatVec3)]).unwrap();
    let (resolved, mismatches) = resolve_roles(slots, &entries);
    assert!(mismatches.is_empty());
    assert_eq!(resolved[0].role, None);
}

#[test]
fn unknown_text_directive_is_ignored() {
    let entries = vec![ConfigEntry {
        key: "tint".to_string(),
        value: ConfigValue::Text("sparkly".to_string()),
    }];
    let slots = build_slots(&vec![decl("tint", GpuType::FloatVec3)]).unwrap();
    let (resolved, mismatches) = resolve_roles(slots, &entries);
    assert!(mismatches.is_empty());
    assert_eq!(resolved[0].role, None);
}

#[test]
fn last_directive_wins_on_the_same_uniform() {
    let entries = vec![
        ConfigEntry { key: "n".to_string(), value: ConfigValue::Integer(3) },
        ConfigEntry { key: "n".to_string(), value: ConfigValue::Integer(7) },
    ];
    let slots = build_slots(&vec![decl("n", GpuType::Int)]).unwrap();
    let (resolved, _) = resolve_roles(slots, &entries);
    assert_eq!(resolved[0].value, UniformValue::Int(vec![7]));
}

#[test]
fn split_finds_the_three_segments() {
    let source = b"preamble\n+++\na = 1\n+++\nbody text".to_vec();
    match split_source(&source) {
        SourceSplit::Blocks { config, body } => {
            assert_eq!(config, b"a = 1\n".to_vec());
            assert_eq!(body, b"body text".to_vec());
        }
        other => panic!("expected a fenced block, got {:?}", other),
    }
}

#[test]
fn body_stops_at_a_third_delimiter() {
    let source = b"p\n+++\nt = 1\n+++\nbody\n+++\ntrailing".to_vec();
    match split_source(&source) {
        SourceSplit::Blocks { body, .. } => assert_eq!(body, b"body\n".to_vec()),
        other => panic!("expected a fenced block, got {:?}", other),
    }
}

#[test]
fn freeform_without_delimiter_is_whole_body() {
    let source = b"void main() { gl_FragColor = vec4(1.0); }\n".to_vec();
    let plan = plan_load(&source, Mode::Freeform).unwrap();
    assert_eq!(plan.body, source);
    assert!(plan.directives.is_empty());
}

#[test]
fn unclosed_block_is_malformed() {
    let source = b"x\n+++\nkey = 1\n".to_vec();
    let err = plan_load(&source, Mode::Freeform).unwrap_err();
    assert_eq!(err, LoadError::MalformedBlock);
}

#[test]
fn bad_config_text_is_a_parse_error() {
    let source = b"+++\nnot = = toml\n+++\nbody".to_vec();
    match plan_load(&source, Mode::Freeform) {
        Err(LoadError::ConfigParse(diagnostic)) => assert!(!diagnostic.is_empty()),
        other => panic!("expected a configuration parse error, got {:?}", other),
    }
}

#[test]
fn shadertoy_mode_takes_the_whole_file_verbatim() {
    let source = b"+++\ntint = \"color\"\n+++\nvoid mainImage(out vec4 c, in vec2 p) {}\n".to_vec();
    let plan = plan_load(&source, Mode::Shadertoy).unwrap();
    assert_eq!(plan.mode, Mode::Shadertoy);
    assert_eq!(plan.body, source);
    assert!(plan.directives.is_empty());
}

#[test]
fn mode_selection_follows_flag_then_delimiter() {
    let with_block = b"+++\na = 1\n+++\nbody".to_vec();
    let plain = b"void main() {}\n".to_vec();
    assert_eq!(select_mode(true, &with_block), Mode::Shadertoy);
    assert_eq!(select_mode(true, &plain), Mode::Shadertoy);
    assert_eq!(select_mode(false, &with_block), Mode::Freeform);
    assert_eq!(select_mode(false, &plain), Mode::Shadertoy);
}

#[test]
fn config_floats_and_booleans_are_carried_as_other() {
    let source = b"+++\nspeed = 1.5\non = true\n+++\nbody".to_vec();
    let plan = plan_load(&source, Mode::Freeform).unwrap();
    assert_eq!(plan.directives.len(), 2);
    for entry in &plan.directives {
        assert_eq!(entry.value, ConfigValue::Other);
    }
}
