//! The session state machine: watch-event decisions, play/pause control,
//! mouse latching, the frame update pipeline, and failure-safe reloads.

use shade_storm::load::{build_uniform_set, plan_load};
use shade_storm::registry::{GpuType, UniformDeclaration};
use shade_storm::session::{
    advance_frame, apply_control, apply_reload, decide_watch_events, update_mouse, ControlEvent,
    FrameInput, Session, WatchDecision, WatchEvent,
};
use shade_storm::store::{Mode, ShadertoyUniforms, UniformSet};
use shade_storm::uniform::{Role, UniformValue};

fn tick_input(time: f32, delta: f32) -> FrameInput {
    FrameInput {
        width_bits: 1024.0f32.to_bits(),
        height_bits: 768.0f32.to_bits(),
        time_bits: time.to_bits(),
        time_delta_bits: delta.to_bits(),
        frame_rate_bits: 60.0f32.to_bits(),
        year_bits: 2024.0f32.to_bits(),
        month_bits: 0.0f32.to_bits(),
        day_bits: 14.0f32.to_bits(),
        seconds_bits: 43200.0f32.to_bits(),
    }
}

fn shadertoy_session() -> Session<u32> {
    let (set, _) = build_uniform_set(Mode::Shadertoy, Vec::new(), &Vec::new()).unwrap();
    Session::new(1u32, set)
}

fn freeform_session() -> Session<u32> {
    let source = b"+++\ntint = \"color\"\nsize = \"resolution\"\n+++\nvoid main() {}\n".to_vec();
    let plan = plan_load(&source, Mode::Freeform).unwrap();
    let decls = vec![
        UniformDeclaration { name: "tint".to_string(), ty: GpuType::FloatVec3 },
        UniformDeclaration { name: "size".to_string(), ty: GpuType::FloatVec2 },
        UniformDeclaration { name: "knob".to_string(), ty: GpuType::Float },
    ];
    let (set, _) = build_uniform_set(Mode::Freeform, decls, &plan.directives).unwrap();
    Session::new(1u32, set)
}

fn binding_pairs(set: &UniformSet) -> Vec<(String, UniformValue)> {
    set.bindings().into_iter().map(|b| (b.name, b.value)).collect()
}

#[test]
fn empty_drain_is_idle_and_touches_nothing() {
    let session = shadertoy_session();
    let before = binding_pairs(&session.state.uniforms);
    let events: Vec<WatchEvent> = Vec::new();
    let decision = decide_watch_events(&events, &"/a/v.glsl".to_string(), &"/a/f.glsl".to_string());
    assert_eq!(decision, WatchDecision::Idle);
    let after = binding_pairs(&session.state.uniforms);
    assert_eq!(before, after);
    assert_eq!(session.state.program, 1u32);
}

#[test]
fn write_to_an_active_path_means_reload() {
    let vs = "/shaders/simple.vs.glsl".to_string();
    let fs = "/shaders/storm.glsl".to_string();
    let events = vec![
        WatchEvent::Write("/shaders/unrelated.glsl".to_string()),
        WatchEvent::Write(fs.clone()),
    ];
    assert_eq!(decide_watch_events(&events, &vs, &fs), WatchDecision::Reload);
    let events = vec![WatchEvent::Create(vs.clone())];
    assert_eq!(decide_watch_events(&events, &vs, &fs), WatchDecision::Reload);
}

#[test]
fn many_touches_still_mean_one_reload() {
    let vs = "/v".to_string();
    let fs = "/f".to_string();
    let events = vec![
        WatchEvent::Write(fs.clone()),
        WatchEvent::Write(fs.clone()),
        WatchEvent::Create(vs.clone()),
    ];
    assert_eq!(decide_watch_events(&events, &vs, &fs), WatchDecision::Reload);
}

#[test]
fn removal_of_an_active_path_means_exit() {
    let vs = "/v".to_string();
    let fs = "/f".to_string();
    let events = vec![WatchEvent::Write(fs.clone()), WatchEvent::Remove(fs.clone())];
    assert_eq!(decide_watch_events(&events, &vs, &fs), WatchDecision::Exit(fs.clone()));
}

#[test]
fn unrelated_events_are_ignored() {
    let vs = "/v".to_string();
    let fs = "/f".to_string();
    let events = vec![
        WatchEvent::Write("/elsewhere".to_string()),
        WatchEvent::Remove("/elsewhere".to_string()),
        WatchEvent::Other,
    ];
    assert_eq!(decide_watch_events(&events, &vs, &fs), WatchDecision::Idle);
}

#[test]
fn escape_requests_exit_without_touching_state() {
    let mut session = shadertoy_session();
    let before = binding_pairs(&session.state.uniforms);
    assert!(apply_control(&mut session, ControlEvent::Escape));
    assert!(session.playing);
    assert_eq!(binding_pairs(&session.state.uniforms), before);
}

#[test]
fn space_toggles_playing() {
    let mut session = shadertoy_session();
    assert!(session.playing);
    assert!(!apply_control(&mut session, ControlEvent::Space));
    assert!(!session.playing);
    assert!(!apply_control(&mut session, ControlEvent::Space));
    assert!(session.playing);
    assert!(!apply_control(&mut session, ControlEvent::Other));
    assert!(session.playing);
}

#[test]
fn failed_reload_keeps_the_pair_untouched() {
    let mut session = freeform_session();
    let before = binding_pairs(&session.state.uniforms);
    let outcome: Result<(u32, UniformSet), _> =
        Err(shade_storm::error::LoadError::Compile("syntax error".to_string()));
    let logged = apply_reload(&mut session, outcome);
    assert_eq!(
        logged,
        Some(shade_storm::error::LoadError::Compile("syntax error".to_string()))
    );
    assert_eq!(session.state.program, 1u32);
    assert_eq!(binding_pairs(&session.state.uniforms), before);
}

#[test]
fn successful_reload_replaces_both_halves_together() {
    let mut session = shadertoy_session();
    let (new_set, _) = build_uniform_set(Mode::Shadertoy, Vec::new(), &Vec::new()).unwrap();
    let expected = binding_pairs(&new_set);
    let logged = apply_reload(&mut session, Ok((2u32, new_set)));
    assert_eq!(logged, None);
    assert_eq!(session.state.program, 2u32);
    assert_eq!(binding_pairs(&session.state.uniforms), expected);
}

#[test]
fn sixty_ticks_accumulate_time_and_frames() {
    let mut session = shadertoy_session();
    let mut time = 0.0f32;
    for _ in 0..60 {
        // The host layer accumulates the time role in binary32 and hands the
        // sum in; the tick stores it, advances the frame counter and the
        // other roles.
        time += 0.016f32;
        advance_frame(&mut session, &tick_input(time, 0.016), false);
    }
    match &session.state.uniforms {
        UniformSet::Shadertoy(u) => {
            assert_eq!(u.frame, 60);
            let t = f32::from_bits(u.time);
            assert!((t - 0.96).abs() < 1e-4, "time drifted: {}", t);
            assert_eq!(u.time_delta, 0.016f32.to_bits());
            assert_eq!(u.resolution_z, 1.0f32.to_bits());
        }
        _ => panic!("expected the Shadertoy record"),
    }
    let pairs = binding_pairs(&session.state.uniforms);
    assert_eq!(pairs[4].0, "iFrame");
    assert_eq!(pairs[4].1, UniformValue::Int(vec![60]));
}

#[test]
fn mouse_click_latches_and_drag_freezes_on_release() {
    let mut session = shadertoy_session();
    let set = &mut session.state.uniforms;
    // Press at (100, 50): both the click origin and the drag position latch.
    update_mouse(set, true, true, 100.0f32.to_bits(), 50.0f32.to_bits());
    // Held while moving to (120, 60): only the drag position follows.
    update_mouse(set, false, true, 120.0f32.to_bits(), 60.0f32.to_bits());
    match &*set {
        UniformSet::Shadertoy(u) => {
            assert_eq!((u.mouse_click_x, u.mouse_click_y), (100.0f32.to_bits(), 50.0f32.to_bits()));
            assert_eq!((u.mouse_x, u.mouse_y), (120.0f32.to_bits(), 60.0f32.to_bits()));
        }
        _ => panic!("expected the Shadertoy record"),
    }
    // Released, then moving to (200, 200): everything stays frozen.
    update_mouse(set, false, false, 200.0f32.to_bits(), 200.0f32.to_bits());
    match &*set {
        UniformSet::Shadertoy(u) => {
            assert_eq!((u.mouse_click_x, u.mouse_click_y), (100.0f32.to_bits(), 50.0f32.to_bits()));
            assert_eq!((u.mouse_x, u.mouse_y), (120.0f32.to_bits(), 60.0f32.to_bits()));
        }
        _ => panic!("expected the Shadertoy record"),
    }
}

#[test]
fn mouse_leaves_a_freeform_store_alone() {
    let mut session = freeform_session();
    let before = binding_pairs(&session.state.uniforms);
    update_mouse(&mut session.state.uniforms, true, true, 1.0f32.to_bits(), 2.0f32.to_bits());
    assert_eq!(binding_pairs(&session.state.uniforms), before);
}

#[test]
fn paused_session_skips_the_update() {
    let mut session = shadertoy_session();
    apply_control(&mut session, ControlEvent::Space);
    let before = binding_pairs(&session.state.uniforms);
    advance_frame(&mut session, &tick_input(0.016, 0.016), false);
    assert_eq!(binding_pairs(&session.state.uniforms), before);
}

#[test]
fn a_reload_forces_one_update_even_while_paused() {
    let mut session = shadertoy_session();
    apply_control(&mut session, ControlEvent::Space);
    advance_frame(&mut session, &tick_input(0.016, 0.016), true);
    match &session.state.uniforms {
        UniformSet::Shadertoy(u) => assert_eq!(u.frame, 1),
        _ => panic!("expected the Shadertoy record"),
    }
}

#[test]
fn freeform_tick_updates_only_resolution_roles() {
    let mut session = freeform_session();
    advance_frame(&mut session, &tick_input(0.016, 0.016), false);
    match &session.state.uniforms {
        UniformSet::Freeform(slots) => {
            let one = 1.0f32.to_bits();
            // The color-role slot keeps its opaque-white value.
            assert_eq!(slots[0].role, Some(Role::Color));
            assert_eq!(slots[0].value, UniformValue::Float(vec![one, one, one]));
            // The resolution-role slot follows the viewport.
            assert_eq!(slots[1].role, Some(Role::Resolution));
            assert_eq!(
                slots[1].value,
                UniformValue::Float(vec![1024.0f32.to_bits(), 768.0f32.to_bits()])
            );
            // The role-free slot is untouched.
            assert_eq!(slots[2].role, None);
            assert_eq!(slots[2].value, UniformValue::Float(vec![0u32]));
        }
        _ => panic!("expected a freeform store"),
    }
}

#[test]
fn shadertoy_bindings_carry_the_fixed_names_in_order() {
    let set = UniformSet::Shadertoy(ShadertoyUniforms::new());
    let names: Vec<String> = set.bindings().into_iter().map(|b| b.name).collect();
    assert_eq!(
        names,
        vec![
            "iResolution",
            "iTime",
            "iGlobalTime",
            "iTimeDelta",
            "iFrame",
            "iFrameRate",
            "iMouse",
            "iDate"
        ]
    );
}

#[test]
fn the_deprecated_time_alias_carries_the_same_value() {
    let mut session = shadertoy_session();
    advance_frame(&mut session, &tick_input(0.25, 0.25), false);
    let pairs = binding_pairs(&session.state.uniforms);
    assert_eq!(pairs[1].0, "iTime");
    assert_eq!(pairs[2].0, "iGlobalTime");
    assert_eq!(pairs[1].1, pairs[2].1);
    assert_eq!(pairs[1].1, UniformValue::Float(vec![0.25f32.to_bits()]));
}
