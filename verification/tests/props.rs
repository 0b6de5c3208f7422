use star_render::params::{
    apply_settings, clamp_layers, clamp_luminosity, State, DEFAULT_LAYERS, DEFAULT_LUMINOSITY,
    LUMINOSITY_SCALE, MAX_LAYERS, MIN_LAYERS,
};
use star_render::pipeline::{render_plan, Vertex};
use star_render::shader::{fragment_shader_path, vertex_shader_path, Shader};
use star_render::shell::{scale_decision, step, LoopAction, LoopEvent, Phase, ScaleDecision};
use star_render::textures::TextureTable;

#[test]
fn luminosity_slider_clamps_to_range() {
    assert_eq!(clamp_luminosity(-1), 0);
    assert_eq!(clamp_luminosity(-1_000_000), 0);
    assert_eq!(clamp_luminosity(0), 0);
    assert_eq!(clamp_luminosity(200), 200);
    assert_eq!(clamp_luminosity(1000), 1000);
    assert_eq!(clamp_luminosity(1001), LUMINOSITY_SCALE);
    assert_eq!(clamp_luminosity(i64::MAX), LUMINOSITY_SCALE);
}

#[test]
fn layer_slider_clamps_to_range() {
    assert_eq!(clamp_layers(i64::MIN), MIN_LAYERS);
    assert_eq!(clamp_layers(0), 1);
    assert_eq!(clamp_layers(1), 1);
    assert_eq!(clamp_layers(7), 7);
    assert_eq!(clamp_layers(10), 10);
    assert_eq!(clamp_layers(11), MAX_LAYERS);
    assert_eq!(clamp_layers(i64::MAX), 10);
}

#[test]
fn settings_panel_keeps_parameters_in_bounds() {
    let mut s = State::initial(5);
    apply_settings(&mut s, 2500, -4, -17);
    assert_eq!(s.luminosity, 1000);
    assert_eq!(s.layers, 1);
    assert_eq!(s.seed, -17);
    apply_settings(&mut s, 350, 9, 0);
    assert_eq!(s.luminosity, 350);
    assert_eq!(s.layers, 9);
    assert_eq!(s.seed, 0);
}

#[test]
fn pipeline_accepts_out_of_range_parameters() {
    // The widget, not the pipeline, enforces the bounds: a parameter set far
    // outside them still yields a plan that passes the values through.
    let s = State { luminosity: 60000, layers: 200, seed: -1 };
    let p = render_plan(&s);
    assert_eq!(p.uniforms.lum, 60000);
    assert_eq!(p.uniforms.layers, 200);
    assert_eq!(p.uniforms.seed, -1);
}

#[test]
fn startup_parameters_produce_fixed_size_plan() {
    let s = State::initial(12345);
    assert_eq!(s.luminosity, DEFAULT_LUMINOSITY);
    assert_eq!(s.layers, DEFAULT_LAYERS);
    assert_eq!(s.seed, 12345);
    let p = render_plan(&s);
    assert_eq!((p.width, p.height), (512, 512));
    assert_eq!(p.uniforms.lum, 200);
    assert_eq!(p.uniforms.layers, 3);
    assert_eq!(p.uniforms.seed, 12345);
    assert_eq!((p.uniforms.res_x, p.uniforms.res_y), (512, 512));
}

#[test]
fn plan_geometry_is_the_fixed_quad() {
    let p = render_plan(&State::initial(0));
    assert_eq!(
        p.vertices,
        vec![
            Vertex { x: -1, y: -1 },
            Vertex { x: -1, y: 1 },
            Vertex { x: 1, y: -1 },
            Vertex { x: 1, y: 1 },
        ]
    );
    assert_eq!(p.indices, vec![0, 1, 2, 1, 2, 3]);
    for &i in &p.indices {
        assert!((i as usize) < p.vertices.len());
    }
    assert_eq!(p.vertex_path, "glsl/vertex.glsl");
    assert_eq!(p.fragment_path, "glsl/fragment.glsl");
}

#[test]
fn equal_parameters_give_equal_plans() {
    let s = State { luminosity: 431, layers: 8, seed: 99 };
    let a = render_plan(&s);
    let b = render_plan(&s);
    assert_eq!(a, b);
}

#[test]
fn shader_keeps_its_source_text() {
    let text = String::from("void main() { }");
    let sh = Shader::from(text.clone());
    assert_eq!(sh.src, text);
    assert_eq!(vertex_shader_path(), "glsl/vertex.glsl");
    assert_eq!(fragment_shader_path(), "glsl/fragment.glsl");
}

#[test]
fn registration_returns_fresh_handles() {
    let mut t = TextureTable::new();
    let h1 = t.register(10);
    let h2 = t.register(10);
    let h3 = t.register(11);
    assert_eq!(h1, 0);
    assert_eq!(h2, 1);
    assert_eq!(h3, 2);
    assert_ne!(h1, h2);
    assert_ne!(h2, h3);
}

#[test]
fn regenerating_gives_new_handle_same_plan() {
    // "Generate" twice with unchanged parameters: the two passes read the
    // same inputs, yet each registration yields a handle of its own.
    let s = State { luminosity: 200, layers: 3, seed: 7 };
    let mut table = TextureTable::new();
    let first_plan = render_plan(&s);
    let first_handle = table.register(1);
    let second_plan = render_plan(&s);
    let second_handle = table.register(2);
    assert_eq!(first_plan, second_plan);
    assert_ne!(first_handle, second_handle);
}

#[test]
fn handles_match_the_gui_tables_own() {
    // The same sequence against the GUI crate's table directly.
    let mut raw: imgui::Textures<u8> = imgui::Textures::new();
    let a = raw.insert(1);
    let b = raw.insert(2);
    assert_eq!(a.id(), 0);
    assert_eq!(b.id(), 1);
    assert_ne!(a, b);

    let mut lib = TextureTable::new();
    assert_eq!(lib.register(1), a.id());
    assert_eq!(lib.register(2), b.id());
}

#[test]
fn close_request_is_the_only_exit() {
    let events = [
        LoopEvent::Tick,
        LoopEvent::PreparePaint,
        LoopEvent::Paint,
        LoopEvent::CloseRequested,
        LoopEvent::Other,
    ];
    for e in events {
        let (p, a) = step(Phase::Running, e);
        if e == LoopEvent::CloseRequested {
            assert_eq!(p, Phase::ShuttingDown);
            assert_eq!(a, LoopAction::Exit);
        } else {
            assert_eq!(p, Phase::Running);
            assert_ne!(a, LoopAction::Exit);
        }
    }
}

#[test]
fn running_actions_match_their_events() {
    assert_eq!(step(Phase::Running, LoopEvent::Tick).1, LoopAction::AdvanceClock);
    assert_eq!(
        step(Phase::Running, LoopEvent::PreparePaint).1,
        LoopAction::PrepareAndRequestRedraw
    );
    assert_eq!(step(Phase::Running, LoopEvent::Paint).1, LoopAction::PaintFrame);
    assert_eq!(
        step(Phase::Running, LoopEvent::Other).1,
        LoopAction::ForwardToPlatform
    );
}

#[test]
fn loop_is_inert_outside_running() {
    let (p, a) = step(Phase::ShuttingDown, LoopEvent::Paint);
    assert_eq!(p, Phase::ShuttingDown);
    assert_eq!(a, LoopAction::Ignore);
    let (p2, a2) = step(Phase::Initializing, LoopEvent::CloseRequested);
    assert_eq!(p2, Phase::Initializing);
    assert_eq!(a2, LoopAction::Ignore);
}

#[test]
fn malformed_scaling_override_is_rejected() {
    assert_eq!(scale_decision(false, false), ScaleDecision::UseSystemFactor);
    assert_eq!(scale_decision(false, true), ScaleDecision::UseSystemFactor);
    assert_eq!(scale_decision(true, true), ScaleDecision::LockToOverride);
    assert_eq!(scale_decision(true, false), ScaleDecision::RejectOverride);
}
