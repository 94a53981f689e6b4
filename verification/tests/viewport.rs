use std::collections::HashSet;

use damascus_ui::render_pipeline::{
    gather_directives, CompilerSettings, DirectiveSources, RayMarcherPipeline, RenderPipelines,
};
use damascus_ui::viewport::{
    paint_step, store_if_changed, FrameCounter, PaintActions, PaintEvent, Playback,
    RayMarcherViewSettings, Viewport, ViewportPrimitive,
};

#[test]
fn playback_starts_disabled_and_playing() {
    let p = Playback::new();
    assert!(p.disabled());
    assert!(!p.enabled());
    assert!(!p.paused());
    assert!(p.camera_controls_enabled);
    assert_eq!(p.paths_rendered_per_pixel, 0);
}

#[test]
fn playback_disabled_view_stays_paused() {
    let mut p = Playback::new();
    p.disable();
    assert!(p.paused() && p.disabled());
    p.play();
    assert!(p.paused());
    p.toggle_play_pause();
    assert!(p.paused());
    p.enable();
    assert!(p.enabled());
    assert!(p.paused());
    p.play();
    assert!(!p.paused());
}

#[test]
fn playback_toggle_twice_restores_enabled_view() {
    let mut p = Playback::new();
    p.enable_and_play();
    assert!(p.enabled() && !p.paused());
    let before = p;
    p.toggle_play_pause();
    assert!(p.paused());
    p.toggle_play_pause();
    assert_eq!(p, before);
}

#[test]
fn playback_counters_and_camera() {
    let mut p = Playback::new();
    p.paths_rendered_per_pixel = 12;
    p.reset_render();
    assert_eq!(p.paths_rendered_per_pixel, 0);
    p.disable_camera_controls();
    assert!(!p.camera_controls_enabled);
    p.enable_camera_controls();
    assert!(p.camera_controls_enabled);
    p.pause();
    assert!(p.paused());
}

#[test]
fn store_if_changed_stores_only_new_keys() {
    let mut stored = 5u64;
    assert!(!store_if_changed(&mut stored, Some(5)));
    assert_eq!(stored, 5);
    assert!(store_if_changed(&mut stored, Some(9)));
    assert_eq!(stored, 9);
    assert!(!store_if_changed(&mut stored, None));
    assert_eq!(stored, 9);
}

#[test]
fn viewport_defaults() {
    let settings = RayMarcherViewSettings::default();
    assert_eq!(settings.max_primitives, 1024);
    assert_eq!(settings.max_lights, 1024);
    let viewport = Viewport { viewport_primitive: ViewportPrimitive {} };
    assert_eq!(viewport.draw(), ViewportPrimitive {});
}

fn sources() -> DirectiveSources {
    DirectiveSources {
        all_for_ray_marcher: vec![1, 2],
        for_ray_marcher: vec![2],
        all_for_primitive: vec![10, 11, 12],
        all_for_material: vec![20, 21],
        for_atmosphere: vec![21],
        all_for_light: vec![30, 31, 32],
        for_lights: vec![vec![31], vec![31, 32]],
        for_primitive_materials: vec![vec![20], vec![]],
        for_primitives: vec![vec![11], vec![12, 11]],
    }
}

fn settings(all: bool) -> CompilerSettings {
    CompilerSettings {
        enable_dynamic_recompilation_for_ray_marcher: all,
        enable_dynamic_recompilation_for_primitives: all,
        enable_dynamic_recompilation_for_materials: all,
        enable_dynamic_recompilation_for_lights: all,
    }
}

fn set(v: &[u64]) -> HashSet<u64> {
    v.iter().copied().collect()
}

#[test]
fn gather_directives_static_and_dynamic() {
    let (all, list) = gather_directives(&settings(false), &sources());
    assert_eq!(list, vec![1, 2, 10, 11, 12, 20, 21, 30, 31, 32]);
    assert_eq!(all, set(&[1, 2, 10, 11, 12, 20, 21, 30, 31, 32]));
    let (dynamic, list) = gather_directives(&settings(true), &sources());
    assert_eq!(list, vec![2, 21, 31, 31, 32, 20, 11, 12, 11]);
    assert_eq!(dynamic, set(&[2, 11, 12, 20, 21, 31, 32]));
}

#[test]
fn static_directives_ignore_the_scene() {
    let mut other = sources();
    other.for_lights = vec![];
    other.for_primitives = vec![vec![99]];
    other.for_primitive_materials = vec![vec![98]];
    assert_eq!(
        gather_directives(&settings(false), &sources()).0,
        gather_directives(&settings(false), &other).0
    );
}

#[test]
fn update_reports_a_change_once() {
    let mut pipeline = RayMarcherPipeline {
        preprocessor_directives: HashSet::new(),
        playback: Playback::new(),
    };
    assert!(pipeline.update_preprocessor_directives(&settings(true), &sources()));
    assert_eq!(pipeline.preprocessor_directives, set(&[2, 11, 12, 20, 21, 31, 32]));
    assert!(!pipeline.update_preprocessor_directives(&settings(true), &sources()));
    assert!(pipeline.update_preprocessor_directives(&settings(false), &sources()));
    assert!(!pipeline.update_preprocessor_directives(&settings(false), &sources()));
}

#[test]
fn render_pipelines_update_only_a_ray_marcher() {
    let mut pipelines = RenderPipelines::RayMarcher {
        render_pipeline: Some(RayMarcherPipeline {
            preprocessor_directives: set(&[1]),
            playback: Playback::new(),
        }),
    };
    assert!(pipelines.update_preprocessor_directives(&settings(false), &sources()));
    assert!(!pipelines.update_preprocessor_directives(&settings(false), &sources()));
    let mut empty = RenderPipelines::RayMarcher { render_pipeline: None };
    assert!(!empty.update_preprocessor_directives(&settings(false), &sources()));
    let mut texture = RenderPipelines::Texture;
    assert!(!texture.update_preprocessor_directives(&settings(true), &sources()));
}

fn quiet_event() -> PaintEvent {
    PaintEvent {
        space_pressed: false,
        settings_changed: false,
        renderer_changed: false,
        dynamic_recompilation: true,
        frame_rate_overlay: true,
    }
}

#[test]
fn paint_of_a_disabled_view_does_nothing() {
    let mut p = Playback::new();
    let mut c = FrameCounter { frame_counter: 3, frames_to_update_fps: 10 };
    let mut e = quiet_event();
    e.space_pressed = true;
    e.settings_changed = true;
    let r = paint_step(&mut p, &mut c, e);
    assert!(!r.draw && !r.request_repaint && !r.rebuild_pipeline && !r.restart_clock);
    assert_eq!(p, Playback::new());
    assert_eq!(c, FrameCounter { frame_counter: 3, frames_to_update_fps: 10 });
}

#[test]
fn paint_of_a_playing_view_draws_and_counts() {
    let mut p = Playback::new();
    p.enable_and_play();
    let mut c = FrameCounter { frame_counter: 3, frames_to_update_fps: 10 };
    let r = paint_step(&mut p, &mut c, quiet_event());
    assert_eq!(
        r,
        PaintActions {
            draw: true,
            request_repaint: true,
            update_camera: true,
            rebuild_pipeline: false,
            refresh_directives: false,
            measure_fps: false,
            restart_clock: false,
        }
    );
    assert_eq!(p.paths_rendered_per_pixel, 1);
    assert_eq!(c.frame_counter, 4);
}

#[test]
fn paint_measures_the_frame_rate_every_tenth_frame() {
    let mut p = Playback::new();
    p.enable_and_play();
    let mut c = FrameCounter { frame_counter: 10, frames_to_update_fps: 10 };
    let r = paint_step(&mut p, &mut c, quiet_event());
    assert!(r.measure_fps && r.restart_clock && r.draw);
    assert_eq!(c.frame_counter, 1);
}

#[test]
fn paint_with_space_pauses_and_restarts_the_clock() {
    let mut p = Playback::new();
    p.enable_and_play();
    p.paths_rendered_per_pixel = 7;
    let mut c = FrameCounter { frame_counter: 5, frames_to_update_fps: 10 };
    let mut e = quiet_event();
    e.space_pressed = true;
    let r = paint_step(&mut p, &mut c, e);
    assert!(p.paused());
    assert!(!r.draw && r.restart_clock && !r.measure_fps);
    assert_eq!(p.paths_rendered_per_pixel, 7);
    assert_eq!(c.frame_counter, 1);
    let r = paint_step(&mut p, &mut c, e);
    assert!(!p.paused() && r.draw);
    assert_eq!(p.paths_rendered_per_pixel, 8);
}

#[test]
fn paint_after_a_renderer_change_restarts_the_render() {
    let mut p = Playback::new();
    p.enable_and_play();
    p.paths_rendered_per_pixel = 40;
    let mut c = FrameCounter { frame_counter: 2, frames_to_update_fps: 10 };
    let mut e = quiet_event();
    e.renderer_changed = true;
    e.settings_changed = true;
    let r = paint_step(&mut p, &mut c, e);
    assert!(r.rebuild_pipeline && r.refresh_directives && r.draw);
    assert_eq!(p.paths_rendered_per_pixel, 1);
    e.dynamic_recompilation = false;
    let r = paint_step(&mut p, &mut c, e);
    assert!(!r.refresh_directives);
    assert_eq!(p.paths_rendered_per_pixel, 1);
}

#[test]
fn paint_of_a_disabled_view_needs_no_room_in_its_counters() {
    let mut p = Playback::new();
    p.paths_rendered_per_pixel = u32::MAX;
    let mut c = FrameCounter { frame_counter: u32::MAX, frames_to_update_fps: 0 };
    let r = paint_step(&mut p, &mut c, quiet_event());
    assert!(!r.draw);
    assert_eq!(c.frame_counter, u32::MAX);
    assert_eq!(p.paths_rendered_per_pixel, u32::MAX);
}

#[test]
fn paint_without_overlay_leaves_the_frame_counter() {
    let mut p = Playback::new();
    p.enable_and_play();
    let mut c = FrameCounter { frame_counter: u32::MAX, frames_to_update_fps: 0 };
    let mut e = quiet_event();
    e.frame_rate_overlay = false;
    let r = paint_step(&mut p, &mut c, e);
    assert!(r.draw && !r.measure_fps);
    assert_eq!(c.frame_counter, u32::MAX);
}
