use vstd::prelude::*;
use vstd::std_specs::cmp::PartialEqSpec;

verus! {

/// The messages of the viewport widget.
#[derive(Clone, Copy, Debug, PartialEq, Eq, Structural)]
pub enum ViewportMessage {
    NoMessage,
}

/// What the viewport draws with its shader: it carries no data.
#[derive(Clone, Copy, Debug, PartialEq, Eq, Structural)]
pub struct ViewportPrimitive {}

/// The viewport widget.
#[derive(Clone, Copy, Debug, PartialEq, Eq, Structural)]
pub struct Viewport {
    pub viewport_primitive: ViewportPrimitive,
}

impl Viewport {
    /// The primitive the viewport's shader draws.
    pub fn draw(&self) -> (r: ViewportPrimitive)
        ensures
            r == self.viewport_primitive,
    {
        self.viewport_primitive
    }
}

} // verus!

verus! {

/// How many primitives and lights the ray marcher view makes room for.
#[derive(Clone, Copy, Debug, PartialEq, Eq, Structural)]
pub struct RayMarcherViewSettings {
    pub max_primitives: usize,
    pub max_lights: usize,
}

impl Default for RayMarcherViewSettings {
    /// Room for 1024 primitives and 1024 lights.
    fn default() -> (r: RayMarcherViewSettings)
        ensures
            r.max_primitives == 1024,
            r.max_lights == 1024,
    {
        RayMarcherViewSettings { max_primitives: 1024, max_lights: 1024 }
    }
}

/// The playback state of a rendering view: whether it is disabled or
/// paused, whether the camera follows the mouse, and how many paths each
/// pixel has accumulated.
#[derive(Clone, Copy, Debug, PartialEq, Eq, Structural)]
pub struct Playback {
    pub disabled: bool,
    pub paused: bool,
    pub camera_controls_enabled: bool,
    pub paths_rendered_per_pixel: u32,
}

impl Playback {
    /// A view that starts disabled, not paused, with camera controls and
    /// no accumulated paths.
    pub fn new() -> (r: Playback)
        ensures
            r.disabled,
            !r.paused,
            r.camera_controls_enabled,
            r.paths_rendered_per_pixel == 0,
    {
        Playback {
            disabled: true,
            paused: false,
            camera_controls_enabled: true,
            paths_rendered_per_pixel: 0,
        }
    }

    /// The view after `disable`: paused and disabled.
    pub open spec fn spec_disabled(self) -> Playback {
        Playback { disabled: true, paused: true, ..self }
    }

    /// The view after `play`: resumed, unless it is disabled.
    pub open spec fn spec_played(self) -> Playback {
        Playback { paused: self.paused && self.disabled, ..self }
    }

    /// The view after `toggle_play_pause`: a disabled view is left alone,
    /// another one switches between paused and playing.
    pub open spec fn spec_toggled(self) -> Playback {
        if self.disabled {
            self
        } else {
            Playback { paused: !self.paused, ..self }
        }
    }

    /// Pauses and disables the view.
    pub fn disable(&mut self)
        ensures
            *final(self) == old(self).spec_disabled(),
    {
        self.pause();
        self.disabled = true;
    }

    /// Enables the view; it stays paused if it was.
    pub fn enable(&mut self)
        ensures
            *final(self) == (Playback { disabled: false, ..*old(self) }),
    {
        self.disabled = false;
    }

    pub fn enabled(&self) -> (r: bool)
        ensures
            r == !self.disabled,
    {
        !self.disabled
    }

    pub fn disabled(&self) -> (r: bool)
        ensures
            r == self.disabled,
    {
        self.disabled
    }

    pub fn pause(&mut self)
        ensures
            *final(self) == (Playback { paused: true, ..*old(self) }),
    {
        self.paused = true;
    }

    /// Resumes the view, unless it is disabled.
    pub fn play(&mut self)
        ensures
            *final(self) == old(self).spec_played(),
    {
        if !self.disabled {
            self.paused = false;
        }
    }

    pub fn paused(&self) -> (r: bool)
        ensures
            r == self.paused,
    {
        self.paused
    }

    /// Pauses a playing view and resumes a paused one; a disabled view is
    /// left alone.
    pub fn toggle_play_pause(&mut self)
        ensures
            *final(self) == old(self).spec_toggled(),
    {
        if self.disabled {
            return;
        }
        if self.paused() {
            self.play();
        } else {
            self.pause();
        }
    }

    /// Enables the view and resumes it.
    pub fn enable_and_play(&mut self)
        ensures
            *final(self) == (Playback { disabled: false, paused: false, ..*old(self) }),
    {
        self.enable();
        self.play();
    }

    /// Restarts the render: no paths accumulated.
    pub fn reset_render(&mut self)
        ensures
            *final(self) == (Playback { paths_rendered_per_pixel: 0, ..*old(self) }),
    {
        self.paths_rendered_per_pixel = 0;
    }

    pub fn disable_camera_controls(&mut self)
        ensures
            *final(self) == (Playback { camera_controls_enabled: false, ..*old(self) }),
    {
        self.camera_controls_enabled = false;
    }

    pub fn enable_camera_controls(&mut self)
        ensures
            *final(self) == (Playback { camera_controls_enabled: true, ..*old(self) }),
    {
        self.camera_controls_enabled = true;
    }
}

/// Stores `new_key` in `stored` when it differs from it; a key that could
/// not be computed changes nothing. The result says whether it was stored.
pub fn store_if_changed<K: PartialEq>(stored: &mut K, new_key: Option<K>) -> (changed: bool)
    ensures
        match new_key {
            Some(k) => K::obeys_eq_spec() ==> {
                &&& changed == !k.eq_spec(&*old(stored))
                &&& *final(stored) == (if changed {
                    k
                } else {
                    *old(stored)
                })
            },
            None => !changed && *final(stored) == *old(stored),
        },
        changed ==> new_key == Some(*final(stored)),
        !changed ==> *final(stored) == *old(stored),
{
    match new_key {
        Some(k) => {
            if k != *stored {
                *stored = k;
                true
            } else {
                false
            }
        },
        None => false,
    }
}

} // verus!

verus! {

/// Toggling a view twice gives it back as it was.
pub proof fn lemma_toggle_twice(p: Playback)
    ensures
        p.spec_toggled().spec_toggled() == p,
{
}

/// A disabled view stays paused: neither playing nor toggling resumes it.
pub proof fn lemma_disabled_stays_paused(p: Playback)
    ensures
        p.spec_disabled().spec_played().paused,
        p.spec_disabled().spec_toggled().paused,
        p.spec_disabled().spec_played() == p.spec_disabled(),
        p.spec_disabled().spec_toggled() == p.spec_disabled(),
{
}

/// Playing an enabled view always leaves it playing.
pub proof fn lemma_play_resumes_enabled(p: Playback)
    requires
        !p.disabled,
    ensures
        !p.spec_played().paused,
{
}

} // verus!

verus! {

/// Counts the frames between two measurements of the frame rate.
#[derive(Clone, Copy, Debug, PartialEq, Eq, Structural)]
pub struct FrameCounter {
    pub frame_counter: u32,
    pub frames_to_update_fps: u32,
}

/// What happened since the last paint of a texture view, as the code that
/// paints it observed it.
#[derive(Clone, Copy, Debug, PartialEq, Eq, Structural)]
pub struct PaintEvent {
    /// Space was pressed while no widget had the keyboard focus.
    pub space_pressed: bool,
    /// The pipeline settings no longer hash to the stored key.
    pub settings_changed: bool,
    /// The renderer no longer hashes to the stored key.
    pub renderer_changed: bool,
    /// The compiler settings allow recompiling the shader on the fly.
    pub dynamic_recompilation: bool,
    /// The view shows its frame rate.
    pub frame_rate_overlay: bool,
}

/// What one paint of a texture view asks of the code around it.
#[derive(Clone, Copy, Debug, PartialEq, Eq, Structural)]
pub struct PaintActions {
    /// Hand the GPU a paint callback for this frame.
    pub draw: bool,
    /// Ask the GUI for another frame.
    pub request_repaint: bool,
    /// Move the camera as the mouse says.
    pub update_camera: bool,
    /// Drop the render resources and build the pipeline again.
    pub rebuild_pipeline: bool,
    /// Update the preprocessor directives and recompile the shader if
    /// they changed.
    pub refresh_directives: bool,
    /// Measure the frame rate over the frames counted.
    pub measure_fps: bool,
    /// Restart the clock that the frame rate is measured against.
    pub restart_clock: bool,
}

impl PaintActions {
    /// Nothing to do: the view is disabled.
    pub open spec fn spec_idle() -> PaintActions {
        PaintActions {
            draw: false,
            request_repaint: false,
            update_camera: false,
            rebuild_pipeline: false,
            refresh_directives: false,
            measure_fps: false,
            restart_clock: false,
        }
    }
}

/// The playback state of an enabled view once the paint has read the
/// event: toggled by Space, and restarted when the renderer changed.
pub open spec fn spec_paint_playback(p: Playback, e: PaintEvent) -> Playback {
    let toggled = if e.space_pressed {
        p.spec_toggled()
    } else {
        p
    };
    if e.renderer_changed {
        Playback { paths_rendered_per_pixel: 0, ..toggled }
    } else {
        toggled
    }
}

/// Whether a paint of the view draws: it is enabled, and still playing
/// once the paint has read the event.
pub open spec fn spec_paint_draws(p: Playback, e: PaintEvent) -> bool {
    !p.disabled && !spec_paint_playback(p, e).paused
}

/// Decides one paint of a texture view: a disabled view does nothing;
/// otherwise Space toggles playback, changed settings rebuild the pipeline,
/// a changed renderer restarts the render and, where recompiling on the fly
/// is allowed, refreshes the shader's directives. A paused view restarts
/// its clock and draws nothing; a playing one counts the frame for the
/// frame rate and accumulates one more path per pixel.
pub fn paint_step(playback: &mut Playback, counter: &mut FrameCounter, event: PaintEvent) -> (r:
    PaintActions)
    requires
        spec_paint_draws(*old(playback), event) && event.frame_rate_overlay ==> {
            &&& old(counter).frames_to_update_fps > 0
            &&& old(counter).frame_counter % old(counter).frames_to_update_fps != 0 ==> old(
                counter,
            ).frame_counter < u32::MAX
        },
        spec_paint_draws(*old(playback), event) ==> spec_paint_playback(
            *old(playback),
            event,
        ).paths_rendered_per_pixel < u32::MAX,
    ensures
        old(playback).disabled ==> {
            &&& *final(playback) == *old(playback)
            &&& *final(counter) == *old(counter)
            &&& r == PaintActions::spec_idle()
        },
        !old(playback).disabled ==> {
            let p = spec_paint_playback(*old(playback), event);
            let measure = event.frame_rate_overlay && old(counter).frame_counter
                % old(counter).frames_to_update_fps == 0;
            &&& r.request_repaint
            &&& r.update_camera
            &&& r.rebuild_pipeline == event.settings_changed
            &&& r.refresh_directives == (event.renderer_changed && event.dynamic_recompilation)
            &&& r.draw == !p.paused
            &&& final(counter).frames_to_update_fps == old(counter).frames_to_update_fps
            &&& if p.paused {
                &&& *final(playback) == p
                &&& final(counter).frame_counter == 1
                &&& r.restart_clock
                &&& !r.measure_fps
            } else {
                &&& *final(playback) == (Playback {
                    paths_rendered_per_pixel: (p.paths_rendered_per_pixel + 1) as u32,
                    ..p
                })
                &&& r.measure_fps == measure
                &&& r.restart_clock == measure
                &&& final(counter).frame_counter == (if !event.frame_rate_overlay {
                    old(counter).frame_counter as int
                } else if measure {
                    1
                } else {
                    old(counter).frame_counter + 1
                })
            }
        },
{
    let mut actions = PaintActions {
        draw: false,
        request_repaint: false,
        update_camera: false,
        rebuild_pipeline: false,
        refresh_directives: false,
        measure_fps: false,
        restart_clock: false,
    };
    if playback.disabled {
        return actions;
    }
    actions.request_repaint = true;
    if event.space_pressed {
        playback.toggle_play_pause();
    }
    actions.update_camera = true;
    actions.rebuild_pipeline = event.settings_changed;
    if event.renderer_changed {
        playback.reset_render();
        actions.refresh_directives = event.dynamic_recompilation;
    }
    if playback.paused {
        counter.frame_counter = 1;
        actions.restart_clock = true;
        return actions;
    }
    if event.frame_rate_overlay {
        if counter.frame_counter % counter.frames_to_update_fps == 0 {
            actions.measure_fps = true;
            actions.restart_clock = true;
            counter.frame_counter = 1;
        } else {
            counter.frame_counter = counter.frame_counter + 1;
        }
    }
    playback.paths_rendered_per_pixel = playback.paths_rendered_per_pixel + 1;
    actions.draw = true;
    actions
}

} // verus!
