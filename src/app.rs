//! One frame of the main loop, and what the loop does with an input event
//! or a weather update. The loop itself (polling, sleeping, the terminal)
//! stays with the caller.
use crate::animation_manager::AnimationManager;
use crate::app_state::{conditions_of, default_conditions, AppState};
use crate::render::{apply_puts, blank_cell, lemma_apply_puts_concat, line_puts, Color, GridRenderer};
use crate::scene::{chimney_of, layout_of, WorldScene};
use crate::weather::{rain_intensity_spec, snow_intensity_spec, WeatherData, WeatherLocation};
use vstd::prelude::*;
use vstd::string::StringExecFns;

verus! {

/// An input the loop received.
#[derive(Clone, Copy, PartialEq, Eq, Structural, Debug)]
pub enum InputEvent {
    Resize { width: u16, height: u16 },
    Key { code: char, ctrl: bool },
    Other,
}

/// What the loop does next.
#[derive(Clone, Copy, PartialEq, Eq, Structural, Debug)]
pub enum LoopAction {
    Continue,
    Quit,
}

/// `q` or `Q` quits, and so does Ctrl-C.
pub open spec fn quits(e: InputEvent) -> bool {
    match e {
        InputEvent::Key { code, ctrl } => code == 'q' || code == 'Q' || (code == 'c' && ctrl),
        _ => false,
    }
}

/// Column and row of the status line.
pub const HUD_X: u32 = 2;

pub const HUD_Y: u32 = 1;

pub struct App {
    state: AppState,
    animations: AnimationManager,
    scene: WorldScene,
}

impl App {
    pub closed spec fn wf(&self) -> bool {
        &&& self.state.wf()
        &&& self.animations.wf()
    }

    pub closed spec fn state(&self) -> AppState {
        self.state
    }

    pub closed spec fn animations(&self) -> AnimationManager {
        self.animations
    }

    pub closed spec fn scene(&self) -> WorldScene {
        self.scene
    }

    /// An app for a `width` by `height` screen; with `simulated` weather it
    /// shows that weather from the start.
    pub fn new(
        location: WeatherLocation,
        simulated: Option<WeatherData>,
        show_leaves: bool,
        width: u16,
        height: u16,
    ) -> (r: Self)
        ensures
            r.wf(),
            r.state().location == location,
            r.state().current_weather == simulated,
            r.animations().leaves_enabled() == show_leaves,
            r.scene().cols() == width,
            r.scene().rows() == height,
            simulated is Some ==> r.state().weather_conditions == conditions_of(simulated->0),
            simulated is None ==> r.state().weather_conditions == default_conditions(),
            r.state().weather_error is None,
            r.state().weather_info_needs_update,
            r.state().loading_state.frame == 0,
            r.state().cached_weather_info@ == Seq::<char>::empty(),
            r.animations().rain_level() == match simulated {
                Some(w) => rain_intensity_spec(w.condition),
                None => 0,
            },
            r.animations().snow_level() == match simulated {
                Some(w) => snow_intensity_spec(w.condition),
                None => 0,
            },
    {
        let mut app = App {
            state: AppState::new(location),
            animations: AnimationManager::new(width, height, show_leaves),
            scene: WorldScene::new(width, height),
        };
        match simulated {
            Some(w) => app.receive_weather(Ok(w)),
            None => {},
        }
        app
    }

    /// Takes the result of a weather fetch: new weather sets the flags and
    /// the precipitation intensities; a failure is shown in the status
    /// line.
    pub fn receive_weather(&mut self, result: Result<WeatherData, String>)
        requires
            old(self).wf(),
        ensures
            final(self).wf(),
            final(self).scene() == old(self).scene(),
            final(self).state().location == old(self).state().location,
            final(self).animations().leaves_enabled() == old(self).animations().leaves_enabled(),
            match result {
                Ok(w) => {
                    &&& final(self).state().weather_info_needs_update
                    &&& final(self).state().loading_state == old(self).state().loading_state
                    &&& final(self).state().cached_weather_info == old(self).state().cached_weather_info
                    &&& final(self).state().current_weather == Some(w)
                    &&& final(self).state().weather_conditions == conditions_of(w)
                    &&& final(self).state().weather_error is None
                    &&& final(self).animations().rain_level() == rain_intensity_spec(w.condition)
                    &&& final(self).animations().snow_level() == snow_intensity_spec(w.condition)
                },
                Err(e) => {
                    &&& final(self).state().weather_error is Some
                    &&& final(self).state().weather_error->0@ == "Error fetching weather: "@ + e@
                    &&& final(self).state().weather_info_needs_update
                    &&& final(self).state().current_weather == old(self).state().current_weather
                    &&& final(self).state().weather_conditions == old(self).state().weather_conditions
                    &&& final(self).state().loading_state == old(self).state().loading_state
                    &&& final(self).state().cached_weather_info == old(self).state().cached_weather_info
                    &&& final(self).animations() == old(self).animations()
                },
            },
    {
        match result {
            Ok(w) => {
                let rain = w.condition.rain_intensity();
                let snow = w.condition.snow_intensity();
                self.state.update_weather(w);
                self.animations.set_rain_intensity(rain);
                self.animations.set_snow_intensity(snow);
            },
            Err(e) => {
                let mut message = String::from_str("Error fetching weather: ");
                message.append(e.as_str());
                self.state.set_weather_error(message);
            },
        }
    }

    /// Draws one frame into `renderer`: the effects and the scene over a
    /// blank grid, then, unless hidden, the status line in cyan.
    pub fn render_frame(&mut self, renderer: &mut GridRenderer, hide_hud: bool)
        requires
            old(self).wf(),
            old(renderer).wf(),
        ensures
            final(self).wf(),
            final(self).scene() == old(self).scene(),
            final(self).animations() == old(self).animations(),
            final(self).state().current_weather == old(self).state().current_weather,
            final(self).state().weather_error == old(self).state().weather_error,
            final(self).state().weather_conditions == old(self).state().weather_conditions,
            final(self).state().location == old(self).state().location,
            !final(self).state().weather_info_needs_update,
            final(self).state().loading_state.frame == old(self).state().loading_state.frame
                || final(self).state().loading_state.frame == (old(self).state().loading_state.frame
                + 1) % 4,
            (final(self).state().loading_state.frame == old(self).state().loading_state.frame
                && !old(self).state().weather_info_needs_update) ==> final(self).state().cached_weather_info
                == old(self).state().cached_weather_info,
            (old(self).state().weather_info_needs_update || final(self).state().loading_state.frame
                != old(self).state().loading_state.frame) ==> final(self).state().cached_weather_info@
                == final(self).state().info_text(),
            final(renderer).wf(),
            final(renderer).cols() == old(renderer).cols(),
            final(renderer).rows() == old(renderer).rows(),
            final(renderer).shown() == old(renderer).shown(),
            final(renderer).full_pending() == old(renderer).full_pending(),
            final(renderer).cells() == apply_puts(
                Seq::new(old(renderer).cells().len(), |i: int| blank_cell()),
                old(renderer).cols(),
                old(renderer).rows(),
                old(self).animations().frame_puts(
                    old(self).scene().cols(),
                    old(self).scene().rows(),
                    old(self).animations().activation_spec(&old(self).state()),
                    old(self).state().weather_conditions.is_day,
                ) + if hide_hud {
                    Seq::empty()
                } else {
                    line_puts(
                        HUD_X as int,
                        HUD_Y as int,
                        final(self).state().cached_weather_info@,
                        Color::Cyan,
                    )
                },
            ),
    {
        renderer.clear();
        let ghost g0 = renderer.cells();
        let active = self.animations.activation(&self.state);
        let is_day = self.state.weather_conditions.is_day;
        self.animations.render_frame(renderer, &self.scene, active, is_day);
        let ghost fp = self.animations.frame_puts(
            self.scene.cols(),
            self.scene.rows(),
            active,
            is_day,
        );
        self.state.update_loading_animation();
        self.state.update_cached_info();
        if !hide_hud {
            renderer.render_line_colored(HUD_X, HUD_Y, self.state.cached_weather_info.as_str(), Color::Cyan);
            proof {
                lemma_apply_puts_concat(
                    g0,
                    renderer.cols(),
                    renderer.rows(),
                    fp,
                    line_puts(
                        HUD_X as int,
                        HUD_Y as int,
                        self.state.cached_weather_info@,
                        Color::Cyan,
                    ),
                );
            }
        } else {
            assert(fp + Seq::empty() =~= fp);
        }
    }

    /// Handles one input: a resize reallocates the grid (and so forces a
    /// full repaint); `q`, `Q` or Ctrl-C quit. Then the scene takes the
    /// grid's size and the effects advance one tick within it.
    pub fn handle_event(&mut self, renderer: &mut GridRenderer, event: InputEvent) -> (r: LoopAction)
        requires
            old(self).wf(),
            old(renderer).wf(),
        ensures
            final(self).wf(),
            final(renderer).wf(),
            r == (if quits(event) {
                LoopAction::Quit
            } else {
                LoopAction::Continue
            }),
            match event {
                InputEvent::Resize { width, height } => {
                    &&& final(renderer).cols() == width
                    &&& final(renderer).rows() == height
                    &&& final(renderer).full_pending()
                },
                _ => *final(renderer) == *old(renderer),
            },
            !quits(event) ==> {
                &&& final(self).scene().cols() == final(renderer).cols()
                &&& final(self).scene().rows() == final(renderer).rows()
                &&& final(self).animations().sky().bounds() == (
                    final(renderer).cols(),
                    final(renderer).rows(),
                )
            },
            !quits(event) ==> old(self).animations().ticked(
                final(self).animations(),
                final(renderer).cols() as u16,
                final(renderer).rows() as u16,
                old(self).animations().activation_spec(&old(self).state()),
                chimney_of(layout_of(final(self).scene().cols(), final(self).scene().rows())),
            ),
            final(self).state() == old(self).state(),
    {
        let quit = match event {
            InputEvent::Resize { width, height } => {
                renderer.manual_resize(width, height);
                false
            },
            InputEvent::Key { code, ctrl } => code == 'q' || code == 'Q' || (code == 'c' && ctrl),
            InputEvent::Other => false,
        };
        if quit {
            return LoopAction::Quit;
        }
        let (width, height) = renderer.get_size();
        self.scene.update_size(width, height);
        let active = self.animations.activation(&self.state);
        let chimney = self.scene.chimney();
        self.animations.update(width, height, active, chimney);
        LoopAction::Continue
    }
}

} // verus!
