//! The orchestrator: decides from the weather which effects run, keeps the
//! precipitation intensities, and draws the layers of a frame in order.
use crate::animation::airplanes::{planes_puts, tick_cooldown, tick_planes, AirplaneSystem, SpawnDraws};
use crate::animation::clouds::Clouds;
use crate::animation::drift::{drift_puts, tick_drifters, DriftDraws, DriftKind, DriftSystem};
use crate::animation::lightning::{tick_flash, Lightning};
use crate::animation::precipitation::{
    lemma_no_intensity_no_growth, particle_puts, tick_particles, FallDraws, Precipitation,
    PrecipitationKind,
};
use crate::animation::sun::Sun;
use crate::app_state::{AppState, WeatherConditions};
use crate::render::{apply_puts, lemma_apply_puts_concat, GridRenderer, Put};
use crate::scene::{scene_puts, WorldScene};
use vstd::prelude::*;

verus! {

/// Which effects are active on a frame.
#[derive(Clone, Copy, PartialEq, Eq, Structural, Debug)]
pub struct EffectActivation {
    pub sun: bool,
    pub clouds: bool,
    pub airplanes: bool,
    pub rain: bool,
    pub thunderstorm: bool,
    pub snow: bool,
    pub fireflies: bool,
    pub leaves: bool,
    pub chimney_smoke: bool,
}

/// The effects for the flags `c`: a thunderstorm replaces plain rain; the
/// sun shows only by day and fireflies only by night, each when the
/// weather allows it (`sun_weather`, `firefly_weather`); clouds come with
/// cloudy skies and storms; planes fly unless there is a storm; leaves fall
/// when enabled; the chimney always smokes.
pub open spec fn activation_of(
    c: WeatherConditions,
    sun_weather: bool,
    firefly_weather: bool,
    leaves_enabled: bool,
) -> EffectActivation {
    EffectActivation {
        sun: sun_weather && c.is_day,
        clouds: c.is_cloudy || c.is_thunderstorm,
        airplanes: !c.is_thunderstorm,
        rain: c.is_raining && !c.is_thunderstorm,
        thunderstorm: c.is_thunderstorm,
        snow: c.is_snowing,
        fireflies: firefly_weather && !c.is_day,
        leaves: leaves_enabled,
        chimney_smoke: true,
    }
}

/// The animation tick after `t`, wrapping round.
pub open spec fn next_tick(t: u32) -> u32 {
    if t == u32::MAX {
        0
    } else {
        (t + 1) as u32
    }
}

/// With a thunderstorm and rain both flagged, the storm runs and plain rain
/// does not.
pub proof fn lemma_thunderstorm_excludes_rain(
    c: WeatherConditions,
    sun_weather: bool,
    firefly_weather: bool,
    leaves_enabled: bool,
)
    requires
        c.is_thunderstorm,
        c.is_raining,
    ensures
        !activation_of(c, sun_weather, firefly_weather, leaves_enabled).rain,
        activation_of(c, sun_weather, firefly_weather, leaves_enabled).thunderstorm,
{
}

pub struct AnimationManager {
    airplanes: AirplaneSystem,
    rain: Precipitation,
    snow: Precipitation,
    lightning: Lightning,
    sun: Sun,
    clouds: Clouds,
    smoke: DriftSystem,
    fireflies: DriftSystem,
    leaves: DriftSystem,
    rain_intensity: u8,
    snow_intensity: u8,
    show_leaves: bool,
}

impl AnimationManager {
    pub closed spec fn wf(&self) -> bool {
        &&& self.airplanes.wf()
        &&& self.rain.wf()
        &&& self.snow.wf()
        &&& self.rain.kind_spec() == PrecipitationKind::Rain
        &&& self.snow.kind_spec() == PrecipitationKind::Snow
        &&& self.smoke.wf()
        &&& self.fireflies.wf()
        &&& self.leaves.wf()
        &&& self.smoke.kind_spec() == DriftKind::Smoke
        &&& self.fireflies.kind_spec() == DriftKind::Firefly
        &&& self.leaves.kind_spec() == DriftKind::Leaf
    }

    pub closed spec fn clouds_state(&self) -> Clouds {
        self.clouds
    }

    pub closed spec fn smoke_spec(&self) -> DriftSystem {
        self.smoke
    }

    pub closed spec fn fireflies_state(&self) -> DriftSystem {
        self.fireflies
    }

    pub closed spec fn leaves_state(&self) -> DriftSystem {
        self.leaves
    }

    pub closed spec fn rain_fall(&self) -> Precipitation {
        self.rain
    }

    pub closed spec fn snow_fall(&self) -> Precipitation {
        self.snow
    }

    pub closed spec fn bolt(&self) -> Lightning {
        self.lightning
    }

    pub closed spec fn sun_state(&self) -> Sun {
        self.sun
    }

    /// The writes of one frame, back to front: the sun, clouds, the planes and a
    /// lightning bolt where active, then the static scene, then the chimney
    /// smoke, then rain, snow, fireflies and leaves; particles already
    /// under way are drawn after their effect ends, until they leave.
    pub open spec fn frame_puts(
        &self,
        width: u16,
        height: u16,
        active: EffectActivation,
        is_day: bool,
    ) -> Seq<Put> {
        let sun = if active.sun {
            self.sun_state().puts(width)
        } else {
            Seq::empty()
        };
        let clouds = if active.clouds {
            self.clouds_state().puts(width)
        } else {
            Seq::empty()
        };
        let planes = if active.airplanes {
            planes_puts(self.sky().planes(), self.sky().planes().len() as int)
        } else {
            Seq::empty()
        };
        let bolt = if active.thunderstorm {
            self.bolt().puts()
        } else {
            Seq::empty()
        };
        let rain = self.rain_fall();
        let snow = self.snow_fall();
        let smoke = self.smoke_spec();
        let ff = self.fireflies_state();
        let lv = self.leaves_state();
        sun + clouds + planes + bolt + scene_puts(width, height, is_day) + drift_puts(
            smoke.kind_spec(),
            smoke.particles(),
            smoke.particles().len() as int,
        ) + particle_puts(rain.kind_spec(), rain.particles(), rain.particles().len() as int)
            + particle_puts(snow.kind_spec(), snow.particles(), snow.particles().len() as int)
            + drift_puts(ff.kind_spec(), ff.particles(), ff.particles().len() as int) + drift_puts(
            lv.kind_spec(),
            lv.particles(),
            lv.particles().len() as int,
        )
    }

    pub closed spec fn rain_level(&self) -> u8 {
        self.rain_intensity
    }

    pub closed spec fn snow_level(&self) -> u8 {
        self.snow_intensity
    }

    pub closed spec fn leaves_enabled(&self) -> bool {
        self.show_leaves
    }

    pub closed spec fn sky(&self) -> AirplaneSystem {
        self.airplanes
    }

    /// The level rain falls at anew: the stored one while rain or a storm
    /// is active, else none.
    pub open spec fn rain_used(&self, active: EffectActivation) -> u8 {
        if active.rain || active.thunderstorm {
            self.rain_level()
        } else {
            0
        }
    }

    /// The level snow falls at anew: the stored one while snow is active,
    /// else none.
    pub open spec fn snow_used(&self, active: EffectActivation) -> u8 {
        if active.snow {
            self.snow_level()
        } else {
            0
        }
    }

    /// `next` is this orchestrator one tick later on a `width` by `height`
    /// screen, for some random draws: planes, rain, snow, lightning, smoke,
    /// fireflies and leaves each take their own tick (new particles only
    /// where their effect is active, smoke from `chimney`), the sun's and
    /// the clouds' animations advance by one, and the stored levels and the
    /// leaves setting stay.
    pub open spec fn ticked(
        &self,
        next: AnimationManager,
        width: u16,
        height: u16,
        active: EffectActivation,
        chimney: (u16, u16),
    ) -> bool {
        let w = width as int;
        let h = height as int;
        &&& next.rain_level() == self.rain_level()
        &&& next.snow_level() == self.snow_level()
        &&& next.leaves_enabled() == self.leaves_enabled()
        &&& next.sky().bounds() == (w, h)
        &&& exists|d: SpawnDraws|
            #![trigger tick_planes(self.sky().planes(), self.sky().cooldown(), w, h, d)]
            next.sky().planes() == tick_planes(self.sky().planes(), self.sky().cooldown(), w, h, d)
                && next.sky().cooldown() == tick_cooldown(self.sky().cooldown(), w, h, d)
        &&& next.rain_fall().bounds() == (w, h)
        &&& exists|d: FallDraws|
            #![trigger tick_particles(self.rain_fall().kind_spec(), self.rain_fall().particles(), self.rain_used(active), w, h, d)]
            next.rain_fall().particles() == tick_particles(
                self.rain_fall().kind_spec(),
                self.rain_fall().particles(),
                self.rain_used(active),
                w,
                h,
                d,
            )
        &&& next.snow_fall().bounds() == (w, h)
        &&& exists|d: FallDraws|
            #![trigger tick_particles(self.snow_fall().kind_spec(), self.snow_fall().particles(), self.snow_used(active), w, h, d)]
            next.snow_fall().particles() == tick_particles(
                self.snow_fall().kind_spec(),
                self.snow_fall().particles(),
                self.snow_used(active),
                w,
                h,
                d,
            )
        &&& exists|chance: u32, column_draw: u16|
            #![trigger tick_flash(self.bolt().flash_spec().0, self.bolt().flash_spec().1, active.thunderstorm, width, chance, column_draw)]
            next.bolt().flash_spec() == tick_flash(
                self.bolt().flash_spec().0,
                self.bolt().flash_spec().1,
                active.thunderstorm,
                width,
                chance,
                column_draw,
            )
        &&& next.sun_state().tick_spec() == next_tick(self.sun_state().tick_spec())
        &&& next.clouds_state().tick_spec() == next_tick(self.clouds_state().tick_spec())
        &&& next.smoke_spec().bounds() == (w, h)
        &&& exists|js: Seq<u32>, d: DriftDraws|
            #![trigger tick_drifters(self.smoke_spec().kind_spec(), self.smoke_spec().particles(), js, active.chimney_smoke, chimney, w, h, d)]
            next.smoke_spec().particles() == tick_drifters(
                self.smoke_spec().kind_spec(),
                self.smoke_spec().particles(),
                js,
                active.chimney_smoke,
                chimney,
                w,
                h,
                d,
            )
        &&& next.fireflies_state().bounds() == (w, h)
        &&& exists|js: Seq<u32>, d: DriftDraws|
            #![trigger tick_drifters(self.fireflies_state().kind_spec(), self.fireflies_state().particles(), js, active.fireflies, chimney, w, h, d)]
            next.fireflies_state().particles() == tick_drifters(
                self.fireflies_state().kind_spec(),
                self.fireflies_state().particles(),
                js,
                active.fireflies,
                chimney,
                w,
                h,
                d,
            )
        &&& next.leaves_state().bounds() == (w, h)
        &&& exists|js: Seq<u32>, d: DriftDraws|
            #![trigger tick_drifters(self.leaves_state().kind_spec(), self.leaves_state().particles(), js, active.leaves, chimney, w, h, d)]
            next.leaves_state().particles() == tick_drifters(
                self.leaves_state().kind_spec(),
                self.leaves_state().particles(),
                js,
                active.leaves,
                chimney,
                w,
                h,
                d,
            )
    }

    pub fn new(width: u16, height: u16, show_leaves: bool) -> (r: Self)
        ensures
            r.wf(),
            r.rain_level() == 0,
            r.snow_level() == 0,
            r.leaves_enabled() == show_leaves,
            r.sky().planes().len() == 0,
    {
        AnimationManager {
            airplanes: AirplaneSystem::new(width, height),
            rain: Precipitation::new(PrecipitationKind::Rain, width, height),
            snow: Precipitation::new(PrecipitationKind::Snow, width, height),
            lightning: Lightning::new(),
            sun: Sun::new(),
            clouds: Clouds::new(),
            smoke: DriftSystem::new(DriftKind::Smoke, width, height),
            fireflies: DriftSystem::new(DriftKind::Firefly, width, height),
            leaves: DriftSystem::new(DriftKind::Leaf, width, height),
            rain_intensity: 0,
            snow_intensity: 0,
            show_leaves,
        }
    }

    /// Stores the rain intensity, in percent, capped at 100.
    pub fn set_rain_intensity(&mut self, percent: u8)
        requires
            old(self).wf(),
        ensures
            final(self).wf(),
            final(self).rain_level() == if percent > 100 {
                100
            } else {
                percent
            },
            final(self).snow_level() == old(self).snow_level(),
            final(self).leaves_enabled() == old(self).leaves_enabled(),
            final(self).sky() == old(self).sky(),
            final(self).rain_fall() == old(self).rain_fall(),
            final(self).snow_fall() == old(self).snow_fall(),
            final(self).bolt() == old(self).bolt(),
            final(self).sun_state() == old(self).sun_state(),
            final(self).clouds_state() == old(self).clouds_state(),
            final(self).smoke_spec() == old(self).smoke_spec(),
            final(self).fireflies_state() == old(self).fireflies_state(),
            final(self).leaves_state() == old(self).leaves_state(),
    {
        self.rain_intensity = if percent > 100 {
            100
        } else {
            percent
        };
    }

    /// Stores the snow intensity, in percent, capped at 100.
    pub fn set_snow_intensity(&mut self, percent: u8)
        requires
            old(self).wf(),
        ensures
            final(self).wf(),
            final(self).snow_level() == if percent > 100 {
                100
            } else {
                percent
            },
            final(self).rain_level() == old(self).rain_level(),
            final(self).leaves_enabled() == old(self).leaves_enabled(),
            final(self).sky() == old(self).sky(),
            final(self).rain_fall() == old(self).rain_fall(),
            final(self).snow_fall() == old(self).snow_fall(),
            final(self).bolt() == old(self).bolt(),
            final(self).sun_state() == old(self).sun_state(),
            final(self).clouds_state() == old(self).clouds_state(),
            final(self).smoke_spec() == old(self).smoke_spec(),
            final(self).fireflies_state() == old(self).fireflies_state(),
            final(self).leaves_state() == old(self).leaves_state(),
    {
        self.snow_intensity = if percent > 100 {
            100
        } else {
            percent
        };
    }

    pub fn rain_intensity(&self) -> (r: u8)
        ensures
            r == self.rain_level(),
    {
        self.rain_intensity
    }

    pub fn snow_intensity(&self) -> (r: u8)
        ensures
            r == self.snow_level(),
    {
        self.snow_intensity
    }

    pub fn airplanes(&self) -> (r: &AirplaneSystem)
        ensures
            *r == self.sky(),
    {
        &self.airplanes
    }

    pub open spec fn activation_spec(&self, state: &AppState) -> EffectActivation {
        activation_of(
            state.weather_conditions,
            state.sun_spec(),
            state.fireflies_spec(),
            self.leaves_enabled(),
        )
    }

    /// The effects to run for the state's current weather.
    pub fn activation(&self, state: &AppState) -> (r: EffectActivation)
        ensures
            r == self.activation_spec(state),
    {
        let c = state.weather_conditions;
        EffectActivation {
            sun: state.should_show_sun() && c.is_day,
            clouds: c.is_cloudy || c.is_thunderstorm,
            airplanes: !c.is_thunderstorm,
            rain: c.is_raining && !c.is_thunderstorm,
            thunderstorm: c.is_thunderstorm,
            snow: c.is_snowing,
            fireflies: state.should_show_fireflies() && !c.is_day,
            leaves: self.show_leaves,
            chimney_smoke: true,
        }
    }

    pub fn rain(&self) -> (r: &Precipitation)
        ensures
            *r == self.rain_fall(),
    {
        &self.rain
    }

    pub fn snow(&self) -> (r: &Precipitation)
        ensures
            *r == self.snow_fall(),
    {
        &self.snow
    }

    pub fn smoke(&self) -> (r: &DriftSystem)
        ensures
            *r == self.smoke_spec(),
    {
        &self.smoke
    }

    pub fn fireflies(&self) -> (r: &DriftSystem)
        ensures
            *r == self.fireflies_state(),
    {
        &self.fireflies
    }

    pub fn leaves(&self) -> (r: &DriftSystem)
        ensures
            *r == self.leaves_state(),
    {
        &self.leaves
    }

    /// Advances every population one tick within the given screen. Rain
    /// falls anew while rain or a storm is active, snow while snow is, each
    /// at its stored intensity; smoke rises from `chimney`, fireflies and
    /// leaves appear, only while active; what is already under way goes on
    /// either way.
    pub fn update(&mut self, width: u16, height: u16, active: EffectActivation, chimney: (u16, u16))
        requires
            old(self).wf(),
        ensures
            final(self).wf(),
            old(self).ticked(*final(self), width, height, active, chimney),
            !(active.rain || active.thunderstorm) ==> final(self).rain_fall().particles().len()
                <= old(self).rain_fall().particles().len(),
            !active.snow ==> final(self).snow_fall().particles().len()
                <= old(self).snow_fall().particles().len(),
    {
        self.airplanes.update(width, height);
        let rain_level = if active.rain || active.thunderstorm {
            self.rain_intensity
        } else {
            0
        };
        let snow_level = if active.snow {
            self.snow_intensity
        } else {
            0
        };
        let ghost old_rain = self.rain.particles();
        let ghost old_snow = self.snow.particles();
        self.rain.update(width, height, rain_level);
        self.snow.update(width, height, snow_level);
        proof {
            if !(active.rain || active.thunderstorm) {
                let d = choose|d: FallDraws|
                    #[trigger] tick_particles(
                        PrecipitationKind::Rain,
                        old_rain,
                        0,
                        width as int,
                        height as int,
                        d,
                    ) == self.rain.particles();
                lemma_no_intensity_no_growth(
                    PrecipitationKind::Rain,
                    old_rain,
                    width as int,
                    height as int,
                    d,
                );
            }
            if !active.snow {
                let d = choose|d: FallDraws|
                    #[trigger] tick_particles(
                        PrecipitationKind::Snow,
                        old_snow,
                        0,
                        width as int,
                        height as int,
                        d,
                    ) == self.snow.particles();
                lemma_no_intensity_no_growth(
                    PrecipitationKind::Snow,
                    old_snow,
                    width as int,
                    height as int,
                    d,
                );
            }
        }
        self.lightning.update(active.thunderstorm, width);
        self.sun.update();
        self.clouds.update();
        self.smoke.update(width, height, active.chimney_smoke, chimney);
        self.fireflies.update(width, height, active.fireflies, chimney);
        self.leaves.update(width, height, active.leaves, chimney);
        proof {
            let o = old(self);
            let w = width as int;
            let h = height as int;
            let dp = choose|d: SpawnDraws|
                #[trigger] tick_planes(o.airplanes.planes(), o.airplanes.cooldown(), w, h, d)
                    == self.airplanes.planes() && self.airplanes.cooldown() == tick_cooldown(
                    o.airplanes.cooldown(),
                    w,
                    h,
                    d,
                );
            assert(tick_planes(o.sky().planes(), o.sky().cooldown(), w, h, dp) == self.sky().planes());
            let dr = choose|d: FallDraws|
                #[trigger] tick_particles(o.rain.kind_spec(), o.rain.particles(), rain_level, w, h, d)
                    == self.rain.particles();
            assert(tick_particles(o.rain_fall().kind_spec(), o.rain_fall().particles(), o.rain_used(active), w, h, dr) == self.rain_fall().particles());
            let ds = choose|d: FallDraws|
                #[trigger] tick_particles(o.snow.kind_spec(), o.snow.particles(), snow_level, w, h, d)
                    == self.snow.particles();
            assert(tick_particles(o.snow_fall().kind_spec(), o.snow_fall().particles(), o.snow_used(active), w, h, ds) == self.snow_fall().particles());
            let (c, col) = choose|c: u32, col: u16|
                #[trigger] tick_flash(o.lightning.flash_spec().0, o.lightning.flash_spec().1, active.thunderstorm, width, c, col)
                    == self.lightning.flash_spec();
            assert(tick_flash(o.bolt().flash_spec().0, o.bolt().flash_spec().1, active.thunderstorm, width, c, col) == self.bolt().flash_spec());
            let (j1, d1) = choose|js: Seq<u32>, d: DriftDraws|
                #[trigger] tick_drifters(o.smoke.kind_spec(), o.smoke.particles(), js, active.chimney_smoke, chimney, w, h, d)
                    == self.smoke.particles();
            assert(tick_drifters(o.smoke_spec().kind_spec(), o.smoke_spec().particles(), j1, active.chimney_smoke, chimney, w, h, d1) == self.smoke_spec().particles());
            let (j2, d2) = choose|js: Seq<u32>, d: DriftDraws|
                #[trigger] tick_drifters(o.fireflies.kind_spec(), o.fireflies.particles(), js, active.fireflies, chimney, w, h, d)
                    == self.fireflies.particles();
            assert(tick_drifters(o.fireflies_state().kind_spec(), o.fireflies_state().particles(), j2, active.fireflies, chimney, w, h, d2) == self.fireflies_state().particles());
            let (j3, d3) = choose|js: Seq<u32>, d: DriftDraws|
                #[trigger] tick_drifters(o.leaves.kind_spec(), o.leaves.particles(), js, active.leaves, chimney, w, h, d)
                    == self.leaves.particles();
            assert(tick_drifters(o.leaves_state().kind_spec(), o.leaves_state().particles(), j3, active.leaves, chimney, w, h, d3) == self.leaves_state().particles());
            assert(self.sun_state().tick_spec() == next_tick(o.sun_state().tick_spec()));
            assert(self.clouds_state().tick_spec() == next_tick(o.clouds_state().tick_spec()));
        }
    }

    /// Draws one frame's layers back to front: the sky effects, then the
    /// static scene over them, then the falling particles in front.
    pub fn render_frame(
        &self,
        renderer: &mut GridRenderer,
        scene: &WorldScene,
        active: EffectActivation,
        is_day: bool,
    )
        requires
            old(renderer).wf(),
            self.wf(),
        ensures
            final(renderer).wf(),
            final(renderer).cols() == old(renderer).cols(),
            final(renderer).rows() == old(renderer).rows(),
            final(renderer).shown() == old(renderer).shown(),
            final(renderer).full_pending() == old(renderer).full_pending(),
            final(renderer).cells() == old(renderer).drawn(
                self.frame_puts(scene.cols(), scene.rows(), active, is_day),
            ),
    {
        let ghost g0 = renderer.cells();
        let ghost w = renderer.cols();
        let ghost h = renderer.rows();
        let ghost sun = if active.sun {
            self.sun.puts(scene.cols())
        } else {
            Seq::<Put>::empty()
        };
        let ghost clouds = if active.clouds {
            self.clouds.puts(scene.cols())
        } else {
            Seq::<Put>::empty()
        };
        let ghost planes = if active.airplanes {
            planes_puts(self.airplanes.planes(), self.airplanes.planes().len() as int)
        } else {
            Seq::<Put>::empty()
        };
        let ghost bolt = if active.thunderstorm {
            self.lightning.puts()
        } else {
            Seq::<Put>::empty()
        };
        let ghost sc = scene_puts(scene.cols(), scene.rows(), is_day);
        let ghost rp = particle_puts(self.rain.kind_spec(), self.rain.particles(), self.rain.particles().len() as int);
        let ghost sp = particle_puts(self.snow.kind_spec(), self.snow.particles(), self.snow.particles().len() as int);
        let ghost mp = drift_puts(self.smoke.kind_spec(), self.smoke.particles(), self.smoke.particles().len() as int);
        let ghost fp = drift_puts(self.fireflies.kind_spec(), self.fireflies.particles(), self.fireflies.particles().len() as int);
        let ghost lp = drift_puts(self.leaves.kind_spec(), self.leaves.particles(), self.leaves.particles().len() as int);
        if active.sun {
            let (width, _) = scene.size();
            self.sun.render(renderer, width);
        }
        if active.clouds {
            let (width, _) = scene.size();
            self.clouds.render(renderer, width);
        }
        proof {
            lemma_apply_puts_concat(g0, w, h, sun, clouds);
        }
        if active.airplanes {
            self.airplanes.render(renderer);
        }
        proof {
            lemma_apply_puts_concat(g0, w, h, sun + clouds, planes);
        }
        if active.thunderstorm {
            self.lightning.render(renderer);
        }
        proof {
            lemma_apply_puts_concat(g0, w, h, sun + clouds + planes, bolt);
        }
        scene.render(renderer, is_day);
        proof {
            lemma_apply_puts_concat(g0, w, h, sun + clouds + planes + bolt, sc);
        }
        self.smoke.render(renderer);
        proof {
            lemma_apply_puts_concat(g0, w, h, sun + clouds + planes + bolt + sc, mp);
        }
        self.rain.render(renderer);
        proof {
            lemma_apply_puts_concat(g0, w, h, sun + clouds + planes + bolt + sc + mp, rp);
        }
        self.snow.render(renderer);
        proof {
            lemma_apply_puts_concat(g0, w, h, sun + clouds + planes + bolt + sc + mp + rp, sp);
        }
        self.fireflies.render(renderer);
        proof {
            lemma_apply_puts_concat(g0, w, h, sun + clouds + planes + bolt + sc + mp + rp + sp, fp);
        }
        self.leaves.render(renderer);
        proof {
            lemma_apply_puts_concat(g0, w, h, sun + clouds + planes + bolt + sc + mp + rp + sp + fp, lp);
        }
    }
}


} // verus!
