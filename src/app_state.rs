//! What the frame loop knows of the weather, and the status line it shows.
use crate::text::{fixed_text, push_fixed};
use crate::weather::{
    raining_spec, snowing_spec, thunderstorm_spec, cloudy_spec, WeatherCondition, WeatherData,
    WeatherLocation,
};
use std::time::Instant;
use vstd::prelude::*;
use vstd::string::StringExecFns;

verus! {

#[verifier::external_type_specification]
#[verifier::external_body]
pub struct ExInstant(std::time::Instant);

/// Relies on std::time::Instant::now: the current instant; nothing is
/// promised of it.
#[verifier::external_body]
fn instant_now() -> Instant {
    Instant::now()
}

/// Relies on std::time::Instant::elapsed: the time since `t`, in whole
/// milliseconds; nothing is promised of it.
#[verifier::external_body]
fn millis_since(t: &Instant) -> u128 {
    t.elapsed().as_millis()
}

/// Milliseconds between two frames of the loading spinner.
pub const SPINNER_INTERVAL_MS: u128 = 100;

/// The weather flags the animations switch on. Rain is not set while a
/// thunderstorm is, which has its own, heavier rain.
#[derive(Clone, Copy, PartialEq, Eq, Structural, Debug)]
pub struct WeatherConditions {
    pub is_raining: bool,
    pub is_snowing: bool,
    pub is_thunderstorm: bool,
    pub is_cloudy: bool,
    pub is_day: bool,
}

/// The flags derived from one observation.
pub open spec fn conditions_of(w: WeatherData) -> WeatherConditions {
    WeatherConditions {
        is_raining: raining_spec(w.condition) && !thunderstorm_spec(w.condition),
        is_snowing: snowing_spec(w.condition),
        is_thunderstorm: thunderstorm_spec(w.condition),
        is_cloudy: cloudy_spec(w.condition),
        is_day: w.is_day,
    }
}

/// Before any weather arrives: a clear day.
pub open spec fn default_conditions() -> WeatherConditions {
    WeatherConditions {
        is_raining: false,
        is_snowing: false,
        is_thunderstorm: false,
        is_cloudy: false,
        is_day: true,
    }
}

impl WeatherConditions {
    pub fn default() -> (r: Self)
        ensures
            r == default_conditions(),
    {
        WeatherConditions {
            is_raining: false,
            is_snowing: false,
            is_thunderstorm: false,
            is_cloudy: false,
            is_day: true,
        }
    }
}

/// The spinner shown while the first observation is awaited.
pub struct LoadingState {
    pub frame: usize,
    pub last_update: Instant,
    pub loading_chars: [char; 4],
}

/// Spinner frame `f`.
pub open spec fn loading_char(f: int) -> char {
    if f == 0 {
        '|'
    } else if f == 1 {
        '/'
    } else if f == 2 {
        '-'
    } else {
        '\\'
    }
}

impl LoadingState {
    pub open spec fn wf(&self) -> bool {
        &&& self.frame < 4
        &&& forall|i: int| 0 <= i < 4 ==> #[trigger] self.loading_chars@[i] == loading_char(i)
    }

    pub fn new() -> (r: Self)
        ensures
            r.wf(),
            r.frame == 0,
    {
        let r = LoadingState {
            frame: 0,
            last_update: instant_now(),
            loading_chars: ['|', '/', '-', '\\'],
        };
        assert(r.loading_chars@[0] == '|' && r.loading_chars@[1] == '/' && r.loading_chars@[2]
            == '-' && r.loading_chars@[3] == '\\');
        r
    }

    /// Whether a spinner frame that is `elapsed_ms` old is due for the next.
    pub fn due_after(elapsed_ms: u128) -> (r: bool)
        ensures
            r == (elapsed_ms >= SPINNER_INTERVAL_MS),
    {
        elapsed_ms >= SPINNER_INTERVAL_MS
    }

    /// Whether the current frame has been shown long enough: what
    /// `due_after` says of the time since it was shown.
    pub fn should_update(&self) -> bool {
        LoadingState::due_after(millis_since(&self.last_update))
    }

    /// Moves to the next frame, cyclically, and restarts its clock.
    pub fn next_frame(&mut self)
        requires
            old(self).wf(),
        ensures
            final(self).wf(),
            final(self).frame == (old(self).frame + 1) % 4,
            final(self).loading_chars == old(self).loading_chars,
    {
        self.frame = (self.frame + 1) % 4;
        self.last_update = instant_now();
    }

    pub fn current_char(&self) -> (r: char)
        requires
            self.wf(),
        ensures
            r == loading_char(self.frame as int),
    {
        self.loading_chars[self.frame]
    }
}

/// The name shown for a condition.
pub open spec fn condition_name(c: WeatherCondition) -> Seq<char> {
    match c {
        WeatherCondition::Clear => "Clear"@,
        WeatherCondition::Cloudy => "Cloudy"@,
        WeatherCondition::PartlyCloudy => "Partly Cloudy"@,
        WeatherCondition::Overcast => "Overcast"@,
        WeatherCondition::Fog => "Fog"@,
        WeatherCondition::Drizzle => "Drizzle"@,
        WeatherCondition::FreezingRain => "Freezing Rain"@,
        WeatherCondition::Rain => "Rain"@,
        WeatherCondition::Snow => "Snow"@,
        WeatherCondition::SnowGrains => "Snow Grains"@,
        WeatherCondition::RainShowers => "Rain Showers"@,
        WeatherCondition::SnowShowers => "Snow Showers"@,
        WeatherCondition::Thunderstorm => "Thunderstorm"@,
        WeatherCondition::ThunderstormHail => "Thunderstorm with Hail"@,
    }
}

/// The end of the status line: the coordinates with two decimals and the
/// quit hint.
pub open spec fn location_text(l: WeatherLocation) -> Seq<char> {
    " | Location: "@ + fixed_text(l.latitude_hundredths as int, 2) + "°N, "@ + fixed_text(
        l.longitude_hundredths as int,
        2,
    ) + "°E | Press 'q' to quit"@
}

/// The sky is clear or partly cloudy.
pub open spec fn clear_sky(c: WeatherCondition) -> bool {
    c == WeatherCondition::Clear || c == WeatherCondition::PartlyCloudy
}

pub struct AppState {
    pub current_weather: Option<WeatherData>,
    pub weather_error: Option<String>,
    pub weather_conditions: WeatherConditions,
    pub loading_state: LoadingState,
    pub cached_weather_info: String,
    pub weather_info_needs_update: bool,
    pub location: WeatherLocation,
}

impl AppState {
    pub open spec fn wf(&self) -> bool {
        self.loading_state.wf()
    }

    /// The status line for the current state: the error if there is one,
    /// else the condition and temperature, else the spinner.
    pub open spec fn info_text(&self) -> Seq<char> {
        let head = match self.weather_error {
            Some(e) => e@,
            None => match self.current_weather {
                Some(w) => "Weather: "@ + condition_name(w.condition) + " | Temp: "@ + fixed_text(
                    w.temperature_tenths as int,
                    1,
                ) + "°C"@,
                None => "Weather: Loading... "@ + seq![loading_char(self.loading_state.frame as int)],
            },
        };
        head + location_text(self.location)
    }

    /// The sun shows by day under a clear or partly cloudy sky.
    pub open spec fn sun_spec(&self) -> bool {
        self.weather_conditions.is_day && match self.current_weather {
            Some(w) => clear_sky(w.condition),
            None => false,
        }
    }

    /// Fireflies show on a warm (over 15 degrees), clear or partly cloudy
    /// night without rain, storm or snow.
    pub open spec fn fireflies_spec(&self) -> bool {
        !self.weather_conditions.is_day && match self.current_weather {
            Some(w) => w.temperature_tenths > 150 && clear_sky(w.condition)
                && !self.weather_conditions.is_raining && !self.weather_conditions.is_thunderstorm
                && !self.weather_conditions.is_snowing,
            None => false,
        }
    }

    pub fn new(location: WeatherLocation) -> (r: Self)
        ensures
            r.wf(),
            r.current_weather is None,
            r.weather_error is None,
            r.weather_conditions == default_conditions(),
            r.loading_state.frame == 0,
            r.cached_weather_info@ == Seq::<char>::empty(),
            r.weather_info_needs_update,
            r.location == location,
    {
        AppState {
            current_weather: None,
            weather_error: None,
            weather_conditions: WeatherConditions::default(),
            loading_state: LoadingState::new(),
            cached_weather_info: String::new(),
            weather_info_needs_update: true,
            location,
        }
    }

    /// Takes a new observation: derives the flags from it and clears any
    /// error.
    pub fn update_weather(&mut self, weather: WeatherData)
        ensures
            final(self).weather_conditions == conditions_of(weather),
            final(self).current_weather == Some(weather),
            final(self).weather_error is None,
            final(self).weather_info_needs_update,
            final(self).loading_state == old(self).loading_state,
            final(self).cached_weather_info == old(self).cached_weather_info,
            final(self).location == old(self).location,
    {
        self.weather_conditions.is_thunderstorm = weather.condition.is_thunderstorm();
        self.weather_conditions.is_snowing = weather.condition.is_snowing();
        self.weather_conditions.is_raining = weather.condition.is_raining()
            && !self.weather_conditions.is_thunderstorm;
        self.weather_conditions.is_cloudy = weather.condition.is_cloudy();
        self.weather_conditions.is_day = weather.is_day;
        self.current_weather = Some(weather);
        self.weather_error = None;
        self.weather_info_needs_update = true;
    }

    pub fn set_weather_error(&mut self, error: String)
        ensures
            final(self).weather_error == Some(error),
            final(self).weather_info_needs_update,
            final(self).current_weather == old(self).current_weather,
            final(self).weather_conditions == old(self).weather_conditions,
            final(self).loading_state == old(self).loading_state,
            final(self).cached_weather_info == old(self).cached_weather_info,
            final(self).location == old(self).location,
    {
        self.weather_error = Some(error);
        self.weather_info_needs_update = true;
    }

    /// The spinner step for a frame that has been shown `elapsed_ms`: once
    /// the interval has passed, the next frame, whose clock restarts, and
    /// the status line needs redoing; before that nothing changes.
    pub fn update_loading_animation_after(&mut self, elapsed_ms: u128)
        requires
            old(self).wf(),
        ensures
            final(self).wf(),
            elapsed_ms >= SPINNER_INTERVAL_MS ==> {
                &&& final(self).loading_state.frame == (old(self).loading_state.frame + 1) % 4
                &&& final(self).weather_info_needs_update
            },
            elapsed_ms < SPINNER_INTERVAL_MS ==> final(self).loading_state == old(self).loading_state
                && final(self).weather_info_needs_update == old(self).weather_info_needs_update,
            final(self).loading_state.loading_chars == old(self).loading_state.loading_chars,
            final(self).current_weather == old(self).current_weather,
            final(self).weather_error == old(self).weather_error,
            final(self).weather_conditions == old(self).weather_conditions,
            final(self).cached_weather_info == old(self).cached_weather_info,
            final(self).location == old(self).location,
    {
        if LoadingState::due_after(elapsed_ms) {
            self.loading_state.next_frame();
            self.weather_info_needs_update = true;
        }
    }

    /// The spinner step for the time the current frame has really been
    /// shown: what `update_loading_animation_after` does for some elapsed
    /// time.
    pub fn update_loading_animation(&mut self)
        requires
            old(self).wf(),
        ensures
            final(self).wf(),
            final(self).loading_state.frame == old(self).loading_state.frame
                && final(self).weather_info_needs_update == old(self).weather_info_needs_update
                || final(self).loading_state.frame == (old(self).loading_state.frame + 1) % 4
                && final(self).weather_info_needs_update,
            final(self).loading_state.loading_chars == old(self).loading_state.loading_chars,
            final(self).current_weather == old(self).current_weather,
            final(self).weather_error == old(self).weather_error,
            final(self).weather_conditions == old(self).weather_conditions,
            final(self).cached_weather_info == old(self).cached_weather_info,
            final(self).location == old(self).location,
    {
        let elapsed = millis_since(&self.loading_state.last_update);
        self.update_loading_animation_after(elapsed);
    }

    pub fn get_condition_text(&self) -> (r: &'static str)
        ensures
            r@ == match self.current_weather {
                Some(w) => condition_name(w.condition),
                None => "Loading"@,
            },
    {
        match self.current_weather {
            Some(w) => match w.condition {
                WeatherCondition::Clear => "Clear",
                WeatherCondition::Cloudy => "Cloudy",
                WeatherCondition::PartlyCloudy => "Partly Cloudy",
                WeatherCondition::Overcast => "Overcast",
                WeatherCondition::Fog => "Fog",
                WeatherCondition::Drizzle => "Drizzle",
                WeatherCondition::FreezingRain => "Freezing Rain",
                WeatherCondition::Rain => "Rain",
                WeatherCondition::Snow => "Snow",
                WeatherCondition::SnowGrains => "Snow Grains",
                WeatherCondition::RainShowers => "Rain Showers",
                WeatherCondition::SnowShowers => "Snow Showers",
                WeatherCondition::Thunderstorm => "Thunderstorm",
                WeatherCondition::ThunderstormHail => "Thunderstorm with Hail",
            },
            None => "Loading",
        }
    }

    /// Rebuilds the status line if something it shows has changed.
    pub fn update_cached_info(&mut self)
        requires
            old(self).wf(),
        ensures
            final(self).wf(),
            old(self).weather_info_needs_update ==> final(self).cached_weather_info@
                == old(self).info_text(),
            !old(self).weather_info_needs_update ==> final(self).cached_weather_info
                == old(self).cached_weather_info,
            !final(self).weather_info_needs_update,
            final(self).current_weather == old(self).current_weather,
            final(self).weather_error == old(self).weather_error,
            final(self).weather_conditions == old(self).weather_conditions,
            final(self).loading_state == old(self).loading_state,
            final(self).location == old(self).location,
    {
        if !self.weather_info_needs_update {
            return;
        }
        let mut s = String::new();
        match &self.weather_error {
            Some(e) => {
                s.append(e.as_str());
            },
            None => match self.current_weather {
                Some(w) => {
                    s.append("Weather: ");
                    s.append(self.get_condition_text());
                    s.append(" | Temp: ");
                    push_fixed(&mut s, w.temperature_tenths, 1);
                    s.append("°C");
                },
                None => {
                    s.append("Weather: Loading... ");
                    s.append(spinner_str(self.loading_state.current_char()));
                },
            },
        }
        let ghost head = s@;
        s.append(" | Location: ");
        push_fixed(&mut s, self.location.latitude_hundredths, 2);
        s.append("°N, ");
        push_fixed(&mut s, self.location.longitude_hundredths, 2);
        s.append("°E | Press 'q' to quit");
        assert(s@ =~= head + location_text(self.location));
        assert(head =~= match self.weather_error {
            Some(e) => e@,
            None => match self.current_weather {
                Some(w) => "Weather: "@ + condition_name(w.condition) + " | Temp: "@ + fixed_text(
                    w.temperature_tenths as int,
                    1,
                ) + "°C"@,
                None => "Weather: Loading... "@ + seq![loading_char(self.loading_state.frame as int)],
            },
        });
        self.cached_weather_info = s;
        self.weather_info_needs_update = false;
    }

    pub fn should_show_sun(&self) -> (r: bool)
        ensures
            r == self.sun_spec(),
    {
        if !self.weather_conditions.is_day {
            return false;
        }
        match self.current_weather {
            Some(w) => match w.condition {
                WeatherCondition::Clear | WeatherCondition::PartlyCloudy => true,
                _ => false,
            },
            None => false,
        }
    }

    pub fn should_show_fireflies(&self) -> (r: bool)
        ensures
            r == self.fireflies_spec(),
    {
        if self.weather_conditions.is_day {
            return false;
        }
        match self.current_weather {
            Some(w) => {
                let is_warm = w.temperature_tenths > 150;
                let is_clear_night = match w.condition {
                    WeatherCondition::Clear | WeatherCondition::PartlyCloudy => true,
                    _ => false,
                };
                is_warm && is_clear_night && !self.weather_conditions.is_raining
                    && !self.weather_conditions.is_thunderstorm
                    && !self.weather_conditions.is_snowing
            },
            None => false,
        }
    }
}

/// The spinner frame as text.
fn spinner_str(c: char) -> (r: &'static str)
    requires
        c == '|' || c == '/' || c == '-' || c == '\\',
    ensures
        r@ == seq![c],
{
    proof {
        reveal_strlit("|");
        reveal_strlit("/");
        reveal_strlit("-");
        reveal_strlit("\\");
    }
    if c == '|' {
        "|"
    } else if c == '/' {
        "/"
    } else if c == '-' {
        "-"
    } else {
        "\\"
    }
}

} // verus!
