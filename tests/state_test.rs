use weathr::animation_manager::AnimationManager;
use weathr::app_state::{AppState, LoadingState, WeatherConditions};
use weathr::config::{default_city_name_language, LocationDisplay};
use weathr::onboard::{current_hint, yes_no};
use weathr::text::push_fixed;
use weathr::weather::{condition_from_name, condition_from_wmo, WeatherCondition, WeatherData, WeatherLocation};

fn berlin() -> WeatherLocation {
    WeatherLocation { latitude_hundredths: 5252, longitude_hundredths: 1341 }
}

fn weather(condition: WeatherCondition, temperature_tenths: i32, is_day: bool) -> WeatherData {
    WeatherData { condition, temperature_tenths, is_day }
}

#[test]
fn test_yes_no() {
    assert_eq!(yes_no(true), "yes");
    assert_eq!(yes_no(false), "no");
}

#[test]
fn current_hint_shows_the_value() {
    assert_eq!(current_hint("en"), "[current: en]");
    assert_eq!(current_hint(yes_no(true)), "[current: yes]");
}

#[test]
fn city_name_language_defaults_to_auto() {
    assert_eq!(default_city_name_language(), "auto");
}

#[test]
fn location_display_defaults_to_coordinates() {
    assert_eq!(LocationDisplay::default(), LocationDisplay::Coordinates);
}

#[test]
fn fixed_point_text() {
    let cases = [(5252, 2, "52.52"), (-3387, 2, "-33.87"), (-5, 2, "-0.05"), (0, 2, "0.00"),
        (200, 1, "20.0"), (-15, 1, "-1.5"), (18000, 2, "180.00"), (7, 3, "0.007")];
    for (v, places, want) in cases {
        let mut s = String::new();
        push_fixed(&mut s, v, places);
        assert_eq!(s, want);
    }
}

#[test]
fn default_conditions_are_a_clear_day() {
    let c = WeatherConditions::default();
    assert!(c.is_day);
    assert!(!c.is_raining && !c.is_snowing && !c.is_thunderstorm && !c.is_cloudy);
}

#[test]
fn new_state_is_loading() {
    let state = AppState::new(berlin());
    assert!(state.current_weather.is_none());
    assert!(state.weather_info_needs_update);
    assert_eq!(state.get_condition_text(), "Loading");
    assert!(!state.should_show_sun());
    assert!(!state.should_show_fireflies());
}

#[test]
fn thunderstorm_is_not_plain_rain() {
    let mut state = AppState::new(berlin());
    state.update_weather(weather(WeatherCondition::Thunderstorm, 180, true));
    assert!(state.weather_conditions.is_thunderstorm);
    assert!(!state.weather_conditions.is_raining);
    state.update_weather(weather(WeatherCondition::Rain, 180, true));
    assert!(state.weather_conditions.is_raining);
    assert!(!state.weather_conditions.is_thunderstorm);
}

#[test]
fn condition_names() {
    let mut state = AppState::new(berlin());
    state.update_weather(weather(WeatherCondition::ThunderstormHail, 0, true));
    assert_eq!(state.get_condition_text(), "Thunderstorm with Hail");
    state.update_weather(weather(WeatherCondition::PartlyCloudy, 0, true));
    assert_eq!(state.get_condition_text(), "Partly Cloudy");
}

#[test]
fn status_line_with_weather() {
    let mut state = AppState::new(berlin());
    state.update_weather(weather(WeatherCondition::Clear, 200, true));
    state.update_cached_info();
    assert_eq!(
        state.cached_weather_info,
        "Weather: Clear | Temp: 20.0°C | Location: 52.52°N, 13.41°E | Press 'q' to quit"
    );
    assert!(!state.weather_info_needs_update);
}

#[test]
fn status_line_while_loading() {
    let mut state = AppState::new(WeatherLocation {
        latitude_hundredths: -3387,
        longitude_hundredths: 15121,
    });
    state.update_cached_info();
    assert_eq!(
        state.cached_weather_info,
        "Weather: Loading... | | Location: -33.87°N, 151.21°E | Press 'q' to quit"
    );
}

#[test]
fn status_line_with_error() {
    let mut state = AppState::new(berlin());
    state.update_weather(weather(WeatherCondition::Rain, -15, false));
    state.set_weather_error("Error fetching weather: timeout".to_string());
    state.update_cached_info();
    assert_eq!(
        state.cached_weather_info,
        "Error fetching weather: timeout | Location: 52.52°N, 13.41°E | Press 'q' to quit"
    );
}

#[test]
fn status_line_is_kept_until_needed() {
    let mut state = AppState::new(berlin());
    state.update_cached_info();
    let first = state.cached_weather_info.clone();
    state.current_weather = Some(weather(WeatherCondition::Snow, 0, true));
    state.update_cached_info();
    assert_eq!(state.cached_weather_info, first);
}

#[test]
fn sun_shows_on_clear_days_only() {
    let mut state = AppState::new(berlin());
    state.update_weather(weather(WeatherCondition::Clear, 200, true));
    assert!(state.should_show_sun());
    state.update_weather(weather(WeatherCondition::Overcast, 200, true));
    assert!(!state.should_show_sun());
    state.update_weather(weather(WeatherCondition::Clear, 200, false));
    assert!(!state.should_show_sun());
}

#[test]
fn fireflies_need_a_warm_clear_night() {
    let mut state = AppState::new(berlin());
    state.update_weather(weather(WeatherCondition::Clear, 180, false));
    assert!(state.should_show_fireflies());
    state.update_weather(weather(WeatherCondition::Clear, 150, false));
    assert!(!state.should_show_fireflies());
    state.update_weather(weather(WeatherCondition::Rain, 180, false));
    assert!(!state.should_show_fireflies());
    state.update_weather(weather(WeatherCondition::Clear, 180, true));
    assert!(!state.should_show_fireflies());
}

#[test]
fn spinner_cycles() {
    let mut s = LoadingState::new();
    assert_eq!(s.current_char(), '|');
    s.next_frame();
    assert_eq!(s.current_char(), '/');
    s.next_frame();
    assert_eq!(s.current_char(), '-');
    s.next_frame();
    assert_eq!(s.current_char(), '\\');
    s.next_frame();
    assert_eq!(s.current_char(), '|');
    assert!(LoadingState::due_after(100));
    assert!(!LoadingState::due_after(99));
}

#[test]
fn weather_predicates_and_intensities() {
    assert!(WeatherCondition::Drizzle.is_raining());
    assert!(WeatherCondition::Thunderstorm.is_raining());
    assert!(!WeatherCondition::Snow.is_raining());
    assert!(WeatherCondition::SnowShowers.is_snowing());
    assert!(WeatherCondition::Fog.is_cloudy());
    assert!(!WeatherCondition::Clear.is_cloudy());
    assert_eq!(WeatherCondition::Rain.rain_intensity(), 70);
    assert_eq!(WeatherCondition::Clear.rain_intensity(), 0);
    assert_eq!(WeatherCondition::Snow.snow_intensity(), 70);
}

#[test]
fn thunderstorm_activation_excludes_rain() {
    let mut state = AppState::new(berlin());
    state.update_weather(weather(WeatherCondition::Thunderstorm, 180, true));
    state.weather_conditions.is_raining = true;
    let manager = AnimationManager::new(80, 24, false);
    let act = manager.activation(&state);
    assert!(act.thunderstorm);
    assert!(!act.rain);
    assert!(act.clouds);
}

#[test]
fn clear_day_activates_sun_without_precipitation() {
    let mut state = AppState::new(berlin());
    state.update_weather(weather(WeatherCondition::Clear, 200, true));
    let manager = AnimationManager::new(80, 24, true);
    let act = manager.activation(&state);
    assert!(act.sun);
    assert!(!act.rain && !act.snow && !act.thunderstorm);
    assert!(!act.fireflies);
    assert!(act.leaves);
    assert!(act.chimney_smoke);
}

#[test]
fn intensity_setters_store_and_cap() {
    let mut m = AnimationManager::new(80, 24, false);
    m.set_rain_intensity(70);
    m.set_rain_intensity(70);
    assert_eq!(m.rain_intensity(), 70);
    m.set_snow_intensity(200);
    assert_eq!(m.snow_intensity(), 100);
    assert_eq!(m.rain_intensity(), 70);
}

#[test]
fn condition_names_parse() {
    assert_eq!(condition_from_name("clear"), Some(WeatherCondition::Clear));
    assert_eq!(condition_from_name("partly-cloudy"), Some(WeatherCondition::PartlyCloudy));
    assert_eq!(condition_from_name("thunderstorm-hail"), Some(WeatherCondition::ThunderstormHail));
    assert_eq!(condition_from_name("snow-grains"), Some(WeatherCondition::SnowGrains));
    assert_eq!(condition_from_name("Rain"), None);
    assert_eq!(condition_from_name(""), None);
    assert_eq!(condition_from_name("rainy"), None);
}

#[test]
fn spinner_steps_exactly_when_due() {
    let mut state = AppState::new(berlin());
    state.update_cached_info();
    state.update_loading_animation_after(99);
    assert_eq!(state.loading_state.frame, 0);
    assert!(!state.weather_info_needs_update);
    state.update_loading_animation_after(100);
    assert_eq!(state.loading_state.frame, 1);
    assert!(state.weather_info_needs_update);
    state.update_cached_info();
    assert_eq!(
        state.cached_weather_info,
        "Weather: Loading... / | Location: 52.52°N, 13.41°E | Press 'q' to quit"
    );
}

#[test]
fn wmo_codes_map_to_conditions() {
    assert_eq!(condition_from_wmo(0), WeatherCondition::Clear);
    assert_eq!(condition_from_wmo(2), WeatherCondition::PartlyCloudy);
    assert_eq!(condition_from_wmo(3), WeatherCondition::Overcast);
    assert_eq!(condition_from_wmo(48), WeatherCondition::Fog);
    assert_eq!(condition_from_wmo(53), WeatherCondition::Drizzle);
    assert_eq!(condition_from_wmo(67), WeatherCondition::FreezingRain);
    assert_eq!(condition_from_wmo(63), WeatherCondition::Rain);
    assert_eq!(condition_from_wmo(75), WeatherCondition::Snow);
    assert_eq!(condition_from_wmo(77), WeatherCondition::SnowGrains);
    assert_eq!(condition_from_wmo(81), WeatherCondition::RainShowers);
    assert_eq!(condition_from_wmo(86), WeatherCondition::SnowShowers);
    assert_eq!(condition_from_wmo(95), WeatherCondition::Thunderstorm);
    assert_eq!(condition_from_wmo(99), WeatherCondition::ThunderstormHail);
    assert_eq!(condition_from_wmo(42), WeatherCondition::Cloudy);
}
