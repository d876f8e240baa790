//! The weather as the scene consumes it.
use crate::text::same_text;
use vstd::prelude::*;

verus! {

#[derive(Clone, Copy, PartialEq, Eq, Structural, Debug)]
pub enum WeatherCondition {
    Clear,
    PartlyCloudy,
    Cloudy,
    Overcast,
    Fog,
    Drizzle,
    Rain,
    FreezingRain,
    RainShowers,
    Snow,
    SnowGrains,
    SnowShowers,
    Thunderstorm,
    ThunderstormHail,
}

/// One observation: the condition, the temperature in tenths of a degree
/// Celsius, and whether the sun is up.
#[derive(Clone, Copy, PartialEq, Eq, Structural, Debug)]
pub struct WeatherData {
    pub condition: WeatherCondition,
    pub temperature_tenths: i32,
    pub is_day: bool,
}

/// Where the weather is observed, in hundredths of a degree.
#[derive(Clone, Copy, PartialEq, Eq, Structural, Debug)]
pub struct WeatherLocation {
    pub latitude_hundredths: i32,
    pub longitude_hundredths: i32,
}

pub open spec fn thunderstorm_spec(c: WeatherCondition) -> bool {
    c == WeatherCondition::Thunderstorm || c == WeatherCondition::ThunderstormHail
}

pub open spec fn snowing_spec(c: WeatherCondition) -> bool {
    c == WeatherCondition::Snow || c == WeatherCondition::SnowGrains || c
        == WeatherCondition::SnowShowers
}

/// Rain falls in drizzle, rain, freezing rain, showers and thunderstorms.
pub open spec fn raining_spec(c: WeatherCondition) -> bool {
    c == WeatherCondition::Drizzle || c == WeatherCondition::Rain || c
        == WeatherCondition::FreezingRain || c == WeatherCondition::RainShowers
        || thunderstorm_spec(c)
}

pub open spec fn cloudy_spec(c: WeatherCondition) -> bool {
    c == WeatherCondition::PartlyCloudy || c == WeatherCondition::Cloudy || c
        == WeatherCondition::Overcast || c == WeatherCondition::Fog
}

/// Rain intensity in percent.
pub open spec fn rain_intensity_spec(c: WeatherCondition) -> u8 {
    match c {
        WeatherCondition::Drizzle => 30,
        WeatherCondition::Rain => 70,
        WeatherCondition::FreezingRain => 60,
        WeatherCondition::RainShowers => 80,
        WeatherCondition::Thunderstorm => 100,
        WeatherCondition::ThunderstormHail => 100,
        _ => 0,
    }
}

/// Snow intensity in percent.
pub open spec fn snow_intensity_spec(c: WeatherCondition) -> u8 {
    match c {
        WeatherCondition::SnowGrains => 30,
        WeatherCondition::Snow => 70,
        WeatherCondition::SnowShowers => 80,
        _ => 0,
    }
}

/// The condition a WMO weather code reports: 0 clear, 1-2 partly cloudy,
/// 3 overcast, 45/48 fog, 51-55 drizzle, 56-57 and 66-67 freezing rain,
/// 61-65 rain, 71-75 snow, 77 snow grains, 80-82 rain showers, 85-86 snow
/// showers, 95 thunderstorm, 96/99 thunderstorm with hail; any other code
/// reads as cloudy.
pub open spec fn wmo_condition(code: u32) -> WeatherCondition {
    if code == 0 {
        WeatherCondition::Clear
    } else if code == 1 || code == 2 {
        WeatherCondition::PartlyCloudy
    } else if code == 3 {
        WeatherCondition::Overcast
    } else if code == 45 || code == 48 {
        WeatherCondition::Fog
    } else if code == 51 || code == 53 || code == 55 {
        WeatherCondition::Drizzle
    } else if code == 56 || code == 57 || code == 66 || code == 67 {
        WeatherCondition::FreezingRain
    } else if code == 61 || code == 63 || code == 65 {
        WeatherCondition::Rain
    } else if code == 71 || code == 73 || code == 75 {
        WeatherCondition::Snow
    } else if code == 77 {
        WeatherCondition::SnowGrains
    } else if 80 <= code <= 82 {
        WeatherCondition::RainShowers
    } else if code == 85 || code == 86 {
        WeatherCondition::SnowShowers
    } else if code == 95 {
        WeatherCondition::Thunderstorm
    } else if code == 96 || code == 99 {
        WeatherCondition::ThunderstormHail
    } else {
        WeatherCondition::Cloudy
    }
}

pub fn condition_from_wmo(code: u32) -> (r: WeatherCondition)
    ensures
        r == wmo_condition(code),
{
    if code == 0 {
        WeatherCondition::Clear
    } else if code == 1 || code == 2 {
        WeatherCondition::PartlyCloudy
    } else if code == 3 {
        WeatherCondition::Overcast
    } else if code == 45 || code == 48 {
        WeatherCondition::Fog
    } else if code == 51 || code == 53 || code == 55 {
        WeatherCondition::Drizzle
    } else if code == 56 || code == 57 || code == 66 || code == 67 {
        WeatherCondition::FreezingRain
    } else if code == 61 || code == 63 || code == 65 {
        WeatherCondition::Rain
    } else if code == 71 || code == 73 || code == 75 {
        WeatherCondition::Snow
    } else if code == 77 {
        WeatherCondition::SnowGrains
    } else if 80 <= code && code <= 82 {
        WeatherCondition::RainShowers
    } else if code == 85 || code == 86 {
        WeatherCondition::SnowShowers
    } else if code == 95 {
        WeatherCondition::Thunderstorm
    } else if code == 96 || code == 99 {
        WeatherCondition::ThunderstormHail
    } else {
        WeatherCondition::Cloudy
    }
}

/// The condition a name stands for: the condition's name in lower case,
/// words joined by hyphens.
pub open spec fn condition_named(name: Seq<char>) -> Option<WeatherCondition> {
    if name == "clear"@ {
        Some(WeatherCondition::Clear)
    } else if name == "partly-cloudy"@ {
        Some(WeatherCondition::PartlyCloudy)
    } else if name == "cloudy"@ {
        Some(WeatherCondition::Cloudy)
    } else if name == "overcast"@ {
        Some(WeatherCondition::Overcast)
    } else if name == "fog"@ {
        Some(WeatherCondition::Fog)
    } else if name == "drizzle"@ {
        Some(WeatherCondition::Drizzle)
    } else if name == "rain"@ {
        Some(WeatherCondition::Rain)
    } else if name == "freezing-rain"@ {
        Some(WeatherCondition::FreezingRain)
    } else if name == "rain-showers"@ {
        Some(WeatherCondition::RainShowers)
    } else if name == "snow"@ {
        Some(WeatherCondition::Snow)
    } else if name == "snow-grains"@ {
        Some(WeatherCondition::SnowGrains)
    } else if name == "snow-showers"@ {
        Some(WeatherCondition::SnowShowers)
    } else if name == "thunderstorm"@ {
        Some(WeatherCondition::Thunderstorm)
    } else if name == "thunderstorm-hail"@ {
        Some(WeatherCondition::ThunderstormHail)
    } else {
        None
    }
}

/// The condition named `name` (see `condition_named`), if any.
pub fn condition_from_name(name: &str) -> (r: Option<WeatherCondition>)
    ensures
        r == condition_named(name@),
{
    if same_text(name, "clear") {
        return Some(WeatherCondition::Clear);
    }
    if same_text(name, "partly-cloudy") {
        return Some(WeatherCondition::PartlyCloudy);
    }
    if same_text(name, "cloudy") {
        return Some(WeatherCondition::Cloudy);
    }
    if same_text(name, "overcast") {
        return Some(WeatherCondition::Overcast);
    }
    if same_text(name, "fog") {
        return Some(WeatherCondition::Fog);
    }
    if same_text(name, "drizzle") {
        return Some(WeatherCondition::Drizzle);
    }
    if same_text(name, "rain") {
        return Some(WeatherCondition::Rain);
    }
    if same_text(name, "freezing-rain") {
        return Some(WeatherCondition::FreezingRain);
    }
    if same_text(name, "rain-showers") {
        return Some(WeatherCondition::RainShowers);
    }
    if same_text(name, "snow") {
        return Some(WeatherCondition::Snow);
    }
    if same_text(name, "snow-grains") {
        return Some(WeatherCondition::SnowGrains);
    }
    if same_text(name, "snow-showers") {
        return Some(WeatherCondition::SnowShowers);
    }
    if same_text(name, "thunderstorm") {
        return Some(WeatherCondition::Thunderstorm);
    }
    if same_text(name, "thunderstorm-hail") {
        return Some(WeatherCondition::ThunderstormHail);
    }
    None
}

impl WeatherCondition {
    pub fn is_thunderstorm(&self) -> (r: bool)
        ensures
            r == thunderstorm_spec(*self),
    {
        match self {
            WeatherCondition::Thunderstorm | WeatherCondition::ThunderstormHail => true,
            _ => false,
        }
    }

    pub fn is_snowing(&self) -> (r: bool)
        ensures
            r == snowing_spec(*self),
    {
        match self {
            WeatherCondition::Snow | WeatherCondition::SnowGrains
            | WeatherCondition::SnowShowers => true,
            _ => false,
        }
    }

    pub fn is_raining(&self) -> (r: bool)
        ensures
            r == raining_spec(*self),
    {
        match self {
            WeatherCondition::Drizzle | WeatherCondition::Rain | WeatherCondition::FreezingRain
            | WeatherCondition::RainShowers | WeatherCondition::Thunderstorm
            | WeatherCondition::ThunderstormHail => true,
            _ => false,
        }
    }

    pub fn is_cloudy(&self) -> (r: bool)
        ensures
            r == cloudy_spec(*self),
    {
        match self {
            WeatherCondition::PartlyCloudy | WeatherCondition::Cloudy
            | WeatherCondition::Overcast | WeatherCondition::Fog => true,
            _ => false,
        }
    }

    pub fn rain_intensity(&self) -> (r: u8)
        ensures
            r == rain_intensity_spec(*self),
            r <= 100,
    {
        match self {
            WeatherCondition::Drizzle => 30,
            WeatherCondition::Rain => 70,
            WeatherCondition::FreezingRain => 60,
            WeatherCondition::RainShowers => 80,
            WeatherCondition::Thunderstorm => 100,
            WeatherCondition::ThunderstormHail => 100,
            _ => 0,
        }
    }

    pub fn snow_intensity(&self) -> (r: u8)
        ensures
            r == snow_intensity_spec(*self),
            r <= 100,
    {
        match self {
            WeatherCondition::SnowGrains => 30,
            WeatherCondition::Snow => 70,
            WeatherCondition::SnowShowers => 80,
            _ => 0,
        }
    }
}

} // verus!
