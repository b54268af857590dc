//! Naming the weather that a WMO weather code reports.
use vstd::prelude::*;

verus! {

/// The kinds of weather that the status bar tells apart.
#[derive(Clone, Copy, PartialEq, Eq, Debug, Structural)]
pub enum WeatherKind {
    Clear,
    PartlyCloudy,
    Foggy,
    Drizzle,
    Rain,
    Snow,
    SnowGrains,
    Showers,
    SnowShowers,
    Thunderstorm,
    Unknown,
}

/// The kind of weather a WMO code stands for.
pub open spec fn kind_of_code(code: i64) -> WeatherKind {
    if code == 0 {
        WeatherKind::Clear
    } else if 1 <= code <= 3 {
        WeatherKind::PartlyCloudy
    } else if code == 45 || code == 48 {
        WeatherKind::Foggy
    } else if code == 51 || code == 53 || code == 55 {
        WeatherKind::Drizzle
    } else if code == 61 || code == 63 || code == 65 {
        WeatherKind::Rain
    } else if code == 71 || code == 73 || code == 75 {
        WeatherKind::Snow
    } else if code == 77 {
        WeatherKind::SnowGrains
    } else if 80 <= code <= 82 {
        WeatherKind::Showers
    } else if code == 85 || code == 86 {
        WeatherKind::SnowShowers
    } else if code == 95 || code == 96 || code == 99 {
        WeatherKind::Thunderstorm
    } else {
        WeatherKind::Unknown
    }
}

/// Classifies a WMO weather code; codes outside the table are `Unknown`.
pub fn weather_kind(code: i64) -> (k: WeatherKind)
    ensures
        k == kind_of_code(code),
{
    match code {
        0 => WeatherKind::Clear,
        1..=3 => WeatherKind::PartlyCloudy,
        45 | 48 => WeatherKind::Foggy,
        51 | 53 | 55 => WeatherKind::Drizzle,
        61 | 63 | 65 => WeatherKind::Rain,
        71 | 73 | 75 => WeatherKind::Snow,
        77 => WeatherKind::SnowGrains,
        80..=82 => WeatherKind::Showers,
        85 | 86 => WeatherKind::SnowShowers,
        95 | 96 | 99 => WeatherKind::Thunderstorm,
        _ => WeatherKind::Unknown,
    }
}

impl WeatherKind {
    /// The words shown for this kind of weather.
    pub open spec fn description_spec(self) -> Seq<char> {
        match self {
            WeatherKind::Clear => "Clear"@,
            WeatherKind::PartlyCloudy => "Partly cloudy"@,
            WeatherKind::Foggy => "Foggy"@,
            WeatherKind::Drizzle => "Drizzle"@,
            WeatherKind::Rain => "Rain"@,
            WeatherKind::Snow => "Snow"@,
            WeatherKind::SnowGrains => "Snow grains"@,
            WeatherKind::Showers => "Showers"@,
            WeatherKind::SnowShowers => "Snow showers"@,
            WeatherKind::Thunderstorm => "Thunderstorm"@,
            WeatherKind::Unknown => "Unknown"@,
        }
    }

    /// The symbol shown for this kind of weather.
    pub open spec fn icon_spec(self) -> Seq<char> {
        match self {
            WeatherKind::Clear => "\u{2600}"@,
            WeatherKind::PartlyCloudy => "\u{26C5}"@,
            WeatherKind::Foggy => "\u{1F32B}"@,
            WeatherKind::Drizzle | WeatherKind::Rain | WeatherKind::Showers => "\u{1F327}"@,
            WeatherKind::Snow | WeatherKind::SnowGrains => "\u{2744}"@,
            WeatherKind::SnowShowers => "\u{1F328}"@,
            WeatherKind::Thunderstorm => "\u{26C8}"@,
            WeatherKind::Unknown => "\u{2601}"@,
        }
    }

    /// The words shown for this kind of weather.
    pub fn description(&self) -> (r: &'static str)
        ensures
            r@ == self.description_spec(),
    {
        match self {
            WeatherKind::Clear => "Clear",
            WeatherKind::PartlyCloudy => "Partly cloudy",
            WeatherKind::Foggy => "Foggy",
            WeatherKind::Drizzle => "Drizzle",
            WeatherKind::Rain => "Rain",
            WeatherKind::Snow => "Snow",
            WeatherKind::SnowGrains => "Snow grains",
            WeatherKind::Showers => "Showers",
            WeatherKind::SnowShowers => "Snow showers",
            WeatherKind::Thunderstorm => "Thunderstorm",
            WeatherKind::Unknown => "Unknown",
        }
    }

    /// The symbol shown for this kind of weather.
    pub fn icon(&self) -> (r: &'static str)
        ensures
            r@ == self.icon_spec(),
    {
        match self {
            WeatherKind::Clear => "\u{2600}",
            WeatherKind::PartlyCloudy => "\u{26C5}",
            WeatherKind::Foggy => "\u{1F32B}",
            WeatherKind::Drizzle | WeatherKind::Rain | WeatherKind::Showers => "\u{1F327}",
            WeatherKind::Snow | WeatherKind::SnowGrains => "\u{2744}",
            WeatherKind::SnowShowers => "\u{1F328}",
            WeatherKind::Thunderstorm => "\u{26C8}",
            WeatherKind::Unknown => "\u{2601}",
        }
    }
}

} // verus!
