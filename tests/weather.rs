use rusty_notepad::weather::{weather_kind, WeatherKind};

#[test]
fn codes_map_to_kinds() {
    assert_eq!(weather_kind(0), WeatherKind::Clear);
    assert_eq!(weather_kind(2), WeatherKind::PartlyCloudy);
    assert_eq!(weather_kind(48), WeatherKind::Foggy);
    assert_eq!(weather_kind(53), WeatherKind::Drizzle);
    assert_eq!(weather_kind(65), WeatherKind::Rain);
    assert_eq!(weather_kind(71), WeatherKind::Snow);
    assert_eq!(weather_kind(77), WeatherKind::SnowGrains);
    assert_eq!(weather_kind(82), WeatherKind::Showers);
    assert_eq!(weather_kind(86), WeatherKind::SnowShowers);
    assert_eq!(weather_kind(96), WeatherKind::Thunderstorm);
    assert_eq!(weather_kind(4), WeatherKind::Unknown);
    assert_eq!(weather_kind(-1), WeatherKind::Unknown);
}

#[test]
fn kinds_have_words_and_icons() {
    assert_eq!(weather_kind(0).description(), "Clear");
    assert_eq!(weather_kind(0).icon(), "\u{2600}");
    assert_eq!(weather_kind(1).description(), "Partly cloudy");
    assert_eq!(weather_kind(85).icon(), "\u{1F328}");
    assert_eq!(weather_kind(99).description(), "Thunderstorm");
    assert_eq!(weather_kind(1000).description(), "Unknown");
    assert_eq!(weather_kind(1000).icon(), "\u{2601}");
}
