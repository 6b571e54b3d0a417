use std::str::FromStr;
use weather_report::synopsis::{Synopsis, WeatherDescription};

const ALL: [Synopsis; 8] = [
    Synopsis::Thunderstorm,
    Synopsis::Drizzle,
    Synopsis::Rain,
    Synopsis::Snow,
    Synopsis::Atmosphere,
    Synopsis::Clear,
    Synopsis::Clouds,
    Synopsis::Other,
];

#[test]
fn canonical_names_round_trip() {
    for name in ["Thunderstorm", "Drizzle", "Rain", "Snow", "Atmosphere", "Clear", "Clouds", "Other"] {
        assert_eq!(Synopsis::classify(name).name(), name);
    }
}

#[test]
fn classify_each_canonical_name() {
    assert_eq!(Synopsis::classify("Thunderstorm"), Synopsis::Thunderstorm);
    assert_eq!(Synopsis::classify("Drizzle"), Synopsis::Drizzle);
    assert_eq!(Synopsis::classify("Rain"), Synopsis::Rain);
    assert_eq!(Synopsis::classify("Snow"), Synopsis::Snow);
    assert_eq!(Synopsis::classify("Atmosphere"), Synopsis::Atmosphere);
    assert_eq!(Synopsis::classify("Clear"), Synopsis::Clear);
    assert_eq!(Synopsis::classify("Clouds"), Synopsis::Clouds);
    assert_eq!(Synopsis::classify("Other"), Synopsis::Other);
}

#[test]
fn unknown_names_are_other() {
    for name in ["", "rain", "Mist", "Clear ", "Cloud", "Thunderstorms", "☔️"] {
        assert_eq!(Synopsis::classify(name), Synopsis::Other);
    }
}

#[test]
fn from_str_never_fails() {
    assert_eq!(Synopsis::from_str("Snow"), Ok(Synopsis::Snow));
    assert_eq!(Synopsis::from_str("Tornado"), Ok(Synopsis::Other));
    assert_eq!(WeatherDescription::from_str("Clouds"), Ok(WeatherDescription::Clouds));
}

#[test]
fn from_str_of_unknown_text_is_other() {
    for name in ["", "Mist", "rain", "Haze"] {
        assert_eq!(Synopsis::from_str(name), Ok(Synopsis::Other));
        assert_eq!(WeatherDescription::from_str(name), Ok(WeatherDescription::Other));
    }
    assert_eq!(Synopsis::from_str("Rain"), Ok(Synopsis::Rain));
    assert_eq!(Synopsis::from_str("Other"), Ok(Synopsis::Other));
    assert_eq!(WeatherDescription::from_str("Thunderstorm"), Ok(WeatherDescription::Thunderstorm));
}

#[test]
fn name_then_from_str_is_identity() {
    for c in ALL {
        assert_eq!(Synopsis::from_str(c.name()), Ok(c));
    }
}

#[test]
fn default_is_other() {
    assert_eq!(Synopsis::default(), Synopsis::Other);
}

#[test]
fn emoji_table() {
    assert_eq!(Synopsis::Thunderstorm.get_emoji(), "⚡️");
    assert_eq!(Synopsis::Drizzle.get_emoji(), "🌧️");
    assert_eq!(Synopsis::Rain.get_emoji(), "☔️");
    assert_eq!(Synopsis::Snow.get_emoji(), "❄️");
    assert_eq!(Synopsis::Atmosphere.get_emoji(), "🌫️");
    assert_eq!(Synopsis::Clear.get_emoji(), "☀️");
    assert_eq!(Synopsis::Clouds.get_emoji(), "🌥️");
    assert_eq!(Synopsis::Other.get_emoji(), "❓");
}

#[test]
fn emoji_is_deterministic_and_distinct() {
    for a in ALL {
        assert_eq!(a.get_emoji(), a.get_emoji());
        for b in ALL {
            if a != b {
                assert_ne!(a.get_emoji(), b.get_emoji());
            }
        }
    }
}

#[test]
fn weather_description_shares_the_table() {
    assert_eq!(WeatherDescription::Rain.get_emoji(), "☔️");
    assert_eq!(WeatherDescription::classify("Drizzle").name(), "Drizzle");
}
