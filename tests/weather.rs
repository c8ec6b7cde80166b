use esp_weather::weather::{ConditionGroup, Date, DateTime, FormatError, WeatherCode, WeatherIcon};

fn at(hour: u32, minute: u32) -> DateTime {
    DateTime { date: Date { year: 2024, month: 3, day: 5 }, hour, minute }
}

#[test]
fn rain_by_day_and_under_heavy_cloud() {
    let code = WeatherCode(61);
    assert_eq!(code.select_icon(20, true), Some(WeatherIcon::DayRain));
    assert_eq!(code.select_icon(20, false), Some(WeatherIcon::NightRain));
    assert_eq!(code.select_icon(95, true), Some(WeatherIcon::Rain));
    assert_eq!(code.select_icon(95, false), Some(WeatherIcon::Rain));
}

#[test]
fn heavy_cloud_starts_above_eighty_percent() {
    let code = WeatherCode(3);
    assert_eq!(code.select_icon(80, true), Some(WeatherIcon::DayCloudy));
    assert_eq!(code.select_icon(81, true), Some(WeatherIcon::Cloudy));
    assert_eq!(code.select_icon(81, false), Some(WeatherIcon::Cloudy));
}

#[test]
fn codes_outside_every_group_have_no_icon() {
    for code in [5u32, 8, 10, 44, 46, 50, 56, 60, 68, 70, 77, 79, 82, 84, 87, 94, 100, 4000] {
        let c = WeatherCode(code);
        assert_eq!(c.group(), None, "code {}", code);
        assert_eq!(c.select_icon(10, true), None);
        assert_eq!(c.select_icon(10, false), None);
        assert_eq!(c.select_icon(90, true), None);
    }
}

#[test]
fn clear_sky_under_heavy_cloud_shows_cloud() {
    assert_eq!(WeatherCode(0).select_icon(90, true), Some(WeatherIcon::Cloudy));
    assert_eq!(WeatherCode(0).select_icon(90, false), Some(WeatherIcon::Cloudy));
    assert_eq!(WeatherCode(2).to_clouded_icon(), Some(WeatherIcon::Cloudy));
    assert_eq!(WeatherCode(1).to_day_icon(), Some(WeatherIcon::DaySunny));
    assert_eq!(WeatherCode(1).to_night_icon(), Some(WeatherIcon::NightClear));
}

#[test]
fn group_boundaries_follow_the_code_table() {
    let cases = [
        (0, ConditionGroup::Clear),
        (2, ConditionGroup::Clear),
        (3, ConditionGroup::Cloudy),
        (4, ConditionGroup::Cloudy),
        (45, ConditionGroup::Fog),
        (48, ConditionGroup::Fog),
        (51, ConditionGroup::Drizzle),
        (55, ConditionGroup::Drizzle),
        (61, ConditionGroup::Rain),
        (65, ConditionGroup::Rain),
        (66, ConditionGroup::FreezingRain),
        (67, ConditionGroup::FreezingRain),
        (71, ConditionGroup::Snow),
        (76, ConditionGroup::Snow),
        (80, ConditionGroup::Showers),
        (81, ConditionGroup::Showers),
        (85, ConditionGroup::SnowShowers),
        (86, ConditionGroup::SnowShowers),
        (95, ConditionGroup::Thunderstorm),
        (99, ConditionGroup::Thunderstorm),
    ];
    for (code, group) in cases {
        assert_eq!(WeatherCode(code).group(), Some(group), "code {}", code);
        assert_eq!(WeatherCode(code).value(), code);
    }
}

#[test]
fn icon_tables_per_group() {
    assert_eq!(WeatherCode(53).to_day_icon(), Some(WeatherIcon::Raindrops));
    assert_eq!(WeatherCode(53).to_night_icon(), Some(WeatherIcon::Raindrops));
    assert_eq!(WeatherCode(53).to_clouded_icon(), Some(WeatherIcon::Raindrops));
    assert_eq!(WeatherCode(48).to_night_icon(), Some(WeatherIcon::NightFog));
    assert_eq!(WeatherCode(66).to_clouded_icon(), Some(WeatherIcon::RainMix));
    assert_eq!(WeatherCode(73).to_day_icon(), Some(WeatherIcon::DaySnow));
    assert_eq!(WeatherCode(86).to_night_icon(), Some(WeatherIcon::NightSnow));
    assert_eq!(WeatherCode(85).to_clouded_icon(), Some(WeatherIcon::Snow));
    assert_eq!(WeatherCode(80).to_day_icon(), Some(WeatherIcon::DayShowers));
    assert_eq!(WeatherCode(97).to_night_icon(), Some(WeatherIcon::NightThunderstorm));
    assert_eq!(WeatherCode(95).to_clouded_icon(), Some(WeatherIcon::Thunderstorm));
}

#[test]
fn parses_dates() {
    assert_eq!(Date::parse("2024-03-05"), Ok(Date { year: 2024, month: 3, day: 5 }));
    assert_eq!(Date::parse("2023-12-31"), Ok(Date { year: 2023, month: 12, day: 31 }));
    assert_eq!(Date::parse("05.03.2024"), Err(FormatError::Date));
    assert_eq!(Date::parse("2024-02-30"), Err(FormatError::Date));
    assert_eq!(Date::parse(""), Err(FormatError::Date));
}

#[test]
fn parses_date_times() {
    assert_eq!(DateTime::parse("2024-03-05T07:45"), Ok(at(7, 45)));
    assert_eq!(DateTime::parse("2024-03-05T23:59"), Ok(at(23, 59)));
    assert_eq!(DateTime::parse("2024-03-05"), Err(FormatError::DateTime));
    assert_eq!(DateTime::parse("2024-13-01T00:00"), Err(FormatError::DateTime));
    assert_eq!(DateTime::parse("2024-03-05T24:00"), Err(FormatError::DateTime));
}

#[test]
fn fixed_window_excludes_its_ends() {
    assert!(!at(8, 0).is_day_fixed_window());
    assert!(at(8, 1).is_day_fixed_window());
    assert!(at(12, 0).is_day_fixed_window());
    assert!(at(19, 59).is_day_fixed_window());
    assert!(!at(20, 0).is_day_fixed_window());
    assert!(!at(3, 0).is_day_fixed_window());
}

#[test]
fn sun_window_includes_its_ends() {
    let rise = at(6, 30);
    let set = at(18, 10);
    assert!(at(6, 30).is_day_between(&rise, &set));
    assert!(at(18, 10).is_day_between(&rise, &set));
    assert!(at(12, 0).is_day_between(&rise, &set));
    assert!(!at(6, 29).is_day_between(&rise, &set));
    assert!(!at(18, 11).is_day_between(&rise, &set));
    let next_day = DateTime { date: Date { year: 2024, month: 3, day: 6 }, hour: 12, minute: 0 };
    assert!(!next_day.is_day_between(&rise, &set));
    assert!(rise.not_after(&next_day));
    assert!(!next_day.not_after(&rise));
}

#[test]
fn fixed_window_picks_day_or_night_icon() {
    let code = WeatherCode(71);
    assert_eq!(code.icon_by_fixed_window(&at(12, 0)), Some(WeatherIcon::DaySnow));
    assert_eq!(code.icon_by_fixed_window(&at(8, 0)), Some(WeatherIcon::NightSnow));
    assert_eq!(code.icon_by_fixed_window(&at(20, 0)), Some(WeatherIcon::NightSnow));
    assert_eq!(WeatherCode(7).icon_by_fixed_window(&at(12, 0)), None);
}
