//! Forecast values: dates and times, condition codes, and the choice of icon.
use chrono::{Datelike, NaiveDate, NaiveDateTime, Timelike};
use vstd::prelude::*;

verus! {

#[verifier::external_type_specification]
#[verifier::external_body]
pub struct ExParseError(chrono::ParseError);

/// Year, month and day that chrono reads from `s` in the form `%Y-%m-%d`, if any.
pub uninterp spec fn parsed_date(s: Seq<char>) -> Option<(i32, u32, u32)>;

/// Year, month, day, hour and minute that chrono reads from `s` in the form
/// `%Y-%m-%dT%H:%M`, if any.
pub uninterp spec fn parsed_date_time(s: Seq<char>) -> Option<(i32, u32, u32, u32, u32)>;

/// Relies on chrono's `NaiveDate::parse_from_str` with the format `%Y-%m-%d`,
/// and on its calendar accessors: a month from 1 to 12, a day from 1 to 31.
#[verifier::external_body]
fn parse_naive_date(s: &str) -> (r: Result<(i32, u32, u32), chrono::ParseError>)
    ensures
        r is Ok <==> parsed_date(s@) is Some,
        r is Ok ==> {
            &&& r->Ok_0 == parsed_date(s@)->Some_0
            &&& 1 <= r->Ok_0.1 <= 12
            &&& 1 <= r->Ok_0.2 <= 31
        },
{
    match NaiveDate::parse_from_str(s, "%Y-%m-%d") {
        Ok(d) => Ok((d.year(), d.month(), d.day())),
        Err(e) => Err(e),
    }
}

/// Relies on chrono's `NaiveDateTime::parse_from_str` with the format
/// `%Y-%m-%dT%H:%M`, and on its accessors: a month from 1 to 12, a day from
/// 1 to 31, an hour from 0 to 23 and a minute from 0 to 59.
#[verifier::external_body]
fn parse_naive_date_time(s: &str) -> (r: Result<(i32, u32, u32, u32, u32), chrono::ParseError>)
    ensures
        r is Ok <==> parsed_date_time(s@) is Some,
        r is Ok ==> {
            &&& r->Ok_0 == parsed_date_time(s@)->Some_0
            &&& 1 <= r->Ok_0.1 <= 12
            &&& 1 <= r->Ok_0.2 <= 31
            &&& r->Ok_0.3 < 24
            &&& r->Ok_0.4 < 60
        },
{
    match NaiveDateTime::parse_from_str(s, "%Y-%m-%dT%H:%M") {
        Ok(t) => Ok((t.year(), t.month(), t.day(), t.hour(), t.minute())),
        Err(e) => Err(e),
    }
}

/// Hourly samples of a forecast, one vector per quantity, in time order.
#[derive(Debug)]
pub struct WeatherHourly {
    pub time: Vec<DateTime>,
    /// Temperatures in whole degrees Celsius.
    pub temperature_2m: Vec<i32>,
    /// Chances of precipitation in percent.
    pub precipitation_probability: Vec<u32>,
    /// Precipitation in hundredths of a millimetre.
    pub precipitation: Vec<u32>,
    pub weather_code: Vec<WeatherCode>,
    /// Cloud cover in percent.
    pub cloud_cover: Vec<u32>,
}

/// Daily samples of a forecast, in date order.
#[derive(Debug)]
pub struct WeatherDaily {
    pub time: Vec<Date>,
    pub sunrise: Vec<DateTime>,
    pub sunset: Vec<DateTime>,
}

/// A forecast as the dashboard reads it.
#[derive(Debug)]
pub struct WeatherForecast {
    pub utc_offset_seconds: u32,
    pub timezone: String,
    pub timezone_abbreviation: String,
    pub hourly: WeatherHourly,
    pub daily: WeatherDaily,
}

/// Why a forecast value could not be read.
#[derive(Debug, Clone, Copy, PartialEq, Eq, Structural)]
pub enum FormatError {
    /// Not a date of the form `YYYY-MM-DD`.
    Date,
    /// Not a date and time of the form `YYYY-MM-DDTHH:MM`.
    DateTime,
}

/// A calendar day.
#[derive(Debug, Clone, Copy, PartialEq, Eq, Structural)]
pub struct Date {
    pub year: i32,
    pub month: u32,
    pub day: u32,
}

impl Date {
    /// Month and day are in their calendar ranges.
    pub open spec fn well_formed(&self) -> bool {
        1 <= self.month <= 12 && 1 <= self.day <= 31
    }

    /// Reads a date written `YYYY-MM-DD`.
    pub fn parse(s: &str) -> (r: Result<Date, FormatError>)
        ensures
            r is Ok <==> parsed_date(s@) is Some,
            r is Ok ==> {
                let (y, m, d) = parsed_date(s@)->Some_0;
                &&& r->Ok_0 == Date { year: y, month: m, day: d }
                &&& r->Ok_0.well_formed()
            },
            r is Err ==> r->Err_0 == FormatError::Date,
    {
        match parse_naive_date(s) {
            Ok((year, month, day)) => Ok(Date { year, month, day }),
            Err(_) => Err(FormatError::Date),
        }
    }
}

/// A local date and a time of day to the minute.
#[derive(Debug, Clone, Copy, PartialEq, Eq, Structural)]
pub struct DateTime {
    pub date: Date,
    pub hour: u32,
    pub minute: u32,
}

/// `a` is not later than `b`.
pub open spec fn not_after(a: DateTime, b: DateTime) -> bool {
    if a.date.year != b.date.year {
        a.date.year < b.date.year
    } else if a.date.month != b.date.month {
        a.date.month < b.date.month
    } else if a.date.day != b.date.day {
        a.date.day < b.date.day
    } else if a.hour != b.hour {
        a.hour < b.hour
    } else {
        a.minute <= b.minute
    }
}

/// `t` lies strictly between 08:00 and 20:00.
pub open spec fn in_fixed_day_window(t: DateTime) -> bool {
    (t.hour > 8 || (t.hour == 8 && t.minute > 0)) && t.hour < 20
}

/// How the icons tell day from night.
#[derive(Debug, Clone, Copy, PartialEq, Eq, Structural)]
pub enum DayPolicy {
    /// Day is strictly between 08:00 and 20:00.
    FixedWindow,
    /// Day runs from the day's sunrise to its sunset, both included.
    SunTimes,
}

impl DateTime {
    /// The date is well formed, the hour is below 24 and the minute below 60.
    pub open spec fn well_formed(&self) -> bool {
        self.date.well_formed() && self.hour < 24 && self.minute < 60
    }

    /// Reads a date and time written `YYYY-MM-DDTHH:MM`.
    pub fn parse(s: &str) -> (r: Result<DateTime, FormatError>)
        ensures
            r is Ok <==> parsed_date_time(s@) is Some,
            r is Ok ==> {
                let (y, mo, d, h, mi) = parsed_date_time(s@)->Some_0;
                &&& r->Ok_0 == DateTime {
                    date: Date { year: y, month: mo, day: d },
                    hour: h,
                    minute: mi,
                }
                &&& r->Ok_0.well_formed()
            },
            r is Err ==> r->Err_0 == FormatError::DateTime,
    {
        match parse_naive_date_time(s) {
            Ok((year, month, day, hour, minute)) => Ok(
                DateTime { date: Date { year, month, day }, hour, minute },
            ),
            Err(_) => Err(FormatError::DateTime),
        }
    }

    /// Whether `self` is not later than `other`.
    pub fn not_after(&self, other: &DateTime) -> (r: bool)
        ensures
            r == not_after(*self, *other),
    {
        if self.date.year != other.date.year {
            self.date.year < other.date.year
        } else if self.date.month != other.date.month {
            self.date.month < other.date.month
        } else if self.date.day != other.date.day {
            self.date.day < other.date.day
        } else if self.hour != other.hour {
            self.hour < other.hour
        } else {
            self.minute <= other.minute
        }
    }

    /// Daytime by the fixed window: strictly after 08:00 and strictly before 20:00.
    pub fn is_day_fixed_window(&self) -> (r: bool)
        ensures
            r == in_fixed_day_window(*self),
    {
        (self.hour > 8 || (self.hour == 8 && self.minute > 0)) && self.hour < 20
    }

    /// Daytime by the day's own sun times: from sunrise to sunset, both included.
    pub fn is_day_between(&self, sunrise: &DateTime, sunset: &DateTime) -> (r: bool)
        ensures
            r == (not_after(*sunrise, *self) && not_after(*self, *sunset)),
    {
        sunrise.not_after(self) && self.not_after(sunset)
    }
}

/// Cloud cover, in percent, above which the heavy-cloud icons are used.
pub const HEAVY_CLOUD_COVER: u32 = 80;

/// The ranges of condition codes that share an icon family.
#[derive(Debug, Clone, Copy, PartialEq, Eq, Structural)]
pub enum ConditionGroup {
    /// Codes 0 to 2.
    Clear,
    /// Codes 3 and 4.
    Cloudy,
    /// Codes 45 and 48.
    Fog,
    /// Codes 51 to 55.
    Drizzle,
    /// Codes 61 to 65.
    Rain,
    /// Codes 66 and 67.
    FreezingRain,
    /// Codes 71 to 76.
    Snow,
    /// Codes 80 and 81.
    Showers,
    /// Codes 85 and 86.
    SnowShowers,
    /// Codes 95 to 99.
    Thunderstorm,
}

/// The weather icons of the 32 by 32 set.
#[derive(Debug, Clone, Copy, PartialEq, Eq, Structural)]
pub enum WeatherIcon {
    Cloudy,
    Fog,
    Raindrops,
    Rain,
    RainMix,
    Snow,
    Showers,
    Thunderstorm,
    DaySunny,
    DayCloudy,
    DayFog,
    DayRain,
    DayRainMix,
    DaySnow,
    DayShowers,
    DayThunderstorm,
    NightClear,
    NightCloudy,
    NightFog,
    NightRain,
    NightRainMix,
    NightSnow,
    NightShowers,
    NightThunderstorm,
}

/// The group of a condition code, if it belongs to one.
pub open spec fn condition_group(code: u32) -> Option<ConditionGroup> {
    if code <= 2 {
        Some(ConditionGroup::Clear)
    } else if 3 <= code <= 4 {
        Some(ConditionGroup::Cloudy)
    } else if code == 45 || code == 48 {
        Some(ConditionGroup::Fog)
    } else if 51 <= code <= 55 {
        Some(ConditionGroup::Drizzle)
    } else if 61 <= code <= 65 {
        Some(ConditionGroup::Rain)
    } else if 66 <= code <= 67 {
        Some(ConditionGroup::FreezingRain)
    } else if 71 <= code <= 76 {
        Some(ConditionGroup::Snow)
    } else if 80 <= code <= 81 {
        Some(ConditionGroup::Showers)
    } else if 85 <= code <= 86 {
        Some(ConditionGroup::SnowShowers)
    } else if 95 <= code <= 99 {
        Some(ConditionGroup::Thunderstorm)
    } else {
        None
    }
}

/// Icon of a group under heavy cloud; a clear sky shows plain cloud.
pub open spec fn clouded_icon(g: ConditionGroup) -> Option<WeatherIcon> {
    match g {
        ConditionGroup::Clear => Some(WeatherIcon::Cloudy),
        ConditionGroup::Cloudy => Some(WeatherIcon::Cloudy),
        ConditionGroup::Fog => Some(WeatherIcon::Fog),
        ConditionGroup::Drizzle => Some(WeatherIcon::Raindrops),
        ConditionGroup::Rain => Some(WeatherIcon::Rain),
        ConditionGroup::FreezingRain => Some(WeatherIcon::RainMix),
        ConditionGroup::Snow => Some(WeatherIcon::Snow),
        ConditionGroup::Showers => Some(WeatherIcon::Showers),
        ConditionGroup::SnowShowers => Some(WeatherIcon::Snow),
        ConditionGroup::Thunderstorm => Some(WeatherIcon::Thunderstorm),
    }
}

/// Icon of a group by day.
pub open spec fn day_icon(g: ConditionGroup) -> WeatherIcon {
    match g {
        ConditionGroup::Clear => WeatherIcon::DaySunny,
        ConditionGroup::Cloudy => WeatherIcon::DayCloudy,
        ConditionGroup::Fog => WeatherIcon::DayFog,
        ConditionGroup::Drizzle => WeatherIcon::Raindrops,
        ConditionGroup::Rain => WeatherIcon::DayRain,
        ConditionGroup::FreezingRain => WeatherIcon::DayRainMix,
        ConditionGroup::Snow => WeatherIcon::DaySnow,
        ConditionGroup::Showers => WeatherIcon::DayShowers,
        ConditionGroup::SnowShowers => WeatherIcon::DaySnow,
        ConditionGroup::Thunderstorm => WeatherIcon::DayThunderstorm,
    }
}

/// Icon of a group by night.
pub open spec fn night_icon(g: ConditionGroup) -> WeatherIcon {
    match g {
        ConditionGroup::Clear => WeatherIcon::NightClear,
        ConditionGroup::Cloudy => WeatherIcon::NightCloudy,
        ConditionGroup::Fog => WeatherIcon::NightFog,
        ConditionGroup::Drizzle => WeatherIcon::Raindrops,
        ConditionGroup::Rain => WeatherIcon::NightRain,
        ConditionGroup::FreezingRain => WeatherIcon::NightRainMix,
        ConditionGroup::Snow => WeatherIcon::NightSnow,
        ConditionGroup::Showers => WeatherIcon::NightShowers,
        ConditionGroup::SnowShowers => WeatherIcon::NightSnow,
        ConditionGroup::Thunderstorm => WeatherIcon::NightThunderstorm,
    }
}

/// The icon for a code, a cloud cover in percent and a day flag: heavy cloud
/// decides over day and night; a code outside every group has no icon.
pub open spec fn select_icon(code: u32, cloud_cover: u32, is_day: bool) -> Option<WeatherIcon> {
    match condition_group(code) {
        None => None,
        Some(g) => if cloud_cover > HEAVY_CLOUD_COVER {
            clouded_icon(g)
        } else if is_day {
            Some(day_icon(g))
        } else {
            Some(night_icon(g))
        },
    }
}

/// A weather condition code.
#[derive(Debug, Clone, Copy, PartialEq, Eq, Structural)]
pub struct WeatherCode(pub u32);

impl WeatherCode {
    /// The numeric code.
    pub fn value(&self) -> (r: u32)
        ensures
            r == self.0,
    {
        self.0
    }

    /// The group that the code falls in.
    pub fn group(&self) -> (r: Option<ConditionGroup>)
        ensures
            r == condition_group(self.0),
    {
        let code = self.0;
        if code <= 2 {
            Some(ConditionGroup::Clear)
        } else if 3 <= code && code <= 4 {
            Some(ConditionGroup::Cloudy)
        } else if code == 45 || code == 48 {
            Some(ConditionGroup::Fog)
        } else if 51 <= code && code <= 55 {
            Some(ConditionGroup::Drizzle)
        } else if 61 <= code && code <= 65 {
            Some(ConditionGroup::Rain)
        } else if 66 <= code && code <= 67 {
            Some(ConditionGroup::FreezingRain)
        } else if 71 <= code && code <= 76 {
            Some(ConditionGroup::Snow)
        } else if 80 <= code && code <= 81 {
            Some(ConditionGroup::Showers)
        } else if 85 <= code && code <= 86 {
            Some(ConditionGroup::SnowShowers)
        } else if 95 <= code && code <= 99 {
            Some(ConditionGroup::Thunderstorm)
        } else {
            None
        }
    }

    /// The icon under heavy cloud, if the code has one.
    pub fn to_clouded_icon(&self) -> (r: Option<WeatherIcon>)
        ensures
            r == match condition_group(self.0) {
                None => None,
                Some(g) => clouded_icon(g),
            },
    {
        match self.group() {
            None => None,
            Some(ConditionGroup::Clear) => Some(WeatherIcon::Cloudy),
            Some(ConditionGroup::Cloudy) => Some(WeatherIcon::Cloudy),
            Some(ConditionGroup::Fog) => Some(WeatherIcon::Fog),
            Some(ConditionGroup::Drizzle) => Some(WeatherIcon::Raindrops),
            Some(ConditionGroup::Rain) => Some(WeatherIcon::Rain),
            Some(ConditionGroup::FreezingRain) => Some(WeatherIcon::RainMix),
            Some(ConditionGroup::Snow) => Some(WeatherIcon::Snow),
            Some(ConditionGroup::Showers) => Some(WeatherIcon::Showers),
            Some(ConditionGroup::SnowShowers) => Some(WeatherIcon::Snow),
            Some(ConditionGroup::Thunderstorm) => Some(WeatherIcon::Thunderstorm),
        }
    }

    /// The daytime icon, if the code has one.
    pub fn to_day_icon(&self) -> (r: Option<WeatherIcon>)
        ensures
            r == match condition_group(self.0) {
                None => None,
                Some(g) => Some(day_icon(g)),
            },
    {
        match self.group() {
            None => None,
            Some(ConditionGroup::Clear) => Some(WeatherIcon::DaySunny),
            Some(ConditionGroup::Cloudy) => Some(WeatherIcon::DayCloudy),
            Some(ConditionGroup::Fog) => Some(WeatherIcon::DayFog),
            Some(ConditionGroup::Drizzle) => Some(WeatherIcon::Raindrops),
            Some(ConditionGroup::Rain) => Some(WeatherIcon::DayRain),
            Some(ConditionGroup::FreezingRain) => Some(WeatherIcon::DayRainMix),
            Some(ConditionGroup::Snow) => Some(WeatherIcon::DaySnow),
            Some(ConditionGroup::Showers) => Some(WeatherIcon::DayShowers),
            Some(ConditionGroup::SnowShowers) => Some(WeatherIcon::DaySnow),
            Some(ConditionGroup::Thunderstorm) => Some(WeatherIcon::DayThunderstorm),
        }
    }

    /// The night-time icon, if the code has one.
    pub fn to_night_icon(&self) -> (r: Option<WeatherIcon>)
        ensures
            r == match condition_group(self.0) {
                None => None,
                Some(g) => Some(night_icon(g)),
            },
    {
        match self.group() {
            None => None,
            Some(ConditionGroup::Clear) => Some(WeatherIcon::NightClear),
            Some(ConditionGroup::Cloudy) => Some(WeatherIcon::NightCloudy),
            Some(ConditionGroup::Fog) => Some(WeatherIcon::NightFog),
            Some(ConditionGroup::Drizzle) => Some(WeatherIcon::Raindrops),
            Some(ConditionGroup::Rain) => Some(WeatherIcon::NightRain),
            Some(ConditionGroup::FreezingRain) => Some(WeatherIcon::NightRainMix),
            Some(ConditionGroup::Snow) => Some(WeatherIcon::NightSnow),
            Some(ConditionGroup::Showers) => Some(WeatherIcon::NightShowers),
            Some(ConditionGroup::SnowShowers) => Some(WeatherIcon::NightSnow),
            Some(ConditionGroup::Thunderstorm) => Some(WeatherIcon::NightThunderstorm),
        }
    }

    /// The icon to draw for this code at a cloud cover in percent, by day or by night.
    pub fn select_icon(&self, cloud_cover: u32, is_day: bool) -> (r: Option<WeatherIcon>)
        ensures
            r == select_icon(self.0, cloud_cover, is_day),
    {
        if cloud_cover > HEAVY_CLOUD_COVER {
            self.to_clouded_icon()
        } else if is_day {
            self.to_day_icon()
        } else {
            self.to_night_icon()
        }
    }
}

impl WeatherCode {
    /// The day or night icon for a time, by the fixed window, without regard to cloud.
    pub fn icon_by_fixed_window(&self, time: &DateTime) -> (r: Option<WeatherIcon>)
        ensures
            r == (match condition_group(self.0) {
                None => None,
                Some(g) => Some(
                    if in_fixed_day_window(*time) {
                        day_icon(g)
                    } else {
                        night_icon(g)
                    },
                ),
            }),
    {
        if time.is_day_fixed_window() {
            self.to_day_icon()
        } else {
            self.to_night_icon()
        }
    }
}

/// Icon selection: a code outside every group has no icon; two codes of one
/// group get the same icon; a code of a group always has an icon; and above
/// the heavy-cloud threshold the heavy-cloud icon is chosen whether it is day
/// or night.
pub proof fn lemma_icon_selection(code: u32, other: u32, cloud_cover: u32, is_day: bool)
    ensures
        condition_group(code) is None ==> select_icon(code, cloud_cover, is_day) is None,
        condition_group(code) == condition_group(other) ==> select_icon(code, cloud_cover, is_day)
            == select_icon(other, cloud_cover, is_day),
        condition_group(code) is Some ==> select_icon(code, cloud_cover, is_day) is Some,
        cloud_cover > HEAVY_CLOUD_COVER ==> {
            &&& select_icon(code, cloud_cover, is_day) == select_icon(code, cloud_cover, !is_day)
            &&& select_icon(code, cloud_cover, is_day) == match condition_group(code) {
                None => None,
                Some(g) => clouded_icon(g),
            }
        },
{
}

} // verus!
