//! Placement of the dashboard's text, charts and icons on the panel.
use embedded_graphics::prelude::Point;
use epd_waveshare::color::TriColor;
use u8g2_fonts::types::{HorizontalAlignment, VerticalPosition};
use vstd::prelude::*;

use crate::weather::{
    in_fixed_day_window, not_after, select_icon, Date, DateTime, DayPolicy, WeatherDaily,
    WeatherForecast, WeatherHourly, WeatherIcon,
};

verus! {

#[verifier::external_type_specification]
pub struct ExHorizontalAlignment(HorizontalAlignment);

#[verifier::external_type_specification]
pub struct ExVerticalPosition(VerticalPosition);

/// Panel width in pixels.
pub const DISPLAY_WIDTH: i32 = 800;

/// Panel height in pixels.
pub const DISPLAY_HEIGHT: i32 = 480;

/// Width of one day's section.
pub const SECTION_WIDTH: i32 = 240;

/// Horizontal distance between two consecutive hours on the charts.
pub const HOUR_WIDTH: i32 = 10;

/// x of the first hour on the charts.
pub const CHART_LEFT: i32 = 60;

/// Baseline of the precipitation bars and of the probability line.
pub const RAIN_BASELINE: i32 = DISPLAY_HEIGHT - 75;

/// Height of the sunrise-to-sunset bar.
pub const SUN_LINE_Y: i32 = DISPLAY_HEIGHT - 60;

/// Baseline of the hour labels and anchor height of the icons.
pub const HOUR_ROW_Y: i32 = DISPLAY_HEIGHT - 35;

/// Most days laid out, so that every x fits in an `i32`.
pub const MAX_DAYS: usize = 8_000_000;

/// Lowest temperature laid out, so that every y fits in an `i32`.
pub const MIN_TEMPERATURE: i32 = -2_000_000_000;

/// Highest temperature laid out, so that every y fits in an `i32`.
pub const MAX_TEMPERATURE: i32 = 2_000_000_000;

/// The typefaces of the dashboard.
#[derive(Debug, Clone, Copy, PartialEq, Eq)]
pub enum Font {
    /// Bold, for the date and the day names.
    Bold,
    /// Small, ASCII only.
    Small,
    /// Small, with the full Latin-1 range (used for signed numbers).
    SmallFull,
    /// The weather symbol glyphs.
    Symbols,
}

/// Unit captions of the chart legend.
#[derive(Debug, Clone, Copy, PartialEq, Eq)]
pub enum Unit {
    /// `C`
    Celsius,
    /// `%`
    Percent,
    /// `mm`
    Millimetre,
}

/// What a piece of text says.
#[derive(Debug, Clone, Copy, PartialEq, Eq)]
pub enum Caption {
    /// The current date, as day, abbreviated month and two-digit year.
    Today(Date),
    /// The full weekday name of a date.
    Weekday(Date),
    /// A date as day, abbreviated month and two-digit year.
    DayDate(Date),
    /// One glyph of the symbol font, by its code.
    Glyph(u8),
    /// A unit caption.
    Unit(Unit),
    /// A temperature in whole degrees Celsius.
    Temperature(i32),
    /// A precipitation amount in hundredths of a millimetre.
    Precipitation(u32),
    /// An hour of the day.
    Hour(u32),
}

/// One drawing command for the panel.
#[derive(Debug, Clone, Copy, PartialEq)]
pub enum DrawOp {
    /// Text anchored at `position`, drawn in `color` over what is there.
    Text {
        caption: Caption,
        position: Point,
        font: Font,
        vertical: VerticalPosition,
        horizontal: HorizontalAlignment,
        color: TriColor,
    },
    /// A straight line `stroke` pixels wide.
    Line { start: Point, end: Point, color: TriColor, stroke: u32 },
    /// A weather icon anchored at the middle of its top edge.
    Icon { icon: WeatherIcon, anchor: Point },
}

/// A point from integer coordinates.
pub open spec fn pt(x: int, y: int) -> Point {
    Point { x: x as i32, y: y as i32 }
}

/// Text in a given font and color.
pub open spec fn text(
    caption: Caption,
    x: int,
    y: int,
    font: Font,
    vertical: VerticalPosition,
    horizontal: HorizontalAlignment,
    color: TriColor,
) -> DrawOp {
    DrawOp::Text { caption, position: pt(x, y), font, vertical, horizontal, color }
}

/// Centre of day section `i`.
pub open spec fn section_center(i: int) -> int {
    SECTION_WIDTH * i + SECTION_WIDTH / 2
}

/// The date line at the top of the panel.
pub open spec fn today_text(today: Date) -> DrawOp {
    text(
        Caption::Today(today),
        DISPLAY_WIDTH / 2,
        30,
        Font::Bold,
        VerticalPosition::Baseline,
        HorizontalAlignment::Center,
        TriColor::Black,
    )
}

/// The day name heading section `i`.
pub open spec fn weekday_text(day: Date, i: int) -> DrawOp {
    text(
        Caption::Weekday(day),
        section_center(i),
        60,
        Font::Bold,
        VerticalPosition::Baseline,
        HorizontalAlignment::Center,
        TriColor::Black,
    )
}

/// The date under the day name of section `i`.
pub open spec fn day_date_text(day: Date, i: int) -> DrawOp {
    text(
        Caption::DayDate(day),
        section_center(i),
        75,
        Font::Small,
        VerticalPosition::Baseline,
        HorizontalAlignment::Center,
        TriColor::Black,
    )
}

/// The headers: the date line, then for each day its name and its date.
pub open spec fn header_ops(today: Date, days: Seq<Date>) -> Seq<DrawOp> {
    seq![today_text(today)] + Seq::new(
        (2 * days.len()) as nat,
        |k: int|
            if k % 2 == 0 {
                weekday_text(days[k / 2], k / 2)
            } else {
                day_date_text(days[k / 2], k / 2)
            },
    )
}

/// Lays out the date line and one header per day.
pub fn header_layout(today: Date, days: &Vec<Date>) -> (r: Vec<DrawOp>)
    requires
        days@.len() <= MAX_DAYS,
    ensures
        r@ == header_ops(today, days@),
{
    let mut r: Vec<DrawOp> = Vec::new();
    r.push(
        DrawOp::Text {
            caption: Caption::Today(today),
            position: Point { x: DISPLAY_WIDTH / 2, y: 30 },
            font: Font::Bold,
            vertical: VerticalPosition::Baseline,
            horizontal: HorizontalAlignment::Center,
            color: TriColor::Black,
        },
    );
    let mut i: usize = 0;
    while i < days.len()
        invariant
            days@.len() <= MAX_DAYS,
            i <= days@.len(),
            r@ =~= header_ops(today, days@.take(i as int)),
        decreases days@.len() - i,
    {
        let day = days[i];
        let x: i32 = SECTION_WIDTH * (i as i32) + SECTION_WIDTH / 2;
        r.push(
            DrawOp::Text {
                caption: Caption::Weekday(day),
                position: Point { x, y: 60 },
                font: Font::Bold,
                vertical: VerticalPosition::Baseline,
                horizontal: HorizontalAlignment::Center,
                color: TriColor::Black,
            },
        );
        r.push(
            DrawOp::Text {
                caption: Caption::DayDate(day),
                position: Point { x, y: 75 },
                font: Font::Small,
                vertical: VerticalPosition::Baseline,
                horizontal: HorizontalAlignment::Center,
                color: TriColor::Black,
            },
        );
        i = i + 1;
        assert(r@ =~= header_ops(today, days@.take(i as int)));
    }
    assert(days@.take(i as int) =~= days@);
    r
}

/// Legend entry: a symbol glyph at the left edge and its unit caption beside it.
pub open spec fn legend_ops(glyph: u8, unit: Unit, y: int, color: TriColor) -> Seq<DrawOp> {
    seq![
        text(
            Caption::Glyph(glyph),
            0,
            y,
            Font::Symbols,
            VerticalPosition::Center,
            HorizontalAlignment::Left,
            color,
        ),
        text(
            Caption::Unit(unit),
            18,
            y - 5,
            Font::Small,
            VerticalPosition::Center,
            HorizontalAlignment::Left,
            color,
        ),
    ]
}

/// Symbol glyph of the thermometer.
pub const THERMOMETER_GLYPH: u8 = 49;

/// Symbol glyph of the rain drop.
pub const DROP_GLYPH: u8 = 55;

/// Lays out one legend entry.
pub fn legend_layout(glyph: u8, unit: Unit, y: i32, color: TriColor) -> (r: Vec<DrawOp>)
    requires
        y >= i32::MIN + 5,
    ensures
        r@ == legend_ops(glyph, unit, y as int, color),
{
    let mut r: Vec<DrawOp> = Vec::new();
    r.push(
        DrawOp::Text {
            caption: Caption::Glyph(glyph),
            position: Point { x: 0, y },
            font: Font::Symbols,
            vertical: VerticalPosition::Center,
            horizontal: HorizontalAlignment::Left,
            color,
        },
    );
    r.push(
        DrawOp::Text {
            caption: Caption::Unit(unit),
            position: Point { x: 18, y: y - 5 },
            font: Font::Small,
            vertical: VerticalPosition::Center,
            horizontal: HorizontalAlignment::Left,
            color,
        },
    );
    assert(r@ =~= legend_ops(glyph, unit, y as int, color));
    r
}

/// Index of the first of the first `n` days whose date is `date`.
pub open spec fn first_day_with(days: Seq<Date>, date: Date, n: int) -> Option<int>
    decreases n,
{
    if n <= 0 {
        None
    } else {
        match first_day_with(days, date, n - 1) {
            Some(j) => Some(j),
            None => if days[n - 1] == date {
                Some(n - 1)
            } else {
                None
            },
        }
    }
}

/// Number of days that have a date, a sunrise and a sunset.
pub open spec fn complete_days(daily: WeatherDaily) -> int {
    let a = daily.time@.len();
    let b = daily.sunrise@.len();
    let c = daily.sunset@.len();
    if a <= b && a <= c {
        a as int
    } else if b <= c {
        b as int
    } else {
        c as int
    }
}

/// Index of the first of the first `n` days whose date is `date`.
fn find_day(days: &Vec<Date>, n: usize, date: Date) -> (r: Option<usize>)
    requires
        n <= days@.len(),
    ensures
        r is None <==> first_day_with(days@, date, n as int) is None,
        r matches Some(j) ==> j < n && first_day_with(days@, date, n as int) == Some(j as int),
{
    let mut j: usize = 0;
    while j < n
        invariant
            n <= days@.len(),
            j <= n,
            first_day_with(days@, date, j as int) is None,
        decreases n - j,
    {
        if days[j] == date {
            assert(first_day_with(days@, date, j + 1) == Some(j as int));
            proof {
                lemma_first_day_stays(days@, date, j + 1, n as int);
            }
            return Some(j);
        }
        j = j + 1;
    }
    None
}

proof fn lemma_first_day_stays(days: Seq<Date>, date: Date, m: int, n: int)
    requires
        0 <= m <= n,
        first_day_with(days, date, m) is Some,
    ensures
        first_day_with(days, date, n) == first_day_with(days, date, m),
    decreases n - m,
{
    if m < n {
        lemma_first_day_stays(days, date, m, n - 1);
    }
}

/// Smaller of two lengths.
pub open spec fn min_len(a: int, b: int) -> int {
    if a <= b {
        a
    } else {
        b
    }
}

/// Where an hourly sample goes: the x of its hour in its day's section, and
/// that hour of the day.
#[derive(Debug, Clone, Copy, PartialEq, Eq, Structural)]
pub struct HourSlot {
    pub x: i32,
    pub hour: u32,
}

/// x of hour `hour` in day section `j`.
pub open spec fn slot_x(j: int, hour: int) -> int {
    SECTION_WIDTH * j + HOUR_WIDTH * hour + CHART_LEFT
}

/// The slot of sample `i`: at its hour in the section of the first day with
/// its date; none when its date is not among the days.
pub open spec fn hour_slot(times: Seq<DateTime>, days: Seq<Date>, i: int) -> Option<HourSlot> {
    match first_day_with(days, times[i].date, days.len() as int) {
        None => None,
        Some(j) => Some(HourSlot { x: slot_x(j, times[i].hour as int) as i32, hour: times[i].hour }),
    }
}

/// The slots of all samples.
pub open spec fn hour_slots(times: Seq<DateTime>, days: Seq<Date>) -> Seq<Option<HourSlot>> {
    Seq::new(times.len(), |i: int| hour_slot(times, days, i))
}

/// Every time of a series is a valid time of day.
pub open spec fn times_well_formed(ts: Seq<DateTime>) -> bool {
    forall|i: int| 0 <= i < ts.len() ==> (#[trigger] ts[i]).well_formed()
}

proof fn lemma_first_day_found(days: Seq<Date>, date: Date, n: int)
    requires
        first_day_with(days, date, n) is Some,
    ensures
        0 <= first_day_with(days, date, n)->Some_0 < n,
        days[first_day_with(days, date, n)->Some_0] == date,
    decreases n,
{
    if n > 0 && first_day_with(days, date, n - 1) is Some {
        lemma_first_day_found(days, date, n - 1);
    }
}

/// Places each hourly sample in the section of its day.
pub fn slot_layout(times: &Vec<DateTime>, days: &Vec<Date>) -> (r: Vec<Option<HourSlot>>)
    requires
        days@.len() <= MAX_DAYS,
        times_well_formed(times@),
    ensures
        r@ == hour_slots(times@, days@),
        slots_in_range(r@),
{
    let mut r: Vec<Option<HourSlot>> = Vec::new();
    let mut i: usize = 0;
    while i < times.len()
        invariant
            days@.len() <= MAX_DAYS,
            times_well_formed(times@),
            i <= times@.len(),
            r@ =~= hour_slots(times@, days@).take(i as int),
            slots_in_range(r@),
        decreases times@.len() - i,
    {
        let t = times[i];
        assert(t.well_formed());
        let slot = match find_day(days, days.len(), t.date) {
            None => None,
            Some(j) => Some(
                HourSlot {
                    x: SECTION_WIDTH * (j as i32) + HOUR_WIDTH * (t.hour as i32) + CHART_LEFT,
                    hour: t.hour,
                },
            ),
        };
        r.push(slot);
        i = i + 1;
        assert(r@ =~= hour_slots(times@, days@).take(i as int));
    }
    assert(hour_slots(times@, days@).take(i as int) =~= hour_slots(times@, days@));
    r
}

/// A placed sample lies in the chart band of its own day, and in no other:
/// if its x falls in the band of day `k`, from that section's first hour to
/// the next section's first hour, then day `k` has the sample's date. So a
/// day without samples gets no chart point, hour label or icon in its band.
pub proof fn lemma_samples_stay_in_their_day(times: Seq<DateTime>, days: Seq<Date>, i: int, k: int)
    requires
        days.len() <= MAX_DAYS,
        times_well_formed(times),
        0 <= i < times.len(),
        0 <= k < days.len(),
    ensures
        hour_slot(times, days, i) matches Some(s) ==> (slot_x(k, 0) <= s.x < slot_x(k + 1, 0)
            ==> days[k] == times[i].date),
{
    let date = times[i].date;
    if let Some(j) = first_day_with(days, date, days.len() as int) {
        lemma_first_day_found(days, date, days.len() as int);
        assert(times[i].well_formed());
        let h = times[i].hour as int;
        let x = slot_x(j, h);
        assert(slot_x(j, 0) <= x < slot_x(j + 1, 0));
        assert(x == x as i32);
        if slot_x(k, 0) <= x < slot_x(k + 1, 0) {
            assert(k == j) by (nonlinear_arith)
                requires
                    SECTION_WIDTH * k + CHART_LEFT <= x < SECTION_WIDTH * (k + 1) + CHART_LEFT,
                    SECTION_WIDTH * j + CHART_LEFT <= x < SECTION_WIDTH * (j + 1) + CHART_LEFT,
                    SECTION_WIDTH == 240,
            ;
        }
    }
}

/// y of a temperature on the temperature chart.
pub open spec fn temperature_y(t: int) -> int {
    DISPLAY_HEIGHT - 135 - (t + 10)
}

/// Point of sample `i` on the temperature chart, if it has a slot.
pub open spec fn temperature_point(ts: Seq<i32>, slots: Seq<Option<HourSlot>>, i: int) -> Option<Point> {
    match slots[i] {
        None => None,
        Some(s) => Some(pt(s.x as int, temperature_y(ts[i] as int))),
    }
}

/// The last point among the first `n` samples on the temperature chart.
pub open spec fn last_temperature_point(ts: Seq<i32>, slots: Seq<Option<HourSlot>>, n: int) -> Option<Point>
    decreases n,
{
    if n <= 0 {
        None
    } else {
        match temperature_point(ts, slots, n - 1) {
            Some(p) => Some(p),
            None => last_temperature_point(ts, slots, n - 1),
        }
    }
}

/// What sample `i` adds to the temperature chart when it has a slot: its
/// value above the point at every third hour of the day, and a segment from
/// the previous point once there is one.
pub open spec fn temperature_step(ts: Seq<i32>, slots: Seq<Option<HourSlot>>, i: int) -> Seq<DrawOp> {
    match slots[i] {
        None => seq![],
        Some(s) => {
            let y = temperature_y(ts[i] as int);
            (if s.hour % 3 == 0 {
                seq![
                    text(
                        Caption::Temperature(ts[i]),
                        s.x as int,
                        y - 10,
                        Font::SmallFull,
                        VerticalPosition::Center,
                        HorizontalAlignment::Center,
                        TriColor::Black,
                    ),
                ]
            } else {
                seq![]
            }) + match last_temperature_point(ts, slots, i) {
                None => seq![],
                Some(p) => seq![
                    DrawOp::Line { start: p, end: pt(s.x as int, y), color: TriColor::Black, stroke: 1 },
                ],
            }
        },
    }
}

/// The temperature chart over the first `n` samples.
pub open spec fn temperature_ops(ts: Seq<i32>, slots: Seq<Option<HourSlot>>, n: int) -> Seq<DrawOp>
    decreases n,
{
    if n <= 0 {
        seq![]
    } else {
        temperature_ops(ts, slots, n - 1) + temperature_step(ts, slots, n - 1)
    }
}

/// Hourly temperatures are in the range that the chart can place.
pub open spec fn temperatures_in_range(ts: Seq<i32>) -> bool {
    forall|i: int| 0 <= i < ts.len() ==> MIN_TEMPERATURE <= #[trigger] ts[i] <= MAX_TEMPERATURE
}

/// Lays out the temperature chart: a polyline through the placed samples,
/// with the value written above every third hour.
pub fn temperature_layout(temperatures: &Vec<i32>, slots: &Vec<Option<HourSlot>>) -> (r: Vec<DrawOp>)
    requires
        temperatures_in_range(temperatures@),
    ensures
        r@ == temperature_ops(
            temperatures@,
            slots@,
            min_len(temperatures@.len() as int, slots@.len() as int),
        ),
{
    let n: usize = if temperatures.len() <= slots.len() {
        temperatures.len()
    } else {
        slots.len()
    };
    let mut r: Vec<DrawOp> = Vec::new();
    let mut last: Option<Point> = None;
    let mut i: usize = 0;
    while i < n
        invariant
            n == min_len(temperatures@.len() as int, slots@.len() as int),
            temperatures_in_range(temperatures@),
            i <= n,
            r@ == temperature_ops(temperatures@, slots@, i as int),
            last == last_temperature_point(temperatures@, slots@, i as int),
        decreases n - i,
    {
        let ghost before = r@;
        if let Some(s) = slots[i] {
            let t = temperatures[i];
            let current = Point { x: s.x, y: DISPLAY_HEIGHT - 135 - (t + 10) };
            if s.hour % 3 == 0 {
                r.push(
                    DrawOp::Text {
                        caption: Caption::Temperature(t),
                        position: Point { x: s.x, y: current.y - 10 },
                        font: Font::SmallFull,
                        vertical: VerticalPosition::Center,
                        horizontal: HorizontalAlignment::Center,
                        color: TriColor::Black,
                    },
                );
            }
            if let Some(previous) = last {
                r.push(DrawOp::Line { start: previous, end: current, color: TriColor::Black, stroke: 1 });
            }
            last = Some(current);
        }
        assert(r@ =~= before + temperature_step(temperatures@, slots@, i as int));
        i = i + 1;
    }
    r
}

/// Whether the precipitation amount of sample `i` gets a label: the previous
/// sample had some, and no label was due at the previous sample.
pub open spec fn precipitation_label_at(ps: Seq<u32>, i: int) -> bool
    decreases i,
{
    if i <= 0 {
        false
    } else {
        ps[i - 1] != 0 && !precipitation_label_at(ps, i - 1)
    }
}

/// Top of the bar for an amount in hundredths of a millimetre: ten pixels per millimetre.
pub open spec fn precipitation_bar_top(p: int) -> int {
    RAIN_BASELINE - p / 10
}

/// What sample `i` adds to the precipitation chart when it has a slot: a
/// label with the larger of the previous and the current amount when one is
/// due, then a bar when it has some precipitation.
pub open spec fn precipitation_step(ps: Seq<u32>, slots: Seq<Option<HourSlot>>, i: int) -> Seq<DrawOp> {
    match slots[i] {
        None => seq![],
        Some(s) => (if precipitation_label_at(ps, i) {
            let peak = if ps[i - 1] >= ps[i] {
                ps[i - 1]
            } else {
                ps[i]
            };
            let x = if ps[i] == 0 {
                s.x - 10
            } else {
                s.x - 5
            };
            seq![
                text(
                    Caption::Precipitation(peak),
                    x,
                    RAIN_BASELINE - (peak / 100) * 10 - 10,
                    Font::Small,
                    VerticalPosition::Center,
                    HorizontalAlignment::Center,
                    TriColor::Black,
                ),
            ]
        } else {
            seq![]
        }) + (if ps[i] > 0 {
            seq![
                DrawOp::Line {
                    start: pt(s.x as int, RAIN_BASELINE as int),
                    end: pt(s.x as int, precipitation_bar_top(ps[i] as int)),
                    color: TriColor::Black,
                    stroke: 10,
                },
            ]
        } else {
            seq![]
        }),
    }
}

/// The precipitation chart over the first `n` samples.
pub open spec fn precipitation_ops(ps: Seq<u32>, slots: Seq<Option<HourSlot>>, n: int) -> Seq<DrawOp>
    decreases n,
{
    if n <= 0 {
        seq![]
    } else {
        precipitation_ops(ps, slots, n - 1) + precipitation_step(ps, slots, n - 1)
    }
}

/// Every placed slot has a non-negative x, so labels set a few pixels to its
/// left stay in range.
pub open spec fn slots_in_range(slots: Seq<Option<HourSlot>>) -> bool {
    forall|i: int| 0 <= i < slots.len() ==> (#[trigger] slots[i] matches Some(s) ==> s.x >= 0)
}

/// Lays out the precipitation chart from amounts in hundredths of a
/// millimetre: a bar for every placed sample with some, and amount labels.
pub fn precipitation_layout(precipitation: &Vec<u32>, slots: &Vec<Option<HourSlot>>) -> (r: Vec<DrawOp>)
    requires
        slots_in_range(slots@),
    ensures
        r@ == precipitation_ops(
            precipitation@,
            slots@,
            min_len(precipitation@.len() as int, slots@.len() as int),
        ),
{
    let n: usize = if precipitation.len() <= slots.len() {
        precipitation.len()
    } else {
        slots.len()
    };
    let mut r: Vec<DrawOp> = Vec::new();
    let mut last_precipitation: u32 = 0;
    let mut last_drawn = false;
    let mut i: usize = 0;
    while i < n
        invariant
            n == min_len(precipitation@.len() as int, slots@.len() as int),
            slots_in_range(slots@),
            i <= n,
            r@ == precipitation_ops(precipitation@, slots@, i as int),
            i == 0 ==> last_precipitation == 0,
            i > 0 ==> last_precipitation == precipitation@[i - 1],
            last_drawn == precipitation_label_at(precipitation@, i as int - 1),
        decreases n - i,
    {
        let p = precipitation[i];
        let ghost before = r@;
        let label_due = last_precipitation != 0 && !last_drawn;
        if let Some(s) = slots[i] {
            if label_due {
                let peak = if last_precipitation >= p {
                    last_precipitation
                } else {
                    p
                };
                let label_x = if p == 0 {
                    s.x - 10
                } else {
                    s.x - 5
                };
                r.push(
                    DrawOp::Text {
                        caption: Caption::Precipitation(peak),
                        position: Point {
                            x: label_x,
                            y: RAIN_BASELINE - ((peak / 100) as i32) * 10 - 10,
                        },
                        font: Font::Small,
                        vertical: VerticalPosition::Center,
                        horizontal: HorizontalAlignment::Center,
                        color: TriColor::Black,
                    },
                );
            }
            if p > 0 {
                r.push(
                    DrawOp::Line {
                        start: Point { x: s.x, y: RAIN_BASELINE },
                        end: Point { x: s.x, y: RAIN_BASELINE - (p / 10) as i32 },
                        color: TriColor::Black,
                        stroke: 10,
                    },
                );
            }
        }
        last_drawn = label_due;
        last_precipitation = p;
        assert(r@ =~= before + precipitation_step(precipitation@, slots@, i as int));
        i = i + 1;
    }
    r
}

/// Point of sample `i` on the probability line, if it has a slot: half a
/// pixel per percent.
pub open spec fn probability_point(ps: Seq<u32>, slots: Seq<Option<HourSlot>>, i: int) -> Option<Point> {
    match slots[i] {
        None => None,
        Some(s) => Some(pt(s.x as int, RAIN_BASELINE - ps[i] / 2)),
    }
}

/// The last point among the first `n` samples on the probability line.
pub open spec fn last_probability_point(ps: Seq<u32>, slots: Seq<Option<HourSlot>>, n: int) -> Option<Point>
    decreases n,
{
    if n <= 0 {
        None
    } else {
        match probability_point(ps, slots, n - 1) {
            Some(p) => Some(p),
            None => last_probability_point(ps, slots, n - 1),
        }
    }
}

/// The probability line over the first `n` samples: a segment from each
/// placed point to the next.
pub open spec fn probability_ops(ps: Seq<u32>, slots: Seq<Option<HourSlot>>, n: int) -> Seq<DrawOp>
    decreases n,
{
    if n <= 0 {
        seq![]
    } else {
        probability_ops(ps, slots, n - 1) + match (
            last_probability_point(ps, slots, n - 1),
            probability_point(ps, slots, n - 1),
        ) {
            (Some(p), Some(q)) => seq![
                DrawOp::Line { start: p, end: q, color: TriColor::Chromatic, stroke: 1 },
            ],
            _ => seq![],
        }
    }
}

/// Hourly probabilities are percentages.
pub open spec fn probabilities_in_range(probabilities: Seq<u32>) -> bool {
    forall|i: int| 0 <= i < probabilities.len() ==> #[trigger] probabilities[i] <= 100
}

/// Lays out the precipitation probability as an accent-colored polyline.
pub fn probability_layout(probabilities: &Vec<u32>, slots: &Vec<Option<HourSlot>>) -> (r: Vec<DrawOp>)
    requires
        probabilities_in_range(probabilities@),
    ensures
        r@ == probability_ops(
            probabilities@,
            slots@,
            min_len(probabilities@.len() as int, slots@.len() as int),
        ),
{
    let n: usize = if probabilities.len() <= slots.len() {
        probabilities.len()
    } else {
        slots.len()
    };
    let mut r: Vec<DrawOp> = Vec::new();
    let mut last: Option<Point> = None;
    let mut i: usize = 0;
    while i < n
        invariant
            n == min_len(probabilities@.len() as int, slots@.len() as int),
            probabilities_in_range(probabilities@),
            i <= n,
            r@ == probability_ops(probabilities@, slots@, i as int),
            last == last_probability_point(probabilities@, slots@, i as int),
        decreases n - i,
    {
        let ghost before = r@;
        if let Some(s) = slots[i] {
            let current = Point { x: s.x, y: RAIN_BASELINE - (probabilities[i] as i32) / 2 };
            if let Some(previous) = last {
                r.push(
                    DrawOp::Line { start: previous, end: current, color: TriColor::Chromatic, stroke: 1 },
                );
            }
            last = Some(current);
        }
        assert(r@ =~= probability_ops(probabilities@, slots@, i as int + 1));
        i = i + 1;
    }
    r
}

/// x of a time of day in day section `i`: ten pixels per hour, one per ten minutes.
pub open spec fn sun_x(i: int, t: DateTime) -> int {
    SECTION_WIDTH * i + (CHART_LEFT - 5) + t.hour * 10 + t.minute / 10
}

/// The daylight bars: for each day with both times, an accent segment from
/// sunrise to sunset.
pub open spec fn sun_ops(sunrise: Seq<DateTime>, sunset: Seq<DateTime>) -> Seq<DrawOp> {
    Seq::new(
        if sunrise.len() <= sunset.len() {
            sunrise.len()
        } else {
            sunset.len()
        },
        |i: int|
            DrawOp::Line {
                start: pt(sun_x(i, sunrise[i]), SUN_LINE_Y as int),
                end: pt(sun_x(i, sunset[i]), SUN_LINE_Y as int),
                color: TriColor::Chromatic,
                stroke: 3,
            },
    )
}

/// Lays out the daylight bars.
pub fn sun_layout(sunrise: &Vec<DateTime>, sunset: &Vec<DateTime>) -> (r: Vec<DrawOp>)
    requires
        sunrise@.len() <= MAX_DAYS,
        times_well_formed(sunrise@),
        times_well_formed(sunset@),
    ensures
        r@ == sun_ops(sunrise@, sunset@),
{
    let n: usize = if sunrise.len() <= sunset.len() {
        sunrise.len()
    } else {
        sunset.len()
    };
    let mut r: Vec<DrawOp> = Vec::new();
    let mut i: usize = 0;
    while i < n
        invariant
            n <= sunrise@.len(),
            n <= sunset@.len(),
            n == sun_ops(sunrise@, sunset@).len(),
            sunrise@.len() <= MAX_DAYS,
            times_well_formed(sunrise@),
            times_well_formed(sunset@),
            i <= n,
            r@ =~= sun_ops(sunrise@, sunset@).take(i as int),
        decreases n - i,
    {
        let rise = sunrise[i];
        let set = sunset[i];
        assert(rise.well_formed() && set.well_formed());
        let offset: i32 = SECTION_WIDTH * (i as i32) + (CHART_LEFT - 5);
        let rise_x: i32 = offset + (rise.hour * 10 + rise.minute / 10) as i32;
        let set_x: i32 = offset + (set.hour * 10 + set.minute / 10) as i32;
        r.push(
            DrawOp::Line {
                start: Point { x: rise_x, y: SUN_LINE_Y },
                end: Point { x: set_x, y: SUN_LINE_Y },
                color: TriColor::Chromatic,
                stroke: 3,
            },
        );
        i = i + 1;
        assert(r@ =~= sun_ops(sunrise@, sunset@).take(i as int));
    }
    r
}

/// x of the hour label and icon of a slot.
pub open spec fn hour_label_x(s: HourSlot) -> int {
    s.x - 5
}

/// The hour labels over the first `n` samples: the hour of every placed
/// sample at an even hour of the day.
pub open spec fn hour_label_ops(slots: Seq<Option<HourSlot>>, n: int) -> Seq<DrawOp>
    decreases n,
{
    if n <= 0 {
        seq![]
    } else {
        hour_label_ops(slots, n - 1) + match slots[n - 1] {
            Some(s) => if s.hour % 2 == 0 {
                seq![
                    text(
                        Caption::Hour(s.hour),
                        hour_label_x(s),
                        HOUR_ROW_Y as int,
                        Font::Small,
                        VerticalPosition::Bottom,
                        HorizontalAlignment::Center,
                        TriColor::Black,
                    ),
                ]
            } else {
                seq![]
            },
            None => seq![],
        }
    }
}

/// Lays out the hour labels under the charts.
pub fn hour_label_layout(slots: &Vec<Option<HourSlot>>) -> (r: Vec<DrawOp>)
    requires
        slots_in_range(slots@),
    ensures
        r@ == hour_label_ops(slots@, slots@.len() as int),
{
    let mut r: Vec<DrawOp> = Vec::new();
    let mut i: usize = 0;
    while i < slots.len()
        invariant
            slots_in_range(slots@),
            i <= slots@.len(),
            r@ == hour_label_ops(slots@, i as int),
        decreases slots@.len() - i,
    {
        let ghost before = r@;
        if let Some(s) = slots[i] {
            if s.hour % 2 == 0 {
                r.push(
                    DrawOp::Text {
                        caption: Caption::Hour(s.hour),
                        position: Point { x: s.x - 5, y: HOUR_ROW_Y },
                        font: Font::Small,
                        vertical: VerticalPosition::Bottom,
                        horizontal: HorizontalAlignment::Center,
                        color: TriColor::Black,
                    },
                );
            }
        }
        assert(r@ =~= hour_label_ops(slots@, i as int + 1));
        i = i + 1;
    }
    r
}

/// Number of samples that have a code, a time and a cloud cover.
pub open spec fn icon_hours(hourly: WeatherHourly) -> int {
    let a = hourly.weather_code@.len();
    let b = hourly.time@.len();
    let c = hourly.cloud_cover@.len();
    if a <= b && a <= c {
        a as int
    } else if b <= c {
        b as int
    } else {
        c as int
    }
}

/// Whether time `t` is daytime under `policy`: by the fixed window, or
/// between the sunrise and sunset of the first complete day with its date;
/// unknown when that policy finds no such day.
pub open spec fn daytime(daily: WeatherDaily, policy: DayPolicy, t: DateTime) -> Option<bool> {
    match policy {
        DayPolicy::FixedWindow => Some(in_fixed_day_window(t)),
        DayPolicy::SunTimes => match first_day_with(daily.time@, t.date, complete_days(daily)) {
            None => None,
            Some(j) => Some(not_after(daily.sunrise@[j], t) && not_after(t, daily.sunset@[j])),
        },
    }
}

/// The icon of sample `i`, if it gets one: a placed sample at every third
/// hour of the day, chosen by its code, its cloud cover and whether it is day.
pub open spec fn hour_icon(
    hourly: WeatherHourly,
    daily: WeatherDaily,
    slots: Seq<Option<HourSlot>>,
    policy: DayPolicy,
    i: int,
) -> Option<WeatherIcon> {
    match slots[i] {
        None => None,
        Some(s) => if s.hour % 3 != 0 {
            None
        } else {
            match daytime(daily, policy, hourly.time@[i]) {
                None => None,
                Some(is_day) => select_icon(
                    hourly.weather_code@[i].0,
                    hourly.cloud_cover@[i],
                    is_day,
                ),
            }
        },
    }
}

/// The icons of the first `n` samples, anchored under their slots.
pub open spec fn icon_ops(
    hourly: WeatherHourly,
    daily: WeatherDaily,
    slots: Seq<Option<HourSlot>>,
    policy: DayPolicy,
    n: int,
) -> Seq<DrawOp>
    decreases n,
{
    if n <= 0 {
        seq![]
    } else {
        icon_ops(hourly, daily, slots, policy, n - 1) + match (
            slots[n - 1],
            hour_icon(hourly, daily, slots, policy, n - 1),
        ) {
            (Some(s), Some(icon)) => seq![
                DrawOp::Icon { icon, anchor: pt(hour_label_x(s), HOUR_ROW_Y as int) },
            ],
            _ => seq![],
        }
    }
}

/// Lays out the weather icons along the hour row, telling day from night by `policy`.
pub fn icon_layout(
    hourly: &WeatherHourly,
    daily: &WeatherDaily,
    slots: &Vec<Option<HourSlot>>,
    policy: DayPolicy,
) -> (r: Vec<DrawOp>)
    requires
        slots@.len() == hourly.time@.len(),
        slots_in_range(slots@),
    ensures
        r@ == icon_ops(*hourly, *daily, slots@, policy, icon_hours(*hourly)),
{
    let days: usize = if daily.time.len() <= daily.sunrise.len() && daily.time.len()
        <= daily.sunset.len() {
        daily.time.len()
    } else if daily.sunrise.len() <= daily.sunset.len() {
        daily.sunrise.len()
    } else {
        daily.sunset.len()
    };
    let hours: usize = if hourly.weather_code.len() <= hourly.time.len()
        && hourly.weather_code.len() <= hourly.cloud_cover.len() {
        hourly.weather_code.len()
    } else if hourly.time.len() <= hourly.cloud_cover.len() {
        hourly.time.len()
    } else {
        hourly.cloud_cover.len()
    };
    let mut r: Vec<DrawOp> = Vec::new();
    let mut i: usize = 0;
    while i < hours
        invariant
            hours == icon_hours(*hourly),
            days == complete_days(*daily),
            slots@.len() == hourly.time@.len(),
            slots_in_range(slots@),
            i <= hours,
            r@ == icon_ops(*hourly, *daily, slots@, policy, i as int),
        decreases hours - i,
    {
        let ghost before = r@;
        if let Some(s) = slots[i] {
            if s.hour % 3 == 0 {
                let time = hourly.time[i];
                let is_day = match policy {
                    DayPolicy::FixedWindow => Some(time.is_day_fixed_window()),
                    DayPolicy::SunTimes => match find_day(&daily.time, days, time.date) {
                        None => None,
                        Some(j) => Some(time.is_day_between(&daily.sunrise[j], &daily.sunset[j])),
                    },
                };
                assert(is_day == daytime(*daily, policy, time));
                if let Some(is_day) = is_day {
                    let chosen = hourly.weather_code[i].select_icon(hourly.cloud_cover[i], is_day);
                    if let Some(icon) = chosen {
                        r.push(DrawOp::Icon { icon, anchor: Point { x: s.x - 5, y: HOUR_ROW_Y } });
                    }
                }
            }
        }
        assert(r@ =~= icon_ops(*hourly, *daily, slots@, policy, i as int + 1));
        i = i + 1;
    }
    r
}

/// The hourly times run forward: no sample is later than the next one.
pub open spec fn hourly_sorted(times: Seq<DateTime>) -> bool {
    forall|i: int| 0 <= i < times.len() - 1 ==> not_after(#[trigger] times[i], times[i + 1])
}

/// The forecast can be laid out: no more days than the sections can place,
/// temperatures in range, probabilities in percent, valid times, and hourly
/// samples in time order.
pub open spec fn forecast_fits(f: WeatherForecast) -> bool {
    &&& f.daily.time@.len() <= MAX_DAYS
    &&& f.daily.sunrise@.len() <= MAX_DAYS
    &&& temperatures_in_range(f.hourly.temperature_2m@)
    &&& probabilities_in_range(f.hourly.precipitation_probability@)
    &&& times_well_formed(f.hourly.time@)
    &&& times_well_formed(f.daily.sunrise@)
    &&& times_well_formed(f.daily.sunset@)
    &&& hourly_sorted(f.hourly.time@)
}

/// Whether every sample of `ts` lies in the given range.
fn all_between(ts: &Vec<i32>, low: i32, high: i32) -> (r: bool)
    ensures
        r == forall|i: int| 0 <= i < ts@.len() ==> low <= #[trigger] ts@[i] <= high,
{
    let mut i: usize = 0;
    while i < ts.len()
        invariant
            i <= ts@.len(),
            forall|k: int| 0 <= k < i ==> low <= #[trigger] ts@[k] <= high,
        decreases ts@.len() - i,
    {
        if ts[i] < low || ts[i] > high {
            return false;
        }
        i = i + 1;
    }
    true
}

/// Whether no sample of `ps` exceeds `high`.
fn all_at_most(ps: &Vec<u32>, high: u32) -> (r: bool)
    ensures
        r == forall|i: int| 0 <= i < ps@.len() ==> #[trigger] ps@[i] <= high,
{
    let mut i: usize = 0;
    while i < ps.len()
        invariant
            i <= ps@.len(),
            forall|k: int| 0 <= k < i ==> #[trigger] ps@[k] <= high,
        decreases ps@.len() - i,
    {
        if ps[i] > high {
            return false;
        }
        i = i + 1;
    }
    true
}

/// Whether every time of `ts` is a valid time of day.
fn all_well_formed(ts: &Vec<DateTime>) -> (r: bool)
    ensures
        r == times_well_formed(ts@),
{
    let mut i: usize = 0;
    while i < ts.len()
        invariant
            i <= ts@.len(),
            forall|k: int| 0 <= k < i ==> (#[trigger] ts@[k]).well_formed(),
        decreases ts@.len() - i,
    {
        let t = ts[i];
        if !(1 <= t.date.month && t.date.month <= 12 && 1 <= t.date.day && t.date.day <= 31
            && t.hour < 24 && t.minute < 60) {
            return false;
        }
        i = i + 1;
    }
    true
}

/// Whether the hourly times run forward.
fn is_sorted(times: &Vec<DateTime>) -> (r: bool)
    ensures
        r == hourly_sorted(times@),
{
    let mut i: usize = 1;
    while i < times.len()
        invariant
            1 <= i,
            i <= times@.len() || times@.len() == 0,
            forall|k: int| 0 <= k < i - 1 && k < times@.len() - 1 ==> not_after(
                #[trigger] times@[k],
                times@[k + 1],
            ),
        decreases times@.len() - i,
    {
        if !times[i - 1].not_after(&times[i]) {
            return false;
        }
        i = i + 1;
    }
    true
}

/// Whether `forecast` can be laid out.
pub fn fits(forecast: &WeatherForecast) -> (r: bool)
    ensures
        r == forecast_fits(*forecast),
{
    let h = &forecast.hourly;
    let d = &forecast.daily;
    d.time.len() <= MAX_DAYS && d.sunrise.len() <= MAX_DAYS && all_between(
        &h.temperature_2m,
        MIN_TEMPERATURE,
        MAX_TEMPERATURE,
    ) && all_at_most(&h.precipitation_probability, 100) && all_well_formed(&h.time)
        && all_well_formed(&d.sunrise) && all_well_formed(&d.sunset) && is_sorted(&h.time)
}

/// Everything drawn for a forecast, in drawing order: headers, the temperature
/// legend and chart, the probability and precipitation legends, the
/// precipitation chart, the probability line, the daylight bars, the hour
/// labels and the icons. Hourly samples are placed by their slots.
pub open spec fn layout_ops(f: WeatherForecast, today: Date, policy: DayPolicy) -> Seq<DrawOp> {
    let slots = hour_slots(f.hourly.time@, f.daily.time@);
    let h = f.hourly;
    header_ops(today, f.daily.time@) + legend_ops(
        THERMOMETER_GLYPH,
        Unit::Celsius,
        DISPLAY_HEIGHT - 160,
        TriColor::Black,
    ) + temperature_ops(
        h.temperature_2m@,
        slots,
        min_len(h.temperature_2m@.len() as int, slots.len() as int),
    ) + legend_ops(DROP_GLYPH, Unit::Percent, DISPLAY_HEIGHT - 110, TriColor::Chromatic)
        + legend_ops(DROP_GLYPH, Unit::Millimetre, DISPLAY_HEIGHT - 90, TriColor::Black)
        + precipitation_ops(
        h.precipitation@,
        slots,
        min_len(h.precipitation@.len() as int, slots.len() as int),
    ) + probability_ops(
        h.precipitation_probability@,
        slots,
        min_len(h.precipitation_probability@.len() as int, slots.len() as int),
    ) + sun_ops(f.daily.sunrise@, f.daily.sunset@) + hour_label_ops(slots, slots.len() as int)
        + icon_ops(h, f.daily, slots, policy, icon_hours(h))
}

/// Lays out a whole forecast for the panel, with `today` on the date line and
/// day told from night by `policy`.
pub fn layout(forecast: &WeatherForecast, today: Date, policy: DayPolicy) -> (r: Vec<DrawOp>)
    requires
        forecast_fits(*forecast),
    ensures
        r@ == layout_ops(*forecast, today, policy),
{
    let hourly = &forecast.hourly;
    let daily = &forecast.daily;
    let slots = slot_layout(&hourly.time, &daily.time);
    let mut r = header_layout(today, &daily.time);
    let mut part = legend_layout(THERMOMETER_GLYPH, Unit::Celsius, DISPLAY_HEIGHT - 160, TriColor::Black);
    r.append(&mut part);
    let mut part = temperature_layout(&hourly.temperature_2m, &slots);
    r.append(&mut part);
    let mut part = legend_layout(DROP_GLYPH, Unit::Percent, DISPLAY_HEIGHT - 110, TriColor::Chromatic);
    r.append(&mut part);
    let mut part = legend_layout(DROP_GLYPH, Unit::Millimetre, DISPLAY_HEIGHT - 90, TriColor::Black);
    r.append(&mut part);
    let mut part = precipitation_layout(&hourly.precipitation, &slots);
    r.append(&mut part);
    let mut part = probability_layout(&hourly.precipitation_probability, &slots);
    r.append(&mut part);
    let mut part = sun_layout(&daily.sunrise, &daily.sunset);
    r.append(&mut part);
    let mut part = hour_label_layout(&slots);
    r.append(&mut part);
    let mut part = icon_layout(hourly, daily, &slots, policy);
    r.append(&mut part);
    r
}

/// Every day of the forecast gets its header, whatever the hourly series
/// hold (an hour-less day included): the day name and the date of day `i`
/// are drawn at the centre of section `i`.
pub proof fn lemma_headers_for_every_day(f: WeatherForecast, today: Date, policy: DayPolicy)
    ensures
        layout_ops(f, today, policy)[0] == today_text(today),
        forall|i: int|
            0 <= i < f.daily.time@.len() ==> {
                &&& #[trigger] layout_ops(f, today, policy)[1 + 2 * i] == weekday_text(
                    f.daily.time@[i],
                    i,
                )
                &&& layout_ops(f, today, policy)[2 + 2 * i] == day_date_text(f.daily.time@[i], i)
            },
{
    let days = f.daily.time@;
    let h = header_ops(today, days);
    assert(h.len() == 1 + 2 * days.len());
    assert forall|i: int| 0 <= i < days.len() implies {
        &&& #[trigger] layout_ops(f, today, policy)[1 + 2 * i] == weekday_text(days[i], i)
        &&& layout_ops(f, today, policy)[2 + 2 * i] == day_date_text(days[i], i)
    } by {
        assert(layout_ops(f, today, policy)[1 + 2 * i] == h[1 + 2 * i]);
        assert(layout_ops(f, today, policy)[2 + 2 * i] == h[2 + 2 * i]);
        assert((2 * i) / 2 == i && (2 * i + 1) / 2 == i && (2 * i) % 2 == 0 && (2 * i + 1) % 2 == 1);
    }
    assert(layout_ops(f, today, policy)[0] == h[0]);
}

/// Seconds to wait before fetching again after a failed fetch.
pub const RETRY_DELAY_SECS: u64 = 10;

/// What the refresh cycle does once a fetch has ended.
#[derive(Debug, Clone, Copy, PartialEq)]
pub enum CycleAction {
    /// Draw the forecast's layout, then show the frame.
    DrawForecast,
    /// Write the error centred at `at`, wait, and fetch again.
    ShowError { at: Point, retry_after_secs: u64 },
}

/// The step of the refresh cycle after a fetch that succeeded or not: a
/// forecast is drawn; a failure puts a banner in the middle of the panel and
/// schedules another attempt.
pub fn after_fetch(succeeded: bool) -> (r: CycleAction)
    ensures
        succeeded ==> r == CycleAction::DrawForecast,
        !succeeded ==> r == (CycleAction::ShowError {
            at: pt(DISPLAY_WIDTH / 2, DISPLAY_HEIGHT / 2),
            retry_after_secs: RETRY_DELAY_SECS,
        }),
{
    if succeeded {
        CycleAction::DrawForecast
    } else {
        CycleAction::ShowError {
            at: Point { x: DISPLAY_WIDTH / 2, y: DISPLAY_HEIGHT / 2 },
            retry_after_secs: RETRY_DELAY_SECS,
        }
    }
}

} // verus!
