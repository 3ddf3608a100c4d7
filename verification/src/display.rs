//! What goes on the two rows of the display: the layout of each screen, the
//! stale-data notice and the fixed messages.

use crate::alert::AlarmState;
use crate::reading::SensorReading;
use crate::screen::Screen;
use crate::text::{
    all_glyphs, ascii, is_plain_text, lemma_decimal_glyphs, lemma_decimal_len, pad, pow10,
    round_tenths, tenths_of, tenths_text, LineBuilder, COLUMNS,
};
use vstd::prelude::*;

verus! {

/// Number of sensor-resolution steps in one tenth of a degree Celsius.
pub const CENTI_PER_TENTH: u32 = 10;

/// Number of sensor-resolution steps in one tenth of a percent.
pub const MILLI_PER_TENTH: u32 = 100;

/// Number of pascal in one tenth of a hectopascal.
pub const PASCAL_PER_TENTH: u32 = 10;

/// Number of ticks in one tenth of a second, at ten milliseconds a tick.
pub const TICKS_PER_TENTH: u32 = 10;

/// The two rows of the display, one byte per character cell.
#[derive(Clone, Copy, Debug, PartialEq, Eq)]
pub struct DisplayContent {
    /// Row 0.
    pub top: [u8; 16],
    /// Row 1.
    pub bottom: [u8; 16],
}

/// The two rows as sequences of bytes.
pub struct DisplayRows {
    pub top: Seq<u8>,
    pub bottom: Seq<u8>,
}

impl View for DisplayContent {
    type V = DisplayRows;

    open spec fn view(&self) -> DisplayRows {
        DisplayRows { top: self.top@, bottom: self.bottom@ }
    }
}

/// The heading of a screen.
pub open spec fn title(screen: Screen) -> Seq<char> {
    match screen {
        Screen::Temperature => "Temperature"@,
        Screen::Humidity => "Humidity"@,
        Screen::Pressure => "Pressure"@,
        Screen::Date => "Date"@,
        Screen::Warning => "!! WARNING !!"@,
    }
}

/// The unit that follows the number on a data screen.
pub open spec fn unit(screen: Screen) -> Seq<char> {
    match screen {
        Screen::Temperature => " C"@,
        Screen::Humidity => " %"@,
        Screen::Pressure => " hPa"@,
        Screen::Date => " s"@,
        Screen::Warning => ""@,
    }
}

/// The number a data screen shows, in tenths of its unit: degrees Celsius,
/// percent, hectopascal, or seconds since power-on at which the reading was
/// taken.
pub open spec fn shown_tenths(screen: Screen, reading: SensorReading) -> int {
    match screen {
        Screen::Temperature => round_tenths(
            reading.temperature_centi as int,
            CENTI_PER_TENTH as int,
        ),
        Screen::Humidity => round_tenths(reading.humidity_milli as int, MILLI_PER_TENTH as int),
        Screen::Pressure => round_tenths(reading.pressure_pa as int, PASCAL_PER_TENTH as int),
        Screen::Date => round_tenths(reading.timestamp_tick as int, TICKS_PER_TENTH as int),
        Screen::Warning => 0,
    }
}

/// What the warning screen names as the alarm's cause.
pub open spec fn cause(alarm: AlarmState) -> Seq<char> {
    if alarm.smoke_detected && alarm.gas_threshold_breached {
        "SMOKE + GAS/HEAT"@
    } else if alarm.smoke_detected {
        "SMOKE"@
    } else if alarm.gas_threshold_breached {
        "GAS/HEAT"@
    } else {
        "NO ACTIVE CAUSE"@
    }
}

impl DisplayRows {
    /// Both rows are full and hold only glyphs.
    pub open spec fn printable(self) -> bool {
        &&& self.top.len() == COLUMNS
        &&& self.bottom.len() == COLUMNS
        &&& all_glyphs(self.top)
        &&& all_glyphs(self.bottom)
    }

    /// A data screen: its heading above, the reading with one decimal place
    /// and its unit below.
    pub open spec fn reading(screen: Screen, reading: SensorReading) -> DisplayRows {
        DisplayRows {
            top: pad(ascii(title(screen))),
            bottom: pad(tenths_text(shown_tenths(screen, reading)) + ascii(unit(screen))),
        }
    }

    /// The warning screen: a fixed message above, the cause below.
    pub open spec fn warning(alarm: AlarmState) -> DisplayRows {
        DisplayRows { top: pad(ascii(title(Screen::Warning))), bottom: pad(ascii(cause(alarm))) }
    }

    /// The layout of `screen`.
    pub open spec fn screen(screen: Screen, reading: SensorReading, alarm: AlarmState) -> DisplayRows {
        if screen == Screen::Warning {
            DisplayRows::warning(alarm)
        } else {
            DisplayRows::reading(screen, reading)
        }
    }

    /// A screen before the first reading has arrived.
    pub open spec fn awaiting(screen: Screen, alarm: AlarmState) -> DisplayRows {
        if screen == Screen::Warning {
            DisplayRows::warning(alarm)
        } else {
            DisplayRows { top: pad(ascii(title(screen))), bottom: pad(ascii("no data"@)) }
        }
    }

    /// The same rows under the stale-data notice: the notice replaces the
    /// heading, the reading below stays.
    pub open spec fn stale(self) -> DisplayRows {
        DisplayRows { top: pad(ascii("stale data"@)), bottom: self.bottom }
    }

    /// The fixed message shown when the sensor could not be initialised.
    pub open spec fn init_failure() -> DisplayRows {
        DisplayRows { top: pad(ascii("SENSOR INIT FAIL"@)), bottom: pad(ascii("SYSTEM HALTED"@)) }
    }
}

/// The heading of a screen.
fn title_text(screen: Screen) -> (s: &'static str)
    ensures
        s@ == title(screen),
        is_plain_text(s@),
        s@.len() <= COLUMNS,
{
    proof {
        reveal_strlit("Temperature");
        reveal_strlit("Humidity");
        reveal_strlit("Pressure");
        reveal_strlit("Date");
        reveal_strlit("!! WARNING !!");
    }
    match screen {
        Screen::Temperature => "Temperature",
        Screen::Humidity => "Humidity",
        Screen::Pressure => "Pressure",
        Screen::Date => "Date",
        Screen::Warning => "!! WARNING !!",
    }
}

/// The unit of a screen.
fn unit_text(screen: Screen) -> (s: &'static str)
    ensures
        s@ == unit(screen),
        is_plain_text(s@),
        s@.len() <= 4,
{
    proof {
        reveal_strlit(" C");
        reveal_strlit(" %");
        reveal_strlit(" hPa");
        reveal_strlit(" s");
        reveal_strlit("");
    }
    match screen {
        Screen::Temperature => " C",
        Screen::Humidity => " %",
        Screen::Pressure => " hPa",
        Screen::Date => " s",
        Screen::Warning => "",
    }
}

/// The cause named on the warning screen.
fn cause_text(alarm: &AlarmState) -> (s: &'static str)
    ensures
        s@ == cause(*alarm),
        is_plain_text(s@),
        s@.len() <= COLUMNS,
{
    proof {
        reveal_strlit("SMOKE + GAS/HEAT");
        reveal_strlit("SMOKE");
        reveal_strlit("GAS/HEAT");
        reveal_strlit("NO ACTIVE CAUSE");
    }
    if alarm.smoke_detected && alarm.gas_threshold_breached {
        "SMOKE + GAS/HEAT"
    } else if alarm.smoke_detected {
        "SMOKE"
    } else if alarm.gas_threshold_breached {
        "GAS/HEAT"
    } else {
        "NO ACTIVE CAUSE"
    }
}

/// A row that holds `s` and blanks after it.
fn row_of(s: &str) -> (row: [u8; 16])
    requires
        is_plain_text(s@),
        s@.len() <= COLUMNS,
    ensures
        row@ == pad(ascii(s@)),
        row@.len() == COLUMNS,
        all_glyphs(row@),
{
    let mut line = LineBuilder::new();
    line.push_text(s);
    line.finish()
}

/// The number a data screen shows, in tenths of its unit.
fn tenths_shown(screen: Screen, reading: &SensorReading) -> (t: i64)
    ensures
        t == shown_tenths(screen, *reading),
        -1_000_000_000 < t < 1_000_000_000,
{
    match screen {
        Screen::Temperature => tenths_of(reading.temperature_centi as i64, CENTI_PER_TENTH),
        Screen::Humidity => tenths_of(reading.humidity_milli as i64, MILLI_PER_TENTH),
        Screen::Pressure => tenths_of(reading.pressure_pa as i64, PASCAL_PER_TENTH),
        Screen::Date => tenths_of(reading.timestamp_tick as i64, TICKS_PER_TENTH),
        Screen::Warning => 0,
    }
}

/// A number of fewer than ten digits, written in tenths, takes at most
/// eleven cells, all of them glyphs.
pub proof fn lemma_tenths_text_fits(t: int)
    requires
        -1_000_000_000 < t < 1_000_000_000,
    ensures
        3 <= tenths_text(t).len() <= 11,
        all_glyphs(tenths_text(t)),
{
    let m = if t < 0 { -t } else { t };
    assert(pow10(8) == 100_000_000) by {
        reveal_with_fuel(pow10, 9);
    }
    lemma_decimal_len((m / 10) as nat, 8);
    lemma_decimal_glyphs((m / 10) as nat);
}

/// Nothing the display shows is cut off at the last column: every heading,
/// every cause and notice, and every reading with its unit fits a row.
pub proof fn lemma_rows_are_not_cut(screen: Screen, reading: SensorReading, alarm: AlarmState)
    ensures
        title(screen).len() <= COLUMNS,
        cause(alarm).len() <= COLUMNS,
        (tenths_text(shown_tenths(screen, reading)) + ascii(unit(screen))).len() <= COLUMNS,
        "stale data"@.len() <= COLUMNS,
        "no data"@.len() <= COLUMNS,
        "SENSOR INIT FAIL"@.len() <= COLUMNS,
        "SYSTEM HALTED"@.len() <= COLUMNS,
{
    reveal_strlit("Temperature");
    reveal_strlit("Humidity");
    reveal_strlit("Pressure");
    reveal_strlit("Date");
    reveal_strlit("!! WARNING !!");
    reveal_strlit(" C");
    reveal_strlit(" %");
    reveal_strlit(" hPa");
    reveal_strlit(" s");
    reveal_strlit("");
    reveal_strlit("SMOKE + GAS/HEAT");
    reveal_strlit("SMOKE");
    reveal_strlit("GAS/HEAT");
    reveal_strlit("NO ACTIVE CAUSE");
    reveal_strlit("stale data");
    reveal_strlit("no data");
    reveal_strlit("SENSOR INIT FAIL");
    reveal_strlit("SYSTEM HALTED");
    lemma_shown_tenths_bound(screen, reading);
    lemma_tenths_text_fits(shown_tenths(screen, reading));
}

/// The number a data screen shows has fewer than ten digits.
pub proof fn lemma_shown_tenths_bound(screen: Screen, reading: SensorReading)
    ensures
        -1_000_000_000 < shown_tenths(screen, reading) < 1_000_000_000,
{
}

impl DisplayContent {
    /// Lays out a data screen.
    fn reading(screen: Screen, reading: &SensorReading) -> (content: DisplayContent)
        ensures
            content@ == DisplayRows::reading(screen, *reading),
            content@.printable(),
    {
        let t: i64 = tenths_shown(screen, reading);
        let unit: &str = unit_text(screen);
        proof {
            lemma_tenths_text_fits(t as int);
        }
        let mut line = LineBuilder::new();
        line.push_tenths(t);
        line.push_text(unit);
        DisplayContent { top: row_of(title_text(screen)), bottom: line.finish() }
    }

    /// Lays out the warning screen for `alarm`.
    pub fn warning(alarm: &AlarmState) -> (content: DisplayContent)
        ensures
            content@ == DisplayRows::warning(*alarm),
            content@.printable(),
    {
        DisplayContent {
            top: row_of(title_text(Screen::Warning)),
            bottom: row_of(cause_text(alarm)),
        }
    }

    /// Lays out `screen`: a data screen from `reading`, the warning screen
    /// from `alarm`.
    pub fn screen(screen: Screen, reading: &SensorReading, alarm: &AlarmState) -> (content:
        DisplayContent)
        ensures
            content@ == DisplayRows::screen(screen, *reading, *alarm),
            content@.printable(),
    {
        match screen {
            Screen::Warning => DisplayContent::warning(alarm),
            _ => DisplayContent::reading(screen, reading),
        }
    }

    /// Lays out `screen` while there is no reading to show yet.
    pub fn awaiting(screen: Screen, alarm: &AlarmState) -> (content: DisplayContent)
        ensures
            content@ == DisplayRows::awaiting(screen, *alarm),
            content@.printable(),
    {
        match screen {
            Screen::Warning => DisplayContent::warning(alarm),
            _ => {
                proof {
                    reveal_strlit("no data");
                }
                DisplayContent { top: row_of(title_text(screen)), bottom: row_of("no data") }
            },
        }
    }

    /// Puts the stale-data notice over the heading and keeps the row below.
    pub fn mark_stale(self) -> (content: DisplayContent)
        ensures
            content@ == self@.stale(),
            self@.printable() ==> content@.printable(),
    {
        proof {
            reveal_strlit("stale data");
        }
        DisplayContent { top: row_of("stale data"), bottom: self.bottom }
    }

    /// The message for a sensor that could not be initialised.
    pub fn init_failure() -> (content: DisplayContent)
        ensures
            content@ == DisplayRows::init_failure(),
            content@.printable(),
    {
        proof {
            reveal_strlit("SENSOR INIT FAIL");
            reveal_strlit("SYSTEM HALTED");
        }
        DisplayContent { top: row_of("SENSOR INIT FAIL"), bottom: row_of("SYSTEM HALTED") }
    }
}

} // verus!
