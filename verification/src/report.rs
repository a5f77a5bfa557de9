//! The text of what a tick reports.

use vstd::prelude::*;
use vstd::string::StringExecFns;
use crate::alert::AlertLevel;
use crate::monitor::{MonitorConfig, MonitorView, StatusRecord};
use crate::reading::{pow10, StealReading, FRACTION_DIGITS, UNITS_PER_PERCENT};

verus! {

/// Reading units in a tenth of a percent, the precision of a status line.
pub const UNITS_PER_TENTH: u64 = 100_000;

/// The character of a decimal digit.
pub open spec fn digit_char(digit: nat) -> char {
    if digit == 0 {
        '0'
    } else if digit == 1 {
        '1'
    } else if digit == 2 {
        '2'
    } else if digit == 3 {
        '3'
    } else if digit == 4 {
        '4'
    } else if digit == 5 {
        '5'
    } else if digit == 6 {
        '6'
    } else if digit == 7 {
        '7'
    } else if digit == 8 {
        '8'
    } else {
        '9'
    }
}

/// The decimal digits of `n`, without leading zeros.
pub open spec fn decimal_text(n: nat) -> Seq<char>
    decreases n,
{
    if n < 10 {
        seq![digit_char(n)]
    } else {
        decimal_text(n / 10).push(digit_char(n % 10))
    }
}

/// A reading in tenths of a percent, rounded to the nearest tenth, halves
/// upwards.
pub open spec fn rounded_tenths(units: nat) -> nat {
    (units + UNITS_PER_TENTH as nat / 2) / UNITS_PER_TENTH as nat
}

/// A reading as a percentage with one decimal place.
pub open spec fn percent_text(units: nat) -> Seq<char> {
    decimal_text(rounded_tenths(units) / 10) + seq!['.', digit_char(rounded_tenths(units) % 10)]
}

/// The last `places` decimal digits of `n`, with leading zeros.
pub open spec fn padded_text(n: nat, places: nat) -> Seq<char>
    decreases places,
{
    if places == 0 {
        Seq::empty()
    } else {
        padded_text(n / 10, (places - 1) as nat).push(digit_char(n % 10))
    }
}

/// The decimal places of `fraction / 10^places` without trailing zeros.
pub open spec fn fraction_text(fraction: nat, places: nat) -> Seq<char>
    decreases places,
{
    if places == 0 {
        Seq::empty()
    } else if fraction % 10 == 0 {
        fraction_text(fraction / 10, (places - 1) as nat)
    } else {
        padded_text(fraction, places)
    }
}

/// A reading as an exact percentage in the shortest form: the whole
/// percents, then a point and the decimal places where there are any.
pub open spec fn plain_percent_text(units: nat) -> Seq<char> {
    let whole = units / UNITS_PER_PERCENT as nat;
    let fraction = units % UNITS_PER_PERCENT as nat;
    if fraction == 0 {
        decimal_text(whole)
    } else {
        decimal_text(whole) + seq!['.'] + fraction_text(fraction, FRACTION_DIGITS as nat)
    }
}

/// The lines of the banner that announces a monitor: a title, the two
/// thresholds, and the interval between two samples.
pub open spec fn banner_text(state: MonitorView) -> Seq<Seq<char>> {
    seq![
        "CPU Steal Time Monitor Started"@,
        "   Warning threshold: >"@ + plain_percent_text(state.warning) + "%"@,
        "   Critical threshold: >"@ + plain_percent_text(state.critical) + "%"@,
        "   Sample interval: "@ + decimal_text(state.interval_seconds) + "s"@,
    ]
}

/// The status line of a successful tick: the time stamp in brackets, the
/// reading to one decimal place, the number of readings averaged, and the
/// label of the level.
pub open spec fn status_text(
    timestamp: Seq<char>,
    reading: nat,
    samples: nat,
    level: AlertLevel,
) -> Seq<char> {
    "["@ + timestamp + "] Steal: "@ + percent_text(reading) + "% (avg over "@ + decimal_text(
        samples,
    ) + ") "@ + level.spec_label()
}

/// The text of local date and time, as year, month and day joined by
/// hyphens, a space, and hours, minutes and seconds joined by colons, for
/// the instant `unix_seconds` after the Unix epoch at a place whose clocks
/// are `utc_offset_seconds` ahead of UTC; none where the calendar in use
/// cannot represent the instant or the offset.
pub uninterp spec fn timestamp_text(unix_seconds: i64, utc_offset_seconds: i32) -> Option<
    Seq<char>,
>;

/// Renders a time stamp with `chrono`: `FixedOffset::east_opt` and
/// `DateTime::from_timestamp` build the date and time, and
/// `DateTime::format` writes it with the pattern `%Y-%m-%d %H:%M:%S`.
///
/// The contract claims that the outcome depends on the two arguments alone:
/// the text, or that there is none because `chrono` refused the offset or
/// the instant as out of its range.
#[verifier::external_body]
fn render_timestamp(unix_seconds: i64, utc_offset_seconds: i32) -> (text: Option<String>)
    ensures
        match text {
            Some(rendered) => timestamp_text(unix_seconds, utc_offset_seconds) == Some(rendered@),
            None => timestamp_text(unix_seconds, utc_offset_seconds) is None,
        },
{
    let offset = chrono::FixedOffset::east_opt(utc_offset_seconds)?;
    let instant = chrono::DateTime::from_timestamp(unix_seconds, 0)?;
    Some(instant.with_timezone(&offset).format("%Y-%m-%d %H:%M:%S").to_string())
}

/// The text of a decimal digit.
fn digit_str(digit: u64) -> (text: &'static str)
    requires
        digit < 10,
    ensures
        text@ == seq![digit_char(digit as nat)],
{
    proof {
        reveal_strlit("0");
        reveal_strlit("1");
        reveal_strlit("2");
        reveal_strlit("3");
        reveal_strlit("4");
        reveal_strlit("5");
        reveal_strlit("6");
        reveal_strlit("7");
        reveal_strlit("8");
        reveal_strlit("9");
    }
    if digit == 0 {
        "0"
    } else if digit == 1 {
        "1"
    } else if digit == 2 {
        "2"
    } else if digit == 3 {
        "3"
    } else if digit == 4 {
        "4"
    } else if digit == 5 {
        "5"
    } else if digit == 6 {
        "6"
    } else if digit == 7 {
        "7"
    } else if digit == 8 {
        "8"
    } else {
        "9"
    }
}

/// Appends the decimal digits of `n` to `text`.
fn push_decimal(text: &mut String, n: u64)
    ensures
        final(text)@ == old(text)@ + decimal_text(n as nat),
    decreases n,
{
    if n >= 10 {
        push_decimal(text, n / 10);
    }
    text.append(digit_str(n % 10));
}

/// Appends `units` as a percentage with one decimal place to `text`.
fn push_percent(text: &mut String, units: u64)
    ensures
        final(text)@ == old(text)@ + percent_text(units as nat),
{
    let wide: u128 = units as u128 + (UNITS_PER_TENTH / 2) as u128;
    let tenths: u64 = (wide / UNITS_PER_TENTH as u128) as u64;
    push_decimal(text, tenths / 10);
    text.append(".");
    text.append(digit_str(tenths % 10));
    proof {
        reveal_strlit(".");
    }
}

/// Appends the last `places` decimal digits of `n` to `text`.
fn push_padded(text: &mut String, n: u64, places: usize)
    ensures
        final(text)@ == old(text)@ + padded_text(n as nat, places as nat),
    decreases places,
{
    if places > 0 {
        push_padded(text, n / 10, places - 1);
        text.append(digit_str(n % 10));
    }
}

/// Appends `reading` as an exact percentage in the shortest form to `text`.
fn push_plain_percent(text: &mut String, reading: StealReading)
    ensures
        final(text)@ == old(text)@ + plain_percent_text(reading@),
{
    push_decimal(text, reading.micro_percent / UNITS_PER_PERCENT);
    let mut fraction: u64 = reading.micro_percent % UNITS_PER_PERCENT;
    if fraction != 0 {
        let mut places: usize = FRACTION_DIGITS;
        proof {
            reveal_with_fuel(pow10, 7);
        }
        while fraction % 10 == 0
            invariant
                0 < fraction < pow10(places as nat),
                places <= FRACTION_DIGITS,
                fraction_text(reading@ % UNITS_PER_PERCENT as nat, FRACTION_DIGITS as nat)
                    == fraction_text(fraction as nat, places as nat),
            decreases fraction,
        {
            proof {
                reveal_with_fuel(pow10, 7);
            }
            fraction = fraction / 10;
            places = places - 1;
        }
        text.append(".");
        push_padded(text, fraction, places);
        proof {
            reveal_strlit(".");
        }
    }
}

/// Writes the banner that announces a monitor with the configuration
/// `config`, one line per element.
pub fn banner(config: &MonitorConfig) -> (lines: Vec<String>)
    ensures
        lines@.len() == banner_text(config.initial()).len(),
        forall|i: int|
            0 <= i < lines@.len() ==> (#[trigger] lines@[i])@ == banner_text(config.initial())[i],
{
    let mut title = String::new();
    title.append("CPU Steal Time Monitor Started");
    let mut warning = String::new();
    warning.append("   Warning threshold: >");
    push_plain_percent(&mut warning, config.thresholds.warning());
    warning.append("%");
    let mut critical = String::new();
    critical.append("   Critical threshold: >");
    push_plain_percent(&mut critical, config.thresholds.critical());
    critical.append("%");
    let mut interval = String::new();
    interval.append("   Sample interval: ");
    push_decimal(&mut interval, config.interval_seconds);
    interval.append("s");
    let mut lines: Vec<String> = Vec::new();
    lines.push(title);
    lines.push(warning);
    lines.push(critical);
    lines.push(interval);
    lines
}

/// Writes the status line of `record` around the time stamp `timestamp`.
pub fn status_line_with(record: &StatusRecord, timestamp: &str) -> (line: String)
    ensures
        line@ == status_text(
            timestamp@,
            record.reading@,
            record.samples as nat,
            record.level,
        ),
{
    let mut line = String::new();
    line.append("[");
    line.append(timestamp);
    line.append("] Steal: ");
    push_percent(&mut line, record.reading.micro_percent);
    line.append("% (avg over ");
    push_decimal(&mut line, record.samples as u64);
    line.append(") ");
    line.append(record.level.label());
    assert(line@ =~= status_text(
        timestamp@,
        record.reading@,
        record.samples as nat,
        record.level,
    ));
    line
}

/// Writes the status line of `record` for a tick that ended `unix_seconds`
/// after the Unix epoch, where local time is `utc_offset_seconds` ahead of
/// UTC.
///
/// There is a line exactly when there is a time stamp for the two numbers
/// (see [`timestamp_text`]), and the line is then the one that
/// [`status_line_with`] writes around that time stamp.
pub fn status_line(record: &StatusRecord, unix_seconds: i64, utc_offset_seconds: i32) -> (line:
    Option<String>)
    ensures
        match timestamp_text(unix_seconds, utc_offset_seconds) {
            Some(timestamp) => line matches Some(text) && text@ == status_text(
                timestamp,
                record.reading@,
                record.samples as nat,
                record.level,
            ),
            None => line is None,
        },
{
    match render_timestamp(unix_seconds, utc_offset_seconds) {
        Some(timestamp) => Some(status_line_with(record, timestamp.as_str())),
        None => None,
    }
}

} // verus!
