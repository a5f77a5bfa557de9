//! The monitor's configuration as text, as environment variables or flags
//! carry it.
//!
//! Every setting is optional; one that is not given keeps its default. A
//! threshold is a decimal percentage such as `5`, `7.5` or `0.25`, with at
//! most six decimal places. The interval and the window size are whole
//! numbers.

use vstd::prelude::*;
use crate::alert::{ThresholdConfig, DEFAULT_CRITICAL_PERCENT, DEFAULT_WARNING_PERCENT};
use crate::monitor::{
    MonitorConfig, MonitorView, DEFAULT_INTERVAL_SECONDS, DEFAULT_WINDOW_CAPACITY,
};
use crate::reading::{pow10, StealReading, FRACTION_DIGITS, UNITS_PER_PERCENT};
use crate::stat_line::{all_digits, counter_value, digits_at, digits_value, parse_counter};

verus! {

/// The decimal point.
pub const POINT: u8 = 0x2e;

/// What stands before the decimal point of `text`, or all of it where it
/// has none.
pub open spec fn whole_digits(text: Seq<u8>) -> Seq<u8> {
    match text.index_of_first(POINT) {
        Some(at) => text.take(at),
        None => text,
    }
}

/// What stands after the first decimal point of `text`; nothing where it
/// has none.
pub open spec fn fraction_digits(text: Seq<u8>) -> Seq<u8> {
    match text.index_of_first(POINT) {
        Some(at) => text.skip(at + 1),
        None => Seq::empty(),
    }
}

/// The reading units that a decimal percentage denotes: one or more digits,
/// then optionally a point and one to six digits, with a value that fits in
/// 64 bits. Any other text denotes none.
pub open spec fn percent_units(text: Seq<u8>) -> Option<u64> {
    let whole = whole_digits(text);
    let fraction = fraction_digits(text);
    let units = digits_value(whole) * UNITS_PER_PERCENT as nat + digits_value(fraction) * pow10(
        (FRACTION_DIGITS - fraction.len()) as nat,
    );
    if whole.len() > 0 && all_digits(whole) && all_digits(fraction) && fraction.len()
        <= FRACTION_DIGITS && (text.index_of_first(POINT) is Some ==> fraction.len() > 0) && units
        <= u64::MAX {
        Some(units as u64)
    } else {
        None
    }
}

/// The settings as text; `None` for one that is not given.
#[derive(Clone, Copy, Debug)]
pub struct Settings<'a> {
    /// The warning threshold as a decimal percentage.
    pub warning_percent: Option<&'a [u8]>,
    /// The critical threshold as a decimal percentage.
    pub critical_percent: Option<&'a [u8]>,
    /// Seconds between two ticks.
    pub interval_seconds: Option<&'a [u8]>,
    /// Number of readings that are averaged.
    pub window_samples: Option<&'a [u8]>,
}

/// Why settings were refused.
#[derive(Clone, Copy, Debug, PartialEq, Eq, Structural)]
pub enum SettingsError {
    /// The warning threshold is no decimal percentage.
    InvalidWarning,
    /// The critical threshold is no decimal percentage.
    InvalidCritical,
    /// The interval is no whole number.
    InvalidInterval,
    /// The window size is no whole number, or is beyond what memory can index.
    InvalidWindow,
    /// The warning threshold is not below the critical one.
    UnorderedThresholds,
}

impl SettingsError {
    /// What is wrong with the settings, in words.
    pub open spec fn spec_describe(&self) -> Seq<char> {
        match self {
            SettingsError::InvalidWarning => "the warning threshold is not a percentage"@,
            SettingsError::InvalidCritical => "the critical threshold is not a percentage"@,
            SettingsError::InvalidInterval => "the sample interval is not a whole number"@,
            SettingsError::InvalidWindow => "the window size is not a usable whole number"@,
            SettingsError::UnorderedThresholds =>
                "the warning threshold must be below the critical threshold"@,
        }
    }

    /// What is wrong with the settings, in words.
    pub fn describe(&self) -> (message: &'static str)
        ensures
            message@ == self.spec_describe(),
    {
        match self {
            SettingsError::InvalidWarning => "the warning threshold is not a percentage",
            SettingsError::InvalidCritical => "the critical threshold is not a percentage",
            SettingsError::InvalidInterval => "the sample interval is not a whole number",
            SettingsError::InvalidWindow => "the window size is not a usable whole number",
            SettingsError::UnorderedThresholds =>
                "the warning threshold must be below the critical threshold",
        }
    }
}

/// A threshold setting: the percentage given, or `default` whole percent
/// where none is given; none where what is given is no percentage.
pub open spec fn threshold_setting(text: Option<&[u8]>, default: u32) -> Option<nat> {
    match text {
        Some(given) => match percent_units(given@) {
            Some(units) => Some(units as nat),
            None => None,
        },
        None => Some((default * UNITS_PER_PERCENT) as nat),
    }
}

/// A whole-number setting: the number given, or `default` where none is
/// given; none where what is given is no number.
pub open spec fn count_setting(text: Option<&[u8]>, default: nat) -> Option<nat> {
    match text {
        Some(given) => match counter_value(given@) {
            Some(count) => Some(count as nat),
            None => None,
        },
        None => Some(default),
    }
}

/// The state that a monitor starts in under `settings`, or the first reason
/// to refuse them: the settings are tried in the order warning, critical,
/// interval, window, and the order of the thresholds last.
pub open spec fn configured(settings: Settings) -> Result<MonitorView, SettingsError> {
    let warning = threshold_setting(settings.warning_percent, DEFAULT_WARNING_PERCENT);
    let critical = threshold_setting(settings.critical_percent, DEFAULT_CRITICAL_PERCENT);
    let interval = count_setting(settings.interval_seconds, DEFAULT_INTERVAL_SECONDS as nat);
    let window = count_setting(settings.window_samples, DEFAULT_WINDOW_CAPACITY as nat);
    if warning is None {
        Err(SettingsError::InvalidWarning)
    } else if critical is None {
        Err(SettingsError::InvalidCritical)
    } else if interval is None {
        Err(SettingsError::InvalidInterval)
    } else if window is None || window->0 > usize::MAX {
        Err(SettingsError::InvalidWindow)
    } else if warning->0 >= critical->0 {
        Err(SettingsError::UnorderedThresholds)
    } else {
        Ok(
            MonitorView {
                window: Seq::empty(),
                capacity: window->0,
                warning: warning->0,
                critical: critical->0,
                interval_seconds: interval->0,
            },
        )
    }
}

/// A string of `n` digits denotes a number below ten to the power of `n`.
proof fn lemma_digits_value_bound(digits: Seq<u8>)
    requires
        all_digits(digits),
    ensures
        digits_value(digits) < pow10(digits.len()),
    decreases digits.len(),
{
    if digits.len() > 0 {
        assert(all_digits(digits.drop_last()));
        lemma_digits_value_bound(digits.drop_last());
    }
}

/// Reads a decimal percentage (see [`percent_units`]).
pub fn parse_percent(text: &[u8]) -> (reading: Option<StealReading>)
    ensures
        match reading {
            Some(threshold) => percent_units(text@) == Some(threshold.micro_percent),
            None => percent_units(text@) is None,
        },
{
    let mut at: usize = 0;
    while at < text.len() && text[at] != POINT
        invariant
            at <= text@.len(),
            forall|i: int| 0 <= i < at ==> text@[i] != POINT,
        decreases text@.len() - at,
    {
        at += 1;
    }
    proof {
        text@.index_of_first_ensures(POINT);
    }
    let ghost whole_text = whole_digits(text@);
    let ghost fraction_text = fraction_digits(text@);
    assert(whole_text =~= text@.subrange(0, at as int));
    if at == 0 {
        return None;
    }
    let whole = match digits_at(text, 0, at) {
        Some(whole) => whole,
        None => {
            return None;
        },
    };
    let mut fraction: u64 = 0;
    let mut width: usize = 0;
    if at < text.len() {
        width = text.len() - at - 1;
        if width == 0 || width > FRACTION_DIGITS {
            return None;
        }
        fraction = match digits_at(text, at + 1, text.len()) {
            Some(fraction) => fraction,
            None => {
                proof {
                    if all_digits(fraction_text) {
                        lemma_digits_value_bound(fraction_text);
                        reveal_with_fuel(pow10, 7);
                    }
                }
                return None;
            },
        };
    }
    proof {
        lemma_digits_value_bound(fraction_text);
        reveal_with_fuel(pow10, 7);
    }
    let mut scale: u64 = 1;
    let mut places: usize = width;
    while places < FRACTION_DIGITS
        invariant
            width <= places <= FRACTION_DIGITS,
            scale == pow10((places - width) as nat),
            scale <= 1_000_000,
        decreases FRACTION_DIGITS - places,
    {
        proof {
            reveal_with_fuel(pow10, 7);
        }
        scale = scale * 10;
        places += 1;
    }
    assert(fraction * scale <= 1_000_000 * 1_000_000) by (nonlinear_arith)
        requires
            fraction <= 1_000_000,
            scale <= 1_000_000,
    ;
    let fraction_units: u64 = fraction * scale;
    let whole_units: u64 = match whole.checked_mul(UNITS_PER_PERCENT) {
        Some(units) => units,
        None => {
            return None;
        },
    };
    match whole_units.checked_add(fraction_units) {
        Some(units) => Some(StealReading { micro_percent: units }),
        None => None,
    }
}

/// Builds the configuration that `settings` describe.
///
/// A setting that is not given keeps its default: 5 and 15 percent, 60
/// seconds, 5 readings. The settings are refused exactly when one that is
/// given cannot be read, when the window size is beyond what memory can
/// index, or when the warning threshold is not below the critical one; the
/// error names the first of these in the order of [`configured`].
pub fn configure(settings: &Settings) -> (config: Result<MonitorConfig, SettingsError>)
    ensures
        match config {
            Ok(built) => configured(*settings) == Ok::<MonitorView, SettingsError>(
                built.initial(),
            ),
            Err(error) => configured(*settings) == Err::<MonitorView, SettingsError>(error),
        },
{
    let warning = match settings.warning_percent {
        Some(given) => match parse_percent(given) {
            Some(warning) => warning,
            None => {
                return Err(SettingsError::InvalidWarning);
            },
        },
        None => StealReading::from_percent(DEFAULT_WARNING_PERCENT),
    };
    let critical = match settings.critical_percent {
        Some(given) => match parse_percent(given) {
            Some(critical) => critical,
            None => {
                return Err(SettingsError::InvalidCritical);
            },
        },
        None => StealReading::from_percent(DEFAULT_CRITICAL_PERCENT),
    };
    let interval_seconds = match settings.interval_seconds {
        Some(given) => match parse_counter(given) {
            Some(seconds) => seconds,
            None => {
                return Err(SettingsError::InvalidInterval);
            },
        },
        None => DEFAULT_INTERVAL_SECONDS,
    };
    let window_capacity: usize = match settings.window_samples {
        Some(given) => match parse_counter(given) {
            Some(samples) => {
                if samples > usize::MAX as u64 {
                    return Err(SettingsError::InvalidWindow);
                }
                samples as usize
            },
            None => {
                return Err(SettingsError::InvalidWindow);
            },
        },
        None => DEFAULT_WINDOW_CAPACITY,
    };
    match ThresholdConfig::new(warning, critical) {
        Some(thresholds) => Ok(MonitorConfig { thresholds, interval_seconds, window_capacity }),
        None => Err(SettingsError::UnorderedThresholds),
    }
}

} // verus!
