//! Thresholds and the classification of a smoothed reading.

use vstd::prelude::*;
use crate::reading::{StealReading, UNITS_PER_PERCENT};

verus! {

/// The warning threshold in whole percent unless configured otherwise.
pub const DEFAULT_WARNING_PERCENT: u32 = 5;

/// The critical threshold in whole percent unless configured otherwise.
pub const DEFAULT_CRITICAL_PERCENT: u32 = 15;

/// What the alert sink is told while the average is at the warning level.
pub const WARNING_ADVISORY: &'static str = "Warning: Elevated steal time. Monitor for patterns.";

/// What the alert sink is told while the average is at the critical level.
pub const CRITICAL_ADVISORY: &'static str =
    "CRITICAL: Sustained high steal time detected! Consider upgrading to dedicated CPU.";

/// How a smoothed reading stands against the thresholds.
#[derive(Clone, Copy, Debug, PartialEq, Eq, Structural)]
pub enum AlertLevel {
    /// Below both thresholds.
    Normal,
    /// At or above the warning threshold, below the critical one.
    Warning,
    /// At or above the critical threshold.
    Critical,
}

/// The level of `average` against the two thresholds. The critical
/// threshold is tried first, and a value that equals a threshold has
/// reached it.
pub open spec fn level_of(average: nat, warning: nat, critical: nat) -> AlertLevel {
    if average >= critical {
        AlertLevel::Critical
    } else if average >= warning {
        AlertLevel::Warning
    } else {
        AlertLevel::Normal
    }
}

/// The boundaries of the classification: a value that equals a threshold
/// has reached it, and one unit below a threshold is one level lower.
pub proof fn lemma_level_boundaries(warning: nat, critical: nat)
    requires
        warning < critical,
    ensures
        level_of(warning, warning, critical) == AlertLevel::Warning,
        level_of(critical, warning, critical) == AlertLevel::Critical,
        level_of((critical - 1) as nat, warning, critical) == AlertLevel::Warning,
        warning > 0 ==> level_of((warning - 1) as nat, warning, critical) == AlertLevel::Normal,
{
}

/// The warning and the critical threshold, with `warning < critical`.
#[derive(Clone, Copy, Debug, PartialEq, Eq)]
pub struct ThresholdConfig {
    warning: StealReading,
    critical: StealReading,
}

impl ThresholdConfig {
    #[verifier::type_invariant]
    spec fn ordered(&self) -> bool {
        self.warning@ < self.critical@
    }

    /// The warning threshold in reading units.
    pub closed spec fn spec_warning(&self) -> nat {
        self.warning@
    }

    /// The critical threshold in reading units.
    pub closed spec fn spec_critical(&self) -> nat {
        self.critical@
    }

    /// The thresholds `warning` and `critical`; `None` exactly when they are
    /// not in strictly ascending order.
    pub fn new(warning: StealReading, critical: StealReading) -> (config: Option<ThresholdConfig>)
        ensures
            config is Some <==> warning@ < critical@,
            config matches Some(thresholds) ==> thresholds.spec_warning() == warning@
                && thresholds.spec_critical() == critical@,
    {
        if warning.micro_percent < critical.micro_percent {
            Some(ThresholdConfig { warning, critical })
        } else {
            None
        }
    }

    /// The warning threshold.
    pub fn warning(&self) -> (warning: StealReading)
        ensures
            warning@ == self.spec_warning(),
            warning@ < self.spec_critical(),
    {
        proof {
            use_type_invariant(self);
        }
        self.warning
    }

    /// The critical threshold.
    pub fn critical(&self) -> (critical: StealReading)
        ensures
            critical@ == self.spec_critical(),
            self.spec_warning() < critical@,
    {
        proof {
            use_type_invariant(self);
        }
        self.critical
    }
}

impl Default for ThresholdConfig {
    /// A warning at 5 percent and a critical alert at 15 percent.
    fn default() -> (config: ThresholdConfig)
        ensures
            config.spec_warning() == DEFAULT_WARNING_PERCENT * UNITS_PER_PERCENT,
            config.spec_critical() == DEFAULT_CRITICAL_PERCENT * UNITS_PER_PERCENT,
    {
        ThresholdConfig {
            warning: StealReading::from_percent(DEFAULT_WARNING_PERCENT),
            critical: StealReading::from_percent(DEFAULT_CRITICAL_PERCENT),
        }
    }
}

impl AlertLevel {
    /// The label of this level in a status line.
    pub open spec fn spec_label(&self) -> Seq<char> {
        match self {
            AlertLevel::Normal => "OK"@,
            AlertLevel::Warning => "WARNING"@,
            AlertLevel::Critical => "CRITICAL"@,
        }
    }

    /// The advisory that goes with this level; none for `Normal`.
    pub open spec fn spec_advisory(&self) -> Option<Seq<char>> {
        match self {
            AlertLevel::Normal => None,
            AlertLevel::Warning => Some(WARNING_ADVISORY@),
            AlertLevel::Critical => Some(CRITICAL_ADVISORY@),
        }
    }

    /// The label of this level in a status line.
    pub fn label(&self) -> (label: &'static str)
        ensures
            label@ == self.spec_label(),
    {
        match self {
            AlertLevel::Normal => "OK",
            AlertLevel::Warning => "WARNING",
            AlertLevel::Critical => "CRITICAL",
        }
    }

    /// The advisory that goes with this level: `None` exactly for `Normal`.
    pub fn advisory(&self) -> (message: Option<&'static str>)
        ensures
            match message {
                Some(text) => self.spec_advisory() == Some(text@),
                None => self.spec_advisory() is None,
            },
            message is None <==> *self == AlertLevel::Normal,
    {
        match self {
            AlertLevel::Normal => None,
            AlertLevel::Warning => Some(WARNING_ADVISORY),
            AlertLevel::Critical => Some(CRITICAL_ADVISORY),
        }
    }

    /// Classifies the smoothed reading `average`.
    ///
    /// The result is `Critical` exactly when `average` has reached the
    /// critical threshold, `Warning` exactly when it has reached the warning
    /// threshold but not the critical one, and `Normal` exactly when it is below
    /// both.
    pub fn classify(average: StealReading, thresholds: &ThresholdConfig) -> (level: AlertLevel)
        ensures
            level == level_of(average@, thresholds.spec_warning(), thresholds.spec_critical()),
            level == AlertLevel::Critical <==> average@ >= thresholds.spec_critical(),
            level == AlertLevel::Warning <==> thresholds.spec_warning() <= average@
                < thresholds.spec_critical(),
            level == AlertLevel::Normal <==> average@ < thresholds.spec_warning(),
    {
        proof {
            use_type_invariant(thresholds);
        }
        if average.micro_percent >= thresholds.critical.micro_percent {
            AlertLevel::Critical
        } else if average.micro_percent >= thresholds.warning.micro_percent {
            AlertLevel::Warning
        } else {
            AlertLevel::Normal
        }
    }
}

} // verus!
