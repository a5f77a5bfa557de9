//! The monitor's decisions, one tick at a time.
//!
//! The monitor owns the window of recent readings. A tick takes what the
//! sampler returned and answers with what is to be done: the record or the
//! failure to report, the alert to raise, and how long to sleep. Reading the
//! statistics source, emitting the report, raising the alert and sleeping
//! are the caller's part.

use vstd::prelude::*;
use crate::alert::{
    level_of, AlertLevel, ThresholdConfig, DEFAULT_CRITICAL_PERCENT, DEFAULT_WARNING_PERCENT,
};
use crate::reading::{StealReading, UNITS_PER_PERCENT};
use crate::sampler::{sample, sample_view, sampled, source_view, SampleError};
use crate::stat_line::{counter_value, fields, first_line, REQUIRED_COUNTERS};
use crate::window::{fed, mean_of, pushed, total_of, SlidingWindow};

verus! {

/// Seconds between two ticks unless configured otherwise.
pub const DEFAULT_INTERVAL_SECONDS: u64 = 60;

/// Number of readings that are averaged unless configured otherwise.
pub const DEFAULT_WINDOW_CAPACITY: usize = 5;

/// What a monitor is set up with; fixed for its lifetime.
#[derive(Clone, Copy, Debug, PartialEq, Eq)]
pub struct MonitorConfig {
    pub thresholds: ThresholdConfig,
    pub interval_seconds: u64,
    pub window_capacity: usize,
}

impl MonitorConfig {
    /// The state of a monitor that starts with this configuration.
    pub open spec fn initial(self) -> MonitorView {
        MonitorView {
            window: Seq::empty(),
            capacity: self.window_capacity as nat,
            warning: self.thresholds.spec_warning(),
            critical: self.thresholds.spec_critical(),
            interval_seconds: self.interval_seconds as nat,
        }
    }
}

impl Default for MonitorConfig {
    /// The default thresholds, a tick every 60 seconds, and a window of 5
    /// readings.
    fn default() -> (config: MonitorConfig)
        ensures
            config.thresholds.spec_warning() == DEFAULT_WARNING_PERCENT * UNITS_PER_PERCENT,
            config.thresholds.spec_critical() == DEFAULT_CRITICAL_PERCENT * UNITS_PER_PERCENT,
            config.interval_seconds == DEFAULT_INTERVAL_SECONDS,
            config.window_capacity == DEFAULT_WINDOW_CAPACITY,
    {
        MonitorConfig {
            thresholds: ThresholdConfig::default(),
            interval_seconds: DEFAULT_INTERVAL_SECONDS,
            window_capacity: DEFAULT_WINDOW_CAPACITY,
        }
    }
}

/// The state of a monitor as the contracts see it. Only `window` changes
/// from tick to tick.
pub struct MonitorView {
    pub window: Seq<nat>,
    pub capacity: nat,
    pub warning: nat,
    pub critical: nat,
    pub interval_seconds: nat,
}

impl MonitorView {
    /// What holds of every monitor: the window is within its capacity and
    /// the thresholds are in order.
    pub open spec fn wf(self) -> bool {
        self.window.len() <= self.capacity && self.warning < self.critical
    }

    /// The state after one tick. A reading enters the window; a failed
    /// sample leaves the state as it was.
    pub open spec fn step(self, event: Result<nat, SampleError>) -> MonitorView {
        match event {
            Ok(reading) => MonitorView {
                window: pushed(self.window, self.capacity, reading),
                ..self
            },
            Err(_) => self,
        }
    }

    /// The state after the ticks of `events`, in order.
    pub open spec fn run(self, events: Seq<Result<nat, SampleError>>) -> MonitorView
        decreases events.len(),
    {
        if events.len() == 0 {
            self
        } else {
            self.run(events.drop_last()).step(events.last())
        }
    }

    /// The level of the smoothed value of the window: that of its mean, and
    /// `Normal` while the window is empty.
    pub open spec fn level(self) -> AlertLevel {
        match mean_of(self.window) {
            Some(average) => level_of(average, self.warning, self.critical),
            None => AlertLevel::Normal,
        }
    }
}

/// The readings among `events`, in order, without the failures.
pub open spec fn successes(events: Seq<Result<nat, SampleError>>) -> Seq<nat>
    decreases events.len(),
{
    if events.len() == 0 {
        Seq::empty()
    } else {
        match events.last() {
            Ok(reading) => successes(events.drop_last()).push(reading),
            Err(_) => successes(events.drop_last()),
        }
    }
}

/// The readings of two runs of ticks, one after the other, are the readings
/// of the first followed by those of the second.
pub proof fn lemma_successes_concat(
    first: Seq<Result<nat, SampleError>>,
    second: Seq<Result<nat, SampleError>>,
)
    ensures
        successes(first + second) == successes(first) + successes(second),
    decreases second.len(),
{
    if second.len() > 0 {
        lemma_successes_concat(first, second.drop_last());
        assert((first + second).drop_last() =~= first + second.drop_last());
    }
}

/// Only readings count: after any run of ticks the window is the one that
/// the successful readings alone would have left, fed in their order, and
/// the configuration is as before.
pub proof fn lemma_run_feeds_successes(state: MonitorView, events: Seq<Result<nat, SampleError>>)
    ensures
        state.run(events) == (MonitorView {
            window: fed(state.window, state.capacity, successes(events)),
            ..state
        }),
    decreases events.len(),
{
    if events.len() > 0 {
        lemma_run_feeds_successes(state, events.drop_last());
        if events.last() is Ok {
            assert(successes(events).drop_last() =~= successes(events.drop_last()));
        }
    }
}

/// A failed tick is isolated: a failure anywhere in a run of ticks leaves
/// the same state as the run without it. The window, and with it the mean,
/// is the one that the readings before and after the failure give, in the
/// order of their arrival.
pub proof fn lemma_failed_tick_is_isolated(
    state: MonitorView,
    before: Seq<Result<nat, SampleError>>,
    error: SampleError,
    after: Seq<Result<nat, SampleError>>,
)
    ensures
        state.run(before + seq![Err(error)] + after) == state.run(before + after),
        state.run(before + seq![Err(error)] + after).window == fed(
            state.window,
            state.capacity,
            successes(before) + successes(after),
        ),
        mean_of(state.run(before + seq![Err(error)] + after).window) == mean_of(
            fed(state.window, state.capacity, successes(before) + successes(after)),
        ),
{
    let failure = seq![Err::<nat, SampleError>(error)];
    lemma_run_feeds_successes(state, before + failure + after);
    lemma_run_feeds_successes(state, before + after);
    lemma_successes_concat(before + failure, after);
    lemma_successes_concat(before, failure);
    lemma_successes_concat(before, after);
    assert(successes(failure) =~= Seq::<nat>::empty()) by {
        reveal_with_fuel(successes, 2);
    }
}

/// A sample that fails leaves the state as it was: where the first line of
/// the source has fewer than nine fields after its tag, or one of the first
/// nine does not denote a counter, the sample fails as malformed and the
/// tick changes nothing.
pub proof fn lemma_malformed_line_changes_nothing(state: MonitorView, content: Seq<u8>)
    requires
        fields(first_line(content)).len() <= REQUIRED_COUNTERS || exists|i: int|
            1 <= i <= REQUIRED_COUNTERS && (#[trigger] counter_value(
                fields(first_line(content))[i],
            )) is None,
    ensures
        sampled(Some(content)) == Err::<nat, SampleError>(SampleError::MalformedData),
        state.step(sampled(Some(content))) == state,
{
}

/// Classifying the rounded-down mean loses nothing: the level is the one
/// that the exact mean `total / count` has against the thresholds.
pub proof fn lemma_level_is_exact(state: MonitorView)
    requires
        state.wf(),
        state.window.len() > 0,
    ensures
        state.level() == AlertLevel::Critical <==> total_of(state.window) >= state.critical
            * state.window.len(),
        state.level() == AlertLevel::Warning <==> state.warning * state.window.len() <= total_of(
            state.window,
        ) < state.critical * state.window.len(),
        state.level() == AlertLevel::Normal <==> total_of(state.window) < state.warning
            * state.window.len(),
{
    let total = total_of(state.window);
    let count = state.window.len();
    lemma_floor_reaches(total, count, state.critical);
    lemma_floor_reaches(total, count, state.warning);
}

/// A tick keeps a well-formed state well formed.
pub proof fn lemma_step_keeps_wf(state: MonitorView, event: Result<nat, SampleError>)
    requires
        state.wf(),
    ensures
        state.step(event).wf(),
{
}

/// For whole numbers, `total / count` rounded down reaches `threshold`
/// exactly when `total` reaches `threshold * count`.
proof fn lemma_floor_reaches(total: nat, count: nat, threshold: nat)
    by (nonlinear_arith)
    requires
        count > 0,
    ensures
        total / count >= threshold <==> total >= threshold * count,
{
}

/// What a successful tick reports.
#[derive(Clone, Copy, Debug, PartialEq, Eq)]
pub struct StatusRecord {
    /// The reading of this tick.
    pub reading: StealReading,
    /// How many readings the average was taken over.
    pub samples: usize,
    /// The mean of the window, this tick's reading included; `None` while
    /// the window holds nothing.
    pub average: Option<StealReading>,
    /// The level of the average.
    pub level: AlertLevel,
}

/// What the alert sink is to be told.
#[derive(Clone, Copy, Debug, PartialEq, Eq)]
pub struct Alert {
    pub level: AlertLevel,
    pub message: &'static str,
}

/// What is to be done after a tick.
#[derive(Clone, Copy, Debug, PartialEq, Eq)]
pub struct TickActions {
    /// The record to emit, or the failure to diagnose.
    pub report: Result<StatusRecord, SampleError>,
    /// The alert to raise, if any.
    pub alert: Option<Alert>,
    /// How long to sleep before the next tick.
    pub sleep_seconds: u64,
}

impl TickActions {
    /// Whether these are the actions that a tick owes, given the state it
    /// left behind and the sample it was handed.
    ///
    /// After a reading: the record holds that reading, the size and the mean
    /// of the window and the level of that mean, and an alert is raised
    /// exactly when the level is not `Normal`, with the level and its
    /// advisory. After a failure: the failure is reported and no alert is
    /// raised. Either way the sleep is the configured interval.
    pub open spec fn answers(self, after: MonitorView, event: Result<nat, SampleError>) -> bool {
        &&& self.sleep_seconds == after.interval_seconds
        &&& match event {
            Ok(reading) => {
                &&& self.report matches Ok(record)
                &&& record.reading@ == reading
                &&& record.samples == after.window.len()
                &&& match record.average {
                    Some(average) => mean_of(after.window) == Some(average@),
                    None => mean_of(after.window) is None,
                }
                &&& record.level == after.level()
                &&& match self.alert {
                    Some(alert) => alert.level == record.level && record.level.spec_advisory()
                        == Some(alert.message@),
                    None => record.level == AlertLevel::Normal,
                }
            },
            Err(error) => self.report == Err::<StatusRecord, SampleError>(error)
                && self.alert is None,
        }
    }
}

/// The monitor: the window of recent readings with the configuration that
/// governs it.
#[derive(Debug)]
pub struct Monitor {
    window: SlidingWindow,
    thresholds: ThresholdConfig,
    interval_seconds: u64,
}

impl View for Monitor {
    type V = MonitorView;

    closed spec fn view(&self) -> MonitorView {
        MonitorView {
            window: self.window@,
            capacity: self.window.spec_capacity(),
            warning: self.thresholds.spec_warning(),
            critical: self.thresholds.spec_critical(),
            interval_seconds: self.interval_seconds as nat,
        }
    }
}

impl Monitor {
    /// A monitor with an empty window.
    pub fn new(config: MonitorConfig) -> (monitor: Monitor)
        ensures
            monitor@ == config.initial(),
            monitor@.wf(),
    {
        let monitor = Monitor {
            window: SlidingWindow::new(config.window_capacity),
            thresholds: config.thresholds,
            interval_seconds: config.interval_seconds,
        };
        monitor.recall_invariants();
        monitor
    }

    /// Recalls what holds of every monitor. The window and the thresholds
    /// keep their own invariants, which only their own operations tell.
    fn recall_invariants(&self)
        ensures
            self@.wf(),
    {
        let _ = self.window.len();
        let _ = self.thresholds.warning();
    }

    /// One tick, given what the sampler returned.
    ///
    /// A reading enters the window, which evicts its oldest reading where it
    /// is full; the mean of the window is classified and reported. A failed
    /// sample leaves the window untouched and is reported as it came. The
    /// configuration never changes.
    pub fn tick(&mut self, sample: Result<StealReading, SampleError>) -> (actions: TickActions)
        ensures
            final(self)@ == old(self)@.step(sample_view(sample)),
            final(self)@.wf(),
            actions.answers(final(self)@, sample_view(sample)),
    {
        self.recall_invariants();
        let reading = match sample {
            Ok(reading) => reading,
            Err(error) => {
                return TickActions {
                    report: Err(error),
                    alert: None,
                    sleep_seconds: self.interval_seconds,
                };
            },
        };
        self.window.push(reading);
        let average = self.window.mean();
        let level = match average {
            Some(average) => AlertLevel::classify(average, &self.thresholds),
            None => AlertLevel::Normal,
        };
        let alert = match level.advisory() {
            Some(message) => Some(Alert { level, message }),
            None => None,
        };
        let record = StatusRecord { reading, samples: self.window.len(), average, level };
        TickActions { report: Ok(record), alert, sleep_seconds: self.interval_seconds }
    }

    /// One tick, given what a read of the statistics source returned: the
    /// sample is taken from it and handed to [`Monitor::tick`].
    pub fn observe(&mut self, source: Option<&[u8]>) -> (actions: TickActions)
        ensures
            final(self)@ == old(self)@.step(sampled(source_view(source))),
            final(self)@.wf(),
            actions.answers(final(self)@, sampled(source_view(source))),
    {
        self.tick(sample(source))
    }

    /// The window of recent readings.
    pub fn window(&self) -> (window: &SlidingWindow)
        ensures
            window@ == self@.window,
            window.spec_capacity() == self@.capacity,
    {
        &self.window
    }

    /// The thresholds that the mean is classified against.
    pub fn thresholds(&self) -> (thresholds: ThresholdConfig)
        ensures
            thresholds.spec_warning() == self@.warning,
            thresholds.spec_critical() == self@.critical,
    {
        self.thresholds
    }

    /// Seconds to sleep between two ticks.
    pub fn interval_seconds(&self) -> (seconds: u64)
        ensures
            seconds == self@.interval_seconds,
    {
        self.interval_seconds
    }
}

} // verus!
