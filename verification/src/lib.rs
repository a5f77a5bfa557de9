//! Monitoring of CPU steal time on shared-CPU virtual machines.
//!
//! Steal time is the time a virtual CPU wanted to run while the hypervisor
//! gave the physical CPU to another tenant. This library turns the kernel's
//! aggregate CPU accounting line into a steal-time reading, smooths recent
//! readings over a bounded window, and classifies the smoothed value
//! against a warning and a critical threshold.
//!
//! All quantities are integers. A reading counts millionths of a percent, so
//! that every contract is stated over exact arithmetic.
//!
//! The library decides and computes; it neither reads the statistics source
//! nor the clock, and it neither prints nor sleeps. A program drives it like
//! this:
//!
//! 1. build a [`MonitorConfig`], by hand or with [`settings::configure`], and
//!    a [`Monitor`] from it;
//! 2. once per tick, read the statistics source and hand what was read to
//!    [`Monitor::observe`];
//! 3. carry out the [`TickActions`] it answers with: emit the status line
//!    ([`report::status_line`]) or the diagnostic, raise the alert, sleep.
//!
//! The modules, from the input to the output:
//!
//! - [`stat_line`]: the grammar of the aggregate CPU line;
//! - [`snapshot`]: the counters of one line and the reading they give;
//! - [`sampler`]: from the content of the source to a reading or an error;
//! - [`window`]: the bounded window of recent readings and its mean;
//! - [`alert`]: thresholds and levels;
//! - [`monitor`]: the state machine that a tick advances;
//! - [`report`]: the text of the banner and of the status line;
//! - [`settings`]: the configuration as text.

pub mod alert;
pub mod monitor;
pub mod reading;
pub mod report;
pub mod sampler;
pub mod settings;
pub mod snapshot;
pub mod stat_line;
pub mod window;

pub use alert::{AlertLevel, ThresholdConfig};
pub use monitor::{Alert, Monitor, MonitorConfig, StatusRecord, TickActions};
pub use reading::{StealReading, UNITS_PER_PERCENT};
pub use sampler::SampleError;
pub use snapshot::CpuSnapshot;
pub use window::SlidingWindow;
