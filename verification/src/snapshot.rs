//! One snapshot of the kernel's aggregate CPU accounting counters, and the
//! steal-time reading derived from it.

use vstd::prelude::*;
use crate::reading::{StealReading, FULL_SCALE};

verus! {

/// The cumulative counters of the aggregate CPU line, in the kernel's order.
///
/// `guest_nice` is present when the line carried a tenth counter.
#[derive(Clone, Copy, Debug, PartialEq, Eq)]
pub struct CpuSnapshot {
    pub user: u64,
    pub nice: u64,
    pub system: u64,
    pub idle: u64,
    pub iowait: u64,
    pub irq: u64,
    pub softirq: u64,
    pub steal: u64,
    pub guest: u64,
    pub guest_nice: Option<u64>,
}

impl CpuSnapshot {
    /// The accounted CPU time: the sum of the counters from `user` to `steal`.
    /// Guest time is already part of user time and is left out.
    pub open spec fn spec_total(&self) -> nat {
        (self.user + self.nice + self.system + self.idle + self.iowait + self.irq + self.softirq
            + self.steal) as nat
    }

    /// Steal time's share of the accounted time in millionths of a percent,
    /// rounded down; zero when nothing was accounted.
    pub open spec fn spec_steal_reading(&self) -> nat {
        if self.spec_total() == 0 {
            0
        } else {
            (self.steal as nat * FULL_SCALE as nat) / self.spec_total()
        }
    }

    /// Computes the accounted CPU time. The sum of eight 64-bit counters
    /// always fits in 128 bits.
    pub fn total(&self) -> (total: u128)
        ensures
            total == self.spec_total(),
    {
        self.user as u128 + self.nice as u128 + self.system as u128 + self.idle as u128
            + self.iowait as u128 + self.irq as u128 + self.softirq as u128 + self.steal as u128
    }

    /// Derives the steal-time reading of this snapshot.
    ///
    /// With `t` the accounted time and `r` the reading, `r / 1_000_000` is the
    /// percentage `100 * steal / t` rounded down to a millionth of a percent.
    /// A snapshot that accounts no time at all reads as zero. Since `steal`
    /// is part of `t`, the reading never exceeds 100 percent.
    pub fn steal_reading(&self) -> (reading: StealReading)
        ensures
            reading@ == self.spec_steal_reading(),
            self.spec_total() == 0 ==> reading@ == 0,
            self.spec_total() > 0 ==> reading@ * self.spec_total() <= self.steal * FULL_SCALE
                < (reading@ + 1) * self.spec_total(),
            reading@ <= FULL_SCALE,
    {
        let total = self.total();
        if total == 0 {
            return StealReading { micro_percent: 0 };
        }
        assert(self.steal * FULL_SCALE <= u128::MAX) by (nonlinear_arith)
            requires
                self.steal <= u64::MAX,
                FULL_SCALE == 100_000_000,
        ;
        let share: u128 = (self.steal as u128 * FULL_SCALE as u128) / total;
        proof {
            lemma_share_bounds(self.steal as nat, total as nat, FULL_SCALE as nat);
        }
        StealReading { micro_percent: share as u64 }
    }
}

/// The share `steal * scale / total` of a part in a whole, rounded down: it
/// is at most `scale`, and it is the largest number whose product with
/// `total` does not exceed `steal * scale`.
pub(crate) proof fn lemma_share_bounds(steal: nat, total: nat, scale: nat)
    by (nonlinear_arith)
    requires
        0 < total,
        steal <= total,
    ensures
        (steal * scale) / total <= scale,
        ((steal * scale) / total) * total <= steal * scale < ((steal * scale) / total + 1) * total,
{
}

} // verus!
