//! Sampling: from the content of the kernel's statistics source to a reading.
//!
//! Reading the source is left to the caller. Each sample is computed from the
//! content handed in and from nothing else, so consecutive samples do not
//! influence one another.

use vstd::prelude::*;
use crate::reading::{StealReading, FULL_SCALE};
use crate::snapshot::{lemma_share_bounds, CpuSnapshot};
use crate::stat_line::{first_line, parse_cpu_line, parsed_line, take_first_line};

verus! {

/// Why a sample could not be taken.
#[derive(Clone, Copy, Debug, PartialEq, Eq, Structural)]
pub enum SampleError {
    /// The statistics source could not be read.
    SourceUnavailable,
    /// The source was read, but its first line does not have the expected shape.
    MalformedData,
}

impl SampleError {
    /// The diagnostic that describes this failure.
    pub open spec fn spec_diagnostic(&self) -> Seq<char> {
        match self {
            SampleError::SourceUnavailable =>
                "Failed to read CPU stats - are you running on Linux?"@,
            SampleError::MalformedData =>
                "Failed to read CPU stats - the statistics line is malformed"@,
        }
    }

    /// The diagnostic that describes this failure.
    pub fn diagnostic(&self) -> (message: &'static str)
        ensures
            message@ == self.spec_diagnostic(),
    {
        match self {
            SampleError::SourceUnavailable =>
                "Failed to read CPU stats - are you running on Linux?",
            SampleError::MalformedData =>
                "Failed to read CPU stats - the statistics line is malformed",
        }
    }
}

/// A sample as the contracts see it: the units of the reading, or the error.
pub open spec fn sample_view(sample: Result<StealReading, SampleError>) -> Result<
    nat,
    SampleError,
> {
    match sample {
        Ok(reading) => Ok(reading@),
        Err(error) => Err(error),
    }
}

/// The reading that the content of the statistics source gives: the one of
/// the snapshot on its first line. Every other line is ignored.
pub open spec fn reading_of_content(content: Seq<u8>) -> Result<nat, SampleError> {
    match parsed_line(first_line(content)) {
        Ok(snapshot) => Ok(snapshot.spec_steal_reading()),
        Err(error) => Err(error),
    }
}

/// What a sample yields, given the content of the statistics source, or
/// `None` where the source could not be read.
pub open spec fn sampled(source: Option<Seq<u8>>) -> Result<nat, SampleError> {
    match source {
        Some(content) => reading_of_content(content),
        None => Err(SampleError::SourceUnavailable),
    }
}

/// What a read of the statistics source returned, as the contracts see it.
pub open spec fn source_view(source: Option<&[u8]>) -> Option<Seq<u8>> {
    match source {
        Some(content) => Some(content@),
        None => None,
    }
}

/// A well-formed line reads as steal time's share of the accounted time:
/// with `r` the reading, `r` millionths of a percent is `100 * steal / total`
/// rounded down to a millionth of a percent. It lies between 0 and 100
/// percent.
pub proof fn lemma_reading_of_well_formed_line(content: Seq<u8>, snapshot: CpuSnapshot)
    requires
        parsed_line(first_line(content)) == Ok::<CpuSnapshot, SampleError>(snapshot),
        snapshot.spec_total() > 0,
    ensures
        reading_of_content(content) matches Ok(reading) && reading * snapshot.spec_total()
            <= snapshot.steal * FULL_SCALE < (reading + 1) * snapshot.spec_total() && reading
            <= FULL_SCALE,
{
    lemma_share_bounds(snapshot.steal as nat, snapshot.spec_total(), FULL_SCALE as nat);
}

/// A line whose counters from `user` to `steal` are all zero reads as zero:
/// it is no error, and nothing is divided by zero.
pub proof fn lemma_zero_counters_read_zero(content: Seq<u8>, snapshot: CpuSnapshot)
    requires
        parsed_line(first_line(content)) == Ok::<CpuSnapshot, SampleError>(snapshot),
        snapshot.user == 0,
        snapshot.nice == 0,
        snapshot.system == 0,
        snapshot.idle == 0,
        snapshot.iowait == 0,
        snapshot.irq == 0,
        snapshot.softirq == 0,
        snapshot.steal == 0,
    ensures
        reading_of_content(content) == Ok::<nat, SampleError>(0),
{
}

/// Derives a reading from the content of the statistics source.
///
/// Fails with `MalformedData` exactly when the first line is rejected by
/// [`parse_cpu_line`]; otherwise yields the steal reading of its snapshot.
pub fn sample_from_stat(content: &[u8]) -> (sample: Result<StealReading, SampleError>)
    ensures
        sample_view(sample) == reading_of_content(content@),
{
    match parse_cpu_line(take_first_line(content)) {
        Ok(snapshot) => Ok(snapshot.steal_reading()),
        Err(error) => Err(error),
    }
}

/// Takes one sample from what a read of the statistics source returned.
///
/// Fails with `SourceUnavailable` exactly when there is no content, and with
/// `MalformedData` exactly when there is content that [`sample_from_stat`]
/// rejects.
pub fn sample(source: Option<&[u8]>) -> (sample: Result<StealReading, SampleError>)
    ensures
        sample_view(sample) == sampled(source_view(source)),
{
    match source {
        Some(content) => sample_from_stat(content),
        None => Err(SampleError::SourceUnavailable),
    }
}

} // verus!
