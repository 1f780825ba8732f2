//! Decisions of the power logger, which samples the cluster's power draw.
use vstd::prelude::*;

verus! {

/// A power draw above this many watts is reported as a warning.
pub const POWER_WARNING_THRESHOLD: usize = 1450;

/// The pause, in milliseconds, between samples while the application has not
/// reported progress.
pub const IDLE_SAMPLE_INTERVAL_MS: u64 = 10000;

/// What to do with one power sample.
#[derive(Clone, Copy, PartialEq, Eq, Structural)]
pub struct SampleDecision {
    /// Write the sample, with the progress, to the log file.
    pub record: bool,
    /// Report the sample as a power warning.
    pub warn: bool,
    /// Milliseconds to wait before the next sample.
    pub sleep_ms: u64,
}

/// The sampling state of the power logger.
pub struct PowerLogger {
    sample_interval_ms: u64,
}

impl View for PowerLogger {
    type V = u64;

    /// The pause between samples, in milliseconds.
    closed spec fn view(&self) -> u64 {
        self.sample_interval_ms
    }
}

/// The pause between samples after a sample: none once progress is reported.
pub open spec fn next_interval(interval: u64, progress_reported: bool) -> u64 {
    if progress_reported { 0 } else { interval }
}

impl PowerLogger {
    /// A logger that samples every `IDLE_SAMPLE_INTERVAL_MS` until progress is reported.
    pub fn new() -> (l: PowerLogger)
        ensures
            l@ == IDLE_SAMPLE_INTERVAL_MS,
    {
        PowerLogger { sample_interval_ms: IDLE_SAMPLE_INTERVAL_MS }
    }

    /// Decides what to do with the sample `power`, given whether the
    /// application has reported progress. Once progress is reported, samples
    /// follow each other without pause and are all recorded.
    pub fn on_sample(&mut self, power: usize, progress_reported: bool) -> (d: SampleDecision)
        ensures
            final(self)@ == next_interval(old(self)@, progress_reported),
            d.record == progress_reported,
            d.warn == (power > POWER_WARNING_THRESHOLD),
            d.sleep_ms == final(self)@,
    {
        if progress_reported {
            self.sample_interval_ms = 0;
        }
        SampleDecision {
            record: progress_reported,
            warn: power > POWER_WARNING_THRESHOLD,
            sleep_ms: self.sample_interval_ms,
        }
    }
}

/// The pause between samples never grows, and once it is zero (progress was
/// reported) it stays zero.
pub proof fn lemma_interval_never_grows(interval: u64, progress_reported: bool)
    ensures
        next_interval(interval, progress_reported) <= interval,
        interval == 0 ==> next_interval(interval, progress_reported) == 0,
{
}

} // verus!
