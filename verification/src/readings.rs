//! The value objects the caches hold: one current reading and a bounded
//! look-back series of readings.
//!
//! The sensor hands out fixed-point quantities on the wire, so the dashboard
//! keeps them as integers: temperature in hundredths of a degree, pressure in
//! tenths of a hectopascal. The driver that talks to the sensor converts at
//! the edge.

use vstd::prelude::*;

verus! {

/// One sample of the sensor's current values. Immutable once produced; the
/// cache replaces it wholesale on every successful refresh.
#[derive(Clone, Copy, PartialEq, Eq, Structural, Debug)]
pub struct CurrentReading {
    /// CO2 concentration in parts per million.
    pub co2_ppm: u16,
    /// Temperature in hundredths of a degree Celsius.
    pub temperature_centi: i32,
    /// Atmospheric pressure in tenths of a hectopascal.
    pub pressure_deci_hpa: u32,
    /// Relative humidity in whole percent.
    pub humidity_percent: u8,
    /// Capture time, in seconds of whatever clock the caller keeps.
    pub captured_at: u64,
}

impl CurrentReading {
    /// The all-zero reading that the renderer sees before the first
    /// successful refresh: the snapshot is never absent, only empty.
    pub open spec fn spec_empty() -> CurrentReading {
        CurrentReading {
            co2_ppm: 0,
            temperature_centi: 0,
            pressure_deci_hpa: 0,
            humidity_percent: 0,
            captured_at: 0,
        }
    }

    /// Build the all-zero reading.
    pub fn empty() -> (r: CurrentReading)
        ensures
            r == CurrentReading::spec_empty(),
    {
        CurrentReading {
            co2_ppm: 0,
            temperature_centi: 0,
            pressure_deci_hpa: 0,
            humidity_percent: 0,
            captured_at: 0,
        }
    }
}

impl Default for CurrentReading {
    /// Same value as `empty`: the defined default served before any read.
    fn default() -> (r: Self)
        ensures
            r == CurrentReading::spec_empty(),
    {
        CurrentReading::empty()
    }
}

/// The last fetched window of historical samples, oldest first. Unlike the
/// current reading it has no default: "never fetched" must stay
/// distinguishable from "fetched and empty".
#[derive(Debug)]
pub struct HistoricalSeries {
    samples: Vec<CurrentReading>,
}

impl HistoricalSeries {
    /// The samples in order, oldest first.
    pub closed spec fn spec_samples(&self) -> Seq<CurrentReading> {
        self.samples@
    }

    /// An empty series — a real fetch result, distinct from no fetch at all.
    pub fn new() -> (s: HistoricalSeries)
        ensures
            s.spec_samples() == Seq::<CurrentReading>::empty(),
    {
        HistoricalSeries { samples: Vec::new() }
    }

    /// Append one sample at the newest end.
    pub fn push(&mut self, sample: CurrentReading)
        ensures
            final(self).spec_samples() == old(self).spec_samples().push(sample),
    {
        self.samples.push(sample);
    }

    pub fn len(&self) -> (n: usize)
        ensures
            n == self.spec_samples().len(),
    {
        self.samples.len()
    }

    /// The sample at position `i`, oldest first.
    pub fn get(&self, i: usize) -> (r: CurrentReading)
        requires
            i < self.spec_samples().len(),
        ensures
            r == self.spec_samples()[i as int],
    {
        self.samples[i]
    }

    /// An independent copy, used when handing a snapshot out of the cache.
    pub fn snapshot(&self) -> (s: HistoricalSeries)
        ensures
            s.spec_samples() == self.spec_samples(),
    {
        let mut copied: Vec<CurrentReading> = Vec::new();
        let mut i: usize = 0;
        while i < self.samples.len()
            invariant
                i <= self.samples.len(),
                copied@ == self.samples@.subrange(0, i as int),
            decreases self.samples.len() - i,
        {
            copied.push(self.samples[i]);
            i = i + 1;
        }
        proof {
            assert(copied@ =~= self.samples@);
        }
        HistoricalSeries { samples: copied }
    }
}

} // verus!
