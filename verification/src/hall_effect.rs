//! Hall-effect sensing: oversampling accumulator, calibration state machine,
//! and kinematic analysis of averaged samples.
//!
//! Raw ADC readings are oversampled into one averaged sample per batch. Each
//! averaged sample is classified by a previous-state-dependent threshold
//! policy, and while a magnet is detected the distance, velocity, acceleration
//! and jerk are derived by fixed-order finite differences over a linearization
//! table supplied by the caller.

use vstd::prelude::*;

verus! {

/// Largest magnitude a linearization-table entry may have. Keeping the table
/// within this bound guarantees that every finite difference in the kinematic
/// chain fits in `i16`.
pub const LUT_BOUND: i16 = 4095;

/// A linearization table maps every raw 16-bit sample code to a signed
/// distance, and is bounded so the kinematic chain cannot overflow.
pub open spec fn lut_wf(lut: Seq<i16>) -> bool {
    &&& lut.len() == 0x10000
    &&& forall|i: int| 0 <= i < lut.len() ==> -LUT_BOUND <= #[trigger] lut[i] <= LUT_BOUND
}

/// Thresholds for one group of sensors, fixed at initialization.
#[derive(Clone, Copy, Debug, PartialEq, Eq, Structural)]
pub struct SenseConfig {
    /// Oversampling factor: raw readings per averaged sample.
    pub sc: u8,
    /// Normal mode: minimum magnet threshold (lower readings end calibration).
    pub mmt: u16,
    /// Normal mode: maximum sensor value.
    pub mx: u16,
    /// Calibration mode: minimum valid calibration reading.
    pub mnok: u16,
    /// Calibration mode: maximum valid calibration reading.
    pub mxok: u16,
    /// Calibration mode: no-sensor threshold.
    pub ns: u16,
}

impl SenseConfig {
    /// The oversampling factor must be at least one reading per batch and the
    /// maximum sensor value must not make the normal-mode bound underflow.
    pub open spec fn wf(self) -> bool {
        &&& self.sc >= 1
        &&& self.mx >= 1
    }
}

/// Classification of a sensor position, derived from its averaged samples.
#[derive(Clone, Copy, Debug, PartialEq, Eq, Structural)]
pub enum CalibrationStatus {
    /// Still trying to determine status (from power-on).
    NotReady,
    /// Reading below the no-sensor threshold.
    SensorMissing,
    /// Reading higher than a working sensor can produce.
    SensorBroken,
    /// Magnet detected; analysis is usable.
    MagnetDetected,
    /// Magnet with the wrong pole direction, or missing.
    MagnetWrongPoleOrMissing,
    /// Magnet overpowers the sensor.
    MagnetTooStrong,
    /// Magnet not strong enough, or removed.
    MagnetTooWeak,
    /// Sentinel for out-of-range addressing; never a sensor's own state.
    InvalidIndex,
}

/// The calibration policy: the next status from the current status and a new
/// averaged sample. `MagnetTooStrong` and `MagnetTooWeak` latch: while the
/// sample stays in the range that first caused them, the status is kept
/// rather than degraded to `SensorBroken` or `MagnetWrongPoleOrMissing`.
pub open spec fn next_status(cur: CalibrationStatus, sample: u16, cfg: SenseConfig) -> CalibrationStatus {
    if cur == CalibrationStatus::MagnetDetected {
        // Normal mode.
        if sample >= cfg.mx - 1 {
            CalibrationStatus::MagnetTooStrong
        } else if sample < cfg.mmt {
            CalibrationStatus::MagnetTooWeak
        } else {
            CalibrationStatus::MagnetDetected
        }
    } else {
        // Calibration mode.
        if sample > cfg.mxok {
            if cur == CalibrationStatus::MagnetTooStrong {
                CalibrationStatus::MagnetTooStrong
            } else {
                CalibrationStatus::SensorBroken
            }
        } else if sample < cfg.ns {
            CalibrationStatus::SensorMissing
        } else if sample < cfg.mnok {
            if cur == CalibrationStatus::MagnetTooWeak {
                CalibrationStatus::MagnetTooWeak
            } else {
                CalibrationStatus::MagnetWrongPoleOrMissing
            }
        } else {
            CalibrationStatus::MagnetDetected
        }
    }
}

/// Statistics kept per sensor. `min` and `max` are reset to their sentinel
/// extremes whenever the sensor is not calibrated; `samples` never resets.
#[derive(Clone, Copy, Debug, PartialEq, Eq, Structural)]
pub struct SenseStats {
    /// Minimum averaged sample seen while calibrated.
    pub min: u16,
    /// Maximum averaged sample seen while calibrated.
    pub max: u16,
    /// Lifetime sample counter.
    pub samples: u32,
}

impl SenseStats {
    /// A fresh statistics record: sentinel extremes, no samples counted.
    pub fn new() -> (r: SenseStats)
        ensures
            r == (SenseStats { min: 0xFFFF, max: 0x0000, samples: 0 }),
    {
        SenseStats { min: 0xFFFF, max: 0x0000, samples: 0 }
    }

    /// Reset the resettable statistics (min and max, but not samples).
    pub fn reset(&mut self)
        ensures
            *final(self) == (SenseStats { min: 0xFFFF, max: 0x0000, samples: old(self).samples }),
    {
        self.min = 0xFFFF;
        self.max = 0x0000;
    }

    /// min/max widened by one more averaged sample.
    pub open spec fn spec_update(self, sample: u16) -> SenseStats {
        SenseStats {
            min: if sample < self.min { sample } else { self.min },
            max: if sample > self.max { sample } else { self.max },
            samples: self.samples,
        }
    }
}

/// Oversampling accumulator: a running sum and a count of readings folded in.
#[derive(Clone, Copy, Debug, PartialEq, Eq, Structural)]
pub struct RawData {
    /// Readings accumulated so far in the current batch.
    pub scratch_samples: u8,
    /// Sum of the readings of the current batch.
    pub scratch: u32,
}

impl RawData {
    /// The accumulator never holds a complete batch and its sum is bounded by
    /// the readings it has folded in.
    pub open spec fn wf(self, sc: u8) -> bool {
        &&& self.scratch_samples < sc
        &&& self.scratch <= self.scratch_samples as int * 0xFFFF
    }

    /// An empty accumulator.
    pub fn new() -> (r: RawData)
        ensures
            r == (RawData { scratch_samples: 0, scratch: 0 }),
    {
        RawData { scratch_samples: 0, scratch: 0 }
    }

    /// One accumulation step: fold the reading into the sum; once `sc`
    /// readings are in, yield the truncated average and reset.
    pub open spec fn spec_add(self, reading: u16, sc: u8) -> (RawData, Option<u16>) {
        let sum = self.scratch + reading;
        if self.scratch_samples + 1 == sc {
            (RawData { scratch_samples: 0, scratch: 0 }, Some((sum / sc as int) as u16))
        } else {
            (RawData { scratch_samples: (self.scratch_samples + 1) as u8, scratch: sum as u32 }, None)
        }
    }

    /// Add a reading to the scratch sum. Returns the averaged sample once
    /// `sc` readings have been accumulated, and `None` before that.
    pub fn add(&mut self, reading: u16, sc: u8) -> (r: Option<u16>)
        requires
            sc >= 1,
            old(self).wf(sc),
        ensures
            (*final(self), r) == old(self).spec_add(reading, sc),
            final(self).wf(sc),
    {
        proof {
            assert(self.scratch + reading <= 0xFFFF * (self.scratch_samples as int + 1)) by (nonlinear_arith)
                requires
                    self.scratch <= self.scratch_samples as int * 0xFFFF,
                    reading <= 0xFFFF,
            ;
            assert(0xFFFF * (self.scratch_samples as int + 1) <= 0xFFFF * 255) by (nonlinear_arith)
                requires
                    self.scratch_samples as int + 1 <= 255,
            ;
        }
        self.scratch = self.scratch + reading as u32;
        self.scratch_samples = self.scratch_samples + 1;

        if self.scratch_samples == sc {
            proof {
                assert(self.scratch / sc as u32 <= 0xFFFF) by (nonlinear_arith)
                    requires
                        sc >= 1,
                        self.scratch <= sc as int * 0xFFFF,
                ;
            }
            let val = self.scratch / sc as u32;
            self.scratch = 0;
            self.scratch_samples = 0;
            Some(val as u16)
        } else {
            None
        }
    }
}

/// Kinematic analysis of one sensor: latest averaged sample and the signed
/// finite differences derived from it.
///
/// With one scan cycle as the unit of time:
/// distance is the linearized sample minus the linearized calibrated minimum,
/// velocity is the change of distance, acceleration is half the change of
/// velocity (truncated toward zero), and jerk is the change of acceleration
/// left un-scaled: a threshold compared against jerk must be pre-multiplied
/// by 3 to compensate for the missing division.
#[derive(Clone, Copy, Debug, PartialEq, Eq, Structural)]
pub struct SenseAnalysis {
    /// Latest averaged sample.
    pub raw: u16,
    /// Linearized distance, zero at the calibrated minimum.
    pub distance: i16,
    /// First finite difference of distance.
    pub velocity: i16,
    /// Half the finite difference of velocity, truncated toward zero.
    pub acceleration: i16,
    /// Finite difference of acceleration.
    pub jerk: i16,
}

/// Division by two truncated toward zero, as Rust's `/` computes it.
pub open spec fn div2_toward_zero(x: int) -> int {
    if x >= 0 {
        x / 2
    } else {
        -((-x) / 2)
    }
}

/// The bounds every analysis produced from a well-formed linearization table
/// satisfies; they keep the whole kinematic chain free of overflow.
pub open spec fn analysis_wf(a: SenseAnalysis) -> bool {
    &&& -8190 <= a.distance <= 8190
    &&& -16380 <= a.velocity <= 16380
    &&& -16380 <= a.acceleration <= 16380
    &&& -32760 <= a.jerk <= 32760
}

/// The all-zero analysis: "no usable analysis yet."
pub open spec fn null_analysis() -> SenseAnalysis {
    SenseAnalysis { raw: 0, distance: 0, velocity: 0, acceleration: 0, jerk: 0 }
}

/// The kinematic chain: the next analysis from a new averaged sample, the
/// previous analysis, the calibrated minimum and the linearization table.
pub open spec fn kinematics(raw: u16, prev: SenseAnalysis, min: u16, lut: Seq<i16>) -> SenseAnalysis {
    let distance = lut[raw as int] - lut[min as int];
    let velocity = distance - prev.distance;
    let acceleration = div2_toward_zero(velocity - prev.velocity);
    let jerk = acceleration - prev.acceleration;
    SenseAnalysis {
        raw,
        distance: distance as i16,
        velocity: velocity as i16,
        acceleration: acceleration as i16,
        jerk: jerk as i16,
    }
}

/// What `SenseAnalysis::new` returns: the kinematic chain when a magnet is
/// detected, the null analysis otherwise.
pub open spec fn spec_analysis(raw: u16, data: SenseData, lut: Seq<i16>) -> SenseAnalysis {
    if data.cal == CalibrationStatus::MagnetDetected {
        kinematics(raw, data.analysis, data.stats.min, lut)
    } else {
        null_analysis()
    }
}

impl SenseAnalysis {
    /// Derive the next analysis from the raw averaged sample and the previous
    /// sensor record, looking distances up in `lut`. Returns the null
    /// analysis unless the record's status is `MagnetDetected`.
    pub fn new(raw: u16, data: &SenseData, lut: &[i16]) -> (r: SenseAnalysis)
        requires
            lut_wf(lut@),
            analysis_wf(data.analysis),
        ensures
            r == spec_analysis(raw, *data, lut@),
            analysis_wf(r),
    {
        let distance_offset = match data.cal {
            CalibrationStatus::MagnetDetected => lut[data.stats.min as usize],
            _ => {
                // Invalid reading.
                return SenseAnalysis::null();
            },
        };
        let initial_distance = lut[raw as usize];
        let distance = initial_distance - distance_offset;
        let velocity = distance - data.analysis.distance;
        let diff = velocity - data.analysis.velocity;
        let acceleration = if diff >= 0 {
            diff / 2
        } else {
            -((-diff) / 2)
        };
        let jerk = acceleration - data.analysis.acceleration;
        SenseAnalysis { raw, distance, velocity, acceleration, jerk }
    }

    /// The null analysis: all fields zero.
    pub fn null() -> (r: SenseAnalysis)
        ensures
            r == null_analysis(),
    {
        SenseAnalysis { raw: 0, distance: 0, velocity: 0, acceleration: 0, jerk: 0 }
    }
}

/// Signals of the sensing pipeline that are not analyses.
#[derive(Clone, Copy, Debug, PartialEq, Eq, Structural)]
pub enum SensorError {
    /// The sensor is not usable this cycle; carries a snapshot of its record.
    CalibrationError(SenseData),
    /// The backing storage could not be sized to the requested capacity.
    FailedToResize(usize),
    /// Sensor index out of the array's bounds.
    InvalidSensor(usize),
}

/// Everything stored per sensor: analysis, calibration status, accumulator
/// and statistics.
#[derive(Clone, Copy, Debug, PartialEq, Eq, Structural)]
pub struct SenseData {
    /// Latest kinematic analysis; null unless `cal` is `MagnetDetected`.
    pub analysis: SenseAnalysis,
    /// Calibration status computed from the latest averaged sample.
    pub cal: CalibrationStatus,
    /// Oversampling accumulator.
    pub data: RawData,
    /// Per-sensor statistics.
    pub stats: SenseStats,
}

/// The initial record of every sensor.
pub open spec fn initial_sense_data() -> SenseData {
    SenseData {
        analysis: null_analysis(),
        cal: CalibrationStatus::NotReady,
        data: RawData { scratch_samples: 0, scratch: 0 },
        stats: SenseStats { min: 0xFFFF, max: 0x0000, samples: 0 },
    }
}

/// What one call of `SenseData::add` does: the record after the call and the
/// value returned.
pub open spec fn data_step(d: SenseData, reading: u16, cfg: SenseConfig, lut: Seq<i16>) -> (SenseData, Result<Option<SenseAnalysis>, SensorError>) {
    let (acc, out) = d.data.spec_add(reading, cfg.sc);
    match out {
        None => (SenseData { data: acc, ..d }, Ok(None)),
        Some(sample) => {
            let stats = d.stats.spec_update(sample);
            let status = next_status(d.cal, sample, cfg);
            if status == CalibrationStatus::MagnetDetected {
                let analysis = kinematics(sample, d.analysis, stats.min, lut);
                (SenseData { analysis, cal: status, data: acc, stats }, Ok(Some(analysis)))
            } else {
                let reset = SenseData {
                    analysis: SenseAnalysis { raw: sample, ..null_analysis() },
                    cal: status,
                    data: acc,
                    stats: SenseStats { min: 0xFFFF, max: 0x0000, samples: stats.samples },
                };
                (reset, Err(SensorError::CalibrationError(reset)))
            }
        },
    }
}

impl SenseData {
    /// A record is well-formed when its accumulator respects the oversampling
    /// factor and its analysis respects the kinematic bounds.
    pub open spec fn wf(self, cfg: SenseConfig) -> bool {
        &&& self.data.wf(cfg.sc)
        &&& analysis_wf(self.analysis)
    }

    /// A sensor record in its power-on state.
    pub fn new() -> (r: SenseData)
        ensures
            r == initial_sense_data(),
    {
        SenseData {
            analysis: SenseAnalysis::null(),
            cal: CalibrationStatus::NotReady,
            data: RawData::new(),
            stats: SenseStats::new(),
        }
    }

    /// Classify a new averaged sample from the current status and the
    /// configured thresholds.
    pub fn check_calibration(&self, sample: u16, cfg: &SenseConfig) -> (r: CalibrationStatus)
        requires
            cfg.wf(),
        ensures
            r == next_status(self.cal, sample, *cfg),
    {
        match self.cal {
            // Normal mode.
            CalibrationStatus::MagnetDetected => {
                // Value too high: overpowers the sensor (recalibrate).
                if sample >= cfg.mx - 1 {
                    return CalibrationStatus::MagnetTooStrong;
                }
                // Value too low (recalibrate).
                if sample < cfg.mmt {
                    return CalibrationStatus::MagnetTooWeak;
                }
                CalibrationStatus::MagnetDetected
            },
            // Calibration mode.
            _ => {
                // Value too high: bad sensor, bad soldering, or a magnet that
                // is too strong.
                if sample > cfg.mxok {
                    if self.cal == CalibrationStatus::MagnetTooStrong {
                        return CalibrationStatus::MagnetTooStrong;
                    }
                    return CalibrationStatus::SensorBroken;
                }
                // No sensor detected.
                if sample < cfg.ns {
                    return CalibrationStatus::SensorMissing;
                }
                // Wrong pole, or the magnet may be too weak.
                if sample < cfg.mnok {
                    if self.cal == CalibrationStatus::MagnetTooWeak {
                        return CalibrationStatus::MagnetTooWeak;
                    }
                    return CalibrationStatus::MagnetWrongPoleOrMissing;
                }
                CalibrationStatus::MagnetDetected
            },
        }
    }

    /// Accumulate a new raw reading. Before a batch of `cfg.sc` readings is
    /// complete this returns `Ok(None)`. On batch completion the averaged
    /// sample widens min/max, is classified, and either yields a fresh
    /// analysis (`Ok(Some(..))`) or, when the status is anything but
    /// `MagnetDetected`, resets the resettable state and reports a
    /// calibration error carrying the record's snapshot.
    pub fn add(&mut self, reading: u16, cfg: &SenseConfig, lut: &[i16]) -> (r: Result<Option<SenseAnalysis>, SensorError>)
        requires
            cfg.wf(),
            lut_wf(lut@),
            old(self).wf(*cfg),
        ensures
            (*final(self), r) == data_step(*old(self), reading, *cfg, lut@),
            final(self).wf(*cfg),
    {
        if let Some(sample) = self.data.add(reading, cfg.sc) {
            // Check min/max values.
            if sample > self.stats.max {
                self.stats.max = sample;
            }
            if sample < self.stats.min {
                self.stats.min = sample;
            }

            // Check calibration.
            self.cal = self.check_calibration(sample, cfg);
            match self.cal {
                CalibrationStatus::MagnetDetected => {},
                // Skip the calculations while the magnet+sensor is not ready.
                _ => {
                    // Reset min/max.
                    self.stats.reset();
                    // Clear the analysis, keeping only the triggering sample.
                    self.analysis = SenseAnalysis::null();
                    self.analysis.raw = sample;
                    return Err(SensorError::CalibrationError(*self));
                },
            }

            // A new analysis needs the previous results and the fresh min.
            self.analysis = SenseAnalysis::new(sample, self, lut);
            Ok(Some(self.analysis))
        } else {
            Ok(None)
        }
    }
}

/// Kinematic chain law: with a bounded linearization table and a bounded
/// previous analysis, no finite difference overflows, so the fields of the
/// next analysis satisfy the chain exactly: distance is the linearized sample
/// less the linearized minimum, velocity is the change of distance,
/// acceleration is half the change of velocity truncated toward zero, and
/// jerk is the change of acceleration.
pub proof fn lemma_kinematic_chain(raw: u16, prev: SenseAnalysis, min: u16, lut: Seq<i16>)
    requires
        lut_wf(lut),
        analysis_wf(prev),
    ensures
        ({
            let a = kinematics(raw, prev, min, lut);
            &&& a.raw == raw
            &&& a.distance == lut[raw as int] - lut[min as int]
            &&& a.velocity == a.distance - prev.distance
            &&& a.acceleration == div2_toward_zero(a.velocity - prev.velocity)
            &&& a.jerk == a.acceleration - prev.acceleration
            &&& analysis_wf(a)
        }),
{
}

/// Sum of a sequence of raw readings.
pub open spec fn sum_readings(s: Seq<u16>) -> int
    decreases s.len(),
{
    if s.len() == 0 {
        0
    } else {
        sum_readings(s.drop_last()) + s.last()
    }
}

/// The accumulator after folding in a sequence of readings, oldest first.
pub open spec fn acc_run(r: RawData, readings: Seq<u16>, sc: u8) -> RawData
    decreases readings.len(),
{
    if readings.len() == 0 {
        r
    } else {
        acc_run(r, readings.drop_last(), sc).spec_add(readings.last(), sc).0
    }
}

/// An empty accumulator fed a strict prefix of a batch holds exactly the
/// count and the sum of that prefix.
pub proof fn lemma_accumulator_prefix(readings: Seq<u16>, sc: u8, j: int)
    requires
        1 <= sc,
        0 <= j < sc,
        j <= readings.len(),
    ensures
        0 <= sum_readings(readings.take(j)) <= j * 0xFFFF,
        acc_run(RawData { scratch_samples: 0, scratch: 0 }, readings.take(j), sc)
            == (RawData { scratch_samples: j as u8, scratch: sum_readings(readings.take(j)) as u32 }),
    decreases j,
{
    if j == 0 {
        assert(readings.take(0) =~= Seq::<u16>::empty());
    } else {
        lemma_accumulator_prefix(readings, sc, j - 1);
        assert(readings.take(j).drop_last() =~= readings.take(j - 1));
        assert(readings.take(j).last() == readings[j - 1]);
    }
}

/// Every batch of `sc` readings fed to an empty accumulator yields exactly
/// one averaged sample: nothing before the last reading of the batch, then
/// the floor of the batch's sum divided by `sc`, after which the accumulator
/// is empty again, so successive batches behave identically.
pub proof fn lemma_accumulator_batch(readings: Seq<u16>, sc: u8)
    requires
        1 <= sc,
        readings.len() == sc,
    ensures
        forall|j: int| 0 <= j < sc - 1
            ==> (#[trigger] acc_run(RawData { scratch_samples: 0, scratch: 0 }, readings.take(j), sc))
                .spec_add(readings[j], sc).1 == None::<u16>,
        acc_run(RawData { scratch_samples: 0, scratch: 0 }, readings.take(sc - 1), sc)
            .spec_add(readings[sc - 1], sc)
            == (RawData { scratch_samples: 0, scratch: 0 },
                Some((sum_readings(readings) / sc as int) as u16)),
        acc_run(RawData { scratch_samples: 0, scratch: 0 }, readings, sc)
            == (RawData { scratch_samples: 0, scratch: 0 }),
        0 <= sum_readings(readings) / sc as int <= 0xFFFF,
{
    let init = RawData { scratch_samples: 0, scratch: 0 };
    assert forall|j: int| 0 <= j < sc - 1 implies (#[trigger] acc_run(init, readings.take(j), sc))
        .spec_add(readings[j], sc).1 == None::<u16> by {
        lemma_accumulator_prefix(readings, sc, j);
    }
    lemma_accumulator_prefix(readings, sc, sc - 1);
    assert(readings.take(sc as int).drop_last() =~= readings.take(sc - 1));
    assert(readings.take(sc as int) =~= readings);
    assert(sum_readings(readings) == sum_readings(readings.take(sc - 1)) + readings[sc - 1]);
    assert((sc - 1) * 0xFFFF + 0xFFFF == sc * 0xFFFF) by (nonlinear_arith);
    assert(sum_readings(readings) / sc as int <= 0xFFFF) by (nonlinear_arith)
        requires
            sc >= 1,
            0 <= sum_readings(readings) <= sc * 0xFFFF,
    ;
}

/// Whether each sample is strictly larger than every sample before it.
pub open spec fn strictly_increasing(s: Seq<u16>) -> bool {
    forall|i: int, j: int| 0 <= i < j < s.len() ==> s[i] < s[j]
}

/// The statuses a sensor passes through while classifying a sequence of
/// averaged samples, one status per sample.
pub open spec fn status_trace(cur: CalibrationStatus, samples: Seq<u16>, cfg: SenseConfig) -> Seq<CalibrationStatus>
    decreases samples.len(),
{
    if samples.len() == 0 {
        Seq::empty()
    } else {
        let first = next_status(cur, samples[0], cfg);
        seq![first] + status_trace(first, samples.drop_first(), cfg)
    }
}

/// A trace classifies every sample exactly once.
pub proof fn lemma_status_trace_len(cur: CalibrationStatus, samples: Seq<u16>, cfg: SenseConfig)
    ensures
        status_trace(cur, samples, cfg).len() == samples.len(),
    decreases samples.len(),
{
    if samples.len() > 0 {
        let first = next_status(cur, samples[0], cfg);
        lemma_status_trace_len(first, samples.drop_first(), cfg);
    }
}

/// No classification ever returns a sensor to `NotReady`, and the
/// out-of-range sentinel is never a sensor's own state.
pub proof fn lemma_status_never_initial(cur: CalibrationStatus, sample: u16, cfg: SenseConfig)
    ensures
        next_status(cur, sample, cfg) != CalibrationStatus::NotReady,
        next_status(cur, sample, cfg) != CalibrationStatus::InvalidIndex,
{
}

/// No status in a trace is ever `NotReady` or `InvalidIndex`: classification
/// never returns a sensor to its power-on state.
pub proof fn lemma_trace_never_initial(cur: CalibrationStatus, samples: Seq<u16>, cfg: SenseConfig)
    ensures
        forall|i: int| 0 <= i < samples.len()
            ==> status_trace(cur, samples, cfg)[i] != CalibrationStatus::NotReady
                && status_trace(cur, samples, cfg)[i] != CalibrationStatus::InvalidIndex,
    decreases samples.len(),
{
    if samples.len() > 0 {
        let first = next_status(cur, samples[0], cfg);
        let rest = samples.drop_first();
        lemma_trace_never_initial(first, rest, cfg);
        lemma_status_trace_len(first, rest, cfg);
    }
}

/// Calibration-mode table: from any unlatched state that is not
/// `MagnetDetected`, the classification of a sample depends on the thresholds
/// alone: above the valid window the sensor is broken, below the no-sensor
/// threshold it is missing, in the wrong-pole band the pole is wrong, and
/// inside the valid window the magnet is detected.
pub proof fn lemma_calibration_mode(cur: CalibrationStatus, sample: u16, cfg: SenseConfig)
    requires
        cur != CalibrationStatus::MagnetDetected,
        cur != CalibrationStatus::MagnetTooStrong,
        cur != CalibrationStatus::MagnetTooWeak,
    ensures
        sample > cfg.mxok ==> next_status(cur, sample, cfg) == CalibrationStatus::SensorBroken,
        sample < cfg.ns && sample <= cfg.mxok
            ==> next_status(cur, sample, cfg) == CalibrationStatus::SensorMissing,
        cfg.ns <= sample < cfg.mnok && sample <= cfg.mxok
            ==> next_status(cur, sample, cfg) == CalibrationStatus::MagnetWrongPoleOrMissing,
        cfg.mnok <= sample <= cfg.mxok && cfg.ns <= sample
            ==> next_status(cur, sample, cfg) == CalibrationStatus::MagnetDetected,
{
}

/// Helper for the ramp law: while the status is not `MagnetTooWeak` and a
/// detected magnet has already shown a sample at or above the minimum magnet
/// threshold, a strictly increasing ramp can never classify as
/// `MagnetTooWeak`.
proof fn lemma_ramp_helper(cur: CalibrationStatus, samples: Seq<u16>, cfg: SenseConfig)
    requires
        cfg.mmt <= cfg.mnok,
        strictly_increasing(samples),
        cur != CalibrationStatus::MagnetTooWeak,
        cur == CalibrationStatus::MagnetDetected && samples.len() > 0 ==> samples[0] >= cfg.mmt,
    ensures
        forall|i: int| 0 <= i < samples.len()
            ==> status_trace(cur, samples, cfg)[i] != CalibrationStatus::MagnetTooWeak,
    decreases samples.len(),
{
    if samples.len() > 0 {
        let first = next_status(cur, samples[0], cfg);
        let rest = samples.drop_first();
        assert(strictly_increasing(rest)) by {
            assert forall|i: int, j: int| 0 <= i < j < rest.len() implies rest[i] < rest[j] by {
                assert(rest[i] == samples[i + 1]);
                assert(rest[j] == samples[j + 1]);
            }
        }
        if first == CalibrationStatus::MagnetDetected && rest.len() > 0 {
            assert(rest[0] == samples[1]);
            assert(samples[0] < samples[1]);
        }
        lemma_ramp_helper(first, rest, cfg);
        lemma_status_trace_len(first, rest, cfg);
        assert forall|i: int| 0 <= i < samples.len() implies status_trace(cur, samples, cfg)[i]
            != CalibrationStatus::MagnetTooWeak by {
            if i > 0 {
                assert(status_trace(cur, samples, cfg)[i] == status_trace(first, rest, cfg)[i - 1]);
            }
        }
    }
}

/// Ramp law: starting from `NotReady`, a strictly increasing sequence of
/// averaged samples can only pass through the calibration-mode states and
/// the normal-mode states reached from above; `MagnetTooWeak` is never
/// visited, provided the minimum magnet threshold does not exceed the
/// minimum valid calibration reading.
pub proof fn lemma_ramp_never_too_weak(samples: Seq<u16>, cfg: SenseConfig)
    requires
        cfg.mmt <= cfg.mnok,
        strictly_increasing(samples),
    ensures
        forall|i: int| 0 <= i < samples.len()
            ==> status_trace(CalibrationStatus::NotReady, samples, cfg)[i]
                != CalibrationStatus::MagnetTooWeak,
{
    lemma_ramp_helper(CalibrationStatus::NotReady, samples, cfg);
}

/// Normal-mode law: once a magnet is detected, a sample at or above one less
/// than the maximum sensor value forces `MagnetTooStrong`, a lower sample
/// under the minimum magnet threshold forces `MagnetTooWeak`, and anything
/// strictly between keeps `MagnetDetected`.
pub proof fn lemma_normal_mode(sample: u16, cfg: SenseConfig)
    requires
        cfg.wf(),
    ensures
        sample >= cfg.mx - 1
            ==> next_status(CalibrationStatus::MagnetDetected, sample, cfg)
                == CalibrationStatus::MagnetTooStrong,
        sample < cfg.mx - 1 && sample < cfg.mmt
            ==> next_status(CalibrationStatus::MagnetDetected, sample, cfg)
                == CalibrationStatus::MagnetTooWeak,
        cfg.mmt <= sample < cfg.mx - 1
            ==> next_status(CalibrationStatus::MagnetDetected, sample, cfg)
                == CalibrationStatus::MagnetDetected,
{
}

/// Latching law: a sensor classified `MagnetTooStrong` stays so while the
/// sample is above the maximum valid calibration reading, and never regresses
/// to `SensorBroken`; symmetrically, `MagnetTooWeak` stays so while the
/// sample sits in the wrong-pole band, and never regresses to
/// `MagnetWrongPoleOrMissing`.
pub proof fn lemma_latching(sample: u16, cfg: SenseConfig)
    ensures
        sample > cfg.mxok
            ==> next_status(CalibrationStatus::MagnetTooStrong, sample, cfg)
                == CalibrationStatus::MagnetTooStrong,
        cfg.ns <= sample < cfg.mnok && sample <= cfg.mxok
            ==> next_status(CalibrationStatus::MagnetTooWeak, sample, cfg)
                == CalibrationStatus::MagnetTooWeak,
{
}

/// Reset law: whenever a completed batch classifies as anything but
/// `MagnetDetected`, the record that `SenseData::add` leaves behind has its
/// min/max statistics back at their sentinel extremes, its lifetime sample
/// counter untouched, and its analysis cleared except for the triggering
/// sample.
pub proof fn lemma_stats_reset_outside_detection(d: SenseData, reading: u16, cfg: SenseConfig, lut: Seq<i16>)
    ensures
        ({
            let out = d.data.spec_add(reading, cfg.sc).1;
            let stepped = data_step(d, reading, cfg, lut).0;
            out matches Some(sample) ==> next_status(d.cal, sample, cfg) != CalibrationStatus::MagnetDetected
                ==> {
                    &&& stepped.stats.min == 0xFFFF
                    &&& stepped.stats.max == 0x0000
                    &&& stepped.stats.samples == d.stats.samples
                    &&& stepped.analysis == (SenseAnalysis { raw: sample, ..null_analysis() })
                }
        }),
{
}

impl Default for SenseData {
    /// Same record as `SenseData::new`.
    fn default() -> (r: Self)
        ensures
            r == initial_sense_data(),
    {
        SenseData::new()
    }
}

} // verus!
