//! Tests of the Hall-effect engine: accumulator, calibration state machine,
//! kinematic chain and the sensor array.

use kiibohd_core::hall_effect::{
    CalibrationStatus, RawData, SenseAnalysis, SenseConfig, SenseData, SenseStats, SensorError,
};
use kiibohd_core::sensors::{Sensors, MAX_SENSORS};

fn test_config() -> SenseConfig {
    SenseConfig { sc: 1, mmt: 150, mx: 2000, mnok: 200, mxok: 1000, ns: 100 }
}

/// A linearization table over the full raw domain: identity up to the bound,
/// clamped above it.
fn test_lut() -> Vec<i16> {
    let mut lut = Vec::with_capacity(0x10000);
    for i in 0..0x10000usize {
        lut.push(if i <= 4095 { i as i16 } else { 4095 });
    }
    lut
}

#[test]
fn accumulator_yields_one_average_per_batch() {
    let mut acc = RawData::new();
    assert_eq!(acc.add(10, 4), None);
    assert_eq!(acc.add(20, 4), None);
    assert_eq!(acc.add(30, 4), None);
    // (10 + 20 + 30 + 41) / 4 = 101 / 4 = 25, truncated.
    assert_eq!(acc.add(41, 4), Some(25));
    // The accumulator reset, so a second batch behaves identically.
    assert_eq!(acc.scratch_samples, 0);
    assert_eq!(acc.scratch, 0);
    assert_eq!(acc.add(100, 4), None);
    assert_eq!(acc.add(100, 4), None);
    assert_eq!(acc.add(100, 4), None);
    assert_eq!(acc.add(100, 4), Some(100));
}

#[test]
fn accumulator_single_sample_factor() {
    let mut acc = RawData::new();
    assert_eq!(acc.add(1234, 1), Some(1234));
    assert_eq!(acc.add(0xFFFF, 1), Some(0xFFFF));
}

#[test]
fn ramp_visits_missing_wrong_pole_detected() {
    let cfg = test_config();
    let lut = test_lut();
    let mut d = SenseData::new();
    assert_eq!(d.cal, CalibrationStatus::NotReady);

    // Below NS: no sensor.
    let r = d.add(50, &cfg, &lut);
    assert!(matches!(r, Err(SensorError::CalibrationError(_))));
    assert_eq!(d.cal, CalibrationStatus::SensorMissing);

    // Between NS and MNOK: wrong pole.
    let r = d.add(150, &cfg, &lut);
    assert!(matches!(r, Err(SensorError::CalibrationError(_))));
    assert_eq!(d.cal, CalibrationStatus::MagnetWrongPoleOrMissing);

    // Between MNOK and MXOK: detected.
    let r = d.add(500, &cfg, &lut);
    assert!(r.is_ok());
    assert_eq!(d.cal, CalibrationStatus::MagnetDetected);

    // Once detected, a sample above MXOK but under MX - 1 stays detected:
    // normal mode no longer uses the calibration thresholds.
    let r = d.add(1100, &cfg, &lut);
    assert!(r.is_ok());
    assert_eq!(d.cal, CalibrationStatus::MagnetDetected);
}

#[test]
fn ramp_without_detection_reaches_broken() {
    let cfg = test_config();
    let lut = test_lut();
    let mut d = SenseData::new();

    let _ = d.add(50, &cfg, &lut);
    assert_eq!(d.cal, CalibrationStatus::SensorMissing);
    let _ = d.add(150, &cfg, &lut);
    assert_eq!(d.cal, CalibrationStatus::MagnetWrongPoleOrMissing);
    // Jumping over the valid window while still in calibration mode.
    let _ = d.add(1100, &cfg, &lut);
    assert_eq!(d.cal, CalibrationStatus::SensorBroken);
}

#[test]
fn normal_mode_thresholds() {
    let cfg = test_config();
    let base = SenseData {
        cal: CalibrationStatus::MagnetDetected,
        ..SenseData::new()
    };
    // At MX - 1 or higher: too strong.
    assert_eq!(base.check_calibration(1999, &cfg), CalibrationStatus::MagnetTooStrong);
    assert_eq!(base.check_calibration(0xFFFF, &cfg), CalibrationStatus::MagnetTooStrong);
    // Below MMT: too weak.
    assert_eq!(base.check_calibration(149, &cfg), CalibrationStatus::MagnetTooWeak);
    assert_eq!(base.check_calibration(0, &cfg), CalibrationStatus::MagnetTooWeak);
    // Strictly between: stays detected.
    assert_eq!(base.check_calibration(150, &cfg), CalibrationStatus::MagnetDetected);
    assert_eq!(base.check_calibration(1000, &cfg), CalibrationStatus::MagnetDetected);
    assert_eq!(base.check_calibration(1998, &cfg), CalibrationStatus::MagnetDetected);
}

#[test]
fn too_strong_latches_over_mxok() {
    let cfg = test_config();
    let strong = SenseData {
        cal: CalibrationStatus::MagnetTooStrong,
        ..SenseData::new()
    };
    // Above MXOK the status stays MagnetTooStrong, never SensorBroken.
    assert_eq!(strong.check_calibration(1500, &cfg), CalibrationStatus::MagnetTooStrong);
    // Back inside the valid window it recovers.
    assert_eq!(strong.check_calibration(500, &cfg), CalibrationStatus::MagnetDetected);
}

#[test]
fn too_weak_latches_under_mnok() {
    let cfg = test_config();
    let weak = SenseData {
        cal: CalibrationStatus::MagnetTooWeak,
        ..SenseData::new()
    };
    // In the wrong-pole band the status stays MagnetTooWeak.
    assert_eq!(weak.check_calibration(180, &cfg), CalibrationStatus::MagnetTooWeak);
    // Without the latch the same sample classifies as wrong pole.
    let fresh = SenseData::new();
    assert_eq!(fresh.check_calibration(180, &cfg), CalibrationStatus::MagnetWrongPoleOrMissing);
}

#[test]
fn stats_reset_when_leaving_detected() {
    let cfg = test_config();
    let lut = test_lut();
    let mut d = SenseData::new();

    // Calibrate.
    let _ = d.add(500, &cfg, &lut);
    assert_eq!(d.cal, CalibrationStatus::MagnetDetected);
    let _ = d.add(600, &cfg, &lut);
    assert_eq!(d.stats.min, 500);
    assert_eq!(d.stats.max, 600);

    // A sample below MMT forces MagnetTooWeak and resets min/max.
    let r = d.add(50, &cfg, &lut);
    assert_eq!(d.cal, CalibrationStatus::MagnetTooWeak);
    assert_eq!(d.stats.min, 0xFFFF);
    assert_eq!(d.stats.max, 0x0000);
    // The analysis is cleared except for the triggering sample.
    assert_eq!(d.analysis.raw, 50);
    assert_eq!(d.analysis.distance, 0);
    assert_eq!(d.analysis.velocity, 0);
    // The error carries the snapshot of the record after the reset.
    match r {
        Err(SensorError::CalibrationError(snapshot)) => assert_eq!(snapshot, d),
        other => panic!("expected a calibration error, got {:?}", other),
    }
}

#[test]
fn kinematic_chain_concrete_sequence() {
    let cfg = SenseConfig { sc: 1, mmt: 15, mx: 4000, mnok: 20, mxok: 3000, ns: 10 };
    let lut = test_lut();
    let mut d = SenseData::new();

    // Samples 100, 102, 105, 109 give distances 0, 2, 5, 9 (the minimum is
    // calibrated at 100).
    let a0 = d.add(100, &cfg, &lut).unwrap().unwrap();
    assert_eq!(a0.distance, 0);

    let a1 = d.add(102, &cfg, &lut).unwrap().unwrap();
    assert_eq!(a1.distance, 2);
    assert_eq!(a1.velocity, 2);

    let a2 = d.add(105, &cfg, &lut).unwrap().unwrap();
    assert_eq!(a2.distance, 5);
    assert_eq!(a2.velocity, 3);
    // (3 - 2) / 2 truncates to 0.
    assert_eq!(a2.acceleration, 0);

    let a3 = d.add(109, &cfg, &lut).unwrap().unwrap();
    assert_eq!(a3.distance, 9);
    assert_eq!(a3.velocity, 4);
    assert_eq!(a3.acceleration, 0);
    assert_eq!(a3.jerk, 0);
}

#[test]
fn analysis_null_outside_detection() {
    let lut = test_lut();
    let d = SenseData::new();
    // NotReady: the analysis is the null analysis.
    let a = SenseAnalysis::new(300, &d, &lut);
    assert_eq!(a, SenseAnalysis::null());
    assert_eq!(a.raw, 0);
}

#[test]
fn analysis_truncating_division_toward_zero() {
    let lut = test_lut();
    // A detected record with a negative velocity delta: (-3) / 2 must be -1
    // (truncation toward zero), not -2 (floor).
    let d = SenseData {
        analysis: SenseAnalysis { raw: 105, distance: 5, velocity: 5, acceleration: 0, jerk: 0 },
        cal: CalibrationStatus::MagnetDetected,
        data: RawData::new(),
        stats: SenseStats { min: 100, max: 105, samples: 0 },
    };
    // Sample 102: distance 2, velocity 2 - 5 = -3, acceleration (-3 - 5)/2 = -4.
    let a = SenseAnalysis::new(102, &d, &lut);
    assert_eq!(a.distance, 2);
    assert_eq!(a.velocity, -3);
    assert_eq!(a.acceleration, -4);
    // Acceleration delta -4 - 0 = -4.
    assert_eq!(a.jerk, -4);

    // Odd negative delta: velocity -3, previous velocity 0 gives -3 / 2 = -1.
    let d2 = SenseData {
        analysis: SenseAnalysis { raw: 105, distance: 5, velocity: 0, acceleration: 0, jerk: 0 },
        ..d
    };
    let a2 = SenseAnalysis::new(102, &d2, &lut);
    assert_eq!(a2.velocity, -3);
    assert_eq!(a2.acceleration, -1);
}

#[test]
fn sensors_bounds_and_not_ready() {
    let mut sensors = Sensors::new(4).unwrap();
    assert_eq!(sensors.len(), 4);

    // Out of bounds: invalid sensor.
    match sensors.get_data(5) {
        Err(SensorError::InvalidSensor(5)) => {},
        other => panic!("expected an invalid-sensor error, got {:?}", other),
    }

    // In bounds but never classified: calibration error.
    match sensors.get_data(0) {
        Err(SensorError::CalibrationError(d)) => assert_eq!(d.cal, CalibrationStatus::NotReady),
        other => panic!("expected a calibration error, got {:?}", other),
    }

    // Out-of-bounds add: invalid sensor.
    let cfg = test_config();
    let lut = test_lut();
    match sensors.add(9, 500, &cfg, &lut) {
        Err(SensorError::InvalidSensor(9)) => {},
        other => panic!("expected an invalid-sensor error, got {:?}", other),
    }

    // After a successful calibration get_data returns the record.
    let _ = sensors.add(0, 500, &cfg, &lut);
    let d = sensors.get_data(0).unwrap();
    assert_eq!(d.cal, CalibrationStatus::MagnetDetected);
    assert_eq!(d.stats.min, 500);
}

#[test]
fn sensors_capacity_failure() {
    match Sensors::new(MAX_SENSORS + 1) {
        Err(SensorError::FailedToResize(n)) => assert_eq!(n, MAX_SENSORS + 1),
        _ => panic!("expected a resize failure"),
    }
    assert!(Sensors::new(MAX_SENSORS).is_ok());
    assert!(Sensors::new(0).is_ok());
}

#[test]
fn sensors_oversampling_routes_per_index() {
    let cfg = SenseConfig { sc: 2, ..test_config() };
    let lut = test_lut();
    let mut sensors = Sensors::new(2).unwrap();

    // First reading of a batch: no result yet.
    assert_eq!(sensors.add(0, 400, &cfg, &lut), Ok(None));
    // The other sensor's accumulator is independent.
    assert_eq!(sensors.add(1, 800, &cfg, &lut), Ok(None));
    // Second reading completes sensor 0's batch: (400 + 600) / 2 = 500.
    let r = sensors.add(0, 600, &cfg, &lut).unwrap().unwrap();
    assert_eq!(r.raw, 500);
    let d = sensors.get_data(0).unwrap();
    assert_eq!(d.cal, CalibrationStatus::MagnetDetected);
    // Sensor 1 is still mid-batch.
    match sensors.get_data(1) {
        Err(SensorError::CalibrationError(d1)) => assert_eq!(d1.cal, CalibrationStatus::NotReady),
        other => panic!("expected a calibration error, got {:?}", other),
    }
}

#[test]
fn default_record_matches_new() {
    let d: SenseData = Default::default();
    assert_eq!(d, SenseData::new());
    assert_eq!(d.cal, CalibrationStatus::NotReady);
    assert_eq!(d.stats.min, 0xFFFF);
    assert_eq!(d.stats.max, 0x0000);
    assert_eq!(d.stats.samples, 0);
}

#[test]
fn stats_reset_keeps_samples() {
    let mut s = SenseStats { min: 5, max: 10, samples: 42 };
    s.reset();
    assert_eq!(s.min, 0xFFFF);
    assert_eq!(s.max, 0x0000);
    assert_eq!(s.samples, 42);
}
