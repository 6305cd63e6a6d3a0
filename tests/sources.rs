use temp_color::calibration::MICROS_PER_DEGREE;
use temp_color::sensor::from_quarter_degrees;
use temp_color::synthetic::SyntheticSource;

const DEG: i64 = MICROS_PER_DEGREE;

#[test]
fn quarter_degrees_convert() {
    assert_eq!(from_quarter_degrees(100), 25 * DEG);
    assert_eq!(from_quarter_degrees(-3), -750_000);
    assert_eq!(from_quarter_degrees(0), 0);
}

#[test]
fn standard_source_configuration() {
    let s = SyntheticSource::standard();
    assert_eq!(s.cursor, -60 * DEG);
    assert_eq!(s.min, -60 * DEG);
    assert_eq!(s.max, 70 * DEG);
    assert_eq!(s.lower, -50 * DEG);
    assert_eq!(s.upper, 60 * DEG);
    assert_eq!(s.step, DEG / 10);
    assert_eq!(s.delay_ms, 5);
}

#[test]
fn invalid_configurations_are_refused() {
    assert!(SyntheticSource::new(-10, 10, -5, 5, 0, 1).is_none());
    assert!(SyntheticSource::new(10, -10, -5, 5, 1, 1).is_none());
    assert!(SyntheticSource::new(-10, 10, 5, -5, 1, 1).is_none());
    let s = SyntheticSource::new(-10, 10, -5, 5, 1, 1).unwrap();
    assert_eq!(s.cursor, -10);
}

#[test]
fn low_edge_samples_alternate() {
    let mut s = SyntheticSource::standard();
    // -60.0: 60 is even, so the limit itself
    assert_eq!(s.read(), Some(-50 * DEG));
    // -59.9: 59 is odd, so just below the limit
    assert_eq!(s.read(), Some(-50 * DEG - 1));
}

#[test]
fn ramp_rises_then_wraps() {
    let mut s = SyntheticSource::standard();
    let mut samples = Vec::new();
    let mut cursors = Vec::new();
    for _ in 0..1302 {
        cursors.push(s.cursor);
        samples.push(s.read().unwrap());
    }
    // 130 degrees in tenths: 1300 steps up, then back to the start
    for k in 0..=1300 {
        assert_eq!(cursors[k], -60 * DEG + (k as i64) * (DEG / 10));
    }
    assert_eq!(cursors[1301], -60 * DEG);
    assert_eq!(s.cursor, -60 * DEG + DEG / 10);
    // in-band samples pass through unchanged
    assert_eq!(samples[100], -50 * DEG);
    assert_eq!(samples[650], 5 * DEG);
    assert_eq!(samples[1200], 60 * DEG);
    // above the band: 60.1 (even) is the limit, 61.0 (odd) just above it, 70.0 the limit
    assert_eq!(samples[1201], 60 * DEG);
    assert_eq!(samples[1210], 60 * DEG + 1);
    assert_eq!(samples[1300], 60 * DEG);
    for v in samples {
        assert!(v >= -50 * DEG - 1 && v <= 60 * DEG + 1);
    }
}
