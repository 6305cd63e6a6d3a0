use temp_color::calibration::{MAX_DUTY, MICROS_PER_DEGREE};
use temp_color::color::{blue_duty, green_corrector, green_duty, red_duty};
use temp_color::control::{is_in_band, next_duties, Channel, Duties};

const DEG: i64 = MICROS_PER_DEGREE;

fn duties(red: u16, green: u16, blue: u16) -> Duties {
    Duties { red, green, blue }
}

#[test]
fn bottom_of_band_is_dark() {
    assert_eq!(Duties::for_reading(-50 * DEG), duties(0, 0, 0));
}

#[test]
fn pivot_reading() {
    // red = 256/110 * 55 = 128, green = 55 * (256/110 + 0.6) = 161, blue saturated
    assert_eq!(Duties::for_reading(5 * DEG), duties(128, 161, 256));
}

#[test]
fn reading_above_band_raises_lit_channels() {
    let current = duties(10, 0, 200);
    assert_eq!(next_duties(current, Some(61 * DEG)), Some(duties(256, 0, 256)));
}

#[test]
fn reading_below_band_raises_lit_channels() {
    let current = duties(0, 7, 0);
    assert_eq!(next_duties(current, Some(-51 * DEG)), Some(duties(0, 256, 0)));
}

#[test]
fn missing_reading_changes_nothing() {
    assert_eq!(next_duties(duties(1, 2, 3), None), None);
}

#[test]
fn in_band_reading_replaces_duties() {
    assert_eq!(next_duties(duties(256, 256, 256), Some(-50 * DEG)), Some(duties(0, 0, 0)));
}

#[test]
fn band_edges_are_inclusive() {
    assert!(is_in_band(-50 * DEG));
    assert!(is_in_band(60 * DEG));
    assert!(!is_in_band(-50 * DEG - 1));
    assert!(!is_in_band(60 * DEG + 1));
}

#[test]
fn top_of_band() {
    assert_eq!(red_duty(60 * DEG), 0);
    assert_eq!(blue_duty(60 * DEG), 256);
    assert_eq!(green_duty(60 * DEG), 256);
}

#[test]
fn exact_values_at_zero() {
    // 256/110 * 50 = 116.36, 50 * (256/110 + 0.6) = 146.36, 2 * 116.36 = 232.7
    assert_eq!(Duties::for_reading(0), duties(116, 146, 232));
}

#[test]
fn exact_values_at_forty() {
    // red 256/110 * 20 = 46.5; corrector 0.6 - 0.2 = 0.4; green 90 * 2.727 = 245.45
    assert_eq!(Duties::for_reading(40 * DEG), duties(46, 245, 256));
}

#[test]
fn corrector_values() {
    assert_eq!(green_corrector(-50 * DEG), 330_000_000);
    assert_eq!(green_corrector(30 * DEG), 330_000_000);
    assert_eq!(green_corrector(45 * DEG), 165_000_000);
    assert_eq!(green_corrector(60 * DEG), 0);
}

#[test]
fn duties_stay_in_range_over_band() {
    let mut t = -50 * DEG;
    while t < 60 * DEG {
        let d = Duties::for_reading(t);
        assert!(d.red < MAX_DUTY);
        assert!(d.green < MAX_DUTY);
        assert!(d.blue <= MAX_DUTY);
        t += DEG / 100;
    }
}

#[test]
fn red_is_a_tent_and_blue_saturates() {
    let mut t = -50 * DEG;
    let mut prev = Duties::for_reading(t);
    t += DEG / 10;
    while t < 60 * DEG {
        let d = Duties::for_reading(t);
        if t < 5 * DEG {
            assert!(d.red >= prev.red);
            assert!(d.blue >= prev.blue);
        } else {
            if t > 5 * DEG {
                assert!(d.red <= prev.red);
            }
            assert_eq!(d.blue, MAX_DUTY);
        }
        prev = d;
        t += DEG / 10;
    }
    assert_eq!(red_duty(5 * DEG - 1), 127);
    assert_eq!(red_duty(5 * DEG), 128);
}

#[test]
fn second_alarm_changes_nothing() {
    let first = next_duties(duties(3, 0, 256), Some(70 * DEG)).unwrap();
    assert_eq!(first, duties(256, 0, 256));
    assert_eq!(next_duties(first, Some(-60 * DEG)), Some(first));
}

#[test]
fn channel_access() {
    let mut d = duties(1, 0, 3);
    d.set_duty_on(Channel::Green, 9);
    assert_eq!(d.duty_on(Channel::Green), 9);
    assert_eq!(d.duty_on(Channel::Red), 1);
    d.set_max_duty(Channel::Blue);
    assert_eq!(d, duties(1, 9, 256));
    let mut dark = duties(0, 0, 0);
    dark.set_max_duty_on_all();
    assert_eq!(dark, duties(0, 0, 0));
}
