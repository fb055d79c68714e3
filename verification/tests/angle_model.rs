use tank_duel::angle::clamp_angle;
use tank_duel::angle::cos_milli;
use tank_duel::angle::decompose;
use tank_duel::angle::sin_milli;
use tank_duel::HALF_PI_MILLIRAD;

#[test]
fn clamp_keeps_legal_angles() {
    assert_eq!(clamp_angle(0), 0);
    assert_eq!(clamp_angle(785), 785);
    assert_eq!(clamp_angle(HALF_PI_MILLIRAD), HALF_PI_MILLIRAD);
}

#[test]
fn clamp_raises_negative_angles_to_zero() {
    assert_eq!(clamp_angle(-1), 0);
    assert_eq!(clamp_angle(-1000000), 0);
    assert_eq!(clamp_angle(i64::MIN), 0);
}

#[test]
fn clamp_lowers_large_angles_to_quarter_turn() {
    assert_eq!(clamp_angle(HALF_PI_MILLIRAD + 1), HALF_PI_MILLIRAD);
    assert_eq!(clamp_angle(2356), HALF_PI_MILLIRAD);
    assert_eq!(clamp_angle(i64::MAX), HALF_PI_MILLIRAD);
}

#[test]
fn clamp_is_idempotent() {
    let samples = [i64::MIN, -9, 0, 1, 785, 1571, 2356, i64::MAX];
    for a in samples {
        let once = clamp_angle(a);
        assert_eq!(clamp_angle(once), once);
    }
}

#[test]
fn any_delta_sequence_stays_in_range() {
    let deltas = [500, 500, 500, 500, -4000, 3, -3, 1000000, -1000000, 17];
    let mut angle = 785i64;
    for d in deltas {
        angle = clamp_angle(angle.saturating_add(d));
        assert!(0 <= angle && angle <= HALF_PI_MILLIRAD);
    }
}

#[test]
fn trig_exact_values() {
    assert_eq!(cos_milli(0), 1000);
    assert_eq!(sin_milli(0), 0);
    assert_eq!(cos_milli(785), 707);
    assert_eq!(sin_milli(785), 707);
    assert_eq!(cos_milli(524), 866);
    assert_eq!(sin_milli(524), 501);
    assert_eq!(cos_milli(1047), 502);
    assert_eq!(sin_milli(1047), 866);
    assert_eq!(sin_milli(HALF_PI_MILLIRAD), 1000);
    assert_eq!(cos_milli(HALF_PI_MILLIRAD), 19);
}

#[test]
fn trig_tracks_real_trigonometry() {
    let mut a = 0i64;
    while a <= HALF_PI_MILLIRAD {
        let theta = a as f64 / 1000.0;
        let c = (theta.cos() * 1000.0).round() as i64;
        let s = (theta.sin() * 1000.0).round() as i64;
        assert!((cos_milli(a) - c).abs() <= 25, "cos at {a}");
        assert!((sin_milli(a) - s).abs() <= 10, "sin at {a}");
        a += 7;
    }
}

#[test]
fn decompose_forty_five_degrees() {
    // Firing at 45 degrees with muzzle speed 10 gives velocity near (7.07, 7.07).
    let (dx, dy) = decompose(785, 10000);
    assert_eq!((dx, dy), (7070, 7070));
}

#[test]
fn decompose_axis_aligned() {
    assert_eq!(decompose(0, 10000), (10000, 0));
    assert_eq!(decompose(HALF_PI_MILLIRAD, 10000), (190, 10000));
}

#[test]
fn decompose_zero_magnitude() {
    assert_eq!(decompose(785, 0), (0, 0));
}
