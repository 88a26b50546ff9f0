use std::cmp::Ordering;

use geonav::frame::{azimuth_adds_full_turn, azimuth_rule, longitude_reflects_azimuth, AzimuthRule};

fn sign(v: f64) -> Option<Ordering> {
    v.partial_cmp(&0.0)
}

#[test]
fn azimuth_rule_by_quadrant() {
    assert_eq!(azimuth_rule(sign(1.0), sign(-3.0)), AzimuthRule::Arctan);
    assert_eq!(azimuth_rule(sign(1.0), sign(f64::NAN)), AzimuthRule::Arctan);
    assert_eq!(azimuth_rule(sign(-1.0), sign(2.0)), AzimuthRule::ArctanPlusHalfTurn);
    assert_eq!(azimuth_rule(sign(-1.0), sign(0.0)), AzimuthRule::ArctanPlusHalfTurn);
    assert_eq!(azimuth_rule(sign(-1.0), sign(-2.0)), AzimuthRule::ArctanMinusHalfTurn);
}

#[test]
fn azimuth_rule_on_the_y_z_plane() {
    assert_eq!(azimuth_rule(sign(0.0), sign(2.0)), AzimuthRule::HalfTurn);
    assert_eq!(azimuth_rule(sign(-0.0), sign(2.0)), AzimuthRule::HalfTurn);
    assert_eq!(azimuth_rule(sign(0.0), sign(0.0)), AzimuthRule::MinusHalfTurn);
    assert_eq!(azimuth_rule(sign(0.0), sign(-2.0)), AzimuthRule::MinusHalfTurn);
}

#[test]
fn azimuth_rule_with_undefined_coordinates() {
    assert_eq!(azimuth_rule(sign(f64::NAN), sign(1.0)), AzimuthRule::MinusHalfTurn);
    assert_eq!(azimuth_rule(sign(-1.0), sign(f64::NAN)), AzimuthRule::MinusHalfTurn);
}

#[test]
fn azimuth_of_negative_longitude_adds_turn() {
    assert!(azimuth_adds_full_turn(sign(-10.0)));
    assert!(!azimuth_adds_full_turn(sign(0.0)));
    assert!(!azimuth_adds_full_turn(sign(10.0)));
    assert!(!azimuth_adds_full_turn(None));
}

#[test]
fn longitude_from_azimuth_reflects_above_half_turn() {
    assert!(longitude_reflects_azimuth(190.0_f64.partial_cmp(&180.0)));
    assert!(!longitude_reflects_azimuth(180.0_f64.partial_cmp(&180.0)));
    assert!(!longitude_reflects_azimuth(10.0_f64.partial_cmp(&180.0)));
}
