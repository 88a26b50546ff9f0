use std::cmp::Ordering;

use geonav::bounds::{longitude_span, LongitudeSpan};

#[test]
fn span_interior_without_wrap() {
    // centre (0°, 0°), one degree each way
    assert_eq!(
        longitude_span(
            (-1.0_f64).partial_cmp(&-90.0),
            1.0_f64.partial_cmp(&90.0),
            (-1.0_f64).partial_cmp(&-180.0),
            1.0_f64.partial_cmp(&180.0),
        ),
        LongitudeSpan::Interval { wrap_west: false, wrap_east: false }
    );
}

#[test]
fn span_wraps_east_across_antimeridian() {
    // centre (0°, 179°), two degrees each way: the eastern bound 181° wraps
    assert_eq!(
        longitude_span(
            (-2.0_f64).partial_cmp(&-90.0),
            2.0_f64.partial_cmp(&90.0),
            177.0_f64.partial_cmp(&-180.0),
            181.0_f64.partial_cmp(&180.0),
        ),
        LongitudeSpan::Interval { wrap_west: false, wrap_east: true }
    );
}

#[test]
fn span_wraps_west_across_antimeridian() {
    assert_eq!(
        longitude_span(
            Some(Ordering::Greater),
            Some(Ordering::Less),
            (-181.0_f64).partial_cmp(&-180.0),
            (-177.0_f64).partial_cmp(&180.0),
        ),
        LongitudeSpan::Interval { wrap_west: true, wrap_east: false }
    );
}

#[test]
fn span_bounds_exactly_on_antimeridian_stay() {
    assert_eq!(
        longitude_span(
            Some(Ordering::Greater),
            Some(Ordering::Less),
            Some(Ordering::Equal),
            Some(Ordering::Equal),
        ),
        LongitudeSpan::Interval { wrap_west: false, wrap_east: false }
    );
}

#[test]
fn span_reaching_a_pole_covers_all_longitudes() {
    let g = Some(Ordering::Greater);
    let l = Some(Ordering::Less);
    assert_eq!(longitude_span(g, Some(Ordering::Equal), l, g), LongitudeSpan::AllLongitudes);
    assert_eq!(longitude_span(Some(Ordering::Equal), l, l, g), LongitudeSpan::AllLongitudes);
    assert_eq!(longitude_span(l, g, g, l), LongitudeSpan::AllLongitudes);
    assert_eq!(longitude_span(None, l, g, l), LongitudeSpan::AllLongitudes);
}
