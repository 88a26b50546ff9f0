//! The case analysis of a latitude/longitude box around a point.
//!
//! A box that must hold every point within some distance of a centre spans
//! the centre's latitude plus and minus the angular distance. When that span
//! stays strictly between the poles, the longitudes are offset by a half-width
//! and wrapped across the antimeridian; when it reaches a pole, every
//! longitude is covered.
use std::cmp::Ordering;
use vstd::prelude::*;

verus! {

/// How the box covers longitude.
#[derive(Clone, Copy, Debug, PartialEq, Eq, Structural)]
pub enum LongitudeSpan {
    /// From a western to an eastern bound. A bound that fell outside
    /// [-180°, 180°] is wrapped back by a full turn: the western one up when
    /// it fell below -180°, the eastern one down when it rose above 180°.
    /// After a wrap the western bound may exceed the eastern one, which marks
    /// a box across the antimeridian.
    Interval { wrap_west: bool, wrap_east: bool },
    /// The latitude span reaches a pole: all longitudes, written as both
    /// bounds at -180°.
    AllLongitudes,
}

/// The longitude span of the box.
///
/// - `south_vs_min_lat` compares the southern latitude bound with -90°;
/// - `north_vs_max_lat` compares the northern latitude bound with 90°;
/// - `west_vs_min_long` compares the unwrapped western bound with -180°;
/// - `east_vs_max_long` compares the unwrapped eastern bound with 180°.
pub open spec fn longitude_span_of(
    south_vs_min_lat: Option<Ordering>,
    north_vs_max_lat: Option<Ordering>,
    west_vs_min_long: Option<Ordering>,
    east_vs_max_long: Option<Ordering>,
) -> LongitudeSpan {
    if south_vs_min_lat == Some(Ordering::Greater) && north_vs_max_lat == Some(Ordering::Less) {
        LongitudeSpan::Interval {
            wrap_west: west_vs_min_long == Some(Ordering::Less),
            wrap_east: east_vs_max_long == Some(Ordering::Greater),
        }
    } else {
        LongitudeSpan::AllLongitudes
    }
}

/// Decides how the box around a point covers longitude; see
/// [`longitude_span_of`] for what the comparisons are.
pub fn longitude_span(
    south_vs_min_lat: Option<Ordering>,
    north_vs_max_lat: Option<Ordering>,
    west_vs_min_long: Option<Ordering>,
    east_vs_max_long: Option<Ordering>,
) -> (r: LongitudeSpan)
    ensures
        r == longitude_span_of(south_vs_min_lat, north_vs_max_lat, west_vs_min_long, east_vs_max_long),
{
    let inside = match (south_vs_min_lat, north_vs_max_lat) {
        (Some(Ordering::Greater), Some(Ordering::Less)) => true,
        _ => false,
    };
    if inside {
        let wrap_west = match west_vs_min_long {
            Some(Ordering::Less) => true,
            _ => false,
        };
        let wrap_east = match east_vs_max_long {
            Some(Ordering::Greater) => true,
            _ => false,
        };
        LongitudeSpan::Interval { wrap_west, wrap_east }
    } else {
        LongitudeSpan::AllLongitudes
    }
}

} // verus!
