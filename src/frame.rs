//! Recovering the azimuth of an Earth-centred Cartesian vector.
//!
//! The azimuth `phi` of a vector `(x, y, z)` is reconstructed from
//! `atan(y / x)` by an explicit case analysis on the signs of `x` and `y`,
//! including the degenerate `x = 0` cases, rather than by a single `atan2`.
use std::cmp::Ordering;
use vstd::prelude::*;

verus! {

/// How the azimuth is obtained from the vector's `x` and `y`.
#[derive(Clone, Copy, Debug, PartialEq, Eq, Structural)]
pub enum AzimuthRule {
    /// `atan(y / x)`.
    Arctan,
    /// `atan(y / x) + 180°`.
    ArctanPlusHalfTurn,
    /// `atan(y / x) - 180°`.
    ArctanMinusHalfTurn,
    /// `180°`.
    HalfTurn,
    /// `-180°`.
    MinusHalfTurn,
}

/// The rule for the signs of `x` and `y`, each given as its comparison with
/// zero (`None` when the coordinate is not a number):
/// `x > 0` takes the arctangent; `x < 0` shifts it by a half turn, up when
/// `y >= 0` and down when `y < 0`; `x = 0` with `y > 0` gives a half turn;
/// every other case gives minus a half turn.
pub open spec fn azimuth_rule_of(x_vs_zero: Option<Ordering>, y_vs_zero: Option<Ordering>) -> AzimuthRule {
    if x_vs_zero == Some(Ordering::Greater) {
        AzimuthRule::Arctan
    } else if x_vs_zero == Some(Ordering::Less) && (y_vs_zero == Some(Ordering::Greater) || y_vs_zero
        == Some(Ordering::Equal)) {
        AzimuthRule::ArctanPlusHalfTurn
    } else if x_vs_zero == Some(Ordering::Less) && y_vs_zero == Some(Ordering::Less) {
        AzimuthRule::ArctanMinusHalfTurn
    } else if x_vs_zero == Some(Ordering::Equal) && y_vs_zero == Some(Ordering::Greater) {
        AzimuthRule::HalfTurn
    } else {
        AzimuthRule::MinusHalfTurn
    }
}

/// Selects how the azimuth of a vector is computed from the signs of its `x`
/// and `y`.
pub fn azimuth_rule(x_vs_zero: Option<Ordering>, y_vs_zero: Option<Ordering>) -> (r: AzimuthRule)
    ensures
        r == azimuth_rule_of(x_vs_zero, y_vs_zero),
{
    match (x_vs_zero, y_vs_zero) {
        (Some(Ordering::Greater), _) => AzimuthRule::Arctan,
        (Some(Ordering::Less), Some(Ordering::Greater))
        | (Some(Ordering::Less), Some(Ordering::Equal)) => AzimuthRule::ArctanPlusHalfTurn,
        (Some(Ordering::Less), Some(Ordering::Less)) => AzimuthRule::ArctanMinusHalfTurn,
        (Some(Ordering::Equal), Some(Ordering::Greater)) => AzimuthRule::HalfTurn,
        _ => AzimuthRule::MinusHalfTurn,
    }
}

/// Whether the azimuth of a point is its longitude plus a full turn, rather
/// than the longitude itself: exactly when the longitude is negative, so that
/// azimuths of longitudes in [-180°, 180°] lie in [0°, 360°).
pub fn azimuth_adds_full_turn(long_vs_zero: Option<Ordering>) -> (r: bool)
    ensures
        r == (long_vs_zero == Some(Ordering::Less)),
{
    match long_vs_zero {
        Some(Ordering::Less) => true,
        _ => false,
    }
}

/// Whether the longitude recovered from an azimuth `phi` is `180° - phi`
/// rather than `phi` itself: exactly when `phi` exceeds a half turn. This is
/// the literal inverse the frame uses, not `phi - 360°`, so an azimuth just
/// above 180° maps to a longitude near 0°.
pub fn longitude_reflects_azimuth(phi_vs_half_turn: Option<Ordering>) -> (r: bool)
    ensures
        r == (phi_vs_half_turn == Some(Ordering::Greater)),
{
    match phi_vs_half_turn {
        Some(Ordering::Greater) => true,
        _ => false,
    }
}

} // verus!
