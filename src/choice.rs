//! Choosing between the two candidate points that an intersection yields.
use std::cmp::Ordering;
use vstd::prelude::*;

verus! {

/// One of the two candidates of an intersection, in the order the solver
/// produced them.
#[derive(Clone, Copy, Debug, PartialEq, Eq, Structural)]
pub enum Candidate {
    First,
    Second,
}

impl Candidate {
    /// The candidate of `pair` that `self` names.
    pub open spec fn chosen<T>(self, pair: (T, T)) -> T {
        match self {
            Candidate::First => pair.0,
            Candidate::Second => pair.1,
        }
    }

    /// The candidate of `pair` that `self` does not name.
    pub open spec fn other<T>(self, pair: (T, T)) -> T {
        match self {
            Candidate::First => pair.1,
            Candidate::Second => pair.0,
        }
    }

    /// Returns the candidate of `pair` that `self` names.
    pub fn pick<T>(self, pair: (T, T)) -> (r: T)
        ensures
            r == self.chosen(pair),
    {
        let (first, second) = pair;
        match self {
            Candidate::First => first,
            Candidate::Second => second,
        }
    }

    /// Returns `pair` reordered so that the candidate `self` names comes first.
    pub fn order<T>(self, pair: (T, T)) -> (r: (T, T))
        ensures
            r == (self.chosen(pair), self.other(pair)),
    {
        let (first, second) = pair;
        match self {
            Candidate::First => (first, second),
            Candidate::Second => (second, first),
        }
    }
}

/// The first candidate when it is strictly nearer than the second, else the
/// second. `first_vs_second` compares the first candidate's distance (or
/// angular offset) with the second's.
pub open spec fn nearer_of(first_vs_second: Option<Ordering>) -> Candidate {
    if first_vs_second == Some(Ordering::Less) {
        Candidate::First
    } else {
        Candidate::Second
    }
}

/// The first candidate when it is strictly farther than the second, else the
/// second.
pub open spec fn farther_of(first_vs_second: Option<Ordering>) -> Candidate {
    if first_vs_second == Some(Ordering::Greater) {
        Candidate::First
    } else {
        Candidate::Second
    }
}

/// Whether a comparison says "less than or equal".
pub open spec fn at_most(cmp: Option<Ordering>) -> bool {
    cmp == Some(Ordering::Less) || cmp == Some(Ordering::Equal)
}

/// Picks the nearer candidate; on a tie or an unordered comparison, the second.
pub fn nearer(first_vs_second: Option<Ordering>) -> (r: Candidate)
    ensures
        r == nearer_of(first_vs_second),
{
    match first_vs_second {
        Some(Ordering::Less) => Candidate::First,
        _ => Candidate::Second,
    }
}

/// Picks the farther candidate; on a tie or an unordered comparison, the second.
pub fn farther(first_vs_second: Option<Ordering>) -> (r: Candidate)
    ensures
        r == farther_of(first_vs_second),
{
    match first_vs_second {
        Some(Ordering::Greater) => Candidate::First,
        _ => Candidate::Second,
    }
}

/// The candidate that comes first along a course, for a small circle crossed
/// by a great circle.
///
/// - `reference_vs_radius` compares the distance from the course's reference
///   point to the circle's centre with the circle's radius;
/// - `first_offset_vs_quarter` compares the magnitude of the signed turn from
///   the course to the bearing of the first candidate with a quarter turn;
/// - `centre_offset_vs_quarter` does the same for the bearing of the centre;
/// - `first_vs_second` compares the reference's distances to the candidates.
///
/// With the reference inside or on the circle, the candidate at most a
/// quarter turn off the course is taken (the first one when it qualifies).
/// Otherwise, with the centre ahead (at most a quarter turn off), the nearer
/// candidate is taken, and with the centre behind, the farther one.
pub open spec fn first_along_course(
    reference_vs_radius: Option<Ordering>,
    first_offset_vs_quarter: Option<Ordering>,
    centre_offset_vs_quarter: Option<Ordering>,
    first_vs_second: Option<Ordering>,
) -> Candidate {
    if at_most(reference_vs_radius) {
        if at_most(first_offset_vs_quarter) {
            Candidate::First
        } else {
            Candidate::Second
        }
    } else if at_most(centre_offset_vs_quarter) {
        nearer_of(first_vs_second)
    } else {
        farther_of(first_vs_second)
    }
}

/// Decides which small-circle intersection comes first along a course; see
/// [`first_along_course`] for what the comparisons are.
pub fn first_intersection_choice(
    reference_vs_radius: Option<Ordering>,
    first_offset_vs_quarter: Option<Ordering>,
    centre_offset_vs_quarter: Option<Ordering>,
    first_vs_second: Option<Ordering>,
) -> (r: Candidate)
    ensures
        r == first_along_course(
            reference_vs_radius,
            first_offset_vs_quarter,
            centre_offset_vs_quarter,
            first_vs_second,
        ),
{
    if is_at_most(reference_vs_radius) {
        if is_at_most(first_offset_vs_quarter) {
            Candidate::First
        } else {
            Candidate::Second
        }
    } else if is_at_most(centre_offset_vs_quarter) {
        nearer(first_vs_second)
    } else {
        farther(first_vs_second)
    }
}

/// Whether a comparison says "less than or equal".
pub fn is_at_most(cmp: Option<Ordering>) -> (r: bool)
    ensures
        r == at_most(cmp),
{
    match cmp {
        Some(Ordering::Less) | Some(Ordering::Equal) => true,
        _ => false,
    }
}

} // verus!
