//! Folding an angle into the canonical range of a direction.
//!
//! Each `Direction` has a range one full turn wide: `Right` folds into
//! [0°, 360°), `Left` into (-360°, 0°] and `Either` into (-180°, 180°]. An
//! angle is folded in two passes. The first repeatedly shifts it by a full
//! turn across one end of the range while it lies beyond that end; the second
//! does the same at the other end. `Right` and `Either` first bring the angle
//! down across the upper end, `Left` first brings it up across the lower end.
//! The shifting is floating-point arithmetic done by the caller; the functions
//! here say, for each pass, which bound to compare with and what to do next.
use std::cmp::Ordering;
use vstd::prelude::*;

use crate::Direction;

verus! {

/// One of the two passes of a fold, in the order they run.
#[derive(Clone, Copy, Debug, PartialEq, Eq, Structural)]
pub enum FoldPass {
    Outer,
    Inner,
}

/// What a fold does next.
#[derive(Clone, Copy, Debug, PartialEq, Eq, Structural)]
pub enum FoldStep {
    /// Add a full turn and compare again.
    AddTurn,
    /// Subtract a full turn and compare again.
    SubtractTurn,
    /// This pass is over.
    Stop,
}

/// The lower end of the direction's range, in half turns; the upper end lies
/// two half turns above it.
pub open spec fn range_low(d: Direction) -> int {
    match d {
        Direction::Right => 0,
        Direction::Left => -2,
        Direction::Either => -1,
    }
}

/// Whether the range holds its lower end (and so not its upper end).
pub open spec fn includes_low(d: Direction) -> bool {
    d == Direction::Right
}

/// Whether the first pass works at the upper end of the range.
pub open spec fn upper_first(d: Direction) -> bool {
    d != Direction::Left
}

/// Whether `pass` works at the upper end of the range.
pub open spec fn at_upper(d: Direction, pass: FoldPass) -> bool {
    (pass == FoldPass::Outer) == upper_first(d)
}

/// The end of the range, in half turns, that `pass` compares the angle with.
pub open spec fn pass_bound(d: Direction, pass: FoldPass) -> int {
    if at_upper(d, pass) {
        range_low(d) + 2
    } else {
        range_low(d)
    }
}

/// Whether an angle, compared with the bound of `pass`, lies beyond that end
/// of the range (an excluded end counts as beyond; an unordered angle never
/// does).
pub open spec fn beyond(d: Direction, pass: FoldPass, angle_vs_bound: Option<Ordering>) -> bool {
    if at_upper(d, pass) {
        if includes_low(d) {
            angle_vs_bound == Some(Ordering::Greater) || angle_vs_bound == Some(Ordering::Equal)
        } else {
            angle_vs_bound == Some(Ordering::Greater)
        }
    } else {
        if includes_low(d) {
            angle_vs_bound == Some(Ordering::Less)
        } else {
            angle_vs_bound == Some(Ordering::Less) || angle_vs_bound == Some(Ordering::Equal)
        }
    }
}

/// The next step of `pass`: shift back towards the range while the angle lies
/// beyond the pass's end, else stop.
pub open spec fn fold_step_of(d: Direction, pass: FoldPass, angle_vs_bound: Option<Ordering>) -> FoldStep {
    if !beyond(d, pass, angle_vs_bound) {
        FoldStep::Stop
    } else if at_upper(d, pass) {
        FoldStep::SubtractTurn
    } else {
        FoldStep::AddTurn
    }
}

/// How an exact angle `a` compares with `b`.
pub open spec fn compare(a: int, b: int) -> Option<Ordering> {
    if a < b {
        Some(Ordering::Less)
    } else if a == b {
        Some(Ordering::Equal)
    } else {
        Some(Ordering::Greater)
    }
}

/// The angle that `pass` leaves when it runs on exact values, angles being
/// counted in a unit of which a half turn holds `h`.
pub open spec fn run_pass(d: Direction, pass: FoldPass, a: int, h: int) -> int
    decreases
            (if at_upper(d, pass) {
                a - pass_bound(d, pass) * h
            } else {
                pass_bound(d, pass) * h - a
            }) + 2 * h,
    when h > 0
{
    match fold_step_of(d, pass, compare(a, pass_bound(d, pass) * h)) {
        FoldStep::SubtractTurn => run_pass(d, pass, a - 2 * h, h),
        FoldStep::AddTurn => run_pass(d, pass, a + 2 * h, h),
        FoldStep::Stop => a,
    }
}

/// Whether `a` lies in the range of `d`, a half turn holding `h` units.
pub open spec fn in_range(d: Direction, a: int, h: int) -> bool {
    let low = range_low(d) * h;
    let high = (range_low(d) + 2) * h;
    if includes_low(d) {
        low <= a < high
    } else {
        low < a <= high
    }
}

/// The angle a fold for `d` leaves when it runs on exact values.
pub open spec fn fold_exact(d: Direction, a: int, h: int) -> int {
    run_pass(d, FoldPass::Inner, run_pass(d, FoldPass::Outer, a, h), h)
}

/// The ends of the range in units: the upper end lies a full turn above the
/// lower one.
proof fn lemma_bound_units(d: Direction, pass: FoldPass, h: int)
    ensures
        pass_bound(d, pass) * h == if at_upper(d, pass) {
            range_low(d) * h + 2 * h
        } else {
            range_low(d) * h
        },
{
    let r = range_low(d);
    assert((r + 2) * h == r * h + 2 * h) by (nonlinear_arith);
}

/// A pass ends with the angle no longer beyond its end of the range.
proof fn lemma_pass_ends_inside(d: Direction, pass: FoldPass, a: int, h: int)
    requires
        h > 0,
    ensures
        !beyond(d, pass, compare(run_pass(d, pass, a, h), pass_bound(d, pass) * h)),
    decreases
            (if at_upper(d, pass) {
                a - pass_bound(d, pass) * h
            } else {
                pass_bound(d, pass) * h - a
            }) + 2 * h,
{
    match fold_step_of(d, pass, compare(a, pass_bound(d, pass) * h)) {
        FoldStep::SubtractTurn => lemma_pass_ends_inside(d, pass, a - 2 * h, h),
        FoldStep::AddTurn => lemma_pass_ends_inside(d, pass, a + 2 * h, h),
        FoldStep::Stop => {},
    }
}

/// An angle that is not beyond the far end of the range stays so while the
/// inner pass shifts it.
proof fn lemma_inner_pass_keeps_far_end(d: Direction, a: int, h: int)
    requires
        h > 0,
        !beyond(d, FoldPass::Outer, compare(a, pass_bound(d, FoldPass::Outer) * h)),
    ensures
        !beyond(
            d,
            FoldPass::Outer,
            compare(run_pass(d, FoldPass::Inner, a, h), pass_bound(d, FoldPass::Outer) * h),
        ),
    decreases
            (if at_upper(d, FoldPass::Inner) {
                a - pass_bound(d, FoldPass::Inner) * h
            } else {
                pass_bound(d, FoldPass::Inner) * h - a
            }) + 2 * h,
{
    lemma_bound_units(d, FoldPass::Outer, h);
    lemma_bound_units(d, FoldPass::Inner, h);
    match fold_step_of(d, FoldPass::Inner, compare(a, pass_bound(d, FoldPass::Inner) * h)) {
        FoldStep::SubtractTurn => lemma_inner_pass_keeps_far_end(d, a - 2 * h, h),
        FoldStep::AddTurn => lemma_inner_pass_keeps_far_end(d, a + 2 * h, h),
        FoldStep::Stop => {},
    }
}

/// On exact values, a fold for any direction ends in that direction's range:
/// [0, 2h) for `Right`, (-2h, 0] for `Left` and (-h, h] for `Either`, where a
/// half turn holds `h` units.
pub proof fn lemma_fold_lands_in_range(d: Direction, a: int, h: int)
    requires
        h > 0,
    ensures
        in_range(d, fold_exact(d, a, h), h),
{
    let mid = run_pass(d, FoldPass::Outer, a, h);
    lemma_bound_units(d, FoldPass::Outer, h);
    lemma_bound_units(d, FoldPass::Inner, h);
    lemma_pass_ends_inside(d, FoldPass::Outer, a, h);
    lemma_inner_pass_keeps_far_end(d, mid, h);
    lemma_pass_ends_inside(d, FoldPass::Inner, mid, h);
}

/// The bound, in half turns, that `pass` of a fold for `d` compares with.
pub fn fold_bound(d: Direction, pass: FoldPass) -> (r: i8)
    ensures
        r == pass_bound(d, pass),
{
    match (d, pass) {
        (Direction::Right, FoldPass::Outer) => 2,
        (Direction::Right, FoldPass::Inner) => 0,
        (Direction::Left, FoldPass::Outer) => -2,
        (Direction::Left, FoldPass::Inner) => 0,
        (Direction::Either, FoldPass::Outer) => 1,
        (Direction::Either, FoldPass::Inner) => -1,
    }
}

/// The next step of `pass` of a fold for `d`, given the comparison of the
/// angle with [`fold_bound`].
pub fn fold_step(d: Direction, pass: FoldPass, angle_vs_bound: Option<Ordering>) -> (r: FoldStep)
    ensures
        r == fold_step_of(d, pass, angle_vs_bound),
{
    match (d, pass, angle_vs_bound) {
        (Direction::Right, FoldPass::Outer, Some(Ordering::Greater))
        | (Direction::Right, FoldPass::Outer, Some(Ordering::Equal)) => FoldStep::SubtractTurn,
        (Direction::Right, FoldPass::Inner, Some(Ordering::Less)) => FoldStep::AddTurn,
        (Direction::Left, FoldPass::Outer, Some(Ordering::Less))
        | (Direction::Left, FoldPass::Outer, Some(Ordering::Equal)) => FoldStep::AddTurn,
        (Direction::Left, FoldPass::Inner, Some(Ordering::Greater)) => FoldStep::SubtractTurn,
        (Direction::Either, FoldPass::Outer, Some(Ordering::Greater)) => FoldStep::SubtractTurn,
        (Direction::Either, FoldPass::Inner, Some(Ordering::Less))
        | (Direction::Either, FoldPass::Inner, Some(Ordering::Equal)) => FoldStep::AddTurn,
        _ => FoldStep::Stop,
    }
}

} // verus!
