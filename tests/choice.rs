use std::cmp::Ordering;

use geonav::choice::{farther, first_intersection_choice, is_at_most, nearer, Candidate};

#[test]
fn pick_returns_named_candidate() {
    assert_eq!(Candidate::First.pick(("a", "b")), "a");
    assert_eq!(Candidate::Second.pick(("a", "b")), "b");
}

#[test]
fn order_puts_named_candidate_first() {
    assert_eq!(Candidate::First.order((1, 2)), (1, 2));
    assert_eq!(Candidate::Second.order((1, 2)), (2, 1));
}

#[test]
fn nearer_prefers_first_only_when_strictly_nearer() {
    assert_eq!(nearer(Some(Ordering::Less)), Candidate::First);
    assert_eq!(nearer(Some(Ordering::Equal)), Candidate::Second);
    assert_eq!(nearer(Some(Ordering::Greater)), Candidate::Second);
    assert_eq!(nearer(None), Candidate::Second);
}

#[test]
fn nearer_of_float_distances() {
    assert_eq!(nearer(1.0_f64.partial_cmp(&2.0)), Candidate::First);
    assert_eq!(nearer(f64::NAN.partial_cmp(&2.0)), Candidate::Second);
}

#[test]
fn farther_prefers_first_only_when_strictly_farther() {
    assert_eq!(farther(Some(Ordering::Greater)), Candidate::First);
    assert_eq!(farther(Some(Ordering::Equal)), Candidate::Second);
    assert_eq!(farther(Some(Ordering::Less)), Candidate::Second);
    assert_eq!(farther(None), Candidate::Second);
}

#[test]
fn at_most_accepts_less_and_equal() {
    assert!(is_at_most(Some(Ordering::Less)));
    assert!(is_at_most(Some(Ordering::Equal)));
    assert!(!is_at_most(Some(Ordering::Greater)));
    assert!(!is_at_most(None));
}

#[test]
fn first_intersection_reference_inside_takes_candidate_ahead() {
    let g = Some(Ordering::Greater);
    let l = Some(Ordering::Less);
    let e = Some(Ordering::Equal);
    // inside: the first candidate is ahead, whatever the distances say
    assert_eq!(first_intersection_choice(l, l, g, g), Candidate::First);
    // on the circle, first candidate exactly a quarter turn off
    assert_eq!(first_intersection_choice(e, e, g, g), Candidate::First);
    // inside, first candidate behind
    assert_eq!(first_intersection_choice(l, g, l, l), Candidate::Second);
    // inside, unordered offset counts as behind
    assert_eq!(first_intersection_choice(l, None, l, l), Candidate::Second);
}

#[test]
fn first_intersection_centre_ahead_takes_nearer() {
    let g = Some(Ordering::Greater);
    let l = Some(Ordering::Less);
    assert_eq!(first_intersection_choice(g, g, l, l), Candidate::First);
    assert_eq!(first_intersection_choice(g, l, l, g), Candidate::Second);
    assert_eq!(first_intersection_choice(g, l, Some(Ordering::Equal), l), Candidate::First);
}

#[test]
fn first_intersection_centre_behind_takes_farther() {
    let g = Some(Ordering::Greater);
    let l = Some(Ordering::Less);
    assert_eq!(first_intersection_choice(g, l, g, g), Candidate::First);
    assert_eq!(first_intersection_choice(g, l, g, l), Candidate::Second);
    assert_eq!(first_intersection_choice(None, l, None, Some(Ordering::Equal)), Candidate::Second);
}
