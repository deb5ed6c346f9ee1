use fastrand_contrib::{choose_half, BoundKind, GlobalRng, HalfPlan, Inclusive, Rng, UnitDraw};

use BoundKind::{Excluded, Included, Unbounded};

#[test]
fn from_bounds_classifies_every_pair() {
    let cases = [
        (Included, Included, Inclusive::Both),
        (Included, Excluded, Inclusive::Left),
        (Included, Unbounded, Inclusive::Both),
        (Excluded, Included, Inclusive::Right),
        (Excluded, Excluded, Inclusive::Neither),
        (Excluded, Unbounded, Inclusive::Right),
        (Unbounded, Included, Inclusive::Both),
        (Unbounded, Excluded, Inclusive::Left),
        (Unbounded, Unbounded, Inclusive::Both),
    ];
    for (start, end, expected) in cases {
        assert_eq!(Inclusive::from_bounds(start, end), expected);
    }
}

#[test]
fn only_closed_ranges_stretch_the_scale() {
    assert!(Inclusive::Both.stretches_scale());
    assert!(!Inclusive::Left.stretches_scale());
    assert!(!Inclusive::Right.stretches_scale());
    assert!(!Inclusive::Neither.stretches_scale());
}

#[test]
fn unit_draw_follows_the_closed_ends() {
    assert_eq!(Inclusive::Neither.unit_draw(), UnitDraw::OpenOpen);
    assert_eq!(Inclusive::Left.unit_draw(), UnitDraw::ClosedOpen);
    assert_eq!(Inclusive::Right.unit_draw(), UnitDraw::OpenClosed);
    assert_eq!(Inclusive::Both.unit_draw(), UnitDraw::ClosedOpen);
}

#[test]
fn open_range_never_draws_an_end() {
    // An open range draws from (0, 1) and does not stretch, so neither
    // `low` (a draw of zero) nor `high` (a draw of one) can come out.
    let inclusive = Inclusive::from_bounds(Excluded, Excluded);
    assert_eq!(inclusive.unit_draw(), UnitDraw::OpenOpen);
    assert!(!inclusive.stretches_scale());
}

#[test]
fn degenerate_closed_range_draws_from_zero() {
    // `low == high`, closed: the stretched scale is zero and the draw is
    // from [0, 1), so `r * 0 + low` is `low` whatever `r` is.
    let inclusive = Inclusive::from_bounds(Included, Included);
    assert!(inclusive.stretches_scale());
    assert_eq!(inclusive.unit_draw(), UnitDraw::ClosedOpen);
}

#[test]
fn half_plan_stretches_closed_outer_ends() {
    let plan = |inclusive: Inclusive, upper: bool| inclusive.half_plan(upper);
    assert_eq!(plan(Inclusive::Neither, true), HalfPlan { upper: true, stretch: false });
    assert_eq!(plan(Inclusive::Neither, false), HalfPlan { upper: false, stretch: false });
    assert_eq!(plan(Inclusive::Left, true), HalfPlan { upper: true, stretch: false });
    assert_eq!(plan(Inclusive::Left, false), HalfPlan { upper: false, stretch: true });
    assert_eq!(plan(Inclusive::Right, true), HalfPlan { upper: true, stretch: true });
    assert_eq!(plan(Inclusive::Right, false), HalfPlan { upper: false, stretch: false });
    assert_eq!(plan(Inclusive::Both, true), HalfPlan { upper: true, stretch: true });
    assert_eq!(plan(Inclusive::Both, false), HalfPlan { upper: false, stretch: true });
}

#[test]
fn choose_half_picks_both_halves() {
    let mut rng = Rng::with_seed(7);
    let mut uppers = 0;
    let total = 10000;
    for _ in 0..total {
        let plan = choose_half(&mut rng, Inclusive::Left);
        assert_eq!(plan.stretch, !plan.upper);
        if plan.upper {
            uppers += 1;
        }
    }
    assert!(uppers > total * 45 / 100 && uppers < total * 55 / 100);
}

#[test]
fn choose_half_on_the_global_generator() {
    let mut seen = [false, false];
    for _ in 0..1000 {
        let plan = choose_half(&mut GlobalRng, Inclusive::Both);
        assert!(plan.stretch);
        seen[plan.upper as usize] = true;
    }
    assert_eq!(seen, [true, true]);
}
