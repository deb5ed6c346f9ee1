//! How a float range is sampled: which ends are closed, which unit
//! interval is drawn from, and when the scale is stretched.

use vstd::prelude::*;

use crate::BaseRng;

verus! {

/// The kind of one end of a range; its value, a float, is not needed here.
#[derive(Clone, Copy, Debug, PartialEq, Eq, Structural)]
pub enum BoundKind {
    Included,
    Excluded,
    /// An open-ended side, sampled from the type's most extreme finite value,
    /// which can itself be returned.
    Unbounded,
}

impl BoundKind {
    /// Whether the end's value may be returned by sampling.
    pub open spec fn is_closed(self) -> bool {
        !(self is Excluded)
    }
}

/// Which ends of a range are closed.
#[derive(Clone, Copy, Debug, PartialEq, Eq, Structural)]
pub enum Inclusive {
    Neither,
    Left,
    Right,
    Both,
}

impl Inclusive {
    pub open spec fn closed_low(self) -> bool {
        self is Left || self is Both
    }

    pub open spec fn closed_high(self) -> bool {
        self is Right || self is Both
    }

    /// Classifies a range by the kinds of its two ends.
    pub fn from_bounds(start: BoundKind, end: BoundKind) -> (r: Inclusive)
        ensures
            r.closed_low() == start.is_closed(),
            r.closed_high() == end.is_closed(),
    {
        match (start, end) {
            (BoundKind::Excluded, BoundKind::Excluded) => Inclusive::Neither,
            (_, BoundKind::Excluded) => Inclusive::Left,
            (BoundKind::Excluded, _) => Inclusive::Right,
            _ => Inclusive::Both,
        }
    }

    /// A range closed at both ends cannot be reached from a half-open unit
    /// draw, so its scale is divided by the largest unit draw to reach `high`.
    pub open spec fn stretched(self) -> bool {
        self is Both
    }

    /// The unit interval that a range of finite width is drawn from.
    pub open spec fn planned_draw(self) -> UnitDraw {
        match self {
            Inclusive::Neither => UnitDraw::OpenOpen,
            Inclusive::Left => UnitDraw::ClosedOpen,
            Inclusive::Right => UnitDraw::OpenClosed,
            Inclusive::Both => UnitDraw::ClosedOpen,
        }
    }

    /// Whether `scale = high - low` is divided by the largest unit draw.
    pub fn stretches_scale(&self) -> (r: bool)
        ensures
            r == self.stretched(),
    {
        match self {
            Inclusive::Both => true,
            _ => false,
        }
    }

    /// Which unit interval `r` is drawn from for `r * scale + low`.
    pub fn unit_draw(&self) -> (r: UnitDraw)
        ensures
            r == self.planned_draw(),
    {
        match self {
            Inclusive::Neither => UnitDraw::OpenOpen,
            Inclusive::Right => UnitDraw::OpenClosed,
            Inclusive::Left | Inclusive::Both => UnitDraw::ClosedOpen,
        }
    }

    /// The plan for a range too wide for its width to be finite: sample one
    /// half around the midpoint, the upper one where `upper` holds. The half is
    /// stretched to reach its outer end where that end is closed.
    pub fn half_plan(&self, upper: bool) -> (r: HalfPlan)
        ensures
            r.upper == upper,
            r.stretch == if upper {
                self.closed_high()
            } else {
                self.closed_low()
            },
    {
        let stretch = if upper {
            match self {
                Inclusive::Right | Inclusive::Both => true,
                Inclusive::Neither | Inclusive::Left => false,
            }
        } else {
            match self {
                Inclusive::Left | Inclusive::Both => true,
                Inclusive::Neither | Inclusive::Right => false,
            }
        };
        HalfPlan { upper, stretch }
    }
}

/// A unit interval that a sample is drawn from.
#[derive(Clone, Copy, Debug, PartialEq, Eq, Structural)]
pub enum UnitDraw {
    /// `[0, 1)`, the generator's own draw.
    ClosedOpen,
    /// `(0, 1]`, one minus the generator's draw.
    OpenClosed,
    /// `(0, 1)`, the generator's draw, drawn again while it is zero.
    OpenOpen,
}

impl UnitDraw {
    pub open spec fn has_zero(self) -> bool {
        self is ClosedOpen
    }

    pub open spec fn has_one(self) -> bool {
        self is OpenClosed
    }
}

/// Which half of a very wide range is sampled, and whether its scale is
/// stretched. The upper half is `mid + r * half_scale`, the lower one
/// `mid - r * half_scale`, with `r` drawn from `[0, 1)`.
#[derive(Clone, Copy, Debug, PartialEq, Eq, Structural)]
pub struct HalfPlan {
    pub upper: bool,
    pub stretch: bool,
}

/// Flips the generator's coin for the half of a very wide range to sample.
pub fn choose_half<R: BaseRng>(rng: &mut R, inclusive: Inclusive) -> (r: HalfPlan)
    ensures
        r.stretch == if r.upper {
            inclusive.closed_high()
        } else {
            inclusive.closed_low()
        },
{
    let upper = rng.bool();
    inclusive.half_plan(upper)
}

/// Sampling a range of finite width as `r * scale + low` reaches exactly the
/// ends that the range includes: the low end through a unit draw of zero, the
/// high end through a unit draw of one or through the stretched scale, never
/// through both, which would overshoot it.
pub proof fn lemma_plan_matches_bounds(inclusive: Inclusive)
    ensures
        inclusive.planned_draw().has_zero() == inclusive.closed_low(),
        (inclusive.planned_draw().has_one() || inclusive.stretched()) == inclusive.closed_high(),
        !(inclusive.planned_draw().has_one() && inclusive.stretched()),
{
}

} // verus!
