//! The immutable data model: numbers, positions, colors, keyframes, and the
//! top-level configuration document.

use vstd::prelude::*;
use crate::easing::Easing;

verus! {

/// A decimal number written in a document, kept exactly as written:
/// the value is `(-1)^neg * mantissa / 10^scale`.
///
/// Documents carry coordinates, durations, delays and the speed factor as
/// decimal literals; this type records them without rounding, and the
/// renderer converts them to its own working precision.
#[derive(PartialEq, Eq, Structural, Clone, Copy, Debug)]
pub struct Number {
    /// True for a negative value; always false when `mantissa` is zero.
    pub neg: bool,
    /// The digits of the literal, read as one integer.
    pub mantissa: u64,
    /// How many of the mantissa's trailing digits lie behind the decimal dot.
    pub scale: u32,
}

impl Number {
    /// The canonical form of a whole number.
    pub fn from_int(neg: bool, magnitude: u64) -> (r: Number)
        ensures
            r == (Number { neg: neg && magnitude != 0, mantissa: magnitude, scale: 0u32 }),
    {
        Number { neg: neg && magnitude != 0, mantissa: magnitude, scale: 0 }
    }
}

/// A target coordinate of a keyframe; the unit is the renderer's.
#[derive(PartialEq, Eq, Structural, Clone, Copy, Debug)]
pub struct Position {
    pub x: Number,
    pub y: Number,
}

/// A color, normalized to one byte per channel.
#[derive(PartialEq, Eq, Structural, Clone, Copy, Debug)]
pub struct Rgba {
    pub r: u8,
    pub g: u8,
    pub b: u8,
    pub a: u8,
}

/// How the rendered surface is fitted to the display.
#[derive(PartialEq, Eq, Structural, Clone, Copy, Debug)]
pub enum Adjustment {
    Fit,
    Stretch,
    Zoom,
}

/// The path shape between consecutive keyframe positions of a point.
#[derive(PartialEq, Eq, Structural, Clone, Copy, Debug)]
pub enum Interpolation {
    Linear,
    Spline,
}

/// One keyframe: where to go, which color to take on, how long the
/// transition lasts, and which curve shapes it.
#[derive(Clone, Copy, Debug)]
pub struct Step {
    pub position: Position,
    pub color: Rgba,
    pub duration: Number,
    pub easing: Easing,
}

/// What `==` on [`Step`] observes. The easing is deliberately left out:
/// easing values always compare equal (see [`Easing`]).
pub open spec fn step_eq(a: Step, b: Step) -> bool {
    a.position == b.position && a.color == b.color && a.duration == b.duration
}

impl PartialEq for Step {
    fn eq(&self, other: &Self) -> (r: bool) {
        self.position == other.position && self.color == other.color && self.duration
            == other.duration && self.easing == other.easing
    }
}

impl vstd::std_specs::cmp::PartialEqSpecImpl for Step {
    open spec fn obeys_eq_spec() -> bool {
        true
    }

    open spec fn eq_spec(&self, other: &Self) -> bool {
        step_eq(*self, *other)
    }
}

/// Two keyframes that agree on position, color and duration compare equal,
/// whichever curves their easings wrap: equality deliberately ignores the
/// curve.
pub proof fn lemma_step_eq_ignores_easing(a: Step, b: Step)
    requires
        a.position == b.position,
        a.color == b.color,
        a.duration == b.duration,
    ensures
        step_eq(a, b),
{
}

/// One animated control point: a start delay, a path shape, and its
/// ordered keyframes.
#[derive(Clone, Debug)]
pub struct Point {
    pub delay: Number,
    pub interpolation: Interpolation,
    pub steps: Vec<Step>,
}

/// The mathematical shape of a [`Point`].
pub struct PointV {
    pub delay: Number,
    pub interpolation: Interpolation,
    pub steps: Seq<Step>,
}

pub open spec fn point_view(p: Point) -> PointV {
    PointV { delay: p.delay, interpolation: p.interpolation, steps: p.steps@ }
}

/// What `==` on [`Point`] observes.
pub open spec fn point_eq(a: Point, b: Point) -> bool {
    a.delay == b.delay && a.interpolation == b.interpolation && a.steps@.len() == b.steps@.len()
        && (forall|k: int| 0 <= k < a.steps@.len() ==> step_eq(a.steps@[k], b.steps@[k]))
}

impl PartialEq for Point {
    fn eq(&self, other: &Self) -> (r: bool) {
        if !(self.delay == other.delay && self.interpolation == other.interpolation) {
            return false;
        }
        if self.steps.len() != other.steps.len() {
            return false;
        }
        let n = self.steps.len();
        let mut i: usize = 0;
        while i < n
            invariant
                n == self.steps@.len() == other.steps@.len(),
                i <= n,
                forall|k: int| 0 <= k < i ==> step_eq(self.steps@[k], other.steps@[k]),
            decreases n - i,
        {
            if !(self.steps[i] == other.steps[i]) {
                return false;
            }
            i = i + 1;
        }
        true
    }
}

impl vstd::std_specs::cmp::PartialEqSpecImpl for Point {
    open spec fn obeys_eq_spec() -> bool {
        true
    }

    open spec fn eq_spec(&self, other: &Self) -> bool {
        point_eq(*self, *other)
    }
}

/// The whole immutable document: the fit strategy, the speed factor, and
/// the animated points in order.
#[derive(Clone, Debug)]
pub struct Configuration {
    pub adjustment: Adjustment,
    pub speed: Number,
    pub points: Vec<Point>,
}

/// The mathematical shape of a [`Configuration`].
pub struct ConfigV {
    pub adjustment: Adjustment,
    pub speed: Number,
    pub points: Seq<PointV>,
}

pub open spec fn point_view_seq(ps: Seq<Point>) -> Seq<PointV> {
    Seq::new(
        ps.len(),
        |i: int|
            if 0 <= i < ps.len() {
                point_view(ps[i])
            } else {
                PointV {
                    delay: Number { neg: false, mantissa: 0u64, scale: 0u32 },
                    interpolation: Interpolation::Linear,
                    steps: Seq::empty(),
                }
            },
    )
}

pub proof fn lemma_point_view_seq_insert0(ps: Seq<Point>, p: Point)
    ensures
        point_view_seq(ps.insert(0, p)) == point_view_seq(ps).insert(0, point_view(p)),
{
    assert(point_view_seq(ps.insert(0, p)) =~= point_view_seq(ps).insert(0, point_view(p)));
}

pub open spec fn config_view(c: Configuration) -> ConfigV {
    ConfigV { adjustment: c.adjustment, speed: c.speed, points: point_view_seq(c.points@) }
}

/// What `==` on [`Configuration`] observes.
pub open spec fn config_eq(a: Configuration, b: Configuration) -> bool {
    a.adjustment == b.adjustment && a.speed == b.speed && a.points@.len() == b.points@.len() && (
    forall|k: int| 0 <= k < a.points@.len() ==> point_eq(a.points@[k], b.points@[k]))
}

impl PartialEq for Configuration {
    fn eq(&self, other: &Self) -> (r: bool) {
        if !(self.adjustment == other.adjustment && self.speed == other.speed) {
            return false;
        }
        if self.points.len() != other.points.len() {
            return false;
        }
        let n = self.points.len();
        let mut i: usize = 0;
        while i < n
            invariant
                n == self.points@.len() == other.points@.len(),
                i <= n,
                forall|k: int| 0 <= k < i ==> point_eq(self.points@[k], other.points@[k]),
            decreases n - i,
        {
            if !(self.points[i] == other.points[i]) {
                return false;
            }
            i = i + 1;
        }
        true
    }
}

impl vstd::std_specs::cmp::PartialEqSpecImpl for Configuration {
    open spec fn obeys_eq_spec() -> bool {
        true
    }

    open spec fn eq_spec(&self, other: &Self) -> bool {
        config_eq(*self, *other)
    }
}

} // verus!
