//! Angles in fixed point.
//!
//! An [`Angle`] is a turn measured in microradians together with its sine
//! and cosine scaled by [`TRIG_ONE`]. The three numbers are supplied by the
//! caller, who evaluates the trigonometric functions; everything this crate
//! does with an angle afterwards is integer arithmetic on them.

use vstd::prelude::*;

verus! {

/// The fixed-point value of 1 for sines and cosines.
pub const TRIG_ONE: i64 = 1_000_000;

/// Half a turn, in microradians.
pub const PI: i64 = 3_141_593;

/// A full turn, in microradians.
pub const TAU: i64 = 6_283_185;

/// A quarter turn, in microradians.
pub const HALF_PI: i64 = 1_570_796;

/// Largest magnitude of an angle, in microradians.
pub const MAX_ANGLE: i64 = 0x100_0000_0000;

/// Quotient rounded toward zero, for a positive divisor.
pub open spec fn trunc_div(a: int, b: int) -> int {
    if a >= 0 {
        a / b
    } else {
        -((-a) / b)
    }
}

/// `v` held to the range `[-TRIG_ONE, TRIG_ONE]`.
pub open spec fn clamp_unit(v: int) -> int {
    if v > TRIG_ONE {
        TRIG_ONE as int
    } else if v < -TRIG_ONE {
        -TRIG_ONE
    } else {
        v
    }
}

/// The product of two fixed-point factors, rescaled and held to the unit range.
pub open spec fn unit_product_sum(a: int, b: int, c: int, d: int) -> int {
    clamp_unit(trunc_div(a * b + c * d, TRIG_ONE as int))
}

/// An angle with its sine and cosine.
#[derive(Debug, Clone, Copy, PartialEq, Eq)]
pub struct Angle {
    rad: i64,
    sin: i64,
    cos: i64,
}

/// `a * b + c * d` rescaled by `TRIG_ONE`, rounded toward zero and clamped.
fn rescale(a: i64, b: i64, c: i64, d: i64) -> (out: i64)
    requires
        -TRIG_ONE <= a <= TRIG_ONE,
        -TRIG_ONE <= b <= TRIG_ONE,
        -TRIG_ONE <= c <= TRIG_ONE,
        -TRIG_ONE <= d <= TRIG_ONE,
    ensures
        out == unit_product_sum(a as int, b as int, c as int, d as int),
        -TRIG_ONE <= out <= TRIG_ONE,
{
    assert(-1_000_000_000_000 <= a * b <= 1_000_000_000_000) by (nonlinear_arith)
        requires
            -1_000_000 <= a <= 1_000_000,
            -1_000_000 <= b <= 1_000_000,
    ;
    assert(-1_000_000_000_000 <= c * d <= 1_000_000_000_000) by (nonlinear_arith)
        requires
            -1_000_000 <= c <= 1_000_000,
            -1_000_000 <= d <= 1_000_000,
    ;
    let sum: i64 = a * b + c * d;
    let q: i64 = sum / TRIG_ONE;
    if q > TRIG_ONE {
        TRIG_ONE
    } else if q < -TRIG_ONE {
        -TRIG_ONE
    } else {
        q
    }
}

impl Angle {
    #[verifier::type_invariant]
    closed spec fn inv(self) -> bool {
        &&& -MAX_ANGLE <= self.rad <= MAX_ANGLE
        &&& -TRIG_ONE <= self.sin <= TRIG_ONE
        &&& -TRIG_ONE <= self.cos <= TRIG_ONE
    }

    /// The turn in microradians.
    pub closed spec fn spec_rad(&self) -> int {
        self.rad as int
    }

    /// The sine, scaled by `TRIG_ONE`.
    pub closed spec fn spec_sin(&self) -> int {
        self.sin as int
    }

    /// The cosine, scaled by `TRIG_ONE`.
    pub closed spec fn spec_cos(&self) -> int {
        self.cos as int
    }

    /// The triple a valid angle is made of.
    pub open spec fn fits(rad: int, sin: int, cos: int) -> bool {
        &&& -MAX_ANGLE <= rad <= MAX_ANGLE
        &&& -TRIG_ONE <= sin <= TRIG_ONE
        &&& -TRIG_ONE <= cos <= TRIG_ONE
    }

    /// What holds of every angle in running code: its three numbers fit.
    pub open spec fn valid(&self) -> bool {
        Angle::fits(self.spec_rad(), self.spec_sin(), self.spec_cos())
    }

    /// Calls to mind that this angle is valid.
    pub fn check(&self)
        ensures
            self.valid(),
    {
        proof {
            use_type_invariant(self);
        }
    }

    /// The angle of `rad` microradians whose sine and cosine the caller has
    /// evaluated as `sin` and `cos`.
    pub fn new(rad: i64, sin: i64, cos: i64) -> (out: Angle)
        requires
            Angle::fits(rad as int, sin as int, cos as int),
        ensures
            out.spec_rad() == rad,
            out.spec_sin() == sin,
            out.spec_cos() == cos,
            out == Angle::of((rad as int, sin as int, cos as int)),
    {
        Angle { rad, sin, cos }
    }

    /// No turn at all.
    pub fn zero() -> (out: Angle)
        ensures
            out.spec_rad() == 0,
            out.spec_sin() == 0,
            out.spec_cos() == TRIG_ONE,
    {
        Angle { rad: 0, sin: 0, cos: TRIG_ONE }
    }

    /// A quarter turn.
    pub fn quarter() -> (out: Angle)
        ensures
            out.spec_rad() == HALF_PI,
            out.spec_sin() == TRIG_ONE,
            out.spec_cos() == 0,
    {
        Angle { rad: HALF_PI, sin: TRIG_ONE, cos: 0 }
    }

    /// Half a turn.
    pub fn half() -> (out: Angle)
        ensures
            out.spec_rad() == PI,
            out.spec_sin() == 0,
            out.spec_cos() == -TRIG_ONE,
    {
        Angle { rad: PI, sin: 0, cos: -TRIG_ONE }
    }

    /// A full turn.
    pub fn full() -> (out: Angle)
        ensures
            out.spec_rad() == TAU,
            out.spec_sin() == 0,
            out.spec_cos() == TRIG_ONE,
    {
        Angle { rad: TAU, sin: 0, cos: TRIG_ONE }
    }

    pub fn rad(&self) -> (out: i64)
        ensures
            out == self.spec_rad(),
            -MAX_ANGLE <= out <= MAX_ANGLE,
    {
        proof {
            use_type_invariant(self);
        }
        self.rad
    }

    pub fn sin(&self) -> (out: i64)
        ensures
            out == self.spec_sin(),
            -TRIG_ONE <= out <= TRIG_ONE,
    {
        proof {
            use_type_invariant(self);
        }
        self.sin
    }

    pub fn cos(&self) -> (out: i64)
        ensures
            out == self.spec_cos(),
            -TRIG_ONE <= out <= TRIG_ONE,
    {
        proof {
            use_type_invariant(self);
        }
        self.cos
    }

    /// The sum of two angles, as a value.
    pub open spec fn spec_plus(&self, other: &Angle) -> (int, int, int) {
        (
            self.spec_rad() + other.spec_rad(),
            unit_product_sum(self.spec_sin(), other.spec_cos(), self.spec_cos(), other.spec_sin()),
            unit_product_sum(self.spec_cos(), other.spec_cos(), -self.spec_sin(), other.spec_sin()),
        )
    }

    /// The difference of two angles, as a value.
    pub open spec fn spec_minus(&self, other: &Angle) -> (int, int, int) {
        (
            self.spec_rad() - other.spec_rad(),
            unit_product_sum(self.spec_sin(), other.spec_cos(), -self.spec_cos(), other.spec_sin()),
            unit_product_sum(self.spec_cos(), other.spec_cos(), self.spec_sin(), other.spec_sin()),
        )
    }

    /// The three numbers of this angle.
    pub open spec fn triple(&self) -> (int, int, int) {
        (self.spec_rad(), self.spec_sin(), self.spec_cos())
    }

    /// The angle that stands for a valid triple.
    pub closed spec fn of(triple: (int, int, int)) -> Angle {
        Angle { rad: triple.0 as i64, sin: triple.1 as i64, cos: triple.2 as i64 }
    }

    /// `of` gives back the triple it was made of, and every valid angle is
    /// made of its own triple.
    pub proof fn lemma_of(triple: (int, int, int))
        requires
            Angle::fits(triple.0, triple.1, triple.2),
        ensures
            Angle::of(triple).triple() == triple,
            Angle::of(triple).valid(),
    {
    }

    /// A valid angle is the angle of its triple.
    pub proof fn lemma_of_triple(self)
        requires
            self.valid(),
        ensures
            Angle::of(self.triple()) == self,
    {
    }

    /// `self + other`: the turns add, and the sine and cosine follow the
    /// addition formulas in fixed point.
    pub fn plus(&self, other: &Angle) -> (out: Angle)
        requires
            -MAX_ANGLE <= self.spec_rad() + other.spec_rad() <= MAX_ANGLE,
        ensures
            out.triple() == self.spec_plus(other),
            out == Angle::of(self.spec_plus(other)),
    {
        proof {
            use_type_invariant(self);
            use_type_invariant(other);
        }
        Angle {
            rad: self.rad + other.rad,
            sin: rescale(self.sin, other.cos, self.cos, other.sin),
            cos: rescale(self.cos, other.cos, -self.sin, other.sin),
        }
    }

    /// `self - other`: the turns subtract, and the sine and cosine follow the
    /// subtraction formulas in fixed point.
    pub fn minus(&self, other: &Angle) -> (out: Angle)
        requires
            -MAX_ANGLE <= self.spec_rad() - other.spec_rad() <= MAX_ANGLE,
        ensures
            out.triple() == self.spec_minus(other),
            out == Angle::of(self.spec_minus(other)),
    {
        proof {
            use_type_invariant(self);
            use_type_invariant(other);
        }
        Angle {
            rad: self.rad - other.rad,
            sin: rescale(self.sin, other.cos, -self.cos, other.sin),
            cos: rescale(self.cos, other.cos, self.sin, other.sin),
        }
    }

    /// The bearing an arctangent stands for, brought into `[0, TAU)`: a
    /// negative turn is moved one full turn on, the direction is kept.
    pub fn normalised(&self) -> (out: Angle)
        requires
            -PI <= self.spec_rad() <= PI,
        ensures
            0 <= out.spec_rad() < TAU,
            out.spec_rad() == if self.spec_rad() < 0 {
                self.spec_rad() + TAU
            } else {
                self.spec_rad()
            },
            out.spec_sin() == self.spec_sin(),
            out.spec_cos() == self.spec_cos(),
            out == if self.spec_rad() < 0 {
                Angle::of((self.spec_rad() + TAU, self.spec_sin(), self.spec_cos()))
            } else {
                *self
            },
    {
        proof {
            use_type_invariant(self);
        }
        if self.rad < 0 {
            Angle { rad: self.rad + TAU, sin: self.sin, cos: self.cos }
        } else {
            *self
        }
    }
}

} // verus!
