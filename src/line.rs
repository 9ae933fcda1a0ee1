//! Slope/intercept form `y = m·x + k` of a decision boundary, as exact
//! fractions, with the vertical case reported as `None`.
use vstd::prelude::*;
use crate::model::{Perceptron, PerceptronModel, COORD_SCALE};

verus! {

/// The fraction `num / den`; `den` is never zero in a `Line`.
pub struct Ratio {
    pub num: i128,
    pub den: i128,
}

/// `y = slope · x + intercept`.
pub struct Line {
    pub slope: Ratio,
    pub intercept: Ratio,
}

pub open spec fn ratio_is(r: Ratio, num: int, den: int) -> bool {
    r.num == num && r.den == den
}

/// `l` is the slope/intercept form of `a·x + b·y - c = 0`, and `None`
/// exactly where that line is vertical (`b == 0`).
pub open spec fn target_line_is(l: Option<Line>, a: int, b: int, c: int) -> bool {
    if b == 0 {
        l is None
    } else {
        &&& l is Some
        &&& ratio_is(l->Some_0.slope, -a, b)
        &&& ratio_is(l->Some_0.intercept, c, b)
    }
}

/// `l` is the slope/intercept form of the boundary
/// `weights[0]·x + weights[1]·y + bias = 0` of `m` in real units, and `None`
/// exactly where that line is vertical (`weights[1] == 0`).
pub open spec fn learned_line_is(l: Option<Line>, m: PerceptronModel) -> bool {
    if m.weights[1] == 0 {
        l is None
    } else {
        &&& l is Some
        &&& ratio_is(l->Some_0.slope, -m.weights[0], m.weights[1])
        &&& ratio_is(l->Some_0.intercept, -m.bias, m.weights[1] * COORD_SCALE)
    }
}

impl Ratio {
    /// Whether the fraction is above zero.
    pub fn is_positive(&self) -> (r: bool)
        requires
            self.den != 0,
        ensures
            r == (self.num * self.den > 0),
    {
        proof {
            let (n, d) = (self.num as int, self.den as int);
            assert(n * d > 0 <==> ((n > 0 && d > 0) || (n < 0 && d < 0))) by (nonlinear_arith)
                requires
                    d != 0,
            ;
        }
        (self.num > 0 && self.den > 0) || (self.num < 0 && self.den < 0)
    }

    /// The same fraction with numerator and denominator made non-negative.
    pub fn magnitude(&self) -> (r: Ratio)
        requires
            self.num > i128::MIN,
            self.den > i128::MIN,
        ensures
            r.num == if self.num < 0 { -self.num } else { self.num as int },
            r.den == if self.den < 0 { -self.den } else { self.den as int },
    {
        Ratio {
            num: if self.num < 0 { -self.num } else { self.num },
            den: if self.den < 0 { -self.den } else { self.den },
        }
    }
}

/// The slope/intercept form of the target boundary `a·x + b·y - c = 0`:
/// slope `-a / b`, intercept `c / b`; `None` when `b` is zero.
pub fn actual_line(x_coefficient: i64, y_coefficient: i64, constant_term: i64) -> (r: Option<Line>)
    ensures
        target_line_is(r, x_coefficient as int, y_coefficient as int, constant_term as int),
{
    if y_coefficient == 0 {
        None
    } else {
        let den = y_coefficient as i128;
        Some(
            Line {
                slope: Ratio { num: -(x_coefficient as i128), den },
                intercept: Ratio { num: constant_term as i128, den },
            },
        )
    }
}

/// The slope/intercept form of the boundary a perceptron has learned:
/// slope `-weights[0] / weights[1]`, intercept `-bias / weights[1]` in real
/// units; `None` when `weights[1]` is zero.
pub fn learned_line(p: &Perceptron) -> (r: Option<Line>)
    requires
        p.weights.len() >= 2,
    ensures
        learned_line_is(r, p@),
{
    let w0 = p.weights[0];
    let w1 = p.weights[1];
    proof {
        let w = w1 as int;
        assert(-0x8000_0000_0000_0000 * 1000 <= w * 1000 <= 0x7fff_ffff_ffff_ffff * 1000)
            by (nonlinear_arith)
            requires
                -0x8000_0000_0000_0000 <= w <= 0x7fff_ffff_ffff_ffff,
        ;
    }
    if w1 == 0 {
        None
    } else {
        Some(
            Line {
                slope: Ratio { num: -(w0 as i128), den: w1 as i128 },
                intercept: Ratio {
                    num: -(p.bias as i128),
                    den: (w1 as i128) * (COORD_SCALE as i128),
                },
            },
        )
    }
}

} // verus!
