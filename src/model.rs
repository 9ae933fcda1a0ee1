//! The perceptron: parameters, activation, query and the online update rule.
//!
//! Every real quantity is a fixed-point integer with a scale chosen so that
//! the update rule is exact:
//! - an input coordinate is counted in thousandths (`COORD_SCALE`);
//! - the learning rate in ten-thousandths (`RATE_SCALE`);
//! - a weight in units of `WEIGHT_SCALE = COORD_SCALE * RATE_SCALE`, so that
//!   `input * learning_rate` is a weight;
//! - the bias in units of `BIAS_SCALE = COORD_SCALE * WEIGHT_SCALE`, so that
//!   `weight * input` is a bias, and one learning-rate step of the bias is
//!   `learning_rate * BIAS_PER_RATE`.
use vstd::prelude::*;

verus! {

/// Units of an input coordinate per real unit.
pub const COORD_SCALE: i64 = 1000;

/// Units of the learning rate per real unit.
pub const RATE_SCALE: i64 = 10000;

/// Units of a weight per real unit.
pub const WEIGHT_SCALE: i64 = 10000000;

/// Units of the bias per real unit.
pub const BIAS_SCALE: i64 = 10000000000;

/// Bias units that one learning-rate unit amounts to (`COORD_SCALE` squared).
pub const BIAS_PER_RATE: i64 = 1000000;

/// The largest number of inputs a perceptron may have.
pub const MAX_INPUTS: usize = 1024;

/// The largest magnitude of one product `weight * input` (2^94).
pub open spec fn product_bound() -> int {
    0x4000_0000_0000_0000_0000_0000
}

/// One input vector: one fixed-point coordinate per input of the perceptron.
pub struct PerceptronInputs {
    pub values: Vec<i32>,
}

impl View for PerceptronInputs {
    type V = Seq<int>;

    open spec fn view(&self) -> Seq<int> {
        self.values@.map_values(|v: i32| v as int)
    }
}

/// The mathematical state of a perceptron.
pub ghost struct PerceptronModel {
    pub bias: int,
    pub learning_rate: int,
    pub weights: Seq<int>,
}

/// A perceptron with one weight per input, a bias and a learning rate.
pub struct Perceptron {
    pub bias: i64,
    pub learning_rate: i64,
    pub weights: Vec<i64>,
}

impl View for Perceptron {
    type V = PerceptronModel;

    open spec fn view(&self) -> PerceptronModel {
        PerceptronModel {
            bias: self.bias as int,
            learning_rate: self.learning_rate as int,
            weights: self.weights@.map_values(|w: i64| w as int),
        }
    }
}

/// `Σ w[i] * x[i]` over the first `n` inputs.
pub open spec fn weighted_sum(w: Seq<int>, x: Seq<int>, n: nat) -> int
    decreases n,
{
    if n == 0 {
        0
    } else {
        weighted_sum(w, x, (n - 1) as nat) + w[n - 1] * x[n - 1]
    }
}

/// The logistic function `1 / (1 + e^-(value + bias))` is at least one half
/// exactly where `value + bias` is not negative: the label is 1 there.
pub open spec fn activation(bias: int, value: int) -> i32 {
    if value + bias >= 0 {
        1
    } else {
        0
    }
}

/// What the perceptron `m` predicts for the inputs `x`.
pub open spec fn query_model(m: PerceptronModel, x: Seq<int>) -> i32 {
    activation(m.bias, weighted_sum(m.weights, x, m.weights.len()))
}

/// One update step: each weight moves by `delta * x[i] * learning_rate` and
/// the bias by `delta * learning_rate`.
pub open spec fn step_model(m: PerceptronModel, x: Seq<int>, delta: int) -> PerceptronModel {
    PerceptronModel {
        bias: m.bias + delta * m.learning_rate * BIAS_PER_RATE,
        learning_rate: m.learning_rate,
        weights: Seq::new(m.weights.len(), |i: int| m.weights[i] + delta * x[i] * m.learning_rate),
    }
}

/// The perceptron after learning from the example `(x, target)`: unchanged
/// when it already predicts `target`, one step towards `target` otherwise.
pub open spec fn train_model(m: PerceptronModel, x: Seq<int>, target: int) -> PerceptronModel {
    let r = query_model(m, x);
    if r == target {
        m
    } else {
        step_model(m, x, target - r)
    }
}

pub open spec fn fits_i64(v: int) -> bool {
    i64::MIN <= v <= i64::MAX
}

/// Every parameter of `m` can be stored in a `Perceptron`.
pub open spec fn model_fits(m: PerceptronModel) -> bool {
    &&& fits_i64(m.bias)
    &&& fits_i64(m.learning_rate)
    &&& forall|i: int| 0 <= i < m.weights.len() ==> fits_i64(#[trigger] m.weights[i])
}

impl Perceptron {
    /// The number of inputs is within `MAX_INPUTS`.
    pub open spec fn wf(&self) -> bool {
        self.weights.len() <= MAX_INPUTS
    }

    /// A perceptron with the given parameters.
    pub fn new(bias: i64, learning_rate: i64, weights: Vec<i64>) -> (r: Perceptron)
        requires
            weights.len() <= MAX_INPUTS,
        ensures
            r.wf(),
            r.bias == bias,
            r.learning_rate == learning_rate,
            r.weights@ == weights@,
    {
        Perceptron { bias, learning_rate, weights }
    }

    /// Label 1 where `value + bias` is not negative, else 0.
    pub fn activate(&self, value: i128) -> (r: i32)
        ensures
            r == activation(self.bias as int, value as int),
            r == 0 || r == 1,
    {
        if value >= -(self.bias as i128) {
            1
        } else {
            0
        }
    }

    /// The label the perceptron gives to `inputs`; the perceptron is not changed.
    pub fn query(&self, inputs: &PerceptronInputs) -> (r: i32)
        requires
            self.wf(),
            inputs.values.len() == self.weights.len(),
        ensures
            r == query_model(self@, inputs@),
            r == 0 || r == 1,
    {
        let n = self.weights.len();
        let mut sum: i128 = 0;
        let mut i: usize = 0;
        while i < n
            invariant
                0 <= i <= n,
                n == self.weights.len(),
                n == inputs.values.len(),
                n <= MAX_INPUTS,
                sum == weighted_sum(self@.weights, inputs@, i as nat),
                -(i as int) * product_bound() <= sum <= (i as int) * product_bound(),
            decreases n - i,
        {
            let w = self.weights[i];
            let x = inputs.values[i];
            proof {
                let wi = w as int;
                let xi = x as int;
                assert(-product_bound() <= wi * xi <= product_bound()) by (nonlinear_arith)
                    requires
                        -0x8000_0000_0000_0000 <= wi <= 0x7fff_ffff_ffff_ffff,
                        -0x8000_0000 <= xi <= 0x7fff_ffff,
                ;
                assert(self@.weights[i as int] == wi);
                assert(inputs@[i as int] == xi);
            }
            let p = (w as i128) * (x as i128);
            sum = sum + p;
            i = i + 1;
        }
        self.activate(sum)
    }

    /// Learns from one labelled example and returns the label predicted
    /// before learning. Where that label is not `target`, every weight moves
    /// by `(target - label) * inputs[i] * learning_rate` and the bias by
    /// `(target - label) * learning_rate`; otherwise nothing changes.
    pub fn train(&mut self, inputs: &PerceptronInputs, target: i32) -> (r: i32)
        requires
            old(self).wf(),
            inputs.values.len() == old(self).weights.len(),
            target == 0 || target == 1,
            model_fits(train_model(old(self)@, inputs@, target as int)),
        ensures
            final(self).wf(),
            final(self).weights.len() == old(self).weights.len(),
            r == query_model(old(self)@, inputs@),
            r == 0 || r == 1,
            final(self)@ == train_model(old(self)@, inputs@, target as int),
            r == target ==> final(self)@ == old(self)@,
            r != target ==> final(self)@ == step_model(old(self)@, inputs@, target - r),
    {
        let result = self.query(inputs);
        if target != result {
            let ghost m0 = self@;
            let ghost m1 = step_model(m0, inputs@, target - result);
            let delta: i128 = (target - result) as i128;
            let rate: i128 = self.learning_rate as i128;
            let n = self.weights.len();
            let mut i: usize = 0;
            while i < n
                invariant
                    0 <= i <= n,
                    n == self.weights.len(),
                    n == inputs.values.len(),
                    n == m0.weights.len(),
                    self.bias == m0.bias,
                    self.learning_rate == m0.learning_rate,
                    rate == m0.learning_rate,
                    delta == target - result,
                    delta == 1 || delta == -1,
                    model_fits(m1),
                    m1 == step_model(m0, inputs@, delta as int),
                    forall|j: int| 0 <= j < i ==> self@.weights[j] == #[trigger] m1.weights[j],
                    forall|j: int| i <= j < n ==> self@.weights[j] == #[trigger] m0.weights[j],
                decreases n - i,
            {
                let x = inputs.values[i] as i128;
                proof {
                    assert(-0x8000_0000_0000_0000_0000_0000 <= x * rate
                        <= 0x8000_0000_0000_0000_0000_0000) by (nonlinear_arith)
                        requires
                            -0x8000_0000 <= x <= 0x7fff_ffff,
                            -0x8000_0000_0000_0000 <= rate <= 0x7fff_ffff_ffff_ffff,
                    ;
                    assert(inputs@[i as int] == x);
                    assert(fits_i64(m1.weights[i as int]));
                }
                let moved = (self.weights[i] as i128) + delta * (x * rate);
                proof {
                    assert(delta * (x * rate) == delta * x * rate) by (nonlinear_arith);
                    assert(moved == m1.weights[i as int]);
                }
                self.weights.set(i, moved as i64);
                i = i + 1;
            }
            proof {
                assert(-0x8000_0000_0000_0000_0000_0000 <= rate * 1000000
                    <= 0x8000_0000_0000_0000_0000_0000) by (nonlinear_arith)
                    requires
                        -0x8000_0000_0000_0000 <= rate <= 0x7fff_ffff_ffff_ffff,
                ;
                assert(delta * (rate * 1000000) == delta * rate * 1000000) by (nonlinear_arith);
            }
            self.bias = ((self.bias as i128) + delta * (rate * (BIAS_PER_RATE as i128))) as i64;
            assert(self@.weights =~= m1.weights);
        }
        result
    }
}

} // verus!
