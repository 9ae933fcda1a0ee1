//! The training run: a perceptron with random initial weights learns the
//! inequality `a·x + b·y - c > 0` from randomly drawn points, and the learned
//! boundary is set beside the true one.
//!
//! Coefficients share one fixed-point scale (any common scale gives the same
//! labels and lines); sample coordinates are in units of `COORD_SCALE`.
use rand::rngs::StdRng;
use rand::Rng;
use vstd::prelude::*;
use crate::line::{actual_line, learned_line, learned_line_is, target_line_is, Line};
use crate::model::{
    model_fits, train_model, Perceptron, PerceptronInputs, PerceptronModel, BIAS_PER_RATE,
    COORD_SCALE,
};

verus! {

#[verifier::external_type_specification]
#[verifier::external_body]
pub struct ExStdRng(StdRng);

/// Relies on rand's `Rng::gen_range` over the `i64` range `low..high`: it
/// panics on an empty range and otherwise returns a value in `[low, high)`.
#[verifier::external_body]
fn draw_in(rng: &mut StdRng, low: i64, high: i64) -> (r: i64)
    requires
        low < high,
    ensures
        low <= r < high,
{
    rng.gen_range(low..high)
}

/// The number of inputs of the trained perceptron: the point `(x, y)`.
pub const INPUTS: usize = 2;

/// The initial bias, 0.01.
pub const INITIAL_BIAS: i64 = 100000000;

/// The learning rate, 0.0005.
pub const INITIAL_RATE: i64 = 5;

/// The number of training samples of a run.
pub const ITERATIONS: usize = 10000;

/// Sample coordinates lie in `[-SAMPLE_LIMIT, SAMPLE_LIMIT)`, that is `[-10, 10)`.
pub const SAMPLE_LIMIT: i64 = 10000;

/// Initial weights lie in `[WEIGHT_FLOOR, WEIGHT_FLOOR + WEIGHT_SPAN)`, that is `[0.01, 1.0)`.
pub const WEIGHT_FLOOR: i64 = 100000;

pub const WEIGHT_SPAN: i64 = 9900000;

/// 1 where the point `(x, y)` satisfies `a·x + b·y - c > 0` strictly, else 0.
pub open spec fn label(a: int, b: int, c: int, x: int, y: int) -> i32 {
    if a * x + b * y - c * COORD_SCALE > 0 {
        1
    } else {
        0
    }
}

/// The inputs of the perceptron for the point `p`.
pub open spec fn sample_inputs(p: (i32, i32)) -> Seq<int> {
    seq![p.0 as int, p.1 as int]
}

/// `m` after learning from each point of `s` in turn, labelled by the inequality.
pub open spec fn trained_all(m: PerceptronModel, s: Seq<(i32, i32)>, a: int, b: int, c: int) -> PerceptronModel
    decreases s.len(),
{
    if s.len() == 0 {
        m
    } else {
        let p = s.last();
        train_model(
            trained_all(m, s.drop_last(), a, b, c),
            sample_inputs(p),
            label(a, b, c, p.0 as int, p.1 as int) as int,
        )
    }
}

/// Every intermediate perceptron of the run over `s` can be stored.
pub open spec fn stays_in_range(m: PerceptronModel, s: Seq<(i32, i32)>, a: int, b: int, c: int) -> bool {
    forall|k: int| 0 < k <= s.len() ==> model_fits(#[trigger] trained_all(m, s.take(k), a, b, c))
}

/// Both coordinates of every point of `s` lie in `[-SAMPLE_LIMIT, SAMPLE_LIMIT)`.
pub open spec fn in_sample_range(s: Seq<(i32, i32)>) -> bool {
    forall|k: int|
        0 <= k < s.len() ==> -SAMPLE_LIMIT <= (#[trigger] s[k]).0 < SAMPLE_LIMIT && -SAMPLE_LIMIT
            <= s[k].1 < SAMPLE_LIMIT
}

pub open spec fn abs(v: int) -> int {
    if v < 0 {
        -v
    } else {
        v
    }
}

/// Over points in the sample range, a weight moves by at most
/// `SAMPLE_LIMIT · |learning_rate|` per point and the bias by at most
/// `|learning_rate| · BIAS_PER_RATE`.
proof fn lemma_drift(m: PerceptronModel, s: Seq<(i32, i32)>, a: int, b: int, c: int)
    requires
        m.weights.len() == INPUTS,
        in_sample_range(s),
    ensures
        trained_all(m, s, a, b, c).learning_rate == m.learning_rate,
        trained_all(m, s, a, b, c).weights.len() == INPUTS,
        forall|i: int|
            0 <= i < INPUTS ==> abs(#[trigger] trained_all(m, s, a, b, c).weights[i] - m.weights[i])
                <= s.len() * (SAMPLE_LIMIT * abs(m.learning_rate)),
        abs(trained_all(m, s, a, b, c).bias - m.bias) <= s.len() * (abs(m.learning_rate)
            * BIAS_PER_RATE),
    decreases s.len(),
{
    if s.len() > 0 {
        let s0 = s.drop_last();
        assert(in_sample_range(s0)) by {
            assert forall|k: int| 0 <= k < s0.len() implies -SAMPLE_LIMIT <= (#[trigger] s0[k]).0
                < SAMPLE_LIMIT && -SAMPLE_LIMIT <= s0[k].1 < SAMPLE_LIMIT by {
                assert(s0[k] == s[k]);
            }
        }
        lemma_drift(m, s0, a, b, c);
        let t0 = trained_all(m, s0, a, b, c);
        let t = trained_all(m, s, a, b, c);
        let p = s.last();
        let x = sample_inputs(p);
        let lr = m.learning_rate;
        let n0 = s0.len() as int;
        let kw = SAMPLE_LIMIT * abs(lr);
        let kb = abs(lr) * BIAS_PER_RATE;
        assert(s[s.len() - 1] == p);
        assert((n0 + 1) * kw == n0 * kw + kw) by (nonlinear_arith);
        assert((n0 + 1) * kb == n0 * kb + kb) by (nonlinear_arith);
        assert(s.len() == n0 + 1);
        let r = crate::model::query_model(t0, x);
        let target = label(a, b, c, p.0 as int, p.1 as int) as int;
        if r != target {
            let delta = target - r;
            assert(delta == 1 || delta == -1);
            assert forall|i: int| 0 <= i < INPUTS implies abs(
                #[trigger] t.weights[i] - m.weights[i],
            ) <= s.len() * kw by {
                let xi = x[i];
                assert(-SAMPLE_LIMIT <= xi <= SAMPLE_LIMIT);
                assert(abs(delta * xi * lr) <= SAMPLE_LIMIT * abs(lr)) by (nonlinear_arith)
                    requires
                        delta == 1 || delta == -1,
                        -10000 <= xi <= 10000,
                        SAMPLE_LIMIT == 10000,
                ;
                assert(t.weights[i] == t0.weights[i] + delta * xi * lr);
                assert(abs(t0.weights[i] - m.weights[i]) <= n0 * kw);
            }
            assert(abs(delta * lr * BIAS_PER_RATE) <= kb) by (nonlinear_arith)
                requires
                    delta == 1 || delta == -1,
                    kb == abs(lr) * BIAS_PER_RATE,
                    BIAS_PER_RATE == 1000000,
            ;
        } else {
            assert forall|i: int| 0 <= i < INPUTS implies abs(
                #[trigger] t.weights[i] - m.weights[i],
            ) <= s.len() * kw by {
                assert(abs(t0.weights[i] - m.weights[i]) <= n0 * kw);
                assert(kw >= 0);
            }
        }
    }
}

/// 1 where the point `(x, y)` satisfies the inequality
/// `x_coefficient·x + y_coefficient·y - constant_term > 0`, else 0.
pub fn target_label(x_coefficient: i64, y_coefficient: i64, constant_term: i64, x: i32, y: i32) -> (r: i32)
    ensures
        r == label(x_coefficient as int, y_coefficient as int, constant_term as int, x as int, y as int),
{
    let a = x_coefficient as i128;
    let b = y_coefficient as i128;
    let c = constant_term as i128;
    let (xi, yi) = (x as i128, y as i128);
    proof {
        assert(-0x4000_0000_0000_0000_0000_0000 <= a * xi <= 0x4000_0000_0000_0000_0000_0000)
            by (nonlinear_arith)
            requires
                -0x8000_0000_0000_0000 <= a <= 0x7fff_ffff_ffff_ffff,
                -0x8000_0000 <= xi <= 0x7fff_ffff,
        ;
        assert(-0x4000_0000_0000_0000_0000_0000 <= b * yi <= 0x4000_0000_0000_0000_0000_0000)
            by (nonlinear_arith)
            requires
                -0x8000_0000_0000_0000 <= b <= 0x7fff_ffff_ffff_ffff,
                -0x8000_0000 <= yi <= 0x7fff_ffff,
        ;
        assert(-0x4000_0000_0000_0000_0000_0000 <= c * 1000 <= 0x4000_0000_0000_0000_0000_0000)
            by (nonlinear_arith)
            requires
                -0x8000_0000_0000_0000 <= c <= 0x7fff_ffff_ffff_ffff,
        ;
    }
    let v = a * xi + b * yi - c * (COORD_SCALE as i128);
    if v > 0 {
        1
    } else {
        0
    }
}

impl Perceptron {
    /// Learns from each point of `samples` in turn, labelled by the inequality
    /// `x_coefficient·x + y_coefficient·y - constant_term > 0`.
    pub fn train_on(
        &mut self,
        samples: &Vec<(i32, i32)>,
        x_coefficient: i64,
        y_coefficient: i64,
        constant_term: i64,
    )
        requires
            old(self).wf(),
            old(self).weights.len() == INPUTS,
            stays_in_range(
                old(self)@,
                samples@,
                x_coefficient as int,
                y_coefficient as int,
                constant_term as int,
            ),
        ensures
            final(self).wf(),
            final(self).weights.len() == INPUTS,
            final(self)@ == trained_all(
                old(self)@,
                samples@,
                x_coefficient as int,
                y_coefficient as int,
                constant_term as int,
            ),
    {
        let ghost (a, b, c) = (x_coefficient as int, y_coefficient as int, constant_term as int);
        let ghost m0 = self@;
        assert(samples@.take(0) =~= Seq::<(i32, i32)>::empty());
        let mut k: usize = 0;
        while k < samples.len()
            invariant
                0 <= k <= samples.len(),
                self.wf(),
                self.weights.len() == INPUTS,
                a == x_coefficient,
                b == y_coefficient,
                c == constant_term,
                stays_in_range(m0, samples@, a, b, c),
                self@ == trained_all(m0, samples@.take(k as int), a, b, c),
            decreases samples.len() - k,
        {
            let (x, y) = samples[k];
            let inputs = PerceptronInputs { values: vec![x, y] };
            let target = target_label(x_coefficient, y_coefficient, constant_term, x, y);
            proof {
                assert(inputs@ =~= sample_inputs(samples@[k as int]));
                let next = samples@.take(k as int + 1);
                assert(next.drop_last() =~= samples@.take(k as int));
                assert(next.last() == samples@[k as int]);
                assert(model_fits(trained_all(m0, next, a, b, c)));
            }
            self.train(&inputs, target);
            k = k + 1;
        }
        assert(samples@.take(samples.len() as int) =~= samples@);
    }

    /// A copy of this perceptron.
    pub fn duplicate(&self) -> (r: Perceptron)
        ensures
            r@ == self@,
            r.weights@ == self.weights@,
    {
        let mut weights: Vec<i64> = Vec::new();
        let mut i: usize = 0;
        while i < self.weights.len()
            invariant
                i <= self.weights.len(),
                weights@ == self.weights@.take(i as int),
            decreases self.weights.len() - i,
        {
            weights.push(self.weights[i]);
            i = i + 1;
            assert(weights@ =~= self.weights@.take(i as int));
        }
        assert(weights@ =~= self.weights@);
        let r = Perceptron { bias: self.bias, learning_rate: self.learning_rate, weights };
        assert(r@.weights =~= self@.weights);
        r
    }
}

/// A perceptron with the given bias and learning rate and `INPUTS` weights,
/// each drawn from `[WEIGHT_FLOOR, WEIGHT_FLOOR + WEIGHT_SPAN)`.
pub fn init_perceptron(bias: i64, learning_rate: i64, rng: &mut StdRng) -> (r: Perceptron)
    ensures
        r.wf(),
        r.bias == bias,
        r.learning_rate == learning_rate,
        r.weights.len() == INPUTS,
        forall|i: int|
            0 <= i < INPUTS ==> WEIGHT_FLOOR <= #[trigger] r.weights@[i] < WEIGHT_FLOOR + WEIGHT_SPAN,
{
    let mut weights: Vec<i64> = Vec::new();
    let mut i: usize = 0;
    while i < INPUTS
        invariant
            i <= INPUTS,
            weights.len() == i,
            forall|j: int|
                0 <= j < i ==> WEIGHT_FLOOR <= #[trigger] weights@[j] < WEIGHT_FLOOR + WEIGHT_SPAN,
        decreases INPUTS - i,
    {
        let w = draw_in(rng, 0, WEIGHT_SPAN) + WEIGHT_FLOOR;
        weights.push(w);
        i = i + 1;
    }
    Perceptron::new(bias, learning_rate, weights)
}

/// `count` points, each coordinate drawn from `[-SAMPLE_LIMIT, SAMPLE_LIMIT)`,
/// `x` before `y`.
pub fn draw_samples(rng: &mut StdRng, count: usize) -> (r: Vec<(i32, i32)>)
    ensures
        r.len() == count,
        in_sample_range(r@),
{
    let mut samples: Vec<(i32, i32)> = Vec::new();
    let mut k: usize = 0;
    while k < count
        invariant
            k <= count,
            samples.len() == k,
            in_sample_range(samples@),
        decreases count - k,
    {
        let x = draw_in(rng, -SAMPLE_LIMIT, SAMPLE_LIMIT) as i32;
        let y = draw_in(rng, -SAMPLE_LIMIT, SAMPLE_LIMIT) as i32;
        samples.push((x, y));
        k = k + 1;
    }
    samples
}

/// What a run reports: the perceptron before and after training, and the
/// slope/intercept form of the true and of the learned boundary.
pub struct TrainingReport {
    pub initial: Perceptron,
    pub trained: Perceptron,
    pub actual: Option<Line>,
    pub calculated: Option<Line>,
}

/// Trains a fresh perceptron on `ITERATIONS` random points labelled by
/// `x_coefficient·x + y_coefficient·y - constant_term > 0` and reports both
/// boundaries; a vertical boundary is reported as `None`.
pub fn run(x_coefficient: i64, y_coefficient: i64, constant_term: i64, rng: &mut StdRng) -> (r: TrainingReport)
    ensures
        r.initial.wf(),
        r.initial.bias == INITIAL_BIAS,
        r.initial.learning_rate == INITIAL_RATE,
        r.initial.weights.len() == INPUTS,
        forall|i: int|
            0 <= i < INPUTS ==> WEIGHT_FLOOR <= #[trigger] r.initial.weights@[i] < WEIGHT_FLOOR
                + WEIGHT_SPAN,
        r.trained.wf(),
        r.trained.weights.len() == INPUTS,
        exists|s: Seq<(i32, i32)>|
            s.len() == ITERATIONS && in_sample_range(s) && #[trigger] trained_all(
                r.initial@,
                s,
                x_coefficient as int,
                y_coefficient as int,
                constant_term as int,
            ) == r.trained@,
        target_line_is(r.actual, x_coefficient as int, y_coefficient as int, constant_term as int),
        learned_line_is(r.calculated, r.trained@),
{
    let ghost (a, b, c) = (x_coefficient as int, y_coefficient as int, constant_term as int);
    let mut perceptron = init_perceptron(INITIAL_BIAS, INITIAL_RATE, rng);
    let initial = perceptron.duplicate();
    let samples = draw_samples(rng, ITERATIONS);
    proof {
        let m = perceptron@;
        assert forall|k: int| 0 < k <= samples@.len() implies model_fits(
            #[trigger] trained_all(m, samples@.take(k), a, b, c),
        ) by {
            let s = samples@.take(k);
            assert(in_sample_range(s)) by {
                assert forall|j: int| 0 <= j < s.len() implies -SAMPLE_LIMIT <= (
                #[trigger] s[j]).0 < SAMPLE_LIMIT && -SAMPLE_LIMIT <= s[j].1 < SAMPLE_LIMIT by {
                    assert(s[j] == samples@[j]);
                }
            }
            lemma_drift(m, s, a, b, c);
            let t = trained_all(m, s, a, b, c);
            assert(k * (SAMPLE_LIMIT * abs(m.learning_rate)) <= 500000000) by (nonlinear_arith)
                requires
                    0 < k <= 10000,
                    m.learning_rate == 5,
                    SAMPLE_LIMIT == 10000,
            ;
            assert(k * (abs(m.learning_rate) * BIAS_PER_RATE) <= 50000000000) by (nonlinear_arith)
                requires
                    0 < k <= 10000,
                    m.learning_rate == 5,
                    BIAS_PER_RATE == 1000000,
            ;
            assert forall|i: int| 0 <= i < t.weights.len() implies crate::model::fits_i64(
                #[trigger] t.weights[i],
            ) by {
                assert(abs(t.weights[i] - m.weights[i]) <= 500000000);
                assert(perceptron.weights@[i] == m.weights[i]);
            }
        }
    }
    perceptron.train_on(&samples, x_coefficient, y_coefficient, constant_term);
    let actual = actual_line(x_coefficient, y_coefficient, constant_term);
    let calculated = learned_line(&perceptron);
    assert(trained_all(initial@, samples@, a, b, c) == perceptron@);
    TrainingReport { initial, trained: perceptron, actual, calculated }
}

} // verus!
