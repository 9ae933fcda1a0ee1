use perceptron::driver::{
    draw_samples, init_perceptron, run, target_label, INITIAL_BIAS, INITIAL_RATE, INPUTS,
    ITERATIONS, SAMPLE_LIMIT, WEIGHT_FLOOR, WEIGHT_SPAN,
};
use perceptron::line::{actual_line, learned_line, Ratio};
use perceptron::model::{Perceptron, PerceptronInputs, BIAS_PER_RATE};
use rand::rngs::StdRng;
use rand::SeedableRng;

fn value(r: &Ratio) -> f64 {
    r.num as f64 / r.den as f64
}

fn inputs(x: i32, y: i32) -> PerceptronInputs {
    PerceptronInputs { values: vec![x, y] }
}

#[test]
fn activate_is_a_step_at_minus_bias() {
    let p = Perceptron::new(500, 5, vec![1, 1]);
    assert_eq!(p.activate(-500), 1);
    assert_eq!(p.activate(-501), 0);
    assert_eq!(p.activate(i128::MAX), 1);
    assert_eq!(p.activate(i128::MIN), 0);
}

#[test]
fn query_labels_by_weighted_sum_plus_bias() {
    let p = Perceptron::new(0, 5, vec![100, -200]);
    // 100 * 1000 - 200 * 2000 = -300000
    assert_eq!(p.query(&inputs(1000, 2000)), 0);
    // 100 * 1000 - 200 * -2000 = 500000
    assert_eq!(p.query(&inputs(1000, -2000)), 1);
    let q = Perceptron::new(300000, 5, vec![100, -200]);
    assert_eq!(q.query(&inputs(1000, 2000)), 1);
}

#[test]
fn query_returns_only_zero_or_one_and_changes_nothing() {
    let p = Perceptron::new(-7, 3, vec![i64::MAX, i64::MIN]);
    for &(x, y) in &[(i32::MAX, i32::MIN), (i32::MIN, i32::MAX), (0, 0), (1, -1), (-1, 1)] {
        let r = p.query(&inputs(x, y));
        assert!(r == 0 || r == 1);
    }
    assert_eq!(p.bias, -7);
    assert_eq!(p.learning_rate, 3);
    assert_eq!(p.weights, vec![i64::MAX, i64::MIN]);
}

#[test]
fn query_twice_gives_the_same_label() {
    let p = Perceptron::new(12345, 5, vec![-40, 77]);
    for &(x, y) in &[(-10000, 9999), (3, -4), (0, 0), (5000, 5000)] {
        let i = inputs(x, y);
        assert_eq!(p.query(&i), p.query(&i));
    }
}

#[test]
fn train_on_correct_label_changes_nothing() {
    let mut p = Perceptron::new(0, 5, vec![100, -200]);
    let r = p.train(&inputs(1000, 2000), 0);
    assert_eq!(r, 0);
    assert_eq!(p.bias, 0);
    assert_eq!(p.weights, vec![100, -200]);
    assert_eq!(p.learning_rate, 5);
}

#[test]
fn train_on_wrong_label_takes_one_step_up() {
    let mut p = Perceptron::new(0, 5, vec![100, -200]);
    let r = p.train(&inputs(1000, 2000), 1);
    assert_eq!(r, 0);
    assert_eq!(p.weights, vec![100 + 1000 * 5, -200 + 2000 * 5]);
    assert_eq!(p.bias, 5 * BIAS_PER_RATE);
    assert_eq!(p.learning_rate, 5);
}

#[test]
fn train_on_wrong_label_takes_one_step_down() {
    let mut p = Perceptron::new(10, 5, vec![100, -200]);
    let r = p.train(&inputs(1000, -2000), 0);
    assert_eq!(r, 1);
    assert_eq!(p.weights, vec![100 - 1000 * 5, -200 - (-2000) * 5]);
    assert_eq!(p.bias, 10 - 5 * BIAS_PER_RATE);
}

#[test]
fn train_on_matches_single_steps() {
    let samples: Vec<(i32, i32)> = vec![(1000, 2000), (-3000, 500), (9999, -10000), (0, 0), (-2500, -2500)];
    let mut a = Perceptron::new(INITIAL_BIAS, INITIAL_RATE, vec![300000, 7000000]);
    let mut b = a.duplicate();
    a.train_on(&samples, 1400, -5000, 13000);
    for &(x, y) in &samples {
        let t = target_label(1400, -5000, 13000, x, y);
        b.train(&inputs(x, y), t);
    }
    assert_eq!(a.bias, b.bias);
    assert_eq!(a.weights, b.weights);
    assert_ne!(a.weights, vec![300000, 7000000]);
}

#[test]
fn target_label_is_strict() {
    // 1.4x - 5y - 13 > 0
    assert_eq!(target_label(1400, -5000, 13000, 10000, 0), 1);
    assert_eq!(target_label(1400, -5000, 13000, 0, 0), 0);
    assert_eq!(target_label(1400, -5000, 13000, 0, -2600), 0);
    assert_eq!(target_label(1400, -5000, 13000, 0, -2601), 1);
}

#[test]
fn actual_line_of_example_inequality() {
    let l = actual_line(1400, -5000, 13000).unwrap();
    assert_eq!((l.slope.num, l.slope.den), (-1400, -5000));
    assert_eq!((l.intercept.num, l.intercept.den), (13000, -5000));
    assert!((value(&l.slope) - 0.28).abs() < 1e-12);
    assert!((value(&l.intercept) + 2.6).abs() < 1e-12);
    assert!(!l.intercept.is_positive());
    let m = l.intercept.magnitude();
    assert_eq!((m.num, m.den), (13000, 5000));
    assert_eq!(format!("y = {:.2}x - {:.2}", value(&l.slope), value(&m)), "y = 0.28x - 2.60");
}

#[test]
fn vertical_target_line_is_undefined() {
    assert!(actual_line(1000, 0, 5000).is_none());
    assert!(actual_line(0, 0, 0).is_none());
}

#[test]
fn learned_line_in_real_units() {
    // weights 0.1 and -0.5, bias 0.2: y = 0.2x + 0.4
    let p = Perceptron::new(2000000000, 5, vec![1000000, -5000000]);
    let l = learned_line(&p).unwrap();
    assert!((value(&l.slope) - 0.2).abs() < 1e-12);
    assert!((value(&l.intercept) - 0.4).abs() < 1e-12);
    assert!(l.intercept.is_positive());
}

#[test]
fn vertical_learned_line_is_undefined() {
    let p = Perceptron::new(5, 5, vec![100, 0]);
    assert!(learned_line(&p).is_none());
}

#[test]
fn ratio_sign_and_magnitude() {
    assert!(Ratio { num: -3, den: -4 }.is_positive());
    assert!(!Ratio { num: 0, den: 4 }.is_positive());
    assert!(!Ratio { num: 3, den: -4 }.is_positive());
    let m = Ratio { num: 3, den: -4 }.magnitude();
    assert_eq!((m.num, m.den), (3, 4));
}

#[test]
fn init_perceptron_draws_weights_in_range() {
    let mut rng = StdRng::seed_from_u64(11);
    let p = init_perceptron(INITIAL_BIAS, INITIAL_RATE, &mut rng);
    assert_eq!(p.bias, INITIAL_BIAS);
    assert_eq!(p.learning_rate, INITIAL_RATE);
    assert_eq!(p.weights.len(), INPUTS);
    for &w in &p.weights {
        assert!(WEIGHT_FLOOR <= w && w < WEIGHT_FLOOR + WEIGHT_SPAN);
    }
    assert!(p.weights.iter().any(|&w| w != WEIGHT_FLOOR));
}

#[test]
fn draw_samples_covers_the_range() {
    let mut rng = StdRng::seed_from_u64(5);
    let s = draw_samples(&mut rng, 1000);
    assert_eq!(s.len(), 1000);
    for &(x, y) in &s {
        assert!(-(SAMPLE_LIMIT as i32) <= x && x < SAMPLE_LIMIT as i32);
        assert!(-(SAMPLE_LIMIT as i32) <= y && y < SAMPLE_LIMIT as i32);
    }
    assert!(s.iter().any(|&(x, _)| x > 0));
    assert!(s.iter().any(|&(_, y)| y < 0));
    assert!(s.iter().any(|&p| p != s[0]));
}

#[test]
fn run_reports_example_lines() {
    let mut rng = StdRng::seed_from_u64(2024);
    let report = run(1400, -5000, 13000, &mut rng);
    let actual = report.actual.unwrap();
    assert!((value(&actual.slope) - 0.28).abs() < 1e-12);
    assert!((value(&actual.intercept) + 2.6).abs() < 1e-12);
    assert_eq!(report.initial.bias, INITIAL_BIAS);
    assert_eq!(report.trained.learning_rate, INITIAL_RATE);
    let learned = report.calculated.unwrap();
    println!("{} {}", value(&learned.slope), value(&learned.intercept));
    assert!((value(&learned.slope) - 0.28).abs() <= 0.2 * 0.28);
    assert!((value(&learned.intercept) + 2.6).abs() <= 0.2 * 2.6);
}

#[test]
fn run_converges_over_many_seeds() {
    // The learned intercept lands within 20% of the true one on every seed;
    // the slope, a ratio of two small weights, within 20% on most of them.
    let mut close = 0;
    let seeds: u64 = 20;
    for seed in 0..seeds {
        let mut rng = StdRng::seed_from_u64(seed);
        let report = run(1400, -5000, 13000, &mut rng);
        if let Some(l) = report.calculated {
            let slope = value(&l.slope);
            let intercept = value(&l.intercept);
            println!("seed {}: {} {}", seed, slope, intercept);
            assert!((intercept + 2.6).abs() <= 0.2 * 2.6);
            assert!((slope - 0.28).abs() <= 0.75 * 0.28);
            if (slope - 0.28).abs() <= 0.2 * 0.28 && (intercept + 2.6).abs() <= 0.2 * 2.6 {
                close += 1;
            }
        }
    }
    assert!(close >= 14, "{} of {} runs converged", close, seeds);
}

#[test]
fn run_with_vertical_target_reports_undefined_line() {
    let mut rng = StdRng::seed_from_u64(3);
    let report = run(2000, 0, 1000, &mut rng);
    assert!(report.actual.is_none());
    assert_eq!(report.trained.weights.len(), INPUTS);
    assert!(ITERATIONS == 10000);
}
