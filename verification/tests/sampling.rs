//! Sampling through the library's decisions: the tests perform the
//! floating-point arithmetic and the random draws, the library classifies
//! shapes, orders draws, selects algorithm branches and accepts proposals.

use rand::Rng;
use sandpiper::distribution::BcTriage;
use sandpiper::distribution::BetaAlgorithm;
use sandpiper::distribution::McDecision;
use sandpiper::Beta;
use sandpiper::Dominance;
use sandpiper::GeneticFreq;
use sandpiper::Heterozygosity;
use sandpiper::Real;
use sandpiper::Selection;
use sandpiper::SkewNormal;
use sandpiper::distribution::SkewSamplePlan;

fn rbits(x: f64) -> Real {
    Real::from_bits(x.to_bits())
}

fn float(r: Real) -> f64 {
    f64::from_bits(r.to_bits())
}

/// A deterministic generator for reproducible statistics.
fn rng(seed: u64) -> impl rand::RngCore {
    const INC: u64 = 11634580027462260723;
    rand_pcg::Pcg32::new(seed, INC)
}

/// Draws one skew-normal variate, letting the library pick the plan.
fn sample_skew_normal<R: Rng + ?Sized>(sn: &SkewNormal, r: &mut R) -> f64 {
    let location = float(sn.location);
    let scale = float(sn.scale);
    let shape = float(sn.shape);
    let linear_map = |x: f64| -> f64 { x * scale + location };
    let u_1: f64 = r.sample(rand_distr::StandardNormal);
    match sn.sample_plan() {
        SkewSamplePlan::Single => linear_map(u_1),
        plan => {
            let u_2: f64 = r.sample(rand_distr::StandardNormal);
            let (hi, lo) = rbits(u_1).descending_pair(rbits(u_2));
            let (u, v) = (float(hi), float(lo));
            match plan {
                SkewSamplePlan::Single => unreachable!(),
                SkewSamplePlan::Lower => linear_map(v),
                SkewSamplePlan::Upper => linear_map(u),
                SkewSamplePlan::Blend => {
                    let normalized = ((1. + shape) * u + (1. - shape) * v)
                        / ((1. + shape * shape).sqrt() * std::f64::consts::SQRT_2);
                    linear_map(normalized)
                }
            }
        }
    }
}

/// Draws one Beta variate by Cheng's method, on the shapes and algorithm
/// variant the library fixed at construction.
fn sample_beta<R: Rng + ?Sized>(beta: &Beta, r: &mut R) -> f64 {
    let a = float(beta.a);
    let b = float(beta.b);
    let w;
    match beta.algorithm {
        BetaAlgorithm::BB => {
            let alpha = a + b;
            let beta_c = ((alpha - 2.) / (2. * a * b - alpha)).sqrt();
            let gamma = a + 1. / beta_c;
            loop {
                let u1: f64 = r.sample(rand_distr::Open01);
                let u2: f64 = r.sample(rand_distr::Open01);
                let v = beta_c * (u1 / (1. - u1)).ln();
                let w_try = a * v.exp();
                let z = u1 * u1 * u2;
                let rr = gamma * v - 4f64.ln();
                let s = a + rr - w_try;
                let quick = s + 1. + 5f64.ln();
                let full = rr + alpha * (alpha / (b + w_try)).ln();
                if Beta::bb_accepts(rbits(quick), rbits(5. * z), rbits(s), rbits(z.ln()), rbits(full)) {
                    w = w_try;
                    break;
                }
            }
        }
        BetaAlgorithm::BC => {
            let alpha = a + b;
            let beta_c = 1. / b;
            let delta = 1. + a - b;
            let kappa1 = delta * (1. / 18. / 4. + 3. / 18. / 4. * b) / (a * beta_c - 14. / 18.);
            let kappa2 = 0.25 + (0.5 + 0.25 / delta) * b;
            loop {
                let u1: f64 = r.sample(rand_distr::Open01);
                let u2: f64 = r.sample(rand_distr::Open01);
                let (y, z) = if rbits(u1).lt(rbits(0.5)) {
                    let y = u1 * u2;
                    (y, u1 * y)
                } else {
                    (0., u1 * u1 * u2)
                };
                let screen = 0.25 * u2 + z - y;
                match Beta::bc_triage(rbits(u1), rbits(screen), rbits(kappa1), rbits(z), rbits(kappa2)) {
                    BcTriage::Reject => continue,
                    BcTriage::AcceptFast => {
                        let v = beta_c * (u1 / (1. - u1)).ln();
                        w = a * v.exp();
                        break;
                    }
                    BcTriage::FullTest => {
                        let v = beta_c * (u1 / (1. - u1)).ln();
                        let w_try = a * v.exp();
                        let lhs = alpha * ((alpha / (b + w_try)).ln() + v) - 4f64.ln();
                        if Beta::bc_full_accepts(rbits(lhs), rbits(z.ln())) {
                            w = w_try;
                            break;
                        }
                    }
                }
            }
        }
    }
    if !beta.switched_params {
        if w == f64::INFINITY {
            return 1.;
        }
        w / (b + w)
    } else {
        b / (b + w)
    }
}

/// Draws one allele frequency by rejection, letting the library decide the
/// acceptance exponent's offset.
fn sample_genetic_freq<R: Rng + ?Sized>(gf: &GeneticFreq, r: &mut R) -> f64 {
    let shape = 4. * gf.population as f64 * float(gf.mutation_rate);
    let beta = Beta::new(rbits(shape), rbits(shape)).unwrap();
    let mut proposal = sample_beta(&beta, r);
    let n = gf.population as f64;
    let s = float(gf.selection);
    let h = float(gf.dominance);
    let offset = if gf.acceptance_offset_is_one() { 1. } else { 0. };
    let reshaping = |x: f64| (2. * n * s * (x * x + 2. * h * x * (1. - x) - offset)).exp();
    while r.sample::<f64, _>(rand_distr::Standard) > reshaping(proposal) {
        proposal = sample_beta(&beta, r);
    }
    proposal
}

/// Draws one heterozygosity value `2x(1-x)`.
fn sample_heterozygosity<R: Rng + ?Sized>(het: &Heterozygosity, r: &mut R) -> f64 {
    let selection = match het.selection {
        Selection::Fixed(s) => float(s),
        Selection::SkewNormal { location, scale, shape, .. } => {
            let sn = SkewNormal::new(location, scale, shape).unwrap();
            let mut proposal = sample_skew_normal(&sn, r);
            while !het.selection_in_bounds(rbits(proposal)) {
                proposal = sample_skew_normal(&sn, r);
            }
            proposal
        }
    };
    let dominance = match het.dominance {
        Dominance::Fixed(h) => float(h),
        Dominance::Sigmoid { rate } => 1. / (1. + (-float(rate) * selection).exp()),
    };
    let gf =
        GeneticFreq::new(het.population, het.mutation_rate, rbits(selection), rbits(dominance))
            .unwrap();
    let x = sample_genetic_freq(&gf, r);
    2. * x * (1. - x)
}

#[test]
fn mean() {
    let population = 1000;
    let mutation_rate = 0.00001;
    let selection = 0.0;
    let dominance = 0.5;

    let gen_freq =
        GeneticFreq::new(population, rbits(mutation_rate), rbits(selection), rbits(dominance))
            .unwrap();
    let expected = 0.5;

    let mut r = rng(1);
    let mut sum = 0.0;
    for _ in 0..100000 {
        sum += sample_genetic_freq(&gen_freq, &mut r);
    }
    let sampled = sum / 100000.;

    assert!((expected - sampled).abs() < 1e-2);
}

#[test]
fn skew_normal_mean_matches_the_known_values() {
    // (location, scale, shape, expected mean)
    let cases = [
        (0., 1., 0., 0.0),
        (0., 1., -1., -0.557),
        (0., 1., 1., 0.569),
        (0., 10., -1., -5.57),
        (0., 10., 1., 5.69),
        (0., 1., 5., 0.784),
    ];
    for (location, scale, shape, expected) in cases {
        let sn = SkewNormal::new(rbits(location), rbits(scale), rbits(shape)).unwrap();
        let samples = 100_000;
        let mut r = rng(1);
        let mut sum = 0.0;
        for _ in 0..samples {
            sum += sample_skew_normal(&sn, &mut r);
        }
        let result = sum / samples as f64;
        assert!(
            (expected - result).abs() < 1e-2 * scale.max(1.0),
            "mean {result} expected {expected} for shape {shape}"
        );
    }
}

#[test]
fn zero_shape_sampling_is_plain_normal_sampling() {
    // With shape 0 the library's plan is Single, so the draw is exactly
    // `location + scale * u1`: replaying the same generator through the
    // plain normal distribution must give bit-identical samples.
    let sn = SkewNormal::new(rbits(2.5), rbits(3.0), rbits(0.0)).unwrap();
    let mut r1 = rng(42);
    let skewed: Vec<f64> = (0..1000).map(|_| sample_skew_normal(&sn, &mut r1)).collect();
    let mut r2 = rng(42);
    let plain: Vec<f64> = (0..1000)
        .map(|_| {
            let u: f64 = r2.sample(rand_distr::StandardNormal);
            u * 3.0 + 2.5
        })
        .collect();
    assert_eq!(skewed, plain);
}

#[test]
fn beta_samples_lie_in_the_unit_interval() {
    let shapes = [(2.0, 5.0), (5.0, 2.0), (0.5, 0.5), (0.04, 0.04), (3.0, 0.5), (1.0, 1.0)];
    let mut r = rng(7);
    for (alpha, beta_shape) in shapes {
        let beta = Beta::new(rbits(alpha), rbits(beta_shape)).unwrap();
        let mut sum = 0.0;
        let draws = 20_000;
        for _ in 0..draws {
            let x = sample_beta(&beta, &mut r);
            // Samples stay within the unit interval; with extreme shapes
            // the internal variate can underflow and land exactly on a
            // boundary, so only moderate shapes exclude the ends.
            assert!(
                (0.0..=1.0).contains(&x),
                "sample {x} out of [0,1] for Beta({alpha},{beta_shape})"
            );
            if alpha.min(beta_shape) >= 0.5 {
                assert!(
                    x > 0.0 && x < 1.0,
                    "sample {x} out of (0,1) for Beta({alpha},{beta_shape})"
                );
            }
            sum += x;
        }
        let mean = sum / draws as f64;
        let expected = alpha / (alpha + beta_shape);
        assert!(
            (mean - expected).abs() < 2e-2,
            "mean {mean} expected {expected} for Beta({alpha},{beta_shape})"
        );
    }
}

#[test]
fn heterozygosity_adaptive_mean_meets_its_error_limit() {
    let het = Heterozygosity::new(
        1000,
        rbits(0.00001),
        Selection::Fixed(rbits(0.0)),
        Dominance::Fixed(rbits(0.5)),
    )
    .unwrap();
    let mut r = rng(3);
    let error_limit = 2e-3;

    // The adaptive estimator: replicate accumulators, doubled budgets,
    // every stop/continue decision made by the verified controller.
    let variance_samples = 4;
    let mut samples: usize = 1000;
    let mut accumulators: Vec<average::Mean> = (0..variance_samples)
        .map(|_| (0..samples).map(|_| sample_heterozygosity(&het, &mut r)).collect())
        .collect();
    let mut variance: average::Variance =
        accumulators.iter().map(|accumulator| accumulator.mean()).collect();
    loop {
        match Heterozygosity::mc_step(samples, rbits(variance.error()), rbits(error_limit)) {
            McDecision::Converged => break,
            McDecision::Continue { samples: next } => {
                samples = next;
                for accumulator in accumulators.iter_mut() {
                    let fresh: average::Mean =
                        (0..samples).map(|_| sample_heterozygosity(&het, &mut r)).collect();
                    average::Merge::merge(accumulator, &fresh);
                }
                variance = accumulators.iter().map(|accumulator| accumulator.mean()).collect();
            }
        }
    }
    assert!(variance.error() <= error_limit, "error {} above limit", variance.error());
    // The neutral symmetric case keeps the mean strictly inside (0, 0.5].
    let mean = variance.mean();
    assert!(mean > 0.0 && mean <= 0.5, "mean {mean}");
}

#[test]
fn bounded_selection_resampling_respects_the_bounds() {
    let het = Heterozygosity::new(
        100,
        rbits(0.00001),
        Selection::SkewNormal {
            location: rbits(0.0),
            scale: rbits(1.0),
            shape: rbits(0.0),
            bounds: Some(sandpiper::distribution::SelectionBounds {
                lower: rbits(-0.5),
                upper: rbits(0.5),
            }),
        },
        Dominance::Sigmoid { rate: rbits(2.0) },
    )
    .unwrap();
    let sn = SkewNormal::new(rbits(0.0), rbits(1.0), rbits(0.0)).unwrap();
    let mut r = rng(9);
    for _ in 0..2000 {
        let mut proposal = sample_skew_normal(&sn, &mut r);
        while !het.selection_in_bounds(rbits(proposal)) {
            proposal = sample_skew_normal(&sn, &mut r);
        }
        assert!((-0.5..=0.5).contains(&proposal), "proposal {proposal}");
    }
}
