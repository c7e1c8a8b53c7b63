use stochastic_sim::ParamError;
use stochastic_sim::distribution::{Bernoulli, Rademacher};
use stochastic_sim::fixed::{SCALE, isqrt, sat_add, scaled_div};
use stochastic_sim::poisson;
use stochastic_sim::process::{EulerMaruyamaSimulator, WienerProcess, em_update};
use stochastic_sim::rademacher;
use stochastic_sim::ratio::{Ratio, scale};
use stochastic_sim::rng::RandomSource;
use stochastic_sim::walk;

fn half() -> Bernoulli {
    Bernoulli::new(1, 2).unwrap()
}

#[test]
fn scale_halves_and_quarters() {
    assert_eq!(scale(200, &Ratio { num: 1, den: 2 }), 100);
    assert_eq!(scale(4, &Ratio { num: 1, den: 2 }), 2);
    assert_eq!(scale(400, &Ratio { num: 1, den: 4 }), 100);
    assert_eq!(scale(100, &Ratio { num: 0, den: 1 }), 0);
    assert_eq!(scale(100, &Ratio { num: 1, den: 1 }), 100);
}

#[test]
fn probability_outside_unit_interval_is_rejected() {
    assert_eq!(Bernoulli::new(2, 1).unwrap_err(), ParamError::InvalidProbability);
    assert_eq!(Bernoulli::new(1, 0).unwrap_err(), ParamError::InvalidProbability);
    assert!(Bernoulli::new(0, 1).is_ok());
    assert!(Bernoulli::new(1, 1).is_ok());
    assert_eq!(Rademacher::new(3, 2).unwrap_err(), ParamError::InvalidProbability);
    assert!(Rademacher::new(1, 2).is_ok());
    assert_eq!(Ratio::new(1, 0).unwrap_err(), ParamError::InvalidRatio);
    assert_eq!(Ratio::new(7, 4).unwrap(), Ratio { num: 7, den: 4 });
}

#[test]
fn poisson_rate_above_trials_is_rejected() {
    let t = Ratio { num: 1, den: 1 };
    let err = poisson::Simulator::new(t, 4, Ratio { num: 5, den: 1 }).unwrap_err();
    assert_eq!(err, ParamError::RateExceedsTrials);
    // lambda == n sits exactly at probability one and is accepted.
    assert!(poisson::Simulator::new(t, 4, Ratio { num: 4, den: 1 }).is_ok());
    assert!(poisson::Simulator::new(t, 4, Ratio { num: 7, den: 2 }).is_ok());
    let err = poisson::Simulator::new(t, 0, Ratio { num: 1, den: 2 }).unwrap_err();
    assert_eq!(err, ParamError::ZeroTrials);
    let err = poisson::Simulator::new(t, 4, Ratio { num: 1, den: 0 }).unwrap_err();
    assert_eq!(err, ParamError::InvalidRatio);
    let err = poisson::Simulator::new(t, 3, Ratio { num: 1, den: u64::MAX }).unwrap_err();
    assert_eq!(err, ParamError::CapacityExceeded);
}

#[test]
fn poisson_run_counts_successes() {
    let t = Ratio { num: 1, den: 1 };
    let sim = poisson::Simulator::new(t, 50, Ratio { num: 25, den: 1 }).unwrap();
    let mut src = RandomSource::new();
    let out = sim.run(&mut src);
    assert_eq!(out.values().len(), 50);
    let mut prev = 0i64;
    for (i, &v) in out.values().iter().enumerate() {
        assert!(v == prev || v == prev + 1);
        assert!(0 <= v && v <= i as i64 + 1);
        prev = v;
    }
    assert_eq!(out.final_value(), *out.values().last().unwrap());
}

#[test]
fn poisson_certain_rate_counts_every_trial() {
    // lambda == n derives probability one: every trial succeeds.
    let t = Ratio { num: 1, den: 1 };
    let sim = poisson::Simulator::new(t, 20, Ratio { num: 20, den: 1 }).unwrap();
    let mut src = RandomSource::new();
    let out = sim.run(&mut src);
    let expected: Vec<i64> = (1..=20).collect();
    assert_eq!(out.values().as_slice(), expected.as_slice());
    assert_eq!(out.final_value(), 20);
}

#[test]
fn random_walk_has_configured_length() {
    let mut src = RandomSource::new();
    for n in [0u32, 1, 2, 17, 100] {
        let sim = walk::Simulator::new(n, 3, half());
        let w = sim.random_walk(&mut src);
        assert_eq!(w.values().len(), n as usize);
    }
}

#[test]
fn empty_walk_final_value_is_zero() {
    let mut src = RandomSource::new();
    let sim = walk::Simulator::new(0, 3, half());
    let w = sim.random_walk(&mut src);
    assert_eq!(w.values().len(), 0);
    assert_eq!(w.final_value(), 0);
}

#[test]
fn walk_without_attackers_increases_by_one() {
    let mut src = RandomSource::new();
    let sim = walk::Simulator::new(25, 0, half());
    let w = sim.random_walk(&mut src);
    for (i, &v) in w.values().iter().enumerate() {
        assert_eq!(v, i as i64 + 1);
    }
    assert_eq!(w.final_value(), 25);
}

#[test]
fn walk_with_certain_violation_decreases_by_one() {
    // p == 1 with one attacker: every step is violated, the walk is -1..-n.
    let mut src = RandomSource::new();
    let certain = Bernoulli::new(1, 1).unwrap();
    let sim = walk::Simulator::new(10, 1, certain);
    let w = sim.random_walk(&mut src);
    for (i, &v) in w.values().iter().enumerate() {
        assert_eq!(v, -(i as i64 + 1));
    }
    assert_eq!(w.final_value(), -10);
}

#[test]
fn walk_steps_differ_by_one() {
    let mut src = RandomSource::new();
    let sim = walk::Simulator::new(200, 1, half());
    let w = sim.random_walk(&mut src);
    let mut prev = 0i64;
    for &v in w.values() {
        assert_eq!((v - prev).abs(), 1);
        prev = v;
    }
}

#[test]
fn rademacher_walk_has_floor_of_n_t_steps() {
    let mut src = RandomSource::new();
    // floor(5 * 3/2) = 7
    let sim = rademacher::Simulator::new(Ratio { num: 3, den: 2 }, 5, half());
    let out = sim.run(&mut src);
    assert_eq!(out.values().len(), 7);
    assert_eq!(out.sums().len(), 7);
    // floor(0 * t) = 0: an empty walk whose final value is zero.
    let sim = rademacher::Simulator::new(Ratio { num: 3, den: 2 }, 0, half());
    let out = sim.run(&mut src);
    assert_eq!(out.values().len(), 0);
    assert_eq!(out.final_value(), 0);
}

#[test]
fn rademacher_walk_scales_every_sum() {
    let mut src = RandomSource::new();
    let n: u32 = 10;
    let sim = rademacher::Simulator::new(Ratio { num: 4, den: 1 }, n, half());
    let out = sim.run(&mut src);
    assert_eq!(out.values().len(), 40);
    let sf = isqrt(n as u128 * SCALE as u128 * SCALE as u128);
    assert_eq!(out.scale_factor(), sf);
    let mut prev = 0i64;
    for (&s, &v) in out.sums().iter().zip(out.values().iter()) {
        assert_eq!((s - prev).abs(), 1, "sums step by one");
        assert_eq!(v, scaled_div(s, sf), "value is the scaled sum");
        prev = s;
    }
    assert_eq!(out.final_value(), *out.values().last().unwrap());
}

#[test]
fn isqrt_brackets_the_square_root() {
    assert_eq!(isqrt(0), 0);
    assert_eq!(isqrt(1), 1);
    assert_eq!(isqrt(2), 1);
    assert_eq!(isqrt(3), 1);
    assert_eq!(isqrt(4), 2);
    assert_eq!(isqrt(1_000_000_000_000), 1_000_000);
    assert_eq!(isqrt(999_999_999_999), 999_999);
    assert_eq!(isqrt(u128::MAX), u64::MAX);
}

#[test]
fn scaled_div_rounds_toward_zero() {
    assert_eq!(scaled_div(3, 2_000_000), 1);
    assert_eq!(scaled_div(-3, 2_000_000), -1);
    assert_eq!(scaled_div(4, 2_000_000), 2);
    assert_eq!(scaled_div(-4, 2_000_000), -2);
    assert_eq!(scaled_div(0, 1_000_000), 0);
}

#[test]
fn sat_add_clamps_at_the_bounds() {
    assert_eq!(sat_add(1, 2), 3);
    assert_eq!(sat_add(i64::MAX, 1), i64::MAX);
    assert_eq!(sat_add(i64::MIN, -1), i64::MIN);
    assert_eq!(sat_add(i64::MAX, i64::MIN), -1);
}

#[test]
fn em_update_matches_the_step_rule() {
    // prev + drift + diffusion * w, all in micro-units.
    assert_eq!(em_update(5_000_000, 1_000_000, 0, 123), 6_000_000);
    assert_eq!(em_update(0, 0, 2_000_000, 500_000), 1_000_000);
    assert_eq!(em_update(0, 0, -1_500_000, 1), -1);
    assert_eq!(em_update(0, 0, 1_500_000, -1), -1);
    assert_eq!(em_update(0, 0, -1_000_000, -1_000_000), 1_000_000);
    assert_eq!(em_update(i64::MAX, 1, 0, 0), i64::MAX);
    assert_eq!(em_update(i64::MIN, -1, 0, 0), i64::MIN);
}

#[test]
fn wiener_process_accumulates_increments() {
    let mut w = WienerProcess::new();
    assert_eq!(w.current, 0);
    assert_eq!(w.advance(5), 5);
    assert_eq!(w.advance(-3), 2);
    assert_eq!(w.advance(i64::MAX), i64::MAX);
    assert_eq!(w.advance(i64::MAX), i64::MAX);
}

#[test]
fn em_path_has_ceil_of_t_over_dt_steps() {
    let mut src = RandomSource::new();
    let rad = Rademacher::new(1, 2).unwrap();
    // ceil(1 / (3/10)) = ceil(10/3) = 4
    let mut sim = EulerMaruyamaSimulator::new(
        rad,
        0,
        1_000_000,
        Ratio { num: 3, den: 10 },
        Ratio { num: 1, den: 1 },
    )
    .unwrap();
    assert_eq!(sim.n(), 4);
    let out = sim.run(&mut src);
    assert_eq!(out.values().len(), 4);
    assert_eq!(out.values()[0], 0);
    // an exact division: ceil(10 / 2) = 5
    let rad = Rademacher::new(1, 2).unwrap();
    let mut sim = EulerMaruyamaSimulator::new(
        rad,
        0,
        1_000_000,
        Ratio { num: 2, den: 1 },
        Ratio { num: 10, den: 1 },
    )
    .unwrap();
    assert_eq!(sim.n(), 5);
    let out = sim.run(&mut src);
    assert_eq!(out.values().len(), 5);
    assert_eq!(out.values()[0], 0);
    assert_eq!(out.final_value(), *out.values().last().unwrap());
}

#[test]
fn em_rejects_invalid_configurations() {
    let err = EulerMaruyamaSimulator::new(
        Rademacher::new(1, 2).unwrap(),
        0,
        0,
        Ratio { num: 0, den: 1 },
        Ratio { num: 1, den: 1 },
    )
    .unwrap_err();
    assert_eq!(err, ParamError::ZeroStepSize);
    let err = EulerMaruyamaSimulator::new(
        Rademacher::new(1, 2).unwrap(),
        0,
        0,
        Ratio { num: 1, den: 0 },
        Ratio { num: 1, den: 1 },
    )
    .unwrap_err();
    assert_eq!(err, ParamError::InvalidRatio);
    let err = EulerMaruyamaSimulator::new(
        Rademacher::new(1, 2).unwrap(),
        0,
        0,
        Ratio { num: 1, den: 1 },
        Ratio { num: 0, den: 1 },
    )
    .unwrap_err();
    assert_eq!(err, ParamError::ZeroSteps);
    let err = EulerMaruyamaSimulator::new(
        Rademacher::new(1, 2).unwrap(),
        0,
        0,
        Ratio { num: 1, den: 1 << 33 },
        Ratio { num: 1, den: 1 },
    )
    .unwrap_err();
    assert_eq!(err, ParamError::CapacityExceeded);
}

#[test]
fn em_without_diffusion_is_the_drift_line() {
    let mut src = RandomSource::new();
    let rad = Rademacher::new(1, 2).unwrap();
    let drift: i64 = 250_000;
    let mut sim = EulerMaruyamaSimulator::new(
        rad,
        drift,
        0,
        Ratio { num: 1, den: 10 },
        Ratio { num: 1, den: 1 },
    )
    .unwrap();
    let out = sim.run(&mut src);
    assert_eq!(out.values().len(), 10);
    for (i, &v) in out.values().iter().enumerate() {
        assert_eq!(v, i as i64 * drift);
    }
}

#[test]
fn independent_runs_differ() {
    // With 64 fair +/-1 steps, two runs agreeing everywhere has probability
    // 2^-64: a collision means the source is not being drawn.
    let mut src = RandomSource::new();
    let sim = walk::Simulator::new(64, 1, half());
    let a = sim.random_walk(&mut src);
    let b = sim.random_walk(&mut src);
    assert_ne!(a.values().as_slice(), b.values().as_slice());
}

#[test]
fn em_with_rademacher_moves_by_drift_plus_minus_diffusion() {
    // With a Rademacher process every draw is +/-SCALE, so each step adds
    // exactly drift + diffusion or drift - diffusion.
    let mut src = RandomSource::new();
    let rad = Rademacher::new(1, 2).unwrap();
    let drift: i64 = 100;
    let diffusion: i64 = 3_000_000;
    let mut sim = EulerMaruyamaSimulator::new(
        rad,
        drift,
        diffusion,
        Ratio { num: 1, den: 50 },
        Ratio { num: 1, den: 1 },
    )
    .unwrap();
    let out = sim.run(&mut src);
    assert_eq!(out.values().len(), 50);
    let mut prev = 0i64;
    for (i, &v) in out.values().iter().enumerate() {
        if i == 0 {
            assert_eq!(v, 0);
        } else {
            let d = v - prev;
            assert!(d == drift + diffusion || d == drift - diffusion, "step {i} moved by {d}");
        }
        prev = v;
    }
}

#[test]
fn walk_with_impossible_violation_increases_by_one() {
    // p == 0: no attacker can ever succeed, whatever m is.
    let mut src = RandomSource::new();
    let never = Bernoulli::new(0, 1).unwrap();
    let sim = walk::Simulator::new(12, 3, never);
    let w = sim.random_walk(&mut src);
    for (i, &v) in w.values().iter().enumerate() {
        assert_eq!(v, i as i64 + 1);
    }
    assert_eq!(w.final_value(), 12);
}

#[test]
fn poisson_zero_rate_counts_nothing() {
    let t = Ratio { num: 1, den: 1 };
    let sim = poisson::Simulator::new(t, 15, Ratio { num: 0, den: 1 }).unwrap();
    let mut src = RandomSource::new();
    let out = sim.run(&mut src);
    assert_eq!(out.values().as_slice(), &[0i64; 15]);
    assert_eq!(out.final_value(), 0);
}

#[test]
fn rademacher_walk_probability_corners() {
    let mut src = RandomSource::new();
    let t = Ratio { num: 2, den: 1 };
    // p == 1: every step is +1.
    let certain = Bernoulli::new(1, 1).unwrap();
    let out = rademacher::Simulator::new(t, 4, certain).run(&mut src);
    let expected: Vec<i64> = (1..=8).collect();
    assert_eq!(out.sums().as_slice(), expected.as_slice());
    // p == 0: every step is -1.
    let never = Bernoulli::new(0, 1).unwrap();
    let out = rademacher::Simulator::new(t, 4, never).run(&mut src);
    let expected: Vec<i64> = (1..=8).map(|i| -i).collect();
    assert_eq!(out.sums().as_slice(), expected.as_slice());
}
