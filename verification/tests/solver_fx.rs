//! End-to-end solver tests on the fixed-point backend.

use gauss_newton_rs::curvefit::MichaelisMentenProblem;
use gauss_newton_rs::fx::Fx;
use gauss_newton_rs::problem::Problem;
use gauss_newton_rs::solver::GaussNewton;
use gauss_newton_rs::solver::SolveError;

fn mills(list: &[i64]) -> Vec<Fx> {
    list.iter().map(|&n| Fx::from_millionths(n)).collect()
}

/// The curve-fitting scenario: x = [1.5, 1.5] and seven observation pairs.
fn scenario_problem() -> MichaelisMentenProblem {
    MichaelisMentenProblem::new(
        Fx::from_millionths(1_500_000),
        Fx::from_millionths(1_500_000),
        mills(&[38_000, 194_000, 425_000, 626_000, 1_253_000, 2_500_000, 3_740_000]),
        mills(&[50_000, 127_000, 94_000, 212_200, 272_900, 266_500, 331_700]),
    )
    .unwrap()
}

#[test]
fn test_gauss_newton_fixed_point_curve_fit() {
    let problem = scenario_problem();
    let begin_squared_error = problem.squared_error();

    let mut gauss_newton = GaussNewton::new(problem);
    gauss_newton.solve_until_converged().unwrap();

    let end_squared_error = gauss_newton.problem.squared_error();

    println!("{} iter(s)", gauss_newton.iters());
    assert!(end_squared_error.lt(begin_squared_error));
    assert!(end_squared_error.lt(Fx::from_millionths(100_000)));
    let x0 = gauss_newton.problem.parameters()[0].to_millionths();
    let x1 = gauss_newton.problem.parameters()[1].to_millionths();
    assert!((x0 - 362_000).abs() <= 1_000, "x0 was {x0}");
    assert!((x1 - 556_000).abs() <= 1_000, "x1 was {x1}");
}

#[test]
fn test_convergence_within_external_cap() {
    let problem = scenario_problem();
    let mut gauss_newton = GaussNewton::new(problem);
    let cap = 200;
    let mut steps = 0;
    while !gauss_newton.converged() && steps < cap {
        gauss_newton.step().unwrap();
        steps += 1;
    }
    assert!(gauss_newton.converged());
    assert!(steps < cap);
    assert_eq!(gauss_newton.iters(), steps);
}

#[test]
fn test_zero_residual_converges_in_one_step() {
    // observations generated exactly by the model at the initial parameters,
    // so the residual is exactly zero from the start
    let one = Fx::from_int(1);
    let s = vec![Fx::from_int(1), Fx::from_int(2)];
    let v: Vec<Fx> = s.iter().map(|&si| one.times(si).over_total(one.plus(si))).collect();
    let problem = MichaelisMentenProblem::new(one, one, s, v).unwrap();
    assert!(problem.squared_error().is_zero());

    let mut gauss_newton = GaussNewton::new(problem);
    assert_eq!(gauss_newton.iters(), 0);
    assert!(!gauss_newton.converged());
    gauss_newton.step().unwrap();
    assert!(gauss_newton.converged());
    assert_eq!(gauss_newton.iters(), 1);
    assert_eq!(gauss_newton.problem.parameters()[0].to_millionths(), 1_000_000);
    assert!(gauss_newton.problem.squared_error().is_zero());
}

#[test]
fn test_singular_normal_equations_reported() {
    // a zero substrate makes both Jacobian columns zero, so the normal
    // equations are singular
    let problem = MichaelisMentenProblem::new(
        Fx::from_int(2),
        Fx::from_int(3),
        vec![Fx::zero()],
        vec![Fx::from_int(1)],
    )
    .unwrap();
    let mut gauss_newton = GaussNewton::new(problem);
    let r = gauss_newton.step();
    assert_eq!(r, Err(SolveError::SingularNormalEquations));
    assert!(!gauss_newton.converged());
    assert_eq!(gauss_newton.iters(), 0);
    assert_eq!(gauss_newton.problem.parameters()[0].to_millionths(), 2_000_000);
    let r2 = gauss_newton.solve_until_converged();
    assert_eq!(r2, Err(SolveError::SingularNormalEquations));
}

#[test]
fn test_mismatched_observations_rejected() {
    let r = MichaelisMentenProblem::new(
        Fx::from_int(1),
        Fx::from_int(1),
        vec![Fx::from_int(1)],
        vec![Fx::from_int(1), Fx::from_int(2)],
    );
    assert!(r.is_none());
}
