//! Exact-value tests for the fixed-point scalar and linear-algebra layer.

use gauss_newton_rs::fx::Fx;
use gauss_newton_rs::fxchol::cholesky_solve_fx;
use gauss_newton_rs::fxlin::FxMatrix;
use gauss_newton_rs::fxlin::norm_fx;
use gauss_newton_rs::fxlin::normal_matrix_fx;
use gauss_newton_rs::fxlin::vec_plus_assign;

fn fxi(n: i32) -> Fx {
    Fx::from_int(n)
}

#[test]
fn test_fx_millionths_round_trip() {
    assert_eq!(Fx::from_millionths(1_500_000).to_millionths(), 1_500_000);
    assert_eq!(Fx::from_millionths(-250_000).to_millionths(), -250_000);
    assert_eq!(Fx::from_millionths(0).to_millionths(), 0);
}

#[test]
fn test_fx_arithmetic_exact() {
    assert_eq!(fxi(3).times(fxi(4)).to_millionths(), 12_000_000);
    assert_eq!(fxi(1).over(fxi(2)).to_millionths(), 500_000);
    assert_eq!(fxi(7).minus(fxi(9)).to_millionths(), -2_000_000);
    assert_eq!(fxi(7).minus(fxi(9)).abs_val().to_millionths(), 2_000_000);
    assert_eq!(fxi(-5).neg().to_millionths(), 5_000_000);
    assert_eq!(fxi(4).sqrt_val().to_millionths(), 2_000_000);
    assert!(fxi(1).lt(fxi(2)));
    assert!(!fxi(2).lt(fxi(2)));
    assert!(Fx::zero().is_zero());
    assert!(!fxi(1).is_zero());
}

#[test]
fn test_fx_product_saturates() {
    let big = fxi(2_000_000_000);
    let p = big.times(big);
    // the mantissa clamps at i64::MAX, which reads back as this many millionths
    assert_eq!(p.to_millionths(), 2_147_483_647_999_999);
}

#[test]
fn test_norm_three_four_five() {
    let v = vec![fxi(3), fxi(4)];
    assert_eq!(norm_fx(&v).to_millionths(), 5_000_000);
}

#[test]
fn test_vec_plus_assign_componentwise() {
    let mut x = vec![fxi(1), fxi(2)];
    let d = vec![fxi(10), fxi(-5)];
    vec_plus_assign(&mut x, &d);
    assert_eq!(x[0].to_millionths(), 11_000_000);
    assert_eq!(x[1].to_millionths(), -3_000_000);
}

#[test]
fn test_from_rows_rejects_ragged() {
    let rows = vec![vec![fxi(1), fxi(2)], vec![fxi(3)]];
    assert!(FxMatrix::from_rows(2, rows).is_none());
}

#[test]
fn test_normal_matrix_values_and_symmetry() {
    let rows = vec![vec![fxi(1), fxi(2)], vec![fxi(3), fxi(4)]];
    let j = FxMatrix::from_rows(2, rows).unwrap();
    let a = normal_matrix_fx(&j);
    assert_eq!(a.nrows(), 2);
    assert_eq!(a.ncols(), 2);
    assert_eq!(a.entry(0, 0).to_millionths(), 10_000_000);
    assert_eq!(a.entry(0, 1).to_millionths(), 14_000_000);
    assert_eq!(a.entry(1, 0).to_millionths(), 14_000_000);
    assert_eq!(a.entry(1, 1).to_millionths(), 20_000_000);
    assert_eq!(
        a.entry(0, 1).to_millionths(),
        a.entry(1, 0).to_millionths()
    );
}

#[test]
fn test_cholesky_solve_identity() {
    let rows = vec![vec![fxi(1), fxi(0)], vec![fxi(0), fxi(1)]];
    let a = FxMatrix::from_rows(2, rows).unwrap();
    let b = vec![fxi(3), fxi(5)];
    let x = cholesky_solve_fx(&a, &b).unwrap();
    assert_eq!(x[0].to_millionths(), 3_000_000);
    assert_eq!(x[1].to_millionths(), 5_000_000);
}

#[test]
fn test_cholesky_rejects_nonpositive_pivot() {
    let a = FxMatrix::from_rows(1, vec![vec![fxi(0)]]).unwrap();
    let b = vec![fxi(1)];
    assert!(cholesky_solve_fx(&a, &b).is_none());
}
