//! The saturating fixed-point backend.
//!
//! Implements the dense linear-algebra capability over [`Fx`] scalars,
//! `Vec<Fx>` vectors and [`FxMatrix`] matrices.  Models are mantissas: a
//! scalar models as `int`, a vector as `Seq<int>`, a matrix as [`MatModel`].

use vstd::prelude::*;

use crate::backend::Backend;
use crate::fx::Fx;
use crate::fx::fx_diff;
use crate::fx::fx_magnitude;
use crate::fx::fx_norm;
use crate::fx::fx_quot;
use crate::fxchol::cholesky_solve_fx;
use crate::fxchol::fx_solution;
use crate::fxchol::fx_solvable;
use crate::fxlin::FxMatrix;
use crate::fxlin::MatModel;
use crate::fxlin::fx_neg_gradient;
use crate::fxlin::fx_normal;
use crate::fxlin::fx_vec_sum;
use crate::fxlin::neg_gradient_fx;
use crate::fxlin::norm_fx;
use crate::fxlin::normal_matrix_fx;
use crate::fxlin::vec_model;
use crate::laws::lemma_normal_matrix_symmetric;

verus! {

/// Backend over saturating fixed-point arithmetic; every operation is exact
/// relative to the mantissa models.
pub struct FxBackend;

impl Backend for FxBackend {
    type Scalar = Fx;

    type Vector = Vec<Fx>;

    type Matrix = FxMatrix;

    type ScalarModel = int;

    type VectorModel = Seq<int>;

    type MatrixModel = MatModel;

    open spec fn scalar_model(s: Fx) -> int {
        s.raw()
    }

    open spec fn vector_model(v: Vec<Fx>) -> Seq<int> {
        vec_model(v)
    }

    open spec fn matrix_model(m: FxMatrix) -> MatModel {
        m.model()
    }

    open spec fn mat_entry(m: MatModel, i: int, k: int) -> int {
        m.rows[i][k]
    }

    open spec fn len_of(v: Seq<int>) -> nat {
        v.len()
    }

    open spec fn rows_of(m: MatModel) -> nat {
        m.rows.len()
    }

    open spec fn cols_of(m: MatModel) -> nat {
        m.cols
    }

    open spec fn is_zero_model(a: int) -> bool {
        a == 0
    }

    open spec fn less_than_model(a: int, b: int) -> bool {
        a < b
    }

    open spec fn diff_model(a: int, b: int) -> int {
        fx_diff(a, b)
    }

    open spec fn magnitude_model(a: int) -> int {
        fx_magnitude(a)
    }

    open spec fn ratio_model(a: int, b: int) -> int {
        fx_quot(a, b)
    }

    open spec fn norm_model(v: Seq<int>) -> int {
        fx_norm(v)
    }

    open spec fn vector_sum_model(a: Seq<int>, b: Seq<int>) -> Seq<int> {
        fx_vec_sum(a, b)
    }

    open spec fn normal_matrix_model(j: MatModel) -> MatModel {
        fx_normal(j)
    }

    open spec fn neg_gradient_model(j: MatModel, e: Seq<int>) -> Seq<int> {
        fx_neg_gradient(j, e)
    }

    open spec fn solvable_model(a: MatModel) -> bool {
        fx_solvable(a)
    }

    open spec fn solution_model(a: MatModel, b: Seq<int>) -> Seq<int> {
        fx_solution(a, b)
    }

    open spec fn default_tolerance_model() -> int {
        4294
    }

    fn is_zero(a: &Fx) -> (r: bool) {
        (*a).is_zero()
    }

    fn less_than(a: &Fx, b: &Fx) -> (r: bool) {
        (*a).lt(*b)
    }

    fn diff(a: &Fx, b: &Fx) -> (r: Fx) {
        (*a).minus(*b)
    }

    fn magnitude(a: &Fx) -> (r: Fx) {
        (*a).abs_val()
    }

    fn ratio(a: &Fx, b: &Fx) -> (r: Fx) {
        (*a).over(*b)
    }

    fn norm(v: &Vec<Fx>) -> (r: Fx) {
        norm_fx(v)
    }

    fn normal_matrix(j: &FxMatrix) -> (r: FxMatrix) {
        let r = normal_matrix_fx(j);
        proof {
            assert forall|i: int, k: int|
                0 <= i < j.model().cols && 0 <= k < j.model().cols implies #[trigger] r.model(
            ).rows[i][k] == r.model().rows[k][i] by {
                lemma_normal_matrix_symmetric(j.model(), i, k);
            }
        }
        r
    }

    fn neg_gradient(j: &FxMatrix, e: &Vec<Fx>) -> (r: Vec<Fx>) {
        neg_gradient_fx(j, e)
    }

    fn cholesky_solve(a: &FxMatrix, b: &Vec<Fx>) -> (r: Option<Vec<Fx>>) {
        cholesky_solve_fx(a, b)
    }

    /// The largest fixed-point value not above 1e-6: mantissa
    /// `SCALE / 1_000_000` rounded down.
    fn default_tolerance() -> (r: Fx) {
        let r = Fx::from_millionths(1);
        proof {
            assert(4294967296int / 1000000int == 4294);
            assert(crate::fx::tdiv(1 * (crate::fx::SCALE as int), 1000000) == 4294);
        }
        r
    }
}

} // verus!
