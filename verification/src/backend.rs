//! Abstract dense linear-algebra capability.
//!
//! The Gauss-Newton iteration needs exactly: a scalar with subtraction,
//! absolute value, division and comparison; a Euclidean vector norm; the
//! normal-equations matrix `Jᵗ·J`; the right-hand side `-Jᵗ·e`; and a
//! Cholesky-style symmetric positive-definite solve.  A backend supplies
//! carrier types together with mathematical models of them, and every
//! operation is specified by a model-level function, so the solver's own
//! contract is exact relative to the backend's semantics.

use vstd::prelude::*;

verus! {

/// Dense vector/matrix capability the solver is parameterized over.
///
/// The `*Model` associated types are the mathematical models of the carrier
/// types; each executable operation is pinned to its model-level counterpart
/// by its `ensures` clause, so two backends may represent values differently
/// while the solver's contract stays exact.
pub trait Backend {
    /// Scalar carrier.
    type Scalar;

    /// Dense vector carrier.
    type Vector;

    /// Dense matrix carrier.
    type Matrix;

    /// Mathematical model of a scalar.
    type ScalarModel;

    /// Mathematical model of a vector.
    type VectorModel;

    /// Mathematical model of a matrix.
    type MatrixModel;

    /// The model a scalar value denotes.
    spec fn scalar_model(s: Self::Scalar) -> Self::ScalarModel;

    /// The model a vector value denotes.
    spec fn vector_model(v: Self::Vector) -> Self::VectorModel;

    /// The model a matrix value denotes.
    spec fn matrix_model(m: Self::Matrix) -> Self::MatrixModel;

    /// Entry `(i, k)` of a matrix model.
    spec fn mat_entry(m: Self::MatrixModel, i: int, k: int) -> Self::ScalarModel;

    /// Length of a vector model.
    spec fn len_of(v: Self::VectorModel) -> nat;

    /// Row count of a matrix model.
    spec fn rows_of(m: Self::MatrixModel) -> nat;

    /// Column count of a matrix model.
    spec fn cols_of(m: Self::MatrixModel) -> nat;

    /// Whether a scalar is exactly zero.
    spec fn is_zero_model(a: Self::ScalarModel) -> bool;

    /// Strict order on scalars.
    spec fn less_than_model(a: Self::ScalarModel, b: Self::ScalarModel) -> bool;

    /// The difference `a - b`.
    spec fn diff_model(a: Self::ScalarModel, b: Self::ScalarModel) -> Self::ScalarModel;

    /// The absolute value of `a`.
    spec fn magnitude_model(a: Self::ScalarModel) -> Self::ScalarModel;

    /// The quotient `a / b` (meaningful when `b` is not zero).
    spec fn ratio_model(a: Self::ScalarModel, b: Self::ScalarModel) -> Self::ScalarModel;

    /// The Euclidean norm of a vector.
    spec fn norm_model(v: Self::VectorModel) -> Self::ScalarModel;

    /// The componentwise sum `a + b` (the additive parameter update).
    spec fn vector_sum_model(a: Self::VectorModel, b: Self::VectorModel) -> Self::VectorModel;

    /// The normal-equations matrix `Jᵗ·J` of a Jacobian `J`.
    spec fn normal_matrix_model(j: Self::MatrixModel) -> Self::MatrixModel;

    /// The right-hand side `-Jᵗ·e` for a Jacobian `J` and residual `e`.
    spec fn neg_gradient_model(j: Self::MatrixModel, e: Self::VectorModel) -> Self::VectorModel;

    /// Whether the symmetric solve succeeds on `a`: whether `a` is accepted
    /// as positive-definite by the backend's Cholesky factorization.
    spec fn solvable_model(a: Self::MatrixModel) -> bool;

    /// The solution the backend returns for `a · x = b` when `a` is solvable.
    spec fn solution_model(a: Self::MatrixModel, b: Self::VectorModel) -> Self::VectorModel;

    /// The backend's representation of the relative tolerance 1e-6.
    spec fn default_tolerance_model() -> Self::ScalarModel;

    /// Whether a scalar is exactly zero.
    fn is_zero(a: &Self::Scalar) -> (r: bool)
        ensures
            r == Self::is_zero_model(Self::scalar_model(*a)),
    ;

    /// Strict comparison `a < b`.
    fn less_than(a: &Self::Scalar, b: &Self::Scalar) -> (r: bool)
        ensures
            r == Self::less_than_model(Self::scalar_model(*a), Self::scalar_model(*b)),
    ;

    /// The difference `a - b`.
    fn diff(a: &Self::Scalar, b: &Self::Scalar) -> (r: Self::Scalar)
        ensures
            Self::scalar_model(r) == Self::diff_model(
                Self::scalar_model(*a),
                Self::scalar_model(*b),
            ),
    ;

    /// The absolute value of `a`.
    fn magnitude(a: &Self::Scalar) -> (r: Self::Scalar)
        ensures
            Self::scalar_model(r) == Self::magnitude_model(Self::scalar_model(*a)),
    ;

    /// The quotient `a / b`; the caller must rule out a zero divisor.
    fn ratio(a: &Self::Scalar, b: &Self::Scalar) -> (r: Self::Scalar)
        requires
            !Self::is_zero_model(Self::scalar_model(*b)),
        ensures
            Self::scalar_model(r) == Self::ratio_model(
                Self::scalar_model(*a),
                Self::scalar_model(*b),
            ),
    ;

    /// The Euclidean norm of a vector.
    fn norm(v: &Self::Vector) -> (r: Self::Scalar)
        ensures
            Self::scalar_model(r) == Self::norm_model(Self::vector_model(*v)),
    ;

    /// The normal-equations matrix `Jᵗ·J`, an n×n matrix for an m×n Jacobian.
    /// For any Jacobian the result is exactly symmetric, entry by entry.
    fn normal_matrix(j: &Self::Matrix) -> (r: Self::Matrix)
        ensures
            Self::matrix_model(r) == Self::normal_matrix_model(Self::matrix_model(*j)),
            Self::rows_of(Self::matrix_model(r)) == Self::cols_of(Self::matrix_model(*j)),
            Self::cols_of(Self::matrix_model(r)) == Self::cols_of(Self::matrix_model(*j)),
            forall|i: int, k: int|
                0 <= i < Self::cols_of(Self::matrix_model(*j)) && 0 <= k < Self::cols_of(
                    Self::matrix_model(*j),
                ) ==> #[trigger] Self::mat_entry(Self::matrix_model(r), i, k) == Self::mat_entry(
                    Self::matrix_model(r),
                    k,
                    i,
                ),
    ;

    /// The right-hand side `-Jᵗ·e`, a vector of length n for an m×n Jacobian.
    fn neg_gradient(j: &Self::Matrix, e: &Self::Vector) -> (r: Self::Vector)
        requires
            Self::len_of(Self::vector_model(*e)) == Self::rows_of(Self::matrix_model(*j)),
        ensures
            Self::vector_model(r) == Self::neg_gradient_model(
                Self::matrix_model(*j),
                Self::vector_model(*e),
            ),
            Self::len_of(Self::vector_model(r)) == Self::cols_of(Self::matrix_model(*j)),
    ;

    /// Solve `a · x = b` through a Cholesky (symmetric positive-definite)
    /// factorization of `a`.  Returns `None` exactly when the factorization
    /// rejects `a` as not positive-definite.
    fn cholesky_solve(a: &Self::Matrix, b: &Self::Vector) -> (r: Option<Self::Vector>)
        requires
            Self::rows_of(Self::matrix_model(*a)) == Self::cols_of(Self::matrix_model(*a)),
            Self::len_of(Self::vector_model(*b)) == Self::rows_of(Self::matrix_model(*a)),
        ensures
            r is Some <==> Self::solvable_model(Self::matrix_model(*a)),
            (r matches Some(x) ==> Self::vector_model(x) == Self::solution_model(
                Self::matrix_model(*a),
                Self::vector_model(*b),
            ) && Self::len_of(Self::vector_model(x)) == Self::len_of(Self::vector_model(*b))),
    ;

    /// The backend's representation of the relative tolerance 1e-6.
    fn default_tolerance() -> (r: Self::Scalar)
        ensures
            Self::scalar_model(r) == Self::default_tolerance_model(),
    ;
}

} // verus!
