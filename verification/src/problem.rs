//! The capability contract a residual model must satisfy to be solvable.

use vstd::prelude::*;

use crate::backend::Backend;

verus! {

/// A parameterized residual model.
///
/// A problem owns its parameter vector (length n) and can produce, at the
/// current parameters, the residual ("error") vector (length m) and the m×n
/// Jacobian of the residual with respect to the parameters.  Parameters are
/// mutated only through the additive update.  The `*_model` spec functions
/// are the mathematical state the contracts speak of: the fixed data never
/// changes, and the residual and the Jacobian are pure functions of the data
/// and the current parameters, recomputed on every call.
pub trait Problem: Sized {
    /// The linear-algebra backend the problem's types belong to.
    type B: Backend;

    /// Model of the problem's fixed (non-parameter) state: the observation
    /// data the residual is computed against.
    type DataModel;

    /// Model of the current parameter vector.
    spec fn params_model(&self) -> <Self::B as Backend>::VectorModel;

    /// The fixed data of the problem; only the parameters ever change.
    spec fn data_model(&self) -> Self::DataModel;

    /// Model of the residual vector at the current parameters.
    spec fn error_model(&self) -> <Self::B as Backend>::VectorModel;

    /// Model of the Jacobian at the current parameters.
    spec fn jacobian_model(&self) -> <Self::B as Backend>::MatrixModel;

    /// Read-only view of the current parameter vector.
    fn parameters(&self) -> (r: &<Self::B as Backend>::Vector)
        ensures
            <Self::B as Backend>::vector_model(*r) == self.params_model(),
    ;

    /// Apply the additive update `parameters += delta` in place.  The caller
    /// always passes a delta of matching length, derived from the Jacobian's
    /// column count; no further validation is owed.
    fn update_parameters(&mut self, delta: &<Self::B as Backend>::Vector)
        requires
            <Self::B as Backend>::len_of(<Self::B as Backend>::vector_model(*delta))
                == <Self::B as Backend>::cols_of(old(self).jacobian_model()),
        ensures
            final(self).params_model() == <Self::B as Backend>::vector_sum_model(
                old(self).params_model(),
                <Self::B as Backend>::vector_model(*delta),
            ),
            final(self).data_model() == old(self).data_model(),
    ;

    /// The residual and the Jacobian are pure functions of the fixed data
    /// and the current parameters: two problem values that agree on both
    /// agree on them (recomputed, never stale).
    proof fn models_pure(&self, other: &Self)
        requires
            self.data_model() == other.data_model(),
            self.params_model() == other.params_model(),
        ensures
            self.error_model() == other.error_model(),
            self.jacobian_model() == other.jacobian_model(),
    ;

    /// The residual vector at the current parameters, recomputed on every
    /// call.  Its length is the Jacobian's row count (one entry per
    /// observation).
    fn error_vector(&self) -> (r: <Self::B as Backend>::Vector)
        ensures
            <Self::B as Backend>::vector_model(r) == self.error_model(),
            <Self::B as Backend>::len_of(self.error_model()) == <Self::B as Backend>::rows_of(
                self.jacobian_model(),
            ),
    ;

    /// The Jacobian at the current parameters, recomputed on every call.
    fn jacobian(&self) -> (r: <Self::B as Backend>::Matrix)
        ensures
            <Self::B as Backend>::matrix_model(r) == self.jacobian_model(),
    ;

    /// The scalar objective used for convergence comparison: the Euclidean
    /// norm of the residual vector (despite the name, the norm, not the sum
    /// of squares).
    fn squared_error(&self) -> (r: <Self::B as Backend>::Scalar)
        ensures
            <Self::B as Backend>::scalar_model(r) == <Self::B as Backend>::norm_model(
                self.error_model(),
            ),
    {
        let e = self.error_vector();
        <Self::B as Backend>::norm(&e)
    }
}

} // verus!
