//! Properties of the fixed-point backend that hold for every input.

use vstd::prelude::*;

use crate::fx::fx_col_dot;
use crate::fx::fx_product;
use crate::fxlin::MatModel;
use crate::fxlin::fx_normal;

verus! {

/// The saturating fixed-point product is commutative.
proof fn lemma_fx_product_comm(a: int, b: int)
    ensures
        fx_product(a, b) == fx_product(b, a),
{
    assert(a * b == b * a) by (nonlinear_arith);
}

/// A saturating column dot product does not depend on the column order.
proof fn lemma_col_dot_comm(rows: Seq<Seq<int>>, c1: int, c2: int, n: nat)
    ensures
        fx_col_dot(rows, c1, c2, n) == fx_col_dot(rows, c2, c1, n),
    decreases n,
{
    if n > 0 {
        lemma_col_dot_comm(rows, c1, c2, (n - 1) as nat);
        lemma_fx_product_comm(rows[n - 1][c1], rows[n - 1][c2]);
    }
}

/// Symmetry of the normal equations: for any Jacobian `J`, the matrix `Jᵗ·J`
/// is exactly symmetric, entry by entry, saturation included.
pub proof fn lemma_normal_matrix_symmetric(j: MatModel, i: int, k: int)
    requires
        0 <= i < j.cols,
        0 <= k < j.cols,
    ensures
        fx_normal(j).rows[i][k] == fx_normal(j).rows[k][i],
{
    lemma_col_dot_comm(j.rows, i, k, j.rows.len());
}

} // verus!
