//! Dense fixed-point vectors and matrices.
//!
//! Vectors are plain `Vec<Fx>`; matrices are rectangular row-major grids of
//! [`Fx`] values.  Every operation is specified exactly, entry by entry, over
//! the mantissa models: a vector models as a `Seq<int>` of mantissas, a
//! matrix as a [`MatModel`].

use vstd::prelude::*;

use crate::fx::Fx;
use crate::fx::fx_col_dot;
use crate::fx::fx_dot_prefix;
use crate::fx::fx_negate;
use crate::fx::fx_norm;
use crate::fx::fx_sum;
use crate::fx::lemma_dot_self_nonneg;

verus! {

/// Mathematical model of a fixed-point matrix: the column count and the rows
/// of mantissas.  The column count is carried separately so that a matrix
/// with no rows still has a width.
pub struct MatModel {
    /// Number of columns.
    pub cols: nat,
    /// The rows, each of length `cols`.
    pub rows: Seq<Seq<int>>,
}

/// Model of a fixed-point vector: its mantissas.
pub open spec fn vec_model(v: Vec<Fx>) -> Seq<int> {
    v@.map_values(|x: Fx| x.raw())
}

/// Model of a list of fixed-point rows.
pub open spec fn rows_model(rows: Seq<Vec<Fx>>) -> Seq<Seq<int>> {
    rows.map_values(|r: Vec<Fx>| vec_model(r))
}

/// The componentwise saturating sum of two equally long vectors.
pub open spec fn fx_vec_sum(a: Seq<int>, b: Seq<int>) -> Seq<int> {
    Seq::new(a.len(), |i: int| fx_sum(a[i], b[i]))
}

/// The normal-equations matrix `Jᵗ·J`: square of side `cols`, entry `(i, k)`
/// the saturating dot product of columns `i` and `k` of `J`.
pub open spec fn fx_normal(j: MatModel) -> MatModel {
    MatModel {
        cols: j.cols,
        rows: Seq::new(j.cols, |i: int| Seq::new(j.cols, |k: int| fx_col_dot(j.rows, i, k, j.rows.len()))),
    }
}

/// One entry of the right-hand side `-Jᵗ·e`: the negated saturating dot
/// product of column `c` of `J` with `e`, over the first `n` rows.
pub open spec fn fx_col_vec_dot(rows: Seq<Seq<int>>, c: int, e: Seq<int>, n: nat) -> int
    decreases n,
{
    if n == 0 {
        0
    } else {
        fx_sum(
            fx_col_vec_dot(rows, c, e, (n - 1) as nat),
            crate::fx::fx_product(rows[n - 1][c], e[n - 1]),
        )
    }
}

/// The right-hand side `-Jᵗ·e` of the normal equations.
pub open spec fn fx_neg_gradient(j: MatModel, e: Seq<int>) -> Seq<int> {
    Seq::new(j.cols, |i: int| fx_negate(fx_col_vec_dot(j.rows, i, e, j.rows.len())))
}

/// Rectangular fixed-point matrix.
pub struct FxMatrix {
    cols: usize,
    rows: Vec<Vec<Fx>>,
}

impl FxMatrix {
    #[verifier::type_invariant]
    spec fn wf(self) -> bool {
        forall|i: int| 0 <= i < self.rows@.len() ==> (#[trigger] self.rows@[i])@.len() == self.cols
    }

    /// The mathematical model: column count and rows of mantissas.
    pub closed spec fn model(self) -> MatModel {
        MatModel { cols: self.cols as nat, rows: rows_model(self.rows@) }
    }

    /// Build a matrix from rows; every row must have length `cols`, else
    /// `None` is returned.
    pub fn from_rows(cols: usize, rows: Vec<Vec<Fx>>) -> (r: Option<FxMatrix>)
        ensures
            r is Some <==> (forall|i: int|
                0 <= i < rows@.len() ==> (#[trigger] rows@[i])@.len() == cols),
            (r matches Some(m) ==> m.model() == MatModel {
                cols: cols as nat,
                rows: rows_model(rows@),
            }),
    {
        let mut i: usize = 0;
        while i < rows.len()
            invariant
                0 <= i <= rows@.len(),
                forall|t: int| 0 <= t < i ==> (#[trigger] rows@[t])@.len() == cols,
            decreases rows@.len() - i,
        {
            if rows[i].len() != cols {
                return None;
            }
            i = i + 1;
        }
        Some(FxMatrix { cols, rows })
    }

    /// Number of rows.
    pub fn nrows(&self) -> (r: usize)
        ensures
            r == self.model().rows.len(),
    {
        self.rows.len()
    }

    /// Number of columns.
    pub fn ncols(&self) -> (r: usize)
        ensures
            r == self.model().cols,
    {
        self.cols
    }

    /// The entry in row `i`, column `j`.
    pub fn entry(&self, i: usize, j: usize) -> (r: Fx)
        requires
            i < self.model().rows.len(),
            j < self.model().cols,
        ensures
            r.raw() == self.model().rows[i as int][j as int],
    {
        proof {
            use_type_invariant(self);
        }
        self.rows[i][j]
    }
}

/// Saturating dot product of the first `n` entries of two vectors.
pub fn dot_prefix(a: &Vec<Fx>, b: &Vec<Fx>, n: usize) -> (r: Fx)
    requires
        n <= a@.len(),
        n <= b@.len(),
    ensures
        r.raw() == fx_dot_prefix(vec_model(*a), vec_model(*b), n as nat),
{
    let mut acc = Fx::zero();
    let mut i: usize = 0;
    while i < n
        invariant
            0 <= i <= n,
            n <= a@.len(),
            n <= b@.len(),
            acc.raw() == fx_dot_prefix(vec_model(*a), vec_model(*b), i as nat),
        decreases n - i,
    {
        acc = acc.plus(a[i].times(b[i]));
        i = i + 1;
    }
    acc
}

/// Euclidean norm of a fixed-point vector: the square root of the saturating
/// sum of the squared entries.
pub fn norm_fx(v: &Vec<Fx>) -> (r: Fx)
    ensures
        r.raw() == fx_norm(vec_model(*v)),
{
    let s = dot_prefix(v, v, v.len());
    proof {
        lemma_dot_self_nonneg(vec_model(*v), v@.len() as nat);
    }
    s.sqrt_val()
}

/// Componentwise saturating sum, in place: `x += d`.
pub fn vec_plus_assign(x: &mut Vec<Fx>, d: &Vec<Fx>)
    requires
        d@.len() == old(x)@.len(),
    ensures
        vec_model(*final(x)) == fx_vec_sum(vec_model(*old(x)), vec_model(*d)),
{
    let n = x.len();
    let mut i: usize = 0;
    while i < n
        invariant
            0 <= i <= n,
            x@.len() == n,
            d@.len() == n,
            forall|t: int| 0 <= t < i ==> (#[trigger] x@[t]).raw() == fx_sum(
                old(x)@[t].raw(),
                d@[t].raw(),
            ),
            forall|t: int| i <= t < n ==> x@[t] == old(x)@[t],
        decreases n - i,
    {
        let s = x[i].plus(d[i]);
        x.set(i, s);
        i = i + 1;
    }
    proof {
        assert forall|t: int| 0 <= t < n implies vec_model(*x)[t] == fx_vec_sum(
            vec_model(*old(x)),
            vec_model(*d),
        )[t] by {
            assert(vec_model(*x)[t] == x@[t].raw());
            assert(vec_model(*old(x))[t] == old(x)@[t].raw());
            assert(vec_model(*d)[t] == d@[t].raw());
        }
        assert(vec_model(*x) =~= fx_vec_sum(vec_model(*old(x)), vec_model(*d)));
    }
}

/// Componentwise saturating sum, as a fresh vector.
pub fn vec_sum_fx(a: &Vec<Fx>, b: &Vec<Fx>) -> (r: Vec<Fx>)
    requires
        b@.len() == a@.len(),
    ensures
        vec_model(r) == fx_vec_sum(vec_model(*a), vec_model(*b)),
{
    let n = a.len();
    let mut out: Vec<Fx> = Vec::new();
    let mut i: usize = 0;
    while i < n
        invariant
            0 <= i <= n,
            a@.len() == n,
            b@.len() == n,
            out@.len() == i,
            forall|t: int| 0 <= t < i ==> (#[trigger] out@[t]).raw() == fx_sum(
                a@[t].raw(),
                b@[t].raw(),
            ),
        decreases n - i,
    {
        out.push(a[i].plus(b[i]));
        i = i + 1;
    }
    proof {
        assert forall|t: int| 0 <= t < n implies vec_model(out)[t] == fx_vec_sum(
            vec_model(*a),
            vec_model(*b),
        )[t] by {
            assert(vec_model(out)[t] == out@[t].raw());
            assert(vec_model(*a)[t] == a@[t].raw());
            assert(vec_model(*b)[t] == b@[t].raw());
        }
        assert(vec_model(out) =~= fx_vec_sum(vec_model(*a), vec_model(*b)));
    }
    out
}

/// Saturating dot product of two columns of a matrix.
fn col_pair_dot(m: &FxMatrix, c1: usize, c2: usize) -> (r: Fx)
    requires
        c1 < m.model().cols,
        c2 < m.model().cols,
    ensures
        r.raw() == fx_col_dot(m.model().rows, c1 as int, c2 as int, m.model().rows.len()),
{
    let n = m.nrows();
    let mut acc = Fx::zero();
    let mut t: usize = 0;
    while t < n
        invariant
            0 <= t <= n,
            n == m.model().rows.len(),
            c1 < m.model().cols,
            c2 < m.model().cols,
            acc.raw() == fx_col_dot(m.model().rows, c1 as int, c2 as int, t as nat),
        decreases n - t,
    {
        acc = acc.plus(m.entry(t, c1).times(m.entry(t, c2)));
        t = t + 1;
    }
    acc
}

/// Saturating dot product of column `c` of a matrix with a vector.
fn col_vec_dot(m: &FxMatrix, c: usize, e: &Vec<Fx>) -> (r: Fx)
    requires
        c < m.model().cols,
        e@.len() == m.model().rows.len(),
    ensures
        r.raw() == fx_col_vec_dot(m.model().rows, c as int, vec_model(*e), m.model().rows.len()),
{
    let n = m.nrows();
    let mut acc = Fx::zero();
    let mut t: usize = 0;
    while t < n
        invariant
            0 <= t <= n,
            n == m.model().rows.len(),
            c < m.model().cols,
            e@.len() == n,
            acc.raw() == fx_col_vec_dot(m.model().rows, c as int, vec_model(*e), t as nat),
        decreases n - t,
    {
        acc = acc.plus(m.entry(t, c).times(e[t]));
        t = t + 1;
    }
    acc
}

/// The normal-equations matrix `Jᵗ·J`.
pub fn normal_matrix_fx(j: &FxMatrix) -> (r: FxMatrix)
    ensures
        r.model() == fx_normal(j.model()),
        r.model().rows.len() == j.model().cols,
        r.model().cols == j.model().cols,
{
    let nc = j.ncols();
    let mut out: Vec<Vec<Fx>> = Vec::new();
    let mut i: usize = 0;
    while i < nc
        invariant
            0 <= i <= nc,
            nc == j.model().cols,
            out@.len() == i,
            forall|t: int| 0 <= t < i ==> (#[trigger] out@[t])@.len() == nc,
            forall|t: int| 0 <= t < i ==> vec_model(#[trigger] out@[t]) == fx_normal(
                j.model(),
            ).rows[t],
        decreases nc - i,
    {
        let mut row: Vec<Fx> = Vec::new();
        let mut k: usize = 0;
        while k < nc
            invariant
                0 <= k <= nc,
                nc == j.model().cols,
                i < nc,
                row@.len() == k,
                forall|t: int| 0 <= t < k ==> (#[trigger] row@[t]).raw() == fx_col_dot(
                    j.model().rows,
                    i as int,
                    t,
                    j.model().rows.len(),
                ),
            decreases nc - k,
        {
            let v = col_pair_dot(j, i, k);
            row.push(v);
            k = k + 1;
        }
        proof {
            assert forall|t: int| 0 <= t < nc implies vec_model(row)[t] == fx_normal(
                j.model(),
            ).rows[i as int][t] by {
                assert(vec_model(row)[t] == row@[t].raw());
            }
            assert(vec_model(row) =~= fx_normal(j.model()).rows[i as int]);
        }
        out.push(row);
        i = i + 1;
    }
    let r = FxMatrix { cols: nc, rows: out };
    proof {
        assert forall|t: int| 0 <= t < nc implies r.model().rows[t] == fx_normal(
            j.model(),
        ).rows[t] by {
            assert(r.model().rows[t] == vec_model(out@[t]));
        }
        assert(r.model().rows =~= fx_normal(j.model()).rows);
    }
    r
}

/// The right-hand side `-Jᵗ·e` of the normal equations.
pub fn neg_gradient_fx(j: &FxMatrix, e: &Vec<Fx>) -> (r: Vec<Fx>)
    requires
        e@.len() == j.model().rows.len(),
    ensures
        vec_model(r) == fx_neg_gradient(j.model(), vec_model(*e)),
        r@.len() == j.model().cols,
{
    let nc = j.ncols();
    let mut out: Vec<Fx> = Vec::new();
    let mut i: usize = 0;
    while i < nc
        invariant
            0 <= i <= nc,
            nc == j.model().cols,
            e@.len() == j.model().rows.len(),
            out@.len() == i,
            forall|t: int| 0 <= t < i ==> (#[trigger] out@[t]).raw() == fx_neg_gradient(
                j.model(),
                vec_model(*e),
            )[t],
        decreases nc - i,
    {
        let v = col_vec_dot(j, i, e);
        out.push(v.neg());
        i = i + 1;
    }
    proof {
        assert forall|t: int| 0 <= t < nc implies vec_model(out)[t] == fx_neg_gradient(
            j.model(),
            vec_model(*e),
        )[t] by {
            assert(vec_model(out)[t] == out@[t].raw());
        }
        assert(vec_model(out) =~= fx_neg_gradient(j.model(), vec_model(*e)));
    }
    out
}

} // verus!
