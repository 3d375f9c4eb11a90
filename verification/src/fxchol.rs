//! Cholesky factorization and triangular solves, in fixed point.
//!
//! `cholesky_solve_fx` solves `A · x = b` for a square matrix `A` by the
//! lower-triangular Cholesky factorization, failing exactly when a pivot is
//! not positive (the matrix is not accepted as positive-definite).  The spec
//! functions define the factor, and the solution, entry by entry, and each
//! executable function returns exactly its spec counterpart.

use vstd::prelude::*;

use crate::fx::Fx;
use crate::fx::SCALE;
use crate::fx::fx_diff;
use crate::fx::fx_dot_prefix;
use crate::fx::fx_product;
use crate::fx::fx_quot;
use crate::fx::fx_root;
use crate::fx::fx_sum;
use crate::fxlin::FxMatrix;
use crate::fxlin::MatModel;
use crate::fxlin::dot_prefix;
use crate::fxlin::rows_model;
use crate::fxlin::vec_model;

verus! {

/// The first `j` entries of row `k` of the Cholesky factor, given the rows
/// `ls` of the factor above row `k`: entry `jj` is
/// `(a[k][jj] - <prefix, ls[jj]>) / ls[jj][jj]`.
pub open spec fn chol_row(a: Seq<Seq<int>>, ls: Seq<Seq<int>>, k: int, j: nat) -> Seq<int>
    decreases j,
{
    if j == 0 {
        Seq::empty()
    } else {
        let p = chol_row(a, ls, k, (j - 1) as nat);
        p.push(
            fx_quot(
                fx_diff(a[k][j - 1], fx_dot_prefix(p, ls[j - 1], (j - 1) as nat)),
                ls[j - 1][j - 1],
            ),
        )
    }
}

/// The pivot of row `k`: the diagonal entry of `A` minus the squared norm of
/// the row prefix.  The factorization fails when it is not positive.
pub open spec fn chol_pivot(a: Seq<Seq<int>>, ls: Seq<Seq<int>>, k: nat) -> int {
    let p = chol_row(a, ls, k as int, k);
    fx_diff(a[k as int][k as int], fx_dot_prefix(p, p, k))
}

/// The first `k` rows of the Cholesky factor of `a`, or `None` if a pivot
/// among them was not positive.
pub open spec fn chol_fact(a: Seq<Seq<int>>, k: nat) -> Option<Seq<Seq<int>>>
    decreases k,
{
    if k == 0 {
        Some(Seq::empty())
    } else {
        match chol_fact(a, (k - 1) as nat) {
            Option::None => Option::None,
            Option::Some(ls) => {
                let piv = chol_pivot(a, ls, (k - 1) as nat);
                if piv <= 0 {
                    Option::None
                } else {
                    Option::Some(
                        ls.push(chol_row(a, ls, k - 1, (k - 1) as nat).push(fx_root(piv))),
                    )
                }
            },
        }
    }
}

/// The first `i` entries of the solution of `L · y = b` by forward
/// substitution.
pub open spec fn fwd_sub(l: Seq<Seq<int>>, b: Seq<int>, i: nat) -> Seq<int>
    decreases i,
{
    if i == 0 {
        Seq::empty()
    } else {
        let y = fwd_sub(l, b, (i - 1) as nat);
        y.push(
            fx_quot(fx_diff(b[i - 1], fx_dot_prefix(l[i - 1], y, (i - 1) as nat)), l[i - 1][i - 1]),
        )
    }
}

/// Saturating dot product of column `c` of `l`, rows `off` to `off + n`, with
/// the first `n` entries of `xs`.
pub open spec fn fx_col_off_dot(l: Seq<Seq<int>>, c: int, off: int, xs: Seq<int>, n: nat) -> int
    decreases n,
{
    if n == 0 {
        0
    } else {
        fx_sum(
            fx_col_off_dot(l, c, off, xs, (n - 1) as nat),
            fx_product(l[off + n - 1][c], xs[n - 1]),
        )
    }
}

/// The entries `i..n` of the solution of `Lᵗ · x = y` by back substitution.
pub open spec fn back_sub(l: Seq<Seq<int>>, y: Seq<int>, i: nat) -> Seq<int>
    decreases l.len() - i,
{
    if i >= l.len() {
        Seq::empty()
    } else {
        let xs = back_sub(l, y, (i + 1) as nat);
        xs.insert(
            0,
            fx_quot(
                fx_diff(
                    y[i as int],
                    fx_col_off_dot(l, i as int, (i + 1) as int, xs, (l.len() - i - 1) as nat),
                ),
                l[i as int][i as int],
            ),
        )
    }
}

/// Shape of a usable Cholesky factor: row `i` has length `i + 1` and a
/// positive diagonal entry (so the substitutions never divide by zero).
pub open spec fn lower_tri_wf(l: Seq<Seq<int>>) -> bool {
    forall|i: int|
        0 <= i < l.len() ==> (#[trigger] l[i]).len() == i + 1 && l[i][i] >= 1
}

/// Whether the Cholesky solve succeeds on `a`: `a` is square and every pivot
/// of the factorization is positive.
pub open spec fn fx_solvable(a: MatModel) -> bool {
    a.rows.len() == a.cols && chol_fact(a.rows, a.rows.len()) is Some
}

/// The solution of `a · x = b` through the Cholesky factor: forward then
/// back substitution.
pub open spec fn fx_solution(a: MatModel, b: Seq<int>) -> Seq<int> {
    match chol_fact(a.rows, a.rows.len()) {
        Option::Some(l) => back_sub(l, fwd_sub(l, b, l.len()), 0),
        Option::None => Seq::empty(),
    }
}

/// Once the factorization has failed it stays failed for more rows.
proof fn lemma_chol_fact_none_persists(a: Seq<Seq<int>>, k: nat, n: nat)
    requires
        chol_fact(a, k) is None,
        k <= n,
    ensures
        chol_fact(a, n) is None,
    decreases n - k,
{
    if n > k {
        lemma_chol_fact_none_persists(a, k, (n - 1) as nat);
    }
}

/// `vec_model` of a vector whose view is pinned entrywise.
proof fn lemma_vec_model_is(v: Vec<Fx>, s: Seq<int>)
    requires
        s.len() == v@.len(),
        forall|t: int| 0 <= t < s.len() ==> s[t] == v@[t].raw(),
    ensures
        vec_model(v) == s,
{
    assert forall|t: int| 0 <= t < s.len() implies vec_model(v)[t] == s[t] by {
        assert(vec_model(v)[t] == v@[t].raw());
    }
    assert(vec_model(v) =~= s);
}

/// The first `j` entries of row `k` of the Cholesky factor.
fn chol_row_exec(a: &FxMatrix, ls: &Vec<Vec<Fx>>, k: usize, j: usize) -> (r: Vec<Fx>)
    requires
        k < a.model().rows.len(),
        k < a.model().cols,
        j <= k,
        ls@.len() == k,
        lower_tri_wf(rows_model(ls@)),
    ensures
        vec_model(r) == chol_row(a.model().rows, rows_model(ls@), k as int, j as nat),
        r@.len() == j,
    decreases j,
{
    if j == 0 {
        Vec::new()
    } else {
        let mut p = chol_row_exec(a, ls, k, j - 1);
        let jj = j - 1;
        proof {
            assert(rows_model(ls@)[jj as int] == vec_model(ls@[jj as int]));
            assert(rows_model(ls@)[jj as int].len() == jj + 1);
            assert(vec_model(ls@[jj as int])[jj as int] == ls@[jj as int]@[jj as int].raw());
        }
        let d = dot_prefix(&p, &ls[jj], jj);
        let num = a.entry(k, jj).minus(d);
        let den = ls[jj][jj];
        let v = num.over(den);
        let ghost p0 = vec_model(p);
        p.push(v);
        proof {
            lemma_vec_model_is(p, p0.push(v.raw()));
        }
        p
    }
}

/// The Cholesky factor of a square matrix, or `None` exactly when a pivot is
/// not positive.
fn chol_fact_exec(a: &FxMatrix) -> (r: Option<Vec<Vec<Fx>>>)
    requires
        a.model().rows.len() == a.model().cols,
    ensures
        (r matches Some(ls) ==> {
            &&& chol_fact(a.model().rows, a.model().rows.len()) == Some(rows_model(ls@))
            &&& lower_tri_wf(rows_model(ls@))
            &&& ls@.len() == a.model().rows.len()
        }),
        r is None <==> chol_fact(a.model().rows, a.model().rows.len()) is None,
{
    let n = a.nrows();
    let mut ls: Vec<Vec<Fx>> = Vec::new();
    let mut k: usize = 0;
    while k < n
        invariant
            0 <= k <= n,
            n == a.model().rows.len(),
            n == a.model().cols,
            ls@.len() == k,
            chol_fact(a.model().rows, k as nat) == Some(rows_model(ls@)),
            lower_tri_wf(rows_model(ls@)),
        decreases n - k,
    {
        let p = chol_row_exec(a, &ls, k, k);
        let d = dot_prefix(&p, &p, k);
        let piv = a.entry(k, k).minus(d);
        if !Fx::zero().lt(piv) {
            proof {
                assert(chol_fact(a.model().rows, (k + 1) as nat) is None);
                lemma_chol_fact_none_persists(a.model().rows, (k + 1) as nat, n as nat);
            }
            return None;
        }
        let root = piv.sqrt_val();
        proof {
            assert(piv.raw() * (SCALE as int) >= SCALE as int) by (nonlinear_arith)
                requires
                    piv.raw() >= 1,
            ;
            assert((0int + 1) * (0int + 1) == 1);
            assert(root.raw() >= 1);
        }
        let mut row = p;
        let ghost row0 = vec_model(row);
        row.push(root);
        proof {
            lemma_vec_model_is(row, row0.push(root.raw()));
        }
        let ghost lsm0 = rows_model(ls@);
        ls.push(row);
        proof {
            assert forall|t: int| 0 <= t < k + 1 implies rows_model(ls@)[t] == lsm0.push(
                vec_model(row),
            )[t] by {
                assert(rows_model(ls@)[t] == vec_model(ls@[t]));
                if t < k {
                    assert(lsm0[t] == vec_model(ls@[t]));
                }
            }
            assert(rows_model(ls@) =~= lsm0.push(vec_model(row)));
            assert(vec_model(row).len() == k + 1);
            assert(vec_model(row)[k as int] == root.raw());
            assert forall|t: int| 0 <= t < k + 1 implies (#[trigger] rows_model(ls@)[t]).len() == t
                + 1 && rows_model(ls@)[t][t] >= 1 by {
                if t < k {
                    assert(lsm0[t].len() == t + 1 && lsm0[t][t] >= 1);
                }
            }
        }
        k = k + 1;
    }
    Some(ls)
}

/// Saturating dot product of column `c` of `l` (rows `off` onward) with `xs`.
fn col_off_dot_exec(l: &Vec<Vec<Fx>>, c: usize, off: usize, xs: &Vec<Fx>) -> (r: Fx)
    requires
        lower_tri_wf(rows_model(l@)),
        off + xs@.len() <= l@.len(),
        c < off,
    ensures
        r.raw() == fx_col_off_dot(
            rows_model(l@),
            c as int,
            off as int,
            vec_model(*xs),
            xs@.len() as nat,
        ),
{
    let n = xs.len();
    let nl = l.len();
    let mut acc = Fx::zero();
    let mut t: usize = 0;
    while t < n
        invariant
            0 <= t <= n,
            n == xs@.len(),
            nl == l@.len(),
            off + n <= nl,
            c < off,
            lower_tri_wf(rows_model(l@)),
            acc.raw() == fx_col_off_dot(
                rows_model(l@),
                c as int,
                off as int,
                vec_model(*xs),
                t as nat,
            ),
        decreases n - t,
    {
        proof {
            assert(rows_model(l@)[off + t] == vec_model(l@[off + t]));
            assert(rows_model(l@)[off + t].len() == off + t + 1);
            assert(vec_model(l@[off + t])[c as int] == l@[off + t]@[c as int].raw());
            assert(vec_model(*xs)[t as int] == xs@[t as int].raw());
        }
        acc = acc.plus(l[off + t][c].times(xs[t]));
        t = t + 1;
    }
    acc
}

/// Forward substitution: the first `i` entries of the solution of `L·y = b`.
fn fwd_sub_exec(l: &Vec<Vec<Fx>>, b: &Vec<Fx>, i: usize) -> (r: Vec<Fx>)
    requires
        lower_tri_wf(rows_model(l@)),
        i <= l@.len(),
        b@.len() == l@.len(),
    ensures
        vec_model(r) == fwd_sub(rows_model(l@), vec_model(*b), i as nat),
        r@.len() == i,
    decreases i,
{
    if i == 0 {
        Vec::new()
    } else {
        let mut y = fwd_sub_exec(l, b, i - 1);
        let ii = i - 1;
        proof {
            assert(rows_model(l@)[ii as int] == vec_model(l@[ii as int]));
            assert(rows_model(l@)[ii as int].len() == ii + 1);
            assert(vec_model(l@[ii as int])[ii as int] == l@[ii as int]@[ii as int].raw());
            assert(vec_model(*b)[ii as int] == b@[ii as int].raw());
        }
        let d = dot_prefix(&l[ii], &y, ii);
        let v = b[ii].minus(d).over(l[ii][ii]);
        let ghost y0 = vec_model(y);
        y.push(v);
        proof {
            lemma_vec_model_is(y, y0.push(v.raw()));
        }
        y
    }
}

/// Back substitution: the entries `i..n` of the solution of `Lᵗ·x = y`.
fn back_sub_exec(l: &Vec<Vec<Fx>>, y: &Vec<Fx>, i: usize) -> (r: Vec<Fx>)
    requires
        lower_tri_wf(rows_model(l@)),
        i <= l@.len(),
        y@.len() == l@.len(),
    ensures
        vec_model(r) == back_sub(rows_model(l@), vec_model(*y), i as nat),
        r@.len() == l@.len() - i,
    decreases l@.len() - i,
{
    if i >= l.len() {
        Vec::new()
    } else {
        let mut xs = back_sub_exec(l, y, i + 1);
        let d = col_off_dot_exec(l, i, i + 1, &xs);
        proof {
            assert(rows_model(l@)[i as int] == vec_model(l@[i as int]));
            assert(rows_model(l@)[i as int].len() == i + 1);
            assert(vec_model(l@[i as int])[i as int] == l@[i as int]@[i as int].raw());
            assert(vec_model(*y)[i as int] == y@[i as int].raw());
        }
        let v = y[i].minus(d).over(l[i][i]);
        let ghost xs0 = vec_model(xs);
        xs.insert(0, v);
        proof {
            assert forall|t: int| 0 <= t < xs0.len() + 1 implies vec_model(xs)[t] == xs0.insert(
                0,
                v.raw(),
            )[t] by {
                assert(vec_model(xs)[t] == xs@[t].raw());
            }
            assert(vec_model(xs) =~= xs0.insert(0, v.raw()));
        }
        xs
    }
}

/// Solve `a · x = b` through a Cholesky factorization of the square matrix
/// `a`.  Returns `None` exactly when the factorization rejects `a`.
pub fn cholesky_solve_fx(a: &FxMatrix, b: &Vec<Fx>) -> (r: Option<Vec<Fx>>)
    requires
        a.model().rows.len() == a.model().cols,
        b@.len() == a.model().rows.len(),
    ensures
        r is Some <==> fx_solvable(a.model()),
        (r matches Some(x) ==> vec_model(x) == fx_solution(a.model(), vec_model(*b)) && x@.len()
            == b@.len()),
{
    let l = match chol_fact_exec(a) {
        Some(l) => l,
        None => {
            return None;
        },
    };
    let y = fwd_sub_exec(&l, b, l.len());
    let x = back_sub_exec(&l, &y, 0);
    Some(x)
}

} // verus!
