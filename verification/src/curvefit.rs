//! A concrete residual model: Michaelis-Menten-style saturation curve fit.
//!
//! Observations are pairs `(s_i, v_i)`; the model predicts
//! `v = x0 * s / (x1 + s)` and the residual is `v_i` minus the prediction.
//! Divisions use the total quotient (zero on a zero divisor), so the model is
//! defined for every parameter vector.

use vstd::prelude::*;
use vstd::pervasive::unreached;

use crate::backend::Backend;
use crate::fx::Fx;
use crate::fx::fx_diff;
use crate::fx::fx_negate;
use crate::fx::fx_product;
use crate::fx::fx_quot_total;
use crate::fx::fx_sum;
use crate::fxbackend::FxBackend;
use crate::fxlin::FxMatrix;
use crate::fxlin::MatModel;
use crate::fxlin::vec_model;
use crate::fxlin::vec_sum_fx;
use crate::problem::Problem;

verus! {

/// The model's prediction `x0 * s / (x1 + s)` at parameters `x`.
pub open spec fn mm_predicted(x: Seq<int>, s: int) -> int {
    fx_quot_total(fx_product(x[0], s), fx_sum(x[1], s))
}

/// The residual vector: observed minus predicted, one entry per observation.
pub open spec fn mm_error(x: Seq<int>, s: Seq<int>, v: Seq<int>) -> Seq<int> {
    Seq::new(s.len(), |i: int| fx_diff(v[i], mm_predicted(x, s[i])))
}

/// One Jacobian row: the partial derivatives of the residual at substrate
/// `s`, column order `[d/dx0, d/dx1] = [-s/(x1+s), x0*s/(x1+s)^2]`.
pub open spec fn mm_jac_row(x: Seq<int>, s: int) -> Seq<int> {
    let den = fx_sum(x[1], s);
    seq![
        fx_negate(fx_quot_total(s, den)),
        fx_quot_total(fx_product(x[0], s), fx_product(den, den)),
    ]
}

/// The Jacobian of the residual with respect to the two parameters.
pub open spec fn mm_jacobian(x: Seq<int>, s: Seq<int>) -> MatModel {
    MatModel { cols: 2, rows: Seq::new(s.len(), |i: int| mm_jac_row(x, s[i])) }
}

/// A Michaelis-Menten-style curve-fitting problem over the fixed-point
/// backend: parameters `[x0, x1]` and observation pairs `(s_i, v_i)`.
pub struct MichaelisMentenProblem {
    x: Vec<Fx>,
    s: Vec<Fx>,
    v: Vec<Fx>,
}

impl MichaelisMentenProblem {
    #[verifier::type_invariant]
    spec fn shape_wf(self) -> bool {
        self.x@.len() == 2 && self.s@.len() == self.v@.len()
    }

    /// Substrate values of the observations, as mantissas.
    pub closed spec fn substrates(self) -> Seq<int> {
        vec_model(self.s)
    }

    /// Observed values, as mantissas.
    pub closed spec fn observed(self) -> Seq<int> {
        vec_model(self.v)
    }

    /// Build a problem from initial parameters and observation pairs; the two
    /// observation lists must be equally long, else `None` is returned.
    pub fn new(x0: Fx, x1: Fx, s: Vec<Fx>, v: Vec<Fx>) -> (r: Option<Self>)
        ensures
            r is Some <==> s@.len() == v@.len(),
            (r matches Some(p) ==> {
                &&& p.params_model() == seq![x0.raw(), x1.raw()]
                &&& p.substrates() == vec_model(s)
                &&& p.observed() == vec_model(v)
                &&& p.data_model() == (vec_model(s), vec_model(v))
            }),
    {
        if s.len() != v.len() {
            return None;
        }
        let x = vec![x0, x1];
        proof {
            assert(vec_model(x) =~= seq![x0.raw(), x1.raw()]);
        }
        Some(MichaelisMentenProblem { x, s, v })
    }
}

impl Problem for MichaelisMentenProblem {
    type B = FxBackend;

    type DataModel = (Seq<int>, Seq<int>);

    closed spec fn params_model(&self) -> Seq<int> {
        vec_model(self.x)
    }

    closed spec fn data_model(&self) -> (Seq<int>, Seq<int>) {
        (self.substrates(), self.observed())
    }

    closed spec fn error_model(&self) -> Seq<int> {
        mm_error(vec_model(self.x), vec_model(self.s), vec_model(self.v))
    }

    closed spec fn jacobian_model(&self) -> MatModel {
        mm_jacobian(vec_model(self.x), vec_model(self.s))
    }

    proof fn models_pure(&self, other: &Self) {
        assert(vec_model(self.s) == vec_model(other.s));
        assert(vec_model(self.v) == vec_model(other.v));
    }

    fn parameters(&self) -> &Vec<Fx> {
        &self.x
    }

    fn update_parameters(&mut self, delta: &Vec<Fx>) {
        proof {
            use_type_invariant(&*self);
        }
        let updated = vec_sum_fx(&self.x, delta);
        proof {
            assert(vec_model(updated).len() == vec_model(self.x).len());
            assert(updated@.len() == 2);
        }
        self.x = updated;
    }

    fn error_vector(&self) -> (r: Vec<Fx>) {
        proof {
            use_type_invariant(self);
        }
        let n = self.s.len();
        let mut e: Vec<Fx> = Vec::new();
        let mut i: usize = 0;
        while i < n
            invariant
                0 <= i <= n,
                n == self.s@.len(),
                n == self.v@.len(),
                self.x@.len() == 2,
                e@.len() == i,
                forall|t: int| 0 <= t < i ==> (#[trigger] e@[t]).raw() == self.error_model()[t],
            decreases n - i,
        {
            proof {
                assert(vec_model(self.x)[0] == self.x@[0].raw());
                assert(vec_model(self.x)[1] == self.x@[1].raw());
                assert(vec_model(self.s)[i as int] == self.s@[i as int].raw());
                assert(vec_model(self.v)[i as int] == self.v@[i as int].raw());
            }
            let si = self.s[i];
            let den = self.x[1].plus(si);
            let predicted = self.x[0].times(si).over_total(den);
            e.push(self.v[i].minus(predicted));
            i = i + 1;
        }
        proof {
            assert forall|t: int| 0 <= t < n implies vec_model(e)[t] == self.error_model()[t] by {
                assert(vec_model(e)[t] == e@[t].raw());
            }
            assert(vec_model(e) =~= self.error_model());
            assert(<FxBackend as Backend>::vector_model(e) == vec_model(e));
            assert(<FxBackend as Backend>::len_of(self.error_model())
                == self.error_model().len());
            assert(self.error_model().len() == vec_model(self.s).len());
            assert(<FxBackend as Backend>::rows_of(self.jacobian_model())
                == self.jacobian_model().rows.len());
            assert(self.jacobian_model().rows.len() == vec_model(self.s).len());
        }
        e
    }

    fn jacobian(&self) -> (r: FxMatrix) {
        proof {
            use_type_invariant(self);
        }
        let n = self.s.len();
        let mut rows: Vec<Vec<Fx>> = Vec::new();
        let mut i: usize = 0;
        while i < n
            invariant
                0 <= i <= n,
                n == self.s@.len(),
                self.x@.len() == 2,
                rows@.len() == i,
                forall|t: int| 0 <= t < i ==> (#[trigger] rows@[t])@.len() == 2,
                forall|t: int| 0 <= t < i ==> vec_model(#[trigger] rows@[t])
                    == self.jacobian_model().rows[t],
            decreases n - i,
        {
            proof {
                assert(vec_model(self.x)[0] == self.x@[0].raw());
                assert(vec_model(self.x)[1] == self.x@[1].raw());
                assert(vec_model(self.s)[i as int] == self.s@[i as int].raw());
            }
            let si = self.s[i];
            let den = self.x[1].plus(si);
            let c1 = si.over_total(den).neg();
            let c2 = self.x[0].times(si).over_total(den.times(den));
            let row = vec![c1, c2];
            proof {
                assert(vec_model(row) =~= mm_jac_row(vec_model(self.x), self.s@[i as int].raw()));
            }
            rows.push(row);
            i = i + 1;
        }
        let m = match FxMatrix::from_rows(2, rows) {
            Some(m) => m,
            None => unreached(),
        };
        proof {
            assert forall|t: int| 0 <= t < n implies m.model().rows[t]
                == self.jacobian_model().rows[t] by {
                assert(m.model().rows[t] == vec_model(rows@[t]));
            }
            assert(m.model().rows =~= self.jacobian_model().rows);
        }
        m
    }
}

} // verus!
