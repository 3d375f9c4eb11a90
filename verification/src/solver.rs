//! The Gauss-Newton iteration loop and convergence test.

use vstd::prelude::*;

use crate::backend::Backend;
use crate::problem::Problem;

verus! {

/// A failure a solver step can surface.
#[derive(Clone, Copy, Debug, PartialEq, Eq, Structural)]
pub enum SolveError {
    /// The normal-equations matrix `Jᵗ·J` was rejected by the Cholesky
    /// factorization: the Jacobian is rank-deficient or ill-conditioned.
    /// The step leaves the solver and the problem unchanged.
    SingularNormalEquations,
    /// The iteration counter cannot be advanced without losing exactness;
    /// only `solve_until_converged` reports it, after `usize::MAX` steps.
    MaxIterationsExceeded,
}

/// The Gauss-Newton update direction: the solution of the normal equations
/// `(Jᵗ·J) · delta = -Jᵗ·e`.
pub open spec fn step_delta<B: Backend>(j: B::MatrixModel, e: B::VectorModel) -> B::VectorModel {
    B::solution_model(B::normal_matrix_model(j), B::neg_gradient_model(j, e))
}

/// The convergence decision of one step, from the objective before the step
/// (`prev_err`), the objective after it (`new_err`), the norm of the update
/// (`delta_norm`) and the norm of the updated parameters (`params_norm`).
///
/// Either criterion suffices: the relative objective change
/// `|new_err - prev_err| / new_err` is below `eps` (the denominator is the
/// new objective), or the relative step size `delta_norm / params_norm` is
/// below `eps`.  An exactly zero objective counts as converged (the residual
/// vanished, and the objective-change quotient is undefined there); a zero
/// parameter norm disables the step-size criterion (its quotient is likewise
/// undefined).
pub open spec fn step_converged<B: Backend>(
    prev_err: B::ScalarModel,
    new_err: B::ScalarModel,
    delta_norm: B::ScalarModel,
    params_norm: B::ScalarModel,
    eps: B::ScalarModel,
) -> bool {
    ||| B::is_zero_model(new_err)
    ||| B::less_than_model(
        B::ratio_model(B::magnitude_model(B::diff_model(new_err, prev_err)), new_err),
        eps,
    )
    ||| (!B::is_zero_model(params_norm) && B::less_than_model(
        B::ratio_model(delta_norm, params_norm),
        eps,
    ))
}

/// How one successful Gauss-Newton step relates a solver state to its
/// successor: the step happened on a not-yet-converged solver, the normal
/// equations were solvable, the counter advanced by one, the parameters moved
/// by the update direction, the problem's data and the tolerance are
/// unchanged, and the convergence flag is the outcome of the convergence
/// test.
pub open spec fn step_relation<P: Problem>(pre: GaussNewton<P>, post: GaussNewton<P>) -> bool {
    let jm = pre.spec_problem().jacobian_model();
    let em = pre.spec_problem().error_model();
    let dm = step_delta::<P::B>(jm, em);
    &&& !pre.spec_converged()
    &&& <P::B as Backend>::solvable_model(<P::B as Backend>::normal_matrix_model(jm))
    &&& post.spec_iters() == pre.spec_iters() + 1
    &&& post.spec_problem().params_model() == <P::B as Backend>::vector_sum_model(
        pre.spec_problem().params_model(),
        dm,
    )
    &&& post.spec_problem().data_model() == pre.spec_problem().data_model()
    &&& post.eps_model() == pre.eps_model()
    &&& post.spec_converged() == step_converged::<P::B>(
        <P::B as Backend>::norm_model(em),
        <P::B as Backend>::norm_model(post.spec_problem().error_model()),
        <P::B as Backend>::norm_model(dm),
        <P::B as Backend>::norm_model(post.spec_problem().params_model()),
        pre.eps_model(),
    )
}

/// Solver state `b` is reached from state `a` by the chain of successful
/// Gauss-Newton steps `chain` (which starts at `a` and ends at `b`): every
/// adjacent pair is one step.
pub open spec fn runs_to<P: Problem>(
    chain: Seq<GaussNewton<P>>,
    a: GaussNewton<P>,
    b: GaussNewton<P>,
) -> bool {
    &&& chain.len() >= 1
    &&& chain.first() == a
    &&& chain.last() == b
    &&& forall|i: int| 0 <= i < chain.len() - 1 ==> #[trigger] step_relation(chain[i], chain[i + 1])
}

/// Along a chain of successful steps the iteration counter counts exactly
/// the steps taken: it grows by the chain's length.
pub proof fn lemma_runs_to_counter<P: Problem>(
    chain: Seq<GaussNewton<P>>,
    a: GaussNewton<P>,
    b: GaussNewton<P>,
)
    requires
        runs_to(chain, a, b),
    ensures
        b.spec_iters() == a.spec_iters() + chain.len() - 1,
    decreases chain.len(),
{
    if chain.len() > 1 {
        let head = chain.drop_last();
        let mid = chain[chain.len() - 2];
        assert(head.first() == a);
        assert(head.last() == mid);
        assert forall|i: int| 0 <= i < head.len() - 1 implies #[trigger] step_relation(
            head[i],
            head[i + 1],
        ) by {
            assert(step_relation(chain[i], chain[i + 1]));
        }
        lemma_runs_to_counter(head, a, mid);
        let k = chain.len() - 2;
        assert(step_relation(chain[k], chain[k + 1]));
        assert(chain[k + 1] == b);
    }
}

/// Gauss-Newton solver: owns one problem and drives repeated steps until a
/// convergence criterion is met, tracking the iteration count and the
/// converged state.
pub struct GaussNewton<P: Problem> {
    /// The wrapped problem, readable by callers to inspect final parameters
    /// and residual after convergence.
    pub problem: P,
    converged: bool,
    iters: usize,
    eps: <P::B as Backend>::Scalar,
}

impl<P: Problem> GaussNewton<P> {
    /// The wrapped problem.
    pub closed spec fn spec_problem(self) -> P {
        self.problem
    }

    /// Number of completed steps.
    pub closed spec fn spec_iters(self) -> nat {
        self.iters as nat
    }

    /// Whether a convergence criterion has been met.  Starts false, moves
    /// only from false to true, and is never reset.
    pub closed spec fn spec_converged(self) -> bool {
        self.converged
    }

    /// Model of the convergence tolerance.
    pub closed spec fn eps_model(self) -> <P::B as Backend>::ScalarModel {
        <P::B as Backend>::scalar_model(self.eps)
    }

    /// Take ownership of a problem and prepare a run with the default
    /// relative tolerance (the backend's representation of 1e-6).
    pub fn new(problem: P) -> (r: Self)
        ensures
            r.spec_problem() == problem,
            r.spec_iters() == 0,
            !r.spec_converged(),
            r.eps_model() == <P::B as Backend>::default_tolerance_model(),
    {
        GaussNewton {
            problem,
            converged: false,
            iters: 0,
            eps: <P::B as Backend>::default_tolerance(),
        }
    }

    /// Take ownership of a problem and prepare a run with a caller-chosen
    /// relative tolerance.
    pub fn with_tolerance(problem: P, eps: <P::B as Backend>::Scalar) -> (r: Self)
        ensures
            r.spec_problem() == problem,
            r.spec_iters() == 0,
            !r.spec_converged(),
            r.eps_model() == <P::B as Backend>::scalar_model(eps),
    {
        GaussNewton { problem, converged: false, iters: 0, eps }
    }

    /// One Gauss-Newton step.
    ///
    /// Must not be called once converged (a programming error, ruled out by
    /// the precondition).  Records the objective, forms the normal equations
    /// `(Jᵗ·J) · delta = -Jᵗ·e`, solves them by Cholesky factorization,
    /// applies the additive update, and runs the convergence test of
    /// [`step_converged`].  If the factorization rejects `Jᵗ·J`, the step
    /// returns [`SolveError::SingularNormalEquations`] and changes nothing:
    /// it never continues with a garbage update.
    pub fn step(&mut self) -> (r: Result<(), SolveError>)
        requires
            !old(self).spec_converged(),
            old(self).spec_iters() < usize::MAX,
        ensures
            ({
                let jm = old(self).spec_problem().jacobian_model();
                let em = old(self).spec_problem().error_model();
                &&& (r is Err <==> !<P::B as Backend>::solvable_model(
                    <P::B as Backend>::normal_matrix_model(jm),
                ))
                &&& (r is Err ==> r == Result::<(), SolveError>::Err(
                    SolveError::SingularNormalEquations,
                ) && *final(self) == *old(self))
                &&& (r is Ok ==> ({
                    let dm = step_delta::<P::B>(jm, em);
                    let prev = <P::B as Backend>::norm_model(em);
                    let se = <P::B as Backend>::norm_model(final(self).spec_problem().error_model());
                    let dn = <P::B as Backend>::norm_model(dm);
                    let xn = <P::B as Backend>::norm_model(final(self).spec_problem().params_model());
                    &&& final(self).spec_iters() == old(self).spec_iters() + 1
                    &&& final(self).spec_problem().params_model() == <P::B as Backend>::vector_sum_model(
                        old(self).spec_problem().params_model(),
                        dm,
                    )
                    &&& final(self).spec_problem().data_model() == old(
                        self,
                    ).spec_problem().data_model()
                    &&& final(self).eps_model() == old(self).eps_model()
                    &&& final(self).spec_converged() == step_converged::<P::B>(
                        prev,
                        se,
                        dn,
                        xn,
                        old(self).eps_model(),
                    )
                }))
            }),
    {
        let prev_se = self.problem.squared_error();
        let j = self.problem.jacobian();
        let e = self.problem.error_vector();
        let a = <P::B as Backend>::normal_matrix(&j);
        let b = <P::B as Backend>::neg_gradient(&j, &e);
        let delta = match <P::B as Backend>::cholesky_solve(&a, &b) {
            Some(d) => d,
            None => {
                return Err(SolveError::SingularNormalEquations);
            },
        };
        self.iters = self.iters + 1;
        self.problem.update_parameters(&delta);

        let se = self.problem.squared_error();
        if <P::B as Backend>::is_zero(&se) {
            self.converged = true;
            return Ok(());
        }
        let change = <P::B as Backend>::diff(&se, &prev_se);
        let change_mag = <P::B as Backend>::magnitude(&change);
        let rel_change = <P::B as Backend>::ratio(&change_mag, &se);
        if <P::B as Backend>::less_than(&rel_change, &self.eps) {
            self.converged = true;
            return Ok(());
        }
        let delta_norm = <P::B as Backend>::norm(&delta);
        let params_norm = <P::B as Backend>::norm(self.problem.parameters());
        if !<P::B as Backend>::is_zero(&params_norm) {
            let rel_step = <P::B as Backend>::ratio(&delta_norm, &params_norm);
            if <P::B as Backend>::less_than(&rel_step, &self.eps) {
                self.converged = true;
            }
        }
        Ok(())
    }

    /// Repeatedly step while not converged.
    ///
    /// The design has no iteration cap: a problem whose objective never
    /// stabilizes and whose steps never shrink loops until the iteration
    /// counter itself would overflow, and only then reports
    /// [`SolveError::MaxIterationsExceeded`].
    pub fn solve_until_converged(&mut self) -> (r: Result<(), SolveError>)
        ensures
            r is Ok ==> final(self).spec_converged(),
            r is Err ==> !final(self).spec_converged(),
            r == Result::<(), SolveError>::Err(SolveError::MaxIterationsExceeded)
                ==> final(self).spec_iters() == usize::MAX,
            r == Result::<(), SolveError>::Err(SolveError::SingularNormalEquations)
                ==> !<P::B as Backend>::solvable_model(
                <P::B as Backend>::normal_matrix_model(final(self).spec_problem().jacobian_model()),
            ),
            final(self).eps_model() == old(self).eps_model(),
            final(self).spec_iters() >= old(self).spec_iters(),
            r is Ok && !old(self).spec_converged() ==> final(self).spec_iters() > old(
                self,
            ).spec_iters(),
            old(self).spec_converged() ==> *final(self) == *old(self),
            exists|chain: Seq<GaussNewton<P>>| runs_to(chain, *old(self), *final(self)),
    {
        let ghost mut chain: Seq<GaussNewton<P>> = seq![*self];
        while !self.converged()
            invariant
                self.eps_model() == old(self).eps_model(),
                self.spec_iters() >= old(self).spec_iters(),
                old(self).spec_converged() ==> *self == *old(self),
                *self == *old(self) || self.spec_iters() > old(self).spec_iters(),
                runs_to(chain, *old(self), *self),
            decreases usize::MAX - self.spec_iters(),
        {
            if self.iters() == usize::MAX {
                proof {
                    assert(runs_to(chain, *old(self), *self));
                }
                return Err(SolveError::MaxIterationsExceeded);
            }
            let ghost pre = *self;
            match self.step() {
                Ok(()) => {
                    proof {
                        assert(step_relation(pre, *self));
                        let prev_chain = chain;
                        chain = chain.push(*self);
                        assert(chain.first() == *old(self));
                        assert(chain.last() == *self);
                        assert forall|i: int|
                            0 <= i < chain.len() - 1 implies #[trigger] step_relation(
                            chain[i],
                            chain[i + 1],
                        ) by {
                            if i < prev_chain.len() - 1 {
                                assert(chain[i] == prev_chain[i]);
                                assert(chain[i + 1] == prev_chain[i + 1]);
                                assert(step_relation(prev_chain[i], prev_chain[i + 1]));
                            } else {
                                assert(chain[i] == prev_chain.last());
                                assert(chain[i + 1] == *self);
                            }
                        }
                    }
                },
                Err(e) => {
                    proof {
                        assert(runs_to(chain, *old(self), *self));
                    }
                    return Err(e);
                },
            }
        }
        proof {
            assert(runs_to(chain, *old(self), *self));
        }
        Ok(())
    }

    /// Number of completed steps: exactly the successful `step` calls made.
    pub fn iters(&self) -> (r: usize)
        ensures
            r == self.spec_iters(),
    {
        self.iters
    }

    /// Whether a convergence criterion has been met.
    pub fn converged(&self) -> (r: bool)
        ensures
            r == self.spec_converged(),
    {
        self.converged
    }
}

} // verus!
