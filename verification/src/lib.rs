//! Gauss-Newton nonlinear least-squares solver.
//!
//! The solver drives repeated Gauss-Newton steps on a user-supplied
//! [`problem::Problem`] until a convergence criterion is met.  The iteration
//! loop and the convergence test are written once, against an abstract dense
//! linear-algebra capability ([`backend::Backend`]); a saturating fixed-point
//! backend ([`fxbackend::FxBackend`]) is provided and verified end to end.

use vstd::prelude::*;

pub mod backend;
pub mod curvefit;
pub mod fx;
pub mod fxbackend;
pub mod fxchol;
pub mod fxlin;
pub mod laws;
pub mod problem;
pub mod solver;

verus! {

} // verus!
