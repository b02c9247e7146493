//! The trusted boundary to the external CNF-solving engine.
//!
//! The engine (batsat's CDCL solver) is opaque to verification. Its state is
//! modelled by three uninterpreted names: the clauses loaded so far, the
//! number of variables allocated, and whether a satisfying model from the
//! last search is available. Each wrapper states, over those names, what the
//! engine's source shows about the one call its body makes.

use crate::timing::deadline_reached;
use crate::types::{
    clause_rep, clause_true, clause_vars_below, cnf_satisfiable, Lit, Ternary, Verdict,
};
use vstd::prelude::*;

verus! {

/// One instance of the external engine. The solver value itself is opaque;
/// everything stated about it goes through the names below.
#[verifier::external_body]
pub struct Engine {
    inner: batsat::BasicSolver,
}

/// The clauses loaded into the engine so far, in load order, each literal as
/// a (variable handle, negated) pair.
pub uninterp spec fn solver_clauses(s: Engine) -> Seq<Seq<(u32, bool)>>;

/// How many variables the engine has allocated.
pub uninterp spec fn solver_nvars(s: Engine) -> int;

/// Whether the engine's last search found a model that is still current.
pub uninterp spec fn solver_has_model(s: Engine) -> bool;

/// Whether a stop predicate has been armed on the engine.
pub uninterp spec fn solver_armed(s: Engine) -> bool;

/// Relies on `batsat::BasicSolver::default`: a fresh solver holds no clauses,
/// no variables, no model, and no stop predicate.
#[verifier::external_body]
pub(crate) fn solver_new() -> (s: Engine)
    ensures
        solver_clauses(s) == Seq::<Seq<(u32, bool)>>::empty(),
        solver_nvars(s) == 0,
        !solver_has_model(s),
        !solver_armed(s),
{
    Engine { inner: batsat::BasicSolver::default() }
}

/// Relies on `batsat::SolverInterface::new_var_default`: allocates exactly
/// one fresh variable and touches nothing else. Allocating variable `n`
/// also computes the index `n + 1` for the next one, and the engine's
/// variable indices end one short of `0x7fff_ffff`; the bound keeps both in
/// range.
#[verifier::external_body]
pub(crate) fn solver_reserve_var(s: &mut Engine)
    requires
        solver_nvars(*old(s)) < 0x7fff_fffe,
    ensures
        solver_nvars(*final(s)) == solver_nvars(*old(s)) + 1,
        solver_clauses(*final(s)) == solver_clauses(*old(s)),
        solver_armed(*final(s)) == solver_armed(*old(s)),
{
    batsat::SolverInterface::new_var_default(&mut s.inner);
}

/// Relies on `batsat::SolverInterface::add_clause_reuse`: the given clause
/// joins the loaded constraints (the engine may simplify it internally, but
/// never weakens it).
#[verifier::external_body]
pub(crate) fn solver_add_clause(s: &mut Engine, c: &Vec<Lit>)
    requires
        forall|j: int|
            0 <= j < c@.len() ==> ((#[trigger] c@[j]).var as int) < solver_nvars(*old(s)),
    ensures
        solver_clauses(*final(s)) == solver_clauses(*old(s)).push(clause_rep(c@)),
        solver_nvars(*final(s)) == solver_nvars(*old(s)),
        solver_armed(*final(s)) == solver_armed(*old(s)),
{
    let mut lits: Vec<batsat::Lit> = c
        .iter()
        .map(|l| batsat::Lit::new(batsat::Var::unsafe_from_idx(l.var), !l.neg))
        .collect();
    batsat::SolverInterface::add_clause_reuse(&mut s.inner, &mut lits);
}

/// Relies on `batsat::BasicCallbacks::set_stop` and `std::time::Instant`:
/// installs a pure stop predicate that reports once `limit_nanos` of wall
/// time has elapsed. The engine polls it at checkpoints of its own choosing,
/// so stopping is cooperative and approximate.
#[verifier::external_body]
pub(crate) fn solver_set_deadline(s: &mut Engine, limit_nanos: u64)
    ensures
        solver_clauses(*final(s)) == solver_clauses(*old(s)),
        solver_nvars(*final(s)) == solver_nvars(*old(s)),
        solver_armed(*final(s)),
{
    let start = std::time::Instant::now();
    s.inner.cb_mut().set_stop(move || deadline_reached(start.elapsed().as_nanos(), limit_nanos));
}

/// Relies on `batsat::SolverInterface::solve_limited` with no assumptions:
/// the search ends satisfiable, unsatisfiable, or undecided when the stop
/// predicate interrupted it. A satisfiable answer leaves a current model. An
/// undecided answer can only come from the stop predicate: the engine's
/// other budgets default to unlimited and its default stop predicate never
/// fires. An unsatisfiable answer comes only from a toplevel conflict, so no
/// assignment of the allocated variables satisfies the loaded clauses.
#[verifier::external_body]
pub(crate) fn solver_solve(s: &mut Engine) -> (r: Verdict)
    ensures
        solver_clauses(*final(s)) == solver_clauses(*old(s)),
        solver_nvars(*final(s)) == solver_nvars(*old(s)),
        solver_armed(*final(s)) == solver_armed(*old(s)),
        r is Sat ==> solver_has_model(*final(s)),
        !solver_armed(*old(s)) ==> !(r is Interrupted),
        r is Unsat ==> !cnf_satisfiable(solver_clauses(*old(s)), solver_nvars(*old(s))),
{
    let res = batsat::SolverInterface::solve_limited(&mut s.inner, &[]);
    if res == batsat::lbool::TRUE {
        Verdict::Sat
    } else if res == batsat::lbool::FALSE {
        Verdict::Unsat
    } else {
        Verdict::Interrupted
    }
}

/// Relies on `batsat::SolverInterface::get_model`: after a satisfiable
/// answer the engine's per-variable values make some literal of every loaded
/// clause true (over the variables that exist), unassigned variables being
/// reported as don't-care.
#[verifier::external_body]
pub(crate) fn solver_model(s: &Engine, nvars: u32) -> (m: Vec<Ternary>)
    requires
        solver_has_model(*s),
        nvars as int == solver_nvars(*s),
    ensures
        m@.len() == nvars as int,
        forall|i: int|
            0 <= i < solver_clauses(*s).len() && clause_vars_below(
                #[trigger] solver_clauses(*s)[i],
                nvars as int,
            ) ==> clause_true(m@, solver_clauses(*s)[i]),
{
    let model = batsat::SolverInterface::get_model(&s.inner);
    (0..nvars)
        .map(|v| match model.get(v as usize) {
            Some(&l) if l == batsat::lbool::TRUE => Ternary::True,
            Some(&l) if l == batsat::lbool::FALSE => Ternary::False,
            _ => Ternary::DontCare,
        })
        .collect()
}

} // verus!
