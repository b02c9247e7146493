//! One complete solving session: translate, load, search, decode.
//!
//! Each call owns a fresh engine instance and registry; nothing is shared
//! across calls. The deadline, when given, is cooperative: the engine is
//! asked to stop at its next poll once the limit has elapsed. Without a
//! deadline the search runs to a verdict and is never interrupted.

use crate::decode::decode_model;
use crate::engine::{
    solver_add_clause, solver_armed, solver_clauses, solver_model, solver_new, solver_nvars,
    solver_reserve_var, solver_set_deadline, solver_solve, Engine,
};
use crate::translate::{clauses_view, lit_matches, translate, Translation};
use crate::types::{
    abs_of, all_ids_used, assign_clause_true, assign_lit_true, assigns_cnf, clause_rep,
    clause_true, clause_vars_below, cnf_satisfiable, ext_clause_sat, ext_clause_sat_by,
    ext_lit_sat_by, ext_sat_with, ext_satisfiable, has_zero_literal, lit_true, var_occurs, Lit,
    SolveError, Verdict,
};
use vstd::prelude::*;

verus! {

/// Solves the satisfiability problem given by `clauses`, where each clause
/// lists nonzero signed literals: a positive entry asserts its variable, a
/// negative entry negates it.
///
/// Returns `(solution, interrupted)`. A solution is present exactly when the
/// engine found a model: it then holds one signed entry per forced variable,
/// in ascending order of magnitude, each satisfying every input clause at
/// some literal, and mentions only variables that occur in the input — so
/// the clauses are satisfiable. A `(None, false)` answer means the clauses
/// are unsatisfiable. An interrupted run (the optional time limit elapsed
/// first) carries no solution and sets the flag; with no time limit the
/// search is never interrupted. A zero literal anywhere is rejected as
/// `InvalidLiteral` before any engine work; an instance that references
/// every representable variable id — one more than the engine can allocate —
/// is rejected as `EngineLoadError` before any search.
pub fn solve_clauses(clauses: Vec<Vec<i32>>, time_limit_nanos: Option<u64>) -> (r: Result<
    (Option<Vec<i32>>, bool),
    SolveError,
>)
    requires
        forall|i: int, j: int|
            0 <= i < clauses@.len() && 0 <= j < clauses@[i]@.len() ==> clauses@[i]@[j] != i32::MIN,
    ensures
        r == Err::<(Option<Vec<i32>>, bool), SolveError>(SolveError::InvalidLiteral)
            <==> has_zero_literal(clauses_view(clauses@)),
        r == Err::<(Option<Vec<i32>>, bool), SolveError>(SolveError::EngineLoadError) <==> (
        !has_zero_literal(clauses_view(clauses@)) && all_ids_used(clauses_view(clauses@))),
        r != Err::<(Option<Vec<i32>>, bool), SolveError>(SolveError::EngineRuntimeError),
        clauses@.len() == 0 ==> (r matches Ok(p) && !p.1 && (p.0 matches Some(s) && s@.len()
            == 0)),
        r matches Ok(p) ==> (p.1 ==> p.0 is None),
        time_limit_nanos is None ==> (r matches Ok(p) ==> p.1 == false),
        r matches Ok(p) ==> (p.0 is Some ==> ext_satisfiable(clauses_view(clauses@))),
        r matches Ok(p) ==> (p.0 is None && p.1 == false ==> !ext_satisfiable(
            clauses_view(clauses@),
        )),
        r matches Ok(p) ==> p.0 matches Some(sol) ==> {
            &&& p.1 == false
            &&& forall|i: int|
                0 <= i < clauses@.len() ==> ext_clause_sat(
                    clauses_view(clauses@)[i],
                    sol@,
                )
            &&& forall|k: int|
                0 <= k < sol@.len() ==> #[trigger] sol@[k] != 0i32 && var_occurs(
                    clauses_view(clauses@),
                    abs_of(sol@[k]),
                )
            &&& forall|k1: int, k2: int|
                0 <= k1 < k2 < sol@.len() ==> abs_of(sol@[k1]) < abs_of(sol@[k2])
        },
{
    let ghost cv = clauses_view(clauses@);
    if clauses.len() == 0 {
        proof {
            let a = |v: int| true;
            assert(ext_sat_with(a, cv));
            assert(!var_occurs(cv, 1));
        }
        return Ok((Some(Vec::new()), false));
    }
    let t = match translate(&clauses) {
        Ok(t) => t,
        Err(e) => {
            return Err(e);
        },
    };
    let Translation { cnf, registry, max_var } = t;
    proof {
        registry.lemma_wf_bounds();
    }
    let nvars = registry.num_vars();

    // An instance referencing every representable id needs one variable more
    // than the engine can allocate; it is rejected before any engine work.
    if nvars >= 0x7fff_ffff {
        proof {
            registry.lemma_full_coverage();
            assert forall|v0: int| 1 <= v0 <= 0x7fff_ffff implies var_occurs(cv, v0) by {
                assert(registry.id_map().contains_key(v0 as u32));
            }
        }
        return Err(SolveError::EngineLoadError);
    }
    // Conversely, below that bound some valid id is missing from the input.
    proof {
        if all_ids_used(cv) {
            assert forall|id: u32| 1 <= id <= 0x7fff_ffffu32 implies #[trigger] registry.id_map()
                .contains_key(id) by {
                assert(var_occurs(cv, id as int));
                let (ci, j) = choose|ci: int, j: int|
                    0 <= ci < cv.len() && 0 <= j < cv[ci].len() && abs_of(cv[ci][j]) == id as int;
                assert(cv[ci][j] == clauses@[ci]@[j]);
            }
            registry.lemma_coverage_count();
            assert(false);
        }
    }

    // Every internal literal points below the registry's handle count.
    proof {
        assert forall|i: int, j: int|
            0 <= i < cnf@.len() && 0 <= j < cnf@[i]@.len() implies ((#[trigger] cnf@[i]@[j]).var
            as int) < nvars as int by {
            assert(lit_matches(cnf@[i]@[j], clauses@[i]@[j], registry.id_map()));
        }
    }

    let mut eng: Engine = solver_new();
    let mut v: usize = 0;
    while v < nvars
        invariant
            v <= nvars,
            nvars <= 0x7fff_fffe,
            solver_nvars(eng) == v as int,
            solver_clauses(eng) == Seq::<Seq<(u32, bool)>>::empty(),
            !solver_armed(eng),
        decreases nvars - v,
    {
        solver_reserve_var(&mut eng);
        v += 1;
    }

    let n = cnf.len();
    let mut i: usize = 0;
    while i < n
        invariant
            i <= n,
            n == cnf@.len(),
            solver_nvars(eng) == nvars as int,
            !solver_armed(eng),
            forall|i2: int, j: int|
                0 <= i2 < cnf@.len() && 0 <= j < cnf@[i2]@.len() ==> ((
                #[trigger] cnf@[i2]@[j]).var as int) < nvars as int,
            solver_clauses(eng) == cnf@.take(i as int).map_values(|c: Vec<Lit>| clause_rep(c@)),
        decreases n - i,
    {
        solver_add_clause(&mut eng, &cnf[i]);
        proof {
            assert(cnf@.take(i + 1 as int) =~= cnf@.take(i as int).push(cnf@[i as int]));
            assert(cnf@.take(i + 1 as int).map_values(|c: Vec<Lit>| clause_rep(c@)) =~= cnf@.take(
                i as int,
            ).map_values(|c: Vec<Lit>| clause_rep(c@)).push(clause_rep(cnf@[i as int]@)));
        }
        i += 1;
    }
    proof {
        assert(cnf@.take(n as int) =~= cnf@);
    }

    match time_limit_nanos {
        Some(limit) => solver_set_deadline(&mut eng, limit),
        None => (),
    }

    let verdict = solver_solve(&mut eng);
    match verdict {
        Verdict::Sat => {
            let model = solver_model(&eng, nvars as u32);
            let sol = decode_model(&model, &registry, max_var);
            proof {
                let sat_fn = |v0: int| 1 <= v0 <= 0x7fff_ffff && sol@.contains(v0 as i32);
                assert forall|ci: int| 0 <= ci < clauses@.len() implies ext_clause_sat(
                    cv[ci],
                    sol@,
                ) && ext_clause_sat_by(sat_fn, cv[ci]) by {
                    assert(solver_clauses(eng)[ci] == clause_rep(cnf@[ci]@));
                    assert(clause_vars_below(solver_clauses(eng)[ci], nvars as int)) by {
                        assert forall|j: int|
                            0 <= j < clause_rep(cnf@[ci]@).len() implies ((#[trigger] clause_rep(
                            cnf@[ci]@,
                        )[j]).0 as int) < nvars as int by {
                            assert(clause_rep(cnf@[ci]@)[j].0 == cnf@[ci]@[j].var);
                        }
                    }
                    assert(clause_true(model@, clause_rep(cnf@[ci]@)));
                    let j = choose|j: int|
                        0 <= j < clause_rep(cnf@[ci]@).len() && lit_true(
                            model@,
                            clause_rep(cnf@[ci]@)[j],
                        );
                    let l = cnf@[ci]@[j];
                    let e = clauses@[ci]@[j];
                    assert(lit_matches(l, e, registry.id_map()));
                    assert(e != 0i32);
                    let id = abs_of(e) as u32;
                    assert(1 <= id <= max_var);
                    if e > 0 {
                        assert(model@[registry.id_map()[id] as int] is True);
                        assert(sol@.contains(id as i32));
                        assert(id as i32 == e);
                    } else {
                        assert(model@[registry.id_map()[id] as int] is False);
                        assert(sol@.contains((-(id as int)) as i32));
                        assert((-(id as int)) as i32 == e);
                        // Variable `id` cannot also appear positively: entries
                        // come in strictly ascending magnitude.
                        assert(!sol@.contains(id as i32)) by {
                            if sol@.contains(id as i32) {
                                let k1 = choose|k: int|
                                    0 <= k < sol@.len() && sol@[k] == id as i32;
                                let k2 = choose|k: int| 0 <= k < sol@.len() && sol@[k] == e;
                                assert(abs_of(sol@[k1]) == id as int);
                                assert(abs_of(sol@[k2]) == id as int);
                                assert(k1 != k2);
                            }
                        }
                    }
                    assert(cv[ci][j] == e);
                    assert(sol@.contains(cv[ci][j]));
                    assert(ext_lit_sat_by(sat_fn, e));
                }
                assert(ext_sat_with(sat_fn, cv));
                assert forall|k: int| 0 <= k < sol@.len() implies #[trigger] sol@[k] != 0i32
                    && var_occurs(cv, abs_of(sol@[k])) by {
                    assert(registry.id_map().contains_key(abs_of(sol@[k]) as u32));
                }
            }
            Ok((Some(sol), false))
        },
        Verdict::Unsat => {
            // The engine refutes the loaded clauses; any satisfying external
            // assignment would induce a satisfying internal one, so the
            // input clauses are unsatisfiable.
            proof {
                let rep = cnf@.map_values(|c: Vec<Lit>| clause_rep(c@));
                assert(!cnf_satisfiable(rep, nvars as int));
                if ext_satisfiable(cv) {
                    let a = choose|a0: spec_fn(int) -> bool| ext_sat_with(a0, cv);
                    let b = Seq::new(nvars as nat, |h: int| a(registry.ids_seq()[h] as int));
                    assert forall|ci: int| 0 <= ci < rep.len() implies assign_clause_true(
                        b,
                        rep[ci],
                    ) by {
                        assert(ext_clause_sat_by(a, cv[ci]));
                        let j = choose|j: int| 0 <= j < cv[ci].len() && ext_lit_sat_by(
                            a,
                            cv[ci][j],
                        );
                        let e = clauses@[ci]@[j];
                        assert(cv[ci][j] == e);
                        let l = cnf@[ci]@[j];
                        assert(lit_matches(l, e, registry.id_map()));
                        let id = abs_of(e) as u32;
                        let h = registry.id_map()[id];
                        assert(registry.ids_seq()[h as int] == id);
                        assert(b[h as int] == a(id as int));
                        assert(rep[ci][j] == (l.var, l.neg));
                        if e > 0 {
                            assert(a(e as int));
                            assert(assign_lit_true(b, rep[ci][j]));
                        } else {
                            assert(!a(abs_of(e)));
                            assert(assign_lit_true(b, rep[ci][j]));
                        }
                    }
                    assert(assigns_cnf(b, rep));
                    assert(b.len() == nvars as int);
                    assert(false);
                }
            }
            Ok((None, false))
        },
        Verdict::Interrupted => Ok((None, true)),
    }
}

} // verus!
