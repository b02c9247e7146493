//! Core data types and the specification vocabulary shared by every module.

use vstd::prelude::*;

verus! {

/// A ternary model value for one internal variable: forced true, forced
/// false, or free to take either value.
#[derive(Clone, Copy, Debug, PartialEq, Eq, Structural)]
pub enum Ternary {
    True,
    False,
    DontCare,
}

/// An internal literal: a dense variable handle plus a polarity.
/// `neg` is true for a negated occurrence.
#[derive(Clone, Copy, Debug, PartialEq, Eq, Structural)]
pub struct Lit {
    pub var: u32,
    pub neg: bool,
}

/// The errors a solve can report. `InvalidLiteral` is a zero literal in the
/// input; the two engine errors are fatal failures of the external engine
/// while loading clauses or while running the search.
#[derive(Clone, Copy, Debug, PartialEq, Eq, Structural)]
pub enum SolveError {
    InvalidLiteral,
    EngineLoadError,
    EngineRuntimeError,
}

/// The engine's answer to one search: a model was found, the instance was
/// refuted, or the search was stopped by the deadline before either.
#[derive(Clone, Copy, Debug, PartialEq, Eq, Structural)]
pub enum Verdict {
    Sat,
    Unsat,
    Interrupted,
}

/// The magnitude of an external literal, as a mathematical integer.
pub open spec fn abs_of(l: i32) -> int {
    if l < 0 {
        -(l as int)
    } else {
        l as int
    }
}

/// Whether any clause holds a zero literal, which is invalid input.
pub open spec fn has_zero_literal(cs: Seq<Seq<i32>>) -> bool {
    exists|i: int, j: int|
        0 <= i < cs.len() && 0 <= j < cs[i].len() && cs[i][j] == 0i32
}

/// Whether the external variable id `v` occurs (under either polarity)
/// somewhere in the input clauses.
pub open spec fn var_occurs(cs: Seq<Seq<i32>>, v: int) -> bool {
    exists|i: int, j: int|
        0 <= i < cs.len() && 0 <= j < cs[i].len() && abs_of(cs[i][j]) == v
}

/// Every valid external variable id occurs somewhere in the clauses — the
/// only way the engine's variable space can be exhausted.
pub open spec fn all_ids_used(cs: Seq<Seq<i32>>) -> bool {
    forall|v: int| 1 <= v <= 0x7fff_ffff ==> var_occurs(cs, v)
}

/// An external clause is satisfied by a sparse solution when some literal of
/// the clause appears verbatim in the solution.
pub open spec fn ext_clause_sat(c: Seq<i32>, sol: Seq<i32>) -> bool {
    exists|j: int| 0 <= j < c.len() && sol.contains(c[j])
}

/// The plain-value shape of an internal literal, used to state what the
/// external engine holds.
pub open spec fn lit_rep(l: Lit) -> (u32, bool) {
    (l.var, l.neg)
}

/// The plain-value shape of an internal clause.
pub open spec fn clause_rep(c: Seq<Lit>) -> Seq<(u32, bool)> {
    c.map_values(|l: Lit| lit_rep(l))
}

/// A literal (variable handle, polarity) is made true by a ternary model when
/// the model forces its variable to the matching value. A `DontCare` value
/// makes no literal true.
pub open spec fn lit_true(m: Seq<Ternary>, l: (u32, bool)) -> bool {
    &&& l.0 < m.len()
    &&& if l.1 {
        m[l.0 as int] is False
    } else {
        m[l.0 as int] is True
    }
}

/// A clause is made true by a ternary model when some literal of it is.
pub open spec fn clause_true(m: Seq<Ternary>, c: Seq<(u32, bool)>) -> bool {
    exists|j: int| 0 <= j < c.len() && lit_true(m, c[j])
}

/// Every variable handle in the clause lies below `n`.
pub open spec fn clause_vars_below(c: Seq<(u32, bool)>, n: int) -> bool {
    forall|j: int| 0 <= j < c.len() ==> (#[trigger] c[j]).0 < n
}

/// A literal is made true by a total boolean assignment of the internal
/// variables when its variable is assigned opposite to its negation flag.
pub open spec fn assign_lit_true(a: Seq<bool>, l: (u32, bool)) -> bool {
    l.0 < a.len() && a[l.0 as int] == !l.1
}

/// A clause is made true by a boolean assignment when some literal of it is.
pub open spec fn assign_clause_true(a: Seq<bool>, c: Seq<(u32, bool)>) -> bool {
    exists|j: int| 0 <= j < c.len() && assign_lit_true(a, c[j])
}

/// The assignment `a` makes every clause of the instance true.
pub open spec fn assigns_cnf(a: Seq<bool>, cs: Seq<Seq<(u32, bool)>>) -> bool {
    forall|i: int| 0 <= i < cs.len() ==> assign_clause_true(a, #[trigger] cs[i])
}

/// Whether some total assignment of `nvars` internal variables makes every
/// clause of the instance true.
pub open spec fn cnf_satisfiable(cs: Seq<Seq<(u32, bool)>>, nvars: int) -> bool {
    exists|a: Seq<bool>| a.len() == nvars && #[trigger] assigns_cnf(a, cs)
}

/// An external literal is made true by an assignment of truth values to
/// external variable ids: a positive literal by its variable being true, a
/// negative one by it being false. A zero literal is never made true.
pub open spec fn ext_lit_sat_by(a: spec_fn(int) -> bool, e: i32) -> bool {
    e != 0i32 && if e > 0 {
        a(e as int)
    } else {
        !a(abs_of(e))
    }
}

/// An external clause is made true by an assignment when some literal of it
/// is.
pub open spec fn ext_clause_sat_by(a: spec_fn(int) -> bool, c: Seq<i32>) -> bool {
    exists|j: int| 0 <= j < c.len() && ext_lit_sat_by(a, c[j])
}

/// The assignment `a` satisfies every external clause.
pub open spec fn ext_sat_with(a: spec_fn(int) -> bool, cs: Seq<Seq<i32>>) -> bool {
    forall|i: int| 0 <= i < cs.len() ==> ext_clause_sat_by(a, #[trigger] cs[i])
}

/// Whether the external clauses are satisfiable at all: some assignment of
/// truth values to their variable ids satisfies every clause.
pub open spec fn ext_satisfiable(cs: Seq<Seq<i32>>) -> bool {
    exists|a: spec_fn(int) -> bool| #[trigger] ext_sat_with(a, cs)
}

} // verus!
