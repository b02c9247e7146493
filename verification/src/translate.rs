//! Translation of externally numbered signed clauses into dense internal form.
//!
//! Every literal is checked (zero is invalid input), its magnitude resolved
//! to an internal handle through the registry, and its polarity carried over.
//! Clause and literal order are preserved, and the largest referenced
//! external id is tracked across all clauses.

use crate::registry::VariableRegistry;
use crate::types::{abs_of, has_zero_literal, var_occurs, Lit, SolveError};
use vstd::prelude::*;

verus! {

/// The view of a list of clauses as a sequence of integer sequences.
pub open spec fn clauses_view(cs: Seq<Vec<i32>>) -> Seq<Seq<i32>> {
    cs.map_values(|c: Vec<i32>| c@)
}

/// An internal literal `l` faithfully renders the external literal `e` under
/// the id mapping `m`: its handle is the one registered for `e`'s magnitude
/// and its polarity matches `e`'s sign.
pub open spec fn lit_matches(l: Lit, e: i32, m: Map<u32, u32>) -> bool {
    &&& m.contains_key(abs_of(e) as u32)
    &&& l.var == m[abs_of(e) as u32]
    &&& l.neg == (e < 0)
}

/// A fully translated instance: the internal clauses, the registry that
/// defines their variable universe, and the largest external id referenced
/// anywhere in the input.
pub struct Translation {
    pub cnf: Vec<Vec<Lit>>,
    pub registry: VariableRegistry,
    pub max_var: u32,
}

/// The magnitude of a nonzero external literal, as an external variable id.
fn abs_id(e: i32) -> (id: u32)
    requires
        e != 0,
        e != i32::MIN,
    ensures
        id as int == abs_of(e),
        1 <= id <= 0x7fff_ffffu32,
{
    if e < 0 {
        let n: i64 = -(e as i64);
        n as u32
    } else {
        e as u32
    }
}

/// Translates external clauses into an internal instance.
///
/// Rejects any zero literal with `InvalidLiteral` before any other work
/// counts; otherwise each clause is rendered literal for literal, in order,
/// over a registry holding exactly the ids that occur in the input, and
/// `max_var` is the largest magnitude over every literal of every clause
/// (zero when there are none).
pub fn translate(clauses: &Vec<Vec<i32>>) -> (r: Result<Translation, SolveError>)
    requires
        forall|i: int, j: int|
            0 <= i < clauses@.len() && 0 <= j < clauses@[i]@.len() ==> clauses@[i]@[j] != i32::MIN,
    ensures
        r is Err ==> r == Err::<Translation, SolveError>(SolveError::InvalidLiteral)
            && has_zero_literal(clauses_view(clauses@)),
        r matches Ok(t) ==> {
            &&& !has_zero_literal(clauses_view(clauses@))
            &&& t.registry.wf()
            &&& t.cnf@.len() == clauses@.len()
            &&& forall|i: int|
                0 <= i < clauses@.len() ==> #[trigger] t.cnf@[i]@.len() == clauses@[i]@.len()
            &&& forall|i: int, j: int|
                0 <= i < clauses@.len() && 0 <= j < clauses@[i]@.len() ==> lit_matches(
                    #[trigger] t.cnf@[i]@[j],
                    clauses@[i]@[j],
                    t.registry.id_map(),
                )
            &&& forall|id: u32|
                #[trigger] t.registry.id_map().contains_key(id) ==> var_occurs(
                    clauses_view(clauses@),
                    id as int,
                ) && id <= t.max_var
            &&& forall|i: int, j: int|
                0 <= i < clauses@.len() && 0 <= j < clauses@[i]@.len()
                    ==> t.registry.id_map().contains_key(abs_of(#[trigger] clauses@[i]@[j]) as u32)
                    && abs_of(clauses@[i]@[j]) <= t.max_var as int
            &&& t.max_var <= 0x7fff_ffffu32
            &&& (t.max_var == 0 || var_occurs(clauses_view(clauses@), t.max_var as int))
        },
{
    let ghost cv = clauses_view(clauses@);
    let mut reg = VariableRegistry::new();
    let mut cnf: Vec<Vec<Lit>> = Vec::new();
    let mut max_var: u32 = 0;
    let n = clauses.len();
    let mut i: usize = 0;
    while i < n
        invariant
            n == clauses@.len(),
            i <= n,
            cv == clauses_view(clauses@),
            forall|i2: int, j: int|
                0 <= i2 < clauses@.len() && 0 <= j < clauses@[i2]@.len() ==> clauses@[i2]@[j]
                    != i32::MIN,
            reg.wf(),
            cnf@.len() == i,
            forall|i2: int| 0 <= i2 < i ==> #[trigger] cnf@[i2]@.len() == clauses@[i2]@.len(),
            forall|i2: int, j: int|
                0 <= i2 < i && 0 <= j < clauses@[i2]@.len() ==> lit_matches(
                    #[trigger] cnf@[i2]@[j],
                    clauses@[i2]@[j],
                    reg.id_map(),
                ),
            forall|i2: int, j: int|
                0 <= i2 < i && 0 <= j < clauses@[i2]@.len() ==> clauses@[i2]@[j] != 0
                    && reg.id_map().contains_key(abs_of(#[trigger] clauses@[i2]@[j]) as u32)
                    && abs_of(clauses@[i2]@[j]) <= max_var as int,
            forall|id: u32|
                #[trigger] reg.id_map().contains_key(id) ==> var_occurs(cv, id as int) && id
                    <= max_var,
            max_var <= 0x7fff_ffffu32,
            max_var == 0 || var_occurs(cv, max_var as int),
        decreases n - i,
    {
        let clause_len = clauses[i].len();
        let mut out: Vec<Lit> = Vec::new();
        let mut j: usize = 0;
        while j < clause_len
            invariant
                n == clauses@.len(),
                i < n,
                clause_len == clauses@[i as int]@.len(),
                j <= clause_len,
                cv == clauses_view(clauses@),
                forall|i2: int, j2: int|
                    0 <= i2 < clauses@.len() && 0 <= j2 < clauses@[i2]@.len() ==> clauses@[i2]@[j2]
                        != i32::MIN,
                reg.wf(),
                cnf@.len() == i,
                forall|i2: int| 0 <= i2 < i ==> #[trigger] cnf@[i2]@.len() == clauses@[i2]@.len(),
                forall|i2: int, j2: int|
                    0 <= i2 < i && 0 <= j2 < clauses@[i2]@.len() ==> lit_matches(
                        #[trigger] cnf@[i2]@[j2],
                        clauses@[i2]@[j2],
                        reg.id_map(),
                    ),
                forall|i2: int, j2: int|
                    0 <= i2 < i && 0 <= j2 < clauses@[i2]@.len() ==> clauses@[i2]@[j2] != 0
                        && reg.id_map().contains_key(abs_of(#[trigger] clauses@[i2]@[j2]) as u32)
                        && abs_of(clauses@[i2]@[j2]) <= max_var as int,
                out@.len() == j,
                forall|j2: int|
                    0 <= j2 < j ==> lit_matches(
                        #[trigger] out@[j2],
                        clauses@[i as int]@[j2],
                        reg.id_map(),
                    ),
                forall|j2: int|
                    0 <= j2 < j ==> clauses@[i as int]@[j2] != 0 && reg.id_map().contains_key(
                        abs_of(#[trigger] clauses@[i as int]@[j2]) as u32,
                    ) && abs_of(clauses@[i as int]@[j2]) <= max_var as int,
                forall|id: u32|
                    #[trigger] reg.id_map().contains_key(id) ==> var_occurs(cv, id as int) && id
                        <= max_var,
                max_var <= 0x7fff_ffffu32,
                max_var == 0 || var_occurs(cv, max_var as int),
            decreases clause_len - j,
        {
            let e = clauses[i][j];
            if e == 0 {
                proof {
                    assert(cv[i as int][j as int] == 0);
                }
                return Err(SolveError::InvalidLiteral);
            }
            let id = abs_id(e);
            let h = reg.resolve(id);
            if id > max_var {
                max_var = id;
            }
            out.push(Lit { var: h, neg: e < 0 });
            proof {
                assert(cv[i as int][j as int] == clauses@[i as int]@[j as int]);
                assert(var_occurs(cv, id as int));
            }
            j += 1;
        }
        cnf.push(out);
        i += 1;
    }
    Ok(Translation { cnf, registry: reg, max_var })
}

} // verus!
