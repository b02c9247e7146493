//! Decoding of the engine's ternary model back into the caller's numbering.
//!
//! External ids are walked in ascending order; each registered id whose
//! internal variable the model forces contributes one signed entry, and
//! don't-care or never-referenced ids contribute nothing.

use crate::registry::VariableRegistry;
use crate::types::{abs_of, Ternary};
use vstd::prelude::*;

verus! {

/// A solution whose entries come in strictly ascending order of magnitude
/// assigns at most one truth value to any variable: no two entries, and in
/// particular no contradictory pair, share a magnitude.
pub proof fn lemma_solution_assigns_once(sol: Seq<i32>)
    requires
        forall|k1: int, k2: int| 0 <= k1 < k2 < sol.len() ==> abs_of(sol[k1]) < abs_of(sol[k2]),
    ensures
        forall|k1: int, k2: int|
            0 <= k1 < sol.len() && 0 <= k2 < sol.len() && k1 != k2 ==> abs_of(sol[k1]) != abs_of(
                sol[k2],
            ),
{
}

/// Turns a per-handle ternary model into a sparse signed solution.
///
/// For each id `1 ..= max_var` registered in `reg`, the model value of its
/// handle decides the entry: forced true gives `+id`, forced false gives
/// `-id`, don't-care gives nothing. Unregistered ids give nothing. Entries
/// therefore come out in strictly ascending order of magnitude, each one
/// echoing the model exactly, and every forced registered id is present.
pub fn decode_model(model: &Vec<Ternary>, reg: &VariableRegistry, max_var: u32) -> (sol: Vec<i32>)
    requires
        reg.wf(),
        max_var <= 0x7fff_ffffu32,
        reg.count() <= model@.len(),
    ensures
        forall|k: int|
            0 <= k < sol@.len() ==> {
                let e = #[trigger] sol@[k];
                &&& e != 0i32
                &&& 1 <= abs_of(e) <= max_var as int
                &&& reg.id_map().contains_key(abs_of(e) as u32)
                &&& (e > 0 ==> model@[reg.id_map()[abs_of(e) as u32] as int] is True)
                &&& (e < 0 ==> model@[reg.id_map()[abs_of(e) as u32] as int] is False)
            },
        forall|k1: int, k2: int|
            0 <= k1 < k2 < sol@.len() ==> abs_of(sol@[k1]) < abs_of(sol@[k2]),
        forall|id: u32|
            1 <= id <= max_var && #[trigger] reg.id_map().contains_key(id) ==> {
                let h = reg.id_map()[id] as int;
                &&& (model@[h] is True ==> sol@.contains(id as i32))
                &&& (model@[h] is False ==> sol@.contains((-(id as int)) as i32))
            },
{
    proof {
        reg.lemma_wf_bounds();
    }
    let mut sol: Vec<i32> = Vec::new();
    let mut id: u32 = 1;
    while id <= max_var
        invariant
            reg.wf(),
            max_var <= 0x7fff_ffffu32,
            reg.count() <= model@.len(),
            1 <= id <= max_var as int + 1,
            forall|idp: u32|
                #[trigger] reg.id_map().contains_key(idp) ==> (reg.id_map()[idp] as int)
                    < model@.len(),
            forall|k: int|
                0 <= k < sol@.len() ==> {
                    let e = #[trigger] sol@[k];
                    &&& e != 0i32
                    &&& 1 <= abs_of(e) < id as int
                    &&& reg.id_map().contains_key(abs_of(e) as u32)
                    &&& (e > 0 ==> model@[reg.id_map()[abs_of(e) as u32] as int] is True)
                    &&& (e < 0 ==> model@[reg.id_map()[abs_of(e) as u32] as int] is False)
                },
            forall|k1: int, k2: int|
                0 <= k1 < k2 < sol@.len() ==> abs_of(sol@[k1]) < abs_of(sol@[k2]),
            forall|idp: u32|
                1 <= idp < id && #[trigger] reg.id_map().contains_key(idp) ==> {
                    let h = reg.id_map()[idp] as int;
                    &&& (model@[h] is True ==> sol@.contains(idp as i32))
                    &&& (model@[h] is False ==> sol@.contains((-(idp as int)) as i32))
                },
        decreases max_var as int + 1 - id as int,
    {
        let ghost old_sol = sol@;
        match reg.lookup(id) {
            Some(h) => {
                match model[h as usize] {
                    Ternary::True => {
                        sol.push(id as i32);
                        proof {
                            assert(sol@[old_sol.len() as int] == id as i32);
                        }
                    },
                    Ternary::False => {
                        sol.push(-(id as i32));
                        proof {
                            assert(sol@[old_sol.len() as int] == (-(id as int)) as i32);
                        }
                    },
                    Ternary::DontCare => (),
                }
            },
            None => (),
        }
        proof {
            assert forall|k: int| 0 <= k < old_sol.len() implies sol@.contains(old_sol[k]) by {
                assert(sol@[k] == old_sol[k]);
            }
        }
        id += 1;
    }
    sol
}

} // verus!
