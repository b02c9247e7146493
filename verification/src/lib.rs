//! A verified front end for an off-the-shelf CNF satisfiability engine.
//!
//! Callers hand in clauses of signed, sparsely numbered literals. The library
//! translates them into the engine's dense variable space, runs the engine
//! (optionally under a cooperative deadline), and decodes the engine's ternary
//! model back into the caller's numbering with don't-care variables omitted.

mod decode;
mod engine;
mod registry;
mod solver;
mod timing;
mod translate;
mod types;

pub use decode::{decode_model, lemma_solution_assigns_once};
pub use registry::VariableRegistry;
pub use solver::solve_clauses;
pub use timing::deadline_reached;
pub use translate::{translate, Translation};
pub use types::{Lit, SolveError, Ternary, Verdict};
