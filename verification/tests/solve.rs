use kissat_py::{solve_clauses, SolveError};

/// Does `sol` satisfy every clause at some literal?
fn satisfies(clauses: &[Vec<i32>], sol: &[i32]) -> bool {
    clauses.iter().all(|c| c.iter().any(|l| sol.contains(l)))
}

/// Pigeonhole instance: `pigeons` pigeons into `holes` holes, unsatisfiable
/// when `pigeons > holes` and hard for clause-learning search.
fn pigeonhole(pigeons: i32, holes: i32) -> Vec<Vec<i32>> {
    let p = |i: i32, j: i32| i * holes + j + 1;
    let mut clauses = Vec::new();
    for i in 0..pigeons {
        clauses.push((0..holes).map(|j| p(i, j)).collect());
    }
    for j in 0..holes {
        for i1 in 0..pigeons {
            for i2 in (i1 + 1)..pigeons {
                clauses.push(vec![-p(i1, j), -p(i2, j)]);
            }
        }
    }
    clauses
}

#[test]
fn empty_instance_is_trivially_sat() {
    let r = solve_clauses(vec![], None).unwrap();
    assert_eq!(r, (Some(vec![]), false));
}

#[test]
fn empty_clause_is_unsat() {
    let r = solve_clauses(vec![vec![]], None).unwrap();
    assert_eq!(r, (None, false));
}

#[test]
fn unit_clause_forces_its_literal() {
    let r = solve_clauses(vec![vec![1]], None).unwrap();
    assert_eq!(r, (Some(vec![1]), false));
}

#[test]
fn contradictory_units_are_unsat() {
    let r = solve_clauses(vec![vec![1], vec![-1]], None).unwrap();
    assert_eq!(r, (None, false));
}

#[test]
fn opposite_literals_share_one_variable() {
    let clauses = vec![vec![1, 2], vec![-1, 3]];
    let (sol, interrupted) = solve_clauses(clauses.clone(), None).unwrap();
    assert!(!interrupted);
    let sol = sol.unwrap();
    assert!(satisfies(&clauses, &sol));
    // Variable 1 gets at most one truth value, consistent across both
    // occurrences.
    let ones = sol.iter().filter(|l| l.abs() == 1).count();
    assert!(ones <= 1);
    assert!(!(sol.contains(&1) && sol.contains(&-1)));
}

#[test]
fn solution_satisfies_every_original_clause() {
    let clauses = vec![vec![1, 2], vec![-1, 3], vec![-2, -3], vec![2, 3]];
    let (sol, interrupted) = solve_clauses(clauses.clone(), None).unwrap();
    assert!(!interrupted);
    assert!(satisfies(&clauses, &sol.unwrap()));
}

#[test]
fn sparse_ids_resolve_to_distinct_variables() {
    let clauses = vec![vec![7, -9], vec![9]];
    let (sol, interrupted) = solve_clauses(clauses, None).unwrap();
    assert!(!interrupted);
    assert_eq!(sol.unwrap(), vec![7, 9]);
}

#[test]
fn unused_variable_never_appears_in_solution() {
    // Variable 1 appears in no clause, so it must not appear in the output.
    let (sol, _) = solve_clauses(vec![vec![2]], None).unwrap();
    assert_eq!(sol.unwrap(), vec![2]);
}

#[test]
fn solution_is_ascending_by_variable_id() {
    let clauses = vec![vec![5], vec![3], vec![-4]];
    let (sol, _) = solve_clauses(clauses, None).unwrap();
    assert_eq!(sol.unwrap(), vec![3, -4, 5]);
}

#[test]
fn zero_literal_is_rejected() {
    assert_eq!(solve_clauses(vec![vec![0]], None), Err(SolveError::InvalidLiteral));
    assert_eq!(
        solve_clauses(vec![vec![1, 2], vec![3, 0, 4]], None),
        Err(SolveError::InvalidLiteral)
    );
}

#[test]
fn zero_time_limit_never_pairs_interruption_with_a_solution() {
    // A hard instance under an already-elapsed deadline: the call must
    // return, either interrupted without a solution or with a conclusive
    // verdict reached before the first poll.
    let clauses = pigeonhole(11, 10);
    let (sol, interrupted) = solve_clauses(clauses, Some(0)).unwrap();
    if interrupted {
        assert_eq!(sol, None);
    }
    assert!(!(interrupted && sol.is_some()));
}

#[test]
fn generous_time_limit_still_completes() {
    let (sol, interrupted) = solve_clauses(vec![vec![1]], Some(10_000_000_000)).unwrap();
    assert!(!interrupted);
    assert_eq!(sol, Some(vec![1]));
}

#[test]
fn repeated_runs_agree_on_satisfiability() {
    let sat_instance = vec![vec![1, 2], vec![-1, 3], vec![-2, -3]];
    let first = solve_clauses(sat_instance.clone(), None).unwrap();
    let second = solve_clauses(sat_instance, None).unwrap();
    assert_eq!(first.0.is_some(), second.0.is_some());
    assert!(!first.1 && !second.1);

    let unsat_instance = vec![vec![1, 2], vec![-1, 2], vec![1, -2], vec![-1, -2]];
    let first = solve_clauses(unsat_instance.clone(), None).unwrap();
    let second = solve_clauses(unsat_instance, None).unwrap();
    assert_eq!(first, (None, false));
    assert_eq!(second, (None, false));
}

#[test]
fn small_pigeonhole_is_unsat() {
    let (sol, interrupted) = solve_clauses(pigeonhole(4, 3), None).unwrap();
    assert_eq!((sol, interrupted), (None, false));
}

#[test]
fn tautological_clause_is_harmless() {
    let clauses = vec![vec![1, -1], vec![2]];
    let (sol, interrupted) = solve_clauses(clauses.clone(), None).unwrap();
    assert!(!interrupted);
    let sol = sol.unwrap();
    assert!(satisfies(&clauses, &sol));
    assert!(sol.contains(&2));
}
