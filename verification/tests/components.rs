use kissat_py::{deadline_reached, decode_model, translate, Lit, SolveError, Ternary, VariableRegistry};

#[test]
fn registry_memoizes_handles() {
    let mut reg = VariableRegistry::new();
    assert_eq!(reg.num_vars(), 0);
    let h5 = reg.resolve(5);
    let h3 = reg.resolve(3);
    assert_eq!(h5, 0);
    assert_eq!(h3, 1);
    assert_eq!(reg.resolve(5), h5);
    assert_eq!(reg.num_vars(), 2);
    assert_eq!(reg.lookup(3), Some(h3));
    assert_eq!(reg.lookup(4), None);
}

#[test]
fn translate_preserves_shape_and_order() {
    let clauses = vec![vec![7, -9], vec![9]];
    let t = translate(&clauses).unwrap();
    assert_eq!(t.max_var, 9);
    assert_eq!(t.cnf.len(), 2);
    assert_eq!(t.cnf[0], vec![Lit { var: 0, neg: false }, Lit { var: 1, neg: true }]);
    assert_eq!(t.cnf[1], vec![Lit { var: 1, neg: false }]);
    assert_eq!(t.registry.num_vars(), 2);
    assert_eq!(t.registry.lookup(7), Some(0));
    assert_eq!(t.registry.lookup(9), Some(1));
}

#[test]
fn translate_counts_every_literal_toward_max_var() {
    // The largest id sits in a tautological clause that contributes nothing
    // else; it still decides max_var.
    let clauses = vec![vec![2], vec![8, -8]];
    let t = translate(&clauses).unwrap();
    assert_eq!(t.max_var, 8);
}

#[test]
fn translate_rejects_zero() {
    assert!(matches!(translate(&vec![vec![1, 0]]), Err(SolveError::InvalidLiteral)));
}

#[test]
fn translate_accepts_empty_inputs() {
    let t = translate(&vec![]).unwrap();
    assert_eq!(t.max_var, 0);
    assert_eq!(t.cnf.len(), 0);
    let t = translate(&vec![vec![]]).unwrap();
    assert_eq!(t.max_var, 0);
    assert_eq!(t.cnf, vec![Vec::<Lit>::new()]);
}

#[test]
fn decode_emits_forced_variables_in_order() {
    let mut reg = VariableRegistry::new();
    let h2 = reg.resolve(2);
    let h7 = reg.resolve(7);
    assert_eq!((h2, h7), (0, 1));
    let model = vec![Ternary::True, Ternary::False];
    let sol = decode_model(&model, &reg, 7);
    assert_eq!(sol, vec![2, -7]);
}

#[test]
fn decode_omits_dont_care_and_unregistered() {
    let mut reg = VariableRegistry::new();
    reg.resolve(1);
    reg.resolve(3);
    let model = vec![Ternary::DontCare, Ternary::True];
    let sol = decode_model(&model, &reg, 5);
    assert_eq!(sol, vec![3]);
}

#[test]
fn deadline_is_reached_exactly_at_the_limit() {
    assert!(deadline_reached(0, 0));
    assert!(!deadline_reached(9, 10));
    assert!(deadline_reached(10, 10));
    assert!(deadline_reached(11, 10));
}
