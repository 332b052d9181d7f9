use prop_logic::Expression;

fn v(c: char) -> Box<Expression<char>> {
    prop_logic::var(c)
}

#[test]
fn builders_mirror_node_constructors() {
    assert_eq!(
        prop_logic::not(v('a')),
        Box::new(Expression::Not(Box::new(Expression::Var('a'))))
    );
    assert_eq!(
        prop_logic::and(v('a'), v('b')),
        Box::new(Expression::And(
            Box::new(Expression::Var('a')),
            Box::new(Expression::Var('b'))
        ))
    );
    assert_eq!(
        prop_logic::or(v('a'), v('b')),
        Box::new(Expression::Or(
            Box::new(Expression::Var('a')),
            Box::new(Expression::Var('b'))
        ))
    );
    assert_eq!(
        prop_logic::implies(v('a'), v('b')),
        Box::new(Expression::Implies(
            Box::new(Expression::Var('a')),
            Box::new(Expression::Var('b'))
        ))
    );
    assert_eq!(
        prop_logic::iff(v('a'), v('b')),
        Box::new(Expression::Iff(
            Box::new(Expression::Var('a')),
            Box::new(Expression::Var('b'))
        ))
    );
    assert_eq!(prop_logic::top::<char>(), Box::new(Expression::Top));
    assert_eq!(prop_logic::bottom::<char>(), Box::new(Expression::Bottom));
}

#[test]
fn boolean_literals_become_constants() {
    let t: Box<Expression<char>> = prop_logic::and(true, v('x'));
    assert_eq!(t, prop_logic::and(prop_logic::top::<char>(), v('x')));
    let f: Box<Expression<char>> = prop_logic::or(false, v('x'));
    assert_eq!(f, prop_logic::or(prop_logic::bottom::<char>(), v('x')));
}

#[test]
fn step_rules_rewrite_locally() {
    // constant elimination produces the neutral tautology
    assert_eq!(
        prop_logic::top::<char>().step_1(),
        prop_logic::or(prop_logic::not(v('\0')), v('\0'))
    );
    // biconditional expansion
    assert_eq!(
        prop_logic::iff(v('p'), v('q')).step_2(),
        prop_logic::and(
            prop_logic::implies(v('p'), v('q')),
            prop_logic::implies(v('q'), v('p'))
        )
    );
    // implication elimination
    assert_eq!(
        prop_logic::implies(v('p'), v('q')).step_3(),
        prop_logic::or(prop_logic::not(v('p')), v('q'))
    );
    // the negation push
    assert_eq!(
        prop_logic::not(prop_logic::and(v('p'), v('q'))).step_4(),
        prop_logic::or(prop_logic::not(v('p')), prop_logic::not(v('q')))
    );
    assert_eq!(
        prop_logic::not(prop_logic::or(v('p'), v('q'))).step_4(),
        prop_logic::and(prop_logic::not(v('p')), prop_logic::not(v('q')))
    );
    // double negation
    assert_eq!(prop_logic::not(prop_logic::not(v('p'))).step_5(), v('p'));
    // a single negation is left alone by both negation rules
    assert_eq!(prop_logic::not(v('p')).step_4(), prop_logic::not(v('p')));
    assert_eq!(prop_logic::not(v('p')).step_5(), prop_logic::not(v('p')));
}

#[test]
fn distribution_passes_rewrite_locally() {
    // a conjunction on the left of a disjunction distributes in order
    assert_eq!(
        prop_logic::or(prop_logic::and(v('a'), v('b')), v('c')).cnf(),
        prop_logic::and(prop_logic::or(v('a'), v('c')), prop_logic::or(v('b'), v('c')))
    );
    // on the right the emitted pair is swapped
    assert_eq!(
        prop_logic::or(v('a'), prop_logic::and(v('b'), v('c'))).cnf(),
        prop_logic::and(prop_logic::or(v('a'), v('c')), prop_logic::or(v('a'), v('b')))
    );
    // the disjunctive pass mirrors both cases
    assert_eq!(
        prop_logic::and(prop_logic::or(v('a'), v('b')), v('c')).dnf(),
        prop_logic::or(prop_logic::and(v('a'), v('c')), prop_logic::and(v('b'), v('c')))
    );
    assert_eq!(
        prop_logic::and(v('a'), prop_logic::or(v('b'), v('c'))).dnf(),
        prop_logic::or(prop_logic::and(v('a'), v('c')), prop_logic::and(v('a'), v('b')))
    );
}

#[test]
fn simplifier_absorbs_constants() {
    assert_eq!(
        prop_logic::and(v('a'), prop_logic::top::<char>()).top_bottom_rules(),
        v('a')
    );
    assert_eq!(
        prop_logic::and(v('a'), prop_logic::bottom::<char>()).top_bottom_rules(),
        prop_logic::bottom()
    );
    assert_eq!(
        prop_logic::and(prop_logic::top::<char>(), v('a')).top_bottom_rules(),
        v('a')
    );
    assert_eq!(
        prop_logic::and(prop_logic::bottom::<char>(), v('a')).top_bottom_rules(),
        prop_logic::bottom()
    );
    assert_eq!(
        prop_logic::or(v('a'), prop_logic::top::<char>()).top_bottom_rules(),
        prop_logic::top()
    );
    assert_eq!(
        prop_logic::or(v('a'), prop_logic::bottom::<char>()).top_bottom_rules(),
        v('a')
    );
    assert_eq!(
        prop_logic::or(prop_logic::top::<char>(), v('a')).top_bottom_rules(),
        prop_logic::top()
    );
    assert_eq!(
        prop_logic::or(prop_logic::bottom::<char>(), v('a')).top_bottom_rules(),
        v('a')
    );
}

#[test]
fn simplifier_collapses_complements() {
    assert_eq!(
        prop_logic::and(prop_logic::not(v('a')), v('a')).top_bottom_rules(),
        prop_logic::bottom()
    );
    assert_eq!(
        prop_logic::and(v('a'), prop_logic::not(v('a'))).top_bottom_rules(),
        prop_logic::bottom()
    );
    assert_eq!(
        prop_logic::or(prop_logic::not(v('a')), v('a')).top_bottom_rules(),
        prop_logic::top()
    );
    assert_eq!(
        prop_logic::or(v('a'), prop_logic::not(v('a'))).top_bottom_rules(),
        prop_logic::top()
    );
    // complement detection is structural, not semantic
    assert_eq!(
        prop_logic::and(prop_logic::not(prop_logic::not(v('a'))), prop_logic::not(v('a')))
            .top_bottom_rules(),
        prop_logic::bottom()
    );
}

#[test]
fn simplifier_implication_and_negation_cases() {
    assert_eq!(
        prop_logic::implies(v('a'), prop_logic::bottom::<char>()).top_bottom_rules(),
        prop_logic::not(v('a'))
    );
    assert_eq!(
        prop_logic::implies(prop_logic::top::<char>(), v('b')).top_bottom_rules(),
        v('b')
    );
    assert_eq!(
        prop_logic::not(prop_logic::bottom::<char>()).top_bottom_rules(),
        prop_logic::top()
    );
    assert_eq!(
        prop_logic::not(prop_logic::top::<char>()).top_bottom_rules(),
        prop_logic::bottom()
    );
    // a negation over anything else keeps its negation
    assert_eq!(
        prop_logic::not(prop_logic::and(v('a'), prop_logic::top::<char>())).top_bottom_rules(),
        prop_logic::not(v('a'))
    );
}

#[test]
fn structural_equality_is_syntactic() {
    let a = prop_logic::and(v('x'), v('y'));
    let b = prop_logic::and(v('x'), v('y'));
    assert!(a.struct_eq(&b));
    // logically equal but syntactically different trees compare unequal
    let c = prop_logic::and(v('y'), v('x'));
    assert!(!a.struct_eq(&c));
    assert_ne!(a, c);
}

#[test]
fn duplicate_is_structurally_equal() {
    let a = prop_logic::implies(
        prop_logic::not(v('x')),
        prop_logic::iff(v('y'), prop_logic::top::<char>()),
    );
    assert_eq!(a.dup(), a);
}

#[test]
fn add_sums() {
    assert_eq!(prop_logic::add(2, 3), 5);
}
