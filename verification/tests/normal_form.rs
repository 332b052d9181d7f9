use prop_logic::Expression;

fn var(c: char) -> Box<Expression<char>> {
    prop_logic::var(c)
}

#[test]
fn it_works() {
    let exp = prop_logic::implies(prop_logic::not(prop_logic::not(var('P'))), var('Q'));

    assert_eq!(exp.transform_to_cnf(), prop_logic::or(prop_logic::not(var('P')), var('Q')));
    let exp = prop_logic::implies(
        prop_logic::implies(var('P'), var('Q')),
        prop_logic::implies(var('R'), var('S')),
    );
    println!("Transforming to CNF");
    exp.dup().transform_to_cnf();
    println!("Transforming to DNF");
    exp.transform_to_dnf();
    let exp = prop_logic::not(prop_logic::implies(
        var('X'),
        prop_logic::and(var('Y'), var('Z')),
    ));
    exp.transform_to_dnf();
}

#[test]
fn dnf_distributes_conjunction() {
    // not(X -> (Y and Z)) first becomes And(X, Or(Not Y, Not Z)); the
    // disjunctive pass then distributes the And over the Or on its right,
    // emitting the swapped pair order the right branch always produces.
    let exp = prop_logic::not(prop_logic::implies(
        var('X'),
        prop_logic::and(var('Y'), var('Z')),
    ));
    let expected = prop_logic::or(
        prop_logic::and(var('X'), prop_logic::not(var('Z'))),
        prop_logic::and(var('X'), prop_logic::not(var('Y'))),
    );
    assert_eq!(exp.transform_to_dnf(), expected);
}

#[test]
fn cnf_of_top_is_neutral_tautology() {
    // the eliminated constant is rebuilt from the neutral atom, which for
    // char atoms is the nul character; a genuine variable with that value
    // would collide with it.
    let result = prop_logic::top::<char>().transform_to_cnf();
    let expected = prop_logic::or(prop_logic::not(var('\0')), var('\0'));
    assert_eq!(result, expected);
}

#[test]
fn cnf_is_idempotent_on_examples() {
    let exp = prop_logic::implies(
        prop_logic::implies(var('P'), var('Q')),
        prop_logic::implies(var('R'), var('S')),
    );
    let once = exp.dup().transform_to_cnf();
    let twice = exp.transform_to_cnf().transform_to_cnf();
    assert_eq!(once, twice);

    let exp = prop_logic::iff(var('A'), prop_logic::or(var('B'), var('C')));
    let once = exp.dup().transform_to_cnf();
    let twice = exp.transform_to_cnf().transform_to_cnf();
    assert_eq!(once, twice);
}

#[test]
fn dnf_is_idempotent_on_examples() {
    let exp = prop_logic::not(prop_logic::implies(
        var('X'),
        prop_logic::and(var('Y'), var('Z')),
    ));
    let once = exp.dup().transform_to_dnf();
    let twice = exp.transform_to_dnf().transform_to_dnf();
    assert_eq!(once, twice);
}

#[test]
fn numeric_atoms_normalize_too() {
    let exp = prop_logic::implies(prop_logic::var(3u64), prop_logic::var(4u64));
    assert_eq!(
        exp.transform_to_cnf(),
        prop_logic::or(prop_logic::not(prop_logic::var(3u64)), prop_logic::var(4u64))
    );
    // the neutral value of a numeric atom is zero
    assert_eq!(
        prop_logic::bottom::<u64>().transform_to_dnf(),
        prop_logic::or(prop_logic::not(prop_logic::var(0u64)), prop_logic::var(0u64))
    );
}

#[test]
fn residual_negation_survives_one_run() {
    // A negation buried under a double negation sits where the negation
    // push never looks; unwrapping the double negation exposes it only
    // after that pass is over, so one run leaves it and a second run
    // pushes it through. Unrestricted idempotence fails on this input.
    let exp = prop_logic::not(prop_logic::not(prop_logic::not(prop_logic::and(
        var('a'),
        var('b'),
    ))));
    let once = exp.dup().transform_to_cnf();
    assert_eq!(once, prop_logic::not(prop_logic::and(var('a'), var('b'))));
    let twice = exp.transform_to_cnf().transform_to_cnf();
    assert_eq!(
        twice,
        prop_logic::or(prop_logic::not(var('a')), prop_logic::not(var('b')))
    );
    assert_ne!(once, twice);
}
