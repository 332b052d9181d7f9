use vstd::prelude::*;

use crate::atom::Atom;
use crate::driver::fix_cnf;
use crate::driver::fix_dnf;
use crate::driver::fix_step_1;
use crate::driver::fix_step_2;
use crate::driver::fix_step_3;
use crate::driver::fix_step_4;
use crate::driver::fix_step_5;
use crate::driver::shared_passes_spec;
use crate::driver::to_cnf_spec;
use crate::driver::to_dnf_spec;
use crate::expr::Expression;
use crate::measures::demorgan_weight;
use crate::measures::iff_weight;
use crate::measures::implies_weight;
use crate::measures::lemma_cnf_measure;
use crate::measures::lemma_dnf_measure;
use crate::measures::lemma_step_1_eliminates;
use crate::measures::lemma_step_1_fixed_point;
use crate::measures::lemma_step_2_measure;
use crate::measures::lemma_step_3_measure;
use crate::measures::lemma_step_4_measure;
use crate::measures::lemma_step_5_measure;
use crate::measures::not_count;
use crate::measures::tb_count;
use crate::rules::cnf_spec;
use crate::rules::dnf_spec;
use crate::rules::step_1_spec;
use crate::rules::step_2_spec;
use crate::rules::step_3_spec;
use crate::rules::step_4_spec;
use crate::rules::step_5_spec;

verus! {

/// Every negation in the tree applies directly to a variable.
pub open spec fn literals_only<P>(e: Expression<P>) -> bool
    decreases e,
{
    match e {
        Expression::Var(_) => true,
        Expression::Not(x) => *x is Var,
        Expression::And(a, b) => literals_only(*a) && literals_only(*b),
        Expression::Or(a, b) => literals_only(*a) && literals_only(*b),
        Expression::Implies(a, b) => literals_only(*a) && literals_only(*b),
        Expression::Iff(a, b) => literals_only(*a) && literals_only(*b),
        Expression::Top => true,
        Expression::Bottom => true,
    }
}

/// A clause: a disjunction tree of literals.
pub open spec fn is_clause<P>(e: Expression<P>) -> bool
    decreases e,
{
    match e {
        Expression::Var(_) => true,
        Expression::Not(x) => *x is Var,
        Expression::Or(a, b) => is_clause(*a) && is_clause(*b),
        _ => false,
    }
}

/// Conjunctive normal shape: a conjunction tree of clauses, so the root
/// and every node above a literal is `And` or `Or`, and no `Or` has an
/// `And` anywhere below it.
pub open spec fn is_cnf_shape<P>(e: Expression<P>) -> bool
    decreases e,
{
    match e {
        Expression::And(a, b) => is_cnf_shape(*a) && is_cnf_shape(*b),
        _ => is_clause(e),
    }
}

/// A term: a conjunction tree of literals.
pub open spec fn is_term<P>(e: Expression<P>) -> bool
    decreases e,
{
    match e {
        Expression::Var(_) => true,
        Expression::Not(x) => *x is Var,
        Expression::And(a, b) => is_term(*a) && is_term(*b),
        _ => false,
    }
}

/// Disjunctive normal shape: a disjunction tree of terms.
pub open spec fn is_dnf_shape<P>(e: Expression<P>) -> bool
    decreases e,
{
    match e {
        Expression::Or(a, b) => is_dnf_shape(*a) && is_dnf_shape(*b),
        _ => is_term(e),
    }
}

/// Biconditional elimination introduces no constants.
proof fn lemma_step_2_preserves<P>(e: Expression<P>)
    ensures
        tb_count(e) == 0 ==> tb_count(step_2_spec(e)) == 0,
    decreases e,
{
    reveal_with_fuel(tb_count, 4);
    match e {
        Expression::Not(a) => lemma_step_2_preserves(*a),
        Expression::And(a, b) => {
            lemma_step_2_preserves(*a);
            lemma_step_2_preserves(*b);
        },
        Expression::Or(a, b) => {
            lemma_step_2_preserves(*a);
            lemma_step_2_preserves(*b);
        },
        Expression::Implies(a, b) => {
            lemma_step_2_preserves(*a);
            lemma_step_2_preserves(*b);
        },
        Expression::Iff(a, b) => {},
        _ => {},
    }
}

/// Implication elimination introduces no constants and no biconditionals.
proof fn lemma_step_3_preserves<P>(e: Expression<P>)
    ensures
        tb_count(e) == 0 ==> tb_count(step_3_spec(e)) == 0,
        iff_weight(e) == 0 ==> iff_weight(step_3_spec(e)) == 0,
    decreases e,
{
    reveal_with_fuel(tb_count, 4);
    reveal_with_fuel(iff_weight, 4);
    match e {
        Expression::Not(a) => lemma_step_3_preserves(*a),
        Expression::And(a, b) => {
            lemma_step_3_preserves(*a);
            lemma_step_3_preserves(*b);
        },
        Expression::Or(a, b) => {
            lemma_step_3_preserves(*a);
            lemma_step_3_preserves(*b);
        },
        Expression::Implies(a, b) => {
            lemma_step_3_preserves(*a);
            lemma_step_3_preserves(*b);
        },
        _ => {},
    }
}

/// The negation push introduces no constants, biconditionals or
/// implications.
proof fn lemma_step_4_preserves<P>(e: Expression<P>)
    ensures
        tb_count(e) == 0 ==> tb_count(step_4_spec(e)) == 0,
        iff_weight(e) == 0 ==> iff_weight(step_4_spec(e)) == 0,
        implies_weight(e) == 0 ==> implies_weight(step_4_spec(e)) == 0,
    decreases e,
{
    reveal_with_fuel(tb_count, 4);
    reveal_with_fuel(iff_weight, 4);
    reveal_with_fuel(implies_weight, 4);
    match e {
        Expression::Not(_) => {},
        Expression::And(a, b) => {
            lemma_step_4_preserves(*a);
            lemma_step_4_preserves(*b);
        },
        Expression::Or(a, b) => {
            lemma_step_4_preserves(*a);
            lemma_step_4_preserves(*b);
        },
        _ => {},
    }
}

/// Double-negation elimination introduces no constants, biconditionals or
/// implications.
proof fn lemma_step_5_preserves<P>(e: Expression<P>)
    ensures
        tb_count(e) == 0 ==> tb_count(step_5_spec(e)) == 0,
        iff_weight(e) == 0 ==> iff_weight(step_5_spec(e)) == 0,
        implies_weight(e) == 0 ==> implies_weight(step_5_spec(e)) == 0,
    decreases e,
{
    reveal_with_fuel(tb_count, 4);
    reveal_with_fuel(iff_weight, 4);
    reveal_with_fuel(implies_weight, 4);
    match e {
        Expression::Not(_) => {},
        Expression::And(a, b) => {
            lemma_step_5_preserves(*a);
            lemma_step_5_preserves(*b);
        },
        Expression::Or(a, b) => {
            lemma_step_5_preserves(*a);
            lemma_step_5_preserves(*b);
        },
        _ => {},
    }
}

/// The conjunctive distribution introduces no constants, biconditionals
/// or implications.
proof fn lemma_cnf_preserves<P>(e: Expression<P>)
    ensures
        tb_count(e) == 0 ==> tb_count(cnf_spec(e)) == 0,
        iff_weight(e) == 0 ==> iff_weight(cnf_spec(e)) == 0,
        implies_weight(e) == 0 ==> implies_weight(cnf_spec(e)) == 0,
    decreases e,
{
    reveal_with_fuel(tb_count, 4);
    reveal_with_fuel(iff_weight, 4);
    reveal_with_fuel(implies_weight, 4);
    match e {
        Expression::Not(a) => lemma_cnf_preserves(*a),
        Expression::And(a, b) => {
            lemma_cnf_preserves(*a);
            lemma_cnf_preserves(*b);
        },
        Expression::Or(a, b) => {
            lemma_cnf_preserves(*a);
            lemma_cnf_preserves(*b);
        },
        _ => {},
    }
}

/// The disjunctive distribution introduces no constants, biconditionals
/// or implications.
proof fn lemma_dnf_preserves<P>(e: Expression<P>)
    ensures
        tb_count(e) == 0 ==> tb_count(dnf_spec(e)) == 0,
        iff_weight(e) == 0 ==> iff_weight(dnf_spec(e)) == 0,
        implies_weight(e) == 0 ==> implies_weight(dnf_spec(e)) == 0,
    decreases e,
{
    reveal_with_fuel(tb_count, 4);
    reveal_with_fuel(iff_weight, 4);
    reveal_with_fuel(implies_weight, 4);
    match e {
        Expression::Not(a) => lemma_dnf_preserves(*a),
        Expression::And(a, b) => {
            lemma_dnf_preserves(*a);
            lemma_dnf_preserves(*b);
        },
        Expression::Or(a, b) => {
            lemma_dnf_preserves(*a);
            lemma_dnf_preserves(*b);
        },
        _ => {},
    }
}

/// After constant elimination has run to its fixed point, no `Top` or
/// `Bottom` is left.
proof fn lemma_fix_step_1_result<P: Atom>(e: Expression<P>)
    ensures
        tb_count(fix_step_1(e)) == 0,
    decreases tb_count(e),
{
    if step_1_spec(e) == e {
        lemma_step_1_fixed_point(e);
    } else {
        lemma_step_1_eliminates(e);
        lemma_step_1_fixed_point(e);
        lemma_fix_step_1_result(step_1_spec(e));
    }
}

/// After biconditional elimination has run to its fixed point, no `Iff`
/// is left, and no constant has been introduced.
proof fn lemma_fix_step_2_result<P>(e: Expression<P>)
    ensures
        iff_weight(fix_step_2(e)) == 0,
        tb_count(e) == 0 ==> tb_count(fix_step_2(e)) == 0,
    decreases iff_weight(e),
{
    if step_2_spec(e) == e {
        lemma_step_2_measure(e);
    } else {
        lemma_step_2_measure(e);
        lemma_step_2_preserves(e);
        lemma_fix_step_2_result(step_2_spec(e));
    }
}

/// After implication elimination has run to its fixed point, no
/// `Implies` outside an `Iff` is left, and neither constants nor
/// biconditionals have been introduced.
proof fn lemma_fix_step_3_result<P>(e: Expression<P>)
    ensures
        implies_weight(fix_step_3(e)) == 0,
        tb_count(e) == 0 ==> tb_count(fix_step_3(e)) == 0,
        iff_weight(e) == 0 ==> iff_weight(fix_step_3(e)) == 0,
    decreases implies_weight(e),
{
    if step_3_spec(e) == e {
        lemma_step_3_measure(e);
    } else {
        lemma_step_3_measure(e);
        lemma_step_3_preserves(e);
        lemma_fix_step_3_result(step_3_spec(e));
    }
}

/// The negation push, run to its fixed point, introduces no constants,
/// biconditionals or implications.
proof fn lemma_fix_step_4_result<P>(e: Expression<P>)
    ensures
        tb_count(e) == 0 ==> tb_count(fix_step_4(e)) == 0,
        iff_weight(e) == 0 ==> iff_weight(fix_step_4(e)) == 0,
        implies_weight(e) == 0 ==> implies_weight(fix_step_4(e)) == 0,
    decreases demorgan_weight(e),
{
    if step_4_spec(e) != e {
        lemma_step_4_measure(e);
        lemma_step_4_preserves(e);
        lemma_fix_step_4_result(step_4_spec(e));
    }
}

/// Double-negation elimination, run to its fixed point, introduces no
/// constants, biconditionals or implications.
proof fn lemma_fix_step_5_result<P>(e: Expression<P>)
    ensures
        tb_count(e) == 0 ==> tb_count(fix_step_5(e)) == 0,
        iff_weight(e) == 0 ==> iff_weight(fix_step_5(e)) == 0,
        implies_weight(e) == 0 ==> implies_weight(fix_step_5(e)) == 0,
    decreases not_count(e),
{
    if step_5_spec(e) != e {
        lemma_step_5_measure(e);
        lemma_step_5_preserves(e);
        lemma_fix_step_5_result(step_5_spec(e));
    }
}

/// The conjunctive distribution, run to its fixed point, lands on a tree
/// the distribution no longer changes, and introduces no constants,
/// biconditionals or implications.
proof fn lemma_fix_cnf_result<P>(e: Expression<P>)
    ensures
        cnf_spec(fix_cnf(e)) == fix_cnf(e),
        tb_count(e) == 0 ==> tb_count(fix_cnf(e)) == 0,
        iff_weight(e) == 0 ==> iff_weight(fix_cnf(e)) == 0,
        implies_weight(e) == 0 ==> implies_weight(fix_cnf(e)) == 0,
    decreases crate::measures::cnf_weight(e),
{
    if cnf_spec(e) != e {
        lemma_cnf_measure(e);
        lemma_cnf_preserves(e);
        lemma_fix_cnf_result(cnf_spec(e));
    }
}

/// The disjunctive distribution, run to its fixed point, lands on a tree
/// the distribution no longer changes, and introduces no constants,
/// biconditionals or implications.
proof fn lemma_fix_dnf_result<P>(e: Expression<P>)
    ensures
        dnf_spec(fix_dnf(e)) == fix_dnf(e),
        tb_count(e) == 0 ==> tb_count(fix_dnf(e)) == 0,
        iff_weight(e) == 0 ==> iff_weight(fix_dnf(e)) == 0,
        implies_weight(e) == 0 ==> implies_weight(fix_dnf(e)) == 0,
    decreases crate::measures::dnf_weight(e),
{
    if dnf_spec(e) != e {
        lemma_dnf_measure(e);
        lemma_dnf_preserves(e);
        lemma_fix_dnf_result(dnf_spec(e));
    }
}

/// A tree whose negations all apply to variables is a fixed point of the
/// negation push.
proof fn lemma_step_4_literals<P>(e: Expression<P>)
    ensures
        literals_only(e) ==> step_4_spec(e) == e,
    decreases e,
{
    match e {
        Expression::And(a, b) => {
            lemma_step_4_literals(*a);
            lemma_step_4_literals(*b);
        },
        Expression::Or(a, b) => {
            lemma_step_4_literals(*a);
            lemma_step_4_literals(*b);
        },
        _ => {},
    }
}

/// A tree whose negations all apply to variables is a fixed point of
/// double-negation elimination.
proof fn lemma_step_5_literals<P>(e: Expression<P>)
    ensures
        literals_only(e) ==> step_5_spec(e) == e,
    decreases e,
{
    match e {
        Expression::And(a, b) => {
            lemma_step_5_literals(*a);
            lemma_step_5_literals(*b);
        },
        Expression::Or(a, b) => {
            lemma_step_5_literals(*a);
            lemma_step_5_literals(*b);
        },
        _ => {},
    }
}

/// The conjunctive pipeline leaves no constant, no biconditional and no
/// implication in its result, on every input, and the conjunctive
/// distribution no longer changes that result.
pub proof fn lemma_to_cnf_eliminates<P: Atom>(e: Expression<P>)
    ensures
        tb_count(to_cnf_spec(e)) == 0,
        iff_weight(to_cnf_spec(e)) == 0,
        implies_weight(to_cnf_spec(e)) == 0,
        cnf_spec(to_cnf_spec(e)) == to_cnf_spec(e),
{
    let f1 = fix_step_1(e);
    let f2 = fix_step_2(f1);
    let f3 = fix_step_3(f2);
    let f4 = fix_step_4(f3);
    let f5 = fix_step_5(f4);
    lemma_fix_step_1_result(e);
    lemma_fix_step_2_result(f1);
    lemma_fix_step_3_result(f2);
    lemma_fix_step_4_result(f3);
    lemma_fix_step_5_result(f4);
    lemma_fix_cnf_result(f5);
}

/// The disjunctive pipeline leaves no constant, no biconditional and no
/// implication in its result, on every input, and the disjunctive
/// distribution no longer changes that result.
pub proof fn lemma_to_dnf_eliminates<P: Atom>(e: Expression<P>)
    ensures
        tb_count(to_dnf_spec(e)) == 0,
        iff_weight(to_dnf_spec(e)) == 0,
        implies_weight(to_dnf_spec(e)) == 0,
        dnf_spec(to_dnf_spec(e)) == to_dnf_spec(e),
{
    let f1 = fix_step_1(e);
    let f2 = fix_step_2(f1);
    let f3 = fix_step_3(f2);
    let f4 = fix_step_4(f3);
    let f5 = fix_step_5(f4);
    lemma_fix_step_1_result(e);
    lemma_fix_step_2_result(f1);
    lemma_fix_step_3_result(f2);
    lemma_fix_step_4_result(f3);
    lemma_fix_step_5_result(f4);
    lemma_fix_dnf_result(f5);
}

/// A tree of literals that no pass of the pipeline changes is left
/// untouched by the whole pipeline.
proof fn lemma_pipeline_fixed<P: Atom>(r: Expression<P>)
    requires
        tb_count(r) == 0,
        iff_weight(r) == 0,
        implies_weight(r) == 0,
        literals_only(r),
    ensures
        shared_passes_spec(r) == r,
{
    lemma_step_1_fixed_point(r);
    lemma_step_2_measure(r);
    lemma_step_3_measure(r);
    lemma_step_4_literals(r);
    lemma_step_5_literals(r);
}

/// The conjunctive normal form is idempotent: transforming a second time
/// changes nothing, whenever the first transformation lands on a tree
/// whose negations all apply directly to variables. (A negation that
/// still covers a connective can survive the pipeline, buried under
/// another negation where the push no longer looks, and the second run
/// then digs it out.)
pub proof fn lemma_to_cnf_idempotent<P: Atom>(e: Expression<P>)
    requires
        literals_only(to_cnf_spec(e)),
    ensures
        to_cnf_spec(to_cnf_spec(e)) == to_cnf_spec(e),
{
    let r = to_cnf_spec(e);
    lemma_to_cnf_eliminates(e);
    lemma_pipeline_fixed(r);
}

/// The disjunctive normal form is idempotent under the same proviso as
/// the conjunctive one.
pub proof fn lemma_to_dnf_idempotent<P: Atom>(e: Expression<P>)
    requires
        literals_only(to_dnf_spec(e)),
    ensures
        to_dnf_spec(to_dnf_spec(e)) == to_dnf_spec(e),
{
    let r = to_dnf_spec(e);
    lemma_to_dnf_eliminates(e);
    lemma_pipeline_fixed(r);
}

/// A tree of literals without constants, biconditionals or implications
/// that the conjunctive distribution no longer changes is in conjunctive
/// normal shape.
proof fn lemma_cnf_fixed_shape<P>(e: Expression<P>)
    requires
        tb_count(e) == 0,
        iff_weight(e) == 0,
        implies_weight(e) == 0,
        literals_only(e),
        cnf_spec(e) == e,
    ensures
        is_cnf_shape(e),
    decreases e,
{
    match e {
        Expression::And(a, b) => {
            lemma_cnf_fixed_shape(*a);
            lemma_cnf_fixed_shape(*b);
        },
        Expression::Or(a, b) => {
            match *a {
                Expression::And(_, _) => {},
                _ => {
                    match *b {
                        Expression::And(_, _) => {},
                        _ => {
                            lemma_cnf_fixed_shape(*a);
                            lemma_cnf_fixed_shape(*b);
                        },
                    }
                },
            }
        },
        _ => {},
    }
}

/// The mirror image: a tree the disjunctive distribution no longer
/// changes is in disjunctive normal shape.
proof fn lemma_dnf_fixed_shape<P>(e: Expression<P>)
    requires
        tb_count(e) == 0,
        iff_weight(e) == 0,
        implies_weight(e) == 0,
        literals_only(e),
        dnf_spec(e) == e,
    ensures
        is_dnf_shape(e),
    decreases e,
{
    match e {
        Expression::Or(a, b) => {
            lemma_dnf_fixed_shape(*a);
            lemma_dnf_fixed_shape(*b);
        },
        Expression::And(a, b) => {
            match *a {
                Expression::Or(_, _) => {},
                _ => {
                    match *b {
                        Expression::Or(_, _) => {},
                        _ => {
                            lemma_dnf_fixed_shape(*a);
                            lemma_dnf_fixed_shape(*b);
                        },
                    }
                },
            }
        },
        _ => {},
    }
}

/// The shape postcondition of the conjunctive transformation: whenever
/// the pipeline lands on a tree whose negations all apply directly to
/// variables, that tree is a conjunction of disjunctions of literals,
/// with no `Or` left over an `And`.
pub proof fn lemma_to_cnf_shape<P: Atom>(e: Expression<P>)
    requires
        literals_only(to_cnf_spec(e)),
    ensures
        is_cnf_shape(to_cnf_spec(e)),
{
    lemma_to_cnf_eliminates(e);
    lemma_cnf_fixed_shape(to_cnf_spec(e));
}

/// The shape postcondition of the disjunctive transformation: a
/// disjunction of conjunctions of literals, with no `And` left over an
/// `Or`.
pub proof fn lemma_to_dnf_shape<P: Atom>(e: Expression<P>)
    requires
        literals_only(to_dnf_spec(e)),
    ensures
        is_dnf_shape(to_dnf_spec(e)),
{
    lemma_to_dnf_eliminates(e);
    lemma_dnf_fixed_shape(to_dnf_spec(e));
}

} // verus!
