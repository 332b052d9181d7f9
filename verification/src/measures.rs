use vstd::prelude::*;

use crate::atom::Atom;
use crate::expr::Expression;
use crate::rules::cnf_spec;
use crate::rules::dnf_spec;
use crate::rules::step_1_spec;
use crate::rules::step_2_spec;
use crate::rules::step_3_spec;
use crate::rules::step_4_spec;
use crate::rules::step_5_spec;

verus! {

/// The number of `Top` and `Bottom` leaves: the termination measure of
/// constant elimination.
pub open spec fn tb_count<P>(e: Expression<P>) -> nat
    decreases e,
{
    match e {
        Expression::Top => 1,
        Expression::Bottom => 1,
        Expression::Not(a) => tb_count(*a),
        Expression::And(a, b) => tb_count(*a) + tb_count(*b),
        Expression::Or(a, b) => tb_count(*a) + tb_count(*b),
        Expression::Implies(a, b) => tb_count(*a) + tb_count(*b),
        Expression::Iff(a, b) => tb_count(*a) + tb_count(*b),
        Expression::Var(_) => 0,
    }
}

/// The termination measure of biconditional elimination. An `Iff` weighs
/// more than twice its children together, because expanding it copies
/// both children into the two implications.
pub open spec fn iff_weight<P>(e: Expression<P>) -> nat
    decreases e,
{
    match e {
        Expression::Not(a) => iff_weight(*a),
        Expression::And(a, b) => iff_weight(*a) + iff_weight(*b),
        Expression::Or(a, b) => iff_weight(*a) + iff_weight(*b),
        Expression::Implies(a, b) => iff_weight(*a) + iff_weight(*b),
        Expression::Iff(a, b) => 2 * (iff_weight(*a) + iff_weight(*b)) + 1,
        _ => 0,
    }
}

/// The termination measure of implication elimination: the number of
/// `Implies` nodes outside any `Iff` (the rule never looks below an
/// `Iff`, which the pipeline has already removed).
pub open spec fn implies_weight<P>(e: Expression<P>) -> nat
    decreases e,
{
    match e {
        Expression::Not(a) => implies_weight(*a),
        Expression::And(a, b) => implies_weight(*a) + implies_weight(*b),
        Expression::Or(a, b) => implies_weight(*a) + implies_weight(*b),
        Expression::Implies(a, b) => implies_weight(*a) + implies_weight(*b) + 1,
        _ => 0,
    }
}

/// The number of `And` and `Or` nodes anywhere in the tree.
pub open spec fn connective_count<P>(e: Expression<P>) -> nat
    decreases e,
{
    match e {
        Expression::Not(a) => connective_count(*a),
        Expression::And(a, b) => connective_count(*a) + connective_count(*b) + 1,
        Expression::Or(a, b) => connective_count(*a) + connective_count(*b) + 1,
        Expression::Implies(a, b) => connective_count(*a) + connective_count(*b),
        Expression::Iff(a, b) => connective_count(*a) + connective_count(*b),
        _ => 0,
    }
}

/// The termination measure of the negation push: each negation in the
/// `And`/`Or` spine weighs the connectives still below it.
pub open spec fn demorgan_weight<P>(e: Expression<P>) -> nat
    decreases e,
{
    match e {
        Expression::Not(a) => connective_count(*a),
        Expression::And(a, b) => demorgan_weight(*a) + demorgan_weight(*b),
        Expression::Or(a, b) => demorgan_weight(*a) + demorgan_weight(*b),
        _ => 0,
    }
}

/// The number of `Not` nodes: the termination measure of double-negation
/// elimination.
pub open spec fn not_count<P>(e: Expression<P>) -> nat
    decreases e,
{
    match e {
        Expression::Not(a) => not_count(*a) + 1,
        Expression::And(a, b) => not_count(*a) + not_count(*b),
        Expression::Or(a, b) => not_count(*a) + not_count(*b),
        Expression::Implies(a, b) => not_count(*a) + not_count(*b),
        Expression::Iff(a, b) => not_count(*a) + not_count(*b),
        _ => 0,
    }
}

/// The termination measure of the conjunctive distribution: disjunctions
/// multiply, everything else adds, and every tree weighs at least 2, so
/// distributing an `And` out of an `Or` strictly shrinks the product.
pub open spec fn cnf_weight<P>(e: Expression<P>) -> nat
    decreases e,
{
    match e {
        Expression::Not(a) => cnf_weight(*a),
        Expression::And(a, b) => cnf_weight(*a) + cnf_weight(*b) + 1,
        Expression::Or(a, b) => cnf_weight(*a) * cnf_weight(*b),
        Expression::Implies(a, b) => cnf_weight(*a) + cnf_weight(*b) + 1,
        Expression::Iff(a, b) => cnf_weight(*a) + cnf_weight(*b) + 1,
        _ => 2,
    }
}

/// The termination measure of the disjunctive distribution: the mirror
/// image of `cnf_weight`, with conjunctions multiplying.
pub open spec fn dnf_weight<P>(e: Expression<P>) -> nat
    decreases e,
{
    match e {
        Expression::Not(a) => dnf_weight(*a),
        Expression::Or(a, b) => dnf_weight(*a) + dnf_weight(*b) + 1,
        Expression::And(a, b) => dnf_weight(*a) * dnf_weight(*b),
        Expression::Implies(a, b) => dnf_weight(*a) + dnf_weight(*b) + 1,
        Expression::Iff(a, b) => dnf_weight(*a) + dnf_weight(*b) + 1,
        _ => 2,
    }
}

/// Constant elimination removes every `Top` and `Bottom` in one pass.
pub proof fn lemma_step_1_eliminates<P: Atom>(e: Expression<P>)
    ensures
        tb_count(step_1_spec(e)) == 0,
    decreases e,
{
    reveal_with_fuel(tb_count, 4);
    match e {
        Expression::Not(a) => lemma_step_1_eliminates(*a),
        Expression::And(a, b) => {
            lemma_step_1_eliminates(*a);
            lemma_step_1_eliminates(*b);
        },
        Expression::Or(a, b) => {
            lemma_step_1_eliminates(*a);
            lemma_step_1_eliminates(*b);
        },
        Expression::Implies(a, b) => {
            lemma_step_1_eliminates(*a);
            lemma_step_1_eliminates(*b);
        },
        Expression::Iff(a, b) => {
            lemma_step_1_eliminates(*a);
            lemma_step_1_eliminates(*b);
        },
        _ => {},
    }
}

/// Constant elimination reaches a fixed point exactly on the trees that
/// hold no `Top` or `Bottom`.
pub proof fn lemma_step_1_fixed_point<P: Atom>(e: Expression<P>)
    ensures
        (step_1_spec(e) == e) == (tb_count(e) == 0),
    decreases e,
{
    match e {
        Expression::Not(a) => lemma_step_1_fixed_point(*a),
        Expression::And(a, b) => {
            lemma_step_1_fixed_point(*a);
            lemma_step_1_fixed_point(*b);
        },
        Expression::Or(a, b) => {
            lemma_step_1_fixed_point(*a);
            lemma_step_1_fixed_point(*b);
        },
        Expression::Implies(a, b) => {
            lemma_step_1_fixed_point(*a);
            lemma_step_1_fixed_point(*b);
        },
        Expression::Iff(a, b) => {
            lemma_step_1_fixed_point(*a);
            lemma_step_1_fixed_point(*b);
        },
        _ => {},
    }
}

/// Biconditional elimination never raises its measure, lowers it strictly
/// whenever it changes the tree, and reaches a fixed point exactly on the
/// trees that hold no `Iff`.
pub proof fn lemma_step_2_measure<P>(e: Expression<P>)
    ensures
        iff_weight(step_2_spec(e)) <= iff_weight(e),
        (step_2_spec(e) == e) == (iff_weight(e) == 0),
        step_2_spec(e) != e ==> iff_weight(step_2_spec(e)) < iff_weight(e),
    decreases e,
{
    reveal_with_fuel(iff_weight, 4);
    match e {
        Expression::Not(a) => lemma_step_2_measure(*a),
        Expression::And(a, b) => {
            lemma_step_2_measure(*a);
            lemma_step_2_measure(*b);
        },
        Expression::Or(a, b) => {
            lemma_step_2_measure(*a);
            lemma_step_2_measure(*b);
        },
        Expression::Implies(a, b) => {
            lemma_step_2_measure(*a);
            lemma_step_2_measure(*b);
        },
        Expression::Iff(a, b) => {},
        _ => {},
    }
}

/// Implication elimination never raises its measure, lowers it strictly
/// whenever it changes the tree, and reaches a fixed point exactly on the
/// trees that hold no `Implies` outside an `Iff`.
pub proof fn lemma_step_3_measure<P>(e: Expression<P>)
    ensures
        implies_weight(step_3_spec(e)) <= implies_weight(e),
        (step_3_spec(e) == e) == (implies_weight(e) == 0),
        step_3_spec(e) != e ==> implies_weight(step_3_spec(e)) < implies_weight(e),
    decreases e,
{
    reveal_with_fuel(implies_weight, 4);
    match e {
        Expression::Not(a) => lemma_step_3_measure(*a),
        Expression::And(a, b) => {
            lemma_step_3_measure(*a);
            lemma_step_3_measure(*b);
        },
        Expression::Or(a, b) => {
            lemma_step_3_measure(*a);
            lemma_step_3_measure(*b);
        },
        Expression::Implies(a, b) => {
            lemma_step_3_measure(*a);
            lemma_step_3_measure(*b);
        },
        _ => {},
    }
}

/// The negation push never raises its measure and lowers it strictly
/// whenever it changes the tree.
pub proof fn lemma_step_4_measure<P>(e: Expression<P>)
    ensures
        demorgan_weight(step_4_spec(e)) <= demorgan_weight(e),
        step_4_spec(e) != e ==> demorgan_weight(step_4_spec(e)) < demorgan_weight(e),
    decreases e,
{
    reveal_with_fuel(demorgan_weight, 3);
    reveal_with_fuel(connective_count, 3);
    match e {
        Expression::Not(_) => {},
        Expression::And(a, b) => {
            lemma_step_4_measure(*a);
            lemma_step_4_measure(*b);
        },
        Expression::Or(a, b) => {
            lemma_step_4_measure(*a);
            lemma_step_4_measure(*b);
        },
        _ => {},
    }
}

/// Double-negation elimination never raises its measure and lowers it
/// strictly whenever it changes the tree.
pub proof fn lemma_step_5_measure<P>(e: Expression<P>)
    ensures
        not_count(step_5_spec(e)) <= not_count(e),
        step_5_spec(e) != e ==> not_count(step_5_spec(e)) < not_count(e),
    decreases e,
{
    reveal_with_fuel(not_count, 3);
    match e {
        Expression::Not(_) => {},
        Expression::And(a, b) => {
            lemma_step_5_measure(*a);
            lemma_step_5_measure(*b);
        },
        Expression::Or(a, b) => {
            lemma_step_5_measure(*a);
            lemma_step_5_measure(*b);
        },
        _ => {},
    }
}

/// Every tree weighs at least 2 under the conjunctive measure.
pub proof fn lemma_cnf_weight_pos<P>(e: Expression<P>)
    ensures
        cnf_weight(e) >= 2,
    decreases e,
{
    reveal_with_fuel(cnf_weight, 3);
    match e {
        Expression::Not(a) => lemma_cnf_weight_pos(*a),
        Expression::And(a, b) => {
            lemma_cnf_weight_pos(*a);
            lemma_cnf_weight_pos(*b);
        },
        Expression::Implies(a, b) => {
            lemma_cnf_weight_pos(*a);
            lemma_cnf_weight_pos(*b);
        },
        Expression::Iff(a, b) => {
            lemma_cnf_weight_pos(*a);
            lemma_cnf_weight_pos(*b);
        },
        Expression::Or(a, b) => {
            lemma_cnf_weight_pos(*a);
            lemma_cnf_weight_pos(*b);
            assert(cnf_weight(*a) * cnf_weight(*b) >= 2) by (nonlinear_arith)
                requires
                    cnf_weight(*a) >= 2,
                    cnf_weight(*b) >= 2,
            ;
        },
        _ => {},
    }
}

/// The conjunctive distribution never raises its measure and lowers it
/// strictly whenever it changes the tree.
pub proof fn lemma_cnf_measure<P>(e: Expression<P>)
    ensures
        cnf_weight(cnf_spec(e)) <= cnf_weight(e),
        cnf_spec(e) != e ==> cnf_weight(cnf_spec(e)) < cnf_weight(e),
    decreases e,
{
    reveal_with_fuel(cnf_weight, 4);
    match e {
        Expression::Not(a) => lemma_cnf_measure(*a),
        Expression::And(a, b) => {
            lemma_cnf_measure(*a);
            lemma_cnf_measure(*b);
        },
        Expression::Or(a, b) => {
            match *a {
                Expression::And(a1, a2) => {
                    lemma_cnf_weight_pos(*a1);
                    lemma_cnf_weight_pos(*a2);
                    lemma_cnf_weight_pos(*b);
                    assert((cnf_weight(*a1) * cnf_weight(*b)) + (cnf_weight(*a2) * cnf_weight(*b))
                        + 1 < (cnf_weight(*a1) + cnf_weight(*a2) + 1) * cnf_weight(*b))
                        by (nonlinear_arith)
                        requires
                            cnf_weight(*a1) >= 2,
                            cnf_weight(*a2) >= 2,
                            cnf_weight(*b) >= 2,
                    ;
                },
                _ => {
                    match *b {
                        Expression::And(b1, b2) => {
                            lemma_cnf_weight_pos(*a);
                            lemma_cnf_weight_pos(*b1);
                            lemma_cnf_weight_pos(*b2);
                            assert((cnf_weight(*a) * cnf_weight(*b2)) + (cnf_weight(*a)
                                * cnf_weight(*b1)) + 1 < cnf_weight(*a) * (cnf_weight(*b1)
                                + cnf_weight(*b2) + 1)) by (nonlinear_arith)
                                requires
                                    cnf_weight(*a) >= 2,
                                    cnf_weight(*b1) >= 2,
                                    cnf_weight(*b2) >= 2,
                            ;
                        },
                        _ => {
                            lemma_cnf_measure(*a);
                            lemma_cnf_measure(*b);
                            lemma_cnf_weight_pos(cnf_spec(*a));
                            lemma_cnf_weight_pos(cnf_spec(*b));
                            assert(cnf_weight(cnf_spec(*a)) * cnf_weight(cnf_spec(*b))
                                <= cnf_weight(*a) * cnf_weight(*b)) by (nonlinear_arith)
                                requires
                                    cnf_weight(cnf_spec(*a)) <= cnf_weight(*a),
                                    cnf_weight(cnf_spec(*b)) <= cnf_weight(*b),
                                    cnf_weight(cnf_spec(*a)) >= 2,
                                    cnf_weight(cnf_spec(*b)) >= 2,
                            ;
                            if cnf_spec(*a) != *a || cnf_spec(*b) != *b {
                                assert(cnf_weight(cnf_spec(*a)) * cnf_weight(cnf_spec(*b))
                                    < cnf_weight(*a) * cnf_weight(*b)) by (nonlinear_arith)
                                    requires
                                        cnf_weight(cnf_spec(*a)) <= cnf_weight(*a),
                                        cnf_weight(cnf_spec(*b)) <= cnf_weight(*b),
                                        cnf_weight(cnf_spec(*a)) >= 2,
                                        cnf_weight(cnf_spec(*b)) >= 2,
                                        cnf_weight(cnf_spec(*a)) < cnf_weight(*a) || cnf_weight(
                                            cnf_spec(*b),
                                        ) < cnf_weight(*b),
                                ;
                            }
                        },
                    }
                },
            }
        },
        _ => {},
    }
}

/// Every tree weighs at least 2 under the disjunctive measure.
pub proof fn lemma_dnf_weight_pos<P>(e: Expression<P>)
    ensures
        dnf_weight(e) >= 2,
    decreases e,
{
    reveal_with_fuel(dnf_weight, 3);
    match e {
        Expression::Not(a) => lemma_dnf_weight_pos(*a),
        Expression::Or(a, b) => {
            lemma_dnf_weight_pos(*a);
            lemma_dnf_weight_pos(*b);
        },
        Expression::Implies(a, b) => {
            lemma_dnf_weight_pos(*a);
            lemma_dnf_weight_pos(*b);
        },
        Expression::Iff(a, b) => {
            lemma_dnf_weight_pos(*a);
            lemma_dnf_weight_pos(*b);
        },
        Expression::And(a, b) => {
            lemma_dnf_weight_pos(*a);
            lemma_dnf_weight_pos(*b);
            assert(dnf_weight(*a) * dnf_weight(*b) >= 2) by (nonlinear_arith)
                requires
                    dnf_weight(*a) >= 2,
                    dnf_weight(*b) >= 2,
            ;
        },
        _ => {},
    }
}

/// The disjunctive distribution never raises its measure and lowers it
/// strictly whenever it changes the tree.
pub proof fn lemma_dnf_measure<P>(e: Expression<P>)
    ensures
        dnf_weight(dnf_spec(e)) <= dnf_weight(e),
        dnf_spec(e) != e ==> dnf_weight(dnf_spec(e)) < dnf_weight(e),
    decreases e,
{
    reveal_with_fuel(dnf_weight, 4);
    match e {
        Expression::Not(a) => lemma_dnf_measure(*a),
        Expression::Or(a, b) => {
            lemma_dnf_measure(*a);
            lemma_dnf_measure(*b);
        },
        Expression::And(a, b) => {
            match *a {
                Expression::Or(a1, a2) => {
                    lemma_dnf_weight_pos(*a1);
                    lemma_dnf_weight_pos(*a2);
                    lemma_dnf_weight_pos(*b);
                    assert((dnf_weight(*a1) * dnf_weight(*b)) + (dnf_weight(*a2) * dnf_weight(*b))
                        + 1 < (dnf_weight(*a1) + dnf_weight(*a2) + 1) * dnf_weight(*b))
                        by (nonlinear_arith)
                        requires
                            dnf_weight(*a1) >= 2,
                            dnf_weight(*a2) >= 2,
                            dnf_weight(*b) >= 2,
                    ;
                },
                _ => {
                    match *b {
                        Expression::Or(b1, b2) => {
                            lemma_dnf_weight_pos(*a);
                            lemma_dnf_weight_pos(*b1);
                            lemma_dnf_weight_pos(*b2);
                            assert((dnf_weight(*a) * dnf_weight(*b2)) + (dnf_weight(*a)
                                * dnf_weight(*b1)) + 1 < dnf_weight(*a) * (dnf_weight(*b1)
                                + dnf_weight(*b2) + 1)) by (nonlinear_arith)
                                requires
                                    dnf_weight(*a) >= 2,
                                    dnf_weight(*b1) >= 2,
                                    dnf_weight(*b2) >= 2,
                            ;
                        },
                        _ => {
                            lemma_dnf_measure(*a);
                            lemma_dnf_measure(*b);
                            lemma_dnf_weight_pos(dnf_spec(*a));
                            lemma_dnf_weight_pos(dnf_spec(*b));
                            assert(dnf_weight(dnf_spec(*a)) * dnf_weight(dnf_spec(*b))
                                <= dnf_weight(*a) * dnf_weight(*b)) by (nonlinear_arith)
                                requires
                                    dnf_weight(dnf_spec(*a)) <= dnf_weight(*a),
                                    dnf_weight(dnf_spec(*b)) <= dnf_weight(*b),
                                    dnf_weight(dnf_spec(*a)) >= 2,
                                    dnf_weight(dnf_spec(*b)) >= 2,
                            ;
                            if dnf_spec(*a) != *a || dnf_spec(*b) != *b {
                                assert(dnf_weight(dnf_spec(*a)) * dnf_weight(dnf_spec(*b))
                                    < dnf_weight(*a) * dnf_weight(*b)) by (nonlinear_arith)
                                    requires
                                        dnf_weight(dnf_spec(*a)) <= dnf_weight(*a),
                                        dnf_weight(dnf_spec(*b)) <= dnf_weight(*b),
                                        dnf_weight(dnf_spec(*a)) >= 2,
                                        dnf_weight(dnf_spec(*b)) >= 2,
                                        dnf_weight(dnf_spec(*a)) < dnf_weight(*a) || dnf_weight(
                                            dnf_spec(*b),
                                        ) < dnf_weight(*b),
                                ;
                            }
                        },
                    }
                },
            }
        },
        _ => {},
    }
}

} // verus!
