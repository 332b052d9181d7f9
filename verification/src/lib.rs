//! A propositional-logic expression engine.
//!
//! Formulas are trees over a generic atom type. The library rewrites an
//! arbitrary formula into conjunctive or disjunctive normal form through a
//! sequence of terminating term-rewriting passes, each run to a fixed point.

use vstd::prelude::*;

mod atom;
mod driver;
mod expr;
mod laws;
mod measures;
mod rules;

pub use atom::Atom;
pub use expr::Expression;
pub use expr::IntoExpression;

verus! {

/// Sums two counts.
pub fn add(left: usize, right: usize) -> (r: usize)
    requires
        left + right <= usize::MAX,
    ensures
        r == left + right,
{
    left + right
}

/// Builds an atomic proposition.
pub fn var<P>(v: P) -> (r: Box<Expression<P>>)
    ensures
        *r == Expression::Var(v),
{
    Box::new(Expression::Var(v))
}

/// Builds a negation.
pub fn not<P, E: IntoExpression<P>>(exp: E) -> (r: Box<Expression<P>>)
    ensures
        *r == Expression::Not(Box::new(exp.to_expression_spec())),
{
    Box::new(Expression::Not(exp.into()))
}

/// Builds a conjunction.
pub fn and<P, E1: IntoExpression<P>, E2: IntoExpression<P>>(exp1: E1, exp2: E2) -> (r: Box<
    Expression<P>,
>)
    ensures
        *r == Expression::And(
            Box::new(exp1.to_expression_spec()),
            Box::new(exp2.to_expression_spec()),
        ),
{
    Box::new(Expression::And(exp1.into(), exp2.into()))
}

/// Builds a disjunction.
pub fn or<P, E1: IntoExpression<P>, E2: IntoExpression<P>>(exp1: E1, exp2: E2) -> (r: Box<
    Expression<P>,
>)
    ensures
        *r == Expression::Or(
            Box::new(exp1.to_expression_spec()),
            Box::new(exp2.to_expression_spec()),
        ),
{
    Box::new(Expression::Or(exp1.into(), exp2.into()))
}

/// Builds an implication.
pub fn implies<P, E1: IntoExpression<P>, E2: IntoExpression<P>>(exp1: E1, exp2: E2) -> (r: Box<
    Expression<P>,
>)
    ensures
        *r == Expression::Implies(
            Box::new(exp1.to_expression_spec()),
            Box::new(exp2.to_expression_spec()),
        ),
{
    Box::new(Expression::Implies(exp1.into(), exp2.into()))
}

/// Builds a biconditional.
pub fn iff<P, E1: IntoExpression<P>, E2: IntoExpression<P>>(exp1: E1, exp2: E2) -> (r: Box<
    Expression<P>,
>)
    ensures
        *r == Expression::Iff(
            Box::new(exp1.to_expression_spec()),
            Box::new(exp2.to_expression_spec()),
        ),
{
    Box::new(Expression::Iff(exp1.into(), exp2.into()))
}

/// Builds the constant-true formula.
pub fn top<P>() -> (r: Box<Expression<P>>)
    ensures
        *r == Expression::<P>::Top,
{
    Box::new(Expression::Top)
}

/// Builds the constant-false formula.
pub fn bottom<P>() -> (r: Box<Expression<P>>)
    ensures
        *r == Expression::<P>::Bottom,
{
    Box::new(Expression::Bottom)
}

} // verus!
