use vstd::prelude::*;

use crate::atom::Atom;

verus! {

/// A propositional formula over atoms of type `P`: a leaf (a variable or a
/// constant) or a composite node. Every rewrite produces a new tree; no
/// node is ever mutated in place.
#[derive(Debug)]
pub enum Expression<P> {
    Var(P),
    Not(Box<Expression<P>>),
    And(Box<Expression<P>>, Box<Expression<P>>),
    Or(Box<Expression<P>>, Box<Expression<P>>),
    Implies(Box<Expression<P>>, Box<Expression<P>>),
    Iff(Box<Expression<P>>, Box<Expression<P>>),
    Top,
    Bottom,
}

/// Anything the builders accept as an operand: an expression passes
/// through unchanged, and a boolean literal becomes `Top` or `Bottom`.
pub trait IntoExpression<P>: Sized {
    /// The expression this operand stands for.
    spec fn to_expression_spec(self) -> Expression<P>;

    /// Converts the operand into a boxed expression node.
    fn into(self) -> (r: Box<Expression<P>>)
        ensures
            *r == self.to_expression_spec(),
    ;
}

impl<P> IntoExpression<P> for Box<Expression<P>> {
    open spec fn to_expression_spec(self) -> Expression<P> {
        *self
    }

    fn into(self) -> (r: Box<Expression<P>>) {
        self
    }
}

impl<P> IntoExpression<P> for bool {
    open spec fn to_expression_spec(self) -> Expression<P> {
        if self {
            Expression::Top
        } else {
            Expression::Bottom
        }
    }

    fn into(self) -> (r: Box<Expression<P>>) {
        if self {
            Box::new(Expression::Top)
        } else {
            Box::new(Expression::Bottom)
        }
    }
}

impl<P: Atom> Expression<P> {
    /// Structural equality: recursive node-by-node comparison, independent
    /// of logical meaning. This is the termination test of every
    /// fixed-point loop and the detector of complementary literals.
    pub fn struct_eq(&self, other: &Self) -> (r: bool)
        ensures
            r == (*self == *other),
        decreases self,
    {
        match (self, other) {
            (Expression::Var(a), Expression::Var(b)) => a.eq_atom(b),
            (Expression::Not(a), Expression::Not(b)) => a.struct_eq(b),
            (Expression::And(a1, a2), Expression::And(b1, b2)) => a1.struct_eq(b1) && a2.struct_eq(
                b2,
            ),
            (Expression::Or(a1, a2), Expression::Or(b1, b2)) => a1.struct_eq(b1) && a2.struct_eq(
                b2,
            ),
            (Expression::Implies(a1, a2), Expression::Implies(b1, b2)) => a1.struct_eq(b1)
                && a2.struct_eq(b2),
            (Expression::Iff(a1, a2), Expression::Iff(b1, b2)) => a1.struct_eq(b1) && a2.struct_eq(
                b2,
            ),
            (Expression::Top, Expression::Top) => true,
            (Expression::Bottom, Expression::Bottom) => true,
            _ => false,
        }
    }

    /// Returns a structurally identical copy of the tree.
    pub fn dup(&self) -> (r: Box<Self>)
        ensures
            *r == *self,
        decreases self,
    {
        match self {
            Expression::Var(p) => Box::new(Expression::Var(p.dup())),
            Expression::Not(a) => Box::new(Expression::Not(a.dup())),
            Expression::And(a, b) => Box::new(Expression::And(a.dup(), b.dup())),
            Expression::Or(a, b) => Box::new(Expression::Or(a.dup(), b.dup())),
            Expression::Implies(a, b) => Box::new(Expression::Implies(a.dup(), b.dup())),
            Expression::Iff(a, b) => Box::new(Expression::Iff(a.dup(), b.dup())),
            Expression::Top => Box::new(Expression::Top),
            Expression::Bottom => Box::new(Expression::Bottom),
        }
    }
}

impl<P: Atom> PartialEq for Expression<P> {
    fn eq(&self, other: &Self) -> (r: bool) {
        self.struct_eq(other)
    }
}

impl<P: Atom> vstd::std_specs::cmp::PartialEqSpecImpl for Expression<P> {
    open spec fn obeys_eq_spec() -> bool {
        true
    }

    open spec fn eq_spec(&self, other: &Self) -> bool {
        *self == *other
    }
}

} // verus!
