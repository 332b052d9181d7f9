use vstd::prelude::*;

use crate::atom::Atom;
use crate::expr::Expression;

verus! {

/// The tautology over the neutral atom that replaces an eliminated
/// constant: `Or(Not(Var(neutral)), Var(neutral))`.
pub open spec fn neutral_tautology<P: Atom>() -> Expression<P> {
    Expression::Or(
        Box::new(Expression::Not(Box::new(Expression::Var(P::neutral_spec())))),
        Box::new(Expression::Var(P::neutral_spec())),
    )
}

/// Constant elimination: every `Top` and `Bottom` leaf becomes the
/// neutral tautology; all composite nodes are rewritten recursively.
pub open spec fn step_1_spec<P: Atom>(e: Expression<P>) -> Expression<P>
    decreases e,
{
    match e {
        Expression::Var(p) => Expression::Var(p),
        Expression::Not(a) => Expression::Not(Box::new(step_1_spec(*a))),
        Expression::And(a, b) => Expression::And(
            Box::new(step_1_spec(*a)),
            Box::new(step_1_spec(*b)),
        ),
        Expression::Or(a, b) => Expression::Or(Box::new(step_1_spec(*a)), Box::new(step_1_spec(*b))),
        Expression::Implies(a, b) => Expression::Implies(
            Box::new(step_1_spec(*a)),
            Box::new(step_1_spec(*b)),
        ),
        Expression::Iff(a, b) => Expression::Iff(
            Box::new(step_1_spec(*a)),
            Box::new(step_1_spec(*b)),
        ),
        Expression::Top => neutral_tautology::<P>(),
        Expression::Bottom => neutral_tautology::<P>(),
    }
}

/// Biconditional elimination: `Iff(A, B)` becomes
/// `And(Implies(A, B), Implies(B, A))`, with `A` and `B` copied as they
/// stand; all other composite nodes are rewritten recursively.
pub open spec fn step_2_spec<P>(e: Expression<P>) -> Expression<P>
    decreases e,
{
    match e {
        Expression::Not(a) => Expression::Not(Box::new(step_2_spec(*a))),
        Expression::And(a, b) => Expression::And(
            Box::new(step_2_spec(*a)),
            Box::new(step_2_spec(*b)),
        ),
        Expression::Or(a, b) => Expression::Or(Box::new(step_2_spec(*a)), Box::new(step_2_spec(*b))),
        Expression::Implies(a, b) => Expression::Implies(
            Box::new(step_2_spec(*a)),
            Box::new(step_2_spec(*b)),
        ),
        Expression::Iff(a, b) => Expression::And(
            Box::new(Expression::Implies(Box::new(*a), Box::new(*b))),
            Box::new(Expression::Implies(Box::new(*b), Box::new(*a))),
        ),
        _ => e,
    }
}

/// Implication elimination: `Implies(A, B)` becomes `Or(Not(A'), B')`
/// where `A'` and `B'` are rewritten recursively; biconditionals are
/// left untouched (the pipeline has already removed them).
pub open spec fn step_3_spec<P>(e: Expression<P>) -> Expression<P>
    decreases e,
{
    match e {
        Expression::Not(a) => Expression::Not(Box::new(step_3_spec(*a))),
        Expression::And(a, b) => Expression::And(
            Box::new(step_3_spec(*a)),
            Box::new(step_3_spec(*b)),
        ),
        Expression::Or(a, b) => Expression::Or(Box::new(step_3_spec(*a)), Box::new(step_3_spec(*b))),
        Expression::Implies(a, b) => Expression::Or(
            Box::new(Expression::Not(Box::new(step_3_spec(*a)))),
            Box::new(step_3_spec(*b)),
        ),
        _ => e,
    }
}

/// Negation push (De Morgan): `Not(And(A, B))` becomes `Or(Not(A), Not(B))`
/// and `Not(Or(A, B))` becomes `And(Not(A), Not(B))`, with `A` and `B`
/// copied as they stand; a negation over anything else is left untouched,
/// and conjunctions and disjunctions are rewritten recursively.
pub open spec fn step_4_spec<P>(e: Expression<P>) -> Expression<P>
    decreases e,
{
    match e {
        Expression::Not(x) => match *x {
            Expression::And(a, b) => Expression::Or(
                Box::new(Expression::Not(a)),
                Box::new(Expression::Not(b)),
            ),
            Expression::Or(a, b) => Expression::And(
                Box::new(Expression::Not(a)),
                Box::new(Expression::Not(b)),
            ),
            _ => Expression::Not(x),
        },
        Expression::And(a, b) => Expression::And(
            Box::new(step_4_spec(*a)),
            Box::new(step_4_spec(*b)),
        ),
        Expression::Or(a, b) => Expression::Or(Box::new(step_4_spec(*a)), Box::new(step_4_spec(*b))),
        _ => e,
    }
}

/// Double-negation elimination: `Not(Not(A))` becomes `A`, copied as it
/// stands; a negation over anything else is left untouched, and
/// conjunctions and disjunctions are rewritten recursively.
pub open spec fn step_5_spec<P>(e: Expression<P>) -> Expression<P>
    decreases e,
{
    match e {
        Expression::Not(x) => match *x {
            Expression::Not(inner) => *inner,
            _ => Expression::Not(x),
        },
        Expression::And(a, b) => Expression::And(
            Box::new(step_5_spec(*a)),
            Box::new(step_5_spec(*b)),
        ),
        Expression::Or(a, b) => Expression::Or(Box::new(step_5_spec(*a)), Box::new(step_5_spec(*b))),
        _ => e,
    }
}

/// One pass of the conjunctive distribution: a disjunction whose left
/// operand is a conjunction distributes as
/// `Or(And(A1, A2), B) -> And(Or(A1, B), Or(A2, B))`; otherwise a
/// conjunction on the right distributes as
/// `Or(A, And(B1, B2)) -> And(Or(A, B2), Or(A, B1))` (the swapped pair
/// order is kept deliberately); otherwise both operands are rewritten
/// recursively. Conjunctions recurse without redistribution.
pub open spec fn cnf_spec<P>(e: Expression<P>) -> Expression<P>
    decreases e,
{
    match e {
        Expression::Not(x) => Expression::Not(Box::new(cnf_spec(*x))),
        Expression::And(a, b) => Expression::And(Box::new(cnf_spec(*a)), Box::new(cnf_spec(*b))),
        Expression::Or(a, b) => match *a {
            Expression::And(a1, a2) => Expression::And(
                Box::new(Expression::Or(a1, Box::new(*b))),
                Box::new(Expression::Or(a2, Box::new(*b))),
            ),
            _ => match *b {
                Expression::And(b1, b2) => Expression::And(
                    Box::new(Expression::Or(Box::new(*a), b2)),
                    Box::new(Expression::Or(Box::new(*a), b1)),
                ),
                _ => Expression::Or(Box::new(cnf_spec(*a)), Box::new(cnf_spec(*b))),
            },
        },
        _ => e,
    }
}

/// One pass of the disjunctive distribution, the mirror image of
/// `cnf_spec`: a conjunction over a disjunction distributes, with the
/// same left-priority and the same swapped pair order on the right.
pub open spec fn dnf_spec<P>(e: Expression<P>) -> Expression<P>
    decreases e,
{
    match e {
        Expression::Not(x) => Expression::Not(Box::new(dnf_spec(*x))),
        Expression::Or(a, b) => Expression::Or(Box::new(dnf_spec(*a)), Box::new(dnf_spec(*b))),
        Expression::And(a, b) => match *a {
            Expression::Or(a1, a2) => Expression::Or(
                Box::new(Expression::And(a1, Box::new(*b))),
                Box::new(Expression::And(a2, Box::new(*b))),
            ),
            _ => match *b {
                Expression::Or(b1, b2) => Expression::Or(
                    Box::new(Expression::And(Box::new(*a), b2)),
                    Box::new(Expression::And(Box::new(*a), b1)),
                ),
                _ => Expression::And(Box::new(dnf_spec(*a)), Box::new(dnf_spec(*b))),
            },
        },
        _ => e,
    }
}

/// Two formulas are complementary when one is exactly the negation of the
/// other, compared structurally.
pub open spec fn is_complement<P>(a: Expression<P>, b: Expression<P>) -> bool {
    a == Expression::Not(Box::new(b)) || b == Expression::Not(Box::new(a))
}

/// Absorption and complement simplification: reintroduced constants
/// absorb their neighbours (`And(A, Top) -> A`, `And(A, Bottom) -> Bottom`,
/// `Or(A, Top) -> Top`, `Or(A, Bottom) -> A`, and the implication cases
/// `Implies(A, Bottom) -> Not(A)`, `Implies(Top, B) -> B`), and a
/// composite of two complementary formulas collapses to a constant
/// (`And(A, Not(A)) -> Bottom`, `Or(A, Not(A)) -> Top`, either way round).
/// Constant operands are tested in this fixed order: right `Top`, right
/// `Bottom`, left `Top`, left `Bottom`.
pub open spec fn top_bottom_spec<P>(e: Expression<P>) -> Expression<P>
    decreases e,
{
    match e {
        Expression::Not(x) => match *x {
            Expression::Bottom => Expression::Top,
            Expression::Top => Expression::Bottom,
            _ => Expression::Not(Box::new(top_bottom_spec(*x))),
        },
        Expression::And(a, b) => if *b == Expression::<P>::Top {
            top_bottom_spec(*a)
        } else if *b == Expression::<P>::Bottom {
            Expression::Bottom
        } else if *a == Expression::<P>::Top {
            top_bottom_spec(*b)
        } else if *a == Expression::<P>::Bottom {
            Expression::Bottom
        } else if is_complement(*a, *b) {
            Expression::Bottom
        } else {
            Expression::And(Box::new(top_bottom_spec(*a)), Box::new(top_bottom_spec(*b)))
        },
        Expression::Or(a, b) => if *b == Expression::<P>::Top {
            Expression::Top
        } else if *b == Expression::<P>::Bottom {
            top_bottom_spec(*a)
        } else if *a == Expression::<P>::Top {
            Expression::Top
        } else if *a == Expression::<P>::Bottom {
            top_bottom_spec(*b)
        } else if is_complement(*a, *b) {
            Expression::Top
        } else {
            Expression::Or(Box::new(top_bottom_spec(*a)), Box::new(top_bottom_spec(*b)))
        },
        Expression::Implies(a, b) => if *b == Expression::<P>::Bottom {
            Expression::Not(Box::new(top_bottom_spec(*a)))
        } else if *a == Expression::<P>::Top {
            top_bottom_spec(*b)
        } else {
            Expression::Implies(Box::new(top_bottom_spec(*a)), Box::new(top_bottom_spec(*b)))
        },
        _ => e,
    }
}

impl<P: Atom> Expression<P> {
    /// Eliminates `Top` and `Bottom` everywhere, replacing each with the
    /// tautology over the neutral atom.
    pub fn step_1(&self) -> (r: Box<Self>)
        ensures
            *r == step_1_spec(*self),
        decreases self,
    {
        match self {
            Expression::Top => crate::or(
                crate::not(crate::var(P::neutral())),
                crate::var(P::neutral()),
            ),
            Expression::Bottom => crate::or(
                crate::not(crate::var(P::neutral())),
                crate::var(P::neutral()),
            ),
            Expression::Var(p) => Box::new(Expression::Var(p.dup())),
            Expression::Not(a) => crate::not(a.step_1()),
            Expression::And(a, b) => crate::and(a.step_1(), b.step_1()),
            Expression::Or(a, b) => crate::or(a.step_1(), b.step_1()),
            Expression::Implies(a, b) => crate::implies(a.step_1(), b.step_1()),
            Expression::Iff(a, b) => crate::iff(a.step_1(), b.step_1()),
        }
    }

    /// Eliminates `Iff` nodes.
    pub fn step_2(&self) -> (r: Box<Self>)
        ensures
            *r == step_2_spec(*self),
        decreases self,
    {
        match self {
            Expression::Not(a) => crate::not(a.step_2()),
            Expression::And(a, b) => crate::and(a.step_2(), b.step_2()),
            Expression::Or(a, b) => crate::or(a.step_2(), b.step_2()),
            Expression::Implies(a, b) => crate::implies(a.step_2(), b.step_2()),
            Expression::Iff(a, b) => crate::and(
                crate::implies(a.dup(), b.dup()),
                crate::implies(b.dup(), a.dup()),
            ),
            _ => self.dup(),
        }
    }

    /// Eliminates `Implies` nodes.
    pub fn step_3(&self) -> (r: Box<Self>)
        ensures
            *r == step_3_spec(*self),
        decreases self,
    {
        match self {
            Expression::Not(a) => crate::not(a.step_3()),
            Expression::And(a, b) => crate::and(a.step_3(), b.step_3()),
            Expression::Or(a, b) => crate::or(a.step_3(), b.step_3()),
            Expression::Implies(a, b) => crate::or(crate::not(a.step_3()), b.step_3()),
            _ => self.dup(),
        }
    }

    /// Pushes a negation over a conjunction or disjunction inward by
    /// De Morgan's laws.
    pub fn step_4(&self) -> (r: Box<Self>)
        ensures
            *r == step_4_spec(*self),
        decreases self,
    {
        match self {
            Expression::Not(x) => match &**x {
                Expression::And(a, b) => crate::or(crate::not(a.dup()), crate::not(b.dup())),
                Expression::Or(a, b) => crate::and(crate::not(a.dup()), crate::not(b.dup())),
                _ => crate::not(x.dup()),
            },
            Expression::And(a, b) => crate::and(a.step_4(), b.step_4()),
            Expression::Or(a, b) => crate::or(a.step_4(), b.step_4()),
            _ => self.dup(),
        }
    }

    /// Unwraps a double negation.
    pub fn step_5(&self) -> (r: Box<Self>)
        ensures
            *r == step_5_spec(*self),
        decreases self,
    {
        match self {
            Expression::Not(x) => match &**x {
                Expression::Not(inner) => inner.dup(),
                _ => self.dup(),
            },
            Expression::And(a, b) => crate::and(a.step_5(), b.step_5()),
            Expression::Or(a, b) => crate::or(a.step_5(), b.step_5()),
            _ => self.dup(),
        }
    }

    /// One pass of the conjunctive distribution of `Or` over `And`.
    pub fn cnf(&self) -> (r: Box<Self>)
        ensures
            *r == cnf_spec(*self),
        decreases self,
    {
        match self {
            Expression::Not(x) => crate::not(x.cnf()),
            Expression::And(a, b) => crate::and(a.cnf(), b.cnf()),
            Expression::Or(a, b) => match &**a {
                Expression::And(a1, a2) => crate::and(
                    crate::or(a1.dup(), b.dup()),
                    crate::or(a2.dup(), b.dup()),
                ),
                _ => match &**b {
                    Expression::And(b1, b2) => crate::and(
                        crate::or(a.dup(), b2.dup()),
                        crate::or(a.dup(), b1.dup()),
                    ),
                    _ => crate::or(a.cnf(), b.cnf()),
                },
            },
            _ => self.dup(),
        }
    }

    /// One pass of the disjunctive distribution of `And` over `Or`.
    pub fn dnf(&self) -> (r: Box<Self>)
        ensures
            *r == dnf_spec(*self),
        decreases self,
    {
        match self {
            Expression::Not(x) => crate::not(x.dnf()),
            Expression::Or(a, b) => crate::or(a.dnf(), b.dnf()),
            Expression::And(a, b) => match &**a {
                Expression::Or(a1, a2) => crate::or(
                    crate::and(a1.dup(), b.dup()),
                    crate::and(a2.dup(), b.dup()),
                ),
                _ => match &**b {
                    Expression::Or(b1, b2) => crate::or(
                        crate::and(a.dup(), b2.dup()),
                        crate::and(a.dup(), b1.dup()),
                    ),
                    _ => crate::and(a.dnf(), b.dnf()),
                },
            },
            _ => self.dup(),
        }
    }

    /// Decides whether the two formulas are complementary literals in the
    /// structural sense: one is exactly the negation of the other.
    pub fn complements(&self, other: &Self) -> (r: bool)
        ensures
            r == is_complement(*self, *other),
    {
        let forward = match self {
            Expression::Not(x) => x.struct_eq(other),
            _ => false,
        };
        if forward {
            true
        } else {
            match other {
                Expression::Not(y) => y.struct_eq(self),
                _ => false,
            }
        }
    }

    /// Reintroduces constants by absorption and collapses complementary
    /// pairs; an optional post-processing simplifier, never invoked by the
    /// normalization pipeline itself.
    pub fn top_bottom_rules(&self) -> (r: Box<Self>)
        ensures
            *r == top_bottom_spec(*self),
        decreases self,
    {
        match self {
            Expression::Not(x) => match &**x {
                Expression::Bottom => crate::top(),
                Expression::Top => crate::bottom(),
                _ => crate::not(x.top_bottom_rules()),
            },
            Expression::And(a, b) => match (&**a, &**b) {
                (_, Expression::Top) => a.top_bottom_rules(),
                (_, Expression::Bottom) => crate::bottom(),
                (Expression::Top, _) => b.top_bottom_rules(),
                (Expression::Bottom, _) => crate::bottom(),
                _ => if a.complements(b) {
                    crate::bottom()
                } else {
                    crate::and(a.top_bottom_rules(), b.top_bottom_rules())
                },
            },
            Expression::Or(a, b) => match (&**a, &**b) {
                (_, Expression::Top) => crate::top(),
                (_, Expression::Bottom) => a.top_bottom_rules(),
                (Expression::Top, _) => crate::top(),
                (Expression::Bottom, _) => b.top_bottom_rules(),
                _ => if a.complements(b) {
                    crate::top()
                } else {
                    crate::or(a.top_bottom_rules(), b.top_bottom_rules())
                },
            },
            Expression::Implies(a, b) => match (&**a, &**b) {
                (_, Expression::Bottom) => crate::not(a.top_bottom_rules()),
                (Expression::Top, _) => b.top_bottom_rules(),
                _ => crate::implies(a.top_bottom_rules(), b.top_bottom_rules()),
            },
            _ => self.dup(),
        }
    }
}

} // verus!
