use vstd::prelude::*;

use crate::atom::Atom;
use crate::expr::Expression;
use crate::measures::cnf_weight;
use crate::measures::demorgan_weight;
use crate::measures::dnf_weight;
use crate::measures::iff_weight;
use crate::measures::implies_weight;
use crate::measures::lemma_cnf_measure;
use crate::measures::lemma_dnf_measure;
use crate::measures::lemma_step_1_eliminates;
use crate::measures::lemma_step_1_fixed_point;
use crate::measures::lemma_step_2_measure;
use crate::measures::lemma_step_3_measure;
use crate::measures::lemma_step_4_measure;
use crate::measures::lemma_step_5_measure;
use crate::measures::not_count;
use crate::measures::tb_count;
use crate::rules::cnf_spec;
use crate::rules::dnf_spec;
use crate::rules::step_1_spec;
use crate::rules::step_2_spec;
use crate::rules::step_3_spec;
use crate::rules::step_4_spec;
use crate::rules::step_5_spec;

verus! {

/// Constant elimination iterated to its fixed point.
pub open spec fn fix_step_1<P: Atom>(e: Expression<P>) -> Expression<P>
    decreases tb_count(e),
    via fix_step_1_decreases::<P>
{
    if step_1_spec(e) == e {
        e
    } else {
        fix_step_1(step_1_spec(e))
    }
}

#[via_fn]
proof fn fix_step_1_decreases<P: Atom>(e: Expression<P>) {
    if step_1_spec(e) != e {
        lemma_step_1_eliminates(e);
        lemma_step_1_fixed_point(e);
    }
}

/// Biconditional elimination iterated to its fixed point.
pub open spec fn fix_step_2<P>(e: Expression<P>) -> Expression<P>
    decreases iff_weight(e),
    via fix_step_2_decreases::<P>
{
    if step_2_spec(e) == e {
        e
    } else {
        fix_step_2(step_2_spec(e))
    }
}

#[via_fn]
proof fn fix_step_2_decreases<P>(e: Expression<P>) {
    if step_2_spec(e) != e {
        lemma_step_2_measure(e);
    }
}

/// Implication elimination iterated to its fixed point.
pub open spec fn fix_step_3<P>(e: Expression<P>) -> Expression<P>
    decreases implies_weight(e),
    via fix_step_3_decreases::<P>
{
    if step_3_spec(e) == e {
        e
    } else {
        fix_step_3(step_3_spec(e))
    }
}

#[via_fn]
proof fn fix_step_3_decreases<P>(e: Expression<P>) {
    if step_3_spec(e) != e {
        lemma_step_3_measure(e);
    }
}

/// The negation push iterated to its fixed point.
pub open spec fn fix_step_4<P>(e: Expression<P>) -> Expression<P>
    decreases demorgan_weight(e),
    via fix_step_4_decreases::<P>
{
    if step_4_spec(e) == e {
        e
    } else {
        fix_step_4(step_4_spec(e))
    }
}

#[via_fn]
proof fn fix_step_4_decreases<P>(e: Expression<P>) {
    if step_4_spec(e) != e {
        lemma_step_4_measure(e);
    }
}

/// Double-negation elimination iterated to its fixed point.
pub open spec fn fix_step_5<P>(e: Expression<P>) -> Expression<P>
    decreases not_count(e),
    via fix_step_5_decreases::<P>
{
    if step_5_spec(e) == e {
        e
    } else {
        fix_step_5(step_5_spec(e))
    }
}

#[via_fn]
proof fn fix_step_5_decreases<P>(e: Expression<P>) {
    if step_5_spec(e) != e {
        lemma_step_5_measure(e);
    }
}

/// The conjunctive distribution iterated to its fixed point.
pub open spec fn fix_cnf<P>(e: Expression<P>) -> Expression<P>
    decreases cnf_weight(e),
    via fix_cnf_decreases::<P>
{
    if cnf_spec(e) == e {
        e
    } else {
        fix_cnf(cnf_spec(e))
    }
}

#[via_fn]
proof fn fix_cnf_decreases<P>(e: Expression<P>) {
    if cnf_spec(e) != e {
        lemma_cnf_measure(e);
    }
}

/// The disjunctive distribution iterated to its fixed point.
pub open spec fn fix_dnf<P>(e: Expression<P>) -> Expression<P>
    decreases dnf_weight(e),
    via fix_dnf_decreases::<P>
{
    if dnf_spec(e) == e {
        e
    } else {
        fix_dnf(dnf_spec(e))
    }
}

#[via_fn]
proof fn fix_dnf_decreases<P>(e: Expression<P>) {
    if dnf_spec(e) != e {
        lemma_dnf_measure(e);
    }
}

/// The five shared rewrite passes in pipeline order, each run to its
/// fixed point before the next begins.
pub open spec fn shared_passes_spec<P: Atom>(e: Expression<P>) -> Expression<P> {
    fix_step_5(fix_step_4(fix_step_3(fix_step_2(fix_step_1(e)))))
}

/// The whole conjunctive pipeline: the five shared passes, then the
/// conjunctive distribution to its fixed point.
pub open spec fn to_cnf_spec<P: Atom>(e: Expression<P>) -> Expression<P> {
    fix_cnf(shared_passes_spec(e))
}

/// The whole disjunctive pipeline: the five shared passes, then the
/// disjunctive distribution to its fixed point.
pub open spec fn to_dnf_spec<P: Atom>(e: Expression<P>) -> Expression<P> {
    fix_dnf(shared_passes_spec(e))
}

impl<P: Atom> Expression<P> {
    fn run_step_1(self: Box<Self>) -> (r: Box<Self>)
        ensures
            *r == fix_step_1(*self),
    {
        let ghost start = *self;
        let mut cur = self;
        let mut next = cur.step_1();
        while !cur.struct_eq(&next)
            invariant
                *next == step_1_spec(*cur),
                fix_step_1(*cur) == fix_step_1(start),
            decreases tb_count(*cur),
        {
            proof {
                lemma_step_1_eliminates(*cur);
                lemma_step_1_fixed_point(*cur);
            }
            cur = next;
            next = cur.step_1();
        }
        cur
    }

    fn run_step_2(self: Box<Self>) -> (r: Box<Self>)
        ensures
            *r == fix_step_2(*self),
    {
        let ghost start = *self;
        let mut cur = self;
        let mut next = cur.step_2();
        while !cur.struct_eq(&next)
            invariant
                *next == step_2_spec(*cur),
                fix_step_2(*cur) == fix_step_2(start),
            decreases iff_weight(*cur),
        {
            proof {
                lemma_step_2_measure(*cur);
            }
            cur = next;
            next = cur.step_2();
        }
        cur
    }

    fn run_step_3(self: Box<Self>) -> (r: Box<Self>)
        ensures
            *r == fix_step_3(*self),
    {
        let ghost start = *self;
        let mut cur = self;
        let mut next = cur.step_3();
        while !cur.struct_eq(&next)
            invariant
                *next == step_3_spec(*cur),
                fix_step_3(*cur) == fix_step_3(start),
            decreases implies_weight(*cur),
        {
            proof {
                lemma_step_3_measure(*cur);
            }
            cur = next;
            next = cur.step_3();
        }
        cur
    }

    fn run_step_4(self: Box<Self>) -> (r: Box<Self>)
        ensures
            *r == fix_step_4(*self),
    {
        let ghost start = *self;
        let mut cur = self;
        let mut next = cur.step_4();
        while !cur.struct_eq(&next)
            invariant
                *next == step_4_spec(*cur),
                fix_step_4(*cur) == fix_step_4(start),
            decreases demorgan_weight(*cur),
        {
            proof {
                lemma_step_4_measure(*cur);
            }
            cur = next;
            next = cur.step_4();
        }
        cur
    }

    fn run_step_5(self: Box<Self>) -> (r: Box<Self>)
        ensures
            *r == fix_step_5(*self),
    {
        let ghost start = *self;
        let mut cur = self;
        let mut next = cur.step_5();
        while !cur.struct_eq(&next)
            invariant
                *next == step_5_spec(*cur),
                fix_step_5(*cur) == fix_step_5(start),
            decreases not_count(*cur),
        {
            proof {
                lemma_step_5_measure(*cur);
            }
            cur = next;
            next = cur.step_5();
        }
        cur
    }

    fn run_cnf(self: Box<Self>) -> (r: Box<Self>)
        ensures
            *r == fix_cnf(*self),
    {
        let ghost start = *self;
        let mut cur = self;
        let mut next = cur.cnf();
        while !cur.struct_eq(&next)
            invariant
                *next == cnf_spec(*cur),
                fix_cnf(*cur) == fix_cnf(start),
            decreases cnf_weight(*cur),
        {
            proof {
                lemma_cnf_measure(*cur);
            }
            cur = next;
            next = cur.cnf();
        }
        cur
    }

    fn run_dnf(self: Box<Self>) -> (r: Box<Self>)
        ensures
            *r == fix_dnf(*self),
    {
        let ghost start = *self;
        let mut cur = self;
        let mut next = cur.dnf();
        while !cur.struct_eq(&next)
            invariant
                *next == dnf_spec(*cur),
                fix_dnf(*cur) == fix_dnf(start),
            decreases dnf_weight(*cur),
        {
            proof {
                lemma_dnf_measure(*cur);
            }
            cur = next;
            next = cur.dnf();
        }
        cur
    }

    /// Transforms the formula into conjunctive normal form: the five
    /// shared passes run in order, each to its own fixed point, then the
    /// conjunctive distribution runs to its fixed point.
    pub fn transform_to_cnf(self: Box<Self>) -> (r: Box<Self>)
        ensures
            *r == to_cnf_spec(*self),
    {
        self.run_step_1().run_step_2().run_step_3().run_step_4().run_step_5().run_cnf()
    }

    /// Transforms the formula into disjunctive normal form: the five
    /// shared passes run in order, each to its own fixed point, then the
    /// disjunctive distribution runs to its fixed point.
    pub fn transform_to_dnf(self: Box<Self>) -> (r: Box<Self>)
        ensures
            *r == to_dnf_spec(*self),
    {
        self.run_step_1().run_step_2().run_step_3().run_step_4().run_step_5().run_dnf()
    }
}

} // verus!
