use vstd::prelude::*;

verus! {

/// The capabilities the rewrite pipeline needs of an atom type: decidable
/// equality (the termination oracle of every fixed-point loop compares
/// trees node by node), duplication (rewritten trees reuse atoms of the
/// input tree), and a canonical neutral value (constant elimination turns
/// `Top` and `Bottom` into a tautology over that value).
pub trait Atom: Sized {
    /// The neutral value, as a mathematical value.
    spec fn neutral_spec() -> Self;

    /// Returns the neutral value.
    fn neutral() -> (r: Self)
        ensures
            r == Self::neutral_spec(),
    ;

    /// Decides equality of two atoms.
    fn eq_atom(&self, other: &Self) -> (r: bool)
        ensures
            r == (*self == *other),
    ;

    /// Returns a copy of the atom.
    fn dup(&self) -> (r: Self)
        ensures
            r == *self,
    ;
}

impl Atom for char {
    open spec fn neutral_spec() -> char {
        '\0'
    }

    fn neutral() -> (r: char) {
        '\0'
    }

    fn eq_atom(&self, other: &char) -> (r: bool) {
        *self == *other
    }

    fn dup(&self) -> (r: char) {
        *self
    }
}

impl Atom for u64 {
    open spec fn neutral_spec() -> u64 {
        0
    }

    fn neutral() -> (r: u64) {
        0
    }

    fn eq_atom(&self, other: &u64) -> (r: bool) {
        *self == *other
    }

    fn dup(&self) -> (r: u64) {
        *self
    }
}

} // verus!
