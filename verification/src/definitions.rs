use vstd::prelude::*;

use crate::field::Mersenne31Field;

verus! {

/// Number of 16-bit limbs in which a register value is held.
pub const REGISTER_SIZE: usize = 2usize;

/// The index that marks an unused variable slot.
pub const PLACEHOLDER_VARIABLE_INDEX: u64 = 0xffff_ffff_ffff_ffffu64;

/// A variable of the constraint system, named by its index.
#[derive(Clone, Copy, Debug, PartialEq, Eq, Hash, PartialOrd, Ord, Structural)]
pub struct Variable(pub u64);

impl Variable {
    /// Whether this is the marker of an unused slot.
    pub open spec fn spec_is_placeholder(self) -> bool {
        self.0 == PLACEHOLDER_VARIABLE_INDEX
    }

    /// The marker of an unused slot.
    pub fn placeholder_variable() -> (r: Variable)
        ensures
            r.spec_is_placeholder(),
    {
        Variable(PLACEHOLDER_VARIABLE_INDEX)
    }

    /// Whether this is the marker of an unused slot.
    pub fn is_placeholder(&self) -> (r: bool)
        ensures
            r == self.spec_is_placeholder(),
    {
        self.0 == PLACEHOLDER_VARIABLE_INDEX
    }
}

/// A boolean in the circuit: a known constant, a boolean variable, or the
/// negation of a boolean variable.
#[derive(Clone, Copy, Debug, PartialEq, Eq, Hash, Structural)]
pub enum Boolean {
    Is(Variable),
    Not(Variable),
    Constant(bool),
}

/// A field element in the circuit: a variable or a known constant.
#[derive(Clone, Copy, Debug)]
pub enum Num {
    Var(Variable),
    Constant(Mersenne31Field),
}

/// What the constraint system knows of the values of its variables.
pub type Assignment = spec_fn(Variable) -> int;

impl Boolean {
    /// The value of the boolean under an assignment (0 or 1 for a variable
    /// that holds a boolean).
    pub open spec fn value(self, a: spec_fn(Variable) -> int) -> int {
        match self {
            Boolean::Is(v) => a(v),
            Boolean::Not(v) => 1 - a(v),
            Boolean::Constant(b) => if b {
                1
            } else {
                0
            },
        }
    }
}

impl Num {
    /// The value of the number under an assignment.
    pub open spec fn value(self, a: spec_fn(Variable) -> int) -> int {
        match self {
            Num::Var(v) => a(v),
            Num::Constant(c) => c.val(),
        }
    }
}

} // verus!
