use vstd::prelude::*;

use crate::definitions::{Boolean, Variable};
use crate::lookup_input::LookupInput;

verus! {

/// The kind of a shuffle-RAM query: a register, or a register-or-RAM access
/// at a two-limb address.
#[derive(Debug, Clone, Copy, Hash, PartialEq, Eq)]
pub enum ShuffleRamQueryType {
    RegisterOnly { register_index: Variable },
    RegisterOrRam { is_register: Boolean, address: [Variable; 2] },
}

/// A table that a lookup goes into: one whose id is in a variable, a fixed
/// one, or one whose id is given by an expression.
#[derive(Clone, Debug)]
pub enum LookupQueryTableType {
    Variable(Variable),
    Constant(TableType),
    Expression(LookupInput),
}

/// The id of a lookup table.
#[derive(Clone, Copy, Debug, PartialEq, Eq, Hash)]
pub struct TableType(pub u32);

/// A lookup of a row of inputs in a table.
#[derive(Clone, Debug)]
pub struct LookupQuery {
    pub row: Vec<LookupInput>,
    pub table: LookupQueryTableType,
}

/// A range check of an input to a number of bits.
#[derive(Clone, Debug)]
pub struct RangeCheckQuery {
    pub input: LookupInput,
    pub width: usize,
}

impl RangeCheckQuery {
    /// A range check of a variable.
    pub fn new(variable: Variable, width: usize) -> (r: Self)
        ensures
            r.input == LookupInput::Variable(variable),
            r.width == width,
    {
        RangeCheckQuery { input: LookupInput::Variable(variable), width }
    }

    /// A range check of an input.
    pub fn new_for_input(input: LookupInput, width: usize) -> (r: Self)
        ensures
            r.input == input,
            r.width == width,
    {
        RangeCheckQuery { input, width }
    }
}

/// An offset of an indirect access relative to a register's value.
#[derive(Clone, Debug, PartialEq, Eq, Hash)]
pub struct IndirectAccessOffset {
    pub variable_dependent: Option<(u32, Variable)>,
    pub offset_constant: u32,
    pub assume_no_alignment_overflow: bool,
    pub is_write_access: bool,
}

/// A request to access a register and memory at offsets from its value.
#[derive(Clone, Debug, PartialEq, Eq, Hash)]
pub struct RegisterAccessRequest {
    pub register_index: u32,
    pub register_write: bool,
    pub indirects_alignment_log2: u32,
    pub indirect_accesses: Vec<IndirectAccessOffset>,
}

/// The variables of a register access.
#[derive(Clone, Copy, Debug, PartialEq, Eq, Hash)]
pub enum RegisterAccessType {
    Read { read_value: [Variable; 2] },
    Write { read_value: [Variable; 2], write_value: [Variable; 2] },
}

/// The variables and offset of an indirect memory access.
#[derive(Clone, Copy, Debug, PartialEq, Eq, Hash)]
pub enum IndirectAccessType {
    Read {
        read_value: [Variable; 2],
        variable_dependent: Option<(u32, Variable, usize)>,
        offset_constant: u32,
        assume_no_alignment_overflow: bool,
    },
    Write {
        read_value: [Variable; 2],
        write_value: [Variable; 2],
        variable_dependent: Option<(u32, Variable, usize)>,
        offset_constant: u32,
        assume_no_alignment_overflow: bool,
    },
}

impl IndirectAccessType {
    /// Whether the access may be taken as aligned (no overflow of the
    /// alignment when the offset is added).
    pub fn consider_aligned(&self) -> (r: bool)
        ensures
            r == match *self {
                IndirectAccessType::Read { assume_no_alignment_overflow, .. } => assume_no_alignment_overflow,
                IndirectAccessType::Write { assume_no_alignment_overflow, .. } => assume_no_alignment_overflow,
            },
    {
        match self {
            IndirectAccessType::Read { assume_no_alignment_overflow, .. } => *assume_no_alignment_overflow,
            IndirectAccessType::Write { assume_no_alignment_overflow, .. } => *assume_no_alignment_overflow,
        }
    }

    /// The constant offset of the access.
    pub fn offset_constant(&self) -> (r: u32)
        ensures
            r == match *self {
                IndirectAccessType::Read { offset_constant, .. } => offset_constant,
                IndirectAccessType::Write { offset_constant, .. } => offset_constant,
            },
    {
        match self {
            IndirectAccessType::Read { offset_constant, .. } => *offset_constant,
            IndirectAccessType::Write { offset_constant, .. } => *offset_constant,
        }
    }

    /// The part of the offset that depends on a variable, if any.
    pub fn variable_dependent(&self) -> (r: Option<(u32, Variable, usize)>)
        ensures
            r == match *self {
                IndirectAccessType::Read { variable_dependent, .. } => variable_dependent,
                IndirectAccessType::Write { variable_dependent, .. } => variable_dependent,
            },
    {
        match self {
            IndirectAccessType::Read { variable_dependent, .. } => *variable_dependent,
            IndirectAccessType::Write { variable_dependent, .. } => *variable_dependent,
        }
    }
}

/// A register access together with the memory accesses at offsets from the
/// register's value.
#[derive(Clone, Debug, PartialEq, Eq, Hash)]
pub struct RegisterAndIndirectAccesses {
    pub register_index: u32,
    pub register_access: RegisterAccessType,
    pub indirects_alignment_log2: u32,
    pub indirect_accesses: Vec<IndirectAccessType>,
}

} // verus!
