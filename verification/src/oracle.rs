use vstd::prelude::*;

use crate::field::Mersenne31Field;
use crate::placeholder::Placeholder;

verus! {

/// The fields of a decoded instruction that an executor circuit takes from
/// the decoder.
#[derive(Clone, Copy, Debug, PartialEq, Eq, Hash)]
pub struct ExecutorFamilyDecoderData {
    pub imm: u32,
    pub rs1_index: u8,
    pub rs2_index: u8,
    pub rd_index: u8,
    pub rd_is_zero: bool,
    pub funct3: u8,
    pub funct7: Option<u8>,
    pub opcode_family_bits: u32,
}

impl Default for ExecutorFamilyDecoderData {
    /// A self-consistent value, as family-agnostic as possible: every field
    /// zero, no `funct7`, and `rd_is_zero` set to match `rd_index`.
    fn default() -> (r: Self)
        ensures
            r.imm == 0,
            r.rs1_index == 0,
            r.rs2_index == 0,
            r.rd_index == 0,
            r.rd_is_zero,
            r.funct3 == 0,
            r.funct7 is None,
            r.opcode_family_bits == 0,
    {
        ExecutorFamilyDecoderData {
            imm: 0,
            rs1_index: 0,
            rs2_index: 0,
            rd_index: 0,
            rd_is_zero: true,
            funct3: 0,
            funct7: None,
            opcode_family_bits: 0,
        }
    }
}

/// What the prover knows from outside the circuit, asked for by
/// placeholder and trace row. Implemented by the prover's users.
pub trait Oracle {
    /// The field witness of a placeholder at a subindex and trace row; an
    /// oracle verified against these contracts gives its own, and the
    /// default names none.
    closed spec fn spec_witness(&self, placeholder: Placeholder, subindex: usize, trace_row: usize) -> Mersenne31Field {
        vstd::pervasive::arbitrary()
    }

    fn get_witness_from_placeholder(
        &self,
        placeholder: Placeholder,
        subindex: usize,
        trace_row: usize,
    ) -> (r: Mersenne31Field)
        ensures
            r == self.spec_witness(placeholder, subindex, trace_row),
    ;

    fn get_u32_witness_from_placeholder(&self, placeholder: Placeholder, trace_row: usize) -> u32;

    /// The low 16 bits of the reduced field witness at subindex zero.
    fn get_u16_witness_from_placeholder(&self, placeholder: Placeholder, trace_row: usize) -> (r: u16)
        ensures
            r as int == self.spec_witness(placeholder, 0, trace_row).val() % 0x1_0000,
    {
        let v = self.get_witness_from_placeholder(placeholder, 0, trace_row);
        (v.as_u32_reduced() % 0x1_0000) as u16
    }

    /// The low 8 bits of the reduced field witness at subindex zero.
    fn get_u8_witness_from_placeholder(&self, placeholder: Placeholder, trace_row: usize) -> (r: u8)
        ensures
            r as int == self.spec_witness(placeholder, 0, trace_row).val() % 0x100,
    {
        let v = self.get_witness_from_placeholder(placeholder, 0, trace_row);
        (v.as_u32_reduced() % 0x100) as u8
    }

    /// The field witness at subindex zero read as a boolean.
    fn get_boolean_witness_from_placeholder(&self, placeholder: Placeholder, trace_row: usize) -> (r: bool)
        ensures
            r == (self.spec_witness(placeholder, 0, trace_row).val() != 0),
    {
        let v = self.get_witness_from_placeholder(placeholder, 0, trace_row);
        v.as_boolean()
    }

    fn get_timestamp_witness_from_placeholder(&self, placeholder: Placeholder, trace_row: usize) -> u64;

    fn get_executor_family_data(&self, trace_row: usize) -> ExecutorFamilyDecoderData;
}

} // verus!
