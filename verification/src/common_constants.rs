use vstd::prelude::*;

verus! {

/// A control and status register recognized only by development tooling.
pub const TRANSPILER_MARKER_CSR: u32 = 0x7ffu32;

/// The size of an instruction word.
pub const PC_STEP: usize = 4usize;

pub const ROM_BYTE_SIZE_LOG2: usize = 22usize;

pub const ROM_BYTE_SIZE: usize = 0x40_0000usize;

pub const ROM_SECOND_WORD_BITS: usize = 6usize;

pub const ROM_WORD_SIZE: usize = 0x10_0000usize;

pub const INITIAL_PC: u32 = 0u32;

pub const NON_DETERMINISM_CSR: u32 = 0x7c0u32;

pub const CYCLE_CSR_INDEX: u32 = 3072u32;

pub const BIGINT_NUM_CONTROL_BITS: usize = 8usize;

pub const ADD_OP_BIT_IDX: usize = 0usize;

pub const SUB_OP_BIT_IDX: usize = 1usize;

pub const SUB_AND_NEGATE_OP_BIT_IDX: usize = 2usize;

pub const MUL_LOW_OP_BIT_IDX: usize = 3usize;

pub const MUL_HIGH_OP_BIT_IDX: usize = 4usize;

pub const EQ_OP_BIT_IDX: usize = 5usize;

pub const CARRY_BIT_IDX: usize = 6usize;

pub const MEMCOPY_BIT_IDX: usize = 7usize;

pub const BIGINT_OPS_WITH_CONTROL_CSR_REGISTER: u32 = NON_DETERMINISM_CSR + 10;

pub const NUM_BIGINT_REGISTER_ACCESSES: usize = 3usize;

pub const NUM_BIGINT_VARIABLE_OFFSETS: usize = 0usize;

pub const BIGINT_X10_NUM_WRITES: usize = 8usize;

pub const BIGINT_X11_NUM_READS: usize = 8usize;

pub const BIGINT_TOTAL_RAM_ACCESSES: usize = 16usize;

pub const BIGINT_BASE_ABI_REGISTER: u32 = 10u32;

pub const BLAKE2S_MAX_ROUNDS: usize = 10usize;

pub const BLAKE2S_NUM_CONTROL_BITS: usize = 3usize;

pub const BLAKE2S_NUM_CONTROL_REGISTER_BITS: usize = BLAKE2S_MAX_ROUNDS + BLAKE2S_NUM_CONTROL_BITS;

pub const BLAKE2S_DELEGATION_CSR_REGISTER: u32 = NON_DETERMINISM_CSR + 7;

pub const NUM_BLAKE2S_REGISTER_ACCESSES: usize = 3usize;

pub const NUM_BLAKE2S_VARIABLE_OFFSETS: usize = 0usize;

pub const BLAKE2S_NORMAL_MODE_FULL_ROUNDS_INITIAL_CONTROL_REGISTER: u32 = 0x8_0000u32;

pub const BLAKE2S_NORMAL_MODE_REDUCED_ROUNDS_INITIAL_CONTROL_REGISTER: u32 = 0x9_0000u32;

pub const BLAKE2S_COMPRESSION_MODE_IS_RIGHT_EXTRA_BITS: u32 = 0x2_0000u32;

pub const BLAKE2S_COMPRESSION_MODE_EXTRA_BITS: u32 = 0x4_0000u32;

pub const BLAKE2S_X10_NUM_WRITES: usize = 24usize;

pub const BLAKE2S_X11_NUM_READS: usize = 16usize;

pub const BLAKE2S_TOTAL_RAM_ACCESSES: usize = BLAKE2S_X10_NUM_WRITES + BLAKE2S_X11_NUM_READS;

pub const BLAKE2S_BASE_ABI_REGISTER: u32 = 10u32;

pub const PRECOMPILE_MODE_BITS: usize = 3usize;

pub const ITERATION_BITS: usize = 3usize;

pub const ROUND_BITS: usize = 5usize;

pub const KECCAK5_TOTAL_NUM_CONTROL_BITS: usize = PRECOMPILE_MODE_BITS + ITERATION_BITS + ROUND_BITS;

pub const NUM_X10_INDIRECT_U64_WORDS: usize = 6usize;

pub const KECCAK_SPECIAL5_NUM_VARIABLE_OFFSETS: usize = NUM_X10_INDIRECT_U64_WORDS;

pub const KECCAK_SPECIAL5_CSR_REGISTER: u32 = NON_DETERMINISM_CSR + 11;

pub const NUM_KECCAK_SPECIAL5_REGISTER_ACCESSES: usize = 2usize;

pub const NUM_KECCAK_SPECIAL5_INDIRECT_READS: usize = 0usize;

pub const KECCAK_SPECIAL5_X11_NUM_WRITES: usize = 12usize;

pub const KECCAK_SPECIAL5_TOTAL_RAM_ACCESSES: usize = KECCAK_SPECIAL5_X11_NUM_WRITES;

pub const KECCAK_SPECIAL5_BASE_ABI_REGISTER: u32 = 10u32;

pub const KECCAK_SPECIAL5_STATE_AND_SCRATCH_U64_WORDS: usize = 31usize;

pub const NUM_DELEGATION_CALLS_FOR_KECCAK_F1600: usize = 649usize;

pub const INITIAL_KECCAK_F1600_CONTROL_VALUE: u32 = 0u32;

pub const FINAL_KECCAK_F1600_CONTROL_VALUE: u32 = 1544u32;

} // verus!
